//! Device specific handling: validation of a raw HID report, and the trait
//! through which a transport hands reports to the decoder.
use crate::parts::MonitorReadingParts;
use crate::reading::MonitorReading;
use crate::report::MonitorReportRaw;
use vstd::prelude::*;

verus! {

/// The vendor ID of the monitor.
pub const VID: u16 = 0x04d9;

/// The product ID of the monitor.
pub const PID: u16 = 0xa052;

/// Number of bytes in one HID report of the monitor.
pub const REPORT_LEN: usize = 8;

/// The byte that every report carries in its fifth position.
pub const TERMINATOR_BYTE: u8 = 0x0d;

/// Most errors should be safely assumed to be skippable.
#[derive(Copy, Clone, Debug, PartialEq, Eq, Structural)]
pub enum MonitorError {
    /// Something during the read failed.
    ReadFailed,
    /// The read report doesn't contain the terminator byte in fifth position.
    MissingTerminatorByte,
    /// The first three bytes don't sum to the fourth, in the lowest byte.
    ChecksumInvalid,
    /// A timeout interrupted the USB-HID read.
    Timeout,
}

/// The checksum that the first three bytes of a report call for: their sum
/// modulo 256.
pub open spec fn report_checksum(report: Seq<u8>) -> int
    recommends
        report.len() == REPORT_LEN,
{
    (report[0] + report[1] + report[2]) % 256
}

/// The 16-bit value of a report: its second byte above its third.
pub open spec fn report_value(report: Seq<u8>) -> int
    recommends
        report.len() == REPORT_LEN,
{
    256 * report[1] + report[2]
}

/// Whether a report is intact: the terminator is in place and the checksum
/// agrees.
pub open spec fn report_is_well_formed(report: Seq<u8>) -> bool
    recommends
        report.len() == REPORT_LEN,
{
    report[4] == TERMINATOR_BYTE && report_checksum(report) == report[3]
}

/// What decoding a report gives. The terminator is looked at first, so a
/// report that lacks it is never blamed for its checksum.
pub open spec fn decoded_report(report: Seq<u8>) -> Result<(u8, u16), MonitorError>
    recommends
        report.len() == REPORT_LEN,
{
    if report[4] != TERMINATOR_BYTE {
        Err(MonitorError::MissingTerminatorByte)
    } else if report_checksum(report) != report[3] {
        Err(MonitorError::ChecksumInvalid)
    } else {
        Ok((report[0], report_value(report) as u16))
    }
}

/// What one read does to the accumulator and what it yields.
///
/// A full report that decodes sets its field and then attempts to complete.
/// A full report that does not decode yields its error and leaves the
/// accumulator alone. A short read or a failed one brings no data this
/// cycle: the attempt to complete is still made, on the fields as they are.
pub open spec fn read_outcome(
    parts: MonitorReadingParts,
    read_len: Result<usize, MonitorError>,
    report: Seq<u8>,
) -> (MonitorReadingParts, Result<Option<MonitorReading>, MonitorError>)
    recommends
        report.len() == REPORT_LEN,
{
    if read_len == Ok::<usize, MonitorError>(REPORT_LEN) {
        match decoded_report(report) {
            Ok((op, val)) => {
                let filled = parts.with_field(MonitorReportRaw::interpret(op, val));
                (filled.after_yield(), Ok(filled.yielded()))
            },
            Err(e) => (parts, Err(e)),
        }
    } else {
        (parts.after_yield(), Ok(parts.yielded()))
    }
}

/// Checks the terminator byte and the checksum of a report and extracts the
/// opcode and the value.
pub fn decode_report(read_buffer: &[u8; 8]) -> (decoded: Result<(u8, u16), MonitorError>)
    ensures
        decoded == decoded_report(read_buffer@),
        decoded is Ok <==> report_is_well_formed(read_buffer@),
        decoded is Ok ==> decoded->Ok_0.0 == read_buffer@[0] && decoded->Ok_0.1 == 256
            * read_buffer@[1] + read_buffer@[2],
{
    if read_buffer[4] != TERMINATOR_BYTE {
        return Err(MonitorError::MissingTerminatorByte);
    }
    let b0: u16 = read_buffer[0] as u16;
    let b1: u16 = read_buffer[1] as u16;
    let b2: u16 = read_buffer[2] as u16;
    let sum: u16 = b0 + b1 + b2;
    let low: u16 = sum & 0xff;
    assert(low == sum % 256) by (bit_vector)
        requires
            low == sum & 0xff,
    ;
    if low as u8 != read_buffer[3] {
        return Err(MonitorError::ChecksumInvalid);
    }
    let op = read_buffer[0];
    let val: u16 = (b1 << 8) | b2;
    assert(val == 256 * b1 + b2) by (bit_vector)
        requires
            b1 < 256,
            b2 < 256,
            val == (b1 << 8) | b2,
    ;
    Ok((op, val))
}

/// Carries the result of one read through the decoder: fills the passed
/// partial reading from a full, intact report and returns a complete reading
/// once all parts have been read.
pub fn complete_read(
    part: &mut MonitorReadingParts,
    read_len: Result<usize, MonitorError>,
    read_buffer: &[u8; 8],
) -> (result: Result<Option<MonitorReading>, MonitorError>)
    ensures
        (*final(part), result) == read_outcome(*old(part), read_len, read_buffer@),
{
    match read_len {
        Ok(8) => {
            match decode_report(read_buffer) {
                Ok((op, val)) => {
                    part.set_op_val(op, val);
                },
                Err(e) => {
                    return Err(e);
                },
            }
        },
        // Too few bytes read. Even though only the first five are needed, it
        // should have been eight.
        Ok(_) => (),
        Err(_e) => (),
    }
    Ok(part.to_reading())
}

/// Implement this trait for the struct that handles talking over USB-HID.
pub trait Co2MonitorCommunication: Sized {
    /// This method should create the managing struct and set up the necessary
    /// connection.
    fn init_and_connect() -> Self;

    /// This rarely needs to be called directly, use `read_to_part` instead.
    /// It should read a single 8-byte HID report to the `read_buffer` and
    /// return the number of bytes read.
    fn read(&self, read_buffer: &mut [u8; 8]) -> Result<usize, MonitorError>;

    /// The feature report that makes the monitor start sending data over HID.
    /// It is all zeroes, but sending it is still necessary.
    fn get_feature_report() -> (report: &'static [u8; 9])
        ensures
            report@ == Seq::new(9, |i: int| 0u8),
    {
        &[0u8; 9]
    }

    /// The vendor ID of the monitor.
    fn get_vid() -> (vid: u16)
        ensures
            vid == VID,
    {
        VID
    }

    /// The product ID of the monitor.
    fn get_pid() -> (pid: u16)
        ensures
            pid == PID,
    {
        PID
    }

    /// Reads a single HID report and, if a correct opcode was read, fills the
    /// passed partial reading. If all parts have been read, it returns
    /// `Some(...)` with a complete reading.
    ///
    /// Whatever the transport returned, the call did what `read_outcome` says
    /// for some read length and some report. In particular only a failed
    /// decode is reported as an error, the errors of the transport itself are
    /// swallowed, and an error leaves the partial reading as it was.
    fn read_to_part(&self, part: &mut MonitorReadingParts) -> (result: Result<
        Option<MonitorReading>,
        MonitorError,
    >)
        ensures
            exists|read_len: Result<usize, MonitorError>, report: Seq<u8>|
                report.len() == REPORT_LEN && (*final(part), result) == #[trigger] read_outcome(
                    *old(part),
                    read_len,
                    report,
                ),
            result is Err ==> *final(part) == *old(part) && (result->Err_0
                is MissingTerminatorByte || result->Err_0 is ChecksumInvalid),
            result matches Ok(Some(reading)) ==> *final(part) == MonitorReadingParts::empty(),
            result matches Ok(None) ==> !final(part).is_complete(),
    {
        let mut read_buffer = [0u8; 8];
        let read_len = self.read(&mut read_buffer);
        complete_read(part, read_len, &read_buffer)
    }
}

} // verus!
