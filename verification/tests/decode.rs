use co2::device::complete_read;
use co2::device::decode_report;
use co2::device::MonitorError;
use co2::MonitorReadingParts;

fn report(op: u8, val: u16) -> [u8; 8] {
    let hi = (val >> 8) as u8;
    let lo = (val & 0xff) as u8;
    let sum = op.wrapping_add(hi).wrapping_add(lo);
    [op, hi, lo, sum, 0x0d, 0, 0, 0]
}

#[test]
fn well_formed_report_decodes_to_opcode_and_value() {
    let buf = [0x42, 0x11, 0x2d, 0x80, 0x0d, 0x00, 0x00, 0x00];
    assert_eq!(decode_report(&buf), Ok((0x42, 4397)));
}

#[test]
fn value_is_second_byte_above_third() {
    let buf = [0x50, 0x01, 0xf4, 0x45, 0x0d, 0x00, 0x00, 0x00];
    assert_eq!(decode_report(&buf), Ok((0x50, 500)));
    let buf = [0x50, 0xf4, 0x01, 0x45, 0x0d, 0x00, 0x00, 0x00];
    assert_eq!(decode_report(&buf), Ok((0x50, 0xf401)));
}

#[test]
fn checksum_is_taken_modulo_256() {
    let buf = [0xff, 0xff, 0xff, 0xfd, 0x0d, 0x00, 0x00, 0x00];
    assert_eq!(decode_report(&buf), Ok((0xff, 0xffff)));
    let buf = [0x6e, 0xff, 0xff, 0x6c, 0x0d, 0x00, 0x00, 0x00];
    assert_eq!(decode_report(&buf), Ok((0x6e, 0xffff)));
}

#[test]
fn all_zero_report_lacks_the_terminator() {
    assert_eq!(decode_report(&[0u8; 8]), Err(MonitorError::MissingTerminatorByte));
}

#[test]
fn trailing_bytes_are_not_looked_at() {
    let buf = [0x42, 0x11, 0x2d, 0x80, 0x0d, 0xde, 0xad, 0xbf];
    assert_eq!(decode_report(&buf), Ok((0x42, 4397)));
}

#[test]
fn every_well_formed_report_decodes() {
    let mut op: u16 = 0;
    while op < 256 {
        let mut val: u32 = 0;
        while val < 65536 {
            let buf = report(op as u8, val as u16);
            assert_eq!(decode_report(&buf), Ok((op as u8, val as u16)));
            val += 257;
        }
        op += 1;
    }
}

#[test]
fn wrong_terminator_is_missing_terminator_byte() {
    let buf = [0x42, 0x11, 0x2d, 0x80, 0x0c, 0x00, 0x00, 0x00];
    assert_eq!(decode_report(&buf), Err(MonitorError::MissingTerminatorByte));
}

#[test]
fn terminator_is_checked_before_the_checksum() {
    let buf = [0x42, 0x11, 0x2d, 0x00, 0x0a, 0x00, 0x00, 0x00];
    assert_eq!(decode_report(&buf), Err(MonitorError::MissingTerminatorByte));
}

#[test]
fn wrong_checksum_is_checksum_invalid() {
    let buf = [0x42, 0x11, 0x2d, 0x81, 0x0d, 0x00, 0x00, 0x00];
    assert_eq!(decode_report(&buf), Err(MonitorError::ChecksumInvalid));
    let buf = [0x42, 0x11, 0x2d, 0x7f, 0x0d, 0x00, 0x00, 0x00];
    assert_eq!(decode_report(&buf), Err(MonitorError::ChecksumInvalid));
}

#[test]
fn every_terminator_but_one_is_rejected() {
    let mut t: u16 = 0;
    while t < 256 {
        let mut buf = report(0x50, 500);
        buf[4] = t as u8;
        if t == 0x0d {
            assert_eq!(decode_report(&buf), Ok((0x50, 500)));
        } else {
            assert_eq!(decode_report(&buf), Err(MonitorError::MissingTerminatorByte));
        }
        t += 1;
    }
}

#[test]
fn every_checksum_but_one_is_rejected() {
    let mut c: u16 = 0;
    while c < 256 {
        let mut buf = report(0x50, 500);
        buf[3] = c as u8;
        if c == 0x45 {
            assert_eq!(decode_report(&buf), Ok((0x50, 500)));
        } else {
            assert_eq!(decode_report(&buf), Err(MonitorError::ChecksumInvalid));
        }
        c += 1;
    }
}

#[test]
fn missing_terminator_leaves_the_accumulator_unmodified() {
    let mut parts = MonitorReadingParts::new();
    parts.set_op_val(0x50, 700);
    let before = parts;
    let mut buf = report(0x42, 4397);
    buf[4] = 0x00;
    assert_eq!(complete_read(&mut parts, Ok(8), &buf), Err(MonitorError::MissingTerminatorByte));
    assert_eq!(parts, before);
}

#[test]
fn invalid_checksum_leaves_the_accumulator_unmodified() {
    let mut parts = MonitorReadingParts::new();
    parts.set_op_val(0x42, 4397);
    parts.set_op_val(0x6e, 10000);
    let before = parts;
    let mut buf = report(0x50, 500);
    buf[3] = buf[3].wrapping_add(1);
    assert_eq!(complete_read(&mut parts, Ok(8), &buf), Err(MonitorError::ChecksumInvalid));
    assert_eq!(parts, before);
}

#[test]
fn failed_decode_does_not_take_out_a_complete_reading() {
    let mut parts = MonitorReadingParts::new();
    parts.set_op_val(0x42, 4397);
    parts.set_op_val(0x50, 500);
    parts.set_op_val(0x6e, 10000);
    let before = parts;
    let mut buf = report(0x50, 900);
    buf[4] = 0xff;
    assert_eq!(complete_read(&mut parts, Ok(8), &buf), Err(MonitorError::MissingTerminatorByte));
    assert_eq!(parts, before);
}

#[test]
fn full_read_sets_the_field() {
    let mut parts = MonitorReadingParts::new();
    assert_eq!(complete_read(&mut parts, Ok(8), &report(0x50, 500)), Ok(None));
    assert_eq!(parts.co2_value, Some(500));
    assert_eq!(parts.temperature, None);
    assert_eq!(parts.co2_sanity_check, None);
}

#[test]
fn short_read_brings_no_data() {
    let mut parts = MonitorReadingParts::new();
    let buf = report(0x50, 500);
    assert_eq!(complete_read(&mut parts, Ok(7), &buf), Ok(None));
    assert_eq!(parts, MonitorReadingParts::new());
    assert_eq!(complete_read(&mut parts, Ok(0), &buf), Ok(None));
    assert_eq!(parts, MonitorReadingParts::new());
    assert_eq!(complete_read(&mut parts, Ok(5), &buf), Ok(None));
    assert_eq!(parts, MonitorReadingParts::new());
}

#[test]
fn short_read_of_a_broken_report_is_no_error() {
    let mut parts = MonitorReadingParts::new();
    assert_eq!(complete_read(&mut parts, Ok(3), &[0u8; 8]), Ok(None));
    assert_eq!(parts, MonitorReadingParts::new());
}

#[test]
fn longer_read_brings_no_data() {
    let mut parts = MonitorReadingParts::new();
    assert_eq!(complete_read(&mut parts, Ok(9), &report(0x50, 500)), Ok(None));
    assert_eq!(parts, MonitorReadingParts::new());
}

#[test]
fn transport_errors_are_swallowed() {
    let mut parts = MonitorReadingParts::new();
    parts.set_op_val(0x50, 500);
    let before = parts;
    let buf = report(0x42, 4397);
    assert_eq!(complete_read(&mut parts, Err(MonitorError::ReadFailed), &buf), Ok(None));
    assert_eq!(parts, before);
    assert_eq!(complete_read(&mut parts, Err(MonitorError::Timeout), &buf), Ok(None));
    assert_eq!(parts, before);
    assert_eq!(complete_read(&mut parts, Err(MonitorError::ChecksumInvalid), &buf), Ok(None));
    assert_eq!(parts, before);
}

#[test]
fn read_without_data_still_attempts_to_complete() {
    let mut parts = MonitorReadingParts::new();
    parts.set_op_val(0x42, 4397);
    parts.set_op_val(0x50, 500);
    parts.set_op_val(0x6e, 10000);
    let mut expected = parts;
    let reading = expected.to_reading();
    assert!(reading.is_some());
    assert_eq!(complete_read(&mut parts, Err(MonitorError::Timeout), &[0u8; 8]), Ok(reading));
    assert_eq!(parts, MonitorReadingParts::new());
}

#[test]
fn third_field_completes_through_a_read() {
    let mut parts = MonitorReadingParts::new();
    assert_eq!(complete_read(&mut parts, Ok(8), &report(0x6e, 10000)), Ok(None));
    assert_eq!(complete_read(&mut parts, Ok(8), &report(0x42, 4397)), Ok(None));
    let result = complete_read(&mut parts, Ok(8), &report(0x50, 500));
    let reading = result.unwrap().unwrap();
    assert_eq!(reading.temperature.eightieths, 133);
    assert_eq!(reading.co2_value, co2::Co2Value::Valid(500));
    assert_eq!(parts, MonitorReadingParts::new());
}
