//! What holds of the decoder over whole runs of reports: a model of the
//! accumulator fed report by report, and the laws proved of it.
use crate::device::decoded_report;
use crate::device::read_outcome;
use crate::device::report_checksum;
use crate::device::report_is_well_formed;
use crate::device::report_value;
use crate::device::MonitorError;
use crate::device::REPORT_LEN;
use crate::device::TERMINATOR_BYTE;
use crate::parts::MonitorReadingParts;
use crate::reading::Celsius;
use crate::reading::Co2Value;
use crate::reading::MonitorReading;
use crate::reading::MAX_VALID_CO2_PPM;
use crate::report::MonitorReportRaw;
use crate::report::OPCODE_CO2_SANITY_CHECK;
use crate::report::OPCODE_CO2_VALUE;
use crate::report::OPCODE_TEMPERATURE;
use vstd::prelude::*;

verus! {

/// Whether an opcode names one of the three fields of a reading.
pub open spec fn is_known_opcode(op: u8) -> bool {
    op == OPCODE_TEMPERATURE || op == OPCODE_CO2_VALUE || op == OPCODE_CO2_SANITY_CHECK
}

/// The accumulator after one decoded report went through it: the field is
/// set, and a reading that this completes is taken out.
pub open spec fn fed(parts: MonitorReadingParts, report: (u8, u16)) -> MonitorReadingParts {
    parts.with_field(MonitorReportRaw::interpret(report.0, report.1)).after_yield()
}

/// The reading that one decoded report brings out of the accumulator, if it
/// completes one.
pub open spec fn fed_yield(parts: MonitorReadingParts, report: (u8, u16)) -> Option<
    MonitorReading,
> {
    parts.with_field(MonitorReportRaw::interpret(report.0, report.1)).yielded()
}

/// The accumulator after a run of decoded reports.
pub open spec fn run_state(
    parts: MonitorReadingParts,
    reports: Seq<(u8, u16)>,
) -> MonitorReadingParts
    decreases reports.len(),
{
    if reports.len() == 0 {
        parts
    } else {
        run_state(fed(parts, reports[0]), reports.drop_first())
    }
}

/// The readings that a run of decoded reports brings out, in order.
pub open spec fn run_readings(parts: MonitorReadingParts, reports: Seq<(u8, u16)>) -> Seq<
    MonitorReading,
>
    decreases reports.len(),
{
    if reports.len() == 0 {
        Seq::empty()
    } else {
        let rest = run_readings(fed(parts, reports[0]), reports.drop_first());
        match fed_yield(parts, reports[0]) {
            Some(reading) => seq![reading] + rest,
            None => rest,
        }
    }
}

/// How many reports of a run carry the given opcode.
pub open spec fn occurrences(reports: Seq<(u8, u16)>, op: u8) -> nat
    decreases reports.len(),
{
    if reports.len() == 0 {
        0
    } else if reports[0].0 == op {
        1 + occurrences(reports.drop_first(), op)
    } else {
        occurrences(reports.drop_first(), op)
    }
}

/// The value of the first report of a run that carries the given opcode.
/// It is meaningful only where there is such a report.
pub open spec fn value_of(reports: Seq<(u8, u16)>, op: u8) -> u16
    decreases reports.len(),
{
    if reports.len() == 0 {
        0
    } else if reports[0].0 == op {
        reports[0].1
    } else {
        value_of(reports.drop_first(), op)
    }
}

/// The reading that the three raw values make up.
pub open spec fn reading_of(temperature: u16, co2: u16, sanity: u16) -> MonitorReading {
    MonitorReading {
        temperature: Celsius::of_raw(temperature),
        co2_value: Co2Value::classified(co2, MonitorReadingParts::sanity_estimate(sanity)),
    }
}

/// The accumulator after a number of attempts to complete in a row.
pub open spec fn after_attempts(parts: MonitorReadingParts, attempts: nat) -> MonitorReadingParts
    decreases attempts,
{
    if attempts == 0 {
        parts
    } else {
        after_attempts(parts.after_yield(), (attempts - 1) as nat)
    }
}

/// Whether a slot and the reports still to come agree: a set slot gets no
/// further report, an unset one gets exactly one.
spec fn settles(slot_is_set: bool, still_to_come: nat) -> bool {
    if slot_is_set {
        still_to_come == 0
    } else {
        still_to_come == 1
    }
}

/// The reading that a run brings out of a partly filled accumulator in which
/// every unset slot gets its value from the run.
spec fn reading_from(parts: MonitorReadingParts, reports: Seq<(u8, u16)>) -> MonitorReading {
    MonitorReading {
        temperature: match parts.temperature {
            Some(celsius) => celsius,
            None => Celsius::of_raw(value_of(reports, OPCODE_TEMPERATURE)),
        },
        co2_value: Co2Value::classified(
            match parts.co2_value {
                Some(ppm) => ppm,
                None => value_of(reports, OPCODE_CO2_VALUE),
            },
            match parts.co2_sanity_check {
                Some(estimate) => estimate as int,
                None => MonitorReadingParts::sanity_estimate(
                    value_of(reports, OPCODE_CO2_SANITY_CHECK),
                ),
            },
        ),
    }
}

/// A run without any known opcode leaves an accumulator that is not complete
/// as it was and brings out nothing.
proof fn lemma_unknown_run_is_idle(parts: MonitorReadingParts, reports: Seq<(u8, u16)>)
    requires
        !parts.is_complete(),
        occurrences(reports, OPCODE_TEMPERATURE) == 0,
        occurrences(reports, OPCODE_CO2_VALUE) == 0,
        occurrences(reports, OPCODE_CO2_SANITY_CHECK) == 0,
    ensures
        run_state(parts, reports) == parts,
        run_readings(parts, reports) == Seq::<MonitorReading>::empty(),
    decreases reports.len(),
{
    if reports.len() > 0 {
        lemma_unknown_run_is_idle(parts, reports.drop_first());
    }
}

/// A run that brings each unset slot exactly one report, and no report for a
/// set slot, brings out one reading and leaves the accumulator empty.
proof fn lemma_run_settles(parts: MonitorReadingParts, reports: Seq<(u8, u16)>)
    requires
        !parts.is_complete(),
        settles(parts.temperature is Some, occurrences(reports, OPCODE_TEMPERATURE)),
        settles(parts.co2_value is Some, occurrences(reports, OPCODE_CO2_VALUE)),
        settles(parts.co2_sanity_check is Some, occurrences(reports, OPCODE_CO2_SANITY_CHECK)),
    ensures
        run_state(parts, reports) == MonitorReadingParts::empty(),
        run_readings(parts, reports) == seq![reading_from(parts, reports)],
    decreases reports.len(),
{
    if reports.len() == 0 {
        assert(parts.is_complete());
    } else {
        let first = reports[0];
        let rest = reports.drop_first();
        let filled = parts.with_field(MonitorReportRaw::interpret(first.0, first.1));
        if filled.is_complete() {
            lemma_unknown_run_is_idle(MonitorReadingParts::empty(), rest);
            assert(fed_yield(parts, first) == Some(reading_from(parts, reports)));
            assert(seq![reading_from(parts, reports)] + Seq::<MonitorReading>::empty()
                =~= seq![reading_from(parts, reports)]);
        } else {
            lemma_run_settles(filled, rest);
            assert(reading_from(filled, rest) == reading_from(parts, reports));
        }
    }
}

/// A report whose terminator is in place and whose checksum agrees decodes to
/// its first byte as the opcode and its second and third as the value.
pub proof fn lemma_well_formed_report_decodes(report: Seq<u8>)
    requires
        report.len() == REPORT_LEN,
        report[4] == TERMINATOR_BYTE,
        (report[0] + report[1] + report[2]) % 256 == report[3],
    ensures
        report_is_well_formed(report),
        decoded_report(report) == Ok::<(u8, u16), MonitorError>(
            (report[0], (256 * report[1] + report[2]) as u16),
        ),
        report_value(report) == 256 * report[1] + report[2],
        0 <= report_value(report) <= u16::MAX,
{
}

/// A report without the terminator fails to decode with
/// `MissingTerminatorByte`, whatever its checksum, and a read of it leaves
/// the accumulator unmodified.
pub proof fn lemma_missing_terminator_is_rejected(parts: MonitorReadingParts, report: Seq<u8>)
    requires
        report.len() == REPORT_LEN,
        report[4] != TERMINATOR_BYTE,
    ensures
        decoded_report(report) == Err::<(u8, u16), MonitorError>(
            MonitorError::MissingTerminatorByte,
        ),
        read_outcome(parts, Ok(REPORT_LEN), report) == (
            parts,
            Err::<Option<MonitorReading>, MonitorError>(MonitorError::MissingTerminatorByte),
        ),
{
}

/// A report with the terminator in place and a checksum that disagrees fails
/// to decode with `ChecksumInvalid`, and a read of it leaves the accumulator
/// unmodified.
pub proof fn lemma_invalid_checksum_is_rejected(parts: MonitorReadingParts, report: Seq<u8>)
    requires
        report.len() == REPORT_LEN,
        report[4] == TERMINATOR_BYTE,
        report_checksum(report) != report[3],
    ensures
        decoded_report(report) == Err::<(u8, u16), MonitorError>(MonitorError::ChecksumInvalid),
        read_outcome(parts, Ok(REPORT_LEN), report) == (
            parts,
            Err::<Option<MonitorReading>, MonitorError>(MonitorError::ChecksumInvalid),
        ),
{
}

/// No read, whatever it returned, changes the accumulator when it ends in an
/// error, and between reads the accumulator is never complete.
pub proof fn lemma_read_outcome_invariants(
    parts: MonitorReadingParts,
    read_len: Result<usize, MonitorError>,
    report: Seq<u8>,
)
    ensures
        read_outcome(parts, read_len, report).1 is Err ==> read_outcome(parts, read_len, report).0
            == parts,
        read_outcome(parts, read_len, report).1 is Ok ==> !read_outcome(
            parts,
            read_len,
            report,
        ).0.is_complete(),
        read_outcome(parts, read_len, report).1 matches Ok(Some(_)) ==> read_outcome(
            parts,
            read_len,
            report,
        ).0 == MonitorReadingParts::empty(),
{
}

/// Fed to an empty accumulator in any order, one report for each of the
/// three known opcodes yields nothing, nothing, and then exactly one reading,
/// made of the three values, and the accumulator is empty afterwards.
pub proof fn lemma_three_fields_in_any_order(
    first: (u8, u16),
    second: (u8, u16),
    third: (u8, u16),
    temperature: u16,
    co2: u16,
    sanity: u16,
)
    requires
        first == (OPCODE_TEMPERATURE, temperature) || second == (OPCODE_TEMPERATURE, temperature)
            || third == (OPCODE_TEMPERATURE, temperature),
        first == (OPCODE_CO2_VALUE, co2) || second == (OPCODE_CO2_VALUE, co2) || third == (
            OPCODE_CO2_VALUE,
            co2,
        ),
        first == (OPCODE_CO2_SANITY_CHECK, sanity) || second == (OPCODE_CO2_SANITY_CHECK, sanity)
            || third == (OPCODE_CO2_SANITY_CHECK, sanity),
    ensures
        fed_yield(MonitorReadingParts::empty(), first) is None,
        fed_yield(fed(MonitorReadingParts::empty(), first), second) is None,
        fed_yield(fed(fed(MonitorReadingParts::empty(), first), second), third) == Some(
            reading_of(temperature, co2, sanity),
        ),
        fed(fed(fed(MonitorReadingParts::empty(), first), second), third)
            == MonitorReadingParts::empty(),
        run_readings(MonitorReadingParts::empty(), seq![first, second, third]) == seq![
            reading_of(temperature, co2, sanity),
        ],
        run_state(MonitorReadingParts::empty(), seq![first, second, third])
            == MonitorReadingParts::empty(),
{
    let reports = seq![first, second, third];
    let tail = reports.drop_first();
    let last = tail.drop_first();
    assert(tail =~= seq![second, third]);
    assert(last =~= seq![third]);
    assert(last.drop_first() =~= Seq::<(u8, u16)>::empty());
    reveal_with_fuel(occurrences, 4);
    reveal_with_fuel(value_of, 4);
    lemma_run_settles(MonitorReadingParts::empty(), reports);
}

/// A run of reports in which each of the three known opcodes occurs exactly
/// once, with reports of unknown opcodes anywhere between them, yields
/// exactly one reading and leaves the accumulator empty. The reading is made
/// of the three known values alone.
pub proof fn lemma_unknown_reports_do_not_matter(reports: Seq<(u8, u16)>)
    requires
        occurrences(reports, OPCODE_TEMPERATURE) == 1,
        occurrences(reports, OPCODE_CO2_VALUE) == 1,
        occurrences(reports, OPCODE_CO2_SANITY_CHECK) == 1,
    ensures
        run_readings(MonitorReadingParts::empty(), reports) == seq![
            reading_of(
                value_of(reports, OPCODE_TEMPERATURE),
                value_of(reports, OPCODE_CO2_VALUE),
                value_of(reports, OPCODE_CO2_SANITY_CHECK),
            ),
        ],
        run_state(MonitorReadingParts::empty(), reports) == MonitorReadingParts::empty(),
{
    lemma_run_settles(MonitorReadingParts::empty(), reports);
}

/// A report with an unknown opcode changes nothing and yields nothing, in
/// whatever state the accumulator is between reads.
pub proof fn lemma_unknown_report_is_ignored(parts: MonitorReadingParts, report: (u8, u16))
    requires
        !is_known_opcode(report.0),
        !parts.is_complete(),
    ensures
        fed(parts, report) == parts,
        fed_yield(parts, report) is None,
{
}

/// While the accumulator is only partially filled, any number of attempts to
/// complete leave it as it was, and the next attempt yields nothing.
pub proof fn lemma_attempts_on_partial_are_idle(parts: MonitorReadingParts, attempts: nat)
    requires
        !parts.is_complete(),
    ensures
        after_attempts(parts, attempts) == parts,
        after_attempts(parts, attempts).yielded() is None,
    decreases attempts,
{
    if attempts > 0 {
        lemma_attempts_on_partial_are_idle(parts, (attempts - 1) as nat);
    }
}

/// A completed reading is flagged too high exactly when the estimate from
/// the sanity check or the CO2 value itself exceeds the threshold, and it
/// carries the CO2 value as it was read either way.
pub proof fn lemma_too_high_iff_above_threshold(parts: MonitorReadingParts)
    requires
        parts.is_complete(),
    ensures
        parts.assembled().co2_value is TooHigh <==> (parts.co2_sanity_check->0
            > MAX_VALID_CO2_PPM || parts.co2_value->0 > MAX_VALID_CO2_PPM),
        parts.assembled().co2_value.ppm() == parts.co2_value->0,
        parts.assembled().temperature == parts.temperature->0,
{
}

} // verus!
