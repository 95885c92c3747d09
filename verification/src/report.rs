//! Interpretation of an opcode and its value as one field of a reading.
use vstd::prelude::*;
use vstd::std_specs::convert::FromSpecImpl;

verus! {

/// Reported opcode when the HID report is a temperature.
pub const OPCODE_TEMPERATURE: u8 = 0x42;

/// Reported opcode when the HID report is a CO2 value.
pub const OPCODE_CO2_VALUE: u8 = 0x50;

/// Reported opcode when the HID report is a CO2 sanity check value.
pub const OPCODE_CO2_SANITY_CHECK: u8 = 0x6e;

/// The value read out of one report, tagged with the field that its opcode
/// names. A report with any other opcode keeps the opcode beside the value.
#[derive(Copy, Clone, Debug, PartialEq, Eq, Structural)]
pub enum MonitorReportRaw {
    Temperature(u16),
    Co2Value(u16),
    Co2SanityCheck(u16),
    Unknown(u8, u16),
}

impl MonitorReportRaw {
    /// The field that an opcode and its value stand for.
    pub open spec fn interpret(op: u8, val: u16) -> MonitorReportRaw {
        if op == OPCODE_TEMPERATURE {
            MonitorReportRaw::Temperature(val)
        } else if op == OPCODE_CO2_VALUE {
            MonitorReportRaw::Co2Value(val)
        } else if op == OPCODE_CO2_SANITY_CHECK {
            MonitorReportRaw::Co2SanityCheck(val)
        } else {
            MonitorReportRaw::Unknown(op, val)
        }
    }
}

impl From<(u8, u16)> for MonitorReportRaw {
    fn from(pair: (u8, u16)) -> (report: Self) {
        let (op, val) = pair;
        match op {
            OPCODE_TEMPERATURE => Self::Temperature(val),
            OPCODE_CO2_VALUE => Self::Co2Value(val),
            OPCODE_CO2_SANITY_CHECK => Self::Co2SanityCheck(val),
            _ => Self::Unknown(op, val),
        }
    }
}

impl FromSpecImpl<(u8, u16)> for MonitorReportRaw {
    open spec fn obeys_from_spec() -> bool {
        true
    }

    open spec fn from_spec(pair: (u8, u16)) -> Self {
        MonitorReportRaw::interpret(pair.0, pair.1)
    }
}

} // verus!
