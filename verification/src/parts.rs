//! The accumulator that collects the fields of a reading, one report at a
//! time, and hands out a reading once all three are present.
use crate::reading::Celsius;
use crate::reading::Co2Value;
use crate::reading::MonitorReading;
use crate::report::MonitorReportRaw;
use vstd::prelude::*;

verus! {

/// Offset from which the sanity check value is subtracted to estimate the
/// CO2 concentration. The sanity check value falls as the concentration
/// rises; the relation is not quite one to one, so this is an approximation.
pub const SANITY_CHECK_OFFSET: u16 = 12811;

/// The individual parts that can be read from the monitor.
///
/// Whatever value comes in from the device is written to this struct; a newer
/// value for a field replaces the pending one.
#[derive(Copy, Clone, Debug, PartialEq, Eq, Structural)]
pub struct MonitorReadingParts {
    /// Temperature in degrees Celsius if set.
    pub temperature: Option<Celsius>,
    /// CO2 PPM if set.
    pub co2_value: Option<u16>,
    /// CO2 estimate derived from the sanity check value if set. It is
    /// negative where the sanity check value exceeds the offset.
    pub co2_sanity_check: Option<i32>,
}

impl MonitorReadingParts {
    /// The accumulator with no field set.
    pub open spec fn empty() -> MonitorReadingParts {
        MonitorReadingParts { temperature: None, co2_value: None, co2_sanity_check: None }
    }

    /// Whether all three fields are set.
    pub open spec fn is_complete(self) -> bool {
        self.temperature is Some && self.co2_value is Some && self.co2_sanity_check is Some
    }

    /// The CO2 estimate that a sanity check value stands for.
    pub open spec fn sanity_estimate(raw: u16) -> int {
        SANITY_CHECK_OFFSET - raw
    }

    /// The accumulator after one report: a known field replaces the pending
    /// value of its slot and leaves the other two alone, a report with an
    /// unknown opcode changes nothing.
    pub open spec fn with_field(self, report: MonitorReportRaw) -> MonitorReadingParts {
        match report {
            MonitorReportRaw::Temperature(raw) => MonitorReadingParts {
                temperature: Some(Celsius::of_raw(raw)),
                ..self
            },
            MonitorReportRaw::Co2Value(raw) => MonitorReadingParts {
                co2_value: Some(raw),
                ..self
            },
            MonitorReportRaw::Co2SanityCheck(raw) => MonitorReadingParts {
                co2_sanity_check: Some(Self::sanity_estimate(raw) as i32),
                ..self
            },
            MonitorReportRaw::Unknown(_, _) => self,
        }
    }

    /// The reading that the fields make up. It is meaningful only for a
    /// complete accumulator.
    pub open spec fn assembled(self) -> MonitorReading
        recommends
            self.is_complete(),
    {
        MonitorReading {
            temperature: self.temperature->0,
            co2_value: Co2Value::classified(
                self.co2_value->0,
                self.co2_sanity_check->0 as int,
            ),
        }
    }

    /// What an attempt to complete yields: the assembled reading of a
    /// complete accumulator, nothing otherwise.
    pub open spec fn yielded(self) -> Option<MonitorReading> {
        if self.is_complete() {
            Some(self.assembled())
        } else {
            None
        }
    }

    /// What an attempt to complete leaves behind: a complete accumulator is
    /// reset, any other stays as it is.
    pub open spec fn after_yield(self) -> MonitorReadingParts {
        if self.is_complete() {
            Self::empty()
        } else {
            self
        }
    }

    /// Stores the field that a report carries.
    pub fn set_field(&mut self, report: MonitorReportRaw)
        ensures
            *final(self) == old(self).with_field(report),
    {
        match report {
            MonitorReportRaw::Temperature(val) => {
                self.temperature = Some(Celsius::from_raw(val));
            },
            MonitorReportRaw::Co2Value(val) => {
                self.co2_value = Some(val);
            },
            MonitorReportRaw::Co2SanityCheck(val) => {
                let offset: i32 = SANITY_CHECK_OFFSET as i32;
                let raw: i32 = val as i32;
                self.co2_sanity_check = Some(offset - raw);
            },
            MonitorReportRaw::Unknown(_, _) => (),
        }
    }

    /// Given the opcode and the value of a report, sets the corresponding
    /// field.
    pub fn set_op_val(&mut self, op: u8, val: u16)
        ensures
            *final(self) == old(self).with_field(MonitorReportRaw::interpret(op, val)),
    {
        let raw_report = MonitorReportRaw::from((op, val));
        self.set_field(raw_report);
    }

    /// If all values are available, returns a complete reading and resets the
    /// accumulator. Otherwise returns `None` and changes nothing.
    pub fn to_reading(&mut self) -> (reading: Option<MonitorReading>)
        ensures
            reading == old(self).yielded(),
            *final(self) == old(self).after_yield(),
            reading is Some <==> old(self).is_complete(),
    {
        if let (Some(t), Some(c), Some(cs)) = (
            self.temperature,
            self.co2_value,
            self.co2_sanity_check,
        ) {
            let co2_value = Co2Value::classify(c, cs);
            let mr = MonitorReading { temperature: t, co2_value };
            self.clear();
            return Some(mr);
        }
        None
    }

    /// Creates a new container with no values set.
    pub fn new() -> (parts: Self)
        ensures
            parts == MonitorReadingParts::empty(),
    {
        Self { temperature: None, co2_value: None, co2_sanity_check: None }
    }

    /// Resets all values.
    pub fn clear(&mut self)
        ensures
            *final(self) == MonitorReadingParts::empty(),
    {
        self.temperature = None;
        self.co2_value = None;
        self.co2_sanity_check = None;
    }
}

impl Default for MonitorReadingParts {
    fn default() -> (parts: Self)
        ensures
            parts == MonitorReadingParts::empty(),
    {
        Self::new()
    }
}

} // verus!
