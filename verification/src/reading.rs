//! Complete readings and the validity classification of a CO2 value.
use crate::text::append_decimal;
use crate::text::decimal;
use vstd::prelude::*;
use vstd::string::StringExecFns;

verus! {

/// Largest CO2 concentration, in PPM, that the sensor reports reliably.
pub const MAX_VALID_CO2_PPM: u16 = 3000;

/// A CO2 value that knows whether it was out of the sensor's reliable range.
#[derive(Copy, Clone, Debug, PartialEq, Eq, Structural)]
pub enum Co2Value {
    /// A valid CO2 reading in PPM.
    Valid(u16),
    /// The reading was flagged as too high; the PPM that was read is kept.
    TooHigh(u16),
}

impl Co2Value {
    /// The PPM carried by the value, whichever variant it is.
    pub open spec fn ppm(self) -> u16 {
        match self {
            Co2Value::Valid(n) => n,
            Co2Value::TooHigh(n) => n,
        }
    }

    /// The value for a raw PPM and a sanity estimate: too high exactly when
    /// either of them exceeds the threshold.
    pub open spec fn classified(ppm: u16, sanity_estimate: int) -> Co2Value {
        if sanity_estimate > MAX_VALID_CO2_PPM || ppm > MAX_VALID_CO2_PPM {
            Co2Value::TooHigh(ppm)
        } else {
            Co2Value::Valid(ppm)
        }
    }

    /// Classifies a raw PPM against the threshold, together with the estimate
    /// derived from the sanity check report.
    pub fn classify(ppm: u16, sanity_estimate: i32) -> (value: Co2Value)
        ensures
            value == Co2Value::classified(ppm, sanity_estimate as int),
    {
        let threshold: i32 = MAX_VALID_CO2_PPM as i32;
        if sanity_estimate > threshold || ppm > MAX_VALID_CO2_PPM {
            Co2Value::TooHigh(ppm)
        } else {
            Co2Value::Valid(ppm)
        }
    }

    /// The text that stands for the value: the PPM in decimal digits where it
    /// is valid, the words `too high` where it is not.
    pub open spec fn text(self) -> Seq<char> {
        match self {
            Co2Value::Valid(n) => decimal(n as nat),
            Co2Value::TooHigh(_) => "too high"@,
        }
    }

    /// Writes the value out for a reader: the PPM, or `too high`.
    pub fn to_string(&self) -> (text: String)
        ensures
            text@ == self.text(),
    {
        match self {
            Co2Value::Valid(n) => {
                let mut text = String::new();
                append_decimal(&mut text, *n);
                text
            },
            Co2Value::TooHigh(_) => String::from_str("too high"),
        }
    }

    /// The CO2 concentration in PPM and a flag that says whether the readout
    /// was valid.
    pub fn as_num_and_bool(&self) -> (pair: (u16, bool))
        ensures
            pair.0 == self.ppm(),
            pair.1 == (*self is Valid),
    {
        match self {
            Co2Value::Valid(n) => (*n, true),
            Co2Value::TooHigh(n) => (*n, false),
        }
    }
}

/// A temperature in degrees Celsius, held exactly as a whole number of
/// eightieths of a degree.
///
/// The monitor reports temperature in sixteenths of a kelvin, and the offset
/// between the two scales is 273.15 = 5463/20, so every reported temperature
/// is a whole number of eightieths of a degree Celsius.
#[derive(Copy, Clone, Debug, PartialEq, Eq, Structural)]
pub struct Celsius {
    /// Eighty times the temperature in degrees Celsius.
    pub eightieths: i32,
}

impl Celsius {
    /// The temperature that a raw report value stands for:
    /// `raw / 16 - 273.15` degrees, which is `5 * raw - 21852` eightieths.
    pub open spec fn of_raw(raw: u16) -> Celsius {
        Celsius { eightieths: (5 * raw - 21852) as i32 }
    }

    /// Converts the value of a temperature report to degrees Celsius.
    pub fn from_raw(raw: u16) -> (celsius: Celsius)
        ensures
            celsius == Celsius::of_raw(raw),
            celsius.eightieths == 5 * raw - 21852,
    {
        let sixteenths: i32 = raw as i32;
        Celsius { eightieths: 5 * sixteenths - 21852 }
    }

    /// The conversion is exact: over the common denominator 1600, the result
    /// is the raw value divided by 16, less 273.15.
    pub proof fn lemma_of_raw_is_exact(raw: u16)
        ensures
            20 * Celsius::of_raw(raw).eightieths == 100 * raw - 16 * 27315,
    {
    }
}

/// A complete reading from the monitor.
#[derive(Copy, Clone, Debug, PartialEq, Eq, Structural)]
pub struct MonitorReading {
    /// Temperature in degrees Celsius.
    pub temperature: Celsius,
    /// The CO2 concentration in PPM, flagged valid or too high.
    pub co2_value: Co2Value,
}

impl MonitorReading {
    /// The reading that `new` returns: zero degrees and a zero CO2 value
    /// flagged as too high, which no complete set of reports produces.
    pub open spec fn placeholder() -> MonitorReading {
        MonitorReading {
            temperature: Celsius { eightieths: 0 },
            co2_value: Co2Value::TooHigh(0),
        }
    }

    /// Creates a placeholder reading to compare the first real one against.
    pub fn new() -> (reading: MonitorReading)
        ensures
            reading == MonitorReading::placeholder(),
    {
        MonitorReading { temperature: Celsius { eightieths: 0 }, co2_value: Co2Value::TooHigh(0) }
    }
}

impl Default for MonitorReading {
    fn default() -> (reading: Self)
        ensures
            reading == MonitorReading::placeholder(),
    {
        Self::new()
    }
}

} // verus!
