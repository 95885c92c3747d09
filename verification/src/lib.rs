//! Decoding of the HID reports of a CO2 and temperature monitor into typed,
//! validated readings.

pub mod device;
pub mod laws;
pub mod parts;
pub mod reading;
pub mod report;
pub mod text;

pub use crate::parts::MonitorReadingParts;
pub use crate::reading::Celsius;
pub use crate::reading::Co2Value;
pub use crate::reading::MonitorReading;
pub use crate::report::MonitorReportRaw;
pub use crate::report::OPCODE_CO2_SANITY_CHECK;
pub use crate::report::OPCODE_CO2_VALUE;
pub use crate::report::OPCODE_TEMPERATURE;
