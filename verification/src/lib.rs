//! A verified codec for CoE telegrams: a fixed binary format that carries
//! addressed analogue and digital measurement values over a datagram
//! transport.
//!
//! The library converts between the on-wire byte layout and a strongly typed
//! in-memory representation. Decoding validates every field and reports a
//! precise error; encoding a well-formed in-memory packet never fails, and
//! both directions are proved inverse to each other.

pub mod calendar;
pub mod errors;
pub mod packet;
pub mod payload;
pub mod values;
pub mod wire;

pub use calendar::{
    from_day_of_month, from_month_of_year, to_day_of_month, to_month_of_year, FromDayOfMonthError,
    FromMonthOfYearError,
};
pub use errors::ParseCOEError;
pub use packet::{packets_from_payloads, COEVersion, Packet, PacketIterator};
pub use payload::Payload;
pub use values::{AnalogueCOEValue, COEValue, DigitalCOEValue, Format};
