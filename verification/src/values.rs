//! The value model: every physical quantity a CoE payload can carry.
//!
//! Analogue values are scaled 32-bit integers tagged with a unit code;
//! digital values are booleans tagged with one of four unit codes. Each
//! unit code belongs to exactly one family, and a code outside the known
//! set is always an error, never a default.

use crate::errors::ParseCOEError;
use crate::wire::{
    i32_from_le_slice, i32_to_le_vec, lemma_i32_le_bytes_roundtrip, spec_i32_from_le_bytes,
    spec_i32_to_le_bytes,
};
use vstd::bytes::{
    lemma_auto_spec_u16_to_from_le_bytes, spec_u16_from_le_bytes, spec_u16_to_le_bytes,
    u16_from_le_bytes, u16_to_le_bytes,
};
use vstd::prelude::*;

verus! {

/// The two families a CoE value can belong to.
#[derive(Hash, Debug, PartialEq, Eq, Structural, Clone, Copy)]
pub enum Format {
    Analogue,
    Digital,
}

/// All the analogue values representable in CoE.
///
/// The numbering follows the unit-code table of the CoE protocol; the unit
/// code of each variant is given by [`AnalogueCOEValue::spec_unit_code`].
/// Every variant wraps the scaled 32-bit integer that travels on the wire,
/// except `Date`, which reinterprets the same four wire bytes as day, month
/// and a 16-bit little-endian year.
// The suffix after the underscore names the scaling of the wire integer
// (tens, hundreds, ...), which reads better here than camel case would.
#[allow(non_camel_case_types)]
#[derive(Hash, PartialEq, Eq, Structural, Clone, Copy, Debug)]
pub enum AnalogueCOEValue {
    Dimensionless(i32),
    DegreeCentigrade_Tens(i32),
    WattPerSquareMeter(i32),
    LiterPerHour(i32),
    Seconds(i32),
    Minutes(i32),
    LiterPerPulse_Tens(i32),
    DegreeKelvin_Tens(i32),
    Percent_Tens(i32),
    Colon(i32),
    KiloWatt_Hundreds(i32),
    KilowattHour_Tens(i32),
    MegawattHour(i32),
    Volt_Hundreds(i32),
    MilliAmpere_Tens(i32),
    Hours(i32),
    Days(i32),
    Pulses(i32),
    KiloOhm_Hundreds(i32),
    Liters(i32),
    KiloMetersPerHour(i32),
    Hertz_Hundreds(i32),
    LiterPerMinute(i32),
    Bar_Hundreds(i32),
    CoefficientOfPerformance_Hundreds(i32),
    KiloMeter(i32),
    Meter_Tens(i32),
    MilliMeter(i32),
    CubicMeter(i32),
    HertzPerKiloMeterPerHour_HundredThousands(i32),
    HertzPerMeterPerSecond_HundredThousands(i32),
    KilowattHourPerPulse_HundredThousands(i32),
    CubicMeterPerPulse_HundredThousands(i32),
    MilliMeterPerPulse_HundredThousands(i32),
    LiterPerPulse_HundredThousands(i32),
    LiterPerDay(i32),
    MetersPerSecond(i32),
    CubicMeterPerMinute(i32),
    CubicMeterPerHour(i32),
    CubicMeterPerDay(i32),
    MilliMeterPerMinute_Tens(i32),
    MilliMeterPerHour_Tens(i32),
    MilliMeterPerDay_Tens(i32),
    DegreeCentigradePlusRAS_Tens(i32),
    HeatingCircuitOpMode(i32),
    HeatingCircuitOpLevel(i32),
    CurrencyEuro_Hundreds(i32),
    CurrencyDollar_Hundreds(i32),
    AbsoluteHumidity_Tens(i32),
    PricePerUnit_HundredThousands(i32),
    Degree_Tens(i32),
    Blinds(i32),
    Degree_Millions(i32),
    Second_Tens(i32),
    Dimensionless_Tens(i32),
    BlindsPosition(i32),
    /// Time, in minutes, represented as HH:MM.
    Time(i32),
    /// Day of month, stored as `day - 1 + 31 * (month - 1)`.
    /// See [`crate::to_day_of_month`] and [`crate::from_day_of_month`].
    DayOfMonth(i32),
    /// A date, as day, month and year.
    Date(u8, u8, u16),
    Ampere_Tens(i32),
    /// Month and year, stored as `month - 1 + 12 * year`.
    /// See [`crate::to_month_of_year`] and [`crate::from_month_of_year`].
    MonthOfYear(i32),
    Millibar_Tens(i32),
    Pascal(i32),
    CO2Content(i32),
    RawHex(i32),
    Watt(i32),
    Tonne_Hundreds(i32),
    KiloGram_Tens(i32),
    Gram_Tens(i32),
    CentiMeter_Tens(i32),
    ColourTemperature(i32),
    Lux_Tens(i32),
}

/// All the digital (boolean) values representable in CoE.
#[derive(Hash, PartialEq, Eq, Structural, Clone, Copy, Debug)]
pub enum DigitalCOEValue {
    OnOff(bool),
    YesNo(bool),
    RASMode(bool),
    /// `true` is `Normal`, `false` is `AUS`.
    Mixer(bool),
}

/// Any value representable in CoE: one of the two families.
#[derive(Hash, Debug, PartialEq, Eq, Structural, Clone, Copy)]
pub enum COEValue {
    /// An analogue value: a scaled 32-bit integer on the wire.
    Analogue(AnalogueCOEValue),
    /// A digital value: a boolean on the wire.
    Digital(DigitalCOEValue),
}

/// Whether `code` is a unit code of the analogue family.
pub open spec fn analogue_code_defined(code: u8) -> bool {
    code <= 75 && code != 43 && code != 44 && code != 45 && code != 47
}

/// Whether `code` is a unit code of the digital family.
pub open spec fn digital_code_defined(code: u8) -> bool {
    code == 43 || code == 44 || code == 45 || code == 47
}

impl AnalogueCOEValue {
    /// The unit code of this value on the wire.
    pub open spec fn spec_unit_code(self) -> u8 {
        match self {
            AnalogueCOEValue::Dimensionless(_) => 0,
            AnalogueCOEValue::DegreeCentigrade_Tens(_) => 1,
            AnalogueCOEValue::WattPerSquareMeter(_) => 2,
            AnalogueCOEValue::LiterPerHour(_) => 3,
            AnalogueCOEValue::Seconds(_) => 4,
            AnalogueCOEValue::Minutes(_) => 5,
            AnalogueCOEValue::LiterPerPulse_Tens(_) => 6,
            AnalogueCOEValue::DegreeKelvin_Tens(_) => 7,
            AnalogueCOEValue::Percent_Tens(_) => 8,
            AnalogueCOEValue::Colon(_) => 9,
            AnalogueCOEValue::KiloWatt_Hundreds(_) => 10,
            AnalogueCOEValue::KilowattHour_Tens(_) => 11,
            AnalogueCOEValue::MegawattHour(_) => 12,
            AnalogueCOEValue::Volt_Hundreds(_) => 13,
            AnalogueCOEValue::MilliAmpere_Tens(_) => 14,
            AnalogueCOEValue::Hours(_) => 15,
            AnalogueCOEValue::Days(_) => 16,
            AnalogueCOEValue::Pulses(_) => 17,
            AnalogueCOEValue::KiloOhm_Hundreds(_) => 18,
            AnalogueCOEValue::Liters(_) => 19,
            AnalogueCOEValue::KiloMetersPerHour(_) => 20,
            AnalogueCOEValue::Hertz_Hundreds(_) => 21,
            AnalogueCOEValue::LiterPerMinute(_) => 22,
            AnalogueCOEValue::Bar_Hundreds(_) => 23,
            AnalogueCOEValue::CoefficientOfPerformance_Hundreds(_) => 24,
            AnalogueCOEValue::KiloMeter(_) => 25,
            AnalogueCOEValue::Meter_Tens(_) => 26,
            AnalogueCOEValue::MilliMeter(_) => 27,
            AnalogueCOEValue::CubicMeter(_) => 28,
            AnalogueCOEValue::HertzPerKiloMeterPerHour_HundredThousands(_) => 29,
            AnalogueCOEValue::HertzPerMeterPerSecond_HundredThousands(_) => 30,
            AnalogueCOEValue::KilowattHourPerPulse_HundredThousands(_) => 31,
            AnalogueCOEValue::CubicMeterPerPulse_HundredThousands(_) => 32,
            AnalogueCOEValue::MilliMeterPerPulse_HundredThousands(_) => 33,
            AnalogueCOEValue::LiterPerPulse_HundredThousands(_) => 34,
            AnalogueCOEValue::LiterPerDay(_) => 35,
            AnalogueCOEValue::MetersPerSecond(_) => 36,
            AnalogueCOEValue::CubicMeterPerMinute(_) => 37,
            AnalogueCOEValue::CubicMeterPerHour(_) => 38,
            AnalogueCOEValue::CubicMeterPerDay(_) => 39,
            AnalogueCOEValue::MilliMeterPerMinute_Tens(_) => 40,
            AnalogueCOEValue::MilliMeterPerHour_Tens(_) => 41,
            AnalogueCOEValue::MilliMeterPerDay_Tens(_) => 42,
            AnalogueCOEValue::DegreeCentigradePlusRAS_Tens(_) => 46,
            AnalogueCOEValue::HeatingCircuitOpMode(_) => 48,
            AnalogueCOEValue::HeatingCircuitOpLevel(_) => 49,
            AnalogueCOEValue::CurrencyEuro_Hundreds(_) => 50,
            AnalogueCOEValue::CurrencyDollar_Hundreds(_) => 51,
            AnalogueCOEValue::AbsoluteHumidity_Tens(_) => 52,
            AnalogueCOEValue::PricePerUnit_HundredThousands(_) => 53,
            AnalogueCOEValue::Degree_Tens(_) => 54,
            AnalogueCOEValue::Blinds(_) => 55,
            AnalogueCOEValue::Degree_Millions(_) => 56,
            AnalogueCOEValue::Second_Tens(_) => 57,
            AnalogueCOEValue::Dimensionless_Tens(_) => 58,
            AnalogueCOEValue::BlindsPosition(_) => 59,
            AnalogueCOEValue::Time(_) => 60,
            AnalogueCOEValue::DayOfMonth(_) => 61,
            AnalogueCOEValue::Date(_, _, _) => 62,
            AnalogueCOEValue::Ampere_Tens(_) => 63,
            AnalogueCOEValue::MonthOfYear(_) => 64,
            AnalogueCOEValue::Millibar_Tens(_) => 65,
            AnalogueCOEValue::Pascal(_) => 66,
            AnalogueCOEValue::CO2Content(_) => 67,
            AnalogueCOEValue::RawHex(_) => 68,
            AnalogueCOEValue::Watt(_) => 69,
            AnalogueCOEValue::Tonne_Hundreds(_) => 70,
            AnalogueCOEValue::KiloGram_Tens(_) => 71,
            AnalogueCOEValue::Gram_Tens(_) => 72,
            AnalogueCOEValue::CentiMeter_Tens(_) => 73,
            AnalogueCOEValue::ColourTemperature(_) => 74,
            AnalogueCOEValue::Lux_Tens(_) => 75,
        }
    }

    /// The four value bytes of this value on the wire.
    pub open spec fn spec_value_bytes(self) -> Seq<u8> {
        match self {
            AnalogueCOEValue::Dimensionless(x) => spec_i32_to_le_bytes(x),
            AnalogueCOEValue::DegreeCentigrade_Tens(x) => spec_i32_to_le_bytes(x),
            AnalogueCOEValue::WattPerSquareMeter(x) => spec_i32_to_le_bytes(x),
            AnalogueCOEValue::LiterPerHour(x) => spec_i32_to_le_bytes(x),
            AnalogueCOEValue::Seconds(x) => spec_i32_to_le_bytes(x),
            AnalogueCOEValue::Minutes(x) => spec_i32_to_le_bytes(x),
            AnalogueCOEValue::LiterPerPulse_Tens(x) => spec_i32_to_le_bytes(x),
            AnalogueCOEValue::DegreeKelvin_Tens(x) => spec_i32_to_le_bytes(x),
            AnalogueCOEValue::Percent_Tens(x) => spec_i32_to_le_bytes(x),
            AnalogueCOEValue::Colon(x) => spec_i32_to_le_bytes(x),
            AnalogueCOEValue::KiloWatt_Hundreds(x) => spec_i32_to_le_bytes(x),
            AnalogueCOEValue::KilowattHour_Tens(x) => spec_i32_to_le_bytes(x),
            AnalogueCOEValue::MegawattHour(x) => spec_i32_to_le_bytes(x),
            AnalogueCOEValue::Volt_Hundreds(x) => spec_i32_to_le_bytes(x),
            AnalogueCOEValue::MilliAmpere_Tens(x) => spec_i32_to_le_bytes(x),
            AnalogueCOEValue::Hours(x) => spec_i32_to_le_bytes(x),
            AnalogueCOEValue::Days(x) => spec_i32_to_le_bytes(x),
            AnalogueCOEValue::Pulses(x) => spec_i32_to_le_bytes(x),
            AnalogueCOEValue::KiloOhm_Hundreds(x) => spec_i32_to_le_bytes(x),
            AnalogueCOEValue::Liters(x) => spec_i32_to_le_bytes(x),
            AnalogueCOEValue::KiloMetersPerHour(x) => spec_i32_to_le_bytes(x),
            AnalogueCOEValue::Hertz_Hundreds(x) => spec_i32_to_le_bytes(x),
            AnalogueCOEValue::LiterPerMinute(x) => spec_i32_to_le_bytes(x),
            AnalogueCOEValue::Bar_Hundreds(x) => spec_i32_to_le_bytes(x),
            AnalogueCOEValue::CoefficientOfPerformance_Hundreds(x) => spec_i32_to_le_bytes(x),
            AnalogueCOEValue::KiloMeter(x) => spec_i32_to_le_bytes(x),
            AnalogueCOEValue::Meter_Tens(x) => spec_i32_to_le_bytes(x),
            AnalogueCOEValue::MilliMeter(x) => spec_i32_to_le_bytes(x),
            AnalogueCOEValue::CubicMeter(x) => spec_i32_to_le_bytes(x),
            AnalogueCOEValue::HertzPerKiloMeterPerHour_HundredThousands(x) => spec_i32_to_le_bytes(x),
            AnalogueCOEValue::HertzPerMeterPerSecond_HundredThousands(x) => spec_i32_to_le_bytes(x),
            AnalogueCOEValue::KilowattHourPerPulse_HundredThousands(x) => spec_i32_to_le_bytes(x),
            AnalogueCOEValue::CubicMeterPerPulse_HundredThousands(x) => spec_i32_to_le_bytes(x),
            AnalogueCOEValue::MilliMeterPerPulse_HundredThousands(x) => spec_i32_to_le_bytes(x),
            AnalogueCOEValue::LiterPerPulse_HundredThousands(x) => spec_i32_to_le_bytes(x),
            AnalogueCOEValue::LiterPerDay(x) => spec_i32_to_le_bytes(x),
            AnalogueCOEValue::MetersPerSecond(x) => spec_i32_to_le_bytes(x),
            AnalogueCOEValue::CubicMeterPerMinute(x) => spec_i32_to_le_bytes(x),
            AnalogueCOEValue::CubicMeterPerHour(x) => spec_i32_to_le_bytes(x),
            AnalogueCOEValue::CubicMeterPerDay(x) => spec_i32_to_le_bytes(x),
            AnalogueCOEValue::MilliMeterPerMinute_Tens(x) => spec_i32_to_le_bytes(x),
            AnalogueCOEValue::MilliMeterPerHour_Tens(x) => spec_i32_to_le_bytes(x),
            AnalogueCOEValue::MilliMeterPerDay_Tens(x) => spec_i32_to_le_bytes(x),
            AnalogueCOEValue::DegreeCentigradePlusRAS_Tens(x) => spec_i32_to_le_bytes(x),
            AnalogueCOEValue::HeatingCircuitOpMode(x) => spec_i32_to_le_bytes(x),
            AnalogueCOEValue::HeatingCircuitOpLevel(x) => spec_i32_to_le_bytes(x),
            AnalogueCOEValue::CurrencyEuro_Hundreds(x) => spec_i32_to_le_bytes(x),
            AnalogueCOEValue::CurrencyDollar_Hundreds(x) => spec_i32_to_le_bytes(x),
            AnalogueCOEValue::AbsoluteHumidity_Tens(x) => spec_i32_to_le_bytes(x),
            AnalogueCOEValue::PricePerUnit_HundredThousands(x) => spec_i32_to_le_bytes(x),
            AnalogueCOEValue::Degree_Tens(x) => spec_i32_to_le_bytes(x),
            AnalogueCOEValue::Blinds(x) => spec_i32_to_le_bytes(x),
            AnalogueCOEValue::Degree_Millions(x) => spec_i32_to_le_bytes(x),
            AnalogueCOEValue::Second_Tens(x) => spec_i32_to_le_bytes(x),
            AnalogueCOEValue::Dimensionless_Tens(x) => spec_i32_to_le_bytes(x),
            AnalogueCOEValue::BlindsPosition(x) => spec_i32_to_le_bytes(x),
            AnalogueCOEValue::Time(x) => spec_i32_to_le_bytes(x),
            AnalogueCOEValue::DayOfMonth(x) => spec_i32_to_le_bytes(x),
            AnalogueCOEValue::Date(d, m, y) => seq![d, m] + spec_u16_to_le_bytes(y),
            AnalogueCOEValue::Ampere_Tens(x) => spec_i32_to_le_bytes(x),
            AnalogueCOEValue::MonthOfYear(x) => spec_i32_to_le_bytes(x),
            AnalogueCOEValue::Millibar_Tens(x) => spec_i32_to_le_bytes(x),
            AnalogueCOEValue::Pascal(x) => spec_i32_to_le_bytes(x),
            AnalogueCOEValue::CO2Content(x) => spec_i32_to_le_bytes(x),
            AnalogueCOEValue::RawHex(x) => spec_i32_to_le_bytes(x),
            AnalogueCOEValue::Watt(x) => spec_i32_to_le_bytes(x),
            AnalogueCOEValue::Tonne_Hundreds(x) => spec_i32_to_le_bytes(x),
            AnalogueCOEValue::KiloGram_Tens(x) => spec_i32_to_le_bytes(x),
            AnalogueCOEValue::Gram_Tens(x) => spec_i32_to_le_bytes(x),
            AnalogueCOEValue::CentiMeter_Tens(x) => spec_i32_to_le_bytes(x),
            AnalogueCOEValue::ColourTemperature(x) => spec_i32_to_le_bytes(x),
            AnalogueCOEValue::Lux_Tens(x) => spec_i32_to_le_bytes(x),
        }
    }

    /// The five wire bytes of this value: unit code, then four value bytes.
    pub open spec fn spec_wire_bytes(self) -> Seq<u8> {
        seq![self.spec_unit_code()] + self.spec_value_bytes()
    }

    /// The unit code of this value on the wire.
    pub fn unit_code(&self) -> (code: u8)
        ensures
            code == self.spec_unit_code(),
    {
        match self {
            AnalogueCOEValue::Dimensionless(_) => 0,
            AnalogueCOEValue::DegreeCentigrade_Tens(_) => 1,
            AnalogueCOEValue::WattPerSquareMeter(_) => 2,
            AnalogueCOEValue::LiterPerHour(_) => 3,
            AnalogueCOEValue::Seconds(_) => 4,
            AnalogueCOEValue::Minutes(_) => 5,
            AnalogueCOEValue::LiterPerPulse_Tens(_) => 6,
            AnalogueCOEValue::DegreeKelvin_Tens(_) => 7,
            AnalogueCOEValue::Percent_Tens(_) => 8,
            AnalogueCOEValue::Colon(_) => 9,
            AnalogueCOEValue::KiloWatt_Hundreds(_) => 10,
            AnalogueCOEValue::KilowattHour_Tens(_) => 11,
            AnalogueCOEValue::MegawattHour(_) => 12,
            AnalogueCOEValue::Volt_Hundreds(_) => 13,
            AnalogueCOEValue::MilliAmpere_Tens(_) => 14,
            AnalogueCOEValue::Hours(_) => 15,
            AnalogueCOEValue::Days(_) => 16,
            AnalogueCOEValue::Pulses(_) => 17,
            AnalogueCOEValue::KiloOhm_Hundreds(_) => 18,
            AnalogueCOEValue::Liters(_) => 19,
            AnalogueCOEValue::KiloMetersPerHour(_) => 20,
            AnalogueCOEValue::Hertz_Hundreds(_) => 21,
            AnalogueCOEValue::LiterPerMinute(_) => 22,
            AnalogueCOEValue::Bar_Hundreds(_) => 23,
            AnalogueCOEValue::CoefficientOfPerformance_Hundreds(_) => 24,
            AnalogueCOEValue::KiloMeter(_) => 25,
            AnalogueCOEValue::Meter_Tens(_) => 26,
            AnalogueCOEValue::MilliMeter(_) => 27,
            AnalogueCOEValue::CubicMeter(_) => 28,
            AnalogueCOEValue::HertzPerKiloMeterPerHour_HundredThousands(_) => 29,
            AnalogueCOEValue::HertzPerMeterPerSecond_HundredThousands(_) => 30,
            AnalogueCOEValue::KilowattHourPerPulse_HundredThousands(_) => 31,
            AnalogueCOEValue::CubicMeterPerPulse_HundredThousands(_) => 32,
            AnalogueCOEValue::MilliMeterPerPulse_HundredThousands(_) => 33,
            AnalogueCOEValue::LiterPerPulse_HundredThousands(_) => 34,
            AnalogueCOEValue::LiterPerDay(_) => 35,
            AnalogueCOEValue::MetersPerSecond(_) => 36,
            AnalogueCOEValue::CubicMeterPerMinute(_) => 37,
            AnalogueCOEValue::CubicMeterPerHour(_) => 38,
            AnalogueCOEValue::CubicMeterPerDay(_) => 39,
            AnalogueCOEValue::MilliMeterPerMinute_Tens(_) => 40,
            AnalogueCOEValue::MilliMeterPerHour_Tens(_) => 41,
            AnalogueCOEValue::MilliMeterPerDay_Tens(_) => 42,
            AnalogueCOEValue::DegreeCentigradePlusRAS_Tens(_) => 46,
            AnalogueCOEValue::HeatingCircuitOpMode(_) => 48,
            AnalogueCOEValue::HeatingCircuitOpLevel(_) => 49,
            AnalogueCOEValue::CurrencyEuro_Hundreds(_) => 50,
            AnalogueCOEValue::CurrencyDollar_Hundreds(_) => 51,
            AnalogueCOEValue::AbsoluteHumidity_Tens(_) => 52,
            AnalogueCOEValue::PricePerUnit_HundredThousands(_) => 53,
            AnalogueCOEValue::Degree_Tens(_) => 54,
            AnalogueCOEValue::Blinds(_) => 55,
            AnalogueCOEValue::Degree_Millions(_) => 56,
            AnalogueCOEValue::Second_Tens(_) => 57,
            AnalogueCOEValue::Dimensionless_Tens(_) => 58,
            AnalogueCOEValue::BlindsPosition(_) => 59,
            AnalogueCOEValue::Time(_) => 60,
            AnalogueCOEValue::DayOfMonth(_) => 61,
            AnalogueCOEValue::Date(_, _, _) => 62,
            AnalogueCOEValue::Ampere_Tens(_) => 63,
            AnalogueCOEValue::MonthOfYear(_) => 64,
            AnalogueCOEValue::Millibar_Tens(_) => 65,
            AnalogueCOEValue::Pascal(_) => 66,
            AnalogueCOEValue::CO2Content(_) => 67,
            AnalogueCOEValue::RawHex(_) => 68,
            AnalogueCOEValue::Watt(_) => 69,
            AnalogueCOEValue::Tonne_Hundreds(_) => 70,
            AnalogueCOEValue::KiloGram_Tens(_) => 71,
            AnalogueCOEValue::Gram_Tens(_) => 72,
            AnalogueCOEValue::CentiMeter_Tens(_) => 73,
            AnalogueCOEValue::ColourTemperature(_) => 74,
            AnalogueCOEValue::Lux_Tens(_) => 75,
        }
    }

    /// The four value bytes of this value on the wire.
    pub fn value_bytes(&self) -> (bytes: Vec<u8>)
        ensures
            bytes@ == self.spec_value_bytes(),
            bytes@.len() == 4,
    {
        match self {
            AnalogueCOEValue::Date(d, m, y) => {
                let yb = u16_to_le_bytes(*y);
                let mut bytes: Vec<u8> = Vec::new();
                bytes.push(*d);
                bytes.push(*m);
                bytes.push(yb[0]);
                bytes.push(yb[1]);
                proof {
                    lemma_auto_spec_u16_to_from_le_bytes();
                    assert(bytes@ =~= seq![*d, *m] + spec_u16_to_le_bytes(*y));
                }
                bytes
            },
            AnalogueCOEValue::Dimensionless(x) => i32_to_le_vec(*x),
            AnalogueCOEValue::DegreeCentigrade_Tens(x) => i32_to_le_vec(*x),
            AnalogueCOEValue::WattPerSquareMeter(x) => i32_to_le_vec(*x),
            AnalogueCOEValue::LiterPerHour(x) => i32_to_le_vec(*x),
            AnalogueCOEValue::Seconds(x) => i32_to_le_vec(*x),
            AnalogueCOEValue::Minutes(x) => i32_to_le_vec(*x),
            AnalogueCOEValue::LiterPerPulse_Tens(x) => i32_to_le_vec(*x),
            AnalogueCOEValue::DegreeKelvin_Tens(x) => i32_to_le_vec(*x),
            AnalogueCOEValue::Percent_Tens(x) => i32_to_le_vec(*x),
            AnalogueCOEValue::Colon(x) => i32_to_le_vec(*x),
            AnalogueCOEValue::KiloWatt_Hundreds(x) => i32_to_le_vec(*x),
            AnalogueCOEValue::KilowattHour_Tens(x) => i32_to_le_vec(*x),
            AnalogueCOEValue::MegawattHour(x) => i32_to_le_vec(*x),
            AnalogueCOEValue::Volt_Hundreds(x) => i32_to_le_vec(*x),
            AnalogueCOEValue::MilliAmpere_Tens(x) => i32_to_le_vec(*x),
            AnalogueCOEValue::Hours(x) => i32_to_le_vec(*x),
            AnalogueCOEValue::Days(x) => i32_to_le_vec(*x),
            AnalogueCOEValue::Pulses(x) => i32_to_le_vec(*x),
            AnalogueCOEValue::KiloOhm_Hundreds(x) => i32_to_le_vec(*x),
            AnalogueCOEValue::Liters(x) => i32_to_le_vec(*x),
            AnalogueCOEValue::KiloMetersPerHour(x) => i32_to_le_vec(*x),
            AnalogueCOEValue::Hertz_Hundreds(x) => i32_to_le_vec(*x),
            AnalogueCOEValue::LiterPerMinute(x) => i32_to_le_vec(*x),
            AnalogueCOEValue::Bar_Hundreds(x) => i32_to_le_vec(*x),
            AnalogueCOEValue::CoefficientOfPerformance_Hundreds(x) => i32_to_le_vec(*x),
            AnalogueCOEValue::KiloMeter(x) => i32_to_le_vec(*x),
            AnalogueCOEValue::Meter_Tens(x) => i32_to_le_vec(*x),
            AnalogueCOEValue::MilliMeter(x) => i32_to_le_vec(*x),
            AnalogueCOEValue::CubicMeter(x) => i32_to_le_vec(*x),
            AnalogueCOEValue::HertzPerKiloMeterPerHour_HundredThousands(x) => i32_to_le_vec(*x),
            AnalogueCOEValue::HertzPerMeterPerSecond_HundredThousands(x) => i32_to_le_vec(*x),
            AnalogueCOEValue::KilowattHourPerPulse_HundredThousands(x) => i32_to_le_vec(*x),
            AnalogueCOEValue::CubicMeterPerPulse_HundredThousands(x) => i32_to_le_vec(*x),
            AnalogueCOEValue::MilliMeterPerPulse_HundredThousands(x) => i32_to_le_vec(*x),
            AnalogueCOEValue::LiterPerPulse_HundredThousands(x) => i32_to_le_vec(*x),
            AnalogueCOEValue::LiterPerDay(x) => i32_to_le_vec(*x),
            AnalogueCOEValue::MetersPerSecond(x) => i32_to_le_vec(*x),
            AnalogueCOEValue::CubicMeterPerMinute(x) => i32_to_le_vec(*x),
            AnalogueCOEValue::CubicMeterPerHour(x) => i32_to_le_vec(*x),
            AnalogueCOEValue::CubicMeterPerDay(x) => i32_to_le_vec(*x),
            AnalogueCOEValue::MilliMeterPerMinute_Tens(x) => i32_to_le_vec(*x),
            AnalogueCOEValue::MilliMeterPerHour_Tens(x) => i32_to_le_vec(*x),
            AnalogueCOEValue::MilliMeterPerDay_Tens(x) => i32_to_le_vec(*x),
            AnalogueCOEValue::DegreeCentigradePlusRAS_Tens(x) => i32_to_le_vec(*x),
            AnalogueCOEValue::HeatingCircuitOpMode(x) => i32_to_le_vec(*x),
            AnalogueCOEValue::HeatingCircuitOpLevel(x) => i32_to_le_vec(*x),
            AnalogueCOEValue::CurrencyEuro_Hundreds(x) => i32_to_le_vec(*x),
            AnalogueCOEValue::CurrencyDollar_Hundreds(x) => i32_to_le_vec(*x),
            AnalogueCOEValue::AbsoluteHumidity_Tens(x) => i32_to_le_vec(*x),
            AnalogueCOEValue::PricePerUnit_HundredThousands(x) => i32_to_le_vec(*x),
            AnalogueCOEValue::Degree_Tens(x) => i32_to_le_vec(*x),
            AnalogueCOEValue::Blinds(x) => i32_to_le_vec(*x),
            AnalogueCOEValue::Degree_Millions(x) => i32_to_le_vec(*x),
            AnalogueCOEValue::Second_Tens(x) => i32_to_le_vec(*x),
            AnalogueCOEValue::Dimensionless_Tens(x) => i32_to_le_vec(*x),
            AnalogueCOEValue::BlindsPosition(x) => i32_to_le_vec(*x),
            AnalogueCOEValue::Time(x) => i32_to_le_vec(*x),
            AnalogueCOEValue::DayOfMonth(x) => i32_to_le_vec(*x),
            AnalogueCOEValue::Ampere_Tens(x) => i32_to_le_vec(*x),
            AnalogueCOEValue::MonthOfYear(x) => i32_to_le_vec(*x),
            AnalogueCOEValue::Millibar_Tens(x) => i32_to_le_vec(*x),
            AnalogueCOEValue::Pascal(x) => i32_to_le_vec(*x),
            AnalogueCOEValue::CO2Content(x) => i32_to_le_vec(*x),
            AnalogueCOEValue::RawHex(x) => i32_to_le_vec(*x),
            AnalogueCOEValue::Watt(x) => i32_to_le_vec(*x),
            AnalogueCOEValue::Tonne_Hundreds(x) => i32_to_le_vec(*x),
            AnalogueCOEValue::KiloGram_Tens(x) => i32_to_le_vec(*x),
            AnalogueCOEValue::Gram_Tens(x) => i32_to_le_vec(*x),
            AnalogueCOEValue::CentiMeter_Tens(x) => i32_to_le_vec(*x),
            AnalogueCOEValue::ColourTemperature(x) => i32_to_le_vec(*x),
            AnalogueCOEValue::Lux_Tens(x) => i32_to_le_vec(*x),
        }
    }

    /// The five wire bytes of this value: unit code, then four value bytes.
    pub fn wire_bytes(&self) -> (bytes: Vec<u8>)
        ensures
            bytes@ == self.spec_wire_bytes(),
            bytes@.len() == 5,
    {
        let mut bytes: Vec<u8> = Vec::new();
        bytes.push(self.unit_code());
        let mut rest = self.value_bytes();
        bytes.append(&mut rest);
        proof {
            assert(bytes@ =~= self.spec_wire_bytes());
        }
        bytes
    }

    /// Decode an analogue value from its unit code and the slice holding the
    /// four little-endian value bytes.
    ///
    /// Exactly the defined analogue unit codes decode successfully; a defined
    /// code accepts every four-byte value. A slice of any other length is a
    /// `ValueSize` error and an undefined code a `FormatAndUnitIncompatible`
    /// error.
    pub fn try_from_bytes(unit: u8, raw: &[u8]) -> (r: Result<AnalogueCOEValue, ParseCOEError>)
        ensures
            raw@.len() != 4 ==> r == Err::<AnalogueCOEValue, ParseCOEError>(
                ParseCOEError::ValueSize(raw@.len() as usize),
            ),
            raw@.len() == 4 && analogue_code_defined(unit) ==> r == Ok::<
                AnalogueCOEValue,
                ParseCOEError,
            >(spec_analogue_from_wire(unit, raw@)),
            raw@.len() == 4 && !analogue_code_defined(unit) ==> r == Err::<
                AnalogueCOEValue,
                ParseCOEError,
            >(ParseCOEError::FormatAndUnitIncompatible(Format::Analogue, unit)),
    {
        if raw.len() != 4 {
            return Err(ParseCOEError::ValueSize(raw.len()));
        }
        let n = i32_from_le_slice(raw);
        match unit {
            0 => Ok(AnalogueCOEValue::Dimensionless(n)),
            1 => Ok(AnalogueCOEValue::DegreeCentigrade_Tens(n)),
            2 => Ok(AnalogueCOEValue::WattPerSquareMeter(n)),
            3 => Ok(AnalogueCOEValue::LiterPerHour(n)),
            4 => Ok(AnalogueCOEValue::Seconds(n)),
            5 => Ok(AnalogueCOEValue::Minutes(n)),
            6 => Ok(AnalogueCOEValue::LiterPerPulse_Tens(n)),
            7 => Ok(AnalogueCOEValue::DegreeKelvin_Tens(n)),
            8 => Ok(AnalogueCOEValue::Percent_Tens(n)),
            9 => Ok(AnalogueCOEValue::Colon(n)),
            10 => Ok(AnalogueCOEValue::KiloWatt_Hundreds(n)),
            11 => Ok(AnalogueCOEValue::KilowattHour_Tens(n)),
            12 => Ok(AnalogueCOEValue::MegawattHour(n)),
            13 => Ok(AnalogueCOEValue::Volt_Hundreds(n)),
            14 => Ok(AnalogueCOEValue::MilliAmpere_Tens(n)),
            15 => Ok(AnalogueCOEValue::Hours(n)),
            16 => Ok(AnalogueCOEValue::Days(n)),
            17 => Ok(AnalogueCOEValue::Pulses(n)),
            18 => Ok(AnalogueCOEValue::KiloOhm_Hundreds(n)),
            19 => Ok(AnalogueCOEValue::Liters(n)),
            20 => Ok(AnalogueCOEValue::KiloMetersPerHour(n)),
            21 => Ok(AnalogueCOEValue::Hertz_Hundreds(n)),
            22 => Ok(AnalogueCOEValue::LiterPerMinute(n)),
            23 => Ok(AnalogueCOEValue::Bar_Hundreds(n)),
            24 => Ok(AnalogueCOEValue::CoefficientOfPerformance_Hundreds(n)),
            25 => Ok(AnalogueCOEValue::KiloMeter(n)),
            26 => Ok(AnalogueCOEValue::Meter_Tens(n)),
            27 => Ok(AnalogueCOEValue::MilliMeter(n)),
            28 => Ok(AnalogueCOEValue::CubicMeter(n)),
            29 => Ok(AnalogueCOEValue::HertzPerKiloMeterPerHour_HundredThousands(n)),
            30 => Ok(AnalogueCOEValue::HertzPerMeterPerSecond_HundredThousands(n)),
            31 => Ok(AnalogueCOEValue::KilowattHourPerPulse_HundredThousands(n)),
            32 => Ok(AnalogueCOEValue::CubicMeterPerPulse_HundredThousands(n)),
            33 => Ok(AnalogueCOEValue::MilliMeterPerPulse_HundredThousands(n)),
            34 => Ok(AnalogueCOEValue::LiterPerPulse_HundredThousands(n)),
            35 => Ok(AnalogueCOEValue::LiterPerDay(n)),
            36 => Ok(AnalogueCOEValue::MetersPerSecond(n)),
            37 => Ok(AnalogueCOEValue::CubicMeterPerMinute(n)),
            38 => Ok(AnalogueCOEValue::CubicMeterPerHour(n)),
            39 => Ok(AnalogueCOEValue::CubicMeterPerDay(n)),
            40 => Ok(AnalogueCOEValue::MilliMeterPerMinute_Tens(n)),
            41 => Ok(AnalogueCOEValue::MilliMeterPerHour_Tens(n)),
            42 => Ok(AnalogueCOEValue::MilliMeterPerDay_Tens(n)),
            46 => Ok(AnalogueCOEValue::DegreeCentigradePlusRAS_Tens(n)),
            48 => Ok(AnalogueCOEValue::HeatingCircuitOpMode(n)),
            49 => Ok(AnalogueCOEValue::HeatingCircuitOpLevel(n)),
            50 => Ok(AnalogueCOEValue::CurrencyEuro_Hundreds(n)),
            51 => Ok(AnalogueCOEValue::CurrencyDollar_Hundreds(n)),
            52 => Ok(AnalogueCOEValue::AbsoluteHumidity_Tens(n)),
            53 => Ok(AnalogueCOEValue::PricePerUnit_HundredThousands(n)),
            54 => Ok(AnalogueCOEValue::Degree_Tens(n)),
            55 => Ok(AnalogueCOEValue::Blinds(n)),
            56 => Ok(AnalogueCOEValue::Degree_Millions(n)),
            57 => Ok(AnalogueCOEValue::Second_Tens(n)),
            58 => Ok(AnalogueCOEValue::Dimensionless_Tens(n)),
            59 => Ok(AnalogueCOEValue::BlindsPosition(n)),
            60 => Ok(AnalogueCOEValue::Time(n)),
            61 => Ok(AnalogueCOEValue::DayOfMonth(n)),
            62 => {
                let y = u16_from_le_bytes(&raw[2..4]);
                Ok(AnalogueCOEValue::Date(raw[0], raw[1], y))
            },
            63 => Ok(AnalogueCOEValue::Ampere_Tens(n)),
            64 => Ok(AnalogueCOEValue::MonthOfYear(n)),
            65 => Ok(AnalogueCOEValue::Millibar_Tens(n)),
            66 => Ok(AnalogueCOEValue::Pascal(n)),
            67 => Ok(AnalogueCOEValue::CO2Content(n)),
            68 => Ok(AnalogueCOEValue::RawHex(n)),
            69 => Ok(AnalogueCOEValue::Watt(n)),
            70 => Ok(AnalogueCOEValue::Tonne_Hundreds(n)),
            71 => Ok(AnalogueCOEValue::KiloGram_Tens(n)),
            72 => Ok(AnalogueCOEValue::Gram_Tens(n)),
            73 => Ok(AnalogueCOEValue::CentiMeter_Tens(n)),
            74 => Ok(AnalogueCOEValue::ColourTemperature(n)),
            75 => Ok(AnalogueCOEValue::Lux_Tens(n)),
            _ => Err(ParseCOEError::FormatAndUnitIncompatible(Format::Analogue, unit)),
        }
    }
}

/// The analogue value described by a defined unit code and four wire bytes.
pub open spec fn spec_analogue_from_wire(code: u8, b: Seq<u8>) -> AnalogueCOEValue
    recommends
        analogue_code_defined(code),
        b.len() == 4,
{
    let n = spec_i32_from_le_bytes(b);
    if code == 0 {
        AnalogueCOEValue::Dimensionless(n)
    } else if code == 1 {
        AnalogueCOEValue::DegreeCentigrade_Tens(n)
    } else if code == 2 {
        AnalogueCOEValue::WattPerSquareMeter(n)
    } else if code == 3 {
        AnalogueCOEValue::LiterPerHour(n)
    } else if code == 4 {
        AnalogueCOEValue::Seconds(n)
    } else if code == 5 {
        AnalogueCOEValue::Minutes(n)
    } else if code == 6 {
        AnalogueCOEValue::LiterPerPulse_Tens(n)
    } else if code == 7 {
        AnalogueCOEValue::DegreeKelvin_Tens(n)
    } else if code == 8 {
        AnalogueCOEValue::Percent_Tens(n)
    } else if code == 9 {
        AnalogueCOEValue::Colon(n)
    } else if code == 10 {
        AnalogueCOEValue::KiloWatt_Hundreds(n)
    } else if code == 11 {
        AnalogueCOEValue::KilowattHour_Tens(n)
    } else if code == 12 {
        AnalogueCOEValue::MegawattHour(n)
    } else if code == 13 {
        AnalogueCOEValue::Volt_Hundreds(n)
    } else if code == 14 {
        AnalogueCOEValue::MilliAmpere_Tens(n)
    } else if code == 15 {
        AnalogueCOEValue::Hours(n)
    } else if code == 16 {
        AnalogueCOEValue::Days(n)
    } else if code == 17 {
        AnalogueCOEValue::Pulses(n)
    } else if code == 18 {
        AnalogueCOEValue::KiloOhm_Hundreds(n)
    } else if code == 19 {
        AnalogueCOEValue::Liters(n)
    } else if code == 20 {
        AnalogueCOEValue::KiloMetersPerHour(n)
    } else if code == 21 {
        AnalogueCOEValue::Hertz_Hundreds(n)
    } else if code == 22 {
        AnalogueCOEValue::LiterPerMinute(n)
    } else if code == 23 {
        AnalogueCOEValue::Bar_Hundreds(n)
    } else if code == 24 {
        AnalogueCOEValue::CoefficientOfPerformance_Hundreds(n)
    } else if code == 25 {
        AnalogueCOEValue::KiloMeter(n)
    } else if code == 26 {
        AnalogueCOEValue::Meter_Tens(n)
    } else if code == 27 {
        AnalogueCOEValue::MilliMeter(n)
    } else if code == 28 {
        AnalogueCOEValue::CubicMeter(n)
    } else if code == 29 {
        AnalogueCOEValue::HertzPerKiloMeterPerHour_HundredThousands(n)
    } else if code == 30 {
        AnalogueCOEValue::HertzPerMeterPerSecond_HundredThousands(n)
    } else if code == 31 {
        AnalogueCOEValue::KilowattHourPerPulse_HundredThousands(n)
    } else if code == 32 {
        AnalogueCOEValue::CubicMeterPerPulse_HundredThousands(n)
    } else if code == 33 {
        AnalogueCOEValue::MilliMeterPerPulse_HundredThousands(n)
    } else if code == 34 {
        AnalogueCOEValue::LiterPerPulse_HundredThousands(n)
    } else if code == 35 {
        AnalogueCOEValue::LiterPerDay(n)
    } else if code == 36 {
        AnalogueCOEValue::MetersPerSecond(n)
    } else if code == 37 {
        AnalogueCOEValue::CubicMeterPerMinute(n)
    } else if code == 38 {
        AnalogueCOEValue::CubicMeterPerHour(n)
    } else if code == 39 {
        AnalogueCOEValue::CubicMeterPerDay(n)
    } else if code == 40 {
        AnalogueCOEValue::MilliMeterPerMinute_Tens(n)
    } else if code == 41 {
        AnalogueCOEValue::MilliMeterPerHour_Tens(n)
    } else if code == 42 {
        AnalogueCOEValue::MilliMeterPerDay_Tens(n)
    } else if code == 46 {
        AnalogueCOEValue::DegreeCentigradePlusRAS_Tens(n)
    } else if code == 48 {
        AnalogueCOEValue::HeatingCircuitOpMode(n)
    } else if code == 49 {
        AnalogueCOEValue::HeatingCircuitOpLevel(n)
    } else if code == 50 {
        AnalogueCOEValue::CurrencyEuro_Hundreds(n)
    } else if code == 51 {
        AnalogueCOEValue::CurrencyDollar_Hundreds(n)
    } else if code == 52 {
        AnalogueCOEValue::AbsoluteHumidity_Tens(n)
    } else if code == 53 {
        AnalogueCOEValue::PricePerUnit_HundredThousands(n)
    } else if code == 54 {
        AnalogueCOEValue::Degree_Tens(n)
    } else if code == 55 {
        AnalogueCOEValue::Blinds(n)
    } else if code == 56 {
        AnalogueCOEValue::Degree_Millions(n)
    } else if code == 57 {
        AnalogueCOEValue::Second_Tens(n)
    } else if code == 58 {
        AnalogueCOEValue::Dimensionless_Tens(n)
    } else if code == 59 {
        AnalogueCOEValue::BlindsPosition(n)
    } else if code == 60 {
        AnalogueCOEValue::Time(n)
    } else if code == 61 {
        AnalogueCOEValue::DayOfMonth(n)
    } else if code == 62 {
        AnalogueCOEValue::Date(b[0], b[1], spec_u16_from_le_bytes(b.subrange(2, 4)))
    } else if code == 63 {
        AnalogueCOEValue::Ampere_Tens(n)
    } else if code == 64 {
        AnalogueCOEValue::MonthOfYear(n)
    } else if code == 65 {
        AnalogueCOEValue::Millibar_Tens(n)
    } else if code == 66 {
        AnalogueCOEValue::Pascal(n)
    } else if code == 67 {
        AnalogueCOEValue::CO2Content(n)
    } else if code == 68 {
        AnalogueCOEValue::RawHex(n)
    } else if code == 69 {
        AnalogueCOEValue::Watt(n)
    } else if code == 70 {
        AnalogueCOEValue::Tonne_Hundreds(n)
    } else if code == 71 {
        AnalogueCOEValue::KiloGram_Tens(n)
    } else if code == 72 {
        AnalogueCOEValue::Gram_Tens(n)
    } else if code == 73 {
        AnalogueCOEValue::CentiMeter_Tens(n)
    } else if code == 74 {
        AnalogueCOEValue::ColourTemperature(n)
    } else if code == 75 {
        AnalogueCOEValue::Lux_Tens(n)
    } else {
        // unreachable under the recommends clause
        AnalogueCOEValue::Lux_Tens(n)
    }
}

/// Decoding the wire bytes of an analogue value yields the value back.
pub proof fn lemma_analogue_roundtrip(v: AnalogueCOEValue)
    ensures
        v.spec_value_bytes().len() == 4,
        analogue_code_defined(v.spec_unit_code()),
        spec_analogue_from_wire(v.spec_unit_code(), v.spec_value_bytes()) == v,
{
    lemma_i32_le_bytes_roundtrip();
    lemma_auto_spec_u16_to_from_le_bytes();
    match v {
        AnalogueCOEValue::Date(d, m, y) => {
            let b = v.spec_value_bytes();
            assert(b =~= seq![d, m] + spec_u16_to_le_bytes(y));
            assert(b.subrange(2, 4) =~= spec_u16_to_le_bytes(y));
        },
        _ => {},
    }
}

/// Re-encoding the analogue value decoded from four wire bytes yields the
/// same unit code and the same four bytes.
pub proof fn lemma_analogue_wire_roundtrip(code: u8, b: Seq<u8>)
    requires
        analogue_code_defined(code),
        b.len() == 4,
    ensures
        spec_analogue_from_wire(code, b).spec_unit_code() == code,
        spec_analogue_from_wire(code, b).spec_value_bytes() == b,
{
    lemma_i32_le_bytes_roundtrip();
    lemma_auto_spec_u16_to_from_le_bytes();
    if code == 62 {
        let v = spec_analogue_from_wire(code, b);
        assert(v.spec_value_bytes() =~= seq![b[0], b[1]] + spec_u16_to_le_bytes(
            spec_u16_from_le_bytes(b.subrange(2, 4)),
        ));
        assert(spec_u16_to_le_bytes(spec_u16_from_le_bytes(b.subrange(2, 4))) == b.subrange(2, 4));
        assert(v.spec_value_bytes() =~= b);
    }
}

/// The digital value with the given defined unit code and boolean.
pub open spec fn spec_digital_from_code(code: u8, v: bool) -> DigitalCOEValue
    recommends
        digital_code_defined(code),
{
    if code == 43 {
        DigitalCOEValue::OnOff(v)
    } else if code == 44 {
        DigitalCOEValue::YesNo(v)
    } else if code == 45 {
        DigitalCOEValue::RASMode(v)
    } else {
        DigitalCOEValue::Mixer(v)
    }
}

/// The boolean held in four digital value bytes, if they hold one:
/// `[0, 0, 0, 0]` is `false`, `[1, 0, 0, 0]` is `true`, everything else
/// holds no boolean.
pub open spec fn spec_digital_payload_bool(b: Seq<u8>) -> Option<bool>
    recommends
        b.len() == 4,
{
    if b[1] == 0 && b[2] == 0 && b[3] == 0 {
        if b[0] == 0 {
            Some(false)
        } else if b[0] == 1 {
            Some(true)
        } else {
            None
        }
    } else {
        None
    }
}

/// The result of decoding a digital value from a unit code and four value
/// bytes: the value bytes must hold a boolean and the unit code must be a
/// digital one, in that order of checking.
pub open spec fn spec_digital_result(unit: u8, b: Seq<u8>) -> Result<
    DigitalCOEValue,
    ParseCOEError,
>
    recommends
        b.len() == 4,
{
    match spec_digital_payload_bool(b) {
        None => Err(ParseCOEError::ValueNotBool([b[0], b[1], b[2], b[3]])),
        Some(v) => if digital_code_defined(unit) {
            Ok(spec_digital_from_code(unit, v))
        } else {
            Err(ParseCOEError::FormatAndUnitIncompatible(Format::Digital, unit))
        },
    }
}

impl DigitalCOEValue {
    /// The unit code of this value on the wire.
    pub open spec fn spec_unit_code(self) -> u8 {
        match self {
            DigitalCOEValue::OnOff(_) => 43,
            DigitalCOEValue::YesNo(_) => 44,
            DigitalCOEValue::RASMode(_) => 45,
            DigitalCOEValue::Mixer(_) => 47,
        }
    }

    /// The boolean this value wraps.
    pub open spec fn spec_bool(self) -> bool {
        match self {
            DigitalCOEValue::OnOff(v) => v,
            DigitalCOEValue::YesNo(v) => v,
            DigitalCOEValue::RASMode(v) => v,
            DigitalCOEValue::Mixer(v) => v,
        }
    }

    /// The four value bytes of this value on the wire.
    pub open spec fn spec_value_bytes(self) -> Seq<u8> {
        seq![
            if self.spec_bool() {
                1u8
            } else {
                0u8
            },
            0u8,
            0u8,
            0u8,
        ]
    }

    /// The five wire bytes of this value: unit code, then four value bytes.
    pub open spec fn spec_wire_bytes(self) -> Seq<u8> {
        seq![self.spec_unit_code()] + self.spec_value_bytes()
    }

    /// The unit code of this value on the wire.
    pub fn unit_code(&self) -> (code: u8)
        ensures
            code == self.spec_unit_code(),
    {
        match self {
            DigitalCOEValue::OnOff(_) => 43,
            DigitalCOEValue::YesNo(_) => 44,
            DigitalCOEValue::RASMode(_) => 45,
            DigitalCOEValue::Mixer(_) => 47,
        }
    }

    /// The boolean this value wraps.
    pub fn value(&self) -> (v: bool)
        ensures
            v == self.spec_bool(),
    {
        match self {
            DigitalCOEValue::OnOff(v) => *v,
            DigitalCOEValue::YesNo(v) => *v,
            DigitalCOEValue::RASMode(v) => *v,
            DigitalCOEValue::Mixer(v) => *v,
        }
    }

    /// The four value bytes of this value on the wire.
    pub fn value_bytes(&self) -> (bytes: Vec<u8>)
        ensures
            bytes@ == self.spec_value_bytes(),
            bytes@.len() == 4,
    {
        let mut bytes: Vec<u8> = Vec::new();
        bytes.push(if self.value() { 1 } else { 0 });
        bytes.push(0);
        bytes.push(0);
        bytes.push(0);
        proof {
            assert(bytes@ =~= self.spec_value_bytes());
        }
        bytes
    }

    /// The five wire bytes of this value: unit code, then four value bytes.
    pub fn wire_bytes(&self) -> (bytes: Vec<u8>)
        ensures
            bytes@ == self.spec_wire_bytes(),
            bytes@.len() == 5,
    {
        let mut bytes: Vec<u8> = Vec::new();
        bytes.push(self.unit_code());
        let mut rest = self.value_bytes();
        bytes.append(&mut rest);
        proof {
            assert(bytes@ =~= self.spec_wire_bytes());
        }
        bytes
    }

    /// Decode a digital value from its unit code and the slice holding the
    /// four value bytes.
    ///
    /// The value bytes are checked first: `[0, 0, 0, 0]` decodes to `false`
    /// and `[1, 0, 0, 0]` to `true`, and any other pattern is a
    /// `ValueNotBool` error. Only then is the unit code checked against the
    /// four digital codes.
    pub fn try_from_bytes(unit: u8, raw: &[u8]) -> (r: Result<DigitalCOEValue, ParseCOEError>)
        ensures
            raw@.len() != 4 ==> r == Err::<DigitalCOEValue, ParseCOEError>(
                ParseCOEError::ValueSize(raw@.len() as usize),
            ),
            raw@.len() == 4 ==> r == spec_digital_result(unit, raw@),
    {
        if raw.len() != 4 {
            return Err(ParseCOEError::ValueSize(raw.len()));
        }
        if raw[3] != 0 || raw[2] != 0 || raw[1] != 0 {
            return Err(ParseCOEError::ValueNotBool([raw[0], raw[1], raw[2], raw[3]]));
        }
        let inner = match raw[0] {
            0 => false,
            1 => true,
            _ => {
                return Err(ParseCOEError::ValueNotBool([raw[0], raw[1], raw[2], raw[3]]));
            },
        };
        match unit {
            43 => Ok(DigitalCOEValue::OnOff(inner)),
            44 => Ok(DigitalCOEValue::YesNo(inner)),
            45 => Ok(DigitalCOEValue::RASMode(inner)),
            47 => Ok(DigitalCOEValue::Mixer(inner)),
            _ => Err(ParseCOEError::FormatAndUnitIncompatible(Format::Digital, unit)),
        }
    }
}

/// Decoding the wire bytes of a digital value yields the value back.
pub proof fn lemma_digital_roundtrip(v: DigitalCOEValue)
    ensures
        v.spec_value_bytes().len() == 4,
        digital_code_defined(v.spec_unit_code()),
        spec_digital_result(v.spec_unit_code(), v.spec_value_bytes()) == Ok::<
            DigitalCOEValue,
            ParseCOEError,
        >(v),
{
}

impl COEValue {
    /// The format discriminant of this value on the wire: 0 for digital,
    /// 1 for analogue.
    pub open spec fn spec_format_code(self) -> u8 {
        match self {
            COEValue::Analogue(_) => 1,
            COEValue::Digital(_) => 0,
        }
    }

    /// The unit code of this value on the wire.
    pub open spec fn spec_unit_code(self) -> u8 {
        match self {
            COEValue::Analogue(v) => v.spec_unit_code(),
            COEValue::Digital(v) => v.spec_unit_code(),
        }
    }

    /// The six wire bytes of this value: format discriminant, unit code,
    /// then four value bytes.
    pub open spec fn spec_wire_bytes(self) -> Seq<u8> {
        match self {
            COEValue::Analogue(v) => seq![1u8] + v.spec_wire_bytes(),
            COEValue::Digital(v) => seq![0u8] + v.spec_wire_bytes(),
        }
    }

    /// The unit code of this value on the wire.
    pub fn unit_code(&self) -> (code: u8)
        ensures
            code == self.spec_unit_code(),
    {
        match self {
            COEValue::Analogue(v) => v.unit_code(),
            COEValue::Digital(v) => v.unit_code(),
        }
    }

    /// The six wire bytes of this value: format discriminant, unit code,
    /// then four value bytes.
    pub fn wire_bytes(&self) -> (bytes: Vec<u8>)
        ensures
            bytes@ == self.spec_wire_bytes(),
            bytes@.len() == 6,
    {
        let mut bytes: Vec<u8> = Vec::new();
        match self {
            COEValue::Analogue(v) => {
                bytes.push(1);
                let mut rest = v.wire_bytes();
                bytes.append(&mut rest);
            },
            COEValue::Digital(v) => {
                bytes.push(0);
                let mut rest = v.wire_bytes();
                bytes.append(&mut rest);
            },
        }
        proof {
            assert(bytes@ =~= self.spec_wire_bytes());
        }
        bytes
    }
}

/// The result of decoding a value from its format discriminant, unit code
/// and four value bytes.
pub open spec fn spec_value_from_wire(format: u8, unit: u8, b: Seq<u8>) -> Result<
    COEValue,
    ParseCOEError,
>
    recommends
        b.len() == 4,
{
    if format == 0 {
        match spec_digital_result(unit, b) {
            Ok(v) => Ok(COEValue::Digital(v)),
            Err(e) => Err(e),
        }
    } else if format == 1 {
        if analogue_code_defined(unit) {
            Ok(COEValue::Analogue(spec_analogue_from_wire(unit, b)))
        } else {
            Err(ParseCOEError::FormatAndUnitIncompatible(Format::Analogue, unit))
        }
    } else {
        Err(ParseCOEError::FormatUnknown(format))
    }
}

/// Decoding the wire bytes of any value yields the value back.
pub proof fn lemma_value_roundtrip(v: COEValue)
    ensures
        v.spec_wire_bytes().len() == 6,
        spec_value_from_wire(
            v.spec_wire_bytes()[0],
            v.spec_wire_bytes()[1],
            v.spec_wire_bytes().subrange(2, 6),
        ) == Ok::<COEValue, ParseCOEError>(v),
{
    let w = v.spec_wire_bytes();
    match v {
        COEValue::Analogue(a) => {
            lemma_analogue_roundtrip(a);
            assert(w =~= seq![1u8, a.spec_unit_code()] + a.spec_value_bytes());
            assert(w.subrange(2, 6) =~= a.spec_value_bytes());
        },
        COEValue::Digital(d) => {
            lemma_digital_roundtrip(d);
            assert(w =~= seq![0u8, d.spec_unit_code()] + d.spec_value_bytes());
            assert(w.subrange(2, 6) =~= d.spec_value_bytes());
        },
    }
}

/// Re-encoding any successfully decoded value yields the format, unit code
/// and value bytes it was decoded from.
pub proof fn lemma_value_wire_roundtrip(format: u8, unit: u8, b: Seq<u8>)
    requires
        b.len() == 4,
    ensures
        spec_value_from_wire(format, unit, b) matches Ok(v) ==> v.spec_wire_bytes() == seq![
            format,
            unit,
        ] + b,
{
    match spec_value_from_wire(format, unit, b) {
        Ok(v) => match v {
            COEValue::Analogue(a) => {
                lemma_analogue_wire_roundtrip(unit, b);
                assert(v.spec_wire_bytes() =~= seq![format, unit] + b);
            },
            COEValue::Digital(d) => {
                assert(d.spec_value_bytes() =~= b);
                assert(v.spec_wire_bytes() =~= seq![format, unit] + b);
            },
        },
        Err(_) => {},
    }
}

} // verus!

