//! The wiring of a plant client, read from its settings: the DHT11 sensor's
//! pin, the SPI moisture sensor with its calibration, and the valve's pin.

use vstd::prelude::*;

use crate::convert::{
    is_num_var, num_var, parse_decimal, parse_u64, Bus, IntoEnum, Mode, SlaveSelect, BUS_COUNT, MODE_COUNT, SLAVE_SELECT_COUNT,
};

verus! {

/// How to reach an SPI device.
#[derive(Debug, Clone, Copy, PartialEq, Eq)]
pub struct SpiDescriptor {
    pub bus: Bus,
    pub slave_select: SlaveSelect,
    pub clock_freq: u32,
    pub mode: Mode,
}

/// The wiring of a client.
#[derive(Debug, Clone, Copy, PartialEq, Eq)]
pub struct Hardware {
    pub dht11_pin: u8,
    pub moisture_sensor: SpiDescriptor,
    pub moisture_sensor_calibration: usize,
    pub solenoid_valve_pin: u8,
}

/// The texts of the settings that describe the wiring, as the environment holds them.
pub struct HardwareSettings {
    /// `MS_SPI_BUS`
    pub spi_bus: String,
    /// `MS_SPI_SS`
    pub spi_slave_select: String,
    /// `MS_SPI_CLK`
    pub spi_clock: String,
    /// `MS_SPI_MODE`
    pub spi_mode: String,
    /// `DHT11`
    pub dht11: String,
    /// `SEN_CALIBRATION_MAX`
    pub calibration: String,
    /// `SOLENOID`
    pub solenoid: String,
}

/// What is wrong with the settings.
#[derive(Debug, Clone, Copy, PartialEq, Eq)]
pub enum SettingError {
    /// The named setting is not a decimal number of its type.
    Invalid(&'static str),
    /// A number that names no value of its kind.
    OutOfRange(u64),
}

/// The value of a setting read as a number of a type whose largest value is `max`.
pub open spec fn setting_value(text: Seq<char>, max: int) -> Option<int> {
    match parse_u64(text) {
        Some(n) => if n <= max {
            Some(n as int)
        } else {
            None
        },
        None => None,
    }
}

/// The first problem with the settings, in the order in which they are read:
/// bus, chip select, clock, mode, DHT11 pin, calibration, valve pin; `None`
/// where they describe a wiring.
pub open spec fn settings_problem(s: HardwareSettings) -> Option<SettingError> {
    let bus = parse_u64(s.spi_bus@);
    let ss = parse_u64(s.spi_slave_select@);
    let mode = parse_u64(s.spi_mode@);
    if bus is None {
        Some(SettingError::Invalid("MS_SPI_BUS"))
    } else if bus.unwrap() >= BUS_COUNT {
        Some(SettingError::OutOfRange(bus.unwrap()))
    } else if ss is None {
        Some(SettingError::Invalid("MS_SPI_SS"))
    } else if ss.unwrap() >= SLAVE_SELECT_COUNT {
        Some(SettingError::OutOfRange(ss.unwrap()))
    } else if setting_value(s.spi_clock@, u32::MAX as int) is None {
        Some(SettingError::Invalid("MS_SPI_CLK"))
    } else if mode is None {
        Some(SettingError::Invalid("MS_SPI_MODE"))
    } else if mode.unwrap() >= MODE_COUNT {
        Some(SettingError::OutOfRange(mode.unwrap()))
    } else if setting_value(s.dht11@, u8::MAX as int) is None {
        Some(SettingError::Invalid("DHT11"))
    } else if setting_value(s.calibration@, usize::MAX as int) is None {
        Some(SettingError::Invalid("SEN_CALIBRATION_MAX"))
    } else if setting_value(s.solenoid@, u8::MAX as int) is None {
        Some(SettingError::Invalid("SOLENOID"))
    } else {
        None
    }
}

/// The wiring that valid settings describe.
pub open spec fn hardware_of(s: HardwareSettings, h: Hardware) -> bool {
    &&& h.moisture_sensor.bus == <u64 as IntoEnum<Bus>>::named(parse_u64(s.spi_bus@).unwrap())
    &&& h.moisture_sensor.slave_select == <u64 as IntoEnum<SlaveSelect>>::named(parse_u64(s.spi_slave_select@).unwrap())
    &&& h.moisture_sensor.clock_freq == setting_value(s.spi_clock@, u32::MAX as int).unwrap()
    &&& h.moisture_sensor.mode == <u64 as IntoEnum<Mode>>::named(parse_u64(s.spi_mode@).unwrap())
    &&& h.dht11_pin == setting_value(s.dht11@, u8::MAX as int).unwrap()
    &&& h.moisture_sensor_calibration == setting_value(s.calibration@, usize::MAX as int).unwrap()
    &&& h.solenoid_valve_pin == setting_value(s.solenoid@, u8::MAX as int).unwrap()
}

/// A setting that is known to be a decimal `u64`.
fn decimal_setting(text: &str) -> (n: u64)
    requires
        parse_u64(text@) is Some,
    ensures
        n == parse_u64(text@).unwrap(),
{
    match parse_decimal(text) {
        Some(n) => n,
        None => vstd::pervasive::unreached(),
    }
}

impl Hardware {
    /// The first problem with the settings, if any.
    pub fn check(settings: &HardwareSettings) -> (r: Result<(), SettingError>)
        ensures
            r == match settings_problem(*settings) {
                None => Ok::<(), SettingError>(()),
                Some(e) => Err(e),
            },
    {
        let bus = match parse_decimal(settings.spi_bus.as_str()) {
            Some(n) => n,
            None => return Err(SettingError::Invalid("MS_SPI_BUS")),
        };
        if bus >= BUS_COUNT {
            return Err(SettingError::OutOfRange(bus));
        }
        let slave_select = match parse_decimal(settings.spi_slave_select.as_str()) {
            Some(n) => n,
            None => return Err(SettingError::Invalid("MS_SPI_SS")),
        };
        if slave_select >= SLAVE_SELECT_COUNT {
            return Err(SettingError::OutOfRange(slave_select));
        }
        if !is_num_var::<u32>(settings.spi_clock.as_str()) {
            return Err(SettingError::Invalid("MS_SPI_CLK"));
        }
        let mode = match parse_decimal(settings.spi_mode.as_str()) {
            Some(n) => n,
            None => return Err(SettingError::Invalid("MS_SPI_MODE")),
        };
        if mode >= MODE_COUNT {
            return Err(SettingError::OutOfRange(mode));
        }
        if !is_num_var::<u8>(settings.dht11.as_str()) {
            return Err(SettingError::Invalid("DHT11"));
        }
        if !is_num_var::<usize>(settings.calibration.as_str()) {
            return Err(SettingError::Invalid("SEN_CALIBRATION_MAX"));
        }
        if !is_num_var::<u8>(settings.solenoid.as_str()) {
            return Err(SettingError::Invalid("SOLENOID"));
        }
        Ok(())
    }

    /// Reads the wiring from settings that have no problem.
    pub fn new(settings: &HardwareSettings) -> (h: Hardware)
        requires
            settings_problem(*settings) is None,
        ensures
            hardware_of(*settings, h),
    {
        let moisture_sensor = SpiDescriptor {
            bus: decimal_setting(settings.spi_bus.as_str()).cast(),
            slave_select: decimal_setting(settings.spi_slave_select.as_str()).cast(),
            clock_freq: num_var::<u32>(settings.spi_clock.as_str()),
            mode: decimal_setting(settings.spi_mode.as_str()).cast(),
        };
        Hardware {
            dht11_pin: num_var::<u8>(settings.dht11.as_str()),
            moisture_sensor,
            moisture_sensor_calibration: num_var::<usize>(settings.calibration.as_str()),
            solenoid_valve_pin: num_var::<u8>(settings.solenoid.as_str()),
        }
    }
}

/// The wiring read from valid settings takes each number from its own setting:
/// the bus, chip select and mode are the values those numbers name, and the
/// clock, the pins and the calibration are the numbers themselves.
pub proof fn lemma_wiring_takes_each_setting(s: HardwareSettings, h: Hardware)
    requires
        settings_problem(s) is None,
        hardware_of(s, h),
    ensures
        h.moisture_sensor.bus == <u64 as IntoEnum<Bus>>::named(parse_u64(s.spi_bus@).unwrap()),
        h.moisture_sensor.slave_select == <u64 as IntoEnum<SlaveSelect>>::named(parse_u64(s.spi_slave_select@).unwrap()),
        h.moisture_sensor.mode == <u64 as IntoEnum<Mode>>::named(parse_u64(s.spi_mode@).unwrap()),
        h.moisture_sensor.clock_freq == parse_u64(s.spi_clock@).unwrap(),
        h.dht11_pin == parse_u64(s.dht11@).unwrap(),
        h.moisture_sensor_calibration == parse_u64(s.calibration@).unwrap(),
        h.solenoid_valve_pin == parse_u64(s.solenoid@).unwrap(),
{
}

/// Settings are accepted exactly when each is a decimal number in its range: a
/// bus below 7, a chip select below 16, a clock that fits 32 bits, a mode below
/// 4, pins that fit 8 bits and a calibration that fits a `usize`.
pub proof fn lemma_settings_accepted_exactly_in_range(s: HardwareSettings)
    ensures
        settings_problem(s) is None <==> {
            &&& parse_u64(s.spi_bus@) matches Some(b) && b < 7
            &&& parse_u64(s.spi_slave_select@) matches Some(c) && c < 16
            &&& parse_u64(s.spi_clock@) matches Some(k) && k <= 0xffff_ffff
            &&& parse_u64(s.spi_mode@) matches Some(m) && m < 4
            &&& parse_u64(s.dht11@) matches Some(d) && d <= 255
            &&& parse_u64(s.calibration@) matches Some(c) && c <= usize::MAX
            &&& parse_u64(s.solenoid@) matches Some(v) && v <= 255
        },
{
}

} // verus!
