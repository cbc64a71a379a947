//! Register images of the BMP280 barometric sensor: the configuration,
//! control and status bytes as plain data, with exact encode/decode logic.
//! The bus traffic that moves these bytes lives outside this crate; only
//! the bit-level meaning of each byte is the crate's business.

use vstd::prelude::*;

verus! {

/// The sensor's bus address.
pub const BMP280_ADDRESS: u8 = 0x76;

/// Standby time between measurements in normal mode, in milliseconds.
#[derive(Clone, Copy, Debug, PartialEq, Eq, Structural)]
#[allow(non_camel_case_types)]
pub enum Standby {
    ms0_5,
    ms62_5,
    ms125,
    ms250,
    ms500,
    ms1000,
    ms2000,
    ms4000,
    unknown,
}

impl Standby {
    /// The three-bit field value of this setting (`unknown` encodes as the
    /// reset value zero).
    pub fn to_bits(self) -> (r: u8)
        ensures
            r == standby_bits(self),
    {
        match self {
            Standby::ms0_5 => 0,
            Standby::ms62_5 => 1,
            Standby::ms125 => 2,
            Standby::ms250 => 3,
            Standby::ms500 => 4,
            Standby::ms1000 => 5,
            Standby::ms2000 => 6,
            Standby::ms4000 => 7,
            Standby::unknown => 0,
        }
    }

    /// The setting named by a three-bit field value.
    pub fn from_bits(v: u8) -> (r: Standby)
        ensures
            r == standby_of(v),
    {
        if v == 0 {
            Standby::ms0_5
        } else if v == 1 {
            Standby::ms62_5
        } else if v == 2 {
            Standby::ms125
        } else if v == 3 {
            Standby::ms250
        } else if v == 4 {
            Standby::ms500
        } else if v == 5 {
            Standby::ms1000
        } else if v == 6 {
            Standby::ms2000
        } else if v == 7 {
            Standby::ms4000
        } else {
            Standby::unknown
        }
    }
}

/// The field encoding of a standby setting.
pub open spec fn standby_bits(s: Standby) -> u8 {
    match s {
        Standby::ms0_5 => 0,
        Standby::ms62_5 => 1,
        Standby::ms125 => 2,
        Standby::ms250 => 3,
        Standby::ms500 => 4,
        Standby::ms1000 => 5,
        Standby::ms2000 => 6,
        Standby::ms4000 => 7,
        Standby::unknown => 0,
    }
}

/// The standby setting a field value names.
pub open spec fn standby_of(v: u8) -> Standby {
    if v == 0 {
        Standby::ms0_5
    } else if v == 1 {
        Standby::ms62_5
    } else if v == 2 {
        Standby::ms125
    } else if v == 3 {
        Standby::ms250
    } else if v == 4 {
        Standby::ms500
    } else if v == 5 {
        Standby::ms1000
    } else if v == 6 {
        Standby::ms2000
    } else if v == 7 {
        Standby::ms4000
    } else {
        Standby::unknown
    }
}

/// The time constant of the sensor's IIR filter.
#[derive(Clone, Copy, Debug, PartialEq, Eq, Structural)]
#[allow(non_camel_case_types)]
pub enum Filter {
    off,
    c2,
    c4,
    c8,
    c16,
    unknown,
}

impl Filter {
    /// The three-bit field value of this setting (`unknown` encodes as the
    /// reset value zero).
    pub fn to_bits(self) -> (r: u8)
        ensures
            r == filter_bits(self),
    {
        match self {
            Filter::off => 0,
            Filter::c2 => 1,
            Filter::c4 => 2,
            Filter::c8 => 3,
            Filter::c16 => 4,
            Filter::unknown => 0,
        }
    }

    /// The setting named by a three-bit field value.
    pub fn from_bits(v: u8) -> (r: Filter)
        ensures
            r == filter_of(v),
    {
        if v == 0 {
            Filter::off
        } else if v == 1 {
            Filter::c2
        } else if v == 2 {
            Filter::c4
        } else if v == 3 {
            Filter::c8
        } else if v == 4 {
            Filter::c16
        } else {
            Filter::unknown
        }
    }
}

/// The field encoding of a filter setting.
pub open spec fn filter_bits(f: Filter) -> u8 {
    match f {
        Filter::off => 0,
        Filter::c2 => 1,
        Filter::c4 => 2,
        Filter::c8 => 3,
        Filter::c16 => 4,
        Filter::unknown => 0,
    }
}

/// The filter setting a field value names.
pub open spec fn filter_of(v: u8) -> Filter {
    if v == 0 {
        Filter::off
    } else if v == 1 {
        Filter::c2
    } else if v == 2 {
        Filter::c4
    } else if v == 3 {
        Filter::c8
    } else if v == 4 {
        Filter::c16
    } else {
        Filter::unknown
    }
}

/// Oversampling of a measurement channel.
#[derive(Clone, Copy, Debug, PartialEq, Eq, Structural)]
#[allow(non_camel_case_types)]
pub enum Oversampling {
    skipped,
    x1,
    x2,
    x4,
    x8,
    x16,
}

impl Oversampling {
    /// The three-bit field value of this setting.
    pub fn to_bits(self) -> (r: u8)
        ensures
            r == oversampling_bits(self),
    {
        match self {
            Oversampling::skipped => 0,
            Oversampling::x1 => 1,
            Oversampling::x2 => 2,
            Oversampling::x4 => 3,
            Oversampling::x8 => 4,
            Oversampling::x16 => 5,
        }
    }

    /// The setting named by a three-bit field value (values past five all
    /// mean sixteenfold oversampling on this device).
    pub fn from_bits(v: u8) -> (r: Oversampling)
        ensures
            r == oversampling_of(v),
    {
        if v == 0 {
            Oversampling::skipped
        } else if v == 1 {
            Oversampling::x1
        } else if v == 2 {
            Oversampling::x2
        } else if v == 3 {
            Oversampling::x4
        } else if v == 4 {
            Oversampling::x8
        } else {
            Oversampling::x16
        }
    }
}

/// The field encoding of an oversampling setting.
pub open spec fn oversampling_bits(o: Oversampling) -> u8 {
    match o {
        Oversampling::skipped => 0,
        Oversampling::x1 => 1,
        Oversampling::x2 => 2,
        Oversampling::x4 => 3,
        Oversampling::x8 => 4,
        Oversampling::x16 => 5,
    }
}

/// The oversampling setting a field value names.
pub open spec fn oversampling_of(v: u8) -> Oversampling {
    if v == 0 {
        Oversampling::skipped
    } else if v == 1 {
        Oversampling::x1
    } else if v == 2 {
        Oversampling::x2
    } else if v == 3 {
        Oversampling::x4
    } else if v == 4 {
        Oversampling::x8
    } else {
        Oversampling::x16
    }
}

/// The sensor's power mode.
#[derive(Clone, Copy, Debug, PartialEq, Eq, Structural)]
pub enum PowerMode {
    Sleep,
    Forced,
    Normal,
}

impl PowerMode {
    /// The two-bit field value of this mode (`Normal` is `0b11`).
    pub fn to_bits(self) -> (r: u8)
        ensures
            r == power_mode_bits(self),
    {
        match self {
            PowerMode::Sleep => 0,
            PowerMode::Forced => 1,
            PowerMode::Normal => 3,
        }
    }

    /// The mode named by a two-bit field value (the device treats the
    /// remaining value as forced mode).
    pub fn from_bits(v: u8) -> (r: PowerMode)
        ensures
            r == power_mode_of(v),
    {
        if v == 0 {
            PowerMode::Sleep
        } else if v == 1 {
            PowerMode::Forced
        } else if v == 3 {
            PowerMode::Normal
        } else {
            PowerMode::Forced
        }
    }
}

/// The field encoding of a power mode.
pub open spec fn power_mode_bits(m: PowerMode) -> u8 {
    match m {
        PowerMode::Sleep => 0,
        PowerMode::Forced => 1,
        PowerMode::Normal => 3,
    }
}

/// The power mode a field value names.
pub open spec fn power_mode_of(v: u8) -> PowerMode {
    if v == 0 {
        PowerMode::Sleep
    } else if v == 1 {
        PowerMode::Forced
    } else if v == 3 {
        PowerMode::Normal
    } else {
        PowerMode::Forced
    }
}

/// The measurement control register: oversampling for temperature and
/// pressure, and the power mode.
#[derive(Clone, Copy, Debug, PartialEq, Eq, Structural)]
pub struct Control {
    pub osrs_t: Oversampling,
    pub osrs_p: Oversampling,
    pub mode: PowerMode,
}

impl Control {
    /// Decode a control byte: temperature oversampling in the top three
    /// bits, pressure oversampling in the next three, mode at the bottom.
    pub fn from_byte(b: u8) -> (r: Control)
        ensures
            r.osrs_t == oversampling_of((b >> 5) & 0x07),
            r.osrs_p == oversampling_of((b >> 2) & 0x07),
            r.mode == power_mode_of(b & 0x03),
    {
        Control {
            osrs_t: Oversampling::from_bits((b >> 5) & 0x07),
            osrs_p: Oversampling::from_bits((b >> 2) & 0x07),
            mode: PowerMode::from_bits(b & 0x03),
        }
    }

    /// Encode this control setting as a register byte.
    pub fn to_byte(&self) -> (r: u8)
        ensures
            r == ((oversampling_bits(self.osrs_t) << 5) | (oversampling_bits(self.osrs_p) << 2) | (
            power_mode_bits(self.mode))),
    {
        (self.osrs_t.to_bits() << 5) | (self.osrs_p.to_bits() << 2) | self.mode.to_bits()
    }
}

/// The configuration register: standby duration and IIR filter constant.
/// The SPI three-wire enable bit is deliberately left out.
#[derive(Clone, Copy, Debug, PartialEq, Eq, Structural)]
pub struct Config {
    /// Inactive duration in normal mode.
    pub t_sb: Standby,
    /// Time constant of the IIR filter.
    pub filter: Filter,
}

impl Config {
    /// Decode a configuration byte: standby in the top three bits, filter
    /// in the next three.
    pub fn from_byte(b: u8) -> (r: Config)
        ensures
            r.t_sb == standby_of((b >> 5) & 0x07),
            r.filter == filter_of((b >> 2) & 0x07),
    {
        Config { t_sb: Standby::from_bits((b >> 5) & 0x07), filter: Filter::from_bits((b >> 2) & 0x07) }
    }

    /// Encode this configuration as a register byte.
    pub fn to_byte(&self) -> (r: u8)
        ensures
            r == ((standby_bits(self.t_sb) << 5) | (filter_bits(self.filter) << 2)),
    {
        (self.t_sb.to_bits() << 5) | (self.filter.to_bits() << 2)
    }
}

/// The status register: conversion and copy-in-progress flags.  Both
/// decoders test the masked field for the value one; since the measuring
/// mask is bit three, that flag can never read true — a quirk kept as
/// shipped, flagged here rather than silently corrected.
#[derive(Clone, Copy, Debug, PartialEq, Eq, Structural)]
pub struct Status {
    /// A conversion is running.
    pub measuring: bool,
    /// NVM data is being copied.
    pub im_update: bool,
}

impl Status {
    /// Decode a status byte.
    pub fn from_byte(b: u8) -> (r: Status)
        ensures
            r.measuring == (1 == (b & 0x08)),
            r.im_update == (1 == (b & 0x01)),
    {
        Status { measuring: 1 == (b & 0x08), im_update: 1 == (b & 0x01) }
    }
}

} // verus!
