//! Register images of the BMP288 barometric sensor: the status byte as
//! plain data.  As with its sibling sensor, the bus traffic lives outside
//! this crate; only the byte's meaning is decoded here.

use vstd::prelude::*;

verus! {

/// The sensor's bus address.
pub const BMP288_ADDRESS: u8 = 0x76;

/// The status register: conversion and copy-in-progress flags.  Both
/// decoders test the masked field for the value one; since the measuring
/// mask is bit three, that flag can never read true — a quirk kept as
/// shipped, flagged here rather than silently corrected.
#[derive(Clone, Copy, Debug, PartialEq, Eq, Structural)]
pub struct Status {
    /// A conversion is running.
    pub measuring: bool,
    /// NVM data is being copied.
    pub im_update: bool,
}

impl Status {
    /// Decode a status byte.
    pub fn from_byte(b: u8) -> (r: Status)
        ensures
            r.measuring == (1 == (b & 0x08)),
            r.im_update == (1 == (b & 0x01)),
    {
        Status { measuring: 1 == (b & 0x08), im_update: 1 == (b & 0x01) }
    }
}

} // verus!
