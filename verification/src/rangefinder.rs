//! The rangefinder front end's device identity: its bus address, error
//! type, and the identity check applied to the who-am-i register before the
//! device is trusted.  Reading the register is bus work outside this crate.

use vstd::prelude::*;

verus! {

/// The rangefinder's bus address.
pub const RANGEFINDER_ADDRESS: u8 = 0x29;

/// The value the who-am-i register must hold.
pub const RANGEFINDER_ID: u8 = 0xEE;

/// Why the rangefinder could not be brought up.
#[derive(Clone, Copy, Debug)]
pub enum Error<E> {
    /// The who-am-i register returned an unexpected value (the value read
    /// is the argument).
    InvalidDevice(u8),
    /// Underlying bus error.
    BusError(E),
}

/// Accept a device exactly when its who-am-i register holds the expected
/// identity; otherwise report the value that was read.
pub fn check_device_id<E>(wai: u8) -> (r: Result<(), Error<E>>)
    ensures
        r is Ok <==> wai == RANGEFINDER_ID,
        wai != RANGEFINDER_ID ==> r == Err::<(), Error<E>>(Error::<E>::InvalidDevice(wai)),
{
    if wai == RANGEFINDER_ID {
        Ok(())
    } else {
        Err(Error::InvalidDevice(wai))
    }
}

} // verus!
