//! Input-and-window-state dispatch core of a windowing backend for a
//! compositor-based display protocol.
//!
//! Everything here is plain state: protocol objects are named by integer
//! handles, coordinates use the protocol's 24.8 fixed-point representation,
//! and every interaction with the display server is handed back to the caller
//! as a value (an event for the application, or an action to perform).
use vstd::prelude::*;

pub mod channel;
pub mod cursor;
pub mod event;
pub mod event_loop;
pub mod keyboard;
pub mod monitor;
pub mod pointer;
pub mod touch;
pub mod window;

verus! {

/// Identifier of the (single) input device kind this backend reports.
#[derive(Debug, Copy, Clone, PartialEq, Eq, PartialOrd, Ord, Hash)]
pub struct DeviceId;

impl DeviceId {
    /// A device id that stands for any device of this backend.
    pub fn dummy() -> (r: DeviceId)
        ensures
            r == DeviceId,
    {
        DeviceId
    }
}

} // verus!
