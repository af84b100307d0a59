//! Shared vocabulary of completion and error signalling.
//!
//! Interrupt-enable bits only gate external signalling; the status flags
//! themselves are always raised by the hardware engine.  Errors come in two
//! kinds, but both are surfaced uniformly through `has_error`, with no
//! further discrimination exposed to callers.

use vstd::prelude::*;

use crate::regs::{arbitration_flag_pos, bus_error_flag_pos, HTIE_POS, TCIE_POS};

verus! {

/// An interrupt-enable toggle of one stream.
#[derive(Clone, Copy)]
pub enum Event {
    /// Signal when half of the element count has been transferred.
    HalfTransfer,
    /// Signal when the element count has been fully transferred.
    TransferComplete,
}

impl Event {
    /// The control-register bit that enables signalling of this event.
    pub open spec fn enable_pos(self) -> u32 {
        match self {
            Event::HalfTransfer => HTIE_POS,
            Event::TransferComplete => TCIE_POS,
        }
    }
}

/// An error kind the hardware engine can raise on a stream.
#[derive(Clone, Copy, Debug, PartialEq, Eq, Structural)]
pub enum Error {
    /// A protocol fault on the bus.
    Bus,
    /// Loss of arbitration, or an overrun.
    Arbitration,
}

impl Error {
    /// The status-register flag this error kind raises on stream `index`.
    pub open spec fn flag_pos(self, index: u8) -> u32 {
        match self {
            Error::Bus => bus_error_flag_pos(index),
            Error::Arbitration => arbitration_flag_pos(index),
        }
    }
}

} // verus!
