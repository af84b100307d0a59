//! Channel association.
//!
//! A channel is a multiplexer input, an opaque number between 0 and 7, that
//! routes one peripheral's request line into a stream.  A channel value is
//! meaningful only for the peripheral pairing it was validated for; the
//! transfer configuration writes it verbatim into the channel-select field.

use vstd::prelude::*;

verus! {

/// One of the eight request-multiplexer inputs of a stream.
pub trait DmaChannel {
    /// The channel number this type stands for.
    spec fn spec_channel() -> u8;

    /// The channel number written into the channel-select field.
    fn channel() -> (r: u8)
        ensures
            r == Self::spec_channel(),
            r < 8,
    ;
}

/// DMA channel 0.
pub struct C0;

impl DmaChannel for C0 {
    open spec fn spec_channel() -> u8 {
        0
    }

    fn channel() -> u8 {
        0
    }
}

/// DMA channel 1.
pub struct C1;

impl DmaChannel for C1 {
    open spec fn spec_channel() -> u8 {
        1
    }

    fn channel() -> u8 {
        1
    }
}

/// DMA channel 2.
pub struct C2;

impl DmaChannel for C2 {
    open spec fn spec_channel() -> u8 {
        2
    }

    fn channel() -> u8 {
        2
    }
}

/// DMA channel 3.
pub struct C3;

impl DmaChannel for C3 {
    open spec fn spec_channel() -> u8 {
        3
    }

    fn channel() -> u8 {
        3
    }
}

/// DMA channel 4.
pub struct C4;

impl DmaChannel for C4 {
    open spec fn spec_channel() -> u8 {
        4
    }

    fn channel() -> u8 {
        4
    }
}

/// DMA channel 5.
pub struct C5;

impl DmaChannel for C5 {
    open spec fn spec_channel() -> u8 {
        5
    }

    fn channel() -> u8 {
        5
    }
}

/// DMA channel 6.
pub struct C6;

impl DmaChannel for C6 {
    open spec fn spec_channel() -> u8 {
        6
    }

    fn channel() -> u8 {
        6
    }
}

/// DMA channel 7.
pub struct C7;

impl DmaChannel for C7 {
    open spec fn spec_channel() -> u8 {
        7
    }

    fn channel() -> u8 {
        7
    }
}

} // verus!
