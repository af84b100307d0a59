//! A verified model of a memory-to-peripheral DMA stream engine.
//!
//! The crate models one hardware DMA controller family with two controllers
//! of eight streams each.  A [`stream::Stream`] gives typed, bit-exact access
//! to one stream's control, count, address and status registers.  A stream is
//! either idle, and safely reconfigurable, or checked out into exactly one
//! live transfer: a one-shot [`transfer::SingleBufferTransfer`], or a
//! continuous, double-buffered [`transfer::DoubleBufferedTransfer`] that
//! alternates between two equally sized buffers and hands vacated buffers
//! back to the caller through a polled replacement protocol.
//!
//! The hardware engine itself runs autonomously once a transfer is started.
//! Its side of the protocol — raising completion and error flags, toggling
//! the current-target bit at buffer boundaries — is modelled by the
//! `device_*` methods, so that every software-visible interleaving of
//! hardware actions and driver calls can be exercised and reasoned about.
//!
//! Every register write the driver performs is recorded in a ghost log, and
//! the contracts pin down the exact write sequences: configuration rejects
//! bad element widths and unequal buffer lengths before any write, the
//! stream-enable bit is written last, and polling writes only the address
//! register of the buffer that the engine has vacated.

pub mod channel;
pub mod event;
pub mod regs;
pub mod stream;
pub mod transfer;
