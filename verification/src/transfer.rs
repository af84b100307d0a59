//! Single-buffer and double-buffered memory-to-peripheral transfers.
//!
//! A transfer owns its stream exclusively: it is created by consuming an
//! idle, disabled [`Stream`], and only resetting the transfer yields the
//! stream back.  Configuration is fail-fast — an unsupported element width,
//! or unequal buffer lengths for the double-buffered kind, is rejected
//! before any register is written — and the stream-enable flag is written
//! last, only once every other field is committed, since the engine may
//! begin consuming the instant enable is set.
//!
//! The double-buffered engine runs in circular, double-buffer mode: the
//! hardware drains one buffer while software refills the other.  [`poll`]
//! drives the cooperative hand-off: when the hardware's current-target flag
//! is seen to have toggled, the buffer no longer targeted has been fully
//! vacated, and only that buffer is replaced and only its address register
//! rewritten — the register of the buffer being drained is never touched.
//!
//! [`poll`]: DoubleBufferedTransfer::poll

use vstd::prelude::*;

use crate::channel::DmaChannel;
use crate::event::Error;
use crate::regs::{
    config_value, cr_channel, cr_circular, cr_current_target, cr_direction, cr_double_buffer,
    cr_enabled, cr_memory_increment, cr_memory_size, cr_peripheral_increment, cr_peripheral_size,
    data_size, lemma_enable_bit, lemma_transfer_config, size_encoding, status_complete,
    status_error, transfer_config, RegId, RegWrite, EN_POS,
};
use crate::stream::{
    addresses_unchanged, reset_relation, same_identity, stream_model_wf, DmaStream, Stream,
    StreamModel,
};

verus! {

/// A memory buffer handed to the engine: the address of its first element,
/// its length in elements, and the width of one element in bytes.
///
/// The buffer's memory must remain valid and unmodified for the full
/// lifetime of any transfer it is handed to, across every poll.
#[derive(Clone, Copy, Debug, PartialEq, Eq, Structural)]
pub struct Buffer {
    /// Address of the first element.
    pub addr: u32,
    /// Number of elements; the element-count register holds 16 bits.
    pub len: u16,
    /// Width of one element in bytes.
    pub elem_bytes: usize,
}

/// The peripheral endpoint of a transfer: the address of its data register
/// and the width of one element in bytes.  The channel routing to this
/// peripheral must have been validated beforehand.
#[derive(Clone, Copy, Debug, PartialEq, Eq, Structural)]
pub struct Target {
    /// Address of the peripheral's data register.
    pub addr: u32,
    /// Width of one element in bytes.
    pub elem_bytes: usize,
}

/// Why a configuration was rejected.  A rejected configuration has written
/// no register; the stream is handed back unchanged.
#[derive(Clone, Copy, Debug, PartialEq, Eq, Structural)]
pub enum ConfigError {
    /// An element width other than 1, 2 or 4 bytes was requested.
    UnsupportedElementSize,
    /// The two buffers of a double-buffered transfer differ in length.
    UnequalBufferLengths,
}

/// The write sequence of a single-buffer start: one control-register write
/// committing the configuration, the source address, the element count, the
/// target address, and last the same configuration with stream-enable set.
pub open spec fn single_start_writes(cr: u32, source: Buffer, target: Target, channel: u8) -> Seq<
    RegWrite,
> {
    let cfg = transfer_config(
        cr,
        size_encoding(source.elem_bytes).unwrap(),
        size_encoding(target.elem_bytes).unwrap(),
        channel,
        false,
        false,
    );
    seq![
        (RegWrite { reg: RegId::Control, value: cfg }),
        (RegWrite { reg: RegId::Memory0Addr, value: source.addr }),
        (RegWrite { reg: RegId::Count, value: source.len as u32 }),
        (RegWrite { reg: RegId::PeripheralAddr, value: target.addr }),
        (RegWrite { reg: RegId::Control, value: cfg | (1u32 << EN_POS) }),
    ]
}

/// The write sequence of a double-buffered start: one control-register
/// write committing the configuration, both buffer addresses, the shared
/// element count, the target address, and last the same configuration with
/// stream-enable set.
pub open spec fn double_start_writes(
    cr: u32,
    source0: Buffer,
    source1: Buffer,
    target: Target,
    channel: u8,
) -> Seq<RegWrite> {
    let cfg = transfer_config(
        cr,
        size_encoding(source0.elem_bytes).unwrap(),
        size_encoding(target.elem_bytes).unwrap(),
        channel,
        true,
        true,
    );
    seq![
        (RegWrite { reg: RegId::Control, value: cfg }),
        (RegWrite { reg: RegId::Memory0Addr, value: source0.addr }),
        (RegWrite { reg: RegId::Memory1Addr, value: source1.addr }),
        (RegWrite { reg: RegId::Count, value: source0.len as u32 }),
        (RegWrite { reg: RegId::PeripheralAddr, value: target.addr }),
        (RegWrite { reg: RegId::Control, value: cfg | (1u32 << EN_POS) }),
    ]
}

/// Law: a single-buffer start writes the element count exactly once, equal
/// to the source's length, and sets stream-enable only in its very last
/// write, after the source-address, element-count and peripheral-address
/// registers have all been written.
pub proof fn lemma_single_start_write_discipline(
    cr: u32,
    source: Buffer,
    target: Target,
    channel: u8,
)
    requires
        !cr_enabled(cr),
        size_encoding(source.elem_bytes) is Some,
        size_encoding(target.elem_bytes) is Some,
    ensures
        ({
            let ws = single_start_writes(cr, source, target, channel);
            &&& ws.len() == 5
            &&& forall|i: int|
                0 <= i < ws.len() && (#[trigger] ws[i]).reg is Count ==> ws[i].value
                    == source.len as u32
            &&& forall|i: int, j: int|
                0 <= i < ws.len() && 0 <= j < ws.len() && (#[trigger] ws[i]).reg is Count && (
                #[trigger] ws[j]).reg is Count ==> i == j
            &&& forall|i: int|
                0 <= i < ws.len() && (#[trigger] ws[i]).reg is Control && cr_enabled(ws[i].value)
                    ==> i == ws.len() - 1
            &&& ws[ws.len() - 1].reg is Control
            &&& cr_enabled(ws[ws.len() - 1].value)
            &&& exists|j: int|
                0 <= j < ws.len() - 1 && (#[trigger] ws[j]).reg is Memory0Addr && ws[j].value
                    == source.addr
            &&& exists|j: int|
                0 <= j < ws.len() - 1 && (#[trigger] ws[j]).reg is Count && ws[j].value
                    == source.len as u32
            &&& exists|j: int|
                0 <= j < ws.len() - 1 && (#[trigger] ws[j]).reg is PeripheralAddr && ws[j].value
                    == target.addr
        }),
{
    let ws = single_start_writes(cr, source, target, channel);
    let msize = size_encoding(source.elem_bytes).unwrap();
    let psize = size_encoding(target.elem_bytes).unwrap();
    let cfg = transfer_config(cr, msize, psize, channel, false, false);
    lemma_transfer_config(cr, msize, psize, channel, false, false);
    lemma_enable_bit(cfg);
    assert(ws[0].reg is Control && !cr_enabled(ws[0].value));
    assert(ws[1].reg is Memory0Addr && ws[1].value == source.addr);
    assert(ws[2].reg is Count && ws[2].value == source.len as u32);
    assert(ws[3].reg is PeripheralAddr && ws[3].value == target.addr);
    assert(ws[4].reg is Control && cr_enabled(ws[4].value));
}

/// Law: a double-buffered start writes the shared element count exactly
/// once, equal to the buffers' common length, and sets stream-enable only
/// in its very last write, after both buffer-address registers, the
/// element-count and the peripheral-address registers have all been
/// written.
pub proof fn lemma_double_start_write_discipline(
    cr: u32,
    source0: Buffer,
    source1: Buffer,
    target: Target,
    channel: u8,
)
    requires
        !cr_enabled(cr),
        size_encoding(source0.elem_bytes) is Some,
        size_encoding(target.elem_bytes) is Some,
    ensures
        ({
            let ws = double_start_writes(cr, source0, source1, target, channel);
            &&& ws.len() == 6
            &&& forall|i: int|
                0 <= i < ws.len() && (#[trigger] ws[i]).reg is Count ==> ws[i].value
                    == source0.len as u32
            &&& forall|i: int, j: int|
                0 <= i < ws.len() && 0 <= j < ws.len() && (#[trigger] ws[i]).reg is Count && (
                #[trigger] ws[j]).reg is Count ==> i == j
            &&& forall|i: int|
                0 <= i < ws.len() && (#[trigger] ws[i]).reg is Control && cr_enabled(ws[i].value)
                    ==> i == ws.len() - 1
            &&& ws[ws.len() - 1].reg is Control
            &&& cr_enabled(ws[ws.len() - 1].value)
            &&& exists|j: int|
                0 <= j < ws.len() - 1 && (#[trigger] ws[j]).reg is Memory0Addr && ws[j].value
                    == source0.addr
            &&& exists|j: int|
                0 <= j < ws.len() - 1 && (#[trigger] ws[j]).reg is Memory1Addr && ws[j].value
                    == source1.addr
            &&& exists|j: int|
                0 <= j < ws.len() - 1 && (#[trigger] ws[j]).reg is Count && ws[j].value
                    == source0.len as u32
            &&& exists|j: int|
                0 <= j < ws.len() - 1 && (#[trigger] ws[j]).reg is PeripheralAddr && ws[j].value
                    == target.addr
        }),
{
    let ws = double_start_writes(cr, source0, source1, target, channel);
    let msize = size_encoding(source0.elem_bytes).unwrap();
    let psize = size_encoding(target.elem_bytes).unwrap();
    let cfg = transfer_config(cr, msize, psize, channel, true, true);
    lemma_transfer_config(cr, msize, psize, channel, true, true);
    lemma_enable_bit(cfg);
    assert(ws[0].reg is Control && !cr_enabled(ws[0].value));
    assert(ws[1].reg is Memory0Addr && ws[1].value == source0.addr);
    assert(ws[2].reg is Memory1Addr && ws[2].value == source1.addr);
    assert(ws[3].reg is Count && ws[3].value == source0.len as u32);
    assert(ws[4].reg is PeripheralAddr && ws[4].value == target.addr);
    assert(ws[5].reg is Control && cr_enabled(ws[5].value));
}

/// A live transfer that owns a stream exclusively.  Completion and error
/// are non-blocking reads; `reset` always succeeds and yields the stream
/// back, disabled and with its flags cleared.
pub trait Transfer<STREAM>: Sized {
    /// The transfer's validity invariant.
    spec fn t_wf(&self) -> bool;

    /// The owned stream's transfer-complete flag.
    spec fn t_complete(&self) -> bool;

    /// The owned stream's folded error answer.
    spec fn t_error(&self) -> bool;

    /// How the stream yielded by `reset` relates to the transfer.
    spec fn after_reset(&self, s: &STREAM) -> bool;

    /// Whether the transfer has completed.  Delegates to the owned stream;
    /// non-blocking.
    fn is_complete(&self) -> (r: bool)
        requires
            self.t_wf(),
        ensures
            r == self.t_complete(),
    ;

    /// Whether the transfer has errored.  Delegates to the owned stream;
    /// non-blocking.
    fn has_error(&self) -> (r: bool)
        requires
            self.t_wf(),
        ensures
            r == self.t_error(),
    ;

    /// Tears the transfer down: disables the stream, clears its flags, and
    /// yields it back for reuse.  Always valid.
    fn reset(self) -> (s: STREAM)
        requires
            self.t_wf(),
        ensures
            self.after_reset(&s),
    ;

    /// Reclaims the stream once the transfer has settled, tagged `Ok` on
    /// completion and `Err` on error.  In this register model no flag can
    /// change between two reads — the hardware's actions are explicit
    /// `device_*` steps — so a settled flag is required rather than awaited
    /// in an unbounded poll loop.
    fn wait(self) -> (r: Result<STREAM, STREAM>)
        requires
            self.t_wf(),
            self.t_complete() || self.t_error(),
        ensures
            match r {
                Ok(s) => self.t_complete() && self.after_reset(&s),
                Err(s) => !self.t_complete() && self.t_error() && self.after_reset(&s),
            },
    {
        if self.is_complete() {
            Ok(self.reset())
        } else {
            Err(self.reset())
        }
    }
}

/// Mathematical model of a single-buffer transfer.
pub ghost struct SingleModel {
    /// The owned stream.
    pub stream: StreamModel,
    /// The borrowed source buffer.
    pub source: Buffer,
    /// The peripheral endpoint.
    pub target: Target,
}

/// A one-shot memory-to-peripheral transfer from a single buffer.
pub struct SingleBufferTransfer {
    stream: Stream,
    source: Buffer,
    target: Target,
}

impl View for SingleBufferTransfer {
    type V = SingleModel;

    closed spec fn view(&self) -> SingleModel {
        SingleModel { stream: self.stream@, source: self.source, target: self.target }
    }
}

impl SingleBufferTransfer {
    /// The transfer's validity invariant: a well-formed stream whose
    /// buffer-0 address, element count and peripheral address are the ones
    /// the transfer was configured with.
    pub open spec fn wf(&self) -> bool {
        &&& stream_model_wf(self@.stream)
        &&& self@.stream.m0ar == self@.source.addr
        &&& self@.stream.ndtr == self@.source.len as u32
        &&& self@.stream.par == self@.target.addr
    }

    /// The current control-register value of the owned stream.
    pub fn control(&self) -> (r: u32)
        ensures
            r == self@.stream.cr,
    {
        self.stream.control()
    }

    /// The current element-count register value of the owned stream.
    pub fn count(&self) -> (r: u32)
        ensures
            r == self@.stream.ndtr,
    {
        self.stream.count()
    }

    /// The current peripheral-address register value of the owned stream.
    pub fn peripheral_address(&self) -> (r: u32)
        ensures
            r == self@.stream.par,
    {
        self.stream.peripheral_address()
    }

    /// The current buffer-0 address register value of the owned stream.
    pub fn memory0_address(&self) -> (r: u32)
        ensures
            r == self@.stream.m0ar,
    {
        self.stream.memory0_address()
    }

    /// Models the hardware engine finishing the transfer.
    pub fn device_set_complete(&mut self)
        requires
            old(self).wf(),
        ensures
            final(self).wf(),
            final(self)@.source == old(self)@.source,
            final(self)@.target == old(self)@.target,
            same_identity(old(self)@.stream, final(self)@.stream),
            addresses_unchanged(old(self)@.stream, final(self)@.stream),
            final(self)@.stream.cr == old(self)@.stream.cr,
            final(self)@.stream.writes == old(self)@.stream.writes,
            final(self).t_complete(),
            final(self).t_error() == old(self).t_error(),
    {
        self.stream.device_set_complete();
    }

    /// Models the hardware engine raising an error on the transfer.
    pub fn device_set_error(&mut self, kind: Error)
        requires
            old(self).wf(),
        ensures
            final(self).wf(),
            final(self)@.source == old(self)@.source,
            final(self)@.target == old(self)@.target,
            same_identity(old(self)@.stream, final(self)@.stream),
            addresses_unchanged(old(self)@.stream, final(self)@.stream),
            final(self)@.stream.cr == old(self)@.stream.cr,
            final(self)@.stream.writes == old(self)@.stream.writes,
            final(self).t_error(),
            final(self).t_complete() == old(self).t_complete(),
    {
        self.stream.device_set_error(kind);
    }
}

impl Transfer<Stream> for SingleBufferTransfer {
    open spec fn t_wf(&self) -> bool {
        self.wf()
    }

    open spec fn t_complete(&self) -> bool {
        status_complete(self@.stream.isr, self@.stream.index)
    }

    open spec fn t_error(&self) -> bool {
        status_error(self@.stream.isr, self@.stream.index)
    }

    open spec fn after_reset(&self, s: &Stream) -> bool {
        reset_relation(self@.stream, s)
    }

    fn is_complete(&self) -> bool {
        self.stream.is_complete()
    }

    fn has_error(&self) -> bool {
        self.stream.has_error()
    }

    fn reset(self) -> Stream {
        let mut stream = self.stream;
        stream.reset();
        stream
    }
}

/// Mathematical model of a double-buffered transfer.
pub ghost struct DoubleModel {
    /// The owned stream.
    pub stream: StreamModel,
    /// The buffer the engine drains while the current-target flag reads 0.
    pub source0: Buffer,
    /// The buffer the engine drains while the current-target flag reads 1.
    pub source1: Buffer,
    /// The last current-target value the driver observed, 0 or 1.
    pub last_ct: u8,
}

/// A continuous, double-buffered memory-to-peripheral transfer.
///
/// The engine reloads the element count at every buffer boundary and never
/// stops on its own; the transfer ends only through `reset` or on an
/// observed error.  The caller must poll at least once per buffer-drain
/// interval, or the engine may wrap onto a buffer whose replacement has not
/// been installed yet and retransmit stale data; nothing in the engine can
/// enforce that bound.
pub struct DoubleBufferedTransfer {
    /// So that `poll` can detect a buffer switch.
    last_ct: u8,
    source0: Buffer,
    source1: Buffer,
    stream: Stream,
}

impl View for DoubleBufferedTransfer {
    type V = DoubleModel;

    closed spec fn view(&self) -> DoubleModel {
        DoubleModel {
            stream: self.stream@,
            source0: self.source0,
            source1: self.source1,
            last_ct: self.last_ct,
        }
    }
}

impl DoubleBufferedTransfer {
    /// The transfer's validity invariant: a well-formed stream whose two
    /// buffer address registers hold the two buffers' addresses, buffers of
    /// one equal, non-zero length and one element width, and an observed
    /// current-target of 0 or 1.
    pub open spec fn wf(&self) -> bool {
        &&& stream_model_wf(self@.stream)
        &&& self@.source0.len == self@.source1.len
        &&& self@.source0.len > 0
        &&& self@.source0.elem_bytes == self@.source1.elem_bytes
        &&& self@.last_ct < 2
        &&& self@.stream.m0ar == self@.source0.addr
        &&& self@.stream.m1ar == self@.source1.addr
    }

    /// The hardware's current target, read from the control register.
    pub open spec fn hardware_target(&self) -> u8 {
        cr_current_target(self@.stream.cr)
    }

    /// The last current-target value the driver observed.
    pub fn observed_target(&self) -> (r: u8)
        ensures
            r == self@.last_ct,
    {
        self.last_ct
    }

    /// The current control-register value of the owned stream.
    pub fn control(&self) -> (r: u32)
        ensures
            r == self@.stream.cr,
    {
        self.stream.control()
    }

    /// The current element-count register value of the owned stream.
    pub fn count(&self) -> (r: u32)
        ensures
            r == self@.stream.ndtr,
    {
        self.stream.count()
    }

    /// The current buffer-0 address register value of the owned stream.
    pub fn memory0_address(&self) -> (r: u32)
        ensures
            r == self@.stream.m0ar,
    {
        self.stream.memory0_address()
    }

    /// The current buffer-1 address register value of the owned stream.
    pub fn memory1_address(&self) -> (r: u32)
        ensures
            r == self@.stream.m1ar,
    {
        self.stream.memory1_address()
    }

    /// Models the hardware engine reaching a buffer boundary: the
    /// current-target flag toggles and the engine starts draining the other
    /// buffer.
    pub fn device_toggle_target(&mut self)
        requires
            old(self).wf(),
        ensures
            final(self).wf(),
            final(self)@.source0 == old(self)@.source0,
            final(self)@.source1 == old(self)@.source1,
            final(self)@.last_ct == old(self)@.last_ct,
            same_identity(old(self)@.stream, final(self)@.stream),
            addresses_unchanged(old(self)@.stream, final(self)@.stream),
            final(self)@.stream.isr == old(self)@.stream.isr,
            final(self)@.stream.writes == old(self)@.stream.writes,
            final(self).hardware_target() == (if old(self).hardware_target() == 0 {
                1u8
            } else {
                0u8
            }),
            cr_enabled(final(self)@.stream.cr) == cr_enabled(old(self)@.stream.cr),
    {
        self.stream.device_toggle_target();
    }

    /// Models the hardware engine raising an error on the transfer.
    pub fn device_set_error(&mut self, kind: Error)
        requires
            old(self).wf(),
        ensures
            final(self).wf(),
            final(self)@.source0 == old(self)@.source0,
            final(self)@.source1 == old(self)@.source1,
            final(self)@.last_ct == old(self)@.last_ct,
            same_identity(old(self)@.stream, final(self)@.stream),
            addresses_unchanged(old(self)@.stream, final(self)@.stream),
            final(self)@.stream.cr == old(self)@.stream.cr,
            final(self)@.stream.writes == old(self)@.stream.writes,
            final(self).t_error(),
            final(self).t_complete() == old(self).t_complete(),
    {
        self.stream.device_set_error(kind);
    }

    /// Models the hardware engine raising the transfer-complete flag at a
    /// buffer boundary.
    pub fn device_set_complete(&mut self)
        requires
            old(self).wf(),
        ensures
            final(self).wf(),
            final(self)@.source0 == old(self)@.source0,
            final(self)@.source1 == old(self)@.source1,
            final(self)@.last_ct == old(self)@.last_ct,
            same_identity(old(self)@.stream, final(self)@.stream),
            addresses_unchanged(old(self)@.stream, final(self)@.stream),
            final(self)@.stream.cr == old(self)@.stream.cr,
            final(self)@.stream.writes == old(self)@.stream.writes,
            final(self).t_complete(),
            final(self).t_error() == old(self).t_error(),
    {
        self.stream.device_set_complete();
    }

    /// Drives the cooperative buffer hand-off.
    ///
    /// On an observed error the transfer is torn down at once and the
    /// reset, disabled stream is returned as failure; `replace` is never
    /// invoked.  Otherwise the hardware's current-target flag is read: if
    /// it equals the last observed value the hardware still drains the same
    /// buffer and nothing is written — the call is an idempotent no-op.  If
    /// it differs, the buffer no longer targeted has been fully vacated:
    /// `replace` is invoked on exactly that buffer, the successor it
    /// returns (of the same length — a caller contract) is installed by
    /// rewriting only that buffer's address register, and the observed
    /// target is updated.
    pub fn poll<F: FnOnce(Buffer) -> Buffer>(self, replace: F) -> (r: Result<Self, Stream>)
        requires
            self.wf(),
            call_requires(replace, (self@.source0,)),
            call_requires(replace, (self@.source1,)),
            forall|b: Buffer, nb: Buffer|
                call_ensures(replace, (b,), nb) ==> nb.len == b.len && nb.elem_bytes
                    == b.elem_bytes,
        ensures
            match r {
                Ok(t) => {
                    &&& !self.t_error()
                    &&& t.wf()
                    &&& same_identity(self@.stream, t@.stream)
                    &&& t@.stream.cr == self@.stream.cr
                    &&& t@.stream.ndtr == self@.stream.ndtr
                    &&& t@.stream.par == self@.stream.par
                    &&& t@.stream.isr == self@.stream.isr
                    &&& (self@.last_ct == self.hardware_target() ==> t@ == self@)
                    &&& (self@.last_ct != self.hardware_target() ==> {
                        &&& t@.last_ct == self.hardware_target()
                        &&& (self.hardware_target() == 1 ==> exists|nb: Buffer|
                            {
                                &&& #[trigger] call_ensures(replace, (self@.source0,), nb)
                                &&& t@.source0 == nb
                                &&& t@.source1 == self@.source1
                                &&& t@.stream.m0ar == nb.addr
                                &&& t@.stream.m1ar == self@.stream.m1ar
                                &&& t@.stream.writes == self@.stream.writes.push(
                                    RegWrite { reg: RegId::Memory0Addr, value: nb.addr },
                                )
                            })
                        &&& (self.hardware_target() == 0 ==> exists|nb: Buffer|
                            {
                                &&& #[trigger] call_ensures(replace, (self@.source1,), nb)
                                &&& t@.source1 == nb
                                &&& t@.source0 == self@.source0
                                &&& t@.stream.m1ar == nb.addr
                                &&& t@.stream.m0ar == self@.stream.m0ar
                                &&& t@.stream.writes == self@.stream.writes.push(
                                    RegWrite { reg: RegId::Memory1Addr, value: nb.addr },
                                )
                            })
                    })
                },
                Err(s) => {
                    &&& self.t_error()
                    &&& self.after_reset(&s)
                },
            },
            (r is Err) <==> self.t_error(),
    {
        let mut this = self;
        if this.stream.has_error() {
            let mut stream = this.stream;
            stream.reset();
            return Err(stream);
        }
        let ct = this.stream.current_target();
        if ct != this.last_ct {
            if ct == 0 {
                // The engine drains buffer 0 again: buffer 1 is vacated.
                let nb = replace(this.source1);
                this.stream.write_memory1_addr(nb.addr);
                this.source1 = nb;
            } else {
                // The engine drains buffer 1: buffer 0 is vacated.
                let nb = replace(this.source0);
                this.stream.write_memory0_addr(nb.addr);
                this.source0 = nb;
            }
            this.last_ct = ct;
        }
        Ok(this)
    }
}

impl Transfer<Stream> for DoubleBufferedTransfer {
    open spec fn t_wf(&self) -> bool {
        self.wf()
    }

    open spec fn t_complete(&self) -> bool {
        status_complete(self@.stream.isr, self@.stream.index)
    }

    open spec fn t_error(&self) -> bool {
        status_error(self@.stream.isr, self@.stream.index)
    }

    open spec fn after_reset(&self, s: &Stream) -> bool {
        reset_relation(self@.stream, s)
    }

    fn is_complete(&self) -> bool {
        self.stream.is_complete()
    }

    fn has_error(&self) -> bool {
        self.stream.has_error()
    }

    fn reset(self) -> Stream {
        let mut stream = self.stream;
        stream.reset();
        stream
    }
}

impl Stream {
    /// Configures and starts a one-shot transfer of `source` into `target`.
    ///
    /// Each side's element width is derived from its element size; a width
    /// other than 1, 2 or 4 bytes fails the operation before any register
    /// write, with the stream handed back unchanged.  Otherwise the
    /// configuration, the source address, the element count and the target
    /// address are committed in that order, and stream-enable is written
    /// last.
    pub fn start<CHANNEL: DmaChannel>(self, source: Buffer, target: Target) -> (r: Result<
        SingleBufferTransfer,
        (Stream, ConfigError),
    >)
        requires
            self.wf(),
            !self.enabled(),
            source.len > 0,
        ensures
            (r is Ok) <==> (size_encoding(source.elem_bytes) is Some && size_encoding(
                target.elem_bytes,
            ) is Some),
            match r {
                Ok(t) => {
                    let cfg = transfer_config(
                        self@.cr,
                        size_encoding(source.elem_bytes).unwrap(),
                        size_encoding(target.elem_bytes).unwrap(),
                        CHANNEL::spec_channel(),
                        false,
                        false,
                    );
                    &&& t.wf()
                    &&& t@.source == source
                    &&& t@.target == target
                    &&& same_identity(self@, t@.stream)
                    &&& t@.stream.cr == cfg | (1u32 << EN_POS)
                    &&& t@.stream.ndtr == source.len as u32
                    &&& t@.stream.m0ar == source.addr
                    &&& t@.stream.m1ar == self@.m1ar
                    &&& t@.stream.par == target.addr
                    &&& t@.stream.isr == self@.isr
                    &&& t@.stream.writes == self@.writes + single_start_writes(
                        self@.cr,
                        source,
                        target,
                        CHANNEL::spec_channel(),
                    )
                    &&& cr_enabled(t@.stream.cr)
                    &&& cr_direction(t@.stream.cr) == 1
                    &&& cr_memory_increment(t@.stream.cr)
                    &&& !cr_peripheral_increment(t@.stream.cr)
                    &&& !cr_circular(t@.stream.cr)
                    &&& !cr_double_buffer(t@.stream.cr)
                    &&& cr_current_target(t@.stream.cr) == 0
                    &&& cr_memory_size(t@.stream.cr) == size_encoding(source.elem_bytes).unwrap()
                    &&& cr_peripheral_size(t@.stream.cr) == size_encoding(
                        target.elem_bytes,
                    ).unwrap()
                    &&& cr_channel(t@.stream.cr) == CHANNEL::spec_channel() as u32
                    &&& t.t_complete() == self.complete()
                    &&& t.t_error() == self.errored()
                },
                Err((s, e)) => {
                    &&& s@ == self@
                    &&& e is UnsupportedElementSize
                },
            },
    {
        let msize = match data_size(source.elem_bytes) {
            Some(v) => v,
            None => {
                return Err((self, ConfigError::UnsupportedElementSize));
            },
        };
        let psize = match data_size(target.elem_bytes) {
            Some(v) => v,
            None => {
                return Err((self, ConfigError::UnsupportedElementSize));
            },
        };
        let ch = CHANNEL::channel();
        let mut stream = self;
        let cfg = config_value(stream.control(), msize, psize, ch, false, false);
        stream.write_control(cfg);
        stream.write_memory0_addr(source.addr);
        stream.write_count(source.len as u32);
        stream.write_peripheral_addr(target.addr);
        stream.write_control(cfg | (1u32 << EN_POS));
        proof {
            lemma_transfer_config(self@.cr, msize, psize, ch, false, false);
            lemma_enable_bit(cfg);
            assert(stream@.writes =~= self@.writes + single_start_writes(
                self@.cr,
                source,
                target,
                CHANNEL::spec_channel(),
            ));
        }
        Ok(SingleBufferTransfer { stream, source, target })
    }

}

/// A stream that can be checked out into a continuous, double-buffered
/// transfer of type `X`.
pub trait DmaStreamTransfer<X: Transfer<Self>>: DmaStream + Sized {
    /// What `start_transfer` asks of the stream and the buffers.
    spec fn start_transfer_pre(self, source0: Buffer, source1: Buffer, target: Target) -> bool;

    /// Everything `start_transfer` establishes, with `channel` the selected
    /// channel number.
    spec fn start_transfer_post(
        self,
        source0: Buffer,
        source1: Buffer,
        target: Target,
        channel: u8,
        r: Result<X, (Self, ConfigError)>,
    ) -> bool;

    /// Configures and starts a continuous, double-buffered transfer that
    /// alternates between `source0` and `source1` into `target`, consuming
    /// the stream.
    fn start_transfer<CHANNEL: DmaChannel>(
        self,
        source0: Buffer,
        source1: Buffer,
        target: Target,
    ) -> (r: Result<X, (Self, ConfigError)>)
        requires
            self.start_transfer_pre(source0, source1, target),
        ensures
            self.start_transfer_post(source0, source1, target, CHANNEL::spec_channel(), r),
    ;
}

impl DmaStreamTransfer<DoubleBufferedTransfer> for Stream {
    open spec fn start_transfer_pre(self, source0: Buffer, source1: Buffer, target: Target) -> bool {
        &&& self.wf()
        &&& !self.enabled()
        &&& source0.len > 0
        &&& source0.elem_bytes == source1.elem_bytes
    }

    /// Unequal buffer lengths are rejected first, an unsupported element
    /// width second, both before any register write, with the stream handed
    /// back unchanged.  Otherwise the configuration — circular and
    /// double-buffer mode on, current-target forced to buffer 0 — both
    /// buffer addresses, the shared element count and the target address
    /// are committed, and stream-enable is written last.
    open spec fn start_transfer_post(
        self,
        source0: Buffer,
        source1: Buffer,
        target: Target,
        channel: u8,
        r: Result<DoubleBufferedTransfer, (Stream, ConfigError)>,
    ) -> bool {
        &&& ((r is Ok) <==> (source0.len == source1.len && size_encoding(
            source0.elem_bytes,
        ) is Some && size_encoding(target.elem_bytes) is Some))
        &&& match r {
            Ok(t) => {
                let cfg = transfer_config(
                    self@.cr,
                    size_encoding(source0.elem_bytes).unwrap(),
                    size_encoding(target.elem_bytes).unwrap(),
                    channel,
                    true,
                    true,
                );
                &&& t.wf()
                &&& t@.source0 == source0
                &&& t@.source1 == source1
                &&& t@.last_ct == 0
                &&& same_identity(self@, t@.stream)
                &&& t@.stream.cr == cfg | (1u32 << EN_POS)
                &&& t@.stream.ndtr == source0.len as u32
                &&& t@.stream.m0ar == source0.addr
                &&& t@.stream.m1ar == source1.addr
                &&& t@.stream.par == target.addr
                &&& t@.stream.isr == self@.isr
                &&& t@.stream.writes == self@.writes + double_start_writes(
                    self@.cr,
                    source0,
                    source1,
                    target,
                    channel,
                )
                &&& cr_enabled(t@.stream.cr)
                &&& cr_direction(t@.stream.cr) == 1
                &&& cr_memory_increment(t@.stream.cr)
                &&& !cr_peripheral_increment(t@.stream.cr)
                &&& cr_circular(t@.stream.cr)
                &&& cr_double_buffer(t@.stream.cr)
                &&& cr_current_target(t@.stream.cr) == 0
                &&& t.hardware_target() == 0
                &&& cr_memory_size(t@.stream.cr) == size_encoding(source0.elem_bytes).unwrap()
                &&& cr_peripheral_size(t@.stream.cr) == size_encoding(target.elem_bytes).unwrap()
                &&& cr_channel(t@.stream.cr) == channel as u32
                &&& t.t_complete() == self.complete()
                &&& t.t_error() == self.errored()
            },
            Err((s, e)) => {
                &&& s@ == self@
                &&& (e is UnequalBufferLengths <==> source0.len != source1.len)
                &&& (e is UnsupportedElementSize <==> (source0.len == source1.len && (size_encoding(
                    source0.elem_bytes,
                ) is None || size_encoding(target.elem_bytes) is None)))
            },
        }
    }

    fn start_transfer<CHANNEL: DmaChannel>(
        self,
        source0: Buffer,
        source1: Buffer,
        target: Target,
    ) -> (r: Result<DoubleBufferedTransfer, (Stream, ConfigError)>) {
        if source0.len != source1.len {
            return Err((self, ConfigError::UnequalBufferLengths));
        }
        let msize = match data_size(source0.elem_bytes) {
            Some(v) => v,
            None => {
                return Err((self, ConfigError::UnsupportedElementSize));
            },
        };
        let psize = match data_size(target.elem_bytes) {
            Some(v) => v,
            None => {
                return Err((self, ConfigError::UnsupportedElementSize));
            },
        };
        let ch = CHANNEL::channel();
        let mut stream = self;
        let cfg = config_value(stream.control(), msize, psize, ch, true, true);
        stream.write_control(cfg);
        stream.write_memory0_addr(source0.addr);
        stream.write_memory1_addr(source1.addr);
        stream.write_count(source0.len as u32);
        stream.write_peripheral_addr(target.addr);
        stream.write_control(cfg | (1u32 << EN_POS));
        proof {
            lemma_transfer_config(self@.cr, msize, psize, ch, true, true);
            lemma_enable_bit(cfg);
            assert(stream@.writes =~= self@.writes + double_start_writes(
                self@.cr,
                source0,
                source1,
                target,
                CHANNEL::spec_channel(),
            ));
        }
        Ok(DoubleBufferedTransfer { last_ct: 0, source0, source1, stream })
    }
}

} // verus!
