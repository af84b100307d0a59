//! Stream register model and stream lifecycle.
//!
//! A [`Stream`] is one independent DMA sub-engine, identified by its
//! controller, its index and the status-register group the index falls in
//! (streams 0–3 share the low group registers, streams 4–7 the high ones).
//! Streams come into being only when a controller is split, in the idle
//! state; a transfer checks a stream out exclusively and hands it back on
//! reset.
//!
//! Every register write performed by the driver is recorded in a ghost
//! write log, so contracts can speak about which registers are written, in
//! which order, and with which values.  The hardware engine's autonomous
//! actions — raising flags, toggling the current target — are modelled by
//! the `device_*` methods; they change the registers but are not writes of
//! the driver, so the log stays untouched.

use vstd::prelude::*;

use crate::event::{Error, Event};
use crate::regs::{
    arbitration_flag_pos, bus_error_flag_pos, clear_flags_mask, complete_flag_pos, cr_circular,
    cr_complete_irq, cr_current_target, cr_double_buffer, cr_enabled, cr_half_transfer_irq,
    lemma_bit_clear, lemma_bit_or, lemma_bit_toggle, lemma_clear_flags, lemma_disable_bit,
    lemma_zero_bits, status_complete, status_error, RegId, RegWrite, CIRC_POS, CT_POS, DBM_POS, EN_POS,
    HTIE_POS, TCIE_POS,
};

verus! {

/// Mathematical model of one stream: its identity, its register values and
/// the log of every register write the driver has performed on it.
pub ghost struct StreamModel {
    /// The controller the stream belongs to, 1 or 2.
    pub controller: u8,
    /// The stream index within its controller, 0 to 7.
    pub index: u8,
    /// The control register.
    pub cr: u32,
    /// The element-count register.
    pub ndtr: u32,
    /// The peripheral-address register.
    pub par: u32,
    /// The memory-address register for buffer 0.
    pub m0ar: u32,
    /// The memory-address register for buffer 1.
    pub m1ar: u32,
    /// The stream's view of its group status register.
    pub isr: u32,
    /// Every register write the driver has performed, oldest first.
    pub writes: Seq<RegWrite>,
}

/// A stream model with a valid identity.
pub open spec fn stream_model_wf(s: StreamModel) -> bool {
    &&& s.index < 8
    &&& (s.controller == 1 || s.controller == 2)
}

/// The two models name the same stream.
pub open spec fn same_identity(pre: StreamModel, post: StreamModel) -> bool {
    &&& post.controller == pre.controller
    &&& post.index == pre.index
}

/// The count and the three address registers are unchanged.
pub open spec fn addresses_unchanged(pre: StreamModel, post: StreamModel) -> bool {
    &&& post.ndtr == pre.ndtr
    &&& post.par == pre.par
    &&& post.m0ar == pre.m0ar
    &&& post.m1ar == pre.m1ar
}

/// The write sequence of a reset: the control register rewritten with the
/// enable flag cleared, then one write-1-to-clear of the completion and
/// error flags.
pub open spec fn reset_writes(cr: u32, index: u8) -> Seq<RegWrite> {
    seq![
        (RegWrite { reg: RegId::Control, value: cr & !(1u32 << EN_POS) }),
        (RegWrite { reg: RegId::ClearFlags, value: clear_flags_mask(index) }),
    ]
}

/// How a stream read back from a transfer relates to the registers the
/// transfer held before [`DmaStream::reset`] ran: stream-enable cleared, the
/// completion and error flags cleared through the write-1-to-clear register,
/// everything else untouched, and the two reset writes appended to the log.
pub open spec fn reset_relation(pre: StreamModel, s: &Stream) -> bool {
    &&& same_identity(pre, s@)
    &&& addresses_unchanged(pre, s@)
    &&& s@.cr == pre.cr & !(1u32 << EN_POS)
    &&& s@.isr == pre.isr & !clear_flags_mask(pre.index)
    &&& s@.writes == pre.writes + reset_writes(pre.cr, pre.index)
    &&& s.wf()
    &&& !s.enabled()
    &&& !s.complete()
    &&& !s.errored()
}

/// A freshly initialized stream: correct identity, all registers zero, no
/// write logged; in particular disabled, not complete and without error.
pub open spec fn fresh_stream(s: StreamModel, controller: u8, index: u8) -> bool {
    &&& s.controller == controller
    &&& s.index == index
    &&& s.cr == 0
    &&& s.ndtr == 0
    &&& s.par == 0
    &&& s.m0ar == 0
    &&& s.m1ar == 0
    &&& s.isr == 0
    &&& s.writes == Seq::<RegWrite>::empty()
    &&& !cr_enabled(s.cr)
    &&& !status_complete(s.isr, index)
    &&& !status_error(s.isr, index)
}

/// One DMA stream: typed access to one sub-engine's control, count, address
/// and status/clear registers.
pub struct Stream {
    controller: u8,
    index: u8,
    cr: u32,
    ndtr: u32,
    par: u32,
    m0ar: u32,
    m1ar: u32,
    isr: u32,
    writes: Ghost<Seq<RegWrite>>,
}

impl View for Stream {
    type V = StreamModel;

    closed spec fn view(&self) -> StreamModel {
        StreamModel {
            controller: self.controller,
            index: self.index,
            cr: self.cr,
            ndtr: self.ndtr,
            par: self.par,
            m0ar: self.m0ar,
            m1ar: self.m1ar,
            isr: self.isr,
            writes: self.writes@,
        }
    }
}

/// One independent DMA sub-engine: interrupt-enable toggles, pure status
/// reads, and the reset that makes a used stream safely reconfigurable.
pub trait DmaStream {
    /// The stream's validity invariant.
    spec fn wf(&self) -> bool;

    /// The stream-enable flag is set.
    spec fn enabled(&self) -> bool;

    /// The transfer-complete flag is set.
    spec fn complete(&self) -> bool;

    /// One of the two error flags is set.
    spec fn errored(&self) -> bool;

    /// How `listen` changes the stream.
    spec fn listen_rel(pre: &Self, post: &Self, event: Event) -> bool;

    /// How `unlisten` changes the stream.
    spec fn unlisten_rel(pre: &Self, post: &Self, event: Event) -> bool;

    /// How `reset` changes the stream.
    spec fn reset_rel(pre: &Self, post: &Self) -> bool;

    /// Sets the interrupt-enable bit for `event`; the status flags
    /// themselves are unaffected.
    fn listen(&mut self, event: Event)
        requires
            old(self).wf(),
        ensures
            final(self).wf(),
            Self::listen_rel(old(self), final(self), event),
            final(self).enabled() == old(self).enabled(),
            final(self).complete() == old(self).complete(),
            final(self).errored() == old(self).errored(),
    ;

    /// Clears the interrupt-enable bit for `event`; the status flags
    /// themselves are unaffected.
    fn unlisten(&mut self, event: Event)
        requires
            old(self).wf(),
        ensures
            final(self).wf(),
            Self::unlisten_rel(old(self), final(self), event),
            final(self).enabled() == old(self).enabled(),
            final(self).complete() == old(self).complete(),
            final(self).errored() == old(self).errored(),
    ;

    /// Whether the transfer-complete flag of this stream is set.  A pure
    /// read; no side effects.
    fn is_complete(&self) -> (r: bool)
        requires
            self.wf(),
        ensures
            r == self.complete(),
    ;

    /// Whether either error flag of this stream is set.  Both error kinds
    /// are folded into this one answer.  A pure read; no side effects.
    fn has_error(&self) -> (r: bool)
        requires
            self.wf(),
        ensures
            r == self.errored(),
    ;

    /// Stops any in-flight transfer by clearing the stream-enable flag, then
    /// clears the completion and error flags through the write-1-to-clear
    /// register.  Afterwards the stream is disabled, reports no completion
    /// and no error, and is safe to reconfigure.  Must run before an
    /// already-used stream is reconfigured.
    fn reset(&mut self)
        requires
            old(self).wf(),
        ensures
            final(self).wf(),
            Self::reset_rel(old(self), final(self)),
            !final(self).enabled(),
            !final(self).complete(),
            !final(self).errored(),
    ;
}

impl DmaStream for Stream {
    open spec fn wf(&self) -> bool {
        stream_model_wf(self@)
    }

    open spec fn enabled(&self) -> bool {
        cr_enabled(self@.cr)
    }

    open spec fn complete(&self) -> bool {
        status_complete(self@.isr, self@.index)
    }

    open spec fn errored(&self) -> bool {
        status_error(self@.isr, self@.index)
    }

    /// The enable bit for `event` is set in the control register and the
    /// one write is logged; every other register is untouched.
    open spec fn listen_rel(pre: &Stream, post: &Stream, event: Event) -> bool {
        &&& post@.cr == pre@.cr | (1u32 << event.enable_pos())
        &&& post@.writes == pre@.writes.push(RegWrite { reg: RegId::Control, value: post@.cr })
        &&& same_identity(pre@, post@)
        &&& addresses_unchanged(pre@, post@)
        &&& post@.isr == pre@.isr
        &&& cr_half_transfer_irq(post@.cr) == (event is HalfTransfer || cr_half_transfer_irq(
            pre@.cr,
        ))
        &&& cr_complete_irq(post@.cr) == (event is TransferComplete || cr_complete_irq(pre@.cr))
    }

    /// The enable bit for `event` is cleared in the control register and the
    /// one write is logged; every other register is untouched.
    open spec fn unlisten_rel(pre: &Stream, post: &Stream, event: Event) -> bool {
        &&& post@.cr == pre@.cr & !(1u32 << event.enable_pos())
        &&& post@.writes == pre@.writes.push(RegWrite { reg: RegId::Control, value: post@.cr })
        &&& same_identity(pre@, post@)
        &&& addresses_unchanged(pre@, post@)
        &&& post@.isr == pre@.isr
        &&& cr_half_transfer_irq(post@.cr) == (!(event is HalfTransfer) && cr_half_transfer_irq(
            pre@.cr,
        ))
        &&& cr_complete_irq(post@.cr) == (!(event is TransferComplete) && cr_complete_irq(pre@.cr))
    }

    /// The enable flag is cleared, the completion and error flags are
    /// cleared through the write-1-to-clear register, the two writes are
    /// logged, and everything else — the interrupt enables included — is
    /// untouched.
    open spec fn reset_rel(pre: &Stream, post: &Stream) -> bool {
        &&& same_identity(pre@, post@)
        &&& addresses_unchanged(pre@, post@)
        &&& post@.cr == pre@.cr & !(1u32 << EN_POS)
        &&& post@.isr == pre@.isr & !clear_flags_mask(pre@.index)
        &&& post@.writes == pre@.writes + reset_writes(pre@.cr, pre@.index)
        &&& cr_half_transfer_irq(post@.cr) == cr_half_transfer_irq(pre@.cr)
        &&& cr_complete_irq(post@.cr) == cr_complete_irq(pre@.cr)
    }

    fn listen(&mut self, event: Event) {
        let pos: u32 = match event {
            Event::HalfTransfer => HTIE_POS,
            Event::TransferComplete => TCIE_POS,
        };
        let v = self.cr | (1u32 << pos);
        self.write_control(v);
        proof {
            lemma_bit_or(old(self)@.cr, pos, HTIE_POS);
            lemma_bit_or(old(self)@.cr, pos, TCIE_POS);
            lemma_bit_or(old(self)@.cr, pos, EN_POS);
        }
    }

    fn unlisten(&mut self, event: Event) {
        let pos: u32 = match event {
            Event::HalfTransfer => HTIE_POS,
            Event::TransferComplete => TCIE_POS,
        };
        let v = self.cr & !(1u32 << pos);
        self.write_control(v);
        proof {
            lemma_bit_clear(old(self)@.cr, pos, HTIE_POS);
            lemma_bit_clear(old(self)@.cr, pos, TCIE_POS);
            lemma_bit_clear(old(self)@.cr, pos, EN_POS);
        }
    }

    fn is_complete(&self) -> (r: bool) {
        let pos = self.complete_flag_position();
        self.isr & (1u32 << pos) != 0
    }

    fn has_error(&self) -> (r: bool) {
        let bpos = self.bus_error_flag_position();
        let apos = self.arbitration_flag_position();
        self.isr & (1u32 << bpos) != 0 || self.isr & (1u32 << apos) != 0
    }

    fn reset(&mut self) {
        let v = self.cr & !(1u32 << EN_POS);
        self.write_control(v);
        let cpos = self.complete_flag_position();
        let bpos = self.bus_error_flag_position();
        let apos = self.arbitration_flag_position();
        let mask = (1u32 << cpos) | (1u32 << bpos) | (1u32 << apos);
        self.isr = self.isr & !mask;
        self.writes = Ghost(self.writes@.push(RegWrite { reg: RegId::ClearFlags, value: mask }));
        proof {
            lemma_disable_bit(old(self)@.cr);
            lemma_clear_flags(old(self)@.isr, old(self)@.index);
            assert(final(self)@.writes =~= old(self)@.writes + reset_writes(
                old(self)@.cr,
                old(self)@.index,
            ));
        }
    }
}

impl Stream {
    /// Position of this stream's transfer-complete flag in the group status
    /// register.
    fn complete_flag_position(&self) -> (r: u32)
        requires
            self.wf(),
        ensures
            r == complete_flag_pos(self@.index),
    {
        match self.index % 4 {
            0 => 5,
            1 => 11,
            2 => 21,
            _ => 27,
        }
    }

    /// Position of this stream's bus-error flag in the group status
    /// register.
    fn bus_error_flag_position(&self) -> (r: u32)
        requires
            self.wf(),
        ensures
            r == bus_error_flag_pos(self@.index),
    {
        match self.index % 4 {
            0 => 3,
            1 => 9,
            2 => 19,
            _ => 25,
        }
    }

    /// Position of this stream's arbitration/overrun-error flag in the group
    /// status register.
    fn arbitration_flag_position(&self) -> (r: u32)
        requires
            self.wf(),
        ensures
            r == arbitration_flag_pos(self@.index),
    {
        match self.index % 4 {
            0 => 2,
            1 => 8,
            2 => 18,
            _ => 24,
        }
    }

    /// Writes the control register and logs the write.
    pub(crate) fn write_control(&mut self, v: u32)
        ensures
            final(self)@ == (StreamModel { cr: v, writes: old(self)@.writes.push(
                RegWrite { reg: RegId::Control, value: v },
            ), ..old(self)@ }),
    {
        self.cr = v;
        self.writes = Ghost(self.writes@.push(RegWrite { reg: RegId::Control, value: v }));
    }

    /// Writes the element-count register and logs the write.
    pub(crate) fn write_count(&mut self, v: u32)
        ensures
            final(self)@ == (StreamModel { ndtr: v, writes: old(self)@.writes.push(
                RegWrite { reg: RegId::Count, value: v },
            ), ..old(self)@ }),
    {
        self.ndtr = v;
        self.writes = Ghost(self.writes@.push(RegWrite { reg: RegId::Count, value: v }));
    }

    /// Writes the peripheral-address register and logs the write.
    pub(crate) fn write_peripheral_addr(&mut self, v: u32)
        ensures
            final(self)@ == (StreamModel { par: v, writes: old(self)@.writes.push(
                RegWrite { reg: RegId::PeripheralAddr, value: v },
            ), ..old(self)@ }),
    {
        self.par = v;
        self.writes = Ghost(self.writes@.push(RegWrite { reg: RegId::PeripheralAddr, value: v }));
    }

    /// Writes the memory-address register of buffer 0 and logs the write.
    pub(crate) fn write_memory0_addr(&mut self, v: u32)
        ensures
            final(self)@ == (StreamModel { m0ar: v, writes: old(self)@.writes.push(
                RegWrite { reg: RegId::Memory0Addr, value: v },
            ), ..old(self)@ }),
    {
        self.m0ar = v;
        self.writes = Ghost(self.writes@.push(RegWrite { reg: RegId::Memory0Addr, value: v }));
    }

    /// Writes the memory-address register of buffer 1 and logs the write.
    pub(crate) fn write_memory1_addr(&mut self, v: u32)
        ensures
            final(self)@ == (StreamModel { m1ar: v, writes: old(self)@.writes.push(
                RegWrite { reg: RegId::Memory1Addr, value: v },
            ), ..old(self)@ }),
    {
        self.m1ar = v;
        self.writes = Ghost(self.writes@.push(RegWrite { reg: RegId::Memory1Addr, value: v }));
    }

    /// The hardware's current-target flag, as a buffer number: 0 when the
    /// engine drains buffer 0, 1 when it drains buffer 1.
    pub fn current_target(&self) -> (r: u8)
        ensures
            r == cr_current_target(self@.cr),
    {
        if self.cr & (1u32 << CT_POS) != 0 {
            1
        } else {
            0
        }
    }

    /// The current control-register value.
    pub fn control(&self) -> (r: u32)
        ensures
            r == self@.cr,
    {
        self.cr
    }

    /// The current element-count register value.
    pub fn count(&self) -> (r: u32)
        ensures
            r == self@.ndtr,
    {
        self.ndtr
    }

    /// The current peripheral-address register value.
    pub fn peripheral_address(&self) -> (r: u32)
        ensures
            r == self@.par,
    {
        self.par
    }

    /// The current memory-address register value for buffer 0.
    pub fn memory0_address(&self) -> (r: u32)
        ensures
            r == self@.m0ar,
    {
        self.m0ar
    }

    /// The current memory-address register value for buffer 1.
    pub fn memory1_address(&self) -> (r: u32)
        ensures
            r == self@.m1ar,
    {
        self.m1ar
    }

    /// Whether the stream-enable flag is set.
    pub fn is_enabled(&self) -> (r: bool)
        ensures
            r == self.enabled(),
    {
        self.cr & (1u32 << EN_POS) != 0
    }

    /// The stream index within its controller.
    pub fn index(&self) -> (r: u8)
        ensures
            r == self@.index,
    {
        self.index
    }

    /// The controller the stream belongs to.
    pub fn controller(&self) -> (r: u8)
        ensures
            r == self@.controller,
    {
        self.controller
    }

    /// Models the hardware engine raising this stream's transfer-complete
    /// flag.  The engine acts autonomously; the driver performs no register
    /// write here and the write log is untouched.
    pub fn device_set_complete(&mut self)
        requires
            old(self).wf(),
        ensures
            final(self).wf(),
            same_identity(old(self)@, final(self)@),
            addresses_unchanged(old(self)@, final(self)@),
            final(self)@.cr == old(self)@.cr,
            final(self)@.writes == old(self)@.writes,
            final(self)@.isr == old(self)@.isr | (1u32 << complete_flag_pos(old(self)@.index)),
            final(self).complete(),
            final(self).errored() == old(self).errored(),
    {
        let pos = self.complete_flag_position();
        self.isr = self.isr | (1u32 << pos);
        proof {
            lemma_bit_or(old(self)@.isr, pos, complete_flag_pos(old(self)@.index));
            lemma_bit_or(old(self)@.isr, pos, bus_error_flag_pos(old(self)@.index));
            lemma_bit_or(old(self)@.isr, pos, arbitration_flag_pos(old(self)@.index));
        }
    }

    /// Models the hardware engine raising one of this stream's error flags.
    /// Both kinds surface uniformly through `has_error`.  The write log is
    /// untouched.
    pub fn device_set_error(&mut self, kind: Error)
        requires
            old(self).wf(),
        ensures
            final(self).wf(),
            same_identity(old(self)@, final(self)@),
            addresses_unchanged(old(self)@, final(self)@),
            final(self)@.cr == old(self)@.cr,
            final(self)@.writes == old(self)@.writes,
            final(self)@.isr == old(self)@.isr | (1u32 << kind.flag_pos(old(self)@.index)),
            final(self).errored(),
            final(self).complete() == old(self).complete(),
    {
        let pos: u32 = match kind {
            Error::Bus => self.bus_error_flag_position(),
            Error::Arbitration => self.arbitration_flag_position(),
        };
        self.isr = self.isr | (1u32 << pos);
        proof {
            lemma_bit_or(old(self)@.isr, pos, complete_flag_pos(old(self)@.index));
            lemma_bit_or(old(self)@.isr, pos, bus_error_flag_pos(old(self)@.index));
            lemma_bit_or(old(self)@.isr, pos, arbitration_flag_pos(old(self)@.index));
        }
    }

    /// Models the hardware engine toggling the current-target flag at a
    /// buffer boundary in double-buffer mode.  The write log is untouched.
    pub fn device_toggle_target(&mut self)
        requires
            old(self).wf(),
        ensures
            final(self).wf(),
            same_identity(old(self)@, final(self)@),
            addresses_unchanged(old(self)@, final(self)@),
            final(self)@.isr == old(self)@.isr,
            final(self)@.writes == old(self)@.writes,
            final(self)@.cr == old(self)@.cr ^ (1u32 << CT_POS),
            cr_current_target(final(self)@.cr) == (if cr_current_target(old(self)@.cr) == 0 {
                1u8
            } else {
                0u8
            }),
            final(self).enabled() == old(self).enabled(),
            cr_double_buffer(final(self)@.cr) == cr_double_buffer(old(self)@.cr),
            cr_circular(final(self)@.cr) == cr_circular(old(self)@.cr),
    {
        self.cr = self.cr ^ (1u32 << CT_POS);
        proof {
            lemma_bit_toggle(old(self)@.cr, CT_POS, CT_POS);
            lemma_bit_toggle(old(self)@.cr, CT_POS, EN_POS);
            lemma_bit_toggle(old(self)@.cr, CT_POS, DBM_POS);
            lemma_bit_toggle(old(self)@.cr, CT_POS, CIRC_POS);
        }
    }

    /// A freshly initialized stream with the given identity.
    fn fresh(controller: u8, index: u8) -> (s: Stream)
        requires
            index < 8,
            controller == 1 || controller == 2,
        ensures
            fresh_stream(s@, controller, index),
            s.wf(),
    {
        proof {
            lemma_zero_bits(complete_flag_pos(index));
            lemma_zero_bits(bus_error_flag_pos(index));
            lemma_zero_bits(arbitration_flag_pos(index));
            lemma_zero_bits(EN_POS);
        }
        Stream {
            controller,
            index,
            cr: 0,
            ndtr: 0,
            par: 0,
            m0ar: 0,
            m1ar: 0,
            isr: 0,
            writes: Ghost(Seq::empty()),
        }
    }
}

/// The eight streams of one controller.
pub struct Streams {
    /// Stream 0.
    pub s0: Stream,
    /// Stream 1.
    pub s1: Stream,
    /// Stream 2.
    pub s2: Stream,
    /// Stream 3.
    pub s3: Stream,
    /// Stream 4.
    pub s4: Stream,
    /// Stream 5.
    pub s5: Stream,
    /// Stream 6.
    pub s6: Stream,
    /// Stream 7.
    pub s7: Stream,
}

/// All eight streams of controller `controller`, freshly initialized.
pub open spec fn fresh_streams(s: &Streams, controller: u8) -> bool {
    &&& fresh_stream(s.s0@, controller, 0)
    &&& fresh_stream(s.s1@, controller, 1)
    &&& fresh_stream(s.s2@, controller, 2)
    &&& fresh_stream(s.s3@, controller, 3)
    &&& fresh_stream(s.s4@, controller, 4)
    &&& fresh_stream(s.s5@, controller, 5)
    &&& fresh_stream(s.s6@, controller, 6)
    &&& fresh_stream(s.s7@, controller, 7)
}

/// Splits a DMA controller into its streams, once, at initialization.
pub trait DmaExt {
    /// The collection of streams the controller splits into.
    type Streams;

    /// What holds of the streams a split yields.
    spec fn split_post(s: &Self::Streams) -> bool;

    /// Consumes the controller and yields its streams, each in the idle
    /// state with all registers reset.
    fn split(self) -> (s: Self::Streams)
        ensures
            Self::split_post(&s),
    ;
}

/// The first DMA controller.
pub struct Dma1;

/// The second DMA controller.
pub struct Dma2;

impl DmaExt for Dma1 {
    type Streams = Streams;

    open spec fn split_post(s: &Streams) -> bool {
        fresh_streams(s, 1)
    }

    fn split(self) -> Streams {
        Streams {
            s0: Stream::fresh(1, 0),
            s1: Stream::fresh(1, 1),
            s2: Stream::fresh(1, 2),
            s3: Stream::fresh(1, 3),
            s4: Stream::fresh(1, 4),
            s5: Stream::fresh(1, 5),
            s6: Stream::fresh(1, 6),
            s7: Stream::fresh(1, 7),
        }
    }
}

impl DmaExt for Dma2 {
    type Streams = Streams;

    open spec fn split_post(s: &Streams) -> bool {
        fresh_streams(s, 2)
    }

    fn split(self) -> Streams {
        Streams {
            s0: Stream::fresh(2, 0),
            s1: Stream::fresh(2, 1),
            s2: Stream::fresh(2, 2),
            s3: Stream::fresh(2, 3),
            s4: Stream::fresh(2, 4),
            s5: Stream::fresh(2, 5),
            s6: Stream::fresh(2, 6),
            s7: Stream::fresh(2, 7),
        }
    }
}

} // verus!
