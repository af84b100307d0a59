//! Bit-exact layout of one stream's registers.
//!
//! Each stream owns a 32-bit control register, a 16-bit element-count
//! register, one peripheral-address register and two memory-address
//! registers.  Completion and error flags of four streams are packed into a
//! shared group status register, at fixed offsets determined by the stream's
//! index within its group; they are cleared through a separate
//! write-1-to-clear register.

use vstd::prelude::*;

verus! {

/// Bit position of the stream-enable flag in the control register.
pub const EN_POS: u32 = 0;
/// Bit position of the half-transfer interrupt-enable flag.
pub const HTIE_POS: u32 = 3;
/// Bit position of the transfer-complete interrupt-enable flag.
pub const TCIE_POS: u32 = 4;
/// Lowest bit of the two-bit transfer-direction field.
pub const DIR_POS: u32 = 6;
/// Bit position of the circular-mode flag.
pub const CIRC_POS: u32 = 8;
/// Bit position of the peripheral-increment flag.
pub const PINC_POS: u32 = 9;
/// Bit position of the memory-increment flag.
pub const MINC_POS: u32 = 10;
/// Lowest bit of the two-bit peripheral element-size field.
pub const PSIZE_POS: u32 = 11;
/// Lowest bit of the two-bit memory element-size field.
pub const MSIZE_POS: u32 = 13;
/// Bit position of the double-buffer-mode flag.
pub const DBM_POS: u32 = 18;
/// Bit position of the hardware-maintained current-target flag.
pub const CT_POS: u32 = 19;
/// Lowest bit of the three-bit channel-select field.
pub const CHSEL_POS: u32 = 25;

/// All control-register bits rewritten when a transfer is configured:
/// direction, circular, both increment flags, both element sizes,
/// double-buffer, current-target and channel-select.
pub const CONFIG_MASK: u32 = 0x0E0C_7FC0;

/// Whether bit `p` of `v` is set.
pub open spec fn bit_at(v: u32, p: u32) -> bool {
    v & (1u32 << p) != 0
}

/// The stream-enable flag of a control-register value.
pub open spec fn cr_enabled(cr: u32) -> bool {
    bit_at(cr, EN_POS)
}

/// The half-transfer interrupt-enable flag of a control-register value.
pub open spec fn cr_half_transfer_irq(cr: u32) -> bool {
    bit_at(cr, HTIE_POS)
}

/// The transfer-complete interrupt-enable flag of a control-register value.
pub open spec fn cr_complete_irq(cr: u32) -> bool {
    bit_at(cr, TCIE_POS)
}

/// The two-bit transfer-direction field; `1` is memory-to-peripheral.
pub open spec fn cr_direction(cr: u32) -> u32 {
    (cr >> DIR_POS) & 3
}

/// The circular-mode flag of a control-register value.
pub open spec fn cr_circular(cr: u32) -> bool {
    bit_at(cr, CIRC_POS)
}

/// The peripheral-increment flag of a control-register value.
pub open spec fn cr_peripheral_increment(cr: u32) -> bool {
    bit_at(cr, PINC_POS)
}

/// The memory-increment flag of a control-register value.
pub open spec fn cr_memory_increment(cr: u32) -> bool {
    bit_at(cr, MINC_POS)
}

/// The two-bit peripheral element-size encoding of a control-register value.
pub open spec fn cr_peripheral_size(cr: u32) -> u32 {
    (cr >> PSIZE_POS) & 3
}

/// The two-bit memory element-size encoding of a control-register value.
pub open spec fn cr_memory_size(cr: u32) -> u32 {
    (cr >> MSIZE_POS) & 3
}

/// The double-buffer-mode flag of a control-register value.
pub open spec fn cr_double_buffer(cr: u32) -> bool {
    bit_at(cr, DBM_POS)
}

/// The current-target flag of a control-register value, as a buffer number:
/// `0` when the engine drains buffer 0, `1` when it drains buffer 1.
pub open spec fn cr_current_target(cr: u32) -> u8 {
    if bit_at(cr, CT_POS) {
        1
    } else {
        0
    }
}

/// The three-bit channel-select field of a control-register value.
pub open spec fn cr_channel(cr: u32) -> u32 {
    (cr >> CHSEL_POS) & 7
}

/// Position of the transfer-complete flag of stream `index` in its group
/// status register.
pub open spec fn complete_flag_pos(index: u8) -> u32 {
    if index % 4 == 0 {
        5
    } else if index % 4 == 1 {
        11
    } else if index % 4 == 2 {
        21
    } else {
        27
    }
}

/// Position of the bus-error flag of stream `index` in its group status
/// register.
pub open spec fn bus_error_flag_pos(index: u8) -> u32 {
    if index % 4 == 0 {
        3
    } else if index % 4 == 1 {
        9
    } else if index % 4 == 2 {
        19
    } else {
        25
    }
}

/// Position of the arbitration/overrun-error flag of stream `index` in its
/// group status register.
pub open spec fn arbitration_flag_pos(index: u8) -> u32 {
    if index % 4 == 0 {
        2
    } else if index % 4 == 1 {
        8
    } else if index % 4 == 2 {
        18
    } else {
        24
    }
}

/// The transfer-complete flag of stream `index` in status value `isr`.
pub open spec fn status_complete(isr: u32, index: u8) -> bool {
    bit_at(isr, complete_flag_pos(index))
}

/// The bus-error flag of stream `index` in status value `isr`.
pub open spec fn status_bus_error(isr: u32, index: u8) -> bool {
    bit_at(isr, bus_error_flag_pos(index))
}

/// The arbitration/overrun-error flag of stream `index` in status value
/// `isr`.
pub open spec fn status_arbitration_error(isr: u32, index: u8) -> bool {
    bit_at(isr, arbitration_flag_pos(index))
}

/// Whether stream `index` reports any error in status value `isr`.  Both
/// error kinds are folded into this one answer.
pub open spec fn status_error(isr: u32, index: u8) -> bool {
    status_bus_error(isr, index) || status_arbitration_error(isr, index)
}

/// The write-1-to-clear value that clears the transfer-complete flag and
/// both error flags of stream `index`.
pub open spec fn clear_flags_mask(index: u8) -> u32 {
    (1u32 << complete_flag_pos(index)) | (1u32 << bus_error_flag_pos(index)) | (1u32
        << arbitration_flag_pos(index))
}

/// The control-register value that configures a memory-to-peripheral
/// transfer: the bits under [`CONFIG_MASK`] are rewritten — direction
/// memory-to-peripheral, memory increments, peripheral fixed, the two
/// element-size encodings, the channel selection, circular and double-buffer
/// mode as requested, current-target forced to buffer 0 — and every other
/// bit of `cr` is kept.
pub open spec fn transfer_config(
    cr: u32,
    msize: u8,
    psize: u8,
    channel: u8,
    circular: bool,
    double: bool,
) -> u32 {
    (cr & !CONFIG_MASK) | (1u32 << DIR_POS) | (if circular {
        1u32 << CIRC_POS
    } else {
        0
    }) | (1u32 << MINC_POS) | (((psize as u32) & 3) << PSIZE_POS) | (((msize as u32) & 3)
        << MSIZE_POS) | (if double {
        1u32 << DBM_POS
    } else {
        0
    }) | (((channel as u32) & 7) << CHSEL_POS)
}

/// Computes the control-register value of [`transfer_config`].
pub fn config_value(cr: u32, msize: u8, psize: u8, channel: u8, circular: bool, double: bool) -> (r:
    u32)
    ensures
        r == transfer_config(cr, msize, psize, channel, circular, double),
{
    (cr & !CONFIG_MASK) | (1u32 << DIR_POS) | (if circular {
        1u32 << CIRC_POS
    } else {
        0
    }) | (1u32 << MINC_POS) | (((psize as u32) & 3) << PSIZE_POS) | (((msize as u32) & 3)
        << MSIZE_POS) | (if double {
        1u32 << DBM_POS
    } else {
        0
    }) | (((channel as u32) & 7) << CHSEL_POS)
}

/// The element-size encoding used by both element-size fields: 1 byte is
/// `0b00`, 2 bytes `0b01`, 4 bytes `0b10`; every other width is unsupported.
pub open spec fn size_encoding(bytes: usize) -> Option<u8> {
    if bytes == 1 {
        Some(0u8)
    } else if bytes == 2 {
        Some(1u8)
    } else if bytes == 4 {
        Some(2u8)
    } else {
        None
    }
}

/// Derives the element-size encoding from an element width in bytes;
/// configuration fails on a width this returns `None` for.
pub fn data_size(bytes: usize) -> (r: Option<u8>)
    ensures
        r == size_encoding(bytes),
{
    match bytes {
        1 => Some(0),
        2 => Some(1),
        4 => Some(2),
        _ => None,
    }
}

/// A register of one stream that the driver writes.
#[derive(PartialEq, Eq, Structural)]
pub enum RegId {
    /// The stream's control register.
    Control,
    /// The stream's element-count register.
    Count,
    /// The stream's peripheral-address register.
    PeripheralAddr,
    /// The stream's memory-address register for buffer 0.
    Memory0Addr,
    /// The stream's memory-address register for buffer 1.
    Memory1Addr,
    /// The group's write-1-to-clear flag register.
    ClearFlags,
}

/// One register write performed by the driver, as recorded in a stream's
/// ghost write log.
pub ghost struct RegWrite {
    /// The register written.
    pub reg: RegId,
    /// The value written.
    pub value: u32,
}

/// Setting one bit sets exactly that bit: bit `q` of `v | (1 << p)` is set
/// iff `q == p` or it was set in `v`.
pub proof fn lemma_bit_or(v: u32, p: u32, q: u32)
    by (bit_vector)
    requires
        p < 32,
        q < 32,
    ensures
        bit_at(v | (1u32 << p), q) == (q == p || bit_at(v, q)),
{
}

/// Clearing one bit clears exactly that bit: bit `q` of `v & !(1 << p)` is
/// set iff `q != p` and it was set in `v`.
pub proof fn lemma_bit_clear(v: u32, p: u32, q: u32)
    by (bit_vector)
    requires
        p < 32,
        q < 32,
    ensures
        bit_at(v & !(1u32 << p), q) == (q != p && bit_at(v, q)),
{
}

/// Toggling one bit inverts exactly that bit.
pub proof fn lemma_bit_toggle(v: u32, p: u32, q: u32)
    by (bit_vector)
    requires
        p < 32,
        q < 32,
    ensures
        q == p ==> bit_at(v ^ (1u32 << p), q) == !bit_at(v, q),
        q != p ==> bit_at(v ^ (1u32 << p), q) == bit_at(v, q),
{
}

/// No bit is set in zero.
pub proof fn lemma_zero_bits(q: u32)
    by (bit_vector)
    requires
        q < 32,
    ensures
        !bit_at(0u32, q),
{
}

/// Clearing a stream's flags clears its completion flag and both of its
/// error flags and leaves the rest of the status register unchanged.
pub proof fn lemma_clear_flags(isr: u32, index: u8)
    by (bit_vector)
    requires
        index < 8,
    ensures
        !status_complete(isr & !clear_flags_mask(index), index),
        !status_bus_error(isr & !clear_flags_mask(index), index),
        !status_arbitration_error(isr & !clear_flags_mask(index), index),
{
}

/// How the fields of a configured control register read back: the
/// transfer-enable flag and both interrupt-enable flags are untouched, and
/// the configured fields decode to what was requested.
pub proof fn lemma_transfer_config(
    cr: u32,
    msize: u8,
    psize: u8,
    channel: u8,
    circular: bool,
    double: bool,
)
    by (bit_vector)
    ensures
        cr_enabled(transfer_config(cr, msize, psize, channel, circular, double)) == cr_enabled(cr),
        cr_half_transfer_irq(transfer_config(cr, msize, psize, channel, circular, double))
            == cr_half_transfer_irq(cr),
        cr_complete_irq(transfer_config(cr, msize, psize, channel, circular, double))
            == cr_complete_irq(cr),
        cr_direction(transfer_config(cr, msize, psize, channel, circular, double)) == 1,
        cr_circular(transfer_config(cr, msize, psize, channel, circular, double)) == circular,
        !cr_peripheral_increment(transfer_config(cr, msize, psize, channel, circular, double)),
        cr_memory_increment(transfer_config(cr, msize, psize, channel, circular, double)),
        cr_peripheral_size(transfer_config(cr, msize, psize, channel, circular, double)) == (psize
            & 3) as u32,
        cr_memory_size(transfer_config(cr, msize, psize, channel, circular, double)) == (msize
            & 3) as u32,
        cr_double_buffer(transfer_config(cr, msize, psize, channel, circular, double)) == double,
        cr_current_target(transfer_config(cr, msize, psize, channel, circular, double)) == 0,
        cr_channel(transfer_config(cr, msize, psize, channel, circular, double)) == (channel
            & 7) as u32,
        msize < 4 ==> cr_memory_size(transfer_config(cr, msize, psize, channel, circular, double))
            == msize as u32,
        psize < 4 ==> cr_peripheral_size(
            transfer_config(cr, msize, psize, channel, circular, double),
        ) == psize as u32,
        channel < 8 ==> cr_channel(transfer_config(cr, msize, psize, channel, circular, double))
            == channel as u32,
{
}

/// Setting the enable bit enables the stream and changes nothing else that
/// the control register decodes.
pub proof fn lemma_enable_bit(cr: u32)
    by (bit_vector)
    ensures
        cr_enabled(cr | (1u32 << EN_POS)),
        cr_current_target(cr | (1u32 << EN_POS)) == cr_current_target(cr),
        cr_double_buffer(cr | (1u32 << EN_POS)) == cr_double_buffer(cr),
        cr_circular(cr | (1u32 << EN_POS)) == cr_circular(cr),
        cr_direction(cr | (1u32 << EN_POS)) == cr_direction(cr),
        cr_memory_size(cr | (1u32 << EN_POS)) == cr_memory_size(cr),
        cr_peripheral_size(cr | (1u32 << EN_POS)) == cr_peripheral_size(cr),
        cr_channel(cr | (1u32 << EN_POS)) == cr_channel(cr),
        cr_memory_increment(cr | (1u32 << EN_POS)) == cr_memory_increment(cr),
        cr_peripheral_increment(cr | (1u32 << EN_POS)) == cr_peripheral_increment(cr),
        cr_half_transfer_irq(cr | (1u32 << EN_POS)) == cr_half_transfer_irq(cr),
        cr_complete_irq(cr | (1u32 << EN_POS)) == cr_complete_irq(cr),
{
}

/// Clearing the enable bit disables the stream and changes nothing else
/// that the control register decodes.
pub proof fn lemma_disable_bit(cr: u32)
    by (bit_vector)
    ensures
        !cr_enabled(cr & !(1u32 << EN_POS)),
        cr_current_target(cr & !(1u32 << EN_POS)) == cr_current_target(cr),
        cr_double_buffer(cr & !(1u32 << EN_POS)) == cr_double_buffer(cr),
        cr_circular(cr & !(1u32 << EN_POS)) == cr_circular(cr),
        cr_half_transfer_irq(cr & !(1u32 << EN_POS)) == cr_half_transfer_irq(cr),
        cr_complete_irq(cr & !(1u32 << EN_POS)) == cr_complete_irq(cr),
{
}

} // verus!
