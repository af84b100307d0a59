use stm32f429_dma::channel::{DmaChannel, C0, C1, C2, C3, C4, C5, C6, C7};
use stm32f429_dma::event::{Error, Event};
use stm32f429_dma::regs::data_size;
use stm32f429_dma::stream::{Dma1, Dma2, DmaExt, DmaStream};

#[test]
fn test_data_size_supported_widths() {
    assert_eq!(data_size(1), Some(0b00));
    assert_eq!(data_size(2), Some(0b01));
    assert_eq!(data_size(4), Some(0b10));
}

#[test]
fn test_data_size_rejects_other_widths() {
    assert_eq!(data_size(0), None);
    assert_eq!(data_size(3), None);
    assert_eq!(data_size(5), None);
    assert_eq!(data_size(8), None);
}

#[test]
fn test_channel_numbers() {
    assert_eq!(C0::channel(), 0);
    assert_eq!(C1::channel(), 1);
    assert_eq!(C2::channel(), 2);
    assert_eq!(C3::channel(), 3);
    assert_eq!(C4::channel(), 4);
    assert_eq!(C5::channel(), 5);
    assert_eq!(C6::channel(), 6);
    assert_eq!(C7::channel(), 7);
}

#[test]
fn test_split_yields_idle_streams() {
    let streams = Dma1.split();
    assert_eq!(streams.s0.index(), 0);
    assert_eq!(streams.s3.index(), 3);
    assert_eq!(streams.s7.index(), 7);
    assert_eq!(streams.s0.controller(), 1);
    assert_eq!(streams.s5.controller(), 1);
    assert!(!streams.s0.is_enabled());
    assert!(!streams.s0.is_complete());
    assert!(!streams.s0.has_error());
    assert_eq!(streams.s0.control(), 0);
    assert_eq!(streams.s0.count(), 0);
    assert_eq!(streams.s0.peripheral_address(), 0);
    assert_eq!(streams.s0.memory0_address(), 0);
    assert_eq!(streams.s0.memory1_address(), 0);
    assert!(!streams.s4.is_complete());
    assert!(!streams.s4.has_error());

    let streams2 = Dma2.split();
    assert_eq!(streams2.s1.controller(), 2);
    assert_eq!(streams2.s1.index(), 1);
}

#[test]
fn test_reset_clears_flags_and_disables() {
    let streams = Dma1.split();
    let mut s = streams.s2;
    s.device_set_complete();
    s.device_set_error(Error::Bus);
    assert!(s.is_complete());
    assert!(s.has_error());
    s.reset();
    assert!(!s.has_error());
    assert!(!s.is_complete());
    assert!(!s.is_enabled());
}

#[test]
fn test_reset_clears_flags_on_high_group_stream() {
    let streams = Dma2.split();
    let mut s = streams.s6;
    s.device_set_complete();
    s.device_set_error(Error::Arbitration);
    assert!(s.is_complete());
    assert!(s.has_error());
    s.reset();
    assert!(!s.has_error());
    assert!(!s.is_complete());
    assert!(!s.is_enabled());
}

#[test]
fn test_listen_unlisten_toggle_enable_bits() {
    let streams = Dma1.split();
    let mut s = streams.s1;
    s.listen(Event::HalfTransfer);
    assert_eq!(s.control(), 1 << 3);
    s.listen(Event::TransferComplete);
    assert_eq!(s.control(), (1 << 3) | (1 << 4));
    s.unlisten(Event::HalfTransfer);
    assert_eq!(s.control(), 1 << 4);
    s.unlisten(Event::TransferComplete);
    assert_eq!(s.control(), 0);
}

#[test]
fn test_listen_does_not_touch_status_flags() {
    let streams = Dma1.split();
    let mut s = streams.s0;
    s.listen(Event::TransferComplete);
    assert!(!s.is_complete());
    assert!(!s.has_error());
}

#[test]
fn test_both_error_kinds_fold_into_has_error() {
    let streams = Dma1.split();
    let mut s = streams.s4;
    s.device_set_error(Error::Arbitration);
    assert!(s.has_error());
    assert!(!s.is_complete());
    s.reset();
    assert!(!s.has_error());
    s.device_set_error(Error::Bus);
    assert!(s.has_error());
}
