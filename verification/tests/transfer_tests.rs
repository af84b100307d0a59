use stm32f429_dma::channel::{C0, C1, C3};
use stm32f429_dma::event::Error;
use stm32f429_dma::stream::{Dma1, Dma2, DmaExt, DmaStream, Stream};
use stm32f429_dma::transfer::{Buffer, ConfigError, DmaStreamTransfer, Target, Transfer};

fn buffer(addr: u32, len: u16, elem_bytes: usize) -> Buffer {
    Buffer { addr, len, elem_bytes }
}

fn take_stream0() -> Stream {
    Dma1.split().s0
}

#[test]
fn test_single_start_writes_registers() {
    let s = take_stream0();
    let source = buffer(0x1000, 16, 2);
    let target = Target { addr: 0x4000, elem_bytes: 2 };
    let t = s.start::<C3>(source, target).unwrap_or_else(|_| panic!("start failed"));
    assert_eq!(t.count(), 16);
    assert_eq!(t.memory0_address(), 0x1000);
    assert_eq!(t.peripheral_address(), 0x4000);
    // enable | dir=01 | minc | psize=01 | msize=01 | chsel=3
    let expected = 1 | (1 << 6) | (1 << 10) | (1 << 11) | (1 << 13) | (3 << 25);
    assert_eq!(t.control(), expected);
}

#[test]
fn test_single_start_largest_count() {
    let s = take_stream0();
    let source = buffer(0x8000, 0xFFFF, 1);
    let target = Target { addr: 0x4000, elem_bytes: 1 };
    let t = s.start::<C0>(source, target).unwrap_or_else(|_| panic!("start failed"));
    assert_eq!(t.count(), 0xFFFF);
}

#[test]
fn test_single_start_byte_and_word_widths() {
    let s = take_stream0();
    let source = buffer(0x10, 4, 1);
    let target = Target { addr: 0x20, elem_bytes: 4 };
    let t = s.start::<C0>(source, target).unwrap_or_else(|_| panic!("start failed"));
    // enable | dir=01 | minc | psize=10 | msize=00 | chsel=0
    let expected = 1 | (1 << 6) | (1 << 10) | (2 << 11);
    assert_eq!(t.control(), expected);
}

#[test]
fn test_single_width_3_fails_before_any_write() {
    let s = take_stream0();
    let source = buffer(0x1000, 16, 3);
    let target = Target { addr: 0x4000, elem_bytes: 2 };
    match s.start::<C1>(source, target) {
        Ok(_) => panic!("a 3-byte element width must fail configuration"),
        Err((s, e)) => {
            assert_eq!(e, ConfigError::UnsupportedElementSize);
            assert_eq!(s.control(), 0);
            assert_eq!(s.count(), 0);
            assert_eq!(s.memory0_address(), 0);
            assert_eq!(s.peripheral_address(), 0);
            assert!(!s.is_enabled());
            // the stream stays reusable
            let t = s
                .start::<C1>(buffer(0x1000, 16, 2), target)
                .unwrap_or_else(|_| panic!("start failed"));
            assert_eq!(t.count(), 16);
        }
    }
}

#[test]
fn test_single_target_width_3_fails() {
    let s = take_stream0();
    let source = buffer(0x1000, 16, 2);
    let target = Target { addr: 0x4000, elem_bytes: 3 };
    match s.start::<C1>(source, target) {
        Ok(_) => panic!("a 3-byte element width must fail configuration"),
        Err((_, e)) => assert_eq!(e, ConfigError::UnsupportedElementSize),
    }
}

#[test]
fn test_single_wait_on_completion() {
    let s = take_stream0();
    let mut t = s
        .start::<C0>(buffer(0x100, 8, 1), Target { addr: 0x200, elem_bytes: 1 })
        .unwrap_or_else(|_| panic!("start failed"));
    assert!(!t.is_complete());
    t.device_set_complete();
    assert!(t.is_complete());
    match t.wait() {
        Ok(s) => {
            assert!(!s.is_enabled());
            assert!(!s.is_complete());
            assert!(!s.has_error());
        }
        Err(_) => panic!("wait must report completion as success"),
    }
}

#[test]
fn test_single_wait_on_error() {
    let s = take_stream0();
    let mut t = s
        .start::<C0>(buffer(0x100, 8, 1), Target { addr: 0x200, elem_bytes: 1 })
        .unwrap_or_else(|_| panic!("start failed"));
    t.device_set_error(Error::Bus);
    assert!(t.has_error());
    match t.wait() {
        Ok(_) => panic!("wait must report an error as failure"),
        Err(s) => {
            assert!(!s.is_enabled());
            assert!(!s.has_error());
        }
    }
}

#[test]
fn test_single_reset_reclaims_stream() {
    let s = take_stream0();
    let t = s
        .start::<C0>(buffer(0x100, 8, 1), Target { addr: 0x200, elem_bytes: 1 })
        .unwrap_or_else(|_| panic!("start failed"));
    let s = t.reset();
    assert!(!s.is_enabled());
    assert!(!s.is_complete());
    assert!(!s.has_error());
    assert_eq!(s.index(), 0);
    assert_eq!(s.controller(), 1);
}

#[test]
fn test_double_unequal_lengths_rejected_before_any_write() {
    let s = take_stream0();
    let a = buffer(0x1000, 16, 2);
    let b = buffer(0x2000, 8, 2);
    let target = Target { addr: 0x4000, elem_bytes: 2 };
    match s.start_transfer::<C0>(a, b, target) {
        Ok(_) => panic!("unequal buffer lengths must fail configuration"),
        Err((s, e)) => {
            assert_eq!(e, ConfigError::UnequalBufferLengths);
            assert_eq!(s.control(), 0);
            assert_eq!(s.count(), 0);
            assert_eq!(s.memory0_address(), 0);
            assert_eq!(s.memory1_address(), 0);
            assert!(!s.is_enabled());
        }
    }
}

#[test]
fn test_double_width_3_fails_both_buffers() {
    let s = take_stream0();
    let a = buffer(0x1000, 16, 3);
    let b = buffer(0x2000, 16, 3);
    let target = Target { addr: 0x4000, elem_bytes: 2 };
    match s.start_transfer::<C0>(a, b, target) {
        Ok(_) => panic!("a 3-byte element width must fail configuration"),
        Err((_, e)) => assert_eq!(e, ConfigError::UnsupportedElementSize),
    }
}

#[test]
fn test_double_start_configures_circular_double_buffer() {
    let s = Dma2.split().s5;
    let a = buffer(0x1000, 16, 2);
    let b = buffer(0x2000, 16, 2);
    let target = Target { addr: 0x4000, elem_bytes: 2 };
    let t = s.start_transfer::<C1>(a, b, target).unwrap_or_else(|_| panic!("start failed"));
    assert_eq!(t.count(), 16);
    assert_eq!(t.memory0_address(), 0x1000);
    assert_eq!(t.memory1_address(), 0x2000);
    // enable | dir=01 | circ | minc | psize=01 | msize=01 | dbm | chsel=1
    let expected =
        1 | (1 << 6) | (1 << 8) | (1 << 10) | (1 << 11) | (1 << 13) | (1 << 18) | (1 << 25);
    assert_eq!(t.control(), expected);
    assert_eq!(t.observed_target(), 0);
}

#[test]
fn test_configuration_preserves_interrupt_enables() {
    let mut s = take_stream0();
    s.listen(stm32f429_dma::event::Event::TransferComplete);
    let t = s
        .start::<C0>(buffer(0x100, 8, 1), Target { addr: 0x200, elem_bytes: 1 })
        .unwrap_or_else(|_| panic!("start failed"));
    // the transfer-complete interrupt enable, bit 4, survives configuration
    assert_eq!((t.control() >> 4) & 1, 1);
}

#[test]
fn test_poll_without_toggle_is_a_noop() {
    let s = take_stream0();
    let a = buffer(0x1000, 16, 2);
    let b = buffer(0x2000, 16, 2);
    let target = Target { addr: 0x4000, elem_bytes: 2 };
    let t = s.start_transfer::<C0>(a, b, target).unwrap_or_else(|_| panic!("start failed"));
    let control_before = t.control();
    let mut called = false;
    let t = match t.poll(|vacated| {
        called = true;
        vacated
    }) {
        Ok(t) => t,
        Err(_) => panic!("poll without error must keep the transfer live"),
    };
    assert!(!called);
    assert_eq!(t.control(), control_before);
    assert_eq!(t.count(), 16);
    assert_eq!(t.memory0_address(), 0x1000);
    assert_eq!(t.memory1_address(), 0x2000);
    assert_eq!(t.observed_target(), 0);
    // a repeated poll is just as much of a no-op
    let t = match t.poll(|vacated| vacated) {
        Ok(t) => t,
        Err(_) => panic!("poll without error must keep the transfer live"),
    };
    assert_eq!(t.control(), control_before);
    assert_eq!(t.memory0_address(), 0x1000);
    assert_eq!(t.memory1_address(), 0x2000);
}

#[test]
fn test_toggle_then_poll_replaces_vacated_buffer0() {
    let s = take_stream0();
    let a = buffer(0x1000, 16, 2);
    let b = buffer(0x2000, 16, 2);
    let target = Target { addr: 0x4000, elem_bytes: 2 };
    let mut t = s.start_transfer::<C0>(a, b, target).unwrap_or_else(|_| panic!("start failed"));
    // the engine finishes buffer 0 and switches to buffer 1
    t.device_toggle_target();
    let mut seen = Vec::new();
    let t = match t.poll(|vacated| {
        seen.push(vacated);
        buffer(0x3000, vacated.len, vacated.elem_bytes)
    }) {
        Ok(t) => t,
        Err(_) => panic!("poll without error must keep the transfer live"),
    };
    assert_eq!(seen.len(), 1);
    assert_eq!(seen[0].addr, 0x1000);
    assert_eq!(seen[0].len, 16);
    assert_eq!(t.memory0_address(), 0x3000);
    assert_eq!(t.memory1_address(), 0x2000);
    assert_eq!(t.observed_target(), 1);
}

#[test]
fn test_second_toggle_replaces_vacated_buffer1() {
    let s = take_stream0();
    let a = buffer(0x1000, 16, 2);
    let b = buffer(0x2000, 16, 2);
    let target = Target { addr: 0x4000, elem_bytes: 2 };
    let mut t = s.start_transfer::<C0>(a, b, target).unwrap_or_else(|_| panic!("start failed"));
    t.device_toggle_target();
    let mut t = match t.poll(|vacated| buffer(0x3000, vacated.len, vacated.elem_bytes)) {
        Ok(t) => t,
        Err(_) => panic!("poll without error must keep the transfer live"),
    };
    // the engine wraps back to buffer 0; buffer 1 is now vacated
    t.device_toggle_target();
    let mut seen = Vec::new();
    let t = match t.poll(|vacated| {
        seen.push(vacated);
        buffer(0x5000, vacated.len, vacated.elem_bytes)
    }) {
        Ok(t) => t,
        Err(_) => panic!("poll without error must keep the transfer live"),
    };
    assert_eq!(seen.len(), 1);
    assert_eq!(seen[0].addr, 0x2000);
    assert_eq!(t.memory0_address(), 0x3000);
    assert_eq!(t.memory1_address(), 0x5000);
    assert_eq!(t.observed_target(), 0);
}

#[test]
fn test_poll_on_error_resets_without_replace() {
    let s = take_stream0();
    let a = buffer(0x1000, 16, 2);
    let b = buffer(0x2000, 16, 2);
    let target = Target { addr: 0x4000, elem_bytes: 2 };
    let mut t = s.start_transfer::<C0>(a, b, target).unwrap_or_else(|_| panic!("start failed"));
    t.device_toggle_target();
    t.device_set_error(Error::Arbitration);
    let mut called = false;
    match t.poll(|vacated| {
        called = true;
        vacated
    }) {
        Ok(_) => panic!("poll must fail once an error is observed"),
        Err(s) => {
            assert!(!called);
            assert!(!s.is_enabled());
            assert!(!s.has_error());
            assert!(!s.is_complete());
            assert_eq!(s.index(), 0);
        }
    }
}

#[test]
fn test_double_completion_flag_visible() {
    let s = take_stream0();
    let a = buffer(0x1000, 16, 2);
    let b = buffer(0x2000, 16, 2);
    let target = Target { addr: 0x4000, elem_bytes: 2 };
    let mut t = s.start_transfer::<C0>(a, b, target).unwrap_or_else(|_| panic!("start failed"));
    assert!(!t.is_complete());
    t.device_set_complete();
    assert!(t.is_complete());
    assert!(!t.has_error());
}
