//! Behavioural tests for the GPIO core, run against the port register model.

use mik32_hal::gpio::registers::{ClockControl, PortRegisters, RegWrite};
use mik32_hal::gpio::{Floating, Gpio, GpioExt, Output, PinExt, PinState};
use mik32_hal::gpio::partially_erased::PartiallyErasedPin;
use mik32_hal::peripherals::Device;

fn split_port0() -> (mik32_hal::gpio::gpio16_0::Parts, ClockControl) {
    let mut dev = Device::new();
    let p = dev.take().unwrap();
    let mut pm = ClockControl::new();
    let parts = p.gpio16_0.split(&mut pm);
    (parts, pm)
}

fn split_port2() -> (mik32_hal::gpio::gpio8_2::Parts, ClockControl) {
    let mut dev = Device::new();
    let p = dev.take().unwrap();
    let mut pm = ClockControl::new();
    let parts = p.gpio8_2.split(&mut pm);
    (parts, pm)
}

#[test]
fn output_set_high_reads_high_then_low() {
    let (parts, _pm) = split_port0();
    let mut regs = PortRegisters::new(0);
    let mut pin = parts.p16_0_4.into_output(&mut regs);
    pin.set_high(&mut regs);
    assert_eq!(pin.get_state(&regs), PinState::High);
    assert!(pin.is_set_high(&regs));
    assert!(!pin.is_set_low(&regs));
    pin.set_low(&mut regs);
    assert_eq!(pin.get_state(&regs), PinState::Low);
    assert!(pin.is_set_low(&regs));
    assert!(!pin.is_set_high(&regs));
}

#[test]
fn output_round_trip_on_every_pin_of_both_ports() {
    let (parts, _pm) = split_port2();
    let mut regs = PortRegisters::new(2);
    let mut pins = [
        parts.p8_0_0.into_output(&mut regs).erase(),
        parts.p8_0_1.into_output(&mut regs).erase(),
        parts.p8_0_2.into_output(&mut regs).erase(),
        parts.p8_0_3.into_output(&mut regs).erase(),
        parts.p8_0_4.into_output(&mut regs).erase(),
        parts.p8_0_5.into_output(&mut regs).erase(),
        parts.p8_0_6.into_output(&mut regs).erase(),
        parts.p8_0_7.into_output(&mut regs).erase(),
    ];
    for pin in pins.iter_mut() {
        pin.set_high(&mut regs);
        assert_eq!(pin.get_state(&regs), PinState::High);
        pin.set_low(&mut regs);
        assert_eq!(pin.get_state(&regs), PinState::Low);
    }
}

#[test]
fn toggle_has_period_two() {
    let (parts, _pm) = split_port0();
    let mut regs = PortRegisters::new(0);
    let mut pin = parts.p16_0_11.into_output(&mut regs);
    pin.set_high(&mut regs);
    let before = pin.get_state(&regs);
    let word_before = regs.output;
    pin.toggle(&mut regs);
    assert_ne!(pin.get_state(&regs), before);
    pin.toggle(&mut regs);
    assert_eq!(pin.get_state(&regs), before);
    assert_eq!(regs.output, word_before);
}

#[test]
fn pad_config_writes_are_field_isolated() {
    let (parts, _pm) = split_port0();
    let mut regs = PortRegisters::new(0);
    // Give the neighbours distinctive fields first.
    let p2 = parts.p16_0_2.into_pull_down_input(&mut regs);
    let p4 = parts.p16_0_4.into_pull_up_input(&mut regs);
    let snapshot = regs.pad_pupd;
    let cfg_snapshot = regs.pad_cfg;
    let _p3 = parts.p16_0_3.into_pull_up_input(&mut regs);
    // Pin 3's own field now holds the pull-up code.
    assert_eq!((regs.pad_pupd >> 6) & 0b11, 0b01);
    // Every other pin's 2-bit field is unchanged, bit for bit.
    for m in 0..16u32 {
        if m != 3 {
            assert_eq!(
                (regs.pad_pupd >> (2 * m)) & 0b11,
                (snapshot >> (2 * m)) & 0b11,
                "pull field of pin {m} changed"
            );
        }
    }
    // The function-selection register is untouched by a pull write.
    assert_eq!(regs.pad_cfg, cfg_snapshot);
    let _ = (p2, p4);
}

#[test]
fn pull_codes_write_exact_values() {
    let (parts, _pm) = split_port2();
    let mut regs = PortRegisters::new(2);
    let p5 = parts.p8_0_5.into_pull_down_input(&mut regs);
    // Pull-down code 0b10 packed at bit 10 and nothing else.
    assert_eq!(regs.pad_pupd, 0b10 << 10);
    let p5 = p5.into_pull_up_input(&mut regs);
    assert_eq!(regs.pad_pupd, 0b01 << 10);
    let _p5 = p5.into_floating_input(&mut regs);
    assert_eq!(regs.pad_pupd, 0);
}

#[test]
fn pull_round_trip_restores_pad_word() {
    let (parts, _pm) = split_port0();
    let mut regs = PortRegisters::new(0);
    let p1 = parts.p16_0_1.into_pull_up_input(&mut regs);
    let p6 = parts.p16_0_6.into_floating_input(&mut regs);
    let before = regs.pad_pupd;
    let p6 = p6.into_pull_up_input(&mut regs);
    assert_ne!(regs.pad_pupd, before);
    let _p6 = p6.into_floating_input(&mut regs);
    assert_eq!(regs.pad_pupd, before);
    let _ = p1;
}

#[test]
fn into_output_writes_level_before_direction() {
    let (parts, _pm) = split_port0();
    let mut regs = PortRegisters::new(0);
    let len_before = regs.trace.len();
    let _pin = parts.p16_0_9.into_output(&mut regs);
    assert_eq!(regs.trace.len(), len_before + 2);
    // The level-setting write comes strictly before the direction write.
    assert_eq!(regs.trace[len_before], RegWrite::LevelClear(1 << 9));
    assert_eq!(regs.trace[len_before + 1], RegWrite::DirectionOut(1 << 9));
}

#[test]
fn typed_and_erased_pins_agree_on_identity() {
    let (parts, _pm) = split_port0();
    let typed = parts.p16_0_13;
    let typed_pin = typed.pin_id();
    let typed_port = typed.port_id();
    let erased = typed.erase();
    assert_eq!(erased.pin_id(), typed_pin);
    assert_eq!(erased.port_id(), typed_port);
    let constructed: PartiallyErasedPin<0, Output> = PartiallyErasedPin::new(13).unwrap();
    assert_eq!(constructed.pin_id(), typed_pin);
    assert_eq!(constructed.port_id(), typed_port);
    assert_eq!(typed_pin, 13);
    assert_eq!(typed_port, 0);
}

#[test]
fn erased_pin_index_is_checked_at_construction() {
    // An index at or above the port's width is rejected, not tolerated.
    assert!(PartiallyErasedPin::<0, Output>::new(16).is_none());
    assert!(PartiallyErasedPin::<2, Output>::new(8).is_none());
    assert!(PartiallyErasedPin::<2, Output>::new(255).is_none());
    // The largest legal index of each port is accepted.
    assert!(PartiallyErasedPin::<0, Output>::new(15).is_some());
    assert!(PartiallyErasedPin::<2, Output>::new(7).is_some());
    // A port identifier outside the port table is rejected too.
    assert!(PartiallyErasedPin::<3, Output>::new(0).is_none());
}

#[test]
fn eight_pin_port_toggle_sequence() {
    let (parts, _pm) = split_port2();
    let mut regs = PortRegisters::new(2);
    let mut pin = parts.p8_0_7.into_output(&mut regs);
    let mut seen = vec![pin.get_state(&regs)];
    for _ in 0..3 {
        pin.toggle(&mut regs);
        seen.push(pin.get_state(&regs));
    }
    assert_eq!(
        seen,
        vec![PinState::Low, PinState::High, PinState::Low, PinState::High]
    );
}

#[test]
fn input_pin_reads_externally_driven_level() {
    let (parts, _pm) = split_port0();
    let mut regs = PortRegisters::new(0);
    let pin = parts.p16_0_8.into_floating_input(&mut regs);
    assert!(pin.is_low(&regs));
    assert!(!pin.is_high(&regs));
    regs.external |= 1 << 8;
    assert!(pin.is_high(&regs));
    assert!(!pin.is_low(&regs));
    // The erased sibling reads the same level.
    let erased: PartiallyErasedPin<0, mik32_hal::gpio::Input<Floating>> = pin.erase();
    assert!(erased.is_high(&regs));
}

#[test]
fn serial_mode_rewrites_only_the_function_field() {
    let (parts, _pm) = split_port0();
    let mut regs = PortRegisters::new(0);
    let p5 = parts.p16_0_5.into_pull_up_input(&mut regs);
    let pupd_before = regs.pad_pupd;
    let _tx = parts.p16_0_6.into_serial_port(&mut regs);
    // Pin 6's function field holds the serial code, packed at bit 12.
    assert_eq!(regs.pad_cfg, 0b01 << 12);
    // Direction is input and the pull register is untouched.
    assert_eq!(regs.direction & (1 << 6), 0);
    assert_eq!(regs.pad_pupd, pupd_before);
    let _ = p5;
}

#[test]
fn set_state_drives_the_written_state() {
    let (parts, _pm) = split_port2();
    let mut regs = PortRegisters::new(2);
    let mut pin = parts.p8_0_0.into_output(&mut regs);
    pin.set_state(&mut regs, PinState::High);
    assert_eq!(pin.get_state(&regs), PinState::High);
    pin.set_state(&mut regs, PinState::Low);
    assert_eq!(pin.get_state(&regs), PinState::Low);
}

#[test]
fn partially_erased_output_operations() {
    let (parts, _pm) = split_port0();
    let mut regs = PortRegisters::new(0);
    let mut pe = parts.p16_0_2.into_output(&mut regs).erase();
    pe.set_high(&mut regs);
    assert_eq!(pe.get_state(&regs), PinState::High);
    assert!(pe.is_set_high(&regs));
    pe.set_state(&mut regs, PinState::Low);
    assert!(pe.is_set_low(&regs));
    let before = pe.get_state(&regs);
    pe.toggle(&mut regs);
    pe.toggle(&mut regs);
    assert_eq!(pe.get_state(&regs), before);
}

#[test]
fn input_transition_sets_direction_before_pad_write() {
    let (parts, _pm) = split_port0();
    let mut regs = PortRegisters::new(0);
    let len_before = regs.trace.len();
    let _pin = parts.p16_0_10.into_pull_up_input(&mut regs);
    assert_eq!(regs.trace.len(), len_before + 2);
    assert_eq!(regs.trace[len_before], RegWrite::DirectionIn(1 << 10));
    assert_eq!(regs.trace[len_before + 1], RegWrite::PadPupd(0b01 << 20));
}

#[test]
fn identity_agrees_on_the_eight_pin_port() {
    let (parts, _pm) = split_port2();
    let typed = parts.p8_0_6;
    assert_eq!(typed.pin_id(), 6);
    assert_eq!(typed.port_id(), 2);
    let erased = typed.erase();
    assert_eq!(erased.pin_id(), 6);
    assert_eq!(erased.port_id(), 2);
}

#[test]
fn register_locator_maps_ports_to_their_bases() {
    assert_eq!(Gpio::<0>::ptr(), 0x0008_4000);
    assert_eq!(Gpio::<1>::ptr(), 0x0008_4400);
    assert_eq!(Gpio::<2>::ptr(), 0x0008_4800);
}

#[test]
fn split_opens_the_port_clock_gate() {
    let mut dev = Device::new();
    let p = dev.take().unwrap();
    let mut pm = ClockControl::new();
    let _parts0 = p.gpio16_0.split(&mut pm);
    assert_eq!(pm.clk_apb_p, 0x1000);
    let _parts2 = p.gpio8_2.split(&mut pm);
    assert_eq!(pm.clk_apb_p, 0x1000 | 0x4000);
}
