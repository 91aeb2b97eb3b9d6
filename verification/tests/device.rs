use hx711_spi::{Bus, Error, Hx711, Mode, SimBus, SimBusError, SimDelay};

fn sim(ready: bool, chip: Mode) -> SimBus {
    SimBus {
        ready,
        fail: false,
        chip,
        sample_a128: 1000,
        sample_b32: 2000,
        sample_a64: 3000,
    }
}

#[test]
fn new_handle_starts_at_default_mode() {
    let mut dev = Hx711::new(sim(true, Mode::ChAGain128), SimDelay);
    assert_eq!(dev.mode(), Mode::ChAGain128);
    assert_eq!(dev.get_mode(), Mode::ChAGain128);
}

#[test]
fn read_decodes_the_latched_channel() {
    let mut dev = Hx711::new(sim(true, Mode::ChAGain128), SimDelay);
    assert_eq!(dev.read().unwrap(), 1000);
}

#[test]
fn read_not_ready_would_blocks() {
    let mut dev = Hx711::new(sim(false, Mode::ChAGain128), SimDelay);
    assert!(matches!(dev.read(), Err(Error::WouldBlock)));
}

#[test]
fn read_ready_never_would_blocks() {
    let mut dev = Hx711::new(sim(true, Mode::ChAGain64), SimDelay);
    for _ in 0..3 {
        assert!(!matches!(dev.read(), Err(Error::WouldBlock)));
    }
}

#[test]
fn retrieve_is_read() {
    let mut dev = Hx711::new(sim(true, Mode::ChAGain128), SimDelay);
    assert_eq!(dev.retrieve().unwrap(), 1000);
}

#[test]
fn mode_change_takes_effect_one_reading_later() {
    // The chip converts channel A gain 128 when the handle is opened.
    let mut dev = Hx711::new(sim(true, Mode::ChAGain128), SimDelay);
    assert_eq!(dev.set_mode(Mode::ChBGain32), Mode::ChBGain32);
    // The first read still returns the conversion of the old selection;
    // its trailer latches the new one.
    assert_eq!(dev.read().unwrap(), 1000);
    // The next read reflects the selection made above.
    assert_eq!(dev.read().unwrap(), 2000);
    assert_eq!(dev.read().unwrap(), 2000);
}

#[test]
fn set_mode_is_latched_on_the_handle() {
    let mut dev = Hx711::new(sim(true, Mode::ChAGain128), SimDelay);
    dev.set_mode(Mode::ChAGain64);
    assert_eq!(dev.mode(), Mode::ChAGain64);
}

#[test]
fn reset_restores_default_mode() {
    let mut dev = Hx711::new(sim(true, Mode::ChAGain128), SimDelay);
    dev.set_mode(Mode::ChAGain64);
    assert!(dev.reset().is_ok());
    assert_eq!(dev.mode(), Mode::ChAGain128);
}

#[test]
fn reset_is_idempotent() {
    for start in [Mode::ChAGain128, Mode::ChBGain32, Mode::ChAGain64] {
        let mut dev = Hx711::new(sim(true, Mode::ChAGain64), SimDelay);
        dev.set_mode(start);
        assert!(dev.reset().is_ok());
        assert_eq!(dev.mode(), Mode::ChAGain128);
        assert!(dev.reset().is_ok());
        assert_eq!(dev.mode(), Mode::ChAGain128);
        // The chip itself was power-cycled to the default selection, so the
        // very next conversion is channel A at gain 128.
        assert_eq!(dev.read().unwrap(), 1000);
    }
}

#[test]
fn disable_is_unsupported_and_touches_nothing() {
    let mut dev = Hx711::new(sim(true, Mode::ChBGain32), SimDelay);
    assert!(matches!(dev.disable(), Err(Error::Unsupported)));
    // No bus transfer happened: the pending conversion is still the one of
    // the latched selection.
    assert_eq!(dev.read().unwrap(), 2000);
}

#[test]
fn enable_is_unsupported_and_touches_nothing() {
    let mut dev = Hx711::new(sim(false, Mode::ChAGain128), SimDelay);
    assert!(matches!(dev.enable(), Err(Error::Unsupported)));
    assert_eq!(dev.mode(), Mode::ChAGain128);
}

#[test]
fn bus_error_propagates_from_read() {
    let mut bus = sim(true, Mode::ChAGain128);
    bus.fail = true;
    let mut dev = Hx711::new(bus, SimDelay);
    assert!(matches!(dev.read(), Err(Error::Bus(SimBusError))));
}

#[test]
fn bus_error_leaves_mode_unchanged_on_reset() {
    let mut bus = sim(true, Mode::ChAGain128);
    bus.fail = true;
    let mut dev = Hx711::new(bus, SimDelay);
    dev.set_mode(Mode::ChBGain32);
    assert!(matches!(dev.reset(), Err(Error::Bus(SimBusError))));
    assert_eq!(dev.mode(), Mode::ChBGain32);
}

#[test]
fn pause_ms_returns() {
    let mut dev = Hx711::new(sim(true, Mode::ChAGain128), SimDelay);
    dev.pause_ms(1);
    assert_eq!(dev.mode(), Mode::ChAGain128);
}

#[test]
fn unknown_trailer_leaves_chip_selection_alone() {
    // A raw transfer whose trailer byte is none of the three fixed trailer
    // bytes must not move the simulated chip's selection.
    let mut bus = sim(true, Mode::ChBGain32);
    let mut buf = vec![0xAA, 0xAA, 0xAA, 0xAA, 0xAA, 0xAA, 0x00];
    bus.transfer(&mut buf).unwrap();
    let mut dev = Hx711::new(bus, SimDelay);
    assert_eq!(dev.read().unwrap(), 2000);
}
