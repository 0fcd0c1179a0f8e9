use dashboard::command::encode_leds;
use dashboard::revision::Revision;
use dashboard::sequence::{Sequence, SequenceAction};
use dashboard::serial::{PortEntry, Serial};

fn three_patterns() -> Sequence {
    let mut seq = Sequence::new();
    seq.add_pattern();
    seq.add_pattern();
    seq.plates[0].duration = 2;
    seq.plates[1].duration = 3;
    seq.plates[2].duration = 4;
    seq
}

#[test]
fn run_steps_through_patterns_then_stops() {
    let mut seq = three_patterns();
    seq.plates[0].wells[0].measurement = 7;
    assert_eq!(seq.start(), SequenceAction::ShowCurrent);
    assert!(seq.running);
    assert_eq!(seq.current, 0);
    assert_eq!(seq.plates[0].wells[0].measurement, 0);
    assert_eq!(seq.tick(1), SequenceAction::Idle);
    assert_eq!(seq.tick(2), SequenceAction::ShowCurrent);
    assert_eq!(seq.current, 1);
    assert_eq!(seq.tick(2), SequenceAction::Idle);
    assert_eq!(seq.tick(3), SequenceAction::ShowCurrent);
    assert_eq!(seq.current, 2);
    assert_eq!(seq.tick(4), SequenceAction::AllOff);
    assert!(!seq.running);
    assert_eq!(seq.tick(100), SequenceAction::Idle);
}

#[test]
fn stop_turns_everything_off() {
    let mut seq = three_patterns();
    seq.start();
    assert_eq!(seq.stop(), SequenceAction::AllOff);
    assert!(!seq.running);
    assert_eq!(seq.tick(10), SequenceAction::Idle);
}

#[test]
fn command_bytes_for_each_action() {
    let rev = Revision::reference().unwrap();
    let mut seq = three_patterns();
    seq.plates[1].brightness = 100;
    seq.select(1);
    assert!(seq.command_bytes(SequenceAction::Idle, &rev).is_empty());
    assert_eq!(seq.command_bytes(SequenceAction::AllOff, &rev), vec![0xFF, 0xFF]);
    let mut expected = vec![0xFF, 0xFF];
    expected.extend(encode_leds(&seq.plates[1], &rev));
    assert_eq!(seq.command_bytes(SequenceAction::ShowCurrent, &rev), expected);
    assert_eq!(expected[2..4], [0xFF, 0x00]);
}

#[test]
fn seconds_left_counts_down() {
    let seq = three_patterns();
    assert_eq!(seq.total_duration(), 9);
    assert_eq!(seq.seconds_left(0), 9);
    assert_eq!(seq.seconds_left(4), 5);
    assert_eq!(seq.seconds_left(9), 0);
    assert_eq!(seq.seconds_left(20), 0);
    let mut long = three_patterns();
    long.plates[0].duration = u64::MAX;
    assert_eq!(long.total_duration(), u64::MAX);
}

#[test]
fn add_and_remove_patterns() {
    let mut seq = Sequence::new();
    assert!(!seq.remove_pattern());
    assert_eq!(seq.plates.len(), 1);
    seq.add_pattern();
    assert_eq!(seq.plates.len(), 2);
    assert_eq!(seq.current, 1);
    seq.plates[0].duration = 11;
    assert!(seq.remove_pattern());
    assert_eq!(seq.plates.len(), 1);
    assert_eq!(seq.current, 0);
    assert_eq!(seq.plates[0].duration, 11);
    seq.add_pattern();
    assert!(seq.select(0));
    assert!(!seq.select(2));
    assert!(seq.remove_pattern());
    assert_eq!(seq.current, 0);
    assert_eq!(seq.plates[0].duration, 5);
}

#[test]
fn select_and_deselect_all() {
    let mut seq = three_patterns();
    seq.select(2);
    seq.set_all_leds(false);
    assert!(seq.plates[2].wells.iter().all(|w| !w.led_on));
    assert!(seq.plates[0].wells.iter().all(|w| w.led_on));
    seq.set_all_leds(true);
    assert!(seq.plates[2].wells.iter().all(|w| w.led_on));
}

#[test]
fn port_names_prefer_board_name() {
    let board = PortEntry { name: "/dev/ttyACM0".to_string(), usb_vendor: Some(0x16C0) };
    let other_usb = PortEntry { name: "/dev/ttyUSB0".to_string(), usb_vendor: Some(0x0403) };
    let plain = PortEntry { name: "/dev/ttyS0".to_string(), usb_vendor: None };
    assert_eq!(Serial::get_port_name(&board), "Teensyduino");
    assert_eq!(Serial::get_port_name(&other_usb), "/dev/ttyUSB0");
    assert_eq!(Serial::get_port_name(&plain), "/dev/ttyS0");
    let mut serial = Serial::new(vec![board, other_usb, plain]);
    assert_eq!(serial.port_names(), vec!["Teensyduino", "/dev/ttyUSB0", "/dev/ttyS0"]);
    assert_eq!(serial.selected_port_name(), "Teensyduino");
    assert_eq!(serial.selected_device().as_deref(), Some("/dev/ttyACM0"));
    serial.select(2);
    assert_eq!(serial.selected_port_name(), "/dev/ttyS0");
    serial.set_ports(vec![]);
    assert_eq!(serial.selected_port_name(), "None");
    assert_eq!(serial.selected_device(), None);
}

#[test]
fn new_patterns_are_default() {
    let mut seq = Sequence::new();
    seq.add_pattern();
    for plate in &seq.plates {
        assert_eq!(plate.brightness, 50);
        assert_eq!(plate.duration, 5);
        assert_eq!(plate.wavelength, dashboard::wavelength::Wavelength::W470nm);
        assert_eq!(plate.wells.len(), 25);
        assert_eq!(plate.wells[7].label, "F4");
        assert!(plate.wells.iter().all(|w| w.led_on && w.measurement == 0 && !w.disabled && !w.damaged));
    }
}
