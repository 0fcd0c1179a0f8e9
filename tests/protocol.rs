use dashboard::command::{brightness_byte, encode_all_off, encode_leds, well_byte};
use dashboard::microplate::MicroPlate;
use dashboard::microwell::MicroWell;
use dashboard::revision::{AddressMap, ConfigError, Layout, Revision, WavelengthTable};
use dashboard::telemetry::{apply_to_grid, decode_frame, frame_from_bytes, TelemetryFrame, TelemetryStream};
use dashboard::wavelength::Wavelength;

const ALL: [Wavelength; 4] = [Wavelength::W470nm, Wavelength::W570nm, Wavelength::W630nm, Wavelength::W850nm];

fn reference() -> Revision {
    Revision::reference().expect("reference tables are valid")
}

fn reference_plate() -> MicroPlate {
    let rev = reference();
    let mut plate = MicroPlate::default();
    plate.apply_layout(&rev.layout);
    plate
}

/// A revision whose map sends well 0 to channel 5 and well 1 to channel 6.
fn two_well_revision() -> Revision {
    let mut led = vec![None; 25];
    led[0] = Some(5);
    led[1] = Some(6);
    let address = AddressMap::new(led, vec![None; 16]).unwrap();
    let layout = Layout::new(vec![false; 25], vec![vec![false; 25]; 4]).unwrap();
    Revision { wavelengths: WavelengthTable::reference(), address, layout }
}

fn measurements(plate: &MicroPlate) -> Vec<u16> {
    plate.wells.iter().map(|w| w.measurement).collect()
}

#[test]
fn to_u8_gives_reference_codes() {
    assert_eq!(Wavelength::W470nm.to_u8(), 0);
    assert_eq!(Wavelength::W570nm.to_u8(), 3);
    assert_eq!(Wavelength::W630nm.to_u8(), 2);
    assert_eq!(Wavelength::W850nm.to_u8(), 1);
}

#[test]
fn reference_codes_are_a_bijection() {
    let table = WavelengthTable::reference();
    let mut seen = [false; 4];
    for w in ALL {
        assert_eq!(table.code(w), w.to_u8());
        seen[table.code(w) as usize] = true;
    }
    assert!(seen.iter().all(|s| *s));
}

#[test]
fn wavelength_table_rejects_bad_codes() {
    assert_eq!(WavelengthTable::new(vec![0, 1, 2]).unwrap_err(), ConfigError::WrongTableLength);
    assert_eq!(WavelengthTable::new(vec![0, 1, 2, 4]).unwrap_err(), ConfigError::CodeOutOfRange);
    assert_eq!(WavelengthTable::new(vec![0, 1, 1, 3]).unwrap_err(), ConfigError::DuplicateCode);
    let swapped = WavelengthTable::new(vec![2, 3, 0, 1]).unwrap();
    assert_eq!(swapped.code(Wavelength::W470nm), 2);
    assert_eq!(swapped.code(Wavelength::W630nm), 0);
}

#[test]
fn wavelength_colors_and_labels() {
    let c = Wavelength::W630nm.get_color();
    assert_eq!((c.r, c.g, c.b), (251, 146, 60));
    let h = Wavelength::W470nm.get_hovered_color();
    assert_eq!((h.r, h.g, h.b), (147, 197, 253));
    assert_eq!(Wavelength::W850nm.label(), "850nm");
    assert_eq!(Wavelength::default(), Wavelength::W470nm);
    for (i, w) in ALL.iter().enumerate() {
        assert_eq!(w.ordinal(), i);
        assert_eq!(Wavelength::from_ordinal(i), *w);
    }
}

#[test]
fn brightness_byte_inverts_and_rounds() {
    assert_eq!(brightness_byte(100), 0);
    assert_eq!(brightness_byte(0), 255);
    assert_eq!(brightness_byte(50), 128);
    assert_eq!(brightness_byte(90), 26);
    assert_eq!(brightness_byte(1), 252);
    for p in 0..=100i32 {
        let exact = (255 * (100 - p)) as f64 / 100.0;
        assert_eq!(brightness_byte(p) as f64, exact.round(), "percent {}", p);
    }
}

#[test]
fn brightness_byte_clamps_out_of_range() {
    assert_eq!(brightness_byte(-10), 255);
    assert_eq!(brightness_byte(i32::MIN), 255);
    assert_eq!(brightness_byte(150), 0);
    assert_eq!(brightness_byte(i32::MAX), 0);
}

#[test]
fn well_byte_packs_channel_and_code() {
    assert_eq!(well_byte(5, 0), 0x94);
    assert_eq!(well_byte(31, 3), 0xFF);
    assert_eq!(well_byte(0, 2), 0x82);
}

#[test]
fn encode_two_wells_round_trip() {
    let rev = two_well_revision();
    let mut plate = MicroPlate::default();
    plate.brightness = 100;
    plate.set_all_leds(false);
    assert!(plate.toggle_well(0));
    assert!(plate.toggle_well(1));
    let code = Wavelength::W470nm.to_u8();
    assert_eq!(
        encode_leds(&plate, &rev),
        vec![0xFF, 0x00, 0x80 | (5 * 4 + code), 0x80 | (6 * 4 + code)]
    );
}

#[test]
fn encode_reference_plate() {
    let rev = reference();
    let plate = reference_plate();
    assert_eq!(
        encode_leds(&plate, &rev),
        vec![
            0xFF, 0x80, 0xBC, 0xB8, 0x8C, 0x88, 0xB0, 0xAC, 0xB4, 0x80, 0x84, 0xA8, 0x9C, 0x98,
            0xA0, 0xA4, 0x90, 0x94
        ]
    );
}

#[test]
fn encode_uses_revision_wavelength_code() {
    let mut rev = two_well_revision();
    rev.wavelengths = WavelengthTable::new(vec![2, 3, 0, 1]).unwrap();
    let mut plate = MicroPlate::default();
    plate.brightness = 100;
    plate.set_all_leds(false);
    plate.toggle_well(1);
    assert_eq!(encode_leds(&plate, &rev), vec![0xFF, 0x00, 0x80 | (6 * 4 + 2)]);
}

#[test]
fn disabled_well_never_encoded() {
    // well 0 has LED channel 15; this layout cuts it out
    let mut disabled = vec![false; 25];
    disabled[0] = true;
    let rev = Revision {
        wavelengths: WavelengthTable::reference(),
        address: reference().address,
        layout: Layout::new(disabled, vec![vec![false; 25]; 4]).unwrap(),
    };
    let mut plate = MicroPlate::default();
    plate.apply_layout(&rev.layout);
    assert!(plate.wells[0].disabled);
    assert!(plate.wells[0].led_on);
    for w in ALL {
        plate.wavelength = w;
        let bytes = encode_leds(&plate, &rev);
        let code = rev.wavelengths.code(w);
        assert!(!bytes[2..].contains(&(0x80 | (15 * 4 + code))));
        assert_eq!(bytes.len(), 2 + 15);
    }
    let mut only = MicroPlate::default();
    only.set_all_leds(false);
    only.wells[0].led_on = true;
    only.apply_layout(&rev.layout);
    assert_eq!(encode_leds(&only, &rev), vec![0xFF, 0x80]);
}

#[test]
fn reference_board_lights_wired_wells_only() {
    let rev = reference();
    let plate = reference_plate();
    let enabled: Vec<usize> = (0..25).filter(|i| !plate.wells[*i].disabled).collect();
    let wired: Vec<usize> = (0..25).filter(|i| rev.address.physical_channel(*i).is_some()).collect();
    assert_eq!(enabled, wired);
    assert!(!plate.wells[6].disabled);
    assert_eq!(rev.address.physical_channel(6), Some(12));
    assert_eq!(rev.address.well_index(0, 2), Some(6));
}

#[test]
fn unlit_and_unmapped_wells_emit_nothing() {
    let rev = two_well_revision();
    let mut plate = MicroPlate::default();
    plate.brightness = 0;
    plate.set_all_leds(true);
    plate.toggle_well(0);
    // wells 2..25 are lit but have no channel on this revision
    assert_eq!(encode_leds(&plate, &rev), vec![0xFF, 0xFF, 0x80 | 24]);
}

#[test]
fn encode_all_off_is_two_bytes() {
    assert_eq!(encode_all_off(), vec![0xFF, 0xFF]);
    let mut plate = reference_plate();
    plate.set_all_leds(true);
    assert_eq!(encode_all_off(), vec![0xFF, 0xFF]);
}

#[test]
fn damaged_wells_follow_wavelength() {
    let mut damage = vec![vec![false; 25]; 4];
    damage[1][3] = true;
    damage[1][4] = true;
    damage[2][0] = true;
    let layout = Layout::new(vec![false; 25], damage).unwrap();
    let rev = Revision {
        wavelengths: WavelengthTable::reference(),
        address: reference().address,
        layout,
    };
    let mut plate = MicroPlate::default();
    plate.brightness = 100;
    plate.set_wavelength(Wavelength::W570nm, &rev.layout);
    let damaged: Vec<usize> = (0..25).filter(|i| plate.wells[*i].damaged).collect();
    assert_eq!(damaged, vec![3, 4]);
    let bytes = encode_leds(&plate, &rev);
    // wells 3 and 4 use channels 3 and 2; code 3 at 570 nm
    assert!(!bytes[2..].contains(&(0x80 | (3 * 4 + 3))));
    assert!(!bytes[2..].contains(&(0x80 | (2 * 4 + 3))));
    assert!(!plate.toggle_well(3));
    plate.set_wavelength(Wavelength::W630nm, &rev.layout);
    let damaged: Vec<usize> = (0..25).filter(|i| plate.wells[*i].damaged).collect();
    assert_eq!(damaged, vec![0]);
}

#[test]
fn recompute_damage_twice_equals_once() {
    let mut damage = vec![vec![false; 25]; 4];
    damage[0][7] = true;
    damage[0][12] = true;
    let layout = Layout::new(vec![false; 25], damage).unwrap();
    let mut plate = MicroPlate::default();
    plate.wells[1].damaged = true;
    plate.recompute_damage(&layout);
    let once: Vec<bool> = plate.wells.iter().map(|w| w.damaged).collect();
    plate.recompute_damage(&layout);
    let twice: Vec<bool> = plate.wells.iter().map(|w| w.damaged).collect();
    assert_eq!(once, twice);
    let expected: Vec<bool> = (0..25).map(|i| i == 7 || i == 12).collect();
    assert_eq!(once, expected);
}

#[test]
fn decode_frame_splits_header() {
    assert_eq!(
        decode_frame(&[0x00, 0x34, 0x12]),
        Some(TelemetryFrame { bank: 0, channel: 0, value: 0x1234 })
    );
    assert_eq!(
        frame_from_bytes(0x85, 0xFF, 0x01),
        TelemetryFrame { bank: 1, channel: 5, value: 0x01FF }
    );
    assert_eq!(decode_frame(&[0x00, 0x34]), None);
    assert_eq!(decode_frame(&[]), None);
}

#[test]
fn short_buffer_is_not_consumed() {
    let mut stream = TelemetryStream::new();
    stream.push(&[0x00, 0x34]);
    assert_eq!(stream.try_decode_frame(), None);
    assert_eq!(stream.try_decode_frame(), None);
    stream.push(&[0x12]);
    assert_eq!(
        stream.try_decode_frame(),
        Some(TelemetryFrame { bank: 0, channel: 0, value: 0x1234 })
    );
    assert_eq!(stream.try_decode_frame(), None);
}

#[test]
fn frame_for_unmapped_channel_is_dropped() {
    let rev = reference();
    let mut plate = reference_plate();
    let before = measurements(&plate);
    for header in [0x08u8, 0x7F, 0x88, 0xFF] {
        let frame = decode_frame(&[header, 0x34, 0x12]).unwrap();
        assert!(!apply_to_grid(&frame, &rev.address, &mut plate));
        assert_eq!(measurements(&plate), before);
    }
    let mut sparse = MicroPlate::default();
    let map = two_well_revision().address;
    let frame = TelemetryFrame { bank: 0, channel: 0, value: 9 };
    assert!(!apply_to_grid(&frame, &map, &mut sparse));
    assert!(sparse.wells.iter().all(|w| w.measurement == 0));
}

#[test]
fn frame_updates_mapped_well() {
    let rev = reference();
    let mut plate = reference_plate();
    // bank 0 channel 4 reports well 0; bank 1 channel 2 reports well 24
    let frame = decode_frame(&[0x04, 0x34, 0x12]).unwrap();
    assert!(apply_to_grid(&frame, &rev.address, &mut plate));
    assert_eq!(plate.wells[0].measurement, 0x1234);
    let frame = decode_frame(&[0x82, 0x10, 0x00]).unwrap();
    assert!(apply_to_grid(&frame, &rev.address, &mut plate));
    assert_eq!(plate.wells[24].measurement, 0x10);
    let changed: Vec<usize> = (0..25).filter(|i| plate.wells[*i].measurement != 0).collect();
    assert_eq!(changed, vec![0, 24]);
}

#[test]
fn frame_for_disabled_well_is_dropped() {
    let rev = reference();
    let mut plate = reference_plate();
    // bank 0 channel 0 reports well 9, which the reference board lacks
    let frame = decode_frame(&[0x00, 0x34, 0x12]).unwrap();
    assert!(!apply_to_grid(&frame, &rev.address, &mut plate));
    assert_eq!(plate.wells[9].measurement, 0);
}

#[test]
fn drain_applies_every_complete_frame() {
    let rev = reference();
    let mut plate = reference_plate();
    let mut stream = TelemetryStream::new();
    stream.push(&[0x04, 0x01, 0x00, 0x06, 0x02, 0x00, 0x04]);
    assert_eq!(stream.drain_into(&rev.address, &mut plate), 2);
    assert_eq!(plate.wells[0].measurement, 1);
    assert_eq!(plate.wells[2].measurement, 2);
    stream.push(&[0x05, 0x01]);
    assert_eq!(stream.drain_into(&rev.address, &mut plate), 1);
    assert_eq!(plate.wells[0].measurement, 0x0105);
    assert_eq!(stream.drain_into(&rev.address, &mut plate), 0);
    assert_eq!(stream.try_decode_frame(), None);
}

#[test]
fn address_map_rejects_bad_tables() {
    let led = || {
        let mut v = vec![None; 25];
        v[0] = Some(1);
        v[1] = Some(2);
        v
    };
    let sensor = || {
        let mut v = vec![None; 16];
        v[0] = Some(0);
        v
    };
    assert!(AddressMap::new(led(), sensor()).is_ok());
    assert_eq!(AddressMap::new(vec![None; 24], sensor()).unwrap_err(), ConfigError::WrongTableLength);
    assert_eq!(AddressMap::new(led(), vec![None; 17]).unwrap_err(), ConfigError::WrongTableLength);
    let mut far = led();
    far[3] = Some(32);
    assert_eq!(AddressMap::new(far, sensor()).unwrap_err(), ConfigError::ChannelOutOfRange);
    let mut dup = led();
    dup[24] = Some(2);
    assert_eq!(AddressMap::new(dup, sensor()).unwrap_err(), ConfigError::DuplicateChannel);
    let mut outside = sensor();
    outside[15] = Some(25);
    assert_eq!(AddressMap::new(led(), outside).unwrap_err(), ConfigError::WellOutOfRange);
    let mut twice = sensor();
    twice[9] = Some(0);
    assert_eq!(AddressMap::new(led(), twice).unwrap_err(), ConfigError::DuplicateWell);
}

#[test]
fn address_map_lookups() {
    let map = reference().address;
    assert_eq!(map.physical_channel(0), Some(15));
    assert_eq!(map.physical_channel(1), None);
    assert_eq!(map.physical_channel(13), Some(0));
    assert_eq!(map.physical_channel(25), None);
    assert_eq!(map.well_index(0, 0), Some(9));
    assert_eq!(map.well_index(1, 7), Some(14));
    assert_eq!(map.well_index(0, 8), None);
    assert_eq!(map.well_index(2, 0), None);
}

#[test]
fn layout_rejects_wrong_sizes() {
    assert_eq!(Layout::new(vec![false; 24], vec![vec![false; 25]; 4]).unwrap_err(), ConfigError::WrongTableLength);
    assert_eq!(Layout::new(vec![false; 25], vec![vec![false; 25]; 3]).unwrap_err(), ConfigError::WrongTableLength);
    let mut short = vec![vec![false; 25]; 4];
    short[2] = vec![false; 5];
    assert_eq!(Layout::new(vec![false; 25], short).unwrap_err(), ConfigError::WrongTableLength);
}

#[test]
fn reference_layout_cuts_cross() {
    let plate = reference_plate();
    let disabled: Vec<usize> = (0..25).filter(|i| plate.wells[*i].disabled).collect();
    assert_eq!(disabled, vec![1, 5, 7, 8, 9, 11, 15, 16, 21]);
    assert!(plate.wells.iter().all(|w| !w.damaged));
}

#[test]
fn default_plate_labels_and_settings() {
    let plate = MicroPlate::default();
    assert_eq!(plate.brightness, 50);
    assert_eq!(plate.duration, 5);
    assert_eq!(plate.wavelength, Wavelength::W470nm);
    assert_eq!(plate.wells.len(), 25);
    assert_eq!(plate.wells[0].label, "D5");
    assert_eq!(plate.wells[4].label, "H5");
    assert_eq!(plate.wells[5].label, "D4");
    assert_eq!(plate.wells[24].label, "H1");
    assert!(plate.wells.iter().all(|w| w.led_on && w.measurement == 0 && !w.disabled));
    let well = MicroWell::default();
    assert_eq!(well.label, "A1");
    assert!(well.led_on);
    let named = MicroWell::new("B2".to_string());
    assert_eq!(named.label, "B2");
}

#[test]
fn clear_resets_measurements_only() {
    let mut plate = reference_plate();
    plate.wells[0].measurement = 7;
    plate.wells[24].measurement = 9;
    plate.wells[3].led_on = false;
    plate.clear();
    assert!(plate.wells.iter().all(|w| w.measurement == 0));
    assert!(!plate.wells[3].led_on);
    assert!(plate.wells[1].disabled);
}

#[test]
fn log_row_skips_disabled_wells() {
    let mut plate = reference_plate();
    plate.wells[0].measurement = 11;
    plate.wells[1].measurement = 99;
    plate.wells[24].measurement = 5;
    let row = plate.enabled_measurements();
    assert_eq!(row.len(), 16);
    assert_eq!(row[0], 11);
    assert_eq!(row[15], 5);
    assert!(!row.contains(&99));
    let labels = plate.enabled_labels();
    assert_eq!(labels.len(), 16);
    assert_eq!(labels[0], "D5");
    assert_eq!(labels[1], "F5");
    assert_eq!(labels[4], "E4");
    assert_eq!(labels[15], "H1");
}

#[test]
fn toggle_skips_disabled_wells() {
    let mut plate = reference_plate();
    assert!(!plate.toggle_well(1));
    assert!(plate.wells[1].led_on);
    assert!(plate.toggle_well(0));
    assert!(!plate.wells[0].led_on);
    assert!(plate.toggle_well(0));
    assert!(plate.wells[0].led_on);
}
