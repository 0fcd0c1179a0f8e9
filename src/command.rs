//! Outbound LED commands: `[0xFF, brightness, well bytes...]`.
use vstd::prelude::*;
use crate::microplate::MicroPlate;
use crate::microwell::MicroWell;
use crate::revision::{AddressMap, Revision, WELL_COUNT, LED_CHANNEL_LIMIT, entries_distinct};

verus! {

/// First byte of every command: begin LED configuration.
pub const COMMAND_START: u8 = 0xFF;

/// Brightness byte that drives no LED at all.
pub const BRIGHTNESS_OFF: u8 = 0xFF;

/// Marker bit that tells a well byte from the leading control bytes.
pub const WELL_MARKER: u8 = 0x80;

pub open spec fn clamp_percent(p: int) -> int {
    if p < 0 {
        0
    } else if p > 100 {
        100
    } else {
        p
    }
}

/// `round(255 * (1 - p / 100))` for `p` clamped to `[0, 100]`, halves rounded up:
/// the device's brightness scale is inverted, 0 being full intensity.
pub open spec fn brightness_byte_of(p: int) -> int {
    (255 * (100 - clamp_percent(p)) + 50) / 100
}

/// Byte that lights LED channel `channel` at device code `code`.
pub open spec fn well_byte_of(channel: u8, code: u8) -> u8 {
    (0x80 + 4 * channel + code) as u8
}

/// A well that is to be lit: switched on, neither disabled nor damaged.
pub open spec fn lit(w: MicroWell) -> bool {
    w.led_on && w.usable()
}

/// Well bytes for the wells `ws`, which are the first wells of the grid, in grid order.
pub open spec fn well_bytes(ws: Seq<MicroWell>, map: AddressMap, code: u8) -> Seq<u8>
    decreases ws.len(),
{
    if ws.len() == 0 {
        Seq::empty()
    } else {
        let rest = well_bytes(ws.drop_last(), map, code);
        let i = ws.len() - 1;
        if lit(ws.last()) && map.channel_of(i) is Some {
            rest.push(well_byte_of(map.channel_of(i)->0, code))
        } else {
            rest
        }
    }
}

/// The command that shows `plate` on revision `rev`.
pub open spec fn command_of(plate: MicroPlate, rev: Revision) -> Seq<u8> {
    seq![COMMAND_START, brightness_byte_of(plate.brightness as int) as u8]
        + well_bytes(plate.wells@, rev.address, rev.wavelengths.code_of(plate.wavelength))
}

/// Device brightness byte for a brightness in percent; out-of-range
/// percentages are clamped to `[0, 100]` first.
pub fn brightness_byte(percent: i32) -> (r: u8)
    ensures
        r as int == brightness_byte_of(percent as int),
        -50 < 100 * (r as int) - 255 * (100 - clamp_percent(percent as int)) <= 50,
{
    let p: u32 = if percent < 0 {
        0
    } else if percent > 100 {
        100
    } else {
        percent as u32
    };
    let x = 255 * (100 - p) + 50;
    let b = x / 100;
    assert(100 * ((x as int) / 100) <= (x as int) < 100 * ((x as int) / 100) + 100) by (nonlinear_arith);
    b as u8
}

/// Byte that lights LED channel `channel` at device code `code`: `0x80 | (channel * 4 + code)`.
pub fn well_byte(channel: u8, code: u8) -> (r: u8)
    requires
        channel < LED_CHANNEL_LIMIT,
        code < 4,
    ensures
        r == well_byte_of(channel, code),
{
    let x: u8 = channel * 4 + code;
    assert(x < 128 ==> 0x80u8 | x == (0x80u8 + x) as u8) by (bit_vector);
    WELL_MARKER | x
}

/// The command that shows `plate` on revision `rev`: the start byte, the
/// brightness byte, then one byte for each lit well that has an LED channel,
/// in grid order. Wells without a channel are skipped.
pub fn encode_leds(plate: &MicroPlate, rev: &Revision) -> (r: Vec<u8>)
    requires
        plate.wf(),
        rev.wf(),
    ensures
        r@ == command_of(*plate, *rev),
{
    let code = rev.wavelengths.code(plate.wavelength);
    let mut r: Vec<u8> = Vec::new();
    r.push(COMMAND_START);
    r.push(brightness_byte(plate.brightness));
    let ghost head = r@;
    let mut i: usize = 0;
    while i < WELL_COUNT
        invariant
            plate.wells@.len() == WELL_COUNT,
            rev.wf(),
            code == rev.wavelengths.code_of(plate.wavelength),
            code < 4,
            i <= WELL_COUNT,
            head == seq![COMMAND_START, brightness_byte_of(plate.brightness as int) as u8],
            r@ == head + well_bytes(plate.wells@.take(i as int), rev.address, code),
        decreases WELL_COUNT - i,
    {
        let ghost prefix = plate.wells@.take(i + 1);
        assert(prefix.drop_last() =~= plate.wells@.take(i as int));
        assert(prefix.last() == plate.wells@[i as int]);
        let w = &plate.wells[i];
        if w.led_on && !w.disabled && !w.damaged {
            if let Some(c) = rev.address.physical_channel(i) {
                r.push(well_byte(c, code));
                assert(r@ =~= head + well_bytes(prefix, rev.address, code));
            }
        }
        i += 1;
    }
    assert(plate.wells@.take(WELL_COUNT as int) =~= plate.wells@);
    r
}

/// The command that turns every LED off: `[0xFF, 0xFF]`, whatever the grid holds.
pub fn encode_all_off() -> (r: Vec<u8>)
    ensures
        r@ == seq![COMMAND_START, BRIGHTNESS_OFF],
{
    let mut r: Vec<u8> = Vec::new();
    r.push(COMMAND_START);
    r.push(BRIGHTNESS_OFF);
    r
}

proof fn lemma_well_byte_injective(c1: u8, c2: u8, code: u8)
    requires
        c1 < LED_CHANNEL_LIMIT,
        c2 < LED_CHANNEL_LIMIT,
        code < 4,
        well_byte_of(c1, code) == well_byte_of(c2, code),
    ensures
        c1 == c2,
{
}

/// Each well byte stands for a lit well with an LED channel.
proof fn lemma_well_bytes_sources(ws: Seq<MicroWell>, map: AddressMap, code: u8, k: int)
    requires
        0 <= k < well_bytes(ws, map, code).len(),
    ensures
        exists|i: int|
            0 <= i < ws.len() && lit(#[trigger] ws[i]) && map.channel_of(i) is Some
                && well_bytes(ws, map, code)[k] == well_byte_of(map.channel_of(i)->0, code),
    decreases ws.len(),
{
    let rest = well_bytes(ws.drop_last(), map, code);
    if k < rest.len() {
        lemma_well_bytes_sources(ws.drop_last(), map, code, k);
        let i = choose|i: int|
            0 <= i < ws.drop_last().len() && lit(#[trigger] ws.drop_last()[i]) && map.channel_of(i) is Some
                && rest[k] == well_byte_of(map.channel_of(i)->0, code);
        assert(ws[i] == ws.drop_last()[i]);
    } else {
        let i = ws.len() - 1;
        assert(ws[i] == ws.last());
    }
}

/// A disabled well never appears in a command, whatever its illumination
/// flag: no byte after the two leading ones is the byte of its LED channel.
pub proof fn lemma_disabled_well_never_encoded(plate: MicroPlate, rev: Revision, w: int)
    requires
        plate.wf(),
        rev.wf(),
        0 <= w < WELL_COUNT,
        plate.wells@[w].disabled,
    ensures
        rev.address.channel_of(w) matches Some(c) ==> forall|k: int|
            2 <= k < command_of(plate, rev).len()
                ==> #[trigger] command_of(plate, rev)[k] != well_byte_of(c, rev.wavelengths.code_of(plate.wavelength)),
{
    if let Some(c) = rev.address.channel_of(w) {
        let code = rev.wavelengths.code_of(plate.wavelength);
        let cmd = command_of(plate, rev);
        let bytes = well_bytes(plate.wells@, rev.address, code);
        assert forall|k: int| 2 <= k < cmd.len() implies #[trigger] cmd[k] != well_byte_of(c, code) by {
            assert(cmd[k] == bytes[k - 2]);
            lemma_well_bytes_sources(plate.wells@, rev.address, code, k - 2);
            let i = choose|i: int|
                0 <= i < plate.wells@.len() && lit(#[trigger] plate.wells@[i]) && rev.address.channel_of(i) is Some
                    && bytes[k - 2] == well_byte_of(rev.address.channel_of(i)->0, code);
            if cmd[k] == well_byte_of(c, code) {
                lemma_well_byte_injective(c, rev.address.channel_of(i)->0, code);
                assert(rev.address.led@[i] == rev.address.led@[w]);
                assert(entries_distinct(rev.address.led@));
            }
        }
    }
}

} // verus!
