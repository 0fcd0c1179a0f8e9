//! Inbound telemetry: concatenated 3-byte frames `[header, lo, hi]`, and
//! their application to the grid.
use vstd::prelude::*;
use crate::microplate::MicroPlate;
use crate::microwell::MicroWell;
use crate::revision::{AddressMap, WELL_COUNT};

verus! {

/// Size of one telemetry frame in bytes.
pub const FRAME_LEN: usize = 3;

/// One decoded telemetry frame.
#[derive(Debug, Clone, Copy, PartialEq, Eq, Structural)]
pub struct TelemetryFrame {
    /// Bit 7 of the header: 0 or 1.
    pub bank: u8,
    /// Bits 0 to 6 of the header.
    pub channel: u8,
    /// The reading `(hi << 8) | lo`.
    pub value: u16,
}

pub open spec fn frame_of(header: u8, lo: u8, hi: u8) -> TelemetryFrame {
    TelemetryFrame {
        bank: header / 128,
        channel: header % 128,
        value: (hi as int * 256 + lo as int) as u16,
    }
}

/// The wells after one frame: the reading goes to the well that the frame's
/// slot names, if there is one and it is usable; otherwise nothing changes.
pub open spec fn applied(ws: Seq<MicroWell>, map: AddressMap, f: TelemetryFrame) -> Seq<MicroWell> {
    match map.well_of(f.bank, f.channel) {
        Some(w) => if w < ws.len() && ws[w as int].usable() {
            ws.update(w as int, MicroWell { measurement: f.value, ..ws[w as int] })
        } else {
            ws
        },
        None => ws,
    }
}

/// The wells after every complete frame at the front of `bytes`, in order.
pub open spec fn applied_all(ws: Seq<MicroWell>, map: AddressMap, bytes: Seq<u8>) -> Seq<MicroWell>
    decreases bytes.len(),
{
    if bytes.len() < FRAME_LEN {
        ws
    } else {
        applied_all(applied(ws, map, frame_of(bytes[0], bytes[1], bytes[2])), map, bytes.skip(3))
    }
}

/// Splits a frame's three bytes into bank, channel and reading.
pub fn frame_from_bytes(header: u8, lo: u8, hi: u8) -> (f: TelemetryFrame)
    ensures
        f == frame_of(header, lo, hi),
{
    let bank = header >> 7;
    let channel = header & 0x7f;
    let value = ((hi as u16) << 8) | (lo as u16);
    assert(header >> 7 == header / 128) by (bit_vector);
    assert(header & 0x7f == header % 128) by (bit_vector);
    assert((((hi as u16) << 8) | (lo as u16)) == (hi as u16) * 256 + (lo as u16)) by (bit_vector);
    TelemetryFrame { bank, channel, value }
}

/// The frame at the front of `bytes`, or `None` while fewer than three bytes are there.
pub fn decode_frame(bytes: &[u8]) -> (r: Option<TelemetryFrame>)
    ensures
        bytes@.len() < FRAME_LEN ==> r is None,
        bytes@.len() >= FRAME_LEN ==> r == Some(frame_of(bytes@[0], bytes@[1], bytes@[2])),
{
    if bytes.len() < FRAME_LEN {
        None
    } else {
        Some(frame_from_bytes(bytes[0], bytes[1], bytes[2]))
    }
}

/// Stores a frame's reading in the well that its slot names, if that well
/// exists and is usable; drops the frame otherwise. Returns whether it was stored.
pub fn apply_to_grid(frame: &TelemetryFrame, map: &AddressMap, plate: &mut MicroPlate) -> (stored: bool)
    requires
        map.wf(),
        old(plate).wf(),
    ensures
        final(plate).wells@ == applied(old(plate).wells@, *map, *frame),
        stored <==> (map.well_of(frame.bank, frame.channel) matches Some(w)
            && old(plate).wells@[w as int].usable()),
        map.well_of(frame.bank, frame.channel) is None ==> final(plate).wells@ == old(plate).wells@,
        final(plate).brightness == old(plate).brightness,
        final(plate).wavelength == old(plate).wavelength,
        final(plate).duration == old(plate).duration,
{
    match map.well_index(frame.bank, frame.channel) {
        Some(w) => {
            if !plate.wells[w].disabled && !plate.wells[w].damaged {
                plate.wells[w].measurement = frame.value;
                assert(plate.wells@ =~= applied(old(plate).wells@, *map, *frame));
                true
            } else {
                false
            }
        },
        None => false,
    }
}

/// Bytes received from the device and not yet decoded. A trailing partial
/// frame stays until the rest of it arrives.
#[derive(Debug, Clone)]
pub struct TelemetryStream {
    pub buf: Vec<u8>,
    /// Index in `buf` of the first byte not yet decoded.
    pub pos: usize,
}

impl TelemetryStream {
    pub open spec fn wf(&self) -> bool {
        self.pos <= self.buf@.len()
    }

    /// The bytes not yet decoded.
    pub open spec fn pending(&self) -> Seq<u8> {
        self.buf@.subrange(self.pos as int, self.buf@.len() as int)
    }

    pub fn new() -> (s: TelemetryStream)
        ensures
            s.wf(),
            s.pending() == Seq::<u8>::empty(),
    {
        let s = TelemetryStream { buf: Vec::new(), pos: 0 };
        assert(s.pending() =~= Seq::<u8>::empty());
        s
    }

    /// Appends bytes read from the device.
    pub fn push(&mut self, bytes: &[u8])
        requires
            old(self).wf(),
        ensures
            final(self).wf(),
            final(self).pending() == old(self).pending() + bytes@,
    {
        let mut nb: Vec<u8> = Vec::new();
        let mut k: usize = self.pos;
        while k < self.buf.len()
            invariant
                self.pos <= k <= self.buf@.len(),
                nb@ == self.buf@.subrange(self.pos as int, k as int),
            decreases self.buf@.len() - k,
        {
            nb.push(self.buf[k]);
            k += 1;
            assert(nb@ =~= self.buf@.subrange(self.pos as int, k as int));
        }
        let ghost kept = nb@;
        let mut j: usize = 0;
        while j < bytes.len()
            invariant
                j <= bytes@.len(),
                nb@ == kept + bytes@.subrange(0, j as int),
            decreases bytes@.len() - j,
        {
            nb.push(bytes[j]);
            j += 1;
            assert(nb@ =~= kept + bytes@.subrange(0, j as int));
        }
        assert(bytes@.subrange(0, bytes@.len() as int) =~= bytes@);
        self.buf = nb;
        self.pos = 0;
        assert(self.pending() =~= self.buf@);
    }

    /// Decodes and consumes the frame at the front of the pending bytes.
    /// While fewer than three bytes are pending, returns `None` and consumes nothing.
    pub fn try_decode_frame(&mut self) -> (r: Option<TelemetryFrame>)
        requires
            old(self).wf(),
        ensures
            final(self).wf(),
            old(self).pending().len() < FRAME_LEN ==> r is None && final(self).pending() == old(self).pending(),
            old(self).pending().len() >= FRAME_LEN ==> r == Some(frame_of(
                old(self).pending()[0],
                old(self).pending()[1],
                old(self).pending()[2],
            )) && final(self).pending() == old(self).pending().skip(3),
    {
        if self.buf.len() - self.pos < FRAME_LEN {
            return None;
        }
        let p = self.pos;
        let f = frame_from_bytes(self.buf[p], self.buf[p + 1], self.buf[p + 2]);
        self.pos = p + 3;
        assert(self.pending() =~= old(self).pending().skip(3));
        Some(f)
    }

    /// Decodes every complete pending frame and applies each to the grid in
    /// order; at most two bytes of a partial frame remain pending. Returns
    /// the number of frames decoded.
    pub fn drain_into(&mut self, map: &AddressMap, plate: &mut MicroPlate) -> (n: usize)
        requires
            old(self).wf(),
            map.wf(),
            old(plate).wf(),
        ensures
            final(self).wf(),
            n == old(self).pending().len() / 3,
            final(self).pending() == old(self).pending().skip(3 * n),
            final(plate).wells@ == applied_all(old(plate).wells@, *map, old(self).pending()),
            final(plate).brightness == old(plate).brightness,
            final(plate).wavelength == old(plate).wavelength,
            final(plate).duration == old(plate).duration,
    {
        let len = self.buf.len();
        let mut n: usize = 0;
        while self.buf.len() - self.pos >= FRAME_LEN
            invariant
                old(self).pending().len() <= len,
                self.wf(),
                map.wf(),
                plate.wf(),
                n <= old(self).pending().len() / 3,
                self.pending() == old(self).pending().skip(3 * n),
                applied_all(plate.wells@, *map, self.pending())
                    == applied_all(old(plate).wells@, *map, old(self).pending()),
                plate.brightness == old(plate).brightness,
                plate.wavelength == old(plate).wavelength,
                plate.duration == old(plate).duration,
            decreases self.pending().len(),
        {
            let ghost wells_before = plate.wells@;
            let ghost before = self.pending();
            let f = self.try_decode_frame().unwrap();
            apply_to_grid(&f, map, plate);
            assert(applied_all(wells_before, *map, before)
                == applied_all(plate.wells@, *map, before.skip(3)));
            assert(old(self).pending().skip(3 * n).skip(3) =~= old(self).pending().skip(3 * (n + 1)));
            let ghost total = old(self).pending().len() as int;
            assert(total >= 3 * n + 3);
            assert(total / 3 >= n + 1) by (nonlinear_arith)
                requires total >= 3 * n + 3;
            n += 1;
        }
        n
    }
}

} // verus!
