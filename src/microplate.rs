//! The 5×5 grid of wells of one pattern, with the settings it is lit with.
use vstd::prelude::*;
use crate::microwell::MicroWell;
use crate::revision::{Layout, WELL_COUNT, GRID_SIDE};
use crate::wavelength::Wavelength;

verus! {

/// Column letter of a well's label: `D` to `H` from left to right.
pub open spec fn column_letter(col: int) -> char {
    if col == 0 {
        'D'
    } else if col == 1 {
        'E'
    } else if col == 2 {
        'F'
    } else if col == 3 {
        'G'
    } else {
        'H'
    }
}

/// Row digit of a well's label: `5` to `1` from top to bottom.
pub open spec fn row_digit(row: int) -> char {
    if row == 0 {
        '5'
    } else if row == 1 {
        '4'
    } else if row == 2 {
        '3'
    } else if row == 3 {
        '2'
    } else {
        '1'
    }
}

/// Label of the well at linear index `i = row * 5 + col`.
pub open spec fn well_label(i: int) -> Seq<char> {
    seq![column_letter(i % 5), row_digit(i / 5)]
}

pub open spec fn cleared(ws: Seq<MicroWell>) -> Seq<MicroWell> {
    Seq::new(ws.len(), |i: int| MicroWell { measurement: 0, ..ws[i] })
}

pub open spec fn with_disabled(ws: Seq<MicroWell>, flags: Seq<bool>) -> Seq<MicroWell> {
    Seq::new(ws.len(), |i: int| MicroWell { disabled: flags[i], ..ws[i] })
}

pub open spec fn with_damage(ws: Seq<MicroWell>, flags: Seq<bool>) -> Seq<MicroWell> {
    Seq::new(ws.len(), |i: int| MicroWell { damaged: flags[i], ..ws[i] })
}

pub open spec fn with_leds(ws: Seq<MicroWell>, on: bool) -> Seq<MicroWell> {
    Seq::new(ws.len(), |i: int| MicroWell { led_on: on, ..ws[i] })
}

/// Readings of the wells that are not disabled, in grid order.
pub open spec fn enabled_measurements(ws: Seq<MicroWell>) -> Seq<u16>
    decreases ws.len(),
{
    if ws.len() == 0 {
        Seq::empty()
    } else {
        let rest = enabled_measurements(ws.drop_last());
        if ws.last().disabled {
            rest
        } else {
            rest.push(ws.last().measurement)
        }
    }
}

/// Labels of the wells that are not disabled, in grid order.
pub open spec fn enabled_labels(ws: Seq<MicroWell>) -> Seq<Seq<char>>
    decreases ws.len(),
{
    if ws.len() == 0 {
        Seq::empty()
    } else {
        let rest = enabled_labels(ws.drop_last());
        if ws.last().disabled {
            rest
        } else {
            rest.push(ws.last().label@)
        }
    }
}

fn label_for(i: usize) -> (s: String)
    requires
        i < WELL_COUNT,
    ensures
        s@ == well_label(i as int),
{
    let col = i % GRID_SIDE;
    let row = i / GRID_SIDE;
    let letter = if col == 0 {
        "D"
    } else if col == 1 {
        "E"
    } else if col == 2 {
        "F"
    } else if col == 3 {
        "G"
    } else {
        "H"
    };
    let digit = if row == 0 {
        "5"
    } else if row == 1 {
        "4"
    } else if row == 2 {
        "3"
    } else if row == 3 {
        "2"
    } else {
        "1"
    };
    proof {
        reveal_strlit("D");
        reveal_strlit("E");
        reveal_strlit("F");
        reveal_strlit("G");
        reveal_strlit("H");
        reveal_strlit("5");
        reveal_strlit("4");
        reveal_strlit("3");
        reveal_strlit("2");
        reveal_strlit("1");
    }
    let mut s = String::from_str(letter);
    s.append(digit);
    assert(s@ =~= well_label(i as int));
    s
}

/// One pattern: the grid of wells and the brightness, wavelength and
/// duration it is shown with.
#[derive(Debug, Clone)]
pub struct MicroPlate {
    /// Requested brightness in percent; values outside `0..=100` are clamped
    /// when a command is built.
    pub brightness: i32,
    pub wavelength: Wavelength,
    /// How long the pattern is shown, in seconds.
    pub duration: u64,
    /// The wells in row-major order, well `row * 5 + col`.
    pub wells: Vec<MicroWell>,
}

impl Default for MicroPlate {
    /// The pattern of `is_default`.
    fn default() -> (p: MicroPlate)
        ensures
            p.is_default(),
    {
        let mut wells: Vec<MicroWell> = Vec::new();
        let mut i: usize = 0;
        while i < WELL_COUNT
            invariant
                i <= WELL_COUNT,
                wells@.len() == i,
                forall|k: int| 0 <= k < i ==> {
                    let w = #[trigger] wells@[k];
                    &&& w.led_on
                    &&& w.measurement == 0
                    &&& !w.disabled
                    &&& !w.damaged
                    &&& w.label@ == well_label(k)
                },
            decreases WELL_COUNT - i,
        {
            wells.push(MicroWell::new(label_for(i)));
            i += 1;
        }
        MicroPlate { brightness: 50, wavelength: Wavelength::W470nm, duration: 5, wells }
    }
}

impl MicroPlate {
    pub open spec fn wf(&self) -> bool {
        self.wells@.len() == WELL_COUNT
    }

    /// The pattern a new plate starts with: half brightness at 470 nm for
    /// five seconds; every well lit, usable, without a reading, and
    /// labelled by `well_label`.
    pub open spec fn is_default(&self) -> bool {
        &&& self.wf()
        &&& self.brightness == 50
        &&& self.wavelength == Wavelength::W470nm
        &&& self.duration == 5
        &&& forall|i: int| 0 <= i < WELL_COUNT ==> {
            let w = #[trigger] self.wells@[i];
            &&& w.led_on
            &&& w.measurement == 0
            &&& !w.disabled
            &&& !w.damaged
            &&& w.label@ == well_label(i)
        }
    }

    /// Resets every reading to zero, as at the start of a run.
    pub fn clear(&mut self)
        ensures
            final(self).wells@ == cleared(old(self).wells@),
            final(self).brightness == old(self).brightness,
            final(self).wavelength == old(self).wavelength,
            final(self).duration == old(self).duration,
    {
        let n = self.wells.len();
        let mut i: usize = 0;
        while i < n
            invariant
                n == old(self).wells@.len(),
                self.wells@.len() == n,
                i <= n,
                forall|k: int| 0 <= k < i ==> #[trigger] self.wells@[k] == (MicroWell { measurement: 0, ..old(self).wells@[k] }),
                forall|k: int| i <= k < n ==> #[trigger] self.wells@[k] == old(self).wells@[k],
                self.brightness == old(self).brightness,
                self.wavelength == old(self).wavelength,
                self.duration == old(self).duration,
            decreases n - i,
        {
            self.wells[i].measurement = 0;
            i += 1;
        }
        assert(self.wells@ =~= cleared(old(self).wells@));
    }

    /// Marks as disabled exactly the wells that the layout lacks.
    pub fn apply_layout(&mut self, layout: &Layout)
        requires
            old(self).wf(),
            layout.wf(),
        ensures
            final(self).wells@ == with_disabled(old(self).wells@, layout.disabled@),
            final(self).brightness == old(self).brightness,
            final(self).wavelength == old(self).wavelength,
            final(self).duration == old(self).duration,
    {
        let n = self.wells.len();
        let mut i: usize = 0;
        while i < n
            invariant
                n == old(self).wells@.len(),
                n == layout.disabled@.len(),
                self.wells@.len() == n,
                i <= n,
                forall|k: int| 0 <= k < i ==> #[trigger] self.wells@[k]
                    == (MicroWell { disabled: layout.disabled@[k], ..old(self).wells@[k] }),
                forall|k: int| i <= k < n ==> #[trigger] self.wells@[k] == old(self).wells@[k],
                self.brightness == old(self).brightness,
                self.wavelength == old(self).wavelength,
                self.duration == old(self).duration,
            decreases n - i,
        {
            self.wells[i].disabled = layout.disabled[i];
            i += 1;
        }
        assert(self.wells@ =~= with_disabled(old(self).wells@, layout.disabled@));
    }

    /// Marks as damaged exactly the wells that the layout lists as unusable
    /// at the active wavelength; earlier damage flags do not carry over.
    pub fn recompute_damage(&mut self, layout: &Layout)
        requires
            old(self).wf(),
            layout.wf(),
        ensures
            final(self).wells@ == with_damage(old(self).wells@, layout.damage_at(old(self).wavelength)),
            final(self).brightness == old(self).brightness,
            final(self).wavelength == old(self).wavelength,
            final(self).duration == old(self).duration,
    {
        let row = &layout.damage[self.wavelength.ordinal()];
        let n = self.wells.len();
        let mut i: usize = 0;
        while i < n
            invariant
                n == old(self).wells@.len(),
                row@ == layout.damage_at(old(self).wavelength),
                n == row@.len(),
                self.wells@.len() == n,
                i <= n,
                forall|k: int| 0 <= k < i ==> #[trigger] self.wells@[k]
                    == (MicroWell { damaged: row@[k], ..old(self).wells@[k] }),
                forall|k: int| i <= k < n ==> #[trigger] self.wells@[k] == old(self).wells@[k],
                self.brightness == old(self).brightness,
                self.wavelength == old(self).wavelength,
                self.duration == old(self).duration,
            decreases n - i,
        {
            self.wells[i].damaged = row[i];
            i += 1;
        }
        assert(self.wells@ =~= with_damage(old(self).wells@, row@));
    }

    /// Switches the active wavelength and recomputes the damaged wells for it.
    pub fn set_wavelength(&mut self, w: Wavelength, layout: &Layout)
        requires
            old(self).wf(),
            layout.wf(),
        ensures
            final(self).wavelength == w,
            final(self).wells@ == with_damage(old(self).wells@, layout.damage_at(w)),
            final(self).brightness == old(self).brightness,
            final(self).duration == old(self).duration,
    {
        self.wavelength = w;
        self.recompute_damage(layout);
    }

    /// Sets the illumination flag of every well to `on`.
    pub fn set_all_leds(&mut self, on: bool)
        ensures
            final(self).wells@ == with_leds(old(self).wells@, on),
            final(self).brightness == old(self).brightness,
            final(self).wavelength == old(self).wavelength,
            final(self).duration == old(self).duration,
    {
        let n = self.wells.len();
        let mut i: usize = 0;
        while i < n
            invariant
                n == old(self).wells@.len(),
                self.wells@.len() == n,
                i <= n,
                forall|k: int| 0 <= k < i ==> #[trigger] self.wells@[k]
                    == (MicroWell { led_on: on, ..old(self).wells@[k] }),
                forall|k: int| i <= k < n ==> #[trigger] self.wells@[k] == old(self).wells@[k],
                self.brightness == old(self).brightness,
                self.wavelength == old(self).wavelength,
                self.duration == old(self).duration,
            decreases n - i,
        {
            self.wells[i].led_on = on;
            i += 1;
        }
        assert(self.wells@ =~= with_leds(old(self).wells@, on));
    }

    /// Flips the illumination of well `i` if it is usable; returns whether it did.
    pub fn toggle_well(&mut self, i: usize) -> (changed: bool)
        requires
            old(self).wf(),
            i < WELL_COUNT,
        ensures
            changed == old(self).wells@[i as int].usable(),
            final(self).wells@ == (if changed {
                old(self).wells@.update(i as int, MicroWell { led_on: !old(self).wells@[i as int].led_on, ..old(self).wells@[i as int] })
            } else {
                old(self).wells@
            }),
            final(self).brightness == old(self).brightness,
            final(self).wavelength == old(self).wavelength,
            final(self).duration == old(self).duration,
    {
        let changed = self.wells[i].toggle();
        assert(changed ==> self.wells@ =~= old(self).wells@.update(i as int, MicroWell { led_on: !old(self).wells@[i as int].led_on, ..old(self).wells@[i as int] }));
        assert(!changed ==> self.wells@ =~= old(self).wells@);
        changed
    }

    /// Readings of the wells that are not disabled, in grid order: one row of a results log.
    pub fn enabled_measurements(&self) -> (r: Vec<u16>)
        ensures
            r@ == enabled_measurements(self.wells@),
    {
        let mut r: Vec<u16> = Vec::new();
        let mut i: usize = 0;
        while i < self.wells.len()
            invariant
                i <= self.wells@.len(),
                r@ == enabled_measurements(self.wells@.take(i as int)),
            decreases self.wells@.len() - i,
        {
            assert(self.wells@.take(i + 1).drop_last() =~= self.wells@.take(i as int));
            if !self.wells[i].disabled {
                r.push(self.wells[i].measurement);
            }
            i += 1;
        }
        assert(self.wells@.take(i as int) =~= self.wells@);
        r
    }

    /// Labels of the wells that are not disabled, in grid order: the header of a results log.
    pub fn enabled_labels(&self) -> (r: Vec<String>)
        ensures
            r@.map_values(|s: String| s@) == enabled_labels(self.wells@),
    {
        let mut r: Vec<String> = Vec::new();
        let mut i: usize = 0;
        while i < self.wells.len()
            invariant
                i <= self.wells@.len(),
                r@.map_values(|s: String| s@) == enabled_labels(self.wells@.take(i as int)),
            decreases self.wells@.len() - i,
        {
            assert(self.wells@.take(i + 1).drop_last() =~= self.wells@.take(i as int));
            if !self.wells[i].disabled {
                let ghost before = r@;
                r.push(self.wells[i].label.clone());
                assert(r@.map_values(|s: String| s@) =~= before.map_values(|s: String| s@).push(self.wells@[i as int].label@));
            }
            i += 1;
        }
        assert(self.wells@.take(i as int) =~= self.wells@);
        r
    }
}

/// Recomputing the damaged wells is idempotent: doing it a second time with
/// the same wavelength leaves the same wells damaged as doing it once.
pub proof fn lemma_recompute_damage_idempotent(ws: Seq<MicroWell>, layout: Layout, w: Wavelength)
    ensures
        with_damage(with_damage(ws, layout.damage_at(w)), layout.damage_at(w))
            == with_damage(ws, layout.damage_at(w)),
{
    assert(with_damage(with_damage(ws, layout.damage_at(w)), layout.damage_at(w))
        =~= with_damage(ws, layout.damage_at(w)));
}

} // verus!
