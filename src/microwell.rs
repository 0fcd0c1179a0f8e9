//! One site of the grid: its label, illumination flag, last reading and
//! usability flags.
use vstd::prelude::*;

verus! {

/// One well of the grid.
#[derive(Debug, Clone)]
pub struct MicroWell {
    /// Whether the operator asked for this well to be lit.
    pub led_on: bool,
    /// Last reading reported for this well, in device units.
    pub measurement: u16,
    /// Physically absent on this revision.
    pub disabled: bool,
    /// Unusable at the active wavelength.
    pub damaged: bool,
    pub label: String,
}

impl MicroWell {
    /// Neither disabled nor damaged: the well may be lit and may take readings.
    pub open spec fn usable(&self) -> bool {
        !self.disabled && !self.damaged
    }

    /// A lit, usable well with no reading yet.
    pub fn new(label: String) -> (w: MicroWell)
        ensures
            w.led_on,
            w.measurement == 0,
            !w.disabled,
            !w.damaged,
            w.label == label,
    {
        MicroWell { led_on: true, measurement: 0, disabled: false, damaged: false, label }
    }

    /// Flips the illumination flag of a usable well; leaves any other well
    /// as it is. Returns whether the flag changed.
    pub fn toggle(&mut self) -> (changed: bool)
        ensures
            changed == old(self).usable(),
            *final(self) == (if changed {
                MicroWell { led_on: !old(self).led_on, ..*old(self) }
            } else {
                *old(self)
            }),
    {
        if !self.disabled && !self.damaged {
            self.led_on = !self.led_on;
            true
        } else {
            false
        }
    }
}

impl Default for MicroWell {
    fn default() -> (w: MicroWell)
        ensures
            w.led_on,
            w.measurement == 0,
            !w.disabled,
            !w.damaged,
            w.label@ == seq!['A', '1'],
    {
        let label = String::from_str("A1");
        proof {
            reveal_strlit("A1");
        }
        assert(label@ =~= seq!['A', '1']);
        MicroWell::new(label)
    }
}

} // verus!
