use vstd::prelude::*;

verus! {

/// One of the four operating bands of the instrument's light sources.
#[derive(Debug, Clone, Copy, PartialEq, Eq, Structural)]
pub enum Wavelength {
    W470nm,
    W570nm,
    W630nm,
    W850nm,
}

/// A display colour with 8-bit red, green and blue channels.
#[derive(Debug, Clone, Copy, PartialEq, Eq, Structural)]
pub struct Rgb {
    pub r: u8,
    pub g: u8,
    pub b: u8,
}

pub open spec fn rgb(r: u8, g: u8, b: u8) -> Rgb {
    Rgb { r, g, b }
}

/// Position of a wavelength in the fixed order 470, 570, 630, 850 nm,
/// used to index per-wavelength tables.
pub open spec fn ordinal(w: Wavelength) -> int {
    match w {
        Wavelength::W470nm => 0,
        Wavelength::W570nm => 1,
        Wavelength::W630nm => 2,
        Wavelength::W850nm => 3,
    }
}

/// Device code of each wavelength on the reference board.
pub open spec fn reference_code(w: Wavelength) -> u8 {
    match w {
        Wavelength::W470nm => 0,
        Wavelength::W570nm => 3,
        Wavelength::W630nm => 2,
        Wavelength::W850nm => 1,
    }
}

pub open spec fn color_of(w: Wavelength) -> Rgb {
    match w {
        Wavelength::W470nm => rgb(96, 165, 250),
        Wavelength::W570nm => rgb(52, 211, 153),
        Wavelength::W630nm => rgb(251, 146, 60),
        Wavelength::W850nm => rgb(248, 113, 113),
    }
}

pub open spec fn hovered_color_of(w: Wavelength) -> Rgb {
    match w {
        Wavelength::W470nm => rgb(147, 197, 253),
        Wavelength::W570nm => rgb(110, 231, 183),
        Wavelength::W630nm => rgb(253, 186, 116),
        Wavelength::W850nm => rgb(252, 165, 165),
    }
}

pub open spec fn label_of(w: Wavelength) -> Seq<char> {
    match w {
        Wavelength::W470nm => seq!['4', '7', '0', 'n', 'm'],
        Wavelength::W570nm => seq!['5', '7', '0', 'n', 'm'],
        Wavelength::W630nm => seq!['6', '3', '0', 'n', 'm'],
        Wavelength::W850nm => seq!['8', '5', '0', 'n', 'm'],
    }
}

impl Default for Wavelength {
    fn default() -> (w: Wavelength)
        ensures
            w == Wavelength::W470nm,
    {
        Wavelength::W470nm
    }
}

impl Wavelength {
    /// The wavelength at position `i` of the order 470, 570, 630, 850 nm.
    pub fn from_ordinal(i: usize) -> (w: Wavelength)
        requires
            i < 4,
        ensures
            ordinal(w) == i,
    {
        if i == 0 {
            Wavelength::W470nm
        } else if i == 1 {
            Wavelength::W570nm
        } else if i == 2 {
            Wavelength::W630nm
        } else {
            Wavelength::W850nm
        }
    }

    pub fn ordinal(&self) -> (i: usize)
        ensures
            i == ordinal(*self),
            i < 4,
    {
        match self {
            Wavelength::W470nm => 0,
            Wavelength::W570nm => 1,
            Wavelength::W630nm => 2,
            Wavelength::W850nm => 3,
        }
    }

    /// Device code of this wavelength on the reference board.
    pub fn to_u8(&self) -> (r: u8)
        ensures
            r == reference_code(*self),
            r < 4,
    {
        match self {
            Wavelength::W470nm => 0,
            Wavelength::W570nm => 3,
            Wavelength::W630nm => 2,
            Wavelength::W850nm => 1,
        }
    }

    /// Colour of a well lit at this wavelength while the pointer is over it.
    pub fn get_hovered_color(&self) -> (c: Rgb)
        ensures
            c == hovered_color_of(*self),
    {
        match self {
            Wavelength::W470nm => Rgb { r: 147, g: 197, b: 253 },
            Wavelength::W570nm => Rgb { r: 110, g: 231, b: 183 },
            Wavelength::W630nm => Rgb { r: 253, g: 186, b: 116 },
            Wavelength::W850nm => Rgb { r: 252, g: 165, b: 165 },
        }
    }

    /// Colour of a well lit at this wavelength.
    pub fn get_color(&self) -> (c: Rgb)
        ensures
            c == color_of(*self),
    {
        match self {
            Wavelength::W470nm => Rgb { r: 96, g: 165, b: 250 },
            Wavelength::W570nm => Rgb { r: 52, g: 211, b: 153 },
            Wavelength::W630nm => Rgb { r: 251, g: 146, b: 60 },
            Wavelength::W850nm => Rgb { r: 248, g: 113, b: 113 },
        }
    }

    /// Display label, such as `470nm`.
    pub fn label(&self) -> (s: String)
        ensures
            s@ == label_of(*self),
    {
        let lit = match self {
            Wavelength::W470nm => "470nm",
            Wavelength::W570nm => "570nm",
            Wavelength::W630nm => "630nm",
            Wavelength::W850nm => "850nm",
        };
        proof {
            reveal_strlit("470nm");
            reveal_strlit("570nm");
            reveal_strlit("630nm");
            reveal_strlit("850nm");
        }
        let s = String::from_str(lit);
        assert(s@ =~= label_of(*self));
        s
    }
}

} // verus!
