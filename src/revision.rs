//! Per-revision constant tables: wavelength device codes, the LED and
//! sensor address maps, and the disabled and damaged well sets.
use vstd::prelude::*;
use crate::wavelength::{Wavelength, ordinal, reference_code};

verus! {

/// Number of wells in the grid.
pub const WELL_COUNT: usize = 25;

/// Number of rows, and of columns, of the grid.
pub const GRID_SIDE: usize = 5;

/// Number of telemetry slots: two banks of eight channels.
pub const SENSOR_SLOTS: usize = 16;

/// Number of telemetry channels in one bank.
pub const CHANNELS_PER_BANK: u8 = 8;

/// LED channels are below this bound, so that `channel * 4 + code` fits in seven bits.
pub const LED_CHANNEL_LIMIT: u8 = 32;

/// A revision table that breaks one of its invariants.
#[derive(Debug, Clone, Copy, PartialEq, Eq, Structural)]
pub enum ConfigError {
    /// A table does not have the number of entries its kind requires.
    WrongTableLength,
    /// A wavelength device code is not in `0..4`.
    CodeOutOfRange,
    /// Two wavelengths share a device code.
    DuplicateCode,
    /// An LED channel is not below `LED_CHANNEL_LIMIT`.
    ChannelOutOfRange,
    /// Two wells share an LED channel.
    DuplicateChannel,
    /// A telemetry slot names a well index outside the grid.
    WellOutOfRange,
    /// Two telemetry slots name the same well.
    DuplicateWell,
}

/// Every present entry is below `bound`.
pub open spec fn entries_below(xs: Seq<Option<u8>>, bound: int) -> bool {
    forall|i: int| 0 <= i < xs.len() && (#[trigger] xs[i]) is Some ==> (xs[i]->0 as int) < bound
}

/// No present entry occurs twice.
pub open spec fn entries_distinct(xs: Seq<Option<u8>>) -> bool {
    forall|i: int, j: int|
        0 <= i < xs.len() && 0 <= j < xs.len() && i != j && (#[trigger] xs[i]) is Some
            ==> xs[i] != #[trigger] xs[j]
}

pub open spec fn codes_below(xs: Seq<u8>, bound: int) -> bool {
    forall|i: int| 0 <= i < xs.len() ==> (#[trigger] xs[i] as int) < bound
}

pub open spec fn codes_distinct(xs: Seq<u8>) -> bool {
    forall|i: int, j: int|
        0 <= i < xs.len() && 0 <= j < xs.len() && i != j ==> #[trigger] xs[i] != #[trigger] xs[j]
}

fn check_entries_below(xs: &Vec<Option<u8>>, bound: u8) -> (r: bool)
    ensures
        r == entries_below(xs@, bound as int),
{
    let mut i: usize = 0;
    while i < xs.len()
        invariant
            i <= xs.len(),
            forall|k: int| 0 <= k < i && (#[trigger] xs@[k]) is Some ==> (xs@[k]->0 as int) < bound,
        decreases xs.len() - i,
    {
        if let Some(c) = xs[i] {
            if c >= bound {
                return false;
            }
        }
        i += 1;
    }
    true
}

fn check_entries_distinct(xs: &Vec<Option<u8>>) -> (r: bool)
    ensures
        r == entries_distinct(xs@),
{
    let n = xs.len();
    let mut i: usize = 0;
    while i < n
        invariant
            n == xs.len(),
            i <= n,
            forall|a: int, b: int|
                0 <= a < i && a < b < n && (#[trigger] xs@[a]) is Some ==> xs@[a] != #[trigger] xs@[b],
        decreases n - i,
    {
        if let Some(c) = xs[i] {
            let mut j: usize = i + 1;
            while j < n
                invariant
                    n == xs.len(),
                    i < j <= n,
                    xs@[i as int] == Some(c),
                    forall|a: int, b: int|
                        0 <= a < i && a < b < n && (#[trigger] xs@[a]) is Some ==> xs@[a] != #[trigger] xs@[b],
                    forall|b: int| i < b < j ==> xs@[i as int] != #[trigger] xs@[b],
                decreases n - j,
            {
                if let Some(d) = xs[j] {
                    if c == d {
                        return false;
                    }
                }
                j += 1;
            }
        }
        i += 1;
    }
    assert forall|a: int, b: int|
        0 <= a < xs@.len() && 0 <= b < xs@.len() && a != b && (#[trigger] xs@[a]) is Some
            implies xs@[a] != #[trigger] xs@[b] by {
        if b < a && xs@[b] is None {
        } else if b < a {
            assert(xs@[b] != xs@[a]);
        }
    }
    true
}

fn check_codes(xs: &Vec<u8>) -> (r: Result<(), ConfigError>)
    ensures
        r == (if xs@.len() != 4 {
            Err(ConfigError::WrongTableLength)
        } else if !codes_below(xs@, 4) {
            Err(ConfigError::CodeOutOfRange)
        } else if !codes_distinct(xs@) {
            Err(ConfigError::DuplicateCode)
        } else {
            Ok(())
        }),
{
    if xs.len() != 4 {
        return Err(ConfigError::WrongTableLength);
    }
    let mut i: usize = 0;
    while i < 4
        invariant
            xs@.len() == 4,
            i <= 4,
            forall|k: int| 0 <= k < i ==> (#[trigger] xs@[k] as int) < 4,
        decreases 4 - i,
    {
        if xs[i] >= 4 {
            return Err(ConfigError::CodeOutOfRange);
        }
        i += 1;
    }
    assert(codes_below(xs@, 4));
    let mut i: usize = 0;
    while i < 4
        invariant
            xs@.len() == 4,
            i <= 4,
            codes_below(xs@, 4),
            forall|a: int, b: int| 0 <= a < i && a < b < 4 ==> #[trigger] xs@[a] != #[trigger] xs@[b],
        decreases 4 - i,
    {
        let mut j: usize = i + 1;
        while j < 4
            invariant
                xs@.len() == 4,
                i < j <= 4,
                codes_below(xs@, 4),
                forall|a: int, b: int| 0 <= a < i && a < b < 4 ==> #[trigger] xs@[a] != #[trigger] xs@[b],
                forall|b: int| i < b < j ==> xs@[i as int] != #[trigger] xs@[b],
            decreases 4 - j,
        {
            if xs[i] == xs[j] {
                assert(xs@[i as int] == xs@[j as int]);
                return Err(ConfigError::DuplicateCode);
            }
            j += 1;
        }
        i += 1;
    }
    assert forall|a: int, b: int| 0 <= a < xs@.len() && 0 <= b < xs@.len() && a != b
        implies #[trigger] xs@[a] != #[trigger] xs@[b] by {
        if b < a {
            assert(xs@[b] != xs@[a]);
        }
    }
    Ok(())
}

/// The device code that one hardware revision assigns to each wavelength,
/// indexed by the wavelength's ordinal.
#[derive(Debug, Clone)]
pub struct WavelengthTable {
    pub codes: Vec<u8>,
}

impl WavelengthTable {
    /// Four codes, each in `0..4`, pairwise distinct: a bijection on `{0, 1, 2, 3}`.
    pub open spec fn wf(&self) -> bool {
        &&& self.codes@.len() == 4
        &&& codes_below(self.codes@, 4)
        &&& codes_distinct(self.codes@)
    }

    pub open spec fn code_of(&self, w: Wavelength) -> u8 {
        self.codes@[ordinal(w)]
    }

    /// Builds a table from the codes of 470, 570, 630 and 850 nm, in that order.
    pub fn new(codes: Vec<u8>) -> (r: Result<WavelengthTable, ConfigError>)
        ensures
            codes@.len() != 4 ==> r == Err::<WavelengthTable, ConfigError>(ConfigError::WrongTableLength),
            codes@.len() == 4 && !codes_below(codes@, 4)
                ==> r == Err::<WavelengthTable, ConfigError>(ConfigError::CodeOutOfRange),
            codes@.len() == 4 && codes_below(codes@, 4) && !codes_distinct(codes@)
                ==> r == Err::<WavelengthTable, ConfigError>(ConfigError::DuplicateCode),
            r is Ok <==> (WavelengthTable { codes }).wf(),
            r matches Ok(t) ==> t.codes@ == codes@,
    {
        match check_codes(&codes) {
            Ok(()) => Ok(WavelengthTable { codes }),
            Err(e) => Err(e),
        }
    }

    /// The codes of the reference board, those of `Wavelength::to_u8`.
    pub fn reference() -> (t: WavelengthTable)
        ensures
            t.wf(),
            forall|w: Wavelength| #[trigger] t.code_of(w) == reference_code(w),
    {
        let t = WavelengthTable { codes: vec![0u8, 3, 2, 1] };
        assert(codes_distinct(t.codes@)) by {
            assert(t.codes@ == seq![0u8, 3, 2, 1]);
        }
        t
    }

    /// Device code of `w` on this revision.
    pub fn code(&self, w: Wavelength) -> (r: u8)
        requires
            self.wf(),
        ensures
            r == self.code_of(w),
            r < 4,
    {
        self.codes[w.ordinal()]
    }
}

/// The first broken invariant of an address map built from these tables, if any.
pub open spec fn address_map_error(led: Seq<Option<u8>>, sensor: Seq<Option<u8>>) -> Option<ConfigError> {
    if led.len() != WELL_COUNT || sensor.len() != SENSOR_SLOTS {
        Some(ConfigError::WrongTableLength)
    } else if !entries_below(led, LED_CHANNEL_LIMIT as int) {
        Some(ConfigError::ChannelOutOfRange)
    } else if !entries_distinct(led) {
        Some(ConfigError::DuplicateChannel)
    } else if !entries_below(sensor, WELL_COUNT as int) {
        Some(ConfigError::WellOutOfRange)
    } else if !entries_distinct(sensor) {
        Some(ConfigError::DuplicateWell)
    } else {
        None
    }
}

/// LED channel of each well on the reference board, by well index.
pub open spec fn reference_led_channels() -> Seq<Option<u8>> {
    seq![
        Some(15u8), None, Some(14u8), Some(3u8), Some(2u8),
        None, Some(12u8), None, None, None,
        Some(11u8), None, Some(13u8), Some(0u8), Some(1u8),
        None, None, Some(10u8), Some(7u8), Some(6u8),
        Some(8u8), None, Some(9u8), Some(4u8), Some(5u8),
    ]
}

/// Well index reported by each telemetry slot on the reference board,
/// slot `bank * 8 + channel`.
pub open spec fn reference_sensor_wells() -> Seq<Option<u8>> {
    seq![
        Some(9u8), Some(5u8), Some(6u8), Some(7u8), Some(0u8), Some(1u8), Some(2u8), Some(4u8),
        Some(22u8), Some(18u8), Some(24u8), Some(20u8), Some(10u8), Some(11u8), Some(12u8), Some(14u8),
    ]
}

/// Wells that the reference board lacks: the second row and the second
/// column, except the well where they cross, and the first well of the
/// fourth row.
pub open spec fn reference_disabled() -> Seq<bool> {
    seq![
        false, true, false, false, false,
        true, false, true, true, true,
        false, true, false, false, false,
        true, true, false, false, false,
        false, true, false, false, false,
    ]
}

/// Mapping between logical well indices and the device's physical
/// channels for one hardware revision.
#[derive(Debug, Clone)]
pub struct AddressMap {
    /// LED channel of each well, by well index.
    pub led: Vec<Option<u8>>,
    /// Well reported by each telemetry slot, slot `bank * 8 + channel`.
    pub sensor: Vec<Option<u8>>,
}

impl AddressMap {
    pub open spec fn wf(&self) -> bool {
        address_map_error(self.led@, self.sensor@) is None
    }

    pub open spec fn channel_of(&self, well: int) -> Option<u8> {
        if 0 <= well < self.led@.len() {
            self.led@[well]
        } else {
            None
        }
    }

    pub open spec fn well_of(&self, bank: u8, channel: u8) -> Option<usize> {
        if bank < 2 && channel < CHANNELS_PER_BANK {
            match self.sensor@[bank * 8 + channel] {
                Some(w) => Some(w as usize),
                None => None,
            }
        } else {
            None
        }
    }

    /// Builds a map from its two tables, rejecting those that break an invariant.
    pub fn new(led: Vec<Option<u8>>, sensor: Vec<Option<u8>>) -> (r: Result<AddressMap, ConfigError>)
        ensures
            match address_map_error(led@, sensor@) {
                Some(e) => r == Err::<AddressMap, ConfigError>(e),
                None => r matches Ok(m) && m.led@ == led@ && m.sensor@ == sensor@,
            },
            r matches Ok(m) ==> m.wf(),
    {
        if led.len() != WELL_COUNT || sensor.len() != SENSOR_SLOTS {
            return Err(ConfigError::WrongTableLength);
        }
        if !check_entries_below(&led, LED_CHANNEL_LIMIT) {
            return Err(ConfigError::ChannelOutOfRange);
        }
        if !check_entries_distinct(&led) {
            return Err(ConfigError::DuplicateChannel);
        }
        if !check_entries_below(&sensor, WELL_COUNT as u8) {
            return Err(ConfigError::WellOutOfRange);
        }
        if !check_entries_distinct(&sensor) {
            return Err(ConfigError::DuplicateWell);
        }
        Ok(AddressMap { led, sensor })
    }

    /// The reference board's map, validated as it is built.
    pub fn reference() -> (r: Result<AddressMap, ConfigError>)
        ensures
            match address_map_error(reference_led_channels(), reference_sensor_wells()) {
                Some(e) => r == Err::<AddressMap, ConfigError>(e),
                None => r matches Ok(m) && m.led@ == reference_led_channels()
                    && m.sensor@ == reference_sensor_wells(),
            },
    {
        let led = vec![
            Some(15u8), None, Some(14u8), Some(3u8), Some(2u8),
            None, Some(12u8), None, None, None,
            Some(11u8), None, Some(13u8), Some(0u8), Some(1u8),
            None, None, Some(10u8), Some(7u8), Some(6u8),
            Some(8u8), None, Some(9u8), Some(4u8), Some(5u8),
        ];
        let sensor = vec![
            Some(9u8), Some(5u8), Some(6u8), Some(7u8), Some(0u8), Some(1u8), Some(2u8), Some(4u8),
            Some(22u8), Some(18u8), Some(24u8), Some(20u8), Some(10u8), Some(11u8), Some(12u8), Some(14u8),
        ];
        assert(led@ =~= reference_led_channels());
        assert(sensor@ =~= reference_sensor_wells());
        AddressMap::new(led, sensor)
    }

    /// LED channel of well `well`; `None` for a well without one, or outside the grid.
    pub fn physical_channel(&self, well: usize) -> (r: Option<u8>)
        requires
            self.wf(),
        ensures
            r == self.channel_of(well as int),
            r matches Some(c) ==> c < LED_CHANNEL_LIMIT,
    {
        if well < self.led.len() {
            self.led[well]
        } else {
            None
        }
    }

    /// Well that reports on telemetry channel `channel` of bank `bank`;
    /// `None` where no well does.
    pub fn well_index(&self, bank: u8, channel: u8) -> (r: Option<usize>)
        requires
            self.wf(),
        ensures
            r == self.well_of(bank, channel),
            r matches Some(w) ==> w < WELL_COUNT,
    {
        if bank < 2 && channel < CHANNELS_PER_BANK {
            let slot = (bank * 8 + channel) as usize;
            match self.sensor[slot] {
                Some(w) => Some(w as usize),
                None => None,
            }
        } else {
            None
        }
    }
}

/// Wells that a revision lacks, and wells it cannot use at a given wavelength.
#[derive(Debug, Clone)]
pub struct Layout {
    /// Whether each well is physically absent, by well index.
    pub disabled: Vec<bool>,
    /// For each wavelength ordinal, whether each well is unusable at it.
    pub damage: Vec<Vec<bool>>,
}

impl Layout {
    pub open spec fn wf(&self) -> bool {
        &&& self.disabled@.len() == WELL_COUNT
        &&& self.damage@.len() == 4
        &&& forall|i: int| 0 <= i < 4 ==> (#[trigger] self.damage@[i])@.len() == WELL_COUNT
    }

    /// Wells unusable at `w`.
    pub open spec fn damage_at(&self, w: Wavelength) -> Seq<bool> {
        self.damage@[ordinal(w)]@
    }

    /// Builds a layout, rejecting tables of the wrong size.
    pub fn new(disabled: Vec<bool>, damage: Vec<Vec<bool>>) -> (r: Result<Layout, ConfigError>)
        ensures
            r is Ok <==> (Layout { disabled, damage }).wf(),
            r is Err ==> r == Err::<Layout, ConfigError>(ConfigError::WrongTableLength),
            r matches Ok(l) ==> l.disabled@ == disabled@ && l.damage@ == damage@,
    {
        if disabled.len() != WELL_COUNT || damage.len() != 4 {
            return Err(ConfigError::WrongTableLength);
        }
        let mut i: usize = 0;
        while i < 4
            invariant
                damage@.len() == 4,
                i <= 4,
                forall|k: int| 0 <= k < i ==> (#[trigger] damage@[k])@.len() == WELL_COUNT,
            decreases 4 - i,
        {
            if damage[i].len() != WELL_COUNT {
                return Err(ConfigError::WrongTableLength);
            }
            i += 1;
        }
        Ok(Layout { disabled, damage })
    }

    /// The reference board's layout: the cut-out wells of `reference_disabled`,
    /// and no wavelength-dependent damage.
    pub fn reference() -> (l: Layout)
        ensures
            l.wf(),
            l.disabled@ == reference_disabled(),
            forall|w: Wavelength, i: int| 0 <= i < WELL_COUNT ==> !(#[trigger] l.damage_at(w)[i]),
    {
        let disabled = vec![
            false, true, false, false, false,
            true, false, true, true, true,
            false, true, false, false, false,
            true, true, false, false, false,
            false, true, false, false, false,
        ];
        assert(disabled@ =~= reference_disabled());
        let mut damage: Vec<Vec<bool>> = Vec::new();
        let mut i: usize = 0;
        while i < 4
            invariant
                i <= 4,
                damage@.len() == i,
                forall|k: int, j: int| 0 <= k < i && 0 <= j < WELL_COUNT ==> !(#[trigger] damage@[k]@[j]),
                forall|k: int| 0 <= k < i ==> (#[trigger] damage@[k])@.len() == WELL_COUNT,
            decreases 4 - i,
        {
            let row = no_wells();
            damage.push(row);
            i += 1;
        }
        let l = Layout { disabled, damage };
        assert forall|w: Wavelength, i: int| 0 <= i < WELL_COUNT implies !(#[trigger] l.damage_at(w)[i]) by {
            assert(0 <= ordinal(w) < 4);
        }
        l
    }
}

fn no_wells() -> (v: Vec<bool>)
    ensures
        v@.len() == WELL_COUNT,
        forall|i: int| 0 <= i < WELL_COUNT ==> !(#[trigger] v@[i]),
{
    let mut v: Vec<bool> = Vec::new();
    let mut i: usize = 0;
    while i < WELL_COUNT
        invariant
            i <= WELL_COUNT,
            v@.len() == i,
            forall|k: int| 0 <= k < i ==> !(#[trigger] v@[k]),
        decreases WELL_COUNT - i,
    {
        v.push(false);
        i += 1;
    }
    v
}

/// Everything that differs between hardware revisions.
#[derive(Debug, Clone)]
pub struct Revision {
    pub wavelengths: WavelengthTable,
    pub address: AddressMap,
    pub layout: Layout,
}

impl Revision {
    pub open spec fn wf(&self) -> bool {
        &&& self.wavelengths.wf()
        &&& self.address.wf()
        &&& self.layout.wf()
    }

    /// The reference board, with its address map validated as it is built.
    pub fn reference() -> (r: Result<Revision, ConfigError>)
        ensures
            match address_map_error(reference_led_channels(), reference_sensor_wells()) {
                Some(e) => r == Err::<Revision, ConfigError>(e),
                None => r matches Ok(rev) && rev.wf()
                    && rev.address.led@ == reference_led_channels()
                    && rev.address.sensor@ == reference_sensor_wells()
                    && rev.layout.disabled@ == reference_disabled()
                    && (forall|w: Wavelength| #[trigger] rev.wavelengths.code_of(w) == reference_code(w))
                    && (forall|w: Wavelength, i: int| 0 <= i < WELL_COUNT ==> !(#[trigger] rev.layout.damage_at(w)[i])),
            },
    {
        let address = match AddressMap::reference() {
            Ok(m) => m,
            Err(e) => return Err(e),
        };
        Ok(Revision { wavelengths: WavelengthTable::reference(), address, layout: Layout::reference() })
    }
}

} // verus!
