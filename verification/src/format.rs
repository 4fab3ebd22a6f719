//! The bounded-value formatter: from a reading, its unit, its alert
//! thresholds and its display limits to the four cells of the display.

use vstd::prelude::*;

verus! {

/// The lowest value that fits the display together with a unit.
pub const LOWEST: i16 = -99;

/// The highest value that fits the display together with a unit.
pub const HIGHEST: i16 = 999;

/// What one cell of the display shows.
#[derive(Clone, Copy, Debug, PartialEq, Eq)]
pub enum Cell {
    /// A decimal digit, 0 to 9.
    Digit(u8),
    /// A literal character.
    Char(char),
}

impl Cell {
    /// A digit cell holds a single decimal digit.
    pub open spec fn wf(self) -> bool {
        self matches Cell::Digit(d) ==> d <= 9
    }
}

/// Possible choices for temperature units
#[derive(Copy, Clone, Debug)]
pub enum TempUnits {
    /// Celsius degrees
    Celsius,
    /// Fahrenheit degrees
    Fahrenheit,
}

impl TempUnits {
    /// The character that stands for the unit on the display.
    pub open spec fn symbol(self) -> char {
        match self {
            TempUnits::Celsius => 'C',
            TempUnits::Fahrenheit => 'F',
        }
    }

    /// The character that stands for the unit on the display.
    pub fn unit_char(self) -> (ch: char)
        ensures
            ch == self.symbol(),
    {
        match self {
            TempUnits::Celsius => 'C',
            TempUnits::Fahrenheit => 'F',
        }
    }
}

/// How a reading is shown.
#[derive(Clone, Copy, Debug, PartialEq, Eq)]
pub enum RenderMode {
    /// The reading is outside the display limits: `----`.
    OutOfBounds,
    /// The reading is below the low threshold: `-LL-`.
    BelowThreshold,
    /// The reading is above the high threshold: `-HH-`.
    AboveThreshold,
    /// The reading is shown as a number with its unit.
    Normal,
}

/// The display limits used for a call: the caller's, unless they reach
/// beyond what the display can show, in which case both are replaced.
pub open spec fn bounds_in_force(min_val: i16, max_val: i16) -> (i16, i16) {
    if min_val < LOWEST || max_val > HIGHEST {
        (LOWEST, HIGHEST)
    } else {
        (min_val, max_val)
    }
}

/// The thresholds used for a call. A missing threshold is the limit on its
/// side; a low threshold under the lower limit is raised to it, a high
/// threshold over the upper limit is lowered to it. Each threshold is
/// resolved on its own: a missing high threshold stands for the upper limit
/// and leaves the low threshold as it is.
pub open spec fn thresholds_in_force(
    lo_thresh: Option<i16>,
    hi_thresh: Option<i16>,
    min_val: i16,
    max_val: i16,
) -> (i16, i16) {
    let (lo, hi) = bounds_in_force(min_val, max_val);
    let lo_th = match lo_thresh {
        Some(th) => th,
        None => lo,
    };
    let hi_th = match hi_thresh {
        Some(th) => th,
        None => hi,
    };
    (
        if lo_th < lo {
            lo
        } else {
            lo_th
        },
        if hi_th > hi {
            hi
        } else {
            hi_th
        },
    )
}

/// The mode for a reading, given limits and thresholds that are in force.
/// The limits are tested first, then the low threshold, then the high one.
pub open spec fn mode_of(value: i16, lo_th: i16, hi_th: i16, lo: i16, hi: i16) -> RenderMode {
    if value < lo || value > hi {
        RenderMode::OutOfBounds
    } else if value < lo_th {
        RenderMode::BelowThreshold
    } else if value > hi_th {
        RenderMode::AboveThreshold
    } else {
        RenderMode::Normal
    }
}

/// Four cells that hold the given characters.
pub open spec fn literal_cells(a: char, b: char, c: char, d: char) -> Seq<Cell> {
    seq![Cell::Char(a), Cell::Char(b), Cell::Char(c), Cell::Char(d)]
}

/// The absolute value.
pub open spec fn magnitude(value: int) -> int {
    if value < 0 {
        -value
    } else {
        value
    }
}

/// The cells of a reading shown as a number: sign or hundreds, tens, units
/// and the unit. Leading zeros are blank.
pub open spec fn normal_cells(value: int, unit: char) -> Seq<Cell> {
    let hundreds = magnitude(value) / 100;
    let decimals = magnitude(value) % 100 / 10;
    let units = magnitude(value) % 10;
    seq![
        if value < 0 {
            Cell::Char('-')
        } else if hundreds == 0 {
            Cell::Char(' ')
        } else {
            Cell::Digit(hundreds as u8)
        },
        if (hundreds == 0 || value < 0) && decimals == 0 {
            Cell::Char(' ')
        } else {
            Cell::Digit(decimals as u8)
        },
        Cell::Digit(units as u8),
        Cell::Char(unit),
    ]
}

/// The cells for a reading in a given mode.
pub open spec fn cells_in_mode(mode: RenderMode, value: i16, unit: char) -> Seq<Cell> {
    match mode {
        RenderMode::OutOfBounds => literal_cells('-', '-', '-', '-'),
        RenderMode::BelowThreshold => literal_cells('-', 'L', 'L', '-'),
        RenderMode::AboveThreshold => literal_cells('-', 'H', 'H', '-'),
        RenderMode::Normal => normal_cells(value as int, unit),
    }
}

/// The four cells that show a reading.
pub open spec fn cells_of(
    value: i16,
    unit: char,
    lo_thresh: Option<i16>,
    hi_thresh: Option<i16>,
    min_val: i16,
    max_val: i16,
) -> Seq<Cell> {
    let (lo, hi) = bounds_in_force(min_val, max_val);
    let (lo_th, hi_th) = thresholds_in_force(lo_thresh, hi_thresh, min_val, max_val);
    cells_in_mode(mode_of(value, lo_th, hi_th, lo, hi), value, unit)
}

/// Replaces display limits that reach beyond what the display can show.
pub fn clamp_bounds(min_val: i16, max_val: i16) -> (bounds: (i16, i16))
    ensures
        bounds == bounds_in_force(min_val, max_val),
        LOWEST <= bounds.0,
        bounds.1 <= HIGHEST,
{
    if min_val < LOWEST || max_val > HIGHEST {
        (LOWEST, HIGHEST)
    } else {
        (min_val, max_val)
    }
}

/// Fills in missing thresholds and brings them inside the display limits.
pub fn resolve_thresholds(
    lo_thresh: Option<i16>,
    hi_thresh: Option<i16>,
    min_val: i16,
    max_val: i16,
) -> (thresholds: (i16, i16))
    ensures
        thresholds == thresholds_in_force(lo_thresh, hi_thresh, min_val, max_val),
        bounds_in_force(min_val, max_val).0 <= thresholds.0,
        thresholds.1 <= bounds_in_force(min_val, max_val).1,
{
    let (lo, hi) = clamp_bounds(min_val, max_val);
    let mut lo_th: i16 = match lo_thresh {
        Some(th) => th,
        None => lo,
    };
    if lo_th < lo {
        lo_th = lo;
    }
    let mut hi_th: i16 = match hi_thresh {
        Some(th) => th,
        None => hi,
    };
    if hi_th > hi {
        hi_th = hi;
    }
    (lo_th, hi_th)
}

/// Chooses the mode for a reading.
pub fn select_mode(value: i16, lo_th: i16, hi_th: i16, lo: i16, hi: i16) -> (mode: RenderMode)
    ensures
        mode == mode_of(value, lo_th, hi_th, lo, hi),
{
    if value < lo || value > hi {
        RenderMode::OutOfBounds
    } else if value < lo_th {
        RenderMode::BelowThreshold
    } else if value > hi_th {
        RenderMode::AboveThreshold
    } else {
        RenderMode::Normal
    }
}

/// Renders a reading that lies inside the display limits as a number.
fn render_normal(value: i16, unit: char) -> (cells: [Cell; 4])
    requires
        LOWEST <= value <= HIGHEST,
    ensures
        cells@ == normal_cells(value as int, unit),
        forall|i: int| 0 <= i < 4 ==> (#[trigger] cells@[i]).wf(),
{
    let size: u16 = if value < 0 {
        (-value) as u16
    } else {
        value as u16
    };
    let hundreds: u8 = (size / 100) as u8;
    let decimals: u8 = ((size % 100) / 10) as u8;
    let units: u8 = (size % 10) as u8;
    let first = if value < 0 {
        Cell::Char('-')
    } else if hundreds == 0 {
        Cell::Char(' ')
    } else {
        Cell::Digit(hundreds)
    };
    let second = if (hundreds == 0 || value < 0) && decimals == 0 {
        Cell::Char(' ')
    } else {
        Cell::Digit(decimals)
    };
    [first, second, Cell::Digit(units), Cell::Char(unit)]
}

/// Renders a reading into the four cells of the display.
///
/// A reading outside the display limits shows as `----`, one below the low
/// threshold as `-LL-`, one above the high threshold as `-HH-`; any other
/// shows as a number followed by its unit.
pub fn render(
    value: i16,
    unit: char,
    lo_thresh: Option<i16>,
    hi_thresh: Option<i16>,
    min_val: i16,
    max_val: i16,
) -> (cells: [Cell; 4])
    ensures
        cells@ == cells_of(value, unit, lo_thresh, hi_thresh, min_val, max_val),
        forall|i: int| 0 <= i < 4 ==> (#[trigger] cells@[i]).wf(),
{
    let (lo, hi) = clamp_bounds(min_val, max_val);
    let (lo_th, hi_th) = resolve_thresholds(lo_thresh, hi_thresh, min_val, max_val);
    match select_mode(value, lo_th, hi_th, lo, hi) {
        RenderMode::OutOfBounds => [Cell::Char('-'), Cell::Char('-'), Cell::Char('-'), Cell::Char('-')],
        RenderMode::BelowThreshold => [
            Cell::Char('-'),
            Cell::Char('L'),
            Cell::Char('L'),
            Cell::Char('-'),
        ],
        RenderMode::AboveThreshold => [
            Cell::Char('-'),
            Cell::Char('H'),
            Cell::Char('H'),
            Cell::Char('-'),
        ],
        RenderMode::Normal => render_normal(value, unit),
    }
}

/// Resolving thresholds that were already resolved against the same limits
/// changes nothing.
pub proof fn lemma_thresholds_idempotent(
    lo_thresh: Option<i16>,
    hi_thresh: Option<i16>,
    min_val: i16,
    max_val: i16,
)
    ensures
        ({
            let (lo_th, hi_th) = thresholds_in_force(lo_thresh, hi_thresh, min_val, max_val);
            thresholds_in_force(Some(lo_th), Some(hi_th), min_val, max_val) == (lo_th, hi_th)
        }),
{
}

/// A reading shows the same with thresholds as given and with the same
/// thresholds resolved beforehand.
pub proof fn lemma_resolved_thresholds_show_alike(
    value: i16,
    unit: char,
    lo_thresh: Option<i16>,
    hi_thresh: Option<i16>,
    min_val: i16,
    max_val: i16,
)
    ensures
        ({
            let (lo_th, hi_th) = thresholds_in_force(lo_thresh, hi_thresh, min_val, max_val);
            cells_of(value, unit, Some(lo_th), Some(hi_th), min_val, max_val) == cells_of(
                value,
                unit,
                lo_thresh,
                hi_thresh,
                min_val,
                max_val,
            )
        }),
{
    lemma_thresholds_idempotent(lo_thresh, hi_thresh, min_val, max_val);
}

/// A reading outside the display limits shows as `----`, whatever the
/// thresholds are.
pub proof fn lemma_limits_come_first(
    value: i16,
    unit: char,
    lo_thresh: Option<i16>,
    hi_thresh: Option<i16>,
    min_val: i16,
    max_val: i16,
)
    requires
        value < bounds_in_force(min_val, max_val).0 || value > bounds_in_force(min_val, max_val).1,
    ensures
        cells_of(value, unit, lo_thresh, hi_thresh, min_val, max_val) == literal_cells(
            '-',
            '-',
            '-',
            '-',
        ),
{
}

} // verus!
