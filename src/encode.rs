//! Pure encoders: decimal digits, the dot bitmask, calendar limits and sensor readings.
use vstd::prelude::*;

verus! {

/// The four decimal digits of `n`, thousands first, for `n` below ten thousand.
pub open spec fn digits_of(n: int) -> Seq<u8> {
    seq![(n / 1000) as u8, ((n % 1000) / 100) as u8, ((n % 100) / 10) as u8, (n % 10) as u8]
}

/// The weight of the dot at `position`: bit `position + 1`.
pub open spec fn dot_weight(position: int) -> int {
    if position == 0 { 2 } else if position == 1 { 4 } else if position == 2 { 8 } else { 16 }
}

/// Sum of the weights of the dots switched on among the first `n` positions.
pub open spec fn dot_mask_upto(dots: Seq<bool>, n: int) -> int
    decreases n,
{
    if n <= 0 {
        0
    } else {
        dot_mask_upto(dots, n - 1) + if dots[n - 1] { dot_weight(n - 1) } else { 0 }
    }
}

/// The dot bitmask: bit `i + 1` set exactly when dot `i` is on.
pub open spec fn dot_mask(dots: Seq<bool>) -> int {
    (if dots[0] { 2int } else { 0 }) + (if dots[1] { 4int } else { 0 }) + (if dots[2] {
        8int
    } else {
        0
    }) + (if dots[3] { 16int } else { 0 })
}

/// The dot bitmask sets bit `i + 1` exactly when dot `i` is on, and no other bit.
pub proof fn lemma_dot_mask_bits(dots: Seq<bool>)
    requires
        dots.len() == 4,
    ensures
        0 <= dot_mask(dots) < 256,
        forall|i: int|
            0 <= i < 4 ==> (((dot_mask(dots) as u8) >> ((i + 1) as u8)) & 1u8 == 1u8 <==> dots[i]),
        (dot_mask(dots) as u8) & 0xe1u8 == 0u8,
{
    let m: u8 = dot_mask(dots) as u8;
    let b0 = dots[0];
    let b1 = dots[1];
    let b2 = dots[2];
    let b3 = dots[3];
    assert(m == (if b0 { 2u8 } else { 0u8 }) | (if b1 { 4u8 } else { 0u8 }) | (if b2 {
        8u8
    } else {
        0u8
    }) | (if b3 { 16u8 } else { 0u8 })) by (bit_vector)
        requires
            m as int == (if b0 { 2int } else { 0 }) + (if b1 { 4int } else { 0 }) + (if b2 {
                8int
            } else {
                0
            }) + (if b3 { 16int } else { 0 }),
    ;
    assert(((m >> 1u8) & 1u8 == 1u8 <==> b0) && ((m >> 2u8) & 1u8 == 1u8 <==> b1) && ((m >> 3u8)
        & 1u8 == 1u8 <==> b2) && ((m >> 4u8) & 1u8 == 1u8 <==> b3) && m & 0xe1u8 == 0u8)
        by (bit_vector)
        requires
            m == (if b0 { 2u8 } else { 0u8 }) | (if b1 { 4u8 } else { 0u8 }) | (if b2 {
                8u8
            } else {
                0u8
            }) | (if b3 { 16u8 } else { 0u8 }),
    ;
    assert forall|i: int| 0 <= i < 4 implies ((m >> ((i + 1) as u8)) & 1u8 == 1u8 <==> dots[i]) by {
        if i == 0 {
        } else if i == 1 {
        } else if i == 2 {
        } else {
        }
    }
}

/// Collapses four dot switches, left to right, into the controller's bitmask.
pub fn dots_mask(dots: [bool; 4]) -> (r: u8)
    ensures
        r as int == dot_mask(dots@),
{
    let mut mask: u8 = 0;
    let mut weight: u8 = 2;
    let mut idx: usize = 0;
    while idx < 4
        invariant
            0 <= idx <= 4,
            mask as int == dot_mask_upto(dots@, idx as int),
            weight as int == dot_weight(idx as int) || idx == 4,
            dot_mask_upto(dots@, idx as int) < dot_weight(idx as int) || idx == 4,
            idx < 4 ==> weight <= 16,
        decreases 4 - idx,
    {
        if dots[idx] {
            mask = mask + weight;
        }
        idx = idx + 1;
        if idx < 4 {
            weight = weight * 2;
        }
    }
    assert(dot_mask_upto(dots@, 4) == dot_mask(dots@)) by {
        reveal_with_fuel(dot_mask_upto, 5);
    }
    mask
}

/// Largest day of `month`; February always allows 29, whatever the year.
pub open spec fn days_in_month(month: int) -> int {
    if month == 2 {
        29
    } else if month == 4 || month == 6 || month == 9 || month == 11 {
        30
    } else {
        31
    }
}

/// A month in 1..=12 and a day in 1..=days_in_month(month).
pub open spec fn is_valid_date(month: int, day: int) -> bool {
    1 <= month <= 12 && 1 <= day <= days_in_month(month)
}

/// Checks a month and day against the calendar limits.
pub fn date_is_valid(month: u8, day: u8) -> (r: bool)
    ensures
        r == is_valid_date(month as int, day as int),
{
    if month > 12 || month < 1 {
        false
    } else if day < 1 {
        false
    } else if (month == 1 || month == 3 || month == 5 || month == 7 || month == 8 || month == 10
        || month == 12) && day > 31 {
        false
    } else if (month == 4 || month == 6 || month == 9 || month == 11) && day > 30 {
        false
    } else {
        !(month == 2 && day > 29)
    }
}

/// Code of the blank glyph.
pub const BLANK: u8 = 0x20;

/// Code of the dash glyph.
pub const DASH: u8 = 0x2d;

/// Code of the letter L.
pub const LETTER_L: u8 = 0x4c;

/// Code of the letter H.
pub const LETTER_H: u8 = 0x48;

/// Lower display limit: `min_val` when it is above -100, else -99.
pub open spec fn low_limit(min_val: int) -> int {
    if min_val > -100 {
        min_val
    } else {
        -99
    }
}

/// Upper display limit: `max_val` when it is below 1000, else 999.
pub open spec fn high_limit(max_val: int) -> int {
    if max_val < 1000 {
        max_val
    } else {
        999
    }
}

/// The lower threshold in force: the one supplied, else the lower limit.
pub open spec fn low_threshold(lo: Option<i16>, min_val: int) -> int {
    match lo {
        Some(v) => v as int,
        None => low_limit(min_val),
    }
}

/// The upper threshold in force: the one supplied, else the upper limit.
pub open spec fn high_threshold(hi: Option<i16>, max_val: int) -> int {
    match hi {
        Some(v) => v as int,
        None => high_limit(max_val),
    }
}

/// Absolute value.
pub open spec fn abs(x: int) -> int {
    if x < 0 {
        -x
    } else {
        x
    }
}

/// A value rendered as sign or hundreds, tens, units and unit, with leading zeros blanked.
pub open spec fn value_cells(data: int, unit: u8) -> Seq<u8> {
    let a = abs(data);
    let hundreds = a / 100;
    let tens = (a % 100) / 10;
    seq![
        if data < 0 {
            DASH
        } else if hundreds == 0 {
            BLANK
        } else {
            hundreds as u8
        },
        if (hundreds == 0 || data < 0) && tens == 0 {
            BLANK
        } else {
            tens as u8
        },
        (a % 10) as u8,
        unit,
    ]
}

/// What the four positions show for a reading: `----` outside [min_val, max_val], `-LL-` below
/// the lower threshold, `-HH-` above the upper one, else the value with its unit.
pub open spec fn reading_cells(
    data: int,
    unit: u8,
    lo: Option<i16>,
    hi: Option<i16>,
    min_val: int,
    max_val: int,
) -> Seq<u8> {
    if data < min_val || data > max_val {
        seq![DASH, DASH, DASH, DASH]
    } else if data < low_threshold(lo, min_val) {
        seq![DASH, LETTER_L, LETTER_L, DASH]
    } else if data > high_threshold(hi, max_val) {
        seq![DASH, LETTER_H, LETTER_H, DASH]
    } else {
        value_cells(data, unit)
    }
}

/// Renders a reading into the codes of the four positions.
pub fn reading_to_cells(
    data: i16,
    unit: u8,
    lo_thresh: Option<i16>,
    hi_thresh: Option<i16>,
    min_val: i16,
    max_val: i16,
) -> (r: [u8; 4])
    requires
        (data >= min_val && data <= max_val && low_threshold(lo_thresh, min_val as int) <= data
            <= high_threshold(hi_thresh, max_val as int)) ==> -999 <= data <= 999,
    ensures
        r@ == reading_cells(data as int, unit, lo_thresh, hi_thresh, min_val as int, max_val as int),
{
    let mut min_limit: i16 = -99;
    let mut max_limit: i16 = 999;
    if min_val > -100 {
        min_limit = min_val;
    }
    if max_val < 1000 {
        max_limit = max_val;
    }
    let mut lo_th: i16 = min_limit;
    let mut hi_th: i16 = max_limit;
    if let Some(val) = lo_thresh {
        lo_th = val;
    }
    if let Some(val) = hi_thresh {
        hi_th = val;
    }
    let r = if data < min_val || data > max_val {
        [DASH, DASH, DASH, DASH]
    } else if data < lo_th {
        [DASH, LETTER_L, LETTER_L, DASH]
    } else if data > hi_th {
        [DASH, LETTER_H, LETTER_H, DASH]
    } else {
        let a: i16 = if data < 0 {
            -data
        } else {
            data
        };
        let hundreds: u8 = (a / 100) as u8;
        let tens: u8 = ((a % 100) / 10) as u8;
        let first: u8 = if data < 0 {
            DASH
        } else if hundreds == 0 {
            BLANK
        } else {
            hundreds
        };
        let second: u8 = if (hundreds == 0 || data < 0) && tens == 0 {
            BLANK
        } else {
            tens
        };
        [first, second, (a % 10) as u8, unit]
    };
    assert(r@ =~= reading_cells(
        data as int,
        unit,
        lo_thresh,
        hi_thresh,
        min_val as int,
        max_val as int,
    ));
    r
}

} // verus!
