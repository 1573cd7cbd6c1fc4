//! The playback-speed domain: its modes and the table of quantized speeds.
use vstd::prelude::*;
use crate::geometry::Marker;
use crate::normal::{clip, Normal};

verus! {

/// Index of the 1x entry of the quantized speed table.
pub const DEFAULT_QUANTIZED_SPEED_INDEX: usize = 7;

/// Number of entries in the quantized speed table.
pub const QUANTIZED_SPEEDS_LEN: usize = 15;

/// Whether the speed slider snaps to the quantized table.
#[derive(Debug, Clone, Copy, PartialEq, Eq, Structural)]
pub enum SpeedMode {
    Quantized,
    Unquantized,
}

/// How a tick mark is drawn.
#[derive(Debug, Clone, Copy, PartialEq, Eq, Structural)]
pub enum MarkWeight {
    Normal,
    Bold,
}

/// One entry of the quantized speed table: the speed
/// `numerator / denominator`, its display text and its tick mark.
#[derive(Debug, Clone, Copy)]
pub struct QuantizedSpeedValue {
    pub numerator: u32,
    pub denominator: u32,
    pub text: &'static str,
    pub mark_weight: Option<MarkWeight>,
    pub text_mark: Option<&'static str>,
}

/// The speed of entry `i` of the table as `(numerator, denominator)`:
/// 1/8, 1/7, ..., 1/2, 1, 2, ..., 8.
pub open spec fn quantized_ratio(i: int) -> (int, int) {
    if i < 7 {
        (1, 8 - i)
    } else {
        (i - 6, 1)
    }
}

/// The tick weight of entry `i`: bold at 1/8, 1 and 8, normal elsewhere.
pub open spec fn quantized_weight(i: int) -> MarkWeight {
    if i == 0 || i == 7 || i == 14 {
        MarkWeight::Bold
    } else {
        MarkWeight::Normal
    }
}

/// The display text of entry `i`.
pub open spec fn quantized_text(i: int) -> Seq<char> {
    if i == 0 {
        "1/8"@
    } else if i == 1 {
        "1/7"@
    } else if i == 2 {
        "1/6"@
    } else if i == 3 {
        "1/5"@
    } else if i == 4 {
        "1/4"@
    } else if i == 5 {
        "1/3"@
    } else if i == 6 {
        "1/2"@
    } else if i == 7 {
        "1"@
    } else if i == 8 {
        "2"@
    } else if i == 9 {
        "3"@
    } else if i == 10 {
        "x4"@
    } else if i == 11 {
        "5"@
    } else if i == 12 {
        "6"@
    } else if i == 13 {
        "7"@
    } else {
        "8"@
    }
}

/// The text mark of entry `i`, where it has one.
pub open spec fn text_mark_text(i: int) -> Seq<char> {
    if i == 0 {
        "\u{f7}8"@
    } else if i == 6 {
        "\u{f7}2"@
    } else if i == 7 {
        "1"@
    } else if i == 8 {
        "x2"@
    } else {
        "x8"@
    }
}

/// Whether entry `i` carries a text mark: at 1/8, 1/2, 1, 2 and 8.
pub open spec fn has_text_mark(i: int) -> bool {
    i == 0 || i == 6 || i == 7 || i == 8 || i == 14
}

/// Entry `index` of the quantized speed table.
pub fn quantized_speed(index: usize) -> (r: QuantizedSpeedValue)
    requires
        index < QUANTIZED_SPEEDS_LEN,
    ensures
        (r.numerator as int, r.denominator as int) == quantized_ratio(index as int),
        r.mark_weight == Some(quantized_weight(index as int)),
        r.text_mark.is_some() == has_text_mark(index as int),
        r.text@ == quantized_text(index as int),
        r.text_mark matches Some(t) ==> t@ == text_mark_text(index as int),
{
    let b = Some(MarkWeight::Bold);
    let n = Some(MarkWeight::Normal);
    let (numerator, denominator, text, mark_weight, text_mark): (
        u32,
        u32,
        &'static str,
        Option<MarkWeight>,
        Option<&'static str>,
    ) = match index {
        0 => (1, 8, "1/8", b, Some("\u{f7}8")),
        1 => (1, 7, "1/7", n, None),
        2 => (1, 6, "1/6", n, None),
        3 => (1, 5, "1/5", n, None),
        4 => (1, 4, "1/4", n, None),
        5 => (1, 3, "1/3", n, None),
        6 => (1, 2, "1/2", n, Some("\u{f7}2")),
        7 => (1, 1, "1", b, Some("1")),
        8 => (2, 1, "2", n, Some("x2")),
        9 => (3, 1, "3", n, None),
        10 => (4, 1, "x4", n, None),
        11 => (5, 1, "5", n, None),
        12 => (6, 1, "6", n, None),
        13 => (7, 1, "7", n, None),
        _ => (8, 1, "8", b, Some("x8")),
    };
    QuantizedSpeedValue { numerator, denominator, text, mark_weight, text_mark }
}

/// The whole quantized speed table, slowest first.
pub fn quantized_speeds() -> (r: Vec<QuantizedSpeedValue>)
    ensures
        r@.len() == QUANTIZED_SPEEDS_LEN,
        forall|i: int|
            0 <= i < QUANTIZED_SPEEDS_LEN ==> (r@[i].numerator as int, r@[i].denominator as int)
                == quantized_ratio(i) && r@[i].mark_weight == Some(quantized_weight(i))
                && r@[i].text_mark.is_some() == has_text_mark(i),
        forall|i: int| 0 <= i < QUANTIZED_SPEEDS_LEN ==> r@[i].text@ == quantized_text(i),
        forall|i: int|
            0 <= i < QUANTIZED_SPEEDS_LEN && r@[i].text_mark is Some ==> r@[i].text_mark->Some_0@
                == text_mark_text(i),
{
    let mut r: Vec<QuantizedSpeedValue> = Vec::new();
    let mut i: usize = 0;
    while i < QUANTIZED_SPEEDS_LEN
        invariant
            i <= QUANTIZED_SPEEDS_LEN,
            r@.len() == i,
            forall|k: int|
                0 <= k < i ==> (r@[k].numerator as int, r@[k].denominator as int)
                    == quantized_ratio(k) && r@[k].mark_weight == Some(quantized_weight(k))
                    && r@[k].text_mark.is_some() == has_text_mark(k),
            forall|k: int| 0 <= k < i ==> r@[k].text@ == quantized_text(k),
            forall|k: int|
                0 <= k < i && r@[k].text_mark is Some ==> r@[k].text_mark->Some_0@
                    == text_mark_text(k),
        decreases QUANTIZED_SPEEDS_LEN - i,
    {
        r.push(quantized_speed(i));
        i = i + 1;
    }
    r
}

/// The tick markers of the quantized speeds, where `normals[i]` is the
/// position, in normal units, of entry `i` of the table: each marker takes
/// its entry's weight, and its text mark as label.
pub fn generate_markers(normals: &Vec<i64>) -> (r: Vec<Marker>)
    requires
        normals@.len() == QUANTIZED_SPEEDS_LEN,
    ensures
        r@.len() == QUANTIZED_SPEEDS_LEN,
        forall|i: int| 0 <= i < QUANTIZED_SPEEDS_LEN ==> r@[i].position@ == clip(normals@[i] as int),
        forall|i: int| 0 <= i < QUANTIZED_SPEEDS_LEN ==> r@[i].weight == Some(quantized_weight(i)),
        forall|i: int| 0 <= i < QUANTIZED_SPEEDS_LEN ==> (r@[i].label is Some <==> has_text_mark(i)),
        forall|i: int|
            0 <= i < QUANTIZED_SPEEDS_LEN && r@[i].label is Some ==> r@[i].label->Some_0@ == text_mark_text(i),
{
    let mut r: Vec<Marker> = Vec::new();
    let mut i: usize = 0;
    while i < QUANTIZED_SPEEDS_LEN
        invariant
            i <= QUANTIZED_SPEEDS_LEN,
            normals@.len() == QUANTIZED_SPEEDS_LEN,
            r@.len() == i,
            forall|k: int| 0 <= k < i ==> r@[k].position@ == clip(normals@[k] as int),
            forall|k: int| 0 <= k < i ==> r@[k].weight == Some(quantized_weight(k)),
            forall|k: int| 0 <= k < i ==> (r@[k].label is Some <==> has_text_mark(k)),
            forall|k: int|
                0 <= k < i && r@[k].label is Some ==> r@[k].label->Some_0@ == text_mark_text(k),
        decreases QUANTIZED_SPEEDS_LEN - i,
    {
        let speed = quantized_speed(i);
        let label: Option<String> = match speed.text_mark {
            Some(text) => {
                let owned: String = text.to_string();
                proof {
                    broadcast use vstd::string::to_string_from_display_ensures_for_str;
                }
                Some(owned)
            },
            None => None,
        };
        let marker = Marker { position: Normal::from_clipped(normals[i]), label, weight: speed.mark_weight };
        r.push(marker);
        i = i + 1;
    }
    r
}

/// Each of `numbers` as a [`Normal`], clamped into `[0, 1]`.
pub fn generate_tick_normals(numbers: &Vec<i64>) -> (r: Vec<Normal>)
    ensures
        r@.len() == numbers@.len(),
        forall|i: int| 0 <= i < numbers@.len() ==> r@[i]@ == clip(numbers@[i] as int),
{
    let mut r: Vec<Normal> = Vec::new();
    let mut i: usize = 0;
    while i < numbers.len()
        invariant
            i <= numbers@.len(),
            r@.len() == i,
            forall|k: int| 0 <= k < i ==> r@[k]@ == clip(numbers@[k] as int),
        decreases numbers@.len() - i,
    {
        r.push(Normal::new(numbers[i]));
        i = i + 1;
    }
    r
}

} // verus!
