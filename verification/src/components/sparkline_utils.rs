//! Inline sparklines drawn with Braille characters.
use vstd::prelude::*;
use crate::text::{repeat_char, repeat_str};

verus! {

broadcast use vstd::string::group_string_axioms;

/// The sparkline of a series whose readings are all equal: full cells at both
/// ends and a level line between them; narrow sparklines are all full cells.
pub open spec fn flat_sparkline(width: nat) -> Seq<char> {
    if width <= 2 {
        repeat_char('⣿', width)
    } else {
        seq!['⣿'] + repeat_char('⣤', (width - 2) as nat) + seq!['⣿']
    }
}

/// Generate a flat sparkline for constant values.
pub fn generate_flat_sparkline(width: usize) -> (res: String)
    ensures
        res@ == flat_sparkline(width as nat),
{
    proof {
        reveal_strlit("⣿");
        reveal_strlit("⣤");
    }
    if width <= 2 {
        return repeat_str("⣿", width);
    }
    let mut res = "⣿".to_owned();
    let middle = repeat_str("⣤", width - 2);
    res.append(middle.as_str());
    res.append("⣿");
    res
}

/// The sparkline of no readings: blank cells, at least eight.
pub fn blank_sparkline(width: usize) -> (res: String)
    ensures
        res@ == repeat_char('⠀', if width > 8 { width as nat } else { 8 }),
{
    proof {
        reveal_strlit("⠀");
    }
    repeat_str("⠀", if width > 8 { width } else { 8 })
}

/// The sparkline of a single reading: a full cell in the middle (at half the
/// width, rounded down) of blank cells.
pub open spec fn single_point_sparkline(width: nat) -> Seq<char> {
    let half = width / 2;
    repeat_char('⠀', half) + seq!['⣿'] + repeat_char('⠀', if width >= half + 1 { (width - half - 1) as nat } else { 0 })
}

/// The sparkline of a single reading.
pub fn generate_single_point_sparkline(width: usize) -> (res: String)
    ensures
        res@ == single_point_sparkline(width as nat),
{
    proof {
        reveal_strlit("⠀");
        reveal_strlit("⣿");
    }
    let half = width / 2;
    let mut res = repeat_str("⠀", half);
    res.append("⣿");
    let rest = repeat_str("⠀", if width >= half + 1 { width - half - 1 } else { 0 });
    res.append(rest.as_str());
    res
}

/// The Braille cell of a reading at `level` eighths of the sparkline's height:
/// from the bottom row of dots up to a full cell.
pub open spec fn level_char(level: nat) -> char {
    if level == 0 {
        '⣀'
    } else if level == 1 {
        '⣄'
    } else if level == 2 {
        '⣆'
    } else if level == 3 {
        '⣇'
    } else if level == 4 {
        '⣧'
    } else if level == 5 {
        '⣷'
    } else if level <= 8 {
        '⣿'
    } else {
        '⣤'
    }
}

fn level_str(level: usize) -> (res: &'static str)
    ensures
        res@ == seq![level_char(level as nat)],
{
    proof {
        reveal_strlit("⣀");
        reveal_strlit("⣄");
        reveal_strlit("⣆");
        reveal_strlit("⣇");
        reveal_strlit("⣧");
        reveal_strlit("⣷");
        reveal_strlit("⣿");
        reveal_strlit("⣤");
    }
    if level == 0 {
        "⣀"
    } else if level == 1 {
        "⣄"
    } else if level == 2 {
        "⣆"
    } else if level == 3 {
        "⣇"
    } else if level == 4 {
        "⣧"
    } else if level == 5 {
        "⣷"
    } else if level <= 8 {
        "⣿"
    } else {
        "⣤"
    }
}

/// The inline sparkline of readings at the given levels (eighths of its
/// height): one cell per reading, blank cells after the last, `width` cells in
/// all; all blank without readings.
pub open spec fn level_sparkline(levels: Seq<usize>, width: nat) -> Seq<char> {
    Seq::new(width, |i: int| sparkline_cell(levels, i))
}

/// Cell `i` of the inline sparkline of readings at the given levels.
pub open spec fn sparkline_cell(levels: Seq<usize>, i: int) -> char {
    if i < levels.len() {
        level_char(levels[i] as nat)
    } else {
        '⠀'
    }
}

/// Generate inline sparkline using Braille characters.
pub fn generate_braille_inline_sparkline(levels: &[usize], width: usize) -> (res: String)
    ensures
        res@ == level_sparkline(levels@, width as nat),
{
    let mut res = String::new();
    let mut i: usize = 0;
    while i < width
        invariant
            0 <= i <= width,
            res@ == level_sparkline(levels@, width as nat).take(i as int),
        decreases width - i,
    {
        proof {
            reveal_strlit("⠀");
        }
        let ghost before = res@;
        if i < levels.len() {
            res.append(level_str(levels[i]));
        } else {
            res.append("⠀");
        }
        assert(res@ == before.push(sparkline_cell(levels@, i as int)));
        assert(res@ =~= level_sparkline(levels@, width as nat).take(i + 1));
        i = i + 1;
    }
    assert(res@ =~= level_sparkline(levels@, width as nat));
    res
}

/// The dot pattern of a Braille cell: its code point above U+2800, one bit per dot.
pub open spec fn braille_pattern(c: char) -> int {
    c as int - 0x2800
}

/// The weight of bit `k` (for `0 <= k < 8`) of a Braille dot pattern.
pub open spec fn dot_weight(k: int) -> int {
    if k == 0 {
        1
    } else if k == 1 {
        2
    } else if k == 2 {
        4
    } else if k == 3 {
        8
    } else if k == 4 {
        16
    } else if k == 5 {
        32
    } else if k == 6 {
        64
    } else {
        128
    }
}

/// Whether dot `k` (bit `k` of the pattern, `0 <= k < 8`) is raised in the Braille
/// cell `c`.
pub open spec fn braille_dot(c: char, k: int) -> bool {
    (braille_pattern(c) / dot_weight(k)) % 2 == 1
}

/// The cells of the levels grow with the level: every dot of a lower level's cell
/// is raised in a higher level's cell, and the full cell '⣿' is drawn exactly from
/// level 6 up.
pub proof fn lemma_level_cells_grow(a: nat, b: nat, k: int)
    requires
        a <= b <= 8,
        0 <= k < 8,
    ensures
        braille_dot(level_char(a), k) ==> braille_dot(level_char(b), k),
        (level_char(b) == '⣿') == (6 <= b),
{
}

/// In an inline sparkline, a cell drawn for a reading at no higher level than
/// another's (both at most the full height, 8) raises no dot that the other does
/// not; a cell is the full block '⣿' exactly when its reading is at level 6 to 8;
/// and cells past the readings are blank.
pub proof fn lemma_sparkline_cells_grow(levels: Seq<usize>, width: nat, i: int, j: int, k: int)
    requires
        0 <= i < width,
        0 <= j < width,
        j < levels.len(),
        0 <= k < 8,
    ensures
        i < levels.len() && levels[i] <= levels[j] <= 8 ==> (braille_dot(level_sparkline(levels, width)[i], k)
            ==> braille_dot(level_sparkline(levels, width)[j], k)),
        levels[j] <= 8 ==> ((level_sparkline(levels, width)[j] == '⣿') == (6 <= levels[j])),
        i >= levels.len() ==> level_sparkline(levels, width)[i] == '⠀',
{
    if levels[j] <= 8 {
        lemma_level_cells_grow(levels[j] as nat, levels[j] as nat, k);
        if i < levels.len() && levels[i] <= levels[j] {
            lemma_level_cells_grow(levels[i] as nat, levels[j] as nat, k);
        }
    }
}

} // verus!
