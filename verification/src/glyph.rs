use vstd::prelude::*;
use std::collections::HashMap;

verus! {

broadcast use vstd::std_specs::hash::group_hash_axioms;

/// Complexity score of the `A` glyph (also charged for `O`).
pub const GLYPH_A_COMPLEXITY: u32 = 40;
/// Complexity score of the `B` glyph.
pub const GLYPH_B_COMPLEXITY: u32 = 60;
/// Complexity score of the `C` glyph.
pub const GLYPH_C_COMPLEXITY: u32 = 35;
/// Free-tier licenses render only glyphs whose complexity is below this budget.
pub const FREE_TIER_BUDGET: u32 = 50;
/// Coordinates are snapped to multiples of this grid pitch.
pub const GRID_SNAP: i64 = 4;

/// The glyphs that have a dedicated outline.
#[derive(Clone, Copy, Debug, PartialEq, Eq, Structural)]
pub enum GlyphKind {
    A,
    B,
    C,
    O,
}

impl GlyphKind {
    /// The complexity score charged against the free-tier budget.
    pub open spec fn spec_complexity(self) -> u32 {
        match self {
            GlyphKind::A => GLYPH_A_COMPLEXITY,
            GlyphKind::B => GLYPH_B_COMPLEXITY,
            GlyphKind::C => GLYPH_C_COMPLEXITY,
            GlyphKind::O => GLYPH_A_COMPLEXITY,
        }
    }

    /// The letter that the glyph draws.
    pub open spec fn spec_letter(self) -> char {
        match self {
            GlyphKind::A => 'A',
            GlyphKind::B => 'B',
            GlyphKind::C => 'C',
            GlyphKind::O => 'O',
        }
    }

    /// The complexity score charged against the free-tier budget.
    pub fn complexity(self) -> (c: u32)
        ensures
            c == self.spec_complexity(),
    {
        match self {
            GlyphKind::A => GLYPH_A_COMPLEXITY,
            GlyphKind::B => GLYPH_B_COMPLEXITY,
            GlyphKind::C => GLYPH_C_COMPLEXITY,
            GlyphKind::O => GLYPH_A_COMPLEXITY,
        }
    }

    /// The letter that the glyph draws.
    pub fn letter(self) -> (c: char)
        ensures
            c == self.spec_letter(),
    {
        match self {
            GlyphKind::A => 'A',
            GlyphKind::B => 'B',
            GlyphKind::C => 'C',
            GlyphKind::O => 'O',
        }
    }
}

/// ASCII upper-casing: `a`-`z` become `A`-`Z`, every other character is kept.
pub open spec fn ascii_upper(c: char) -> char {
    if 'a' <= c && c <= 'z' {
        ((c as u32) - 32) as char
    } else {
        c
    }
}

/// Upper-cases an ASCII letter and keeps every other character.
pub fn to_ascii_uppercase(c: char) -> (u: char)
    ensures
        u == ascii_upper(c),
{
    if 'a' <= c && c <= 'z' {
        let b: u8 = (c as u8) - 32u8;
        b as char
    } else {
        c
    }
}

/// The dispatch table: code points of `A`, `B`, `C` and `O` to their glyphs.
pub open spec fn glyph_table() -> Map<u32, GlyphKind> {
    map![65u32 => GlyphKind::A, 66u32 => GlyphKind::B, 67u32 => GlyphKind::C, 79u32 => GlyphKind::O]
}

/// The glyph drawn for a character, after ASCII upper-casing, if it has one.
pub open spec fn glyph_for(c: char) -> Option<GlyphKind> {
    let key = ascii_upper(c) as u32;
    if glyph_table().contains_key(key) {
        Some(glyph_table()[key])
    } else {
        None
    }
}

/// Upper-casing moves each lower-case ASCII letter 32 code points down to its
/// capital and keeps every other character, so a second application changes
/// nothing.
pub proof fn lemma_ascii_upper(c: char)
    ensures
        'a' <= c <= 'z' ==> ascii_upper(c) as u32 == c as u32 - 32 && 'A' <= ascii_upper(c) <= 'Z',
        !('a' <= c <= 'z') ==> ascii_upper(c) == c,
        ascii_upper(ascii_upper(c)) == ascii_upper(c),
{
}

/// A character is drawn with the outline of a glyph exactly when it
/// upper-cases to that glyph's letter; every other character has none.
pub proof fn lemma_glyph_for_letter(c: char, k: GlyphKind)
    ensures
        glyph_for(c) == Some(k) <==> ascii_upper(c) == k.spec_letter(),
        glyph_for(c) is None <==> (ascii_upper(c) != 'A' && ascii_upper(c) != 'B'
            && ascii_upper(c) != 'C' && ascii_upper(c) != 'O'),
{
}

/// Constant-time dispatch from a character to its glyph outline.
pub struct GlyphIndex {
    table: HashMap<u32, GlyphKind>,
}

impl View for GlyphIndex {
    type V = Map<u32, GlyphKind>;

    closed spec fn view(&self) -> Map<u32, GlyphKind> {
        self.table@
    }
}

impl GlyphIndex {
    /// The index of the four drawn glyphs.
    pub fn new() -> (index: GlyphIndex)
        ensures
            index@ == glyph_table(),
    {
        let mut t: HashMap<u32, GlyphKind> = HashMap::new();
        t.insert(65u32, GlyphKind::A);
        t.insert(66u32, GlyphKind::B);
        t.insert(67u32, GlyphKind::C);
        t.insert(79u32, GlyphKind::O);
        GlyphIndex { table: t }
    }

    /// The glyph registered for exactly this character (no case folding).
    pub fn get(&self, ch: char) -> (kind: Option<GlyphKind>)
        ensures
            kind == (if self@.contains_key(ch as u32) {
                Some(self@[ch as u32])
            } else {
                None
            }),
    {
        match self.table.get(&(ch as u32)) {
            Some(k) => Some(*k),
            None => None,
        }
    }
}

} // verus!
