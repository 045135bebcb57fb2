use vstd::prelude::*;
use crate::color::{color_for_index, glyph_color};

verus! {

/// The text laid out around the sphere.
pub const DISPLAY_TEXT: &'static str = "DEMO";

/// Unicode's `White_Space` property: the characters that take no slot on the orbit.
pub open spec fn white_space(c: char) -> bool {
    let u = c as u32;
    ||| 0x09 <= u <= 0x0D
    ||| u == 0x20
    ||| u == 0x85
    ||| u == 0xA0
    ||| u == 0x1680
    ||| 0x2000 <= u <= 0x200A
    ||| u == 0x2028
    ||| u == 0x2029
    ||| u == 0x202F
    ||| u == 0x205F
    ||| u == 0x3000
}

/// Tells whether `c` has Unicode's `White_Space` property.
pub fn is_white_space(c: char) -> (r: bool)
    ensures
        r == white_space(c),
{
    let u = c as u32;
    (0x09 <= u && u <= 0x0D) || u == 0x20 || u == 0x85 || u == 0xA0 || u == 0x1680 || (0x2000
        <= u && u <= 0x200A) || u == 0x2028 || u == 0x2029 || u == 0x202F || u == 0x205F || u
        == 0x3000
}

/// The characters of `s` that get a slot on the orbit, in order: all but whitespace.
pub open spec fn visible_chars(s: Seq<char>) -> Seq<char>
    decreases s.len(),
{
    if s.len() == 0 {
        Seq::empty()
    } else {
        let rest = visible_chars(s.drop_last());
        if white_space(s.last()) {
            rest
        } else {
            rest.push(s.last())
        }
    }
}

/// One glyph placed on the orbit. Slot `slot` of `slot_count` stands at the angle
/// `-2π * slot / slot_count` about the vertical axis (clockwise seen from above), at
/// `x = r * cos(angle)`, `z = r * sin(angle)` on an orbit of radius `r`.
#[derive(Clone, Copy, Debug, PartialEq, Eq)]
pub struct GlyphSpec {
    pub character: char,
    pub slot: usize,
    pub slot_count: usize,
    /// Packed `0xRRGGBB`.
    pub color: u32,
}

impl GlyphSpec {
    /// The glyph for `character` in slot `slot` of `slot_count`, coloured by its slot.
    pub fn placed(character: char, slot: usize, slot_count: usize) -> (g: GlyphSpec)
        requires
            slot < slot_count,
        ensures
            g.character == character,
            g.slot == slot,
            g.slot_count == slot_count,
            g.color == glyph_color(slot as int, slot_count as int),
    {
        GlyphSpec { character, slot, slot_count, color: color_for_index(slot, slot_count) }
    }

    /// The glyph's angle as a fraction of a full turn: numerator over
    /// [`GlyphSpec::angle_turn_den`].
    pub open spec fn angle_turn_num(self) -> int {
        -(self.slot as int)
    }

    /// The denominator of the glyph's angle in turns: the number of slots.
    pub open spec fn angle_turn_den(self) -> int {
        self.slot_count as int
    }
}

/// What [`layout`] returns for the text `s`: slot `i` holds the `i`-th visible
/// character, with hue `i / N` over the `N` visible characters.
pub open spec fn laid_out(s: Seq<char>, r: Seq<GlyphSpec>) -> bool {
    let v = visible_chars(s);
    &&& r.len() == v.len()
    &&& forall|i: int|
        0 <= i < r.len() ==> {
            &&& (#[trigger] r[i]).character == v[i]
            &&& r[i].slot == i
            &&& r[i].slot_count == r.len()
            &&& r[i].color == glyph_color(i, r.len() as int)
        }
}

/// Collects the characters of `text` that are not whitespace.
pub fn visible_glyphs(text: &Vec<char>) -> (r: Vec<char>)
    ensures
        r@ == visible_chars(text@),
{
    let mut r: Vec<char> = Vec::new();
    let mut i: usize = 0;
    while i < text.len()
        invariant
            i <= text.len(),
            r@ == visible_chars(text@.take(i as int)),
        decreases text.len() - i,
    {
        assert(text@.take(i + 1).drop_last() =~= text@.take(i as int));
        let c = text[i];
        if !is_white_space(c) {
            r.push(c);
        }
        i += 1;
    }
    assert(text@.take(i as int) =~= text@);
    r
}

/// Places the visible characters of `text` evenly on the orbit: the `N` glyphs get
/// slots `0..N` (angles `0, -2π/N, -4π/N, ...`) and hues `0, 1/N, 2/N, ...`.
/// Whitespace takes no slot; with no visible character the result is empty.
pub fn layout(text: &Vec<char>) -> (r: Vec<GlyphSpec>)
    ensures
        laid_out(text@, r@),
{
    let glyphs = visible_glyphs(text);
    let n: usize = glyphs.len();
    let mut r: Vec<GlyphSpec> = Vec::new();
    let mut i: usize = 0;
    while i < n
        invariant
            n == glyphs.len(),
            i <= n,
            r.len() == i,
            glyphs@ == visible_chars(text@),
            forall|j: int|
                0 <= j < i ==> {
                    &&& (#[trigger] r@[j]).character == glyphs@[j]
                    &&& r@[j].slot == j
                    &&& r@[j].slot_count == n
                    &&& r@[j].color == glyph_color(j, n as int)
                },
        decreases n - i,
    {
        r.push(GlyphSpec::placed(glyphs[i], i, n));
        i += 1;
    }
    r
}

/// Laid out glyphs start at angle 0 and each one stands exactly `1/N` of a turn
/// (`2π/N`) clockwise of the one before, all over the same `N`: the angles fall
/// strictly, by a constant step.
pub proof fn lemma_layout_angles(s: Seq<char>, r: Seq<GlyphSpec>)
    requires
        laid_out(s, r),
    ensures
        r.len() > 0 ==> r[0].angle_turn_num() == 0,
        forall|i: int|
            0 <= i < r.len() ==> (#[trigger] r[i]).angle_turn_den() == r.len(),
        forall|i: int|
            0 <= i < r.len() - 1 ==> (#[trigger] r[i]).angle_turn_num() - r[i + 1].angle_turn_num()
                == 1,
{
}

/// Text made only of whitespace lays out no glyph.
pub proof fn lemma_layout_all_white(s: Seq<char>, r: Seq<GlyphSpec>)
    requires
        laid_out(s, r),
        forall|i: int| 0 <= i < s.len() ==> white_space(#[trigger] s[i]),
    ensures
        r.len() == 0,
{
    lemma_all_white_invisible(s);
}

proof fn lemma_all_white_invisible(s: Seq<char>)
    requires
        forall|i: int| 0 <= i < s.len() ==> white_space(#[trigger] s[i]),
    ensures
        visible_chars(s).len() == 0,
    decreases s.len(),
{
    if s.len() > 0 {
        let t = s.drop_last();
        assert forall|i: int| 0 <= i < t.len() implies white_space(#[trigger] t[i]) by {
            assert(t[i] == s[i]);
        }
        lemma_all_white_invisible(t);
        assert(white_space(s[s.len() - 1]));
    }
}

/// Text with `N` characters none of which is whitespace lays out exactly `N` glyphs,
/// in the order of the text.
pub proof fn lemma_layout_no_white(s: Seq<char>, r: Seq<GlyphSpec>)
    requires
        laid_out(s, r),
        forall|i: int| 0 <= i < s.len() ==> !white_space(#[trigger] s[i]),
    ensures
        r.len() == s.len(),
        forall|i: int| 0 <= i < r.len() ==> (#[trigger] r[i]).character == s[i],
{
    lemma_no_white_all_visible(s);
}

proof fn lemma_no_white_all_visible(s: Seq<char>)
    requires
        forall|i: int| 0 <= i < s.len() ==> !white_space(#[trigger] s[i]),
    ensures
        visible_chars(s) == s,
    decreases s.len(),
{
    if s.len() > 0 {
        let t = s.drop_last();
        assert forall|i: int| 0 <= i < t.len() implies !white_space(#[trigger] t[i]) by {
            assert(t[i] == s[i]);
        }
        lemma_no_white_all_visible(t);
        assert(!white_space(s[s.len() - 1]));
        assert(t.push(s.last()) =~= s);
    }
}

} // verus!
