use vstd::prelude::*;
use vstd::arithmetic::div_mod::{
    lemma_div_by_multiple, lemma_div_denominator, lemma_div_is_ordered, lemma_div_pos_is_pos,
    lemma_fundamental_div_mod_converse_div, lemma_mod_add_multiples_vanish, lemma_small_mod,
};
use vstd::arithmetic::mul::{lemma_mul_inequality, lemma_mul_nonnegative};

verus! {

/// Saturation of every glyph colour, in percent.
pub const GLYPH_SATURATION_PERCENT: u64 = 80;

/// Value (brightness) of every glyph colour, in percent.
pub const GLYPH_VALUE_PERCENT: u64 = 90;

/// The hue `num / den` wrapped into `[0, 1)`, as a numerator over `den`.
pub open spec fn wrapped_hue(num: int, den: int) -> int {
    num % den
}

/// Which of the six 60-degree sectors of the hue circle the hue `num / den` lies in:
/// `floor(hue * 6) mod 6`.
pub open spec fn hue_sector(num: int, den: int) -> int {
    ((6 * wrapped_hue(num, den)) / den) % 6
}

/// `den * (1 - |(hue * 6) mod 2 - 1|)`: the weight, scaled by `den`, of the
/// intermediate component inside the hue's sector.
pub open spec fn hue_ramp(num: int, den: int) -> int {
    let r = (6 * wrapped_hue(num, den)) % (2 * den);
    den - if r >= den {
        r - den
    } else {
        den - r
    }
}

/// A colour level given in units of `1 / (10000 * den)` of full intensity, scaled to
/// 0..=255 and rounded to the nearest integer (halves round up).
pub open spec fn channel_byte(level: int, den: int) -> int {
    (255 * level + 5000 * den) / (10000 * den)
}

/// Three 8-bit channels packed as `0xRRGGBB`.
pub open spec fn pack_rgb(r: int, g: int, b: int) -> int {
    r * 65536 + g * 256 + b
}

/// The (red, green, blue) chroma components of a sector, before the match level is
/// added: `chroma` is the largest, `mid` the intermediate one.
pub open spec fn sector_components(sector: int, chroma: int, mid: int) -> (int, int, int) {
    if sector == 0 {
        (chroma, mid, 0)
    } else if sector == 1 {
        (mid, chroma, 0)
    } else if sector == 2 {
        (0, chroma, mid)
    } else if sector == 3 {
        (0, mid, chroma)
    } else if sector == 4 {
        (mid, 0, chroma)
    } else {
        (chroma, 0, mid)
    }
}

/// The standard sector conversion from HSV to RGB, with hue `num / den` (wrapping at
/// one full turn), saturation `sat` and value `val` in percent. Levels are kept exact
/// in units of `1 / (10000 * den)`: chroma `C = V * S`, intermediate
/// `X = C * (1 - |(6h mod 2) - 1|)`, match `m = V - C`.
#[verifier::opaque]
pub open spec fn hsv_rgb(num: int, den: int, sat: int, val: int) -> int {
    let chroma = sat * val * den;
    let mid = sat * val * hue_ramp(num, den);
    let base = val * den * (100 - sat);
    let c = sector_components(hue_sector(num, den), chroma, mid);
    pack_rgb(
        channel_byte(c.0 + base, den),
        channel_byte(c.1 + base, den),
        channel_byte(c.2 + base, den),
    )
}

/// The colour of glyph `i` of `total`: hue `i / total`, fixed saturation and value.
pub open spec fn glyph_color(i: int, total: int) -> int {
    hsv_rgb(i, total, GLYPH_SATURATION_PERCENT as int, GLYPH_VALUE_PERCENT as int)
}

proof fn lemma_channel_in_range(level: int, den: int)
    requires
        den > 0,
        0 <= level <= 10000 * den,
    ensures
        0 <= channel_byte(level, den) <= 255,
{
    let scale = 10000 * den;
    let x = 255 * level + 5000 * den;
    lemma_div_is_ordered(x, 256 * scale - 1, scale);
    lemma_fundamental_div_mod_converse_div(256 * scale - 1, scale, 255, scale - 1);
    lemma_div_pos_is_pos(x, scale);
}

proof fn lemma_levels_in_range(den: int, sat: int, val: int, ramp: int)
    requires
        den > 0,
        0 <= sat <= 100,
        0 <= val <= 100,
        0 <= ramp <= den,
    ensures
        0 <= sat * val * ramp <= sat * val * den,
        0 <= val * den * (100 - sat),
        sat * val * den + val * den * (100 - sat) == 100 * val * den,
        100 * val * den <= 10000 * den,
        sat * val <= 10000,
        val * den <= 100 * den,
        val * den * (100 - sat) <= 10000 * den,
{
    lemma_mul_nonnegative(sat, val);
    lemma_mul_nonnegative(sat * val, ramp);
    lemma_mul_inequality(ramp, den, sat * val);
    lemma_mul_nonnegative(val, den);
    lemma_mul_nonnegative(val * den, 100 - sat);
    assert(sat * val * den + val * den * (100 - sat) == 100 * val * den) by (nonlinear_arith);
    assert(100 * val * den <= 10000 * den) by (nonlinear_arith)
        requires
            val <= 100,
            den > 0,
    ;
    assert(sat * val <= 10000) by (nonlinear_arith)
        requires
            0 <= sat <= 100,
            0 <= val <= 100,
    ;
    assert(val * den * (100 - sat) <= 10000 * den) by (nonlinear_arith)
        requires
            0 <= sat <= 100,
            0 <= val <= 100,
            den > 0,
    ;
    assert(val * den <= 100 * den) by (nonlinear_arith)
        requires
            0 <= val <= 100,
            den > 0,
    ;
}

/// A level that is a whole multiple `k` of `den` gives the same byte whatever `den` is.
proof fn lemma_channel_of_multiple(k: int, den: int)
    requires
        den > 0,
        k >= 0,
    ensures
        channel_byte(k * den, den) == (255 * k + 5000) / 10000,
{
    assert(255 * (k * den) + 5000 * den == (255 * k + 5000) * den) by (nonlinear_arith);
    lemma_div_by_multiple(255 * k + 5000, den);
    lemma_div_denominator((255 * k + 5000) * den, den, 10000);
}

/// Glyph colours repeat with period `total`: index `i + total` has the colour of index
/// `i`.
pub proof fn lemma_glyph_color_periodic(i: int, total: int)
    requires
        total > 0,
    ensures
        glyph_color(i + total, total) == glyph_color(i, total),
{
    reveal(hsv_rgb);
    lemma_mod_add_multiples_vanish(i, total);
    assert(wrapped_hue(i + total, total) == wrapped_hue(i, total));
}

/// The hue sector always lies in `0..6`, and the hues on sector boundaries give the
/// expected colours: hue 0 and hue 1 (one full turn, wrapped) give red `0xE62E2E`, hue
/// exactly `1/6` gives yellow `0xE6E62E`.
pub proof fn lemma_glyph_color_boundaries(i: int, total: int)
    requires
        total > 0,
    ensures
        0 <= hue_sector(i, total) < 6,
        glyph_color(0, total) == 0xE62E2E,
        glyph_color(total, total) == 0xE62E2E,
        6 * i == total ==> glyph_color(i, total) == 0xE6E62E,
{
    reveal(hsv_rgb);
    assert(0 <= hue_sector(i, total) < 6);
    lemma_channel_of_multiple(9000, total);
    lemma_channel_of_multiple(1800, total);
    assert(90 * total * 20 == 1800 * total) by (nonlinear_arith);
    assert(80 * 90 * total + 1800 * total == 9000 * total) by (nonlinear_arith);
    lemma_small_mod(0, total as nat);
    assert(wrapped_hue(0, total) == 0);
    assert((6 * 0int) % (2 * total) == 0) by {
        lemma_small_mod(0, (2 * total) as nat);
    }
    assert(hue_ramp(0, total) == 0);
    assert(hue_sector(0, total) == 0);
    assert(channel_byte(80 * 90 * 0 + 1800 * total, total) == 46);
    assert(glyph_color(0, total) == 0xE62E2E);
    lemma_glyph_color_periodic(0, total);
    if 6 * i == total {
        lemma_small_mod(i as nat, total as nat);
        assert(wrapped_hue(i, total) == i);
        lemma_small_mod(total as nat, (2 * total) as nat);
        assert(hue_ramp(i, total) == total);
        lemma_div_by_multiple(1, total);
        lemma_small_mod(1, 6);
        assert(hue_sector(i, total) == 1);
    }
}

/// Converts a colour from HSV to a packed `0xRRGGBB` value. The hue is `hue_num /
/// hue_den` of a full turn and wraps at one turn; saturation and value are in percent.
/// Each channel is scaled to 0..=255 and rounded to the nearest integer, halves up.
pub fn hsv_to_rgb(hue_num: u64, hue_den: u64, saturation: u64, value: u64) -> (rgb: u32)
    requires
        hue_den > 0,
        saturation <= 100,
        value <= 100,
    ensures
        rgb == hsv_rgb(hue_num as int, hue_den as int, saturation as int, value as int),
{
    proof {
        reveal(hsv_rgb);
    }
    let den = hue_den as u128;
    let h = (hue_num % hue_den) as u128;
    let sat = saturation as u128;
    let val = value as u128;
    let sector = (6 * h) / den;
    assert(sector < 6) by (nonlinear_arith)
        requires
            sector as int == (6 * h as int) / den as int,
            h < den,
            den > 0,
    ;
    proof {
        lemma_small_mod(sector as nat, 6);
    }
    let rem = (6 * h) % (2 * den);
    let dist = if rem >= den {
        rem - den
    } else {
        den - rem
    };
    let ramp = den - dist;
    proof {
        lemma_levels_in_range(den as int, sat as int, val as int, ramp as int);
        lemma_mul_inequality(sat as int * val as int, 10000, den as int);
        lemma_mul_inequality(sat as int * val as int, 10000, ramp as int);
    }
    let sv = sat * val;
    let chroma = sv * den;
    let mid = sv * ramp;
    let base = val * den * (100 - sat);
    let (r, g, b) = if sector == 0 {
        (chroma, mid, 0)
    } else if sector == 1 {
        (mid, chroma, 0)
    } else if sector == 2 {
        (0, chroma, mid)
    } else if sector == 3 {
        (0, mid, chroma)
    } else if sector == 4 {
        (mid, 0, chroma)
    } else {
        (chroma, 0, mid)
    };
    let scale = 10000 * den;
    proof {
        lemma_channel_in_range(r + base, den as int);
        lemma_channel_in_range(g + base, den as int);
        lemma_channel_in_range(b + base, den as int);
    }
    let half = 5000 * den;
    let rb = (255 * (r + base) + half) / scale;
    let gb = (255 * (g + base) + half) / scale;
    let bb = (255 * (b + base) + half) / scale;
    (rb * 65536 + gb * 256 + bb) as u32
}

/// The display colour of glyph `i` out of `total`: hue `i / total` (wrapping at one
/// turn), saturation 80%, value 90%, packed as `0xRRGGBB`.
pub fn color_for_index(i: usize, total: usize) -> (rgb: u32)
    requires
        total > 0,
    ensures
        rgb == glyph_color(i as int, total as int),
{
    hsv_to_rgb(i as u64, total as u64, GLYPH_SATURATION_PERCENT, GLYPH_VALUE_PERCENT)
}

} // verus!
