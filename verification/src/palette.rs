//! Intensity to terminal text: colours, bands and shade glyphs.

use vstd::prelude::*;
use vstd::string::StringExecFns;
use crate::term::{bg_sequence, fg_sequence, bg_code, fg_code};

verus! {

/// The named terminal colours that the palette draws on.
#[derive(Clone, Copy, Debug, PartialEq, Eq, Structural)]
pub enum Tint {
    Black,
    Blue,
    LightBlue,
    LightCyan,
    LightWhite,
    White,
}

/// Number of colour bands in the palette.
pub const BANDS: i32 = 8;

/// Number of shade glyphs within one band.
pub const SHADES: i32 = 5;

/// The intensity that marks a pixel whose magnitude is undefined.
pub const SENTINEL: i32 = -1;

/// The place of a colour in the 256-colour table.
pub open spec fn tint_index(t: Tint) -> u8 {
    match t {
        Tint::Black => 0,
        Tint::Blue => 4,
        Tint::LightBlue => 12,
        Tint::LightCyan => 14,
        Tint::LightWhite => 15,
        Tint::White => 7,
    }
}

impl Tint {
    /// The place of the colour in the 256-colour table.
    pub fn index(self) -> (i: u8)
        ensures
            i == tint_index(self),
    {
        match self {
            Tint::Black => 0,
            Tint::Blue => 4,
            Tint::LightBlue => 12,
            Tint::LightCyan => 14,
            Tint::LightWhite => 15,
            Tint::White => 7,
        }
    }
}

/// Remainder of `v` by a positive `m`, with the sign of `v`.
pub open spec fn trunc_rem(v: int, m: int) -> int {
    if v >= 0 {
        v % m
    } else {
        -((-v) % m)
    }
}

/// Quotient of `v` by a positive `m`, rounded towards zero.
pub open spec fn trunc_div(v: int, m: int) -> int {
    if v >= 0 {
        v / m
    } else {
        -((-v) / m)
    }
}

/// Position of an intensity within one turn of the palette.
pub open spec fn slot(v: int) -> int {
    trunc_rem(v, BANDS * SHADES)
}

/// The colour band of an intensity.
pub open spec fn band(v: int) -> int {
    trunc_div(slot(v), SHADES as int)
}

/// The shade of an intensity within its band.
pub open spec fn shade(v: int) -> int {
    trunc_rem(slot(v), SHADES as int)
}

/// Background and foreground colour of a band; `None` outside the palette.
pub open spec fn band_tints(b: int) -> Option<(Tint, Tint)> {
    if b == 0 {
        Some((Tint::Black, Tint::Blue))
    } else if b == 1 {
        Some((Tint::Blue, Tint::LightBlue))
    } else if b == 2 {
        Some((Tint::LightBlue, Tint::LightCyan))
    } else if b == 3 {
        Some((Tint::LightCyan, Tint::LightWhite))
    } else if b == 4 {
        Some((Tint::LightWhite, Tint::LightCyan))
    } else if b == 5 {
        Some((Tint::LightCyan, Tint::LightBlue))
    } else if b == 6 {
        Some((Tint::LightBlue, Tint::Blue))
    } else if b == 7 {
        Some((Tint::Blue, Tint::Black))
    } else {
        None
    }
}

/// The escape sequences that switch to a band's colours.
pub open spec fn band_text(b: int) -> Seq<char> {
    match band_tints(b) {
        Some((bg, fg)) => bg_code(tint_index(bg)) + fg_code(tint_index(fg)),
        None => Seq::empty(),
    }
}

/// The glyph of a shade; nothing for a shade outside the band.
pub open spec fn shade_text(s: int) -> Seq<char> {
    if s == 0 {
        " "@
    } else if s == 1 {
        "\u{2591}"@
    } else if s == 2 {
        "\u{2592}"@
    } else if s == 3 || s == 4 {
        "\u{2593}"@
    } else {
        Seq::empty()
    }
}

/// What the colour palette writes for an intensity: the band's colours,
/// then the shade's glyph.
pub open spec fn colour_text(v: int) -> Seq<char> {
    band_text(band(v)) + shade_text(shade(v))
}

/// What every mode writes for the sentinel: white on black, one blank.
pub open spec fn background_text() -> Seq<char> {
    fg_code(tint_index(Tint::White)) + bg_code(tint_index(Tint::Black)) + " "@
}

/// The one glyph of the silhouette.
pub open spec fn solid_text() -> Seq<char> {
    "\u{2593}"@
}

/// The colours of band `b`, as `(background, foreground)`.
pub fn tints_of_band(b: i32) -> (r: Option<(Tint, Tint)>)
    ensures
        r == band_tints(b as int),
{
    if b == 0 {
        Some((Tint::Black, Tint::Blue))
    } else if b == 1 {
        Some((Tint::Blue, Tint::LightBlue))
    } else if b == 2 {
        Some((Tint::LightBlue, Tint::LightCyan))
    } else if b == 3 {
        Some((Tint::LightCyan, Tint::LightWhite))
    } else if b == 4 {
        Some((Tint::LightWhite, Tint::LightCyan))
    } else if b == 5 {
        Some((Tint::LightCyan, Tint::LightBlue))
    } else if b == 6 {
        Some((Tint::LightBlue, Tint::Blue))
    } else if b == 7 {
        Some((Tint::Blue, Tint::Black))
    } else {
        None
    }
}

/// Band and shade of an intensity.
pub fn band_and_shade(intensity: i32) -> (r: (i32, i32))
    ensures
        r.0 == band(intensity as int),
        r.1 == shade(intensity as int),
        -BANDS < r.0 < BANDS,
        -SHADES < r.1 < SHADES,
        intensity >= 0 ==> 0 <= r.0 && 0 <= r.1,
{
    let wide: i64 = intensity as i64;
    if wide >= 0 {
        let s: i64 = wide % 40;
        ((s / 5) as i32, (s % 5) as i32)
    } else {
        let s: i64 = (-wide) % 40;
        ((-(s / 5)) as i32, (-(s % 5)) as i32)
    }
}

/// Appends the text of the background cell to `out`.
pub fn push_background(out: &mut String)
    ensures
        final(out)@ == old(out)@ + background_text(),
{
    let fg = fg_sequence(Tint::White.index());
    let bg = bg_sequence(Tint::Black.index());
    out.append(fg.as_str());
    out.append(bg.as_str());
    out.append(" ");
    assert(final(out)@ =~= old(out)@ + background_text());
}

/// Appends the palette text of `intensity` to `out`: the colours of its
/// band, then the glyph of its shade.
pub fn push_colour(out: &mut String, intensity: i32)
    ensures
        final(out)@ == old(out)@ + colour_text(intensity as int),
{
    let (b, s) = band_and_shade(intensity);
    match tints_of_band(b) {
        Some((bg, fg)) => {
            let bgs = bg_sequence(bg.index());
            let fgs = fg_sequence(fg.index());
            out.append(bgs.as_str());
            out.append(fgs.as_str());
        },
        None => {},
    }
    if s == 0 {
        out.append(" ");
    } else if s == 1 {
        out.append("\u{2591}");
    } else if s == 2 {
        out.append("\u{2592}");
    } else if s == 3 || s == 4 {
        out.append("\u{2593}");
    }
    assert(final(out)@ =~= old(out)@ + colour_text(intensity as int));
}

/// The palette text of one intensity.
pub fn fill_color(intensity: i32) -> (s: String)
    ensures
        s@ == colour_text(intensity as int),
{
    let mut out = String::new();
    push_colour(&mut out, intensity);
    assert(out@ =~= colour_text(intensity as int));
    out
}

/// The palette repeats: one full turn of bands further on, an intensity
/// looks the same.
pub proof fn lemma_palette_repeats(v: int)
    requires
        0 <= v,
    ensures
        colour_text(v + BANDS * SHADES) == colour_text(v),
{
    assert((v + 40) % 40 == v % 40);
}

/// Every intensity from zero on has a band of the palette and a shade of
/// that band, so it is painted with two colours and one glyph.
pub proof fn lemma_palette_covers(v: int)
    requires
        0 <= v,
    ensures
        0 <= band(v) < BANDS,
        0 <= shade(v) < SHADES,
        band_tints(band(v)) is Some,
        v == (v / (BANDS * SHADES)) * (BANDS * SHADES) + band(v) * SHADES + shade(v),
{
}

} // verus!
