use crate::resize::{buffer_fits, fits};
use owned_ttf_parser::AsFaceRef;
use rusttype::{Font, IntoGlyphId};
use vstd::prelude::*;
use vstd::string::StrSliceExecFns;

verus! {

#[verifier::external_type_specification]
#[verifier::external_body]
pub struct ExFont<'a>(Font<'a>);

/// The horizontal and the vertical scale of a text in pixels, each as the
/// bits of an IEEE 754 single. The two need not be equal.
#[derive(Clone, Copy, Debug, PartialEq, Eq, Structural)]
pub struct ScaleTuple(pub u32, pub u32);

/// The bits of the single 2^-100, the smallest scale that is drawn: below
/// it the length of a font unit in pixels is no longer a precise single.
pub const SMALLEST_SCALE: u32 = 0x0d80_0000;

/// The bits of the single 4096, the largest scale that is drawn.
pub const LARGEST_SCALE: u32 = 0x4580_0000;

/// The font that `rusttype` reads from the bytes; nothing where they are no
/// font.
pub uninterp spec fn parsed_font(bytes: Seq<u8>) -> Option<Font<'static>>;

/// The number of the glyph that the font shows a character with.
pub uninterp spec fn glyph_of(font: Font<'static>, c: char) -> nat;

/// How many glyphs the font says it holds.
pub uninterp spec fn glyph_total(font: Font<'static>) -> nat;

/// Whether the font gives the advance of the glyph with this number.
pub uninterp spec fn has_advance(font: Font<'static>, glyph: nat) -> bool;

/// Whether the font gives the side bearing of the glyph with this number.
pub uninterp spec fn has_bearing(font: Font<'static>, glyph: nat) -> bool;

/// How far the font rises above the baseline, in its own units.
pub uninterp spec fn rise_of(font: Font<'static>) -> int;

/// How far the font falls below the baseline, in its own units: a negative
/// number in most fonts.
pub uninterp spec fn fall_of(font: Font<'static>) -> int;

/// The height of the font in its own units, from its lowest to its highest
/// point. A scale of `s` pixels shows a unit as `s` pixels divided by this.
pub open spec fn span_of(font: Font<'static>) -> int {
    rise_of(font) - fall_of(font)
}

/// Whether a scale is one that is drawn: both singles positive, from 2^-100
/// to 4096.
pub open spec fn scale_drawn(scale: ScaleTuple) -> bool {
    &&& SMALLEST_SCALE <= scale.0 <= LARGEST_SCALE
    &&& SMALLEST_SCALE <= scale.1 <= LARGEST_SCALE
}

/// The least power of two that is not below the single with these bits, for
/// a single from 1 to 4096, and 1 for a smaller one.
pub open spec fn power_above(bits: u32) -> int {
    if bits <= 0x3f80_0000 {
        1
    } else if bits <= 0x4000_0000 {
        2
    } else if bits <= 0x4080_0000 {
        4
    } else if bits <= 0x4100_0000 {
        8
    } else if bits <= 0x4180_0000 {
        16
    } else if bits <= 0x4200_0000 {
        32
    } else if bits <= 0x4280_0000 {
        64
    } else if bits <= 0x4300_0000 {
        128
    } else if bits <= 0x4380_0000 {
        256
    } else if bits <= 0x4400_0000 {
        512
    } else if bits <= 0x4480_0000 {
        1024
    } else if bits <= 0x4500_0000 {
        2048
    } else {
        4096
    }
}

/// An upper bound of the side of a glyph in pixels, along an axis on which
/// the scale is at most `power` pixels: a glyph is at most 65536 units long,
/// and two pixels are added for the rounding at both ends.
pub open spec fn glyph_side(power: int, span: int) -> int {
    65536 * power / span + 2
}

/// Whether the font can show the character: it holds the glyph, and gives
/// its advance and its side bearing.
pub open spec fn glyph_sound(font: Font<'static>, c: char) -> bool {
    &&& glyph_of(font, c) < glyph_total(font)
    &&& has_advance(font, glyph_of(font, c))
    &&& has_bearing(font, glyph_of(font, c))
}

/// Whether the font can set the line at the scale.
///
/// The scale must be one that is drawn. The font must have a height and
/// show every character of the line. The line must stay short of 2^29
/// pixels, which it does where its length
/// times the horizontal scale is at most 4096 times the font's height, a
/// glyph advancing by less than 2^17 units; and the buffer that a glyph is
/// drawn in must be one that a vector can hold.
pub open spec fn line_sound(font: Font<'static>, scale: ScaleTuple, line: Seq<char>) -> bool {
    &&& scale_drawn(scale)
    &&& span_of(font) >= 1
    &&& line.len() * power_above(scale.0) <= 4096 * span_of(font)
    &&& fits(
        glyph_side(power_above(scale.0), span_of(font)),
        glyph_side(power_above(scale.1), span_of(font)),
    )
    &&& forall|i: int| 0 <= i < line.len() ==> glyph_sound(font, #[trigger] line[i])
}

/// `Font::try_from_vec`: the font that the bytes hold, where they are one.
#[verifier::external_body]
pub(crate) fn parse_font(bytes: Vec<u8>) -> (font: Option<Font<'static>>)
    ensures
        font == parsed_font(bytes@),
{
    Font::try_from_vec(bytes)
}

/// `IntoGlyphId::into_glyph_id` of a character: the number of the glyph
/// that the font's character map gives for it, or 0 where it gives none.
#[verifier::external_body]
pub(crate) fn glyph_id(font: &Font<'static>, c: char) -> (id: u16)
    ensures
        id == glyph_of(*font, c),
{
    c.into_glyph_id(font).0
}

/// `Font::glyph_count`: how many glyphs the font says it holds.
#[verifier::external_body]
pub(crate) fn glyph_count(font: &Font<'static>) -> (n: usize)
    ensures
        n == glyph_total(*font),
{
    font.glyph_count()
}

/// `Face::glyph_hor_advance` of the face that the font holds: the advance
/// of a glyph, where the font gives one.
#[verifier::external_body]
pub(crate) fn hor_advance(font: &Font<'static>, glyph: u16) -> (advance: Option<u16>)
    ensures
        advance.is_some() == has_advance(*font, glyph as nat),
{
    match font {
        Font::Ref(face) => face.glyph_hor_advance(owned_ttf_parser::GlyphId(glyph)),
        Font::Owned(face) => face.as_face_ref().glyph_hor_advance(owned_ttf_parser::GlyphId(glyph)),
    }
}

/// `Face::glyph_hor_side_bearing` of the face that the font holds: the side
/// bearing of a glyph, where the font gives one.
#[verifier::external_body]
pub(crate) fn hor_side_bearing(font: &Font<'static>, glyph: u16) -> (bearing: Option<i16>)
    ensures
        bearing.is_some() == has_bearing(*font, glyph as nat),
{
    match font {
        Font::Ref(face) => face.glyph_hor_side_bearing(owned_ttf_parser::GlyphId(glyph)),
        Font::Owned(face) => {
            face.as_face_ref().glyph_hor_side_bearing(owned_ttf_parser::GlyphId(glyph))
        },
    }
}

/// `Font::v_metrics_unscaled`: how far the font rises above and falls below
/// the baseline, in its own units. Both are 16-bit numbers in the font.
#[verifier::external_body]
pub(crate) fn unscaled_metrics(font: &Font<'static>) -> (m: (i32, i32))
    ensures
        m.0 == rise_of(*font),
        m.1 == fall_of(*font),
        -32768 <= m.0 <= 32767,
        -32768 <= m.1 <= 32767,
{
    let v = font.v_metrics_unscaled();
    (v.ascent as i32, v.descent as i32)
}

/// The least power of two that is not below the single with these bits, and
/// 1 for a single below 1.
pub fn power_of_scale(bits: u32) -> (power: u32)
    ensures
        power == power_above(bits),
        1 <= power <= 4096,
{
    if bits <= 0x3f80_0000 {
        1
    } else if bits <= 0x4000_0000 {
        2
    } else if bits <= 0x4080_0000 {
        4
    } else if bits <= 0x4100_0000 {
        8
    } else if bits <= 0x4180_0000 {
        16
    } else if bits <= 0x4200_0000 {
        32
    } else if bits <= 0x4280_0000 {
        64
    } else if bits <= 0x4300_0000 {
        128
    } else if bits <= 0x4380_0000 {
        256
    } else if bits <= 0x4400_0000 {
        512
    } else if bits <= 0x4480_0000 {
        1024
    } else if bits <= 0x4500_0000 {
        2048
    } else {
        4096
    }
}

/// Whether a scale is one that is drawn.
pub fn is_scale_drawn(scale: ScaleTuple) -> (ok: bool)
    ensures
        ok == scale_drawn(scale),
{
    SMALLEST_SCALE <= scale.0 && scale.0 <= LARGEST_SCALE && SMALLEST_SCALE <= scale.1 && scale.1
        <= LARGEST_SCALE
}

/// Whether the font can show the character.
pub fn is_glyph_sound(font: &Font<'static>, c: char) -> (ok: bool)
    ensures
        ok == glyph_sound(*font, c),
{
    let id = glyph_id(font, c);
    (id as usize) < glyph_count(font) && hor_advance(font, id).is_some() && hor_side_bearing(
        font,
        id,
    ).is_some()
}

/// Whether the font can set the line at the scale.
pub fn is_line_sound(font: &Font<'static>, scale: ScaleTuple, line: &str) -> (ok: bool)
    ensures
        ok == line_sound(*font, scale, line@),
{
    if !is_scale_drawn(scale) {
        return false;
    }
    let (rise, fall) = unscaled_metrics(font);
    let span: i32 = rise - fall;
    if span < 1 {
        return false;
    }
    let n = line.unicode_len();
    let power_x = power_of_scale(scale.0);
    let power_y = power_of_scale(scale.1);
    if n as u128 * power_x as u128 > 4096 * span as u128 {
        return false;
    }
    let side_x: u32 = 65536 * power_x / span as u32 + 2;
    let side_y: u32 = 65536 * power_y / span as u32 + 2;
    if !buffer_fits(side_x, side_y) {
        return false;
    }
    let mut i: usize = 0;
    while i < n
        invariant
            n == line@.len(),
            i <= n,
            forall|k: int| 0 <= k < i ==> glyph_sound(*font, #[trigger] line@[k]),
        decreases n - i,
    {
        if !is_glyph_sound(font, line.get_char(i)) {
            return false;
        }
        i += 1;
    }
    true
}

} // verus!
