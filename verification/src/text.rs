use crate::adjust::same_shape;
use crate::errors::{dimension_error, Errors};
use crate::font::{is_line_sound, line_sound, ScaleTuple};
use crate::raster::{raster_of, Raster};
use image::{DynamicImage, Rgba};
use rusttype::{Font, Scale};
use vstd::prelude::*;
use vstd::string::{StrSliceExecFns, StringExecFns};

verus! {

/// Where the first line feed of `s` stands, or the length of `s` where it
/// has none.
pub open spec fn first_line_feed(s: Seq<char>) -> int
    decreases s.len(),
{
    if s.len() == 0 || s[0] == '\n' {
        0
    } else {
        1 + first_line_feed(s.drop_first())
    }
}

/// A line without the carriage return that stood before its line feed.
pub open spec fn without_return(line: Seq<char>) -> Seq<char> {
    if line.len() > 0 && line.last() == '\r' {
        line.drop_last()
    } else {
        line
    }
}

/// The lines of a text. A line ends at a line feed, or at a carriage return
/// followed by one; neither belongs to the line. What follows the last line
/// feed is a line too, unless it is empty.
pub open spec fn lines_of(s: Seq<char>) -> Seq<Seq<char>>
    decreases s.len(),
{
    if s.len() == 0 {
        Seq::empty()
    } else {
        let k = first_line_feed(s);
        if k < 0 || k >= s.len() {
            seq![s]
        } else {
            seq![without_return(s.subrange(0, k))] + lines_of(s.subrange(k + 1, s.len() as int))
        }
    }
}

/// The texts that a list of strings holds.
pub open spec fn texts(v: Seq<String>) -> Seq<Seq<char>> {
    v.map_values(|s: String| s@)
}

/// Whether the text holds a line feed.
pub open spec fn has_line_feed(s: Seq<char>) -> bool {
    s.contains('\n')
}

proof fn lemma_first_line_feed(s: Seq<char>, k: int)
    requires
        0 <= k <= s.len(),
        forall|i: int| 0 <= i < k ==> s[i] != '\n',
        k < s.len() ==> s[k] == '\n',
    ensures
        first_line_feed(s) == k,
    decreases k,
{
    if k > 0 {
        let rest = s.drop_first();
        assert forall|i: int| 0 <= i < k - 1 implies rest[i] != '\n' by {
            assert(rest[i] == s[i + 1]);
        }
        lemma_first_line_feed(rest, k - 1);
    }
}

/// The lines of a text, in order.
pub fn split_lines(text: &str) -> (lines: Vec<String>)
    ensures
        texts(lines@) == lines_of(text@),
{
    let n = text.unicode_len();
    let mut out: Vec<String> = Vec::new();
    let mut start: usize = 0;
    let mut i: usize = 0;
    proof {
        assert(text@.subrange(0, n as int) =~= text@);
        assert(texts(out@) =~= Seq::<Seq<char>>::empty());
    }
    while i < n
        invariant
            n == text@.len(),
            start <= i <= n,
            forall|k: int| start <= k < i ==> text@[k] != '\n',
            texts(out@) + lines_of(text@.subrange(start as int, n as int)) == lines_of(text@),
        decreases n - i,
    {
        let c = text.get_char(i);
        if c == '\n' {
            let mut end = i;
            if end > start && text.get_char(end - 1) == '\r' {
                end = end - 1;
            }
            let line = String::from_str(text.substring_char(start, end));
            proof {
                let rest = text@.subrange(start as int, n as int);
                let k = i - start;
                assert forall|j: int| 0 <= j < k implies rest[j] != '\n' by {
                    assert(rest[j] == text@[start + j]);
                }
                assert(rest[k] == '\n');
                lemma_first_line_feed(rest, k);
                assert(rest.subrange(0, k) =~= text@.subrange(start as int, i as int));
                assert(rest.subrange(k + 1, rest.len() as int) =~= text@.subrange(
                    i + 1,
                    n as int,
                ));
                let raw = text@.subrange(start as int, i as int);
                assert(line@ =~= without_return(raw)) by {
                    if raw.len() > 0 && raw.last() == '\r' {
                        assert(raw.last() == text@[i - 1]);
                        assert(raw.drop_last() =~= text@.subrange(start as int, i - 1));
                    } else {
                        if i > start {
                            assert(raw.last() == text@[i - 1]);
                        }
                    }
                }
                assert(texts(out@.push(line)) =~= texts(out@) + seq![line@]);
                assert(lines_of(rest) == seq![without_return(raw)] + lines_of(
                    text@.subrange(i + 1, n as int),
                ));
                assert(texts(out@.push(line)) + lines_of(text@.subrange(i + 1, n as int))
                    =~= texts(out@) + lines_of(rest));
            }
            out.push(line);
            start = i + 1;
        }
        i += 1;
    }
    if start < n {
        let line = String::from_str(text.substring_char(start, n));
        proof {
            let rest = text@.subrange(start as int, n as int);
            assert forall|j: int| 0 <= j < rest.len() implies rest[j] != '\n' by {
                assert(rest[j] == text@[start + j]);
            }
            lemma_first_line_feed(rest, rest.len() as int);
            assert(lines_of(rest) == seq![rest]);
            assert(texts(out@.push(line)) =~= texts(out@) + seq![line@]);
        }
        out.push(line);
    } else {
        proof {
            assert(text@.subrange(start as int, n as int).len() == 0);
            assert(texts(out@) + Seq::<Seq<char>>::empty() =~= texts(out@));
        }
    }
    out
}

/// Whether the text holds a line feed.
pub fn contains_line_feed(text: &str) -> (found: bool)
    ensures
        found == has_line_feed(text@),
{
    let n = text.unicode_len();
    let mut i: usize = 0;
    while i < n
        invariant
            n == text@.len(),
            i <= n,
            forall|k: int| 0 <= k < i ==> text@[k] != '\n',
        decreases n - i,
    {
        if text.get_char(i) == '\n' {
            return true;
        }
        i += 1;
    }
    false
}

/// What was measured of one line of a text in a font at a scale.
#[derive(Clone, Copy, Debug, PartialEq, Eq, Structural)]
pub struct LineMeasure {
    /// The sum of the advances of the line's glyphs, in whole pixels.
    pub width: i32,
    /// How far below the midpoint the line is set, in whole pixels: its
    /// distance from the middle of the block times the height of a line.
    pub offset: i32,
}

/// Where one line of a text is drawn.
#[derive(Clone, Copy, Debug, PartialEq, Eq, Structural)]
pub struct PlacedLine {
    /// Which line of the text it is, counted from 0 with the empty lines.
    pub index: usize,
    /// Its left edge.
    pub x: i32,
    /// Its top edge.
    pub y: i32,
}

/// How far from the origin a line may be placed, on either axis.
pub const REACH: i32 = 0x4000_0000;

/// The text that `textwrap::fill` makes of a text and a width: the same
/// words, with line feeds so that no line is wider than the width where the
/// words allow it.
pub uninterp spec fn filled(text: Seq<char>, width: nat) -> Seq<char>;

/// The text as it is drawn: wrapped to `max_width` columns where a width is
/// given and the text holds no line feed, else as it is.
pub open spec fn wrapped_text(text: Seq<char>, max_width: Option<usize>) -> Seq<char> {
    match max_width {
        Some(width) => if has_line_feed(text) {
            text
        } else {
            filled(text, width as nat)
        },
        None => text,
    }
}

/// Half of a width, rounded towards zero.
pub open spec fn half_of(w: int) -> int {
    if w >= 0 {
        w / 2
    } else {
        -((-w) / 2)
    }
}

/// The left edge of a line that is centred on the midpoint: the midpoint
/// less half of the line's width.
pub open spec fn left_edge(mid_x: int, width: int) -> int {
    mid_x - half_of(width)
}

/// The top edge of a line: the midpoint moved by the line's offset.
pub open spec fn top_edge(mid_y: int, offset: int) -> int {
    mid_y + offset
}

/// Whether a line with this measure, centred on the midpoint, lies within
/// reach on both axes.
pub open spec fn in_reach(mid: (i32, i32), m: LineMeasure) -> bool {
    &&& -REACH <= left_edge(mid.0 as int, m.width as int) <= REACH
    &&& -REACH <= top_edge(mid.1 as int, m.offset as int) <= REACH
}

/// Where line `index` with measure `m` is drawn.
pub open spec fn placed(index: int, mid: (i32, i32), m: LineMeasure) -> PlacedLine {
    PlacedLine {
        index: index as usize,
        x: left_edge(mid.0 as int, m.width as int) as i32,
        y: top_edge(mid.1 as int, m.offset as int) as i32,
    }
}

/// Whether every line that is not empty has a measure and lies within
/// reach.
pub open spec fn all_in_reach(lines: Seq<Seq<char>>, measures: Seq<LineMeasure>, mid: (i32, i32)) -> bool {
    forall|i: int|
        0 <= i < lines.len() && (#[trigger] lines[i]).len() > 0 ==> i < measures.len() && in_reach(
            mid,
            measures[i],
        )
}

/// The places of the first `n` lines. Each line is centred on the midpoint
/// by its own width. An empty line gets no place, and the lines after it
/// keep their numbers.
pub open spec fn placed_lines(
    lines: Seq<Seq<char>>,
    measures: Seq<LineMeasure>,
    mid: (i32, i32),
    n: int,
) -> Seq<PlacedLine>
    decreases n,
{
    if n <= 0 {
        Seq::empty()
    } else if lines[n - 1].len() == 0 {
        placed_lines(lines, measures, mid, n - 1)
    } else {
        placed_lines(lines, measures, mid, n - 1).push(placed(n - 1, mid, measures[n - 1]))
    }
}

/// How far line `index` of `count` stands from the middle of the block,
/// in half lines: twice the index less the last index.
pub open spec fn half_steps_of(index: int, count: int) -> int {
    2 * index - (count - 1)
}

/// Whether the font can set every line that is not empty at the scale.
pub open spec fn all_sound(font: Font<'static>, scale: ScaleTuple, lines: Seq<Seq<char>>) -> bool {
    forall|i: int| 0 <= i < lines.len() && lines[i].len() > 0 ==> line_sound(font, scale, #[trigger] lines[i])
}

/// Whether the text can be drawn in the font with these measures: every
/// line that is not empty has a measure, lies within reach, and can be set
/// by the font at the scale. Nothing is asked of a text without such a line.
pub open spec fn drawable(
    font: Font<'static>,
    text: Seq<char>,
    measures: Seq<LineMeasure>,
    scale: ScaleTuple,
    mid: (i32, i32),
) -> bool {
    &&& all_in_reach(lines_of(text), measures, mid)
    &&& all_sound(font, scale, lines_of(text))
}

/// The buffer after `imageproc` has drawn one line of text onto it in a
/// colour, at a scale and in a font, with the line's top left corner at
/// `(x, y)`.
pub uninterp spec fn inked(
    r: Raster,
    color: Seq<u8>,
    x: int,
    y: int,
    scale: ScaleTuple,
    font: Font<'static>,
    text: Seq<char>,
) -> Raster;

/// The buffer after the first `n` of the places have been drawn, one after
/// the other: at each place the line of the text that the place names.
pub open spec fn drawn(
    r: Raster,
    color: Seq<u8>,
    font: Font<'static>,
    scale: ScaleTuple,
    lines: Seq<Seq<char>>,
    places: Seq<PlacedLine>,
    n: int,
) -> Raster
    decreases n,
{
    if n <= 0 {
        r
    } else {
        inked(
            drawn(r, color, font, scale, lines, places, n - 1),
            color,
            places[n - 1].x as int,
            places[n - 1].y as int,
            scale,
            font,
            lines[places[n - 1].index as int],
        )
    }
}

/// The buffer after a text has been drawn onto it: every line that is not
/// empty at its place, from the first line to the last.
pub open spec fn text_drawn(
    r: Raster,
    color: Seq<u8>,
    font: Font<'static>,
    scale: ScaleTuple,
    text: Seq<char>,
    measures: Seq<LineMeasure>,
    mid: (i32, i32),
) -> Raster {
    drawn(
        r,
        color,
        font,
        scale,
        lines_of(text),
        placed_lines(lines_of(text), measures, mid, lines_of(text).len() as int),
        placed_lines(lines_of(text), measures, mid, lines_of(text).len() as int).len() as int,
    )
}

/// `textwrap::fill` with a width in columns.
#[verifier::external_body]
pub(crate) fn fill_text(text: &str, width: usize) -> (out: String)
    ensures
        out@ == filled(text@, width as nat),
{
    textwrap::fill(text, width)
}

/// `imageproc::drawing::draw_text_mut`: draws one line of text onto the
/// buffer with its top left corner at `(x, y)`, in the given colour, at the
/// scale whose bits are given. Only pixels inside the buffer are written:
/// it keeps its kind and size.
#[verifier::external_body]
pub(crate) fn draw_line(
    img: &mut DynamicImage,
    color: [u8; 4],
    x: i32,
    y: i32,
    scale: ScaleTuple,
    font: &Font<'static>,
    text: &str,
)
    requires
        line_sound(*font, scale, text@),
        -REACH <= x <= REACH,
        -REACH <= y <= REACH,
    ensures
        raster_of(*final(img)) == inked(
            raster_of(*old(img)),
            color@,
            x as int,
            y as int,
            scale,
            *font,
            text@,
        ),
        same_shape(raster_of(*old(img)), raster_of(*final(img))),
{
    let scale = Scale { x: bytemuck::cast(scale.0), y: bytemuck::cast(scale.1) };
    imageproc::drawing::draw_text_mut(img, Rgba(color), x, y, scale, font, text);
}

/// The text as it is drawn: wrapped to `max_width` columns where a width is
/// given and the text holds no line feed, else unchanged.
pub fn wrap_text(text: String, max_width: Option<usize>) -> (out: String)
    ensures
        out@ == wrapped_text(text@, max_width),
{
    match max_width {
        Some(width) => {
            if contains_line_feed(text.as_str()) {
                text
            } else {
                fill_text(text.as_str(), width)
            }
        },
        None => text,
    }
}

/// How far line `index` of `count` stands from the middle of the block, in
/// half lines. The lines of a block are two half lines apart, and the block
/// is centred: the first and the last line stand equally far from the
/// middle.
pub fn half_steps(index: usize, count: usize) -> (steps: i64)
    requires
        index < count,
        count <= 0x7fff_ffff,
    ensures
        steps == half_steps_of(index as int, count as int),
{
    2 * (index as i64) - (count as i64 - 1)
}

/// A block is centred: a line and the line as far from the other end stand
/// equally far from the middle, on opposite sides.
pub proof fn law_block_centred(index: int, count: int)
    requires
        0 <= index < count,
    ensures
        half_steps_of(index, count) + half_steps_of(count - 1 - index, count) == 0,
        index + 1 < count ==> half_steps_of(index + 1, count) - half_steps_of(index, count) == 2,
{
}

/// A text of one line that is not empty is drawn at one place: its left edge
/// is the midpoint less half of its measured width.
pub proof fn law_single_line_centred(line: Seq<char>, m: LineMeasure, mid: (i32, i32))
    requires
        line.len() > 0,
    ensures
        placed_lines(seq![line], seq![m], mid, 1) == seq![placed(0, mid, m)],
        placed(0, mid, m).x == (mid.0 - half_of(m.width as int)) as i32,
{
    reveal_with_fuel(placed_lines, 2);
    assert(placed_lines(seq![line], seq![m], mid, 1) =~= seq![placed(0, mid, m)]);
}

/// Where a line with this measure is drawn when centred on the midpoint:
/// its left edge is the midpoint less half its width, its top edge the
/// midpoint moved by its offset. Nothing where that is out of reach.
pub fn place_line(mid: (i32, i32), m: LineMeasure) -> (at: Option<(i32, i32)>)
    ensures
        match at {
            Some(p) => {
                &&& in_reach(mid, m)
                &&& p.0 == left_edge(mid.0 as int, m.width as int)
                &&& p.1 == top_edge(mid.1 as int, m.offset as int)
            },
            None => !in_reach(mid, m),
        },
{
    let w: i64 = m.width as i64;
    let half: i64 = if w >= 0 { w / 2 } else { -((-w) / 2) };
    let x: i64 = mid.0 as i64 - half;
    let y: i64 = mid.1 as i64 + m.offset as i64;
    if -(REACH as i64) <= x && x <= REACH as i64 && -(REACH as i64) <= y && y <= REACH as i64 {
        Some((x as i32, y as i32))
    } else {
        None
    }
}

/// Where the lines of a text are drawn. Each line that is not empty is
/// centred on the midpoint by its own width and moved down by its own
/// offset: `measures` holds what was measured of each line, in order. An
/// empty line is left out and needs no measure, and the lines after it keep
/// their numbers. Nothing where a line that is not empty has no measure or
/// is out of reach.
pub fn place_lines(lines: &Vec<String>, measures: &Vec<LineMeasure>, mid: (i32, i32)) -> (res:
    Option<Vec<PlacedLine>>)
    ensures
        match res {
            Some(places) => {
                &&& all_in_reach(texts(lines@), measures@, mid)
                &&& places@ == placed_lines(texts(lines@), measures@, mid, lines.len() as int)
            },
            None => !all_in_reach(texts(lines@), measures@, mid),
        },
{
    let mut places: Vec<PlacedLine> = Vec::new();
    let mut i: usize = 0;
    while i < lines.len()
        invariant
            i <= lines.len(),
            places@ == placed_lines(texts(lines@), measures@, mid, i as int),
            forall|k: int|
                0 <= k < i && (#[trigger] texts(lines@)[k]).len() > 0 ==> k < measures.len()
                    && in_reach(mid, measures@[k]),
        decreases lines.len() - i,
    {
        assert(texts(lines@)[i as int] == lines@[i as int]@);
        if !lines[i].as_str().is_empty() {
            if i >= measures.len() {
                return None;
            }
            match place_line(mid, measures[i]) {
                Some(p) => {
                    places.push(PlacedLine { index: i, x: p.0, y: p.1 });
                },
                None => {
                    return None;
                },
            }
        }
        i += 1;
    }
    Some(places)
}

/// Draws the lines of a text onto the buffer, each at its place, in the
/// order of the places. The buffer keeps its kind and size.
fn draw_placed(
    image: DynamicImage,
    color: [u8; 4],
    font: &Font<'static>,
    lines: &Vec<String>,
    places: &Vec<PlacedLine>,
    scale: ScaleTuple,
) -> (out: DynamicImage)
    requires
        forall|k: int|
            0 <= k < places.len() ==> {
                &&& (#[trigger] places@[k]).index < lines.len()
                &&& -REACH <= places@[k].x <= REACH
                &&& -REACH <= places@[k].y <= REACH
                &&& line_sound(*font, scale, lines@[places@[k].index as int]@)
            },
    ensures
        raster_of(out) == drawn(
            raster_of(image),
            color@,
            *font,
            scale,
            texts(lines@),
            places@,
            places.len() as int,
        ),
        same_shape(raster_of(image), raster_of(out)),
        places.len() == 0 ==> out == image,
{
    let mut img = image;
    let mut k: usize = 0;
    while k < places.len()
        invariant
            k <= places.len(),
            raster_of(img) == drawn(
                raster_of(image),
                color@,
                *font,
                scale,
                texts(lines@),
                places@,
                k as int,
            ),
            same_shape(raster_of(image), raster_of(img)),
            k == 0 ==> img == image,
            forall|k: int|
                0 <= k < places.len() ==> {
                    &&& (#[trigger] places@[k]).index < lines.len()
                    &&& -REACH <= places@[k].x <= REACH
                    &&& -REACH <= places@[k].y <= REACH
                    &&& line_sound(*font, scale, lines@[places@[k].index as int]@)
                },
        decreases places.len() - k,
    {
        let place = places[k];
        assert(texts(lines@)[place.index as int] == lines@[place.index as int]@);
        draw_line(&mut img, color, place.x, place.y, scale, font, lines[place.index].as_str());
        k += 1;
    }
    img
}

proof fn lemma_placed_lines_in_reach(
    lines: Seq<Seq<char>>,
    measures: Seq<LineMeasure>,
    mid: (i32, i32),
    n: int,
)
    requires
        0 <= n <= lines.len() <= usize::MAX,
        all_in_reach(lines, measures, mid),
    ensures
        forall|k: int|
            0 <= k < placed_lines(lines, measures, mid, n).len() ==> {
                &&& (#[trigger] placed_lines(lines, measures, mid, n)[k]).index < n
                &&& lines[placed_lines(lines, measures, mid, n)[k].index as int].len() > 0
                &&& -REACH <= placed_lines(lines, measures, mid, n)[k].x <= REACH
                &&& -REACH <= placed_lines(lines, measures, mid, n)[k].y <= REACH
            },
    decreases n,
{
    if n > 0 {
        lemma_placed_lines_in_reach(lines, measures, mid, n - 1);
        let before = placed_lines(lines, measures, mid, n - 1);
        let now = placed_lines(lines, measures, mid, n);
        if lines[n - 1].len() > 0 {
            assert(in_reach(mid, measures[n - 1]));
            assert(now == before.push(placed(n - 1, mid, measures[n - 1])));
            assert forall|k: int| 0 <= k < now.len() implies {
                &&& (#[trigger] now[k]).index < n
                &&& lines[now[k].index as int].len() > 0
                &&& -REACH <= now[k].x <= REACH
                &&& -REACH <= now[k].y <= REACH
            } by {
                if k < before.len() {
                    assert(now[k] == before[k]);
                }
            }
        } else {
            assert(now == before);
        }
    }
}

/// Whether the font can set every line that is not empty at the scale.
pub fn lines_are_sound(font: &Font<'static>, scale: ScaleTuple, lines: &Vec<String>) -> (ok: bool)
    ensures
        ok == all_sound(*font, scale, texts(lines@)),
{
    let mut i: usize = 0;
    while i < lines.len()
        invariant
            i <= lines.len(),
            forall|k: int|
                0 <= k < i && texts(lines@)[k].len() > 0 ==> line_sound(
                    *font,
                    scale,
                    #[trigger] texts(lines@)[k],
                ),
        decreases lines.len() - i,
    {
        assert(texts(lines@)[i as int] == lines@[i as int]@);
        if !lines[i].as_str().is_empty() && !is_line_sound(font, scale, lines[i].as_str()) {
            return false;
        }
        i += 1;
    }
    true
}

/// Draws a text of one or more lines onto the buffer, centred on the
/// midpoint `mid`.
///
/// The text is split into its lines, and `measures` holds what was measured
/// of each, in order; an empty line needs none. Every line that is not empty is drawn with its left
/// edge at the midpoint less half its width and its top edge at the
/// midpoint moved by its offset, as `place_lines` says; an empty line is
/// skipped. The lines are drawn from the first to the last, each onto what
/// the one before it left. The buffer keeps its kind and size, and a text
/// without a line to draw leaves it as it is.
///
/// Where a line that is not empty has no measure, is out of reach, or
/// cannot be set by the font at the scale (see `line_sound`), the text is
/// refused with an image error and nothing is drawn. A text without such a
/// line is never refused.
pub fn draw_text(
    image: DynamicImage,
    color: [u8; 4],
    font: &Font<'static>,
    fulltext: &str,
    scale: ScaleTuple,
    mid: (i32, i32),
    measures: &Vec<LineMeasure>,
) -> (res: Result<DynamicImage, Errors>)
    ensures
        match res {
            Ok(out) => {
                &&& drawable(*font, fulltext@, measures@, scale, mid)
                &&& raster_of(out) == text_drawn(
                    raster_of(image),
                    color@,
                    *font,
                    scale,
                    fulltext@,
                    measures@,
                    mid,
                )
                &&& same_shape(raster_of(image), raster_of(out))
                &&& placed_lines(
                    lines_of(fulltext@),
                    measures@,
                    mid,
                    lines_of(fulltext@).len() as int,
                ).len() == 0 ==> out == image
            },
            Err(e) => !drawable(*font, fulltext@, measures@, scale, mid) && e is ImageError,
        },
{
    let lines = split_lines(fulltext);
    assert(texts(lines@).len() == lines@.len());
    if !lines_are_sound(font, scale, &lines) {
        return Err(Errors::ImageError(dimension_error()));
    }
    match place_lines(&lines, measures, mid) {
        Some(places) => {
            proof {
                lemma_placed_lines_in_reach(texts(lines@), measures@, mid, lines.len() as int);
                assert forall|k: int| 0 <= k < places.len() implies line_sound(
                    *font,
                    scale,
                    lines@[(#[trigger] places@[k]).index as int]@,
                ) by {
                    let at = places@[k].index as int;
                    assert(texts(lines@)[at] == lines@[at]@);
                }
            }
            Ok(draw_placed(image, color, font, &lines, &places, scale))
        },
        None => Err(Errors::ImageError(dimension_error())),
    }
}

} // verus!
