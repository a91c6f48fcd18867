//! Capture geometry: clamping a requested crop into the capture source.

use crate::text::{
    chars_of, find_mark, parse_i32, parsed_i32, position, trim_bounds, trimmed,
};
use vstd::prelude::*;

verus! {

/// A sub-region of the capture source, in source pixels.
#[derive(Clone, Copy, Debug, PartialEq, Eq, Structural)]
pub struct CaptureRectangle {
    pub x: i32,
    pub y: i32,
    pub width: i32,
    pub height: i32,
}

impl CaptureRectangle {
    /// The rectangle is non-empty and lies wholly inside a source of the
    /// given size.
    pub open spec fn fits(self, source_width: int, source_height: int) -> bool {
        &&& 0 <= self.x
        &&& 0 <= self.y
        &&& 0 < self.width
        &&& 0 < self.height
        &&& self.x + self.width <= source_width
        &&& self.y + self.height <= source_height
    }
}

/// The larger of two integers.
pub open spec fn at_least(value: int, floor: int) -> int {
    if value < floor {
        floor
    } else {
        value
    }
}

/// The smaller of two integers.
pub open spec fn at_most(value: int, ceiling: int) -> int {
    if value > ceiling {
        ceiling
    } else {
        value
    }
}

/// Whether a crop whose corner is requested at `(x, y)` has any pixel of a
/// `source_width` by `source_height` source left to capture.
pub open spec fn crop_exists(x: int, y: int, source_width: int, source_height: int) -> bool {
    &&& source_width > 0
    &&& source_height > 0
    &&& at_least(x, 0) < source_width
    &&& at_least(y, 0) < source_height
}

/// The crop that is captured for a request: the corner moved to
/// non-negative coordinates, the extent raised to one pixel and then cut at
/// the source's far edges.
pub open spec fn clamped_crop(
    x: int,
    y: int,
    width: int,
    height: int,
    source_width: int,
    source_height: int,
) -> Option<(int, int, int, int)> {
    if crop_exists(x, y, source_width, source_height) {
        let cx = at_least(x, 0);
        let cy = at_least(y, 0);
        Some(
            (
                cx,
                cy,
                at_most(at_least(width, 1), source_width - cx),
                at_most(at_least(height, 1), source_height - cy),
            ),
        )
    } else {
        None
    }
}

/// Clamps a requested crop into the source; `None` means that the whole
/// frame is captured instead.
pub fn clamp_crop(
    x: i32,
    y: i32,
    width: i32,
    height: i32,
    screen_width: i32,
    screen_height: i32,
) -> (crop: Option<(i32, i32, i32, i32)>)
    ensures
        crop is Some <==> crop_exists(x as int, y as int, screen_width as int, screen_height as int),
        match crop {
            Some((cx, cy, cw, ch)) => clamped_crop(
                x as int,
                y as int,
                width as int,
                height as int,
                screen_width as int,
                screen_height as int,
            ) == Some((cx as int, cy as int, cw as int, ch as int)),
            None => clamped_crop(
                x as int,
                y as int,
                width as int,
                height as int,
                screen_width as int,
                screen_height as int,
            ) is None,
        },
        crop matches Some((cx, cy, cw, ch)) ==> 0 <= cx <= cx + cw <= screen_width && 0 <= cy <= cy
            + ch <= screen_height && cw > 0 && ch > 0,
        x >= screen_width || y >= screen_height ==> crop is None,
{
    if screen_width <= 0 || screen_height <= 0 {
        return None;
    }
    let cx: i32 = if x < 0 { 0 } else { x };
    let cy: i32 = if y < 0 { 0 } else { y };
    if cx >= screen_width || cy >= screen_height {
        return None;
    }
    let room_w: i32 = screen_width - cx;
    let room_h: i32 = screen_height - cy;
    let want_w: i32 = if width < 1 { 1 } else { width };
    let want_h: i32 = if height < 1 { 1 } else { height };
    let cw: i32 = if want_w > room_w { room_w } else { want_w };
    let ch: i32 = if want_h > room_h { room_h } else { want_h };
    Some((cx, cy, cw, ch))
}

/// Clamping never leaves the source: a clamped crop is non-empty and lies
/// inside the source, and a request whose corner is at or beyond the
/// source's far edge has none.
pub proof fn lemma_clamped_crop_contained(
    x: int,
    y: int,
    width: int,
    height: int,
    source_width: int,
    source_height: int,
)
    ensures
        clamped_crop(x, y, width, height, source_width, source_height) matches Some(
            (cx, cy, cw, ch),
        ) ==> 0 <= cx <= cx + cw <= source_width && 0 <= cy <= cy + ch <= source_height && cw > 0
            && ch > 0,
        x >= source_width || y >= source_height ==> clamped_crop(
            x,
            y,
            width,
            height,
            source_width,
            source_height,
        ) is None,
{
}

/// A crop as it is asked for, before any clamping.
#[derive(Clone, Copy, Debug, PartialEq, Eq, Structural)]
pub struct CropRequest {
    pub x: i32,
    pub y: i32,
    pub width: i32,
    pub height: i32,
}

/// The crop that four optional numbers ask for: one only where all four are
/// given.
pub open spec fn requested_crop(
    x: Option<i32>,
    y: Option<i32>,
    width: Option<i32>,
    height: Option<i32>,
) -> Option<CropRequest> {
    match (x, y, width, height) {
        (Some(x), Some(y), Some(width), Some(height)) => Some(CropRequest { x, y, width, height }),
        _ => None,
    }
}

/// Gathers a crop request from its four optional parts.
pub fn crop_request(x: Option<i32>, y: Option<i32>, width: Option<i32>, height: Option<i32>) -> (request:
    Option<CropRequest>)
    ensures
        request == requested_crop(x, y, width, height),
{
    match (x, y, width, height) {
        (Some(x), Some(y), Some(width), Some(height)) => Some(CropRequest { x, y, width, height }),
        _ => None,
    }
}

/// The rectangle captured for a request, given the source's native size
/// where the probe found one: the clamped crop, or none where the size is
/// unknown or no clamped crop exists.
pub open spec fn resolved_crop(request: CropRequest, source: Option<(i32, i32)>) -> Option<
    CaptureRectangle,
> {
    match source {
        Some((source_width, source_height)) => match clamped_crop(
            request.x as int,
            request.y as int,
            request.width as int,
            request.height as int,
            source_width as int,
            source_height as int,
        ) {
            Some((x, y, width, height)) => Some(
                CaptureRectangle {
                    x: x as i32,
                    y: y as i32,
                    width: width as i32,
                    height: height as i32,
                },
            ),
            None => None,
        },
        None => None,
    }
}

/// Resolves a crop request against the source's native size.
pub fn resolve(request: CropRequest, source: Option<(i32, i32)>) -> (crop: Option<CaptureRectangle>)
    ensures
        crop == resolved_crop(request, source),
        crop matches Some(r) ==> source matches Some((w, h)) && r.fits(w as int, h as int),
{
    match source {
        Some((source_width, source_height)) => match clamp_crop(
            request.x,
            request.y,
            request.width,
            request.height,
            source_width,
            source_height,
        ) {
            Some((x, y, width, height)) => Some(CaptureRectangle { x, y, width, height }),
            None => None,
        },
        None => None,
    }
}

/// The first comma-separated field of `s`.
pub open spec fn first_field(s: Seq<char>) -> Seq<char> {
    s.subrange(0, position(s, ','))
}

/// What follows the first comma of `s`; only meant where `s` holds one.
pub open spec fn after_first_field(s: Seq<char>) -> Seq<char> {
    s.subrange(position(s, ',') + 1, s.len() as int)
}

/// The source size that a line of the probe's output states: the line
/// without the white space round it holds at least two comma-separated
/// fields, of which the first two, trimmed again, are the width and the
/// height as 32-bit decimal numbers, both positive.
pub open spec fn screen_size_of(line: Seq<char>) -> Option<(int, int)> {
    let t = trimmed(line);
    if position(t, ',') >= t.len() {
        None
    } else {
        match (
            parsed_i32(trimmed(first_field(t))),
            parsed_i32(trimmed(first_field(after_first_field(t)))),
        ) {
            (Some(w), Some(h)) => if w > 0 && h > 0 {
                Some((w, h))
            } else {
                None
            },
            _ => None,
        }
    }
}

/// Reads the source size that `chars[lo..hi]` states as a line.
pub fn parse_size_between(chars: &Vec<char>, lo: usize, hi: usize) -> (size: Option<(i32, i32)>)
    requires
        lo <= hi <= chars.len(),
    ensures
        match size {
            Some((w, h)) => screen_size_of(chars@.subrange(lo as int, hi as int)) == Some(
                (w as int, h as int),
            ),
            None => screen_size_of(chars@.subrange(lo as int, hi as int)) is None,
        },
{
    let (a, b) = trim_bounds(chars, lo, hi);
    let ghost t = chars@.subrange(a as int, b as int);
    let comma: usize = find_mark(chars, a, b, ',');
    if comma >= b {
        return None;
    }
    assert(first_field(t) == chars@.subrange(a as int, comma as int));
    let ghost rest = chars@.subrange(comma as int + 1, b as int);
    assert(after_first_field(t) == rest);
    let (wa, wb) = trim_bounds(chars, a, comma);
    let width: Option<i32> = parse_i32(chars, wa, wb);
    let end: usize = find_mark(chars, comma + 1, b, ',');
    assert(first_field(rest) == chars@.subrange(comma as int + 1, end as int));
    let (ha, hb) = trim_bounds(chars, comma + 1, end);
    let height: Option<i32> = parse_i32(chars, ha, hb);
    match (width, height) {
        (Some(w), Some(h)) => if w > 0 && h > 0 {
            Some((w, h))
        } else {
            None
        },
        _ => None,
    }
}

/// Reads a source size from one line of the probe's output, such as
/// `1920,1080`.
pub fn parse_screen_size(line: &str) -> (size: Option<(i32, i32)>)
    ensures
        match size {
            Some((w, h)) => screen_size_of(line@) == Some((w as int, h as int)),
            None => screen_size_of(line@) is None,
        },
        size matches Some((w, h)) ==> w > 0 && h > 0,
{
    let chars: Vec<char> = chars_of(line);
    assert(chars@.subrange(0, chars@.len() as int) == line@);
    parse_size_between(&chars, 0, chars.len())
}

/// The first source size that a line of `text` states, the lines taken in
/// order and parted by line feeds.
pub open spec fn first_size_in(text: Seq<char>) -> Option<(int, int)>
    decreases text.len(),
{
    let end = position(text, '\n');
    let here = screen_size_of(text.subrange(0, end));
    if here is Some {
        here
    } else if 0 <= end < text.len() {
        first_size_in(text.subrange(end + 1, text.len() as int))
    } else {
        None
    }
}

/// Reads the native size of the capture source from what the probe
/// printed: the first line that states a size decides.
pub fn first_screen_size(text: &str) -> (size: Option<(i32, i32)>)
    ensures
        match size {
            Some((w, h)) => first_size_in(text@) == Some((w as int, h as int)),
            None => first_size_in(text@) is None,
        },
        size matches Some((w, h)) ==> w > 0 && h > 0,
{
    let chars: Vec<char> = chars_of(text);
    let n: usize = chars.len();
    let mut lo: usize = 0;
    assert(chars@.subrange(0, n as int) == text@);
    loop
        invariant
            n == chars.len(),
            lo <= n,
            first_size_in(text@) == first_size_in(chars@.subrange(lo as int, n as int)),
        decreases n - lo,
    {
        let ghost rest = chars@.subrange(lo as int, n as int);
        let end: usize = find_mark(&chars, lo, n, '\n');
        assert(rest.subrange(0, end - lo) == chars@.subrange(lo as int, end as int));
        let found: Option<(i32, i32)> = parse_size_between(&chars, lo, end);
        if found.is_some() {
            return found;
        }
        if end >= n {
            return None;
        }
        assert(rest.subrange(end - lo + 1, rest.len() as int) == chars@.subrange(
            end as int + 1,
            n as int,
        ));
        lo = end + 1;
    }
}

/// The source's native size as the probe reports it: the first size in
/// what it printed, and none where the probe did not run or ended badly.
pub open spec fn probed_size(success: bool, output: Seq<char>) -> Option<(int, int)> {
    if success {
        first_size_in(output)
    } else {
        None
    }
}

/// Reads the source's native size from the probe's result.
pub fn get_screen_size(success: bool, output: &str) -> (size: Option<(i32, i32)>)
    ensures
        match size {
            Some((w, h)) => probed_size(success, output@) == Some((w as int, h as int)),
            None => probed_size(success, output@) is None,
        },
        size matches Some((w, h)) ==> w > 0 && h > 0,
{
    if success {
        first_screen_size(output)
    } else {
        None
    }
}

} // verus!
