//! Frames handed over by the image collaborator, and their encoding into one
//! block of colored glyph text.
use vstd::prelude::*;

use crate::glyph::{glyph_index, map_intensity};

verus! {

/// One pixel of a color frame, in the blue, green, red channel order of the
/// source.
#[derive(Clone, Copy, Debug, PartialEq, Eq, Structural)]
pub struct Bgr {
    pub b: u8,
    pub g: u8,
    pub r: u8,
}

/// A color frame: `height` rows of `width` pixels, row-major.
pub struct ColorFrame {
    pub width: usize,
    pub height: usize,
    pub pixels: Vec<Bgr>,
}

/// A grayscale frame: `height` rows of `width` intensities, row-major.
pub struct IntensityFrame {
    pub width: usize,
    pub height: usize,
    pub levels: Vec<u8>,
}

/// Why a frame pair could not be encoded. Both are recoverable: the frame is
/// skipped.
#[derive(Clone, Copy, Debug, PartialEq, Eq, Structural)]
pub enum FrameError {
    /// The color and grayscale frames differ in width or height.
    DimensionMismatch,
    /// A frame's buffer does not hold `width * height` entries.
    MalformedFrame,
}

/// The character of a decimal digit.
pub open spec fn digit_char(d: nat) -> char {
    ((d + 48) as u8) as char
}

/// Decimal notation of `n`, without leading zeros.
pub open spec fn decimal(n: nat) -> Seq<char>
    decreases n,
{
    if n < 10 {
        seq![digit_char(n)]
    } else {
        decimal(n / 10).push(digit_char(n % 10))
    }
}

/// `ESC[38;2;R;G;Bm` followed by the glyph: a foreground color and a glyph.
pub open spec fn escape_unit(p: Bgr, glyph: char) -> Seq<char> {
    seq!['\x1b', '[', '3', '8', ';', '2', ';'] + decimal(p.r as nat) + seq![';'] + decimal(
        p.g as nat,
    ) + seq![';'] + decimal(p.b as nat) + seq!['m', glyph]
}

/// The unit of one pixel: its color and the glyph its intensity selects.
pub open spec fn pixel_unit(p: Bgr, level: u8, ramp: Seq<char>) -> Seq<char> {
    escape_unit(p, ramp[glyph_index(level as int, ramp.len() as int)])
}

/// The units of the `k` pixels that start at `start`.
pub open spec fn row_units(
    pixels: Seq<Bgr>,
    levels: Seq<u8>,
    ramp: Seq<char>,
    start: int,
    k: nat,
) -> Seq<char>
    decreases k,
{
    if k == 0 {
        Seq::empty()
    } else {
        row_units(pixels, levels, ramp, start, (k - 1) as nat) + pixel_unit(
            pixels[start + k - 1],
            levels[start + k - 1],
            ramp,
        )
    }
}

/// The line terminator of a row (the terminal runs in raw mode).
pub open spec fn line_end() -> Seq<char> {
    seq!['\r', '\n']
}

/// The text of the first `rows` rows, each row followed by a line terminator.
pub open spec fn text_block(
    pixels: Seq<Bgr>,
    levels: Seq<u8>,
    ramp: Seq<char>,
    width: nat,
    rows: nat,
) -> Seq<char>
    decreases rows,
{
    if rows == 0 {
        Seq::empty()
    } else {
        text_block(pixels, levels, ramp, width, (rows - 1) as nat) + row_units(
            pixels,
            levels,
            ramp,
            (rows - 1) * width,
            width,
        ) + line_end()
    }
}

/// The two frames have the same width and height.
pub open spec fn same_dimensions(c: &ColorFrame, g: &IntensityFrame) -> bool {
    c.width == g.width && c.height == g.height
}

/// Each buffer holds exactly `width * height` entries.
pub open spec fn buffers_fit(c: &ColorFrame, g: &IntensityFrame) -> bool {
    c.pixels@.len() == c.width * c.height && g.levels@.len() == g.width * g.height
}

/// The text block encoding a well-formed frame pair.
pub open spec fn encoded(c: &ColorFrame, g: &IntensityFrame, ramp: Seq<char>) -> Seq<char> {
    text_block(c.pixels@, g.levels@, ramp, c.width as nat, c.height as nat)
}

/// Relies on String::with_capacity: the new string is empty.
#[verifier::external_body]
fn string_with_capacity(n: usize) -> (r: String)
    requires
        n <= isize::MAX,
    ensures
        r@ == Seq::<char>::empty(),
{
    String::with_capacity(n)
}

/// Relies on String::push: the character is appended at the end.
#[verifier::external_body]
fn push_char(s: &mut String, c: char)
    ensures
        final(s)@ == old(s)@.push(c),
{
    s.push(c)
}

fn digit(d: u8) -> (c: char)
    requires
        d < 10,
    ensures
        c == digit_char(d as nat),
{
    (d + 48) as char
}

/// Appends the decimal notation of `v`.
fn push_decimal(s: &mut String, v: u8)
    ensures
        final(s)@ == old(s)@ + decimal(v as nat),
{
    let ghost start = s@;
    if v >= 100 {
        push_char(s, digit(v / 100));
    }
    if v >= 10 {
        push_char(s, digit((v / 10) % 10));
    }
    push_char(s, digit(v % 10));
    proof {
        let n = v as nat;
        if n >= 100 {
            assert(decimal(n / 100) == seq![digit_char(n / 100)]);
            assert((n / 10) / 10 == n / 100);
            assert(decimal(n / 10) == decimal(n / 100).push(digit_char((n / 10) % 10)));
        } else if n >= 10 {
            assert(decimal(n / 10) == seq![digit_char(n / 10)]);
            assert((n / 10) % 10 == n / 10);
        }
        assert(s@ =~= start + decimal(n));
    }
}

/// Appends the color escape of `p` followed by `glyph`.
fn push_unit(s: &mut String, p: Bgr, glyph: char)
    ensures
        final(s)@ == old(s)@ + escape_unit(p, glyph),
{
    let ghost start = s@;
    push_char(s, '\x1b');
    push_char(s, '[');
    push_char(s, '3');
    push_char(s, '8');
    push_char(s, ';');
    push_char(s, '2');
    push_char(s, ';');
    push_decimal(s, p.r);
    push_char(s, ';');
    push_decimal(s, p.g);
    push_char(s, ';');
    push_decimal(s, p.b);
    push_char(s, 'm');
    push_char(s, glyph);
    assert(s@ =~= start + escape_unit(p, glyph));
}

/// Encodes a color frame and its grayscale companion into one text block:
/// for each row, one color escape and glyph per pixel, then a line
/// terminator.
pub fn encode(color: &ColorFrame, gray: &IntensityFrame, ramp: &str) -> (r: Result<
    String,
    FrameError,
>)
    requires
        ramp@.len() >= 2,
        ramp@.len() * 255 <= usize::MAX,
    ensures
        r == Err::<String, FrameError>(FrameError::DimensionMismatch) <==> !same_dimensions(
            color,
            gray,
        ),
        r == Err::<String, FrameError>(FrameError::MalformedFrame) <==> same_dimensions(color, gray)
            && !buffers_fit(color, gray),
        r is Ok <==> same_dimensions(color, gray) && buffers_fit(color, gray),
        r matches Ok(s) ==> s@ == encoded(color, gray, ramp@),
{
    if color.width != gray.width || color.height != gray.height {
        return Err(FrameError::DimensionMismatch);
    }
    let w = color.width;
    let h = color.height;
    let n = ramp.unicode_len();
    let count = color.pixels.len();
    if w.checked_mul(h) != Some(count) || gray.levels.len() != count {
        return Err(FrameError::MalformedFrame);
    }
    let ghost pix = color.pixels@;
    let ghost lev = gray.levels@;
    let cap: usize = if count < usize::MAX / 8 {
        count * 4
    } else {
        0
    };
    let mut out = string_with_capacity(cap);
    let mut row: usize = 0;
    while row < h
        invariant
            row <= h,
            count == w * h,
            pix.len() == count,
            lev.len() == count,
            n == ramp@.len(),
            n >= 2,
            n * 255 <= usize::MAX,
            pix == color.pixels@,
            lev == gray.levels@,
            out@ == text_block(pix, lev, ramp@, w as nat, row as nat),
        decreases h - row,
    {
        proof {
            assert(row * w + w <= h * w) by (nonlinear_arith)
                requires
                    row < h,
            ;
        }
        let base = row * w;
        let mut col: usize = 0;
        while col < w
            invariant
                row < h,
                col <= w,
                base == row * w,
                base + w <= count,
                count == w * h,
                pix.len() == count,
                lev.len() == count,
                n == ramp@.len(),
                n >= 2,
                n * 255 <= usize::MAX,
                pix == color.pixels@,
                lev == gray.levels@,
                out@ == text_block(pix, lev, ramp@, w as nat, row as nat) + row_units(
                    pix,
                    lev,
                    ramp@,
                    base as int,
                    col as nat,
                ),
            decreases w - col,
        {
            let p = color.pixels[base + col];
            let level = gray.levels[base + col];
            let gi = map_intensity(level as i32, n);
            let glyph = ramp.get_char(gi);
            push_unit(&mut out, p, glyph);
            proof {
                let prev = text_block(pix, lev, ramp@, w as nat, row as nat);
                assert(out@ =~= prev + row_units(pix, lev, ramp@, base as int, (col + 1) as nat));
            }
            col += 1;
        }
        push_char(&mut out, '\r');
        push_char(&mut out, '\n');
        proof {
            assert(out@ =~= text_block(pix, lev, ramp@, w as nat, (row + 1) as nat));
        }
        row += 1;
    }
    Ok(out)
}

/// How many times `c` occurs in `s`.
pub open spec fn count_char(s: Seq<char>, c: char) -> nat
    decreases s.len(),
{
    if s.len() == 0 {
        0
    } else {
        count_char(s.drop_last(), c) + if s.last() == c {
            1nat
        } else {
            0nat
        }
    }
}

/// Every glyph is a printable ASCII character.
pub open spec fn printable_ramp(ramp: Seq<char>) -> bool {
    forall|i: int| 0 <= i < ramp.len() ==> 32 <= (#[trigger] ramp[i]) as u32 <= 126
}

/// No glyph is a line feed or an escape character, which is the case for
/// every printable ramp.
pub open spec fn glyphs_avoid_controls(ramp: Seq<char>) -> bool {
    forall|i: int| 0 <= i < ramp.len() ==> #[trigger] ramp[i] != '\n' && ramp[i] != '\x1b'
}

/// A printable ramp holds neither line feeds nor escape characters.
pub proof fn lemma_printable_avoids_controls(ramp: Seq<char>)
    requires
        printable_ramp(ramp),
    ensures
        glyphs_avoid_controls(ramp),
{
    assert('\n' as u32 == 10 && '\x1b' as u32 == 27);
    assert forall|i: int| 0 <= i < ramp.len() implies #[trigger] ramp[i] != '\n' && ramp[i]
        != '\x1b' by {
        assert(32 <= ramp[i] as u32);
    }
}

proof fn lemma_count_concat(a: Seq<char>, b: Seq<char>, c: char)
    ensures
        count_char(a + b, c) == count_char(a, c) + count_char(b, c),
    decreases b.len(),
{
    if b.len() == 0 {
        assert(a + b =~= a);
    } else {
        assert((a + b).drop_last() =~= a + b.drop_last());
        lemma_count_concat(a, b.drop_last(), c);
    }
}

proof fn lemma_count_decimal(n: nat, c: char)
    requires
        c == '\n' || c == '\x1b',
    ensures
        count_char(decimal(n), c) == 0,
    decreases n,
{
    let d = n % 10;
    assert((d + 48) as u8 as u32 == d + 48);
    assert(digit_char(d) as u32 == d + 48);
    assert('\n' as u32 == 10 && '\x1b' as u32 == 27);
    assert(digit_char(d) != c);
    assert(decimal(n).last() == digit_char(d));
    if n < 10 {
        assert(decimal(n).drop_last() =~= Seq::<char>::empty());
        assert(count_char(Seq::<char>::empty(), c) == 0);
    } else {
        let d = decimal(n / 10);
        assert(decimal(n).drop_last() =~= d);
        lemma_count_decimal(n / 10, c);
    }
    assert(decimal(n).len() > 0);
}

proof fn lemma_count_escape_unit(p: Bgr, glyph: char)
    requires
        glyph != '\n' && glyph != '\x1b',
    ensures
        count_char(escape_unit(p, glyph), '\n') == 0,
        count_char(escape_unit(p, glyph), '\x1b') == 1,
{
    let head = seq!['\x1b', '[', '3', '8', ';', '2', ';'];
    let semi = seq![';'];
    let tail = seq!['m', glyph];
    reveal_with_fuel(count_char, 8);
    assert(head.drop_last().drop_last().drop_last().drop_last().drop_last().drop_last() =~= seq!['\x1b']);
    assert(seq!['\x1b'].drop_last() =~= Seq::<char>::empty());
    assert(semi.drop_last() =~= Seq::<char>::empty());
    assert(tail.drop_last().drop_last() =~= Seq::<char>::empty());
    assert(count_char(head, '\n') == 0);
    assert(count_char(head, '\x1b') == 1);
    assert(count_char(semi, '\n') == 0 && count_char(semi, '\x1b') == 0);
    assert(count_char(tail, '\n') == 0 && count_char(tail, '\x1b') == 0);
    let cs = seq!['\n', '\x1b'];
    assert forall|k: int| 0 <= k < 2 implies count_char(escape_unit(p, glyph), #[trigger] cs[k])
        == count_char(head, cs[k]) by {
        let c = cs[k];
        lemma_count_decimal(p.r as nat, c);
        lemma_count_decimal(p.g as nat, c);
        lemma_count_decimal(p.b as nat, c);
        let s1 = head + decimal(p.r as nat);
        let s2 = s1 + semi;
        let s3 = s2 + decimal(p.g as nat);
        let s4 = s3 + semi;
        let s5 = s4 + decimal(p.b as nat);
        lemma_count_concat(head, decimal(p.r as nat), c);
        lemma_count_concat(s1, semi, c);
        lemma_count_concat(s2, decimal(p.g as nat), c);
        lemma_count_concat(s3, semi, c);
        lemma_count_concat(s4, decimal(p.b as nat), c);
        lemma_count_concat(s5, tail, c);
    }
    assert(cs[0] == '\n');
    assert(cs[1] == '\x1b');
}

/// The first `k` units of a row hold no line terminator and exactly `k`
/// escape characters, one per pixel.
pub proof fn lemma_row_units_shape(
    pixels: Seq<Bgr>,
    levels: Seq<u8>,
    ramp: Seq<char>,
    start: int,
    k: nat,
)
    requires
        ramp.len() >= 2,
        glyphs_avoid_controls(ramp),
    ensures
        count_char(row_units(pixels, levels, ramp, start, k), '\n') == 0,
        count_char(row_units(pixels, levels, ramp, start, k), '\x1b') == k,
    decreases k,
{
    if k == 0 {
    } else {
        let prev = row_units(pixels, levels, ramp, start, (k - 1) as nat);
        let p = pixels[start + k - 1];
        let lv = levels[start + k - 1];
        let gi = glyph_index(lv as int, ramp.len() as int);
        crate::glyph::lemma_glyph_index_in_range(lv as int, ramp.len() as int);
        assert(ramp[gi] != '\n' && ramp[gi] != '\x1b');
        lemma_count_escape_unit(p, ramp[gi]);
        lemma_row_units_shape(pixels, levels, ramp, start, (k - 1) as nat);
        lemma_count_concat(prev, pixel_unit(p, lv, ramp), '\n');
        lemma_count_concat(prev, pixel_unit(p, lv, ramp), '\x1b');
    }
}

/// An encoded block holds exactly one line terminator per row.
pub proof fn lemma_block_line_count(
    pixels: Seq<Bgr>,
    levels: Seq<u8>,
    ramp: Seq<char>,
    width: nat,
    rows: nat,
)
    requires
        ramp.len() >= 2,
        glyphs_avoid_controls(ramp),
    ensures
        count_char(text_block(pixels, levels, ramp, width, rows), '\n') == rows,
    decreases rows,
{
    if rows > 0 {
        let prev = text_block(pixels, levels, ramp, width, (rows - 1) as nat);
        let line = row_units(pixels, levels, ramp, (rows - 1) * width, width);
        lemma_block_line_count(pixels, levels, ramp, width, (rows - 1) as nat);
        lemma_row_units_shape(pixels, levels, ramp, (rows - 1) * width, width);
        lemma_count_concat(prev, line, '\n');
        lemma_count_concat(prev + line, line_end(), '\n');
        reveal_with_fuel(count_char, 3);
        assert(line_end().drop_last().drop_last() =~= Seq::<char>::empty());
        assert(line_end().drop_last() =~= seq!['\r']);
    }
}

/// Encoding a 2 by 2 frame pair gives two lines, each of two color and glyph
/// units followed by a line terminator; with a ramp free of line feeds and
/// escapes, there is no other line terminator and exactly two escapes per line.
pub proof fn lemma_two_by_two(c: &ColorFrame, g: &IntensityFrame, ramp: Seq<char>)
    requires
        c.width == 2 && c.height == 2,
        same_dimensions(c, g),
        buffers_fit(c, g),
    ensures
        ({
            let p = c.pixels@;
            let l = g.levels@;
            let line0 = pixel_unit(p[0], l[0], ramp) + pixel_unit(p[1], l[1], ramp);
            let line1 = pixel_unit(p[2], l[2], ramp) + pixel_unit(p[3], l[3], ramp);
            &&& encoded(c, g, ramp) == line0 + line_end() + line1 + line_end()
            &&& ramp.len() >= 2 && glyphs_avoid_controls(ramp) ==> {
                &&& count_char(encoded(c, g, ramp), '\n') == 2
                &&& count_char(line0, '\n') == 0 && count_char(line0, '\x1b') == 2
                &&& count_char(line1, '\n') == 0 && count_char(line1, '\x1b') == 2
            }
        }),
{
    let p = c.pixels@;
    let l = g.levels@;
    reveal_with_fuel(row_units, 3);
    reveal_with_fuel(text_block, 3);
    let line0 = pixel_unit(p[0], l[0], ramp) + pixel_unit(p[1], l[1], ramp);
    let line1 = pixel_unit(p[2], l[2], ramp) + pixel_unit(p[3], l[3], ramp);
    assert(row_units(p, l, ramp, 0, 2) =~= line0);
    assert(row_units(p, l, ramp, 2, 2) =~= line1);
    assert(text_block(p, l, ramp, 2, 1) =~= line0 + line_end());
    assert(encoded(c, g, ramp) =~= line0 + line_end() + line1 + line_end());
    if ramp.len() >= 2 && glyphs_avoid_controls(ramp) {
        lemma_block_line_count(p, l, ramp, 2, 2);
        lemma_row_units_shape(p, l, ramp, 0, 2);
        lemma_row_units_shape(p, l, ramp, 2, 2);
    }
}

} // verus!
