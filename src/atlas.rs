//! The digit atlas: a grid of glyph cells, one column per digit and one for
//! the colon, one row per wiggle phase.
use vstd::prelude::*;

verus! {

/// Width of one glyph cell in the atlas, in pixels.
pub const CHAR_WIDTH: u64 = 150;

/// Height of one glyph cell in the atlas, in pixels.
pub const CHAR_HEIGHT: u64 = 190;

/// Number of glyphs drawn per frame: `HH:MM:SS`.
pub const CHARS_COUNT: u64 = 8;

/// Width of the whole glyph sequence at scale one.
pub const TEXT_WIDTH: u64 = CHAR_WIDTH * CHARS_COUNT;

/// Height of the whole glyph sequence at scale one.
pub const TEXT_HEIGHT: u64 = CHAR_HEIGHT;

/// Column of the colon glyph; columns below it hold the digits 0 to 9.
pub const COLON_INDEX: u64 = 10;

/// Number of wiggle phases, one atlas row each.
pub const WIGGLE_COUNT: u64 = 3;

/// A rectangle in pixels: top-left corner and size.
#[derive(Clone, Copy, Debug, PartialEq, Eq, Structural)]
pub struct Rect {
    pub x: i64,
    pub y: i64,
    pub w: u64,
    pub h: u64,
}

/// The cursor at which the next glyph is drawn (its top-left corner).
#[derive(Clone, Copy, Debug, PartialEq, Eq, Structural)]
pub struct Pen {
    pub x: i64,
    pub y: i64,
}

/// One glyph to draw: the cell of the atlas and where it goes in the window.
#[derive(Clone, Copy, Debug, PartialEq, Eq, Structural)]
pub struct GlyphDraw {
    pub src: Rect,
    pub dst: Rect,
}

/// The atlas cell of glyph column `value` in wiggle row `phase`.
pub open spec fn source_rect_of(value: nat, phase: nat) -> Rect {
    Rect {
        x: (value * CHAR_WIDTH) as i64,
        y: (phase * CHAR_HEIGHT) as i64,
        w: CHAR_WIDTH,
        h: CHAR_HEIGHT,
    }
}

/// Looks up the atlas cell of glyph column `value` in wiggle row `phase`.
pub fn source_rect(value: u64, phase: u64) -> (r: Rect)
    requires
        value <= COLON_INDEX,
        phase < WIGGLE_COUNT,
    ensures
        r == source_rect_of(value as nat, phase as nat),
{
    Rect {
        x: (value * CHAR_WIDTH) as i64,
        y: (phase * CHAR_HEIGHT) as i64,
        w: CHAR_WIDTH,
        h: CHAR_HEIGHT,
    }
}

/// Places glyph column `digit_index` of wiggle row `wiggle_index` at `pen`,
/// `glyph_width` by `glyph_height` pixels, and moves the pen right past it.
pub fn render_digit_at(
    digit_index: u64,
    wiggle_index: u64,
    pen: Pen,
    glyph_width: u64,
    glyph_height: u64,
) -> (r: (GlyphDraw, Pen))
    requires
        digit_index <= COLON_INDEX,
        wiggle_index < WIGGLE_COUNT,
        glyph_width <= i64::MAX,
        pen.x + glyph_width <= i64::MAX,
    ensures
        r.0.src == source_rect_of(digit_index as nat, wiggle_index as nat),
        r.0.dst == (Rect { x: pen.x, y: pen.y, w: glyph_width, h: glyph_height }),
        r.1 == (Pen { x: (pen.x + glyph_width) as i64, y: pen.y }),
{
    let src = source_rect(digit_index, wiggle_index);
    let dst = Rect { x: pen.x, y: pen.y, w: glyph_width, h: glyph_height };
    let next = Pen { x: pen.x + glyph_width as i64, y: pen.y };
    (GlyphDraw { src, dst }, next)
}

/// The glyph columns of `HH:MM:SS`, left to right; the hours show their last
/// two digits.
pub open spec fn glyph_values(hours: nat, minutes: nat, seconds: nat) -> Seq<nat> {
    seq![
        (hours / 10) % 10,
        hours % 10,
        COLON_INDEX as nat,
        minutes / 10,
        minutes % 10,
        COLON_INDEX as nat,
        seconds / 10,
        seconds % 10,
    ]
}

/// How far each glyph slot is ahead in the wiggle: digits step from 0 to 5,
/// colons always use 1.
pub open spec fn phase_offsets() -> Seq<nat> {
    seq![0, 1, 1, 2, 3, 1, 4, 5]
}

/// The eight glyphs of `HH:MM:SS` at wiggle phase `phase`, starting at `pen`,
/// each `glyph_width` by `glyph_height` pixels and right after the previous one.
pub open spec fn frame_glyphs_of(
    hours: nat,
    minutes: nat,
    seconds: nat,
    phase: nat,
    pen: Pen,
    glyph_width: nat,
    glyph_height: nat,
) -> Seq<GlyphDraw> {
    Seq::new(
        CHARS_COUNT as nat,
        |i: int|
            GlyphDraw {
                src: source_rect_of(
                    glyph_values(hours, minutes, seconds)[i],
                    (phase + phase_offsets()[i]) % (WIGGLE_COUNT as nat),
                ),
                dst: Rect {
                    x: (pen.x + i * glyph_width) as i64,
                    y: pen.y,
                    w: glyph_width as u64,
                    h: glyph_height as u64,
                },
            },
    )
}

/// Lays out the eight glyphs of `hours:minutes:seconds` for one frame.
pub fn frame_glyphs(
    hours: u64,
    minutes: u64,
    seconds: u64,
    phase: u64,
    pen: Pen,
    glyph_width: u64,
    glyph_height: u64,
) -> (r: Vec<GlyphDraw>)
    requires
        minutes < 60,
        seconds < 60,
        phase < WIGGLE_COUNT,
        pen.x + CHARS_COUNT * glyph_width <= i64::MAX,
    ensures
        r@ == frame_glyphs_of(
            hours as nat,
            minutes as nat,
            seconds as nat,
            phase as nat,
            pen,
            glyph_width as nat,
            glyph_height as nat,
        ),
{
    let values: Vec<u64> = vec![
        (hours / 10) % 10,
        hours % 10,
        COLON_INDEX,
        minutes / 10,
        minutes % 10,
        COLON_INDEX,
        seconds / 10,
        seconds % 10,
    ];
    let offsets: Vec<u64> = vec![0, 1, 1, 2, 3, 1, 4, 5];
    let ghost spec_values = glyph_values(hours as nat, minutes as nat, seconds as nat);
    let ghost want = frame_glyphs_of(
        hours as nat,
        minutes as nat,
        seconds as nat,
        phase as nat,
        pen,
        glyph_width as nat,
        glyph_height as nat,
    );
    assert(values@.len() == 8 && forall|j: int| 0 <= j < 8 ==> values@[j] as nat == spec_values[j]);
    assert(forall|j: int| 0 <= j < 8 ==> offsets@[j] as nat == phase_offsets()[j]);
    let mut out: Vec<GlyphDraw> = Vec::new();
    let mut cursor = pen;
    let mut i: usize = 0;
    while i < 8
        invariant
            0 <= i <= 8,
            spec_values == glyph_values(hours as nat, minutes as nat, seconds as nat),
            want == frame_glyphs_of(
                hours as nat,
                minutes as nat,
                seconds as nat,
                phase as nat,
                pen,
                glyph_width as nat,
                glyph_height as nat,
            ),
            values@.len() == 8,
            offsets@.len() == 8,
            forall|j: int| 0 <= j < 8 ==> values@[j] as nat == spec_values[j],
            forall|j: int| 0 <= j < 8 ==> offsets@[j] as nat == phase_offsets()[j],
            forall|j: int| 0 <= j < 8 ==> values@[j] <= COLON_INDEX,
            forall|j: int| 0 <= j < 8 ==> offsets@[j] <= 5,
            phase < WIGGLE_COUNT,
            pen.x + CHARS_COUNT * glyph_width <= i64::MAX,
            cursor == (Pen { x: (pen.x + i * glyph_width) as i64, y: pen.y }),
            out@.len() == i,
            forall|j: int| 0 <= j < i ==> out@[j] == want[j],
        decreases 8 - i,
    {
        proof {
            assert(pen.x + i * glyph_width + glyph_width <= pen.x + CHARS_COUNT * glyph_width)
                by (nonlinear_arith)
                requires i < 8, glyph_width >= 0;
            assert(glyph_width <= i64::MAX);
        }
        let (draw, next) = render_digit_at(
            values[i],
            (phase + offsets[i]) % WIGGLE_COUNT,
            cursor,
            glyph_width,
            glyph_height,
        );
        out.push(draw);
        cursor = next;
        proof {
            assert(pen.x + i * glyph_width + glyph_width == pen.x + (i + 1) * glyph_width)
                by (nonlinear_arith);
        }
        i = i + 1;
    }
    assert(out@ =~= want);
    out
}

/// Within one frame the pen only moves right: each glyph starts where the
/// previous one ends, so the left edges never decrease from slot to slot.
pub proof fn lemma_pen_moves_right(
    hours: nat,
    minutes: nat,
    seconds: nat,
    phase: nat,
    pen: Pen,
    glyph_width: nat,
    glyph_height: nat,
    i: int,
    j: int,
)
    requires
        0 <= i <= j < CHARS_COUNT,
        pen.x + CHARS_COUNT * glyph_width <= i64::MAX,
    ensures
        ({
            let g = frame_glyphs_of(hours, minutes, seconds, phase, pen, glyph_width, glyph_height);
            &&& g[i].dst.x <= g[j].dst.x
            &&& g[j].dst.x == g[i].dst.x + (j - i) * glyph_width
        }),
{
    assert(pen.x + i * glyph_width <= pen.x + j * glyph_width <= pen.x + CHARS_COUNT * glyph_width)
        by (nonlinear_arith)
        requires 0 <= i <= j < 8, glyph_width >= 0;
    assert(pen.x + j * glyph_width == pen.x + i * glyph_width + (j - i) * glyph_width)
        by (nonlinear_arith);
}

} // verus!
