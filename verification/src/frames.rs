//! The frame library: one looping animation cycle of 8x8 bitmaps per
//! mood (`Unknown` shares the `Neutral` cycle).
//!
//! The bitmaps are authored upside-down relative to the physical device
//! orientation, so each one is rotated 180 degrees once, when the
//! library is built. In the flat row-major representation a 180-degree
//! rotation is exactly the reversal of the cell sequence, since cell
//! `(row, col)` moves to `(7 - row, 7 - col)`.

use vstd::prelude::*;
use crate::mood::Mood;

verus! {

/// One pixel of a frame: off, or one of the two colors the art uses.
#[derive(Clone, Copy, Debug, PartialEq, Eq, Structural)]
pub enum LedColor {
    Black,
    Blue,
    Red,
}

/// One static 8x8 bitmap, stored flat in row-major order: cell
/// `(row, col)` is at index `row * 8 + col`.
#[derive(Clone, Debug, PartialEq)]
pub struct Frame {
    cells: Vec<LedColor>,
}

impl View for Frame {
    type V = Seq<LedColor>;

    closed spec fn view(&self) -> Seq<LedColor> {
        self.cells@
    }
}

impl Frame {
    /// A frame always holds exactly the 64 cells of the 8x8 grid.
    pub open spec fn wf(self) -> bool {
        self@.len() == 64
    }

    /// Wraps 64 cells, given flat in row-major order, as a frame.
    pub fn from_cells(cells: Vec<LedColor>) -> (f: Frame)
        requires
            cells@.len() == 64,
        ensures
            f@ == cells@,
            f.wf(),
    {
        Frame { cells }
    }

    /// The cell at the given row and column.
    pub fn cell(&self, row: usize, col: usize) -> (c: LedColor)
        requires
            self.wf(),
            row < 8,
            col < 8,
        ensures
            c == self@[row as int * 8 + col as int],
    {
        self.cells[row * 8 + col]
    }

    /// The frame rotated by 180 degrees: cell `(row, col)` of the
    /// result is cell `(7 - row, 7 - col)` of the original, which on
    /// the flat representation is the reversal of the cell sequence.
    pub fn rotate180(&self) -> (r: Frame)
        requires
            self.wf(),
        ensures
            r.wf(),
            r@ == self@.reverse(),
    {
        let mut out: Vec<LedColor> = Vec::new();
        let mut i: usize = 0;
        while i < 64
            invariant
                self@.len() == 64,
                i <= 64,
                out@.len() == i,
                forall|j: int| 0 <= j < i ==> out@[j] == self@[63 - j],
            decreases 64 - i,
        {
            out.push(self.cells[64 - 1 - i]);
            i = i + 1;
        }
        proof {
            assert(out@ =~= self@.reverse());
        }
        Frame { cells: out }
    }

    /// The flattened 24-bit RGB rendering of the frame: three bytes per
    /// cell, in cell order.
    pub fn frame_line(&self) -> (line: Vec<u8>)
        requires
            self.wf(),
        ensures
            line@ == line_of(self@),
    {
        let mut line: Vec<u8> = Vec::new();
        let mut i: usize = 0;
        while i < 64
            invariant
                self@.len() == 64,
                i <= 64,
                line@.len() == 3 * i,
                forall|j: int| 0 <= j < 3 * i ==> line@[j] == line_of(self@)[j],
            decreases 64 - i,
        {
            let (rv, gv, bv) = rgb_of_color(self.cells[i]);
            line.push(rv);
            line.push(gv);
            line.push(bv);
            proof {
                assert forall|j: int| 3 * i <= j < 3 * i + 3 implies line@[j] == line_of(
                    self@,
                )[j] by {
                    assert(j / 3 == i && (j % 3 == j - 3 * i)) by (nonlinear_arith)
                        requires 3 * i <= j < 3 * i + 3, i >= 0;
                }
            }
            i = i + 1;
        }
        proof {
            assert(line@ =~= line_of(self@));
        }
        line
    }
}

/// The 24-bit RGB channel values of one cell color.
pub open spec fn channel_of(c: LedColor, ch: int) -> u8 {
    match c {
        LedColor::Black => 0,
        LedColor::Blue => if ch == 2 {
            255
        } else {
            0
        },
        LedColor::Red => if ch == 0 {
            255
        } else {
            0
        },
    }
}

/// The flattened RGB encoding of a cell sequence: for each cell its
/// red, green and blue channel, in order.
pub open spec fn line_of(cells: Seq<LedColor>) -> Seq<u8> {
    Seq::new(cells.len() * 3, |j: int| channel_of(cells[j / 3], j % 3))
}

fn rgb_of_color(c: LedColor) -> (rgb: (u8, u8, u8))
    ensures
        rgb.0 == channel_of(c, 0),
        rgb.1 == channel_of(c, 1),
        rgb.2 == channel_of(c, 2),
{
    match c {
        LedColor::Black => (0, 0, 0),
        LedColor::Blue => (0, 0, 255),
        LedColor::Red => (255, 0, 0),
    }
}

/// Background, eye color, and mouth color: short names for the art
/// tables below.
pub const N: LedColor = LedColor::Black;

pub const B: LedColor = LedColor::Blue;

pub const R: LedColor = LedColor::Red;

/// One row of eight cells.
pub open spec fn art_row(
    c0: LedColor,
    c1: LedColor,
    c2: LedColor,
    c3: LedColor,
    c4: LedColor,
    c5: LedColor,
    c6: LedColor,
    c7: LedColor,
) -> Seq<LedColor> {
    seq![c0, c1, c2, c3, c4, c5, c6, c7]
}

/// The authored `Happy` cycle: three frames of blinking eyes over a
/// smile, as drawn (before the 180-degree rotation).
pub open spec fn happy_art(k: int) -> Seq<LedColor> {
    if k == 0 {
        art_row(N, N, N, N, N, N, N, N) + art_row(N, B, N, N, N, N, B, N) + art_row(
            N, N, N, N, N, N, N, N,
        ) + art_row(N, N, N, N, N, N, N, N) + art_row(R, N, N, N, N, N, N, R) + art_row(
            N, R, N, N, N, N, R, N,
        ) + art_row(N, N, R, R, R, R, N, N) + art_row(N, N, N, N, N, N, N, N)
    } else if k == 1 {
        art_row(N, N, N, N, N, N, N, N) + art_row(N, N, N, N, N, N, B, N) + art_row(
            N, N, N, N, N, N, N, N,
        ) + art_row(N, N, N, N, N, N, N, N) + art_row(R, N, N, N, N, N, N, R) + art_row(
            N, R, N, N, N, N, R, N,
        ) + art_row(N, N, R, R, R, R, N, N) + art_row(N, N, N, N, N, N, N, N)
    } else {
        art_row(N, N, N, N, N, N, N, N) + art_row(N, B, N, N, N, N, N, N) + art_row(
            N, N, N, N, N, N, N, N,
        ) + art_row(N, N, N, N, N, N, N, N) + art_row(R, N, N, N, N, N, N, R) + art_row(
            N, R, N, N, N, N, R, N,
        ) + art_row(N, N, R, R, R, R, N, N) + art_row(N, N, N, N, N, N, N, N)
    }
}

/// The authored `Neutral` cycle (also shown for `Unknown`): two frames
/// of blinking eyes over a flat mouth, as drawn.
pub open spec fn neutral_art(k: int) -> Seq<LedColor> {
    if k == 0 {
        art_row(N, N, N, N, N, N, N, N) + art_row(N, B, N, N, N, B, N, N) + art_row(
            N, N, N, N, N, N, N, N,
        ) + art_row(N, N, N, N, N, N, N, N) + art_row(N, N, N, N, N, N, N, N) + art_row(
            N, R, R, R, R, R, R, N,
        ) + art_row(N, N, N, N, N, N, N, N) + art_row(N, N, N, N, N, N, N, N)
    } else {
        art_row(N, N, N, N, N, N, N, N) + art_row(N, N, B, N, N, N, B, N) + art_row(
            N, N, N, N, N, N, N, N,
        ) + art_row(N, N, N, N, N, N, N, N) + art_row(N, N, N, N, N, N, N, N) + art_row(
            N, R, R, R, R, R, R, N,
        ) + art_row(N, N, N, N, N, N, N, N) + art_row(N, N, N, N, N, N, N, N)
    }
}

/// The authored `Sad` cycle: four frames of blinking, shifting eyes
/// over a frown, as drawn.
pub open spec fn sad_art(k: int) -> Seq<LedColor> {
    if k == 0 {
        art_row(N, N, N, N, N, N, N, N) + art_row(N, B, N, N, N, B, N, N) + art_row(
            N, N, N, N, N, N, N, N,
        ) + art_row(N, N, N, N, N, N, N, N) + art_row(N, N, R, R, R, R, N, N) + art_row(
            N, R, N, N, N, N, R, N,
        ) + art_row(R, N, N, N, N, N, N, R) + art_row(N, N, N, N, N, N, N, N)
    } else if k == 1 {
        art_row(N, N, N, N, N, N, N, N) + art_row(N, N, B, N, N, N, B, N) + art_row(
            N, N, N, N, N, N, N, N,
        ) + art_row(N, N, N, N, N, N, N, N) + art_row(N, N, R, R, R, R, N, N) + art_row(
            N, R, N, N, N, N, R, N,
        ) + art_row(R, N, N, N, N, N, N, R) + art_row(N, N, N, N, N, N, N, N)
    } else if k == 2 {
        art_row(N, N, N, N, N, N, N, N) + art_row(N, N, N, N, N, N, N, N) + art_row(
            N, N, B, N, N, N, B, N,
        ) + art_row(N, N, N, N, N, N, N, N) + art_row(N, N, R, R, R, R, N, N) + art_row(
            N, R, N, N, N, N, R, N,
        ) + art_row(R, N, N, N, N, N, N, R) + art_row(N, N, N, N, N, N, N, N)
    } else {
        art_row(N, N, N, N, N, N, N, N) + art_row(N, N, N, N, N, N, N, N) + art_row(
            N, B, N, N, N, B, N, N,
        ) + art_row(N, N, N, N, N, N, N, N) + art_row(N, N, R, R, R, R, N, N) + art_row(
            N, R, N, N, N, N, R, N,
        ) + art_row(R, N, N, N, N, N, N, R) + art_row(N, N, N, N, N, N, N, N)
    }
}

fn push_row(
    v: &mut Vec<LedColor>,
    c0: LedColor,
    c1: LedColor,
    c2: LedColor,
    c3: LedColor,
    c4: LedColor,
    c5: LedColor,
    c6: LedColor,
    c7: LedColor,
)
    ensures
        final(v)@ == old(v)@ + art_row(c0, c1, c2, c3, c4, c5, c6, c7),
{
    v.push(c0);
    v.push(c1);
    v.push(c2);
    v.push(c3);
    v.push(c4);
    v.push(c5);
    v.push(c6);
    v.push(c7);
    proof {
        assert(v@ =~= old(v)@ + art_row(c0, c1, c2, c3, c4, c5, c6, c7));
    }
}

fn happy_frame(k: usize) -> (f: Frame)
    requires
        k < 3,
    ensures
        f.wf(),
        f@ == happy_art(k as int).reverse(),
{
    let mut v: Vec<LedColor> = Vec::new();
    push_row(&mut v, N, N, N, N, N, N, N, N);
    if k == 0 {
        push_row(&mut v, N, B, N, N, N, N, B, N);
    } else if k == 1 {
        push_row(&mut v, N, N, N, N, N, N, B, N);
    } else {
        push_row(&mut v, N, B, N, N, N, N, N, N);
    }
    push_row(&mut v, N, N, N, N, N, N, N, N);
    push_row(&mut v, N, N, N, N, N, N, N, N);
    push_row(&mut v, R, N, N, N, N, N, N, R);
    push_row(&mut v, N, R, N, N, N, N, R, N);
    push_row(&mut v, N, N, R, R, R, R, N, N);
    push_row(&mut v, N, N, N, N, N, N, N, N);
    proof {
        assert(v@ =~= happy_art(k as int));
    }
    Frame::from_cells(v).rotate180()
}

fn neutral_frame(k: usize) -> (f: Frame)
    requires
        k < 2,
    ensures
        f.wf(),
        f@ == neutral_art(k as int).reverse(),
{
    let mut v: Vec<LedColor> = Vec::new();
    push_row(&mut v, N, N, N, N, N, N, N, N);
    if k == 0 {
        push_row(&mut v, N, B, N, N, N, B, N, N);
    } else {
        push_row(&mut v, N, N, B, N, N, N, B, N);
    }
    push_row(&mut v, N, N, N, N, N, N, N, N);
    push_row(&mut v, N, N, N, N, N, N, N, N);
    push_row(&mut v, N, N, N, N, N, N, N, N);
    push_row(&mut v, N, R, R, R, R, R, R, N);
    push_row(&mut v, N, N, N, N, N, N, N, N);
    push_row(&mut v, N, N, N, N, N, N, N, N);
    proof {
        assert(v@ =~= neutral_art(k as int));
    }
    Frame::from_cells(v).rotate180()
}

fn sad_frame(k: usize) -> (f: Frame)
    requires
        k < 4,
    ensures
        f.wf(),
        f@ == sad_art(k as int).reverse(),
{
    let mut v: Vec<LedColor> = Vec::new();
    push_row(&mut v, N, N, N, N, N, N, N, N);
    if k == 0 {
        push_row(&mut v, N, B, N, N, N, B, N, N);
        push_row(&mut v, N, N, N, N, N, N, N, N);
    } else if k == 1 {
        push_row(&mut v, N, N, B, N, N, N, B, N);
        push_row(&mut v, N, N, N, N, N, N, N, N);
    } else if k == 2 {
        push_row(&mut v, N, N, N, N, N, N, N, N);
        push_row(&mut v, N, N, B, N, N, N, B, N);
    } else {
        push_row(&mut v, N, N, N, N, N, N, N, N);
        push_row(&mut v, N, B, N, N, N, B, N, N);
    }
    push_row(&mut v, N, N, N, N, N, N, N, N);
    push_row(&mut v, N, N, R, R, R, R, N, N);
    push_row(&mut v, N, R, N, N, N, N, R, N);
    push_row(&mut v, R, N, N, N, N, N, N, R);
    push_row(&mut v, N, N, N, N, N, N, N, N);
    proof {
        assert(v@ =~= sad_art(k as int));
    }
    Frame::from_cells(v).rotate180()
}

/// The catalogue of animation cycles, one per mood, with the
/// 180-degree rotation already applied to every frame.
pub struct FrameLibrary {
    happy: Vec<Frame>,
    neutral: Vec<Frame>,
    sad: Vec<Frame>,
}

impl FrameLibrary {
    /// The cycle shown for the given mood: `Unknown` shares the
    /// `Neutral` cycle.
    pub open spec fn cycle_spec(self, m: Mood) -> Seq<Frame> {
        match m {
            Mood::Happy => self.happy_cycle(),
            Mood::Neutral => self.neutral_cycle(),
            Mood::Sad => self.sad_cycle(),
            Mood::Unknown => self.neutral_cycle(),
        }
    }

    pub closed spec fn happy_cycle(self) -> Seq<Frame> {
        self.happy@
    }

    pub closed spec fn neutral_cycle(self) -> Seq<Frame> {
        self.neutral@
    }

    pub closed spec fn sad_cycle(self) -> Seq<Frame> {
        self.sad@
    }

    /// A well-formed library holds exactly the authored cycles, each
    /// frame rotated by 180 degrees: three frames for `Happy`, two for
    /// `Neutral`, four for `Sad`.
    pub open spec fn wf(self) -> bool {
        &&& self.happy_cycle().len() == 3
        &&& self.neutral_cycle().len() == 2
        &&& self.sad_cycle().len() == 4
        &&& (forall|k: int| 0 <= k < 3 ==> #[trigger] self.happy_cycle()[k]@ == happy_art(
            k,
        ).reverse())
        &&& (forall|k: int| 0 <= k < 2 ==> #[trigger] self.neutral_cycle()[k]@ == neutral_art(
            k,
        ).reverse())
        &&& (forall|k: int| 0 <= k < 4 ==> #[trigger] self.sad_cycle()[k]@ == sad_art(
            k,
        ).reverse())
        &&& (forall|k: int| 0 <= k < 3 ==> (#[trigger] self.happy_cycle()[k]).wf())
        &&& (forall|k: int| 0 <= k < 2 ==> (#[trigger] self.neutral_cycle()[k]).wf())
        &&& (forall|k: int| 0 <= k < 4 ==> (#[trigger] self.sad_cycle()[k]).wf())
    }

    /// Builds the catalogue, applying the rotation to each authored
    /// bitmap.
    pub fn new() -> (lib: FrameLibrary)
        ensures
            lib.wf(),
    {
        let mut happy: Vec<Frame> = Vec::new();
        happy.push(happy_frame(0));
        happy.push(happy_frame(1));
        happy.push(happy_frame(2));
        let mut neutral: Vec<Frame> = Vec::new();
        neutral.push(neutral_frame(0));
        neutral.push(neutral_frame(1));
        let mut sad: Vec<Frame> = Vec::new();
        sad.push(sad_frame(0));
        sad.push(sad_frame(1));
        sad.push(sad_frame(2));
        sad.push(sad_frame(3));
        FrameLibrary { happy, neutral, sad }
    }

    /// The animation cycle shown for the given mood.
    pub fn cycle(&self, m: Mood) -> (c: &Vec<Frame>)
        ensures
            c@ == self.cycle_spec(m),
    {
        match m {
            Mood::Happy => &self.happy,
            Mood::Neutral => &self.neutral,
            Mood::Sad => &self.sad,
            Mood::Unknown => &self.neutral,
        }
    }

    /// The frame one animator tick shows: tick `t` selects frame
    /// `t mod cycle.len()` of the mood's cycle, for any tick index.
    pub fn frame_for_tick(&self, m: Mood, t: usize) -> (f: &Frame)
        requires
            self.wf(),
        ensures
            *f == self.cycle_spec(m)[t as int % self.cycle_spec(m).len() as int],
            f.wf(),
    {
        let c = self.cycle(m);
        let idx = t % c.len();
        &c[idx]
    }

    /// One whole animator tick, short of the device write: the
    /// flattened RGB line of the frame that tick `t` selects for mood
    /// `m`. A pure function of the two: a failed device write on an
    /// earlier tick cannot change what a later tick renders.
    pub fn render_tick(&self, m: Mood, t: usize) -> (line: Vec<u8>)
        requires
            self.wf(),
        ensures
            line@ == line_of(
                self.cycle_spec(m)[t as int % self.cycle_spec(m).len() as int]@,
            ),
    {
        self.frame_for_tick(m, t).frame_line()
    }
}

} // verus!

