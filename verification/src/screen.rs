use vstd::prelude::*;
use vstd::string::StringExecFns;

verus! {

/// Number of pixel columns of the display.
pub const SCREEN_WIDTH: usize = 64;

/// Number of pixel rows of the display.
pub const SCREEN_HEIGHT: usize = 32;

/// Number of pixels of the display.
pub const SCREEN_PIXELS: usize = 2048;

/// The monochrome framebuffer: a fixed 64x32 grid of pixel states,
/// addressed row-major, pixel `(row, col)` at position `row * 64 + col`.
pub struct Screen {
    matrix: Vec<bool>,
}

impl View for Screen {
    type V = Seq<bool>;

    closed spec fn view(&self) -> Seq<bool> {
        self.matrix@
    }
}

/// The character that cell `(yy, xx)` of the rendered text shows: the
/// newline column at `xx == 64`, otherwise `X` for a lit pixel and a space
/// for an unlit one.
pub open spec fn render_cell(disp: Seq<bool>, yy: int, xx: int) -> char {
    if xx == 64 {
        '\n'
    } else if disp[yy * 64 + xx] {
        'X'
    } else {
        ' '
    }
}

/// The contents of a display whose pixels are all off.
pub open spec fn blank_screen() -> Seq<bool> {
    Seq::new(2048, |i: int| false)
}

impl Screen {
    /// A screen always holds one pixel state per cell of the 64x32 grid.
    pub open spec fn wf(&self) -> bool {
        self@.len() == 2048
    }

    /// A fresh screen with every pixel off.
    pub fn new() -> (s: Screen)
        ensures
            s.wf(),
            s@ == blank_screen(),
    {
        let s = Screen { matrix: vec![false; SCREEN_PIXELS] };
        proof {
            assert(s@ =~= blank_screen());
        }
        s
    }

    /// Reset every pixel to off.
    pub fn clear(&mut self)
        ensures
            final(self).wf(),
            final(self)@ == blank_screen(),
    {
        self.matrix = vec![false; SCREEN_PIXELS];
        proof {
            assert(self@ =~= blank_screen());
        }
    }

    /// Read the pixel at `(row, col)`. Out-of-range coordinates are a caller
    /// error, ruled out by the precondition: callers pre-clip.
    pub fn get(&self, row: usize, col: usize) -> (b: bool)
        requires
            self.wf(),
            row < 32,
            col < 64,
        ensures
            b == self@[row as int * 64 + col as int],
    {
        self.matrix[row * 64 + col]
    }

    /// Render the grid as text, row by row: a lit pixel as `X`, an unlit
    /// one as a space, a newline after each row and one more at the end.
    pub fn render(&self) -> (r: String)
        requires
            self.wf(),
        ensures
            r@.len() == 2081,
            forall|yy: int, xx: int|
                0 <= yy < 32 && 0 <= xx <= 64 ==> r@[yy * 65 + xx] == #[trigger] render_cell(
                    self@,
                    yy,
                    xx,
                ),
            r@[2080] == '\n',
    {
        let mut out = String::new();
        for y in 0..32usize
            invariant
                self.wf(),
                out@.len() == y * 65,
                forall|yy: int, xx: int|
                    0 <= yy < y && 0 <= xx <= 64 ==> out@[yy * 65 + xx] == #[trigger] render_cell(
                        self@,
                        yy,
                        xx,
                    ),
        {
            for x in 0..64usize
                invariant
                    self.wf(),
                    y < 32,
                    out@.len() == y * 65 + x,
                    forall|yy: int, xx: int|
                        0 <= yy < y && 0 <= xx <= 64 ==> out@[yy * 65 + xx]
                            == #[trigger] render_cell(self@, yy, xx),
                    forall|xx: int|
                        0 <= xx < x ==> out@[y * 65 + xx] == #[trigger] render_cell(self@, y as int, xx),
            {
                proof {
                    reveal_strlit("X");
                    reveal_strlit(" ");
                }
                if self.get(y, x) {
                    out.append("X");
                } else {
                    out.append(" ");
                }
            }
            proof {
                reveal_strlit("\n");
            }
            out.append("\n");
        }
        proof {
            reveal_strlit("\n");
        }
        out.append("\n");
        out
    }

    /// Write the pixel at `(row, col)`. Callers pre-clip coordinates.
    pub fn set(&mut self, row: usize, col: usize, b: bool)
        requires
            old(self).wf(),
            row < 32,
            col < 64,
        ensures
            final(self).wf(),
            final(self)@ == old(self)@.update(row as int * 64 + col as int, b),
    {
        self.matrix[row * 64 + col] = b;
    }
}

} // verus!
