use vstd::prelude::*;
use crate::geometry::{on_board, Pos, HEIGHT, WIDTH};

verus! {

/// The colour tag a cell is drawn with.
#[derive(Debug, Clone, Copy, PartialEq, Eq, Structural)]
pub enum Colour {
    Green,
    Red,
    Black,
    White,
}

/// One cell of a frame: a glyph and its colour.
#[derive(Debug, Clone, Copy, PartialEq, Eq, Structural)]
pub struct Char {
    pub info: u8,
    pub col: Colour,
}

impl Char {
    pub fn new(info: u8, col: Colour) -> (r: Char)
        ensures
            r == (Char { info, col }),
    {
        Char { info, col }
    }
}

/// ` `
pub const SPACE: u8 = 32;
/// `@`
pub const FOOD: u8 = 64;
/// `o`
pub const SNAKE_PART: u8 = 111;
/// `0`
pub const SNAKE_HEAD: u8 = 48;
/// `-`
pub const LINE: u8 = 45;
/// `<`
pub const L_TOOTH: u8 = 60;
/// `>`
pub const R_TOOTH: u8 = 62;
/// `v`
pub const V: u8 = 118;
/// `^`
pub const CARET: u8 = 94;

pub open spec fn white(g: u8) -> Char {
    Char { info: g, col: Colour::White }
}

pub open spec fn background() -> Char {
    Char { info: SPACE, col: Colour::Black }
}

/// The cell at `(x, y)` of the bare field: a top line, a bottom line, side
/// teeth on every row below the top one, and background inside.
pub open spec fn field_cell(x: int, y: int) -> Char {
    if y == 0 {
        white(V)
    } else if x == 0 {
        white(R_TOOTH)
    } else if x == WIDTH - 1 {
        white(L_TOOTH)
    } else if y == HEIGHT - 1 {
        white(CARET)
    } else {
        background()
    }
}

/// A `HEIGHT` by `WIDTH` grid of cells, stored row after row.
#[derive(Debug)]
pub struct FrameBuffer {
    pub cells: Vec<Char>,
}

impl FrameBuffer {
    pub open spec fn wf(&self) -> bool {
        self.cells@.len() == WIDTH * HEIGHT
    }

    /// The cell in column `x` of row `y`.
    pub open spec fn at(&self, x: int, y: int) -> Char {
        self.cells@[y * WIDTH + x]
    }

    /// A frame with every cell set to the background.
    pub fn blank() -> (r: FrameBuffer)
        ensures
            r.wf(),
            forall|x: int, y: int|
                0 <= x < WIDTH && 0 <= y < HEIGHT ==> #[trigger] r.at(x, y) == background(),
    {
        let mut cells: Vec<Char> = Vec::new();
        let mut i: usize = 0;
        while i < WIDTH * HEIGHT
            invariant
                i <= WIDTH * HEIGHT,
                cells@.len() == i,
                forall|k: int| 0 <= k < i ==> #[trigger] cells@[k] == background(),
            decreases WIDTH * HEIGHT - i,
        {
            cells.push(Char { info: SPACE, col: Colour::Black });
            i = i + 1;
        }
        let r = FrameBuffer { cells };
        assert forall|x: int, y: int| 0 <= x < WIDTH && 0 <= y < HEIGHT implies #[trigger] r.at(
            x,
            y,
        ) == background() by {
            assert(0 <= y * WIDTH + x < WIDTH * HEIGHT) by (nonlinear_arith)
                requires
                    0 <= x < WIDTH,
                    0 <= y < HEIGHT,
            ;
        }
        r
    }

    /// The cell in column `x` of row `y`.
    pub fn cell(&self, x: usize, y: usize) -> (r: Char)
        requires
            self.wf(),
            x < WIDTH,
            y < HEIGHT,
        ensures
            r == self.at(x as int, y as int),
    {
        self.cells[y * WIDTH + x]
    }

    /// Sets the cell in column `x` of row `y`, leaving every other cell alone.
    pub fn set(&mut self, x: usize, y: usize, c: Char)
        requires
            old(self).wf(),
            x < WIDTH,
            y < HEIGHT,
        ensures
            final(self).wf(),
            forall|a: int, b: int|
                0 <= a < WIDTH && 0 <= b < HEIGHT ==> #[trigger] final(self).at(a, b) == if a == x
                    && b == y {
                    c
                } else {
                    old(self).at(a, b)
                },
    {
        self.cells.set(y * WIDTH + x, c);
    }

    /// Paints `glyphs` in white along row `y`, starting at column `x0`.
    pub fn paint_run(&mut self, x0: usize, y: usize, glyphs: &Vec<u8>)
        requires
            old(self).wf(),
            x0 + glyphs@.len() <= WIDTH,
            y < HEIGHT,
        ensures
            final(self).wf(),
            forall|a: int, b: int|
                0 <= a < WIDTH && 0 <= b < HEIGHT ==> #[trigger] final(self).at(a, b) == if b == y
                    && x0 <= a < x0 + glyphs@.len() {
                    white(glyphs@[a - x0])
                } else {
                    old(self).at(a, b)
                },
    {
        let n = glyphs.len();
        let mut i: usize = 0;
        while i < n
            invariant
                n == glyphs@.len(),
                x0 + n <= WIDTH,
                y < HEIGHT,
                i <= n,
                self.wf(),
                forall|a: int, b: int|
                    0 <= a < WIDTH && 0 <= b < HEIGHT ==> #[trigger] self.at(a, b) == if b == y
                        && x0 <= a < x0 + i {
                        white(glyphs@[a - x0])
                    } else {
                        old(self).at(a, b)
                    },
            decreases n - i,
        {
            self.set(x0 + i, y, Char { info: glyphs[i], col: Colour::White });
            i = i + 1;
        }
    }

    /// Draws the border of the field: the top and bottom lines, then a tooth
    /// at each end of every row below the top one.
    pub fn draw_field(&mut self)
        requires
            old(self).wf(),
        ensures
            final(self).wf(),
            forall|a: int, b: int|
                0 <= a < WIDTH && 0 <= b < HEIGHT ==> #[trigger] final(self).at(a, b) == if a == 0
                    || a == WIDTH - 1 || b == 0 || b == HEIGHT - 1 {
                    field_cell(a, b)
                } else {
                    old(self).at(a, b)
                },
    {
        let mut x: usize = 0;
        while x < WIDTH
            invariant
                x <= WIDTH,
                self.wf(),
                forall|a: int, b: int|
                    0 <= a < WIDTH && 0 <= b < HEIGHT ==> #[trigger] self.at(a, b) == if a < x
                        && b == 0 {
                        white(V)
                    } else if a < x && b == HEIGHT - 1 {
                        white(CARET)
                    } else {
                        old(self).at(a, b)
                    },
            decreases WIDTH - x,
        {
            self.set(x, 0, Char { info: V, col: Colour::White });
            self.set(x, HEIGHT - 1, Char { info: CARET, col: Colour::White });
            x = x + 1;
        }
        let mut y: usize = 1;
        while y < HEIGHT
            invariant
                1 <= y <= HEIGHT,
                self.wf(),
                forall|a: int, b: int|
                    0 <= a < WIDTH && 0 <= b < HEIGHT ==> #[trigger] self.at(a, b) == if 1 <= b < y
                        && a == 0 {
                        white(R_TOOTH)
                    } else if 1 <= b < y && a == WIDTH - 1 {
                        white(L_TOOTH)
                    } else if b == 0 {
                        white(V)
                    } else if b == HEIGHT - 1 {
                        white(CARET)
                    } else {
                        old(self).at(a, b)
                    },
            decreases HEIGHT - y,
        {
            self.set(0, y, Char { info: R_TOOTH, col: Colour::White });
            self.set(WIDTH - 1, y, Char { info: L_TOOTH, col: Colour::White });
            y = y + 1;
        }
    }
}

} // verus!
