use vstd::prelude::*;

verus! {

/// Number of columns of the board, border included.
pub const WIDTH: usize = 30;

/// Number of rows of the board, border included.
pub const HEIGHT: usize = 14;

/// A cell of the board; `(0, 0)` is the top left corner.
#[derive(Debug, Clone, Copy, PartialEq, Eq, Structural)]
pub struct Pos {
    pub x: usize,
    pub y: usize,
}

/// The cell lies on the board, border included.
pub open spec fn on_board(p: Pos) -> bool {
    p.x < WIDTH && p.y < HEIGHT
}

/// The cell lies strictly inside the one-cell border ring.
pub open spec fn interior(p: Pos) -> bool {
    1 <= p.x <= WIDTH - 2 && 1 <= p.y <= HEIGHT - 2
}

/// Strict containment of `p` in the open rectangle between `min` and `max`.
pub open spec fn strictly_inside(p: Pos, min: Pos, max: Pos) -> bool {
    min.x < p.x < max.x && min.y < p.y < max.y
}

impl Pos {
    pub fn new(x: usize, y: usize) -> (r: Pos)
        ensures
            r == (Pos { x, y }),
    {
        Pos { x, y }
    }

    /// Whether this position lies strictly between `min` and `max` on both axes.
    pub fn inbound(&self, min: Pos, max: Pos) -> (r: bool)
        ensures
            r == strictly_inside(*self, min, max),
    {
        let x_in = min.x < self.x && self.x < max.x;
        let y_in = min.y < self.y && self.y < max.y;
        x_in && y_in
    }
}

/// Against the board's outer corners, `inbound` holds exactly on the interior:
/// every border cell is out of bounds and every interior cell is in bounds.
pub proof fn lemma_inbound_is_interior(p: Pos)
    ensures
        strictly_inside(p, Pos { x: 0, y: 0 }, Pos { x: (WIDTH - 1) as usize, y: (HEIGHT - 1) as usize })
            == interior(p),
        (p.x == 0 || p.x == WIDTH - 1 || p.y == 0 || p.y == HEIGHT - 1) ==> !strictly_inside(
            p,
            Pos { x: 0, y: 0 },
            Pos { x: (WIDTH - 1) as usize, y: (HEIGHT - 1) as usize },
        ),
{
}

} // verus!
