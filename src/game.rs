use vstd::prelude::*;
use crate::food::spawn_food;
use crate::frame::{
    background, field_cell, white, Char, Colour, FrameBuffer, FOOD, LINE, SNAKE_HEAD, SNAKE_PART,
};
use crate::geometry::{interior, lemma_inbound_is_interior, on_board, Pos, HEIGHT, WIDTH};
use crate::controls::{key_direction, steering, Key};
use crate::snake::{can_step, grown, moved, occurrences, opposite, turned, Direction, Snake};

verus! {

/// Column of a fresh snake's head.
pub const START_X: usize = 14;

/// Row of a fresh snake's head.
pub const START_Y: usize = 7;

/// The cell at `(x, y)` of a playing frame: food over the head, the head over
/// the rest of the body, the body over the field.
pub open spec fn game_cell(body: Seq<Pos>, head: Pos, food: Pos, x: int, y: int) -> Char {
    let p = Pos { x: x as usize, y: y as usize };
    if p == food {
        Char { info: FOOD, col: Colour::Red }
    } else if p == head {
        Char { info: SNAKE_HEAD, col: Colour::Green }
    } else if body.contains(p) {
        Char { info: SNAKE_PART, col: Colour::Green }
    } else {
        field_cell(x, y)
    }
}

/// "You Died"
pub open spec fn died_caption() -> Seq<u8> {
    seq![89u8, 111u8, 117u8, 32u8, 68u8, 105u8, 101u8, 100u8]
}

/// "Again?: (Y/N)"
pub open spec fn again_caption() -> Seq<u8> {
    seq![65u8, 103u8, 97u8, 105u8, 110u8, 63u8, 58u8, 32u8, 40u8, 89u8, 47u8, 78u8, 41u8]
}

/// The cell at `(x, y)` of the end-of-life screen: two rules framing two
/// captions over the bare field.
pub open spec fn end_cell(x: int, y: int) -> Char {
    if (y == 4 || y == 8) && 10 <= x < 20 {
        white(LINE)
    } else if y == 5 && 11 <= x < 19 {
        white(died_caption()[x - 11])
    } else if y == 7 && 9 <= x < 22 {
        white(again_caption()[x - 9])
    } else {
        field_cell(x, y)
    }
}

fn died_text() -> (r: Vec<u8>)
    ensures
        r@ == died_caption(),
{
    let r = vec![89u8, 111u8, 117u8, 32u8, 68u8, 105u8, 101u8, 100u8];
    assert(r@ =~= died_caption());
    r
}

fn again_text() -> (r: Vec<u8>)
    ensures
        r@ == again_caption(),
{
    let r = vec![65u8, 103u8, 97u8, 105u8, 110u8, 63u8, 58u8, 32u8, 40u8, 89u8, 47u8, 78u8, 41u8];
    assert(r@ =~= again_caption());
    r
}

fn rule_text() -> (r: Vec<u8>)
    ensures
        r@.len() == 10,
        forall|i: int| 0 <= i < 10 ==> r@[i] == LINE,
{
    let r = vec![LINE; 10];
    r
}

/// The whole game: the snake, the food, the score, whether the snake is
/// still playing, and the frame last drawn.
#[derive(Debug)]
pub struct Game {
    pub snake: Snake,
    pub food: Pos,
    pub score: i32,
    pub state: bool,
    pub buff: FrameBuffer,
}

impl Game {
    /// Every body cell lies on the board; while playing, every cell but the
    /// last lies in the interior (the last may be a freshly grown tail).
    pub open spec fn wf(&self) -> bool {
        &&& self.snake.wf()
        &&& interior(self.food)
        &&& self.score >= 0
        &&& self.buff.wf()
        &&& forall|i: int| 0 <= i < self.snake.body@.len() ==> on_board(#[trigger] self.snake.body@[i])
        &&& self.state ==> forall|i: int|
            0 <= i < self.snake.body@.len() - 1 ==> interior(#[trigger] self.snake.body@[i])
    }

    /// Clears the frame to the background.
    pub fn buffer_reset(&mut self)
        ensures
            final(self).buff.wf(),
            forall|x: int, y: int|
                0 <= x < WIDTH && 0 <= y < HEIGHT ==> #[trigger] final(self).buff.at(x, y)
                    == background(),
            final(self).snake == old(self).snake,
            final(self).food == old(self).food,
            final(self).score == old(self).score,
            final(self).state == old(self).state,
    {
        self.buff = FrameBuffer::blank();
    }

    /// Marks every body cell, then the head.
    pub fn draw_snake(&mut self)
        requires
            old(self).wf(),
        ensures
            final(self).buff.wf(),
            forall|a: int, b: int|
                0 <= a < WIDTH && 0 <= b < HEIGHT ==> #[trigger] final(self).buff.at(a, b) == {
                    let p = Pos { x: a as usize, y: b as usize };
                    if p == old(self).snake.head {
                        Char { info: SNAKE_HEAD, col: Colour::Green }
                    } else if old(self).snake.body@.contains(p) {
                        Char { info: SNAKE_PART, col: Colour::Green }
                    } else {
                        old(self).buff.at(a, b)
                    }
                },
            final(self).snake == old(self).snake,
            final(self).food == old(self).food,
            final(self).score == old(self).score,
            final(self).state == old(self).state,
    {
        let n = self.snake.body.len();
        let ghost body = self.snake.body@;
        let mut i: usize = 0;
        while i < n
            invariant
                n == body.len(),
                body == self.snake.body@,
                i <= n,
                self.buff.wf(),
                self.snake == old(self).snake,
                self.food == old(self).food,
                self.score == old(self).score,
                self.state == old(self).state,
                forall|k: int| 0 <= k < n ==> on_board(#[trigger] body[k]),
                forall|a: int, b: int|
                    0 <= a < WIDTH && 0 <= b < HEIGHT ==> #[trigger] self.buff.at(a, b) == if body.take(
                        i as int,
                    ).contains(Pos { x: a as usize, y: b as usize }) {
                        Char { info: SNAKE_PART, col: Colour::Green }
                    } else {
                        old(self).buff.at(a, b)
                    },
            decreases n - i,
        {
            let p = self.snake.body[i];
            assert(on_board(body[i as int]));
            self.buff.set(p.x, p.y, Char { info: SNAKE_PART, col: Colour::Green });
            assert forall|a: int, b: int|
                0 <= a < WIDTH && 0 <= b < HEIGHT implies #[trigger] self.buff.at(a, b) == if body.take(
                i as int + 1,
            ).contains(Pos { x: a as usize, y: b as usize }) {
                Char { info: SNAKE_PART, col: Colour::Green }
            } else {
                old(self).buff.at(a, b)
            } by {
                let q = Pos { x: a as usize, y: b as usize };
                let t0 = body.take(i as int);
                let t1 = body.take(i as int + 1);
                if t0.contains(q) {
                    let j = choose|j: int| 0 <= j < t0.len() && #[trigger] t0[j] == q;
                    assert(t1[j] == q);
                }
                if a == p.x && b == p.y {
                    assert(t1[i as int] == q);
                }
                if t1.contains(q) {
                    let j = choose|j: int| 0 <= j < t1.len() && #[trigger] t1[j] == q;
                    if j < i {
                        assert(t0[j] == q);
                    }
                }
            }
            i = i + 1;
        }
        assert(body.take(n as int) =~= body);
        let h = self.snake.head;
        self.buff.set(h.x, h.y, Char { info: SNAKE_HEAD, col: Colour::Green });
    }

    /// Marks the food cell.
    pub fn draw_food(&mut self)
        requires
            old(self).buff.wf(),
            interior(old(self).food),
        ensures
            final(self).buff.wf(),
            forall|a: int, b: int|
                0 <= a < WIDTH && 0 <= b < HEIGHT ==> #[trigger] final(self).buff.at(a, b) == if a
                    == old(self).food.x && b == old(self).food.y {
                    Char { info: FOOD, col: Colour::Red }
                } else {
                    old(self).buff.at(a, b)
                },
            final(self).snake == old(self).snake,
            final(self).food == old(self).food,
            final(self).score == old(self).score,
            final(self).state == old(self).state,
    {
        self.buff.set(self.food.x, self.food.y, Char { info: FOOD, col: Colour::Red });
    }

    /// Rebuilds the frame from scratch: field, snake, then food.
    pub fn draw_game(&mut self)
        requires
            old(self).wf(),
        ensures
            final(self).wf(),
            forall|a: int, b: int|
                0 <= a < WIDTH && 0 <= b < HEIGHT ==> #[trigger] final(self).buff.at(a, b)
                    == game_cell(old(self).snake.body@, old(self).snake.head, old(self).food, a, b),
            final(self).snake == old(self).snake,
            final(self).food == old(self).food,
            final(self).score == old(self).score,
            final(self).state == old(self).state,
    {
        self.buffer_reset();
        self.buff.draw_field();
        self.draw_snake();
        self.draw_food();
    }

    /// Draws the end-of-life screen over the bare field.
    pub fn exit_screen(&mut self)
        ensures
            final(self).buff.wf(),
            forall|a: int, b: int|
                0 <= a < WIDTH && 0 <= b < HEIGHT ==> #[trigger] final(self).buff.at(a, b)
                    == end_cell(a, b),
            final(self).snake == old(self).snake,
            final(self).food == old(self).food,
            final(self).score == old(self).score,
            final(self).state == old(self).state,
    {
        self.buffer_reset();
        self.buff.draw_field();
        let rule = rule_text();
        self.buff.paint_run(10, 4, &rule);
        self.buff.paint_run(10, 8, &rule);
        let died = died_text();
        self.buff.paint_run(11, 5, &died);
        let again = again_text();
        self.buff.paint_run(9, 7, &again);
    }
}

/// What became of one tick of play.
#[derive(Debug, Clone, Copy, PartialEq, Eq, Structural)]
pub enum Tick {
    /// The snake moved and lives on.
    Running,
    /// The pause key ended the round early; nothing moved.
    Paused,
    /// The snake hit the border or itself.
    Died,
}

/// The direction after the key pressed during a tick, if any.
pub open spec fn heading(d: Direction, key: Option<Key>) -> Direction {
    match key {
        Some(k) => match steering(k) {
            Some(nd) => turned(d, nd),
            None => d,
        },
        None => d,
    }
}

/// A freshly spawned life: a snake of three heading left from the start
/// cell, no score yet, playing.
pub open spec fn fresh(g: Game) -> bool {
    &&& g.snake.body@ == seq![
        Pos { x: START_X, y: START_Y },
        Pos { x: (START_X + 1) as usize, y: START_Y },
        Pos { x: (START_X + 2) as usize, y: START_Y },
    ]
    &&& g.snake.head == Pos { x: START_X, y: START_Y }
    &&& g.snake.dir == Direction::Left
    &&& g.score == 0
    &&& g.state
}

/// One tick of play from `g` to `h` with outcome `t`, where `key` is the key
/// pressed during the tick and `new_food` is where food reappears if eaten.
pub open spec fn advanced(g: Game, key: Option<Key>, new_food: Pos, h: Game, t: Tick) -> bool {
    if key == Some(Key::Esc) {
        &&& t == Tick::Paused
        &&& h.snake.body@ == g.snake.body@
        &&& h.snake.head == g.snake.head
        &&& h.snake.dir == g.snake.dir
        &&& h.food == g.food
        &&& h.score == g.score
        &&& h.state == g.state
    } else {
        let d = heading(g.snake.dir, key);
        let body = moved(g.snake.body@, d);
        let head = body[0];
        &&& h.snake.dir == d
        &&& h.snake.head == head
        &&& if !interior(head) || occurrences(body, head) >= 2 {
            &&& t == Tick::Died
            &&& !h.state
            &&& h.snake.body@ == body
            &&& h.food == g.food
            &&& h.score == g.score
        } else if head == g.food {
            &&& t == Tick::Running
            &&& h.state
            &&& h.snake.body@ == grown(body, d)
            &&& h.food == new_food
            &&& h.score == g.score + 1
        } else {
            &&& t == Tick::Running
            &&& h.state
            &&& h.snake.body@ == body
            &&& h.food == g.food
            &&& h.score == g.score
        }
    }
}

impl Game {
    /// A new game: a fresh life with food at a random interior cell.
    pub fn new() -> (r: Game)
        ensures
            r.wf(),
            fresh(r),
    {
        let snake = Snake::new(Pos { x: START_X, y: START_Y });
        let food = spawn_food();
        Game { snake, food, score: 0, state: true, buff: FrameBuffer::blank() }
    }

    /// Starts a new life in place, with food at a random interior cell.
    pub fn reset(&mut self)
        ensures
            final(self).wf(),
            fresh(*final(self)),
    {
        self.buffer_reset();
        self.snake = Snake::new(Pos { x: START_X, y: START_Y });
        self.food = spawn_food();
        self.score = 0;
        self.state = true;
    }

    /// The snake grows, the food reappears at `new_food`, and the score goes up by one.
    pub fn snake_eats(&mut self, new_food: Pos)
        requires
            old(self).snake.wf(),
            can_step(old(self).snake.body@.last(), opposite(old(self).snake.dir)),
            old(self).score < i32::MAX,
        ensures
            final(self).snake.body@ == grown(old(self).snake.body@, old(self).snake.dir),
            final(self).snake.head == old(self).snake.head,
            final(self).snake.dir == old(self).snake.dir,
            final(self).snake.wf(),
            final(self).food == new_food,
            final(self).score == old(self).score + 1,
            final(self).state == old(self).state,
            final(self).buff == old(self).buff,
    {
        self.snake.grow();
        self.food = new_food;
        self.score = self.score + 1;
    }

    /// The head is strictly inside the border and has not run into the body.
    pub fn snake_alive(&self) -> (r: bool)
        requires
            self.snake.wf(),
        ensures
            r == (interior(self.snake.head) && !self.snake.self_collided()),
    {
        let cannibalism = self.snake.ate_itself();
        let bumped = !self.snake.head().inbound(Pos::new(0, 0), Pos::new(WIDTH - 1, HEIGHT - 1));
        proof {
            lemma_inbound_is_interior(self.snake.head);
        }
        !cannibalism && !bumped
    }

    /// One tick of play: take the key pressed, if any, move, then die or
    /// eat. Should the food be eaten, it reappears at `new_food`.
    pub fn advance(&mut self, key: Option<Key>, new_food: Pos) -> (r: Tick)
        requires
            old(self).wf(),
            old(self).state,
            old(self).score < i32::MAX,
            interior(new_food),
        ensures
            final(self).wf(),
            advanced(*old(self), key, new_food, *final(self), r),
    {
        match key {
            Some(Key::Esc) => {
                return Tick::Paused;
            },
            Some(k) => match key_direction(k) {
                Some(d) => self.snake.set_dir(d),
                None => {},
            },
            None => {},
        }
        assert(interior(self.snake.body@[0]));
        self.snake.go();
        if !self.snake_alive() {
            self.state = false;
            return Tick::Died;
        }
        if self.snake.head() == self.food {
            assert(interior(self.snake.body@[self.snake.body@.len() - 1]));
            self.snake_eats(new_food);
        }
        Tick::Running
    }

    /// One tick of play, with food reappearing at a random interior cell
    /// should it be eaten.
    pub fn tick(&mut self, key: Option<Key>) -> (r: Tick)
        requires
            old(self).wf(),
            old(self).state,
            old(self).score < i32::MAX,
        ensures
            final(self).wf(),
            exists|f: Pos| interior(f) && advanced(*old(self), key, f, *final(self), r),
    {
        let ghost before = *self;
        let f = spawn_food();
        let r = self.advance(key, f);
        assert(advanced(before, key, f, *self, r));
        r
    }
}

} // verus!
