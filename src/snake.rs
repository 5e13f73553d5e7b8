use std::collections::VecDeque;
use vstd::prelude::*;
use crate::geometry::Pos;

verus! {

/// A direction of travel on the board; `Up` decreases `y`.
#[derive(Debug, Clone, Copy, PartialEq, Eq, Structural)]
pub enum Direction {
    Up,
    Down,
    Left,
    Right,
}

pub open spec fn opposite(d: Direction) -> Direction {
    match d {
        Direction::Up => Direction::Down,
        Direction::Down => Direction::Up,
        Direction::Left => Direction::Right,
        Direction::Right => Direction::Left,
    }
}

/// The direction after asking to turn from `d` to `nd`: a request to keep
/// going or to reverse is ignored, a quarter turn is taken.
pub open spec fn turned(d: Direction, nd: Direction) -> Direction {
    if nd == d || nd == opposite(d) {
        d
    } else {
        nd
    }
}

/// Moving one cell from `p` along `d` stays within the range of `usize`.
pub open spec fn can_step(p: Pos, d: Direction) -> bool {
    match d {
        Direction::Up => p.y >= 1,
        Direction::Down => p.y < usize::MAX,
        Direction::Left => p.x >= 1,
        Direction::Right => p.x < usize::MAX,
    }
}

/// The cell one step from `p` along `d`.
pub open spec fn step(p: Pos, d: Direction) -> Pos {
    match d {
        Direction::Up => Pos { x: p.x, y: (p.y - 1) as usize },
        Direction::Down => Pos { x: p.x, y: (p.y + 1) as usize },
        Direction::Left => Pos { x: (p.x - 1) as usize, y: p.y },
        Direction::Right => Pos { x: (p.x + 1) as usize, y: p.y },
    }
}

/// The cell one step from `p` against `d`.
pub open spec fn behind(p: Pos, d: Direction) -> Pos {
    step(p, opposite(d))
}

/// The body after one move along `d`: a new head in front, the tail dropped.
pub open spec fn moved(body: Seq<Pos>, d: Direction) -> Seq<Pos> {
    seq![step(body[0], d)] + body.drop_last()
}

/// The body after growing while travelling along `d`: one more cell behind the tail.
pub open spec fn grown(body: Seq<Pos>, d: Direction) -> Seq<Pos> {
    body.push(behind(body.last(), d))
}

/// How many times `p` occurs in `s`.
pub open spec fn occurrences(s: Seq<Pos>, p: Pos) -> nat
    decreases s.len(),
{
    if s.len() == 0 {
        0
    } else {
        occurrences(s.drop_last(), p) + if s.last() == p {
            1nat
        } else {
            0nat
        }
    }
}

/// The snake: its body from head to tail, its direction of travel, and its head.
#[derive(Debug)]
pub struct Snake {
    pub body: VecDeque<Pos>,
    pub dir: Direction,
    pub head: Pos,
}

impl Snake {
    /// At least three cells long, with `head` as the first cell of the body.
    pub open spec fn wf(&self) -> bool {
        self.body@.len() >= 3 && self.head == self.body@[0]
    }

    /// The head occurs in the body a second time.
    pub open spec fn self_collided(&self) -> bool {
        occurrences(self.body@, self.head) >= 2
    }

    /// A snake of length three heading left, with its head at `head` and
    /// the two other cells to its right.
    pub fn new(head: Pos) -> (r: Snake)
        requires
            head.x + 2 <= usize::MAX,
        ensures
            r.wf(),
            r.body@ == seq![
                head,
                Pos { x: (head.x + 1) as usize, y: head.y },
                Pos { x: (head.x + 2) as usize, y: head.y },
            ],
            r.dir == Direction::Left,
            r.head == head,
    {
        let mut body: VecDeque<Pos> = VecDeque::new();
        body.push_back(head);
        body.push_back(Pos { x: head.x + 1, y: head.y });
        body.push_back(Pos { x: head.x + 2, y: head.y });
        Snake { body, dir: Direction::Left, head }
    }

    /// Moves one cell along the current direction: the tail cell leaves and a
    /// new head enters in front. Bounds are the caller's business.
    pub fn go(&mut self)
        requires
            old(self).wf(),
            can_step(old(self).head, old(self).dir),
        ensures
            final(self).wf(),
            final(self).body@ == moved(old(self).body@, old(self).dir),
            final(self).body@.len() == old(self).body@.len(),
            final(self).head == step(old(self).head, old(self).dir),
            final(self).dir == old(self).dir,
    {
        let mut new_head = self.head;
        match self.dir {
            Direction::Up => new_head.y = new_head.y - 1,
            Direction::Down => new_head.y = new_head.y + 1,
            Direction::Left => new_head.x = new_head.x - 1,
            Direction::Right => new_head.x = new_head.x + 1,
        }
        self.body.pop_back();
        self.body.push_front(new_head);
        self.head = new_head;
        assert(self.body@ =~= moved(old(self).body@, old(self).dir));
    }

    /// Grows by one cell without moving: the new tail cell lies one step
    /// behind the old tail, against the direction of travel.
    pub fn grow(&mut self)
        requires
            old(self).wf(),
            can_step(old(self).body@.last(), opposite(old(self).dir)),
        ensures
            final(self).wf(),
            final(self).body@ == grown(old(self).body@, old(self).dir),
            final(self).body@.len() == old(self).body@.len() + 1,
            final(self).head == old(self).head,
            final(self).dir == old(self).dir,
    {
        let mut new_part = self.body[self.body.len() - 1];
        match self.dir {
            Direction::Up => new_part.y = new_part.y + 1,
            Direction::Down => new_part.y = new_part.y - 1,
            Direction::Left => new_part.x = new_part.x + 1,
            Direction::Right => new_part.x = new_part.x - 1,
        }
        self.body.push_back(new_part);
    }

    /// Whether the head has run into the rest of the body, that is whether
    /// the head occurs at least twice in the body.
    pub fn ate_itself(&self) -> (r: bool)
        ensures
            r == self.self_collided(),
    {
        let n = self.body.len();
        let mut count: usize = 0;
        let mut i: usize = 0;
        while i < n
            invariant
                n == self.body@.len(),
                i <= n,
                count <= i,
                count == occurrences(self.body@.take(i as int), self.head),
            decreases n - i,
        {
            assert(self.body@.take(i as int + 1).drop_last() =~= self.body@.take(i as int));
            if self.body[i] == self.head {
                count = count + 1;
            }
            i = i + 1;
        }
        assert(self.body@.take(n as int) =~= self.body@);
        count >= 2
    }

    pub fn head(&self) -> (r: Pos)
        ensures
            r == self.head,
    {
        self.head
    }

    /// Asks to travel along `new_dir`: ignored when it is the current
    /// direction or its reverse, taken otherwise.
    pub fn set_dir(&mut self, new_dir: Direction)
        ensures
            final(self).dir == turned(old(self).dir, new_dir),
            final(self).body@ == old(self).body@,
            final(self).head == old(self).head,
    {
        match (self.dir, new_dir) {
            (Direction::Up, Direction::Down)
            | (Direction::Up, Direction::Up)
            | (Direction::Down, Direction::Up)
            | (Direction::Down, Direction::Down)
            | (Direction::Right, Direction::Left)
            | (Direction::Right, Direction::Right)
            | (Direction::Left, Direction::Right)
            | (Direction::Left, Direction::Left) => {},
            _ => self.dir = new_dir,
        }
    }
}

/// Moving keeps the length, growing adds exactly one cell and keeps the head.
pub proof fn lemma_length_laws(body: Seq<Pos>, d: Direction)
    requires
        body.len() >= 3,
    ensures
        moved(body, d).len() == body.len(),
        grown(body, d).len() == body.len() + 1,
        grown(body, d)[0] == body[0],
{
}

/// Asking for the current direction or its reverse changes nothing; asking
/// for either perpendicular direction always takes it.
pub proof fn lemma_turn_laws(d: Direction, nd: Direction)
    ensures
        turned(d, d) == d,
        turned(d, opposite(d)) == d,
        (nd != d && nd != opposite(d)) ==> turned(d, nd) == nd,
{
}

proof fn lemma_occurrences_front(a: Pos, t: Seq<Pos>, p: Pos)
    ensures
        occurrences(seq![a] + t, p) == occurrences(t, p) + if a == p {
            1nat
        } else {
            0nat
        },
    decreases t.len(),
{
    if t.len() > 0 {
        assert((seq![a] + t).drop_last() =~= seq![a] + t.drop_last());
        lemma_occurrences_front(a, t.drop_last(), p);
    } else {
        assert((seq![a] + t).drop_last() =~= t);
    }
}

proof fn lemma_occurrences_positive(s: Seq<Pos>, p: Pos)
    ensures
        occurrences(s, p) > 0 <==> exists|i: int| 0 <= i < s.len() && s[i] == p,
    decreases s.len(),
{
    if s.len() > 0 {
        lemma_occurrences_positive(s.drop_last(), p);
        if exists|i: int| 0 <= i < s.len() && s[i] == p {
            let i = choose|i: int| 0 <= i < s.len() && s[i] == p;
            if i < s.len() - 1 {
                assert(s.drop_last()[i] == p);
            }
        }
        if exists|i: int| 0 <= i < s.drop_last().len() && s.drop_last()[i] == p {
            let i = choose|i: int| 0 <= i < s.drop_last().len() && s.drop_last()[i] == p;
            assert(s[i] == p);
        }
    }
}

/// A snake has run into itself exactly when its head occurs again further
/// along the body; in particular never when its cells are pairwise distinct.
pub proof fn lemma_self_collision(s: &Snake)
    requires
        s.wf(),
    ensures
        s.self_collided() <==> exists|i: int| 1 <= i < s.body@.len() && s.body@[i] == s.head,
        (forall|i: int, j: int|
            0 <= i < j < s.body@.len() ==> s.body@[i] != s.body@[j]) ==> !s.self_collided(),
{
    let b = s.body@;
    let t = b.drop_first();
    assert(b =~= seq![b[0]] + t);
    lemma_occurrences_front(b[0], t, s.head);
    lemma_occurrences_positive(t, s.head);
    if exists|i: int| 1 <= i < b.len() && b[i] == s.head {
        let i = choose|i: int| 1 <= i < b.len() && b[i] == s.head;
        assert(t[i - 1] == s.head);
    }
    if exists|i: int| 0 <= i < t.len() && t[i] == s.head {
        let i = choose|i: int| 0 <= i < t.len() && t[i] == s.head;
        assert(b[i + 1] == s.head);
    }
}

} // verus!
