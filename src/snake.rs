//! The snake: an ordered body of grid cells, a heading, and the cell most
//! recently vacated by the tail.

use std::collections::VecDeque;
use vstd::prelude::*;

verus! {

/// The four directions a snake can move in.
#[derive(Clone, Copy, PartialEq, Eq, Structural, Debug)]
pub enum Direction {
    Up,
    Down,
    Left,
    Right,
}

impl Direction {
    /// The direction pointing the other way.
    pub open spec fn reversed(self) -> Direction {
        match self {
            Direction::Up => Direction::Down,
            Direction::Down => Direction::Up,
            Direction::Left => Direction::Right,
            Direction::Right => Direction::Left,
        }
    }

    pub fn opposite(&self) -> (r: Direction)
        ensures
            r == self.reversed(),
    {
        match *self {
            Direction::Up => Direction::Down,
            Direction::Down => Direction::Up,
            Direction::Left => Direction::Right,
            Direction::Right => Direction::Left,
        }
    }
}

/// Unit offset of one step along `d`; `y` grows downwards.
pub open spec fn delta(d: Direction) -> (int, int) {
    match d {
        Direction::Up => (0, -1),
        Direction::Down => (0, 1),
        Direction::Left => (-1, 0),
        Direction::Right => (1, 0),
    }
}

/// The cell one step from `c` along `d`.
pub open spec fn next_cell(c: (int, int), d: Direction) -> (int, int) {
    (c.0 + delta(d).0, c.1 + delta(d).1)
}

/// Two cells differ by exactly one unit in exactly one axis.
pub open spec fn adjacent(a: (int, int), b: (int, int)) -> bool {
    ||| a.0 == b.0 && (a.1 - b.1 == 1 || b.1 - a.1 == 1)
    ||| a.1 == b.1 && (a.0 - b.0 == 1 || b.0 - a.0 == 1)
}

/// Each cell of `body` is a unit step away from the next one.
pub open spec fn contiguous(body: Seq<(int, int)>) -> bool {
    forall|i: int| 0 <= i < body.len() - 1 ==> #[trigger] adjacent(body[i], body[i + 1])
}

/// Both coordinates of `c` fit in an `i32`.
pub open spec fn fits(c: (int, int)) -> bool {
    &&& i32::MIN <= c.0 <= i32::MAX
    &&& i32::MIN <= c.1 <= i32::MAX
}

/// A cell as a pair of mathematical integers.
pub open spec fn cell_of(c: (i32, i32)) -> (int, int) {
    (c.0 as int, c.1 as int)
}

/// Abstract state of a snake: its heading, its body from head (front) to
/// tail (back), and the cell most recently vacated by a step, if not yet
/// taken back by growth.
pub struct SnakeView {
    pub heading: Direction,
    pub body: Seq<(int, int)>,
    pub last_tail: Option<(int, int)>,
}

/// The snake a game starts with: head at `(x, y)`, two more cells behind it
/// towards negative x, moving right.
pub open spec fn initial(x: int, y: int) -> SnakeView {
    SnakeView {
        heading: Direction::Right,
        body: seq![(x, y), (x - 1, y), (x - 2, y)],
        last_tail: None,
    }
}

impl SnakeView {
    pub open spec fn head(self) -> (int, int) {
        self.body[0]
    }

    pub open spec fn tail(self) -> (int, int) {
        self.body.last()
    }

    /// The state every snake keeps: a non-empty contiguous body of cells that
    /// fit in `i32`, and a vacated cell (when present) next to the tail.
    pub open spec fn well_formed(self) -> bool {
        &&& self.body.len() >= 1
        &&& contiguous(self.body)
        &&& forall|i: int| 0 <= i < self.body.len() ==> #[trigger] fits(self.body[i])
        &&& self.last_tail matches Some(t) ==> fits(t) && adjacent(t, self.tail())
    }

    /// The heading a step with `dir` moves along: `dir` when given, else the
    /// current heading. A reversal is taken as given.
    pub open spec fn steer(self, dir: Option<Direction>) -> Direction {
        match dir {
            Some(d) => d,
            None => self.heading,
        }
    }

    /// The cell the head moves to on a step with `dir`.
    pub open spec fn peek(self, dir: Option<Direction>) -> (int, int) {
        next_cell(self.head(), self.steer(dir))
    }

    /// One step: the new head goes in front, the tail cell leaves the body
    /// and is kept as the vacated cell.
    pub open spec fn advance(self, dir: Option<Direction>) -> SnakeView {
        SnakeView {
            heading: self.steer(dir),
            body: seq![self.peek(dir)] + self.body.drop_last(),
            last_tail: Some(self.tail()),
        }
    }

    /// Growth: the vacated cell, if any, is appended behind the tail and
    /// is then used up; without one nothing changes.
    pub open spec fn regrow(self) -> SnakeView {
        match self.last_tail {
            Some(t) => SnakeView { heading: self.heading, body: self.body.push(t), last_tail: None },
            None => self,
        }
    }

    /// `c` is taken by a body cell other than the tail.
    pub open spec fn overlaps(self, c: (int, int)) -> bool {
        exists|i: int| 0 <= i < self.body.len() - 1 && self.body[i] == c
    }
}

/// A snake on the grid.
pub struct Snake {
    direction: Direction,
    body: VecDeque<(i32, i32)>,
    tail: Option<(i32, i32)>,
}

impl View for Snake {
    type V = SnakeView;

    closed spec fn view(&self) -> SnakeView {
        SnakeView {
            heading: self.direction,
            body: self.body@.map_values(|c: (i32, i32)| cell_of(c)),
            last_tail: match self.tail {
                Some(t) => Some(cell_of(t)),
                None => None,
            },
        }
    }
}

impl Snake {
    /// A snake with its head at `(x, y)` and two cells behind it, moving right.
    pub fn new(x: i32, y: i32) -> (r: Snake)
        requires
            x - 2 >= i32::MIN,
        ensures
            r@ == initial(x as int, y as int),
            r@.well_formed(),
            r@.body.len() == 3,
            contiguous(r@.body),
            r@.heading == Direction::Right,
    {
        let mut body: VecDeque<(i32, i32)> = VecDeque::new();
        body.push_back((x, y));
        body.push_back((x - 1, y));
        body.push_back((x - 2, y));
        let r = Snake { direction: Direction::Right, body, tail: None };
        assert(r@.body =~= initial(x as int, y as int).body);
        r
    }

    /// Where the head is.
    pub fn head_position(&self) -> (r: (i32, i32))
        requires
            self@.well_formed(),
        ensures
            cell_of(r) == self@.head(),
    {
        self.body[0]
    }

    /// The current heading.
    pub fn head_direction(&self) -> (r: Direction)
        ensures
            r == self@.heading,
    {
        self.direction
    }
    /// The cell the head would move to on a step with `dir` (or with the
    /// current heading when `dir` is `None`). Changes nothing, and does not
    /// reject a reversal.
    pub fn next_head(&self, dir: Option<Direction>) -> (r: (i32, i32))
        requires
            self@.well_formed(),
            fits(self@.peek(dir)),
        ensures
            cell_of(r) == self@.peek(dir),
    {
        let (head_x, head_y) = self.head_position();
        let moving_dir = match dir {
            Some(d) => d,
            None => self.direction,
        };
        match moving_dir {
            Direction::Up => (head_x, head_y - 1),
            Direction::Down => (head_x, head_y + 1),
            Direction::Left => (head_x - 1, head_y),
            Direction::Right => (head_x + 1, head_y),
        }
    }

    /// Moves one cell along `dir` (which becomes the heading) or, when `dir`
    /// is `None`, along the current heading. The cell the tail leaves is kept
    /// for `restore_tail`. Any heading is taken, a reversal included: keeping
    /// the snake out of its own neck is the caller's decision.
    pub fn move_forward(&mut self, dir: Option<Direction>)
        requires
            old(self)@.well_formed(),
            fits(old(self)@.peek(dir)),
        ensures
            final(self)@ == old(self)@.advance(dir),
            final(self)@.well_formed(),
            final(self)@.body.len() == old(self)@.body.len(),
            final(self)@.head() == next_cell(old(self)@.head(), final(self)@.heading),
    {
        let new_head = self.next_head(dir);
        match dir {
            Some(d) => self.direction = d,
            None => {},
        }
        self.body.push_front(new_head);
        let removed = self.body.pop_back();
        proof {
            let v = old(self)@;
            let w = v.advance(dir);
            assert(self@.body =~= w.body);
            assert(adjacent(w.body[0], v.body[0]));
            assert(contiguous(w.body)) by {
                assert forall|i: int| 0 <= i < w.body.len() - 1 implies #[trigger] adjacent(
                    w.body[i],
                    w.body[i + 1],
                ) by {
                    if i > 0 {
                        let k = i - 1;
                        assert(adjacent(v.body[k], v.body[k + 1]));
                        assert(w.body[i] == v.body[k]);
                        assert(w.body[i + 1] == v.body[k + 1]);
                    } else {
                        assert(w.body[1] == v.body[0]);
                    }
                }
            }
            if v.body.len() >= 2 {
                let k = v.body.len() - 2;
                assert(w.tail() == v.body[k]);
                assert(adjacent(v.body[k], v.body[k + 1]));
            }
            assert(forall|i: int| 0 < i < w.body.len() ==> w.body[i] == v.body[i - 1]);
        }
        match removed {
            Some(t) => self.tail = Some(t),
            None => {},
        }
    }

    /// Grows by one cell: the cell most recently vacated goes back behind the
    /// tail, and is then used up, so that a second call before the next step
    /// changes nothing (as does a call before the first step).
    pub fn restore_tail(&mut self)
        requires
            old(self)@.well_formed(),
        ensures
            final(self)@ == old(self)@.regrow(),
            final(self)@.well_formed(),
    {
        match self.tail.take() {
            Some(t) => {
                self.body.push_back(t);
                proof {
                    let v = old(self)@;
                    assert(self@.body =~= v.body.push(cell_of(t)));
                    assert(adjacent(v.tail(), cell_of(t)));
                }
            },
            None => {},
        }
    }

    /// Whether `(x, y)` is taken by a body cell other than the tail. The tail
    /// is left out because it moves away on the next step.
    pub fn overlap_tail(&self, x: i32, y: i32) -> (r: bool)
        requires
            self@.well_formed(),
        ensures
            r == self@.overlaps((x as int, y as int)),
    {
        let n = self.body.len();
        let mut i: usize = 0;
        while i + 1 < n
            invariant
                n == self@.body.len(),
                1 <= n,
                i < n,
                forall|j: int| 0 <= j < i ==> self@.body[j] != (x as int, y as int),
            decreases n - i,
        {
            let (bx, by) = self.body[i];
            if bx == x && by == y {
                assert(self@.body[i as int] == (x as int, y as int));
                return true;
            }
            i += 1;
        }
        false
    }

    /// The cells of the body, head first, for drawing or inspection.
    pub fn body(&self) -> (r: Vec<(i32, i32)>)
        ensures
            r@.map_values(|c: (i32, i32)| cell_of(c)) == self@.body,
    {
        let n = self.body.len();
        let mut r: Vec<(i32, i32)> = Vec::new();
        let mut i: usize = 0;
        while i < n
            invariant
                n == self@.body.len(),
                i <= n,
                r@.len() == i,
                forall|j: int| 0 <= j < i ==> cell_of(#[trigger] r@[j]) == self@.body[j],
            decreases n - i,
        {
            r.push(self.body[i]);
            i += 1;
        }
        assert(r@.map_values(|c: (i32, i32)| cell_of(c)) =~= self@.body);
        r
    }

    /// The cell most recently vacated by a step and not yet grown back into.
    pub fn last_tail(&self) -> (r: Option<(i32, i32)>)
        ensures
            r matches Some(t) ==> self@.last_tail == Some(cell_of(t)),
            r is None ==> self@.last_tail is None,
    {
        self.tail
    }
}

} // verus!
