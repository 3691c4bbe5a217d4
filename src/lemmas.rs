//! Facts about how the snake's state evolves over several operations.

use crate::snake::{delta, initial, Direction, SnakeView};
use vstd::prelude::*;

verus! {

/// The state after `n` steps that keep the current heading.
pub open spec fn straight(v: SnakeView, n: nat) -> SnakeView
    decreases n,
{
    if n == 0 {
        v
    } else {
        straight(v.advance(None), (n - 1) as nat)
    }
}

/// Steps that keep the heading leave the body's length and the heading as
/// they were, and carry the head `n` cells along the heading.
pub proof fn lemma_straight_run(v: SnakeView, n: nat)
    requires
        v.body.len() >= 1,
    ensures
        straight(v, n).body.len() == v.body.len(),
        straight(v, n).heading == v.heading,
        straight(v, n).head() == (
            v.head().0 + n * delta(v.heading).0,
            v.head().1 + n * delta(v.heading).1,
        ),
    decreases n,
{
    if n > 0 {
        let m = (n - 1) as nat;
        let w = v.advance(None);
        lemma_straight_run(w, m);
        let d = delta(v.heading);
        assert(m * d.0 + d.0 == n * d.0) by (nonlinear_arith)
            requires
                n == m + 1,
        ;
        assert(m * d.1 + d.1 == n * d.1) by (nonlinear_arith)
            requires
                n == m + 1,
        ;
    }
}

/// A new snake lies in a straight line behind its head, so the cell its
/// first step moves into, whatever the heading given, is free unless the
/// heading reverses into the neck.
pub proof fn lemma_initial_first_step_clear(x: int, y: int, dir: Option<Direction>)
    requires
        initial(x, y).steer(dir) != Direction::Left,
    ensures
        !initial(x, y).overlaps(initial(x, y).peek(dir)),
{
    let v = initial(x, y);
    assert(v.body.len() == 3);
    assert forall|i: int| 0 <= i < v.body.len() - 1 implies v.body[i] != v.peek(dir) by {
        if i == 0 {
            assert(v.body[0] == (x, y));
        } else {
            assert(v.body[1] == (x - 1, y));
        }
    }
}

/// A step followed by growth lengthens the body by one cell, and the cell
/// added behind the tail is the one the step vacated.
pub proof fn lemma_grow_after_step(v: SnakeView, dir: Option<Direction>)
    requires
        v.body.len() >= 1,
    ensures
        v.advance(dir).regrow().body.len() == v.body.len() + 1,
        v.advance(dir).last_tail == Some(v.tail()),
        v.advance(dir).regrow().tail() == v.tail(),
        v.advance(dir).regrow().last_tail is None,
{
}

/// Every cell but the tail counts as an overlap. The tail's cell does not,
/// unless another cell of the body shares it.
pub proof fn lemma_overlaps_excludes_tail(v: SnakeView)
    requires
        v.body.len() >= 1,
    ensures
        forall|i: int| 0 <= i < v.body.len() - 1 ==> v.overlaps(#[trigger] v.body[i]),
        !v.body.drop_last().contains(v.tail()) ==> !v.overlaps(v.tail()),
{
    assert forall|i: int| 0 <= i < v.body.len() - 1 implies v.overlaps(#[trigger] v.body[i]) by {
    }
    if v.overlaps(v.tail()) {
        let i = choose|i: int| 0 <= i < v.body.len() - 1 && v.body[i] == v.tail();
        assert(v.body.drop_last()[i] == v.tail());
    }
}

} // verus!
