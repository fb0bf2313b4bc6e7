//! The arithmetic of a wrapping cursor, stated over mathematical integers.
//!
//! A cursor is either absent or the index of the highlighted row. Moving past
//! the last row continues at the first one, and moving before the first row
//! continues at the last one.

use vstd::prelude::*;
use vstd::arithmetic::div_mod::{
    lemma_fundamental_div_mod, lemma_fundamental_div_mod_converse, lemma_mod_add_multiples_vanish,
    lemma_mod_bound, lemma_mod_self_0, lemma_small_mod,
};
use vstd::arithmetic::mul::{lemma_mul_is_commutative, lemma_mul_is_distributive_add_other_way};

verus! {

/// A cursor fits a list of `len` rows when it is absent or indexes one of them.
pub open spec fn valid_cursor(cursor: Option<nat>, len: nat) -> bool {
    match cursor {
        Some(i) => i < len,
        None => true,
    }
}

/// The cursor after one step towards the end of a list of `len` rows.
pub open spec fn step_forward(cursor: Option<nat>, len: nat) -> Option<nat> {
    if len == 0 {
        None
    } else {
        match cursor {
            Some(i) => Some((i + 1) % len),
            None => Some(0),
        }
    }
}

/// The cursor after one step towards the start of a list of `len` rows.
pub open spec fn step_backward(cursor: Option<nat>, len: nat) -> Option<nat> {
    if len == 0 {
        None
    } else {
        match cursor {
            Some(i) => Some(((i + len - 1) % (len as int)) as nat),
            None => Some(0),
        }
    }
}

/// Stepping forward never leaves the list, and on a valid cursor it is the
/// successor with the last row followed by the first.
pub proof fn lemma_step_forward(cursor: Option<nat>, len: nat)
    ensures
        valid_cursor(step_forward(cursor, len), len),
        len > 0 ==> step_forward(cursor, len) is Some,
        len > 0 && cursor is Some && cursor->0 + 1 < len ==> step_forward(cursor, len) == Some(
            cursor->0 + 1,
        ),
        len > 0 && cursor is Some && cursor->0 + 1 == len ==> step_forward(cursor, len) == Some(
            0nat,
        ),
{
    if len > 0 {
        if let Some(i) = cursor {
            lemma_mod_bound((i + 1) as int, len as int);
            if i + 1 < len {
                lemma_small_mod(i + 1, len);
            } else if i + 1 == len {
                lemma_mod_self_0(len as int);
            }
        }
    }
}

/// Stepping backward never leaves the list, and on a valid cursor it is the
/// predecessor with the first row preceded by the last.
pub proof fn lemma_step_backward(cursor: Option<nat>, len: nat)
    ensures
        valid_cursor(step_backward(cursor, len), len),
        len > 0 ==> step_backward(cursor, len) is Some,
        len > 0 && cursor is Some && 0 < cursor->0 < len ==> step_backward(cursor, len) == Some(
            (cursor->0 - 1) as nat,
        ),
        len > 0 && cursor == Some(0nat) ==> step_backward(cursor, len) == Some((len - 1) as nat),
{
    if len > 0 {
        if let Some(i) = cursor {
            lemma_mod_bound(i + len - 1, len as int);
            if i == 0 {
                lemma_small_mod((len - 1) as nat, len);
            } else if i < len {
                lemma_small_mod((i - 1) as nat, len);
                lemma_mod_add_multiples_vanish(i - 1, len as int);
            }
        }
    }
}

/// The cursor after `steps` steps forward.
pub open spec fn forward_times(cursor: Option<nat>, len: nat, steps: nat) -> Option<nat>
    decreases steps,
{
    if steps == 0 {
        cursor
    } else {
        step_forward(forward_times(cursor, len, (steps - 1) as nat), len)
    }
}

/// The cursor after `steps` steps backward.
pub open spec fn backward_times(cursor: Option<nat>, len: nat, steps: nat) -> Option<nat>
    decreases steps,
{
    if steps == 0 {
        cursor
    } else {
        step_backward(backward_times(cursor, len, (steps - 1) as nat), len)
    }
}

/// One step of a walk over the list.
pub enum Move {
    Forward,
    Backward,
}

/// The cursor after the given moves, made in their order.
pub open spec fn walk(cursor: Option<nat>, len: nat, moves: Seq<Move>) -> Option<nat>
    decreases moves.len(),
{
    if moves.len() == 0 {
        cursor
    } else {
        let before = walk(cursor, len, moves.drop_last());
        match moves.last() {
            Move::Forward => step_forward(before, len),
            Move::Backward => step_backward(before, len),
        }
    }
}

/// From row `i`, `steps` steps forward end on row `(i + steps) mod len`.
pub proof fn lemma_forward_from_row(i: nat, len: nat, steps: nat)
    requires
        i < len,
    ensures
        forward_times(Some(i), len, steps) == Some((i + steps) % len),
    decreases steps,
{
    if steps == 0 {
        lemma_small_mod(i, len);
    } else {
        let before = (steps - 1) as nat;
        lemma_forward_from_row(i, len, before);
        let at = (i + before) % len;
        lemma_mod_bound((i + before) as int, len as int);
        lemma_step_forward(Some(at), len);
        lemma_mod_successor((i + before) as int, len as int);
    }
}

/// From row `i`, `steps` steps backward end on row `(i - steps) mod len`.
pub proof fn lemma_backward_from_row(i: nat, len: nat, steps: nat)
    requires
        i < len,
    ensures
        backward_times(Some(i), len, steps) == Some(((i - steps) % (len as int)) as nat),
    decreases steps,
{
    if steps == 0 {
        lemma_small_mod(i, len);
    } else {
        let before = (steps - 1) as nat;
        lemma_backward_from_row(i, len, before);
        let at = ((i - before) % (len as int)) as nat;
        lemma_mod_bound(i - before, len as int);
        lemma_step_backward(Some(at), len);
        lemma_mod_successor(i - steps, len as int);
    }
}

/// The remainder of `x + 1` is the successor of the remainder of `x`, with
/// `m - 1` followed by 0.
proof fn lemma_mod_successor(x: int, m: int)
    requires
        m > 0,
    ensures
        (x + 1) % m == if x % m + 1 == m {
            0
        } else {
            x % m + 1
        },
{
    let q = x / m;
    let r = x % m;
    lemma_fundamental_div_mod(x, m);
    lemma_mod_bound(x, m);
    lemma_mul_is_commutative(m, q);
    if r + 1 == m {
        lemma_mul_is_distributive_add_other_way(m, q, 1);
        lemma_fundamental_div_mod_converse(x + 1, m, q + 1, 0);
    } else {
        lemma_fundamental_div_mod_converse(x + 1, m, q, r + 1);
    }
}

/// A full turn: from any row, as many steps as the list has rows, in either
/// direction, end on the row they started from.
pub proof fn lemma_full_turn(i: nat, len: nat)
    requires
        i < len,
    ensures
        forward_times(Some(i), len, len) == Some(i),
        backward_times(Some(i), len, len) == Some(i),
{
    lemma_forward_from_row(i, len, len);
    lemma_backward_from_row(i, len, len);
    lemma_mod_add_multiples_vanish(i as int, len as int);
    lemma_mod_add_multiples_vanish(i - len, len as int);
    lemma_small_mod(i, len);
}

/// Starting without a cursor, the first step forward highlights row 0 and
/// each further step the next row, so `steps` steps end on row
/// `(steps - 1) mod len`. A first pass of `len` steps therefore ends on the
/// last row, which is row 0 exactly when the list has a single row, and the
/// step after it is the first to come back to row 0.
pub proof fn lemma_forward_from_unselected(len: nat, steps: nat)
    requires
        len > 0,
        steps > 0,
    ensures
        forward_times(None, len, steps) == Some(((steps - 1) % (len as int)) as nat),
        steps == len ==> forward_times(None, len, steps) == Some((len - 1) as nat),
        steps == len && len == 1 ==> forward_times(None, len, steps) == Some(0nat),
        steps == len + 1 ==> forward_times(None, len, steps) == Some(0nat),
    decreases steps,
{
    if steps == 1 {
        assert(forward_times(None, len, 1) == step_forward(forward_times(None, len, 0), len));
        lemma_small_mod(0, len);
    } else {
        let before = (steps - 1) as nat;
        lemma_forward_from_unselected(len, before);
        let at = ((before - 1) % (len as int)) as nat;
        lemma_mod_bound(before - 1, len as int);
        lemma_step_forward(Some(at), len);
        lemma_mod_successor(before - 1, len as int);
    }
    if steps == len {
        lemma_small_mod((len - 1) as nat, len);
    }
    if steps == len + 1 {
        lemma_mod_self_0(len as int);
    }
}

/// A step forward and a step backward undo each other, in either order, from
/// every row of the list.
pub proof fn lemma_steps_are_inverse(i: nat, len: nat)
    requires
        i < len,
    ensures
        step_backward(step_forward(Some(i), len), len) == Some(i),
        step_forward(step_backward(Some(i), len), len) == Some(i),
{
    lemma_step_forward(Some(i), len);
    lemma_step_backward(Some(i), len);
    lemma_step_backward(step_forward(Some(i), len), len);
    lemma_step_forward(step_backward(Some(i), len), len);
}

/// A walk from a valid cursor ends on a valid cursor.
pub proof fn lemma_walk_stays_valid(cursor: Option<nat>, len: nat, moves: Seq<Move>)
    requires
        valid_cursor(cursor, len),
    ensures
        valid_cursor(walk(cursor, len, moves), len),
{
    if moves.len() > 0 {
        let before = walk(cursor, len, moves.drop_last());
        lemma_step_forward(before, len);
        lemma_step_backward(before, len);
    }
}

/// On a list without rows no walk, however long, produces a cursor.
pub proof fn lemma_empty_list_has_no_cursor(moves: Seq<Move>)
    ensures
        walk(None, 0, moves) is None,
    decreases moves.len(),
{
    if moves.len() > 0 {
        lemma_empty_list_has_no_cursor(moves.drop_last());
    }
}

} // verus!
