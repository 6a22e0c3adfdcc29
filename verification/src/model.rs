//! Mathematical model of the Life simulation: the grid as a sequence of
//! sequences of booleans, toroidal index arithmetic, the neighbor count,
//! and the B3/S23 transition rule.

use vstd::prelude::*;

verus! {

/// The errors the library reports.
#[derive(Clone, Copy, Debug, PartialEq, Eq, Structural)]
pub enum LifeError {
    /// A fixed pattern's literal coordinates do not fit in the requested
    /// grid size, or a supplied cell sequence has the wrong length.
    OutOfRange,
    /// A neighbor count outside [0, 8] reached the rule table. Unreachable
    /// through this library's own counting, which is proved to stay in range.
    InvariantViolation,
}

/// The three initial-state construction policies.
#[derive(Clone, Copy, Debug, PartialEq, Eq, Structural)]
pub enum Policy {
    /// Every cell drawn independently, 50/50 alive or dead.
    Random,
    /// The fixed five-cell glider pattern.
    FixedPatternA,
    /// The fixed growth-pattern seed.
    FixedPatternB,
}

/// 1 for an alive cell, 0 for a dead one.
pub open spec fn b2i(b: bool) -> int {
    if b {
        1
    } else {
        0
    }
}

/// The row or column index one step up, wrapping from n - 1 back to 0.
pub open spec fn wrap_inc(i: int, n: int) -> int {
    if i + 1 == n {
        0
    } else {
        i + 1
    }
}

/// The row or column index one step down, wrapping from 0 back to n - 1.
pub open spec fn wrap_dec(i: int, n: int) -> int {
    if i == 0 {
        n - 1
    } else {
        i - 1
    }
}

/// A well-formed grid of side n: exactly n rows, each of exactly n columns.
pub open spec fn grid_wf(g: Seq<Seq<bool>>, n: int) -> bool {
    g.len() == n && forall|i: int| 0 <= i < n ==> (#[trigger] g[i]).len() == n
}

/// The number of alive cells among the eight toroidal neighbors of (r, c).
pub open spec fn neighbor_count(g: Seq<Seq<bool>>, n: int, r: int, c: int) -> int {
    b2i(g[wrap_dec(r, n)][c]) + b2i(g[wrap_inc(r, n)][c]) + b2i(g[r][wrap_dec(c, n)]) + b2i(
        g[r][wrap_inc(c, n)],
    ) + b2i(g[wrap_dec(r, n)][wrap_dec(c, n)]) + b2i(g[wrap_dec(r, n)][wrap_inc(c, n)]) + b2i(
        g[wrap_inc(r, n)][wrap_inc(c, n)],
    ) + b2i(g[wrap_inc(r, n)][wrap_dec(c, n)])
}

/// The standard Life rule (B3/S23): an alive cell survives with 2 or 3
/// alive neighbors, a dead cell is born with exactly 3; all else is dead.
pub open spec fn life_rule(curr: bool, count: int) -> bool {
    if curr {
        count == 2 || count == 3
    } else {
        count == 3
    }
}

/// The whole next generation: cell (i, j) is the rule applied to the current
/// cell and its toroidal neighbor count, all read from the same snapshot g.
pub open spec fn next_gen(g: Seq<Seq<bool>>, n: int) -> Seq<Seq<bool>> {
    Seq::new(
        n as nat,
        |i: int| Seq::new(n as nat, |j: int| life_rule(g[i][j], neighbor_count(g, n, i, j))),
    )
}

/// Each row of a grid's deep view is that row's own view.
pub proof fn lemma_deep_view_row(v: &Vec<Vec<bool>>, i: int)
    requires
        0 <= i < v@.len(),
    ensures
        v.deep_view().len() == v@.len(),
        v.deep_view()[i] == v@[i]@,
{
    assert(v.deep_view()[i] =~= v@[i]@);
}

/// The neighbor count never leaves [0, 8]: it is a sum of eight 0-or-1 terms.
pub proof fn lemma_neighbor_count_range(g: Seq<Seq<bool>>, n: int, r: int, c: int)
    ensures
        0 <= neighbor_count(g, n, r, c) <= 8,
{
}

} // verus!
