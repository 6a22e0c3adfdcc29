//! The transition engine: toroidal index helpers, neighbor counting, the
//! rule table, and the generation-advance algorithm. Every function is pure:
//! `advance` reads only from its input snapshot and builds a brand-new grid.

use vstd::prelude::*;

use crate::model::{
    b2i, grid_wf, lemma_deep_view_row, life_rule, neighbor_count, next_gen, wrap_dec, wrap_inc,
    LifeError,
};

verus! {

/// The index one step up from i on a toroidal axis of ncells positions.
pub fn inc(i: usize, ncells: usize) -> (r: usize)
    requires
        0 < ncells,
        i < ncells,
    ensures
        r == wrap_inc(i as int, ncells as int),
        r < ncells,
{
    if i + 1 == ncells {
        0
    } else {
        i + 1
    }
}

/// The index one step down from i on a toroidal axis of ncells positions.
pub fn dec(i: usize, ncells: usize) -> (r: usize)
    requires
        0 < ncells,
        i < ncells,
    ensures
        r == wrap_dec(i as int, ncells as int),
        r < ncells,
{
    if i == 0 {
        ncells - 1
    } else {
        i - 1
    }
}

/// Counts the alive cells among the eight toroidal neighbors of (r, c).
pub fn count_surrounding(r: usize, c: usize, v: &Vec<Vec<bool>>) -> (count: u32)
    requires
        grid_wf(v.deep_view(), v@.len() as int),
        0 < v@.len(),
        r < v@.len(),
        c < v@.len(),
    ensures
        count == neighbor_count(v.deep_view(), v@.len() as int, r as int, c as int),
        count <= 8,
{
    let n = v.len();
    let rm = dec(r, n);
    let rp = inc(r, n);
    let cm = dec(c, n);
    let cp = inc(c, n);
    proof {
        lemma_deep_view_row(v, r as int);
        lemma_deep_view_row(v, rm as int);
        lemma_deep_view_row(v, rp as int);
    }
    let mut count: u32 = 0;
    if v[rm][c] {
        count += 1;
    }
    if v[rp][c] {
        count += 1;
    }
    if v[r][cm] {
        count += 1;
    }
    if v[r][cp] {
        count += 1;
    }
    if v[rm][cm] {
        count += 1;
    }
    if v[rm][cp] {
        count += 1;
    }
    if v[rp][cp] {
        count += 1;
    }
    if v[rp][cm] {
        count += 1;
    }
    count
}

/// The B3/S23 rule table as a total function. A neighbor count above 8
/// cannot come from this library's own counting; it is reported as the
/// fatal InvariantViolation condition rather than a panic.
pub fn next_state(current_alive: bool, neighbor_count: u32) -> (r: Result<bool, LifeError>)
    ensures
        neighbor_count <= 8 ==> r == Ok::<bool, LifeError>(
            life_rule(current_alive, neighbor_count as int),
        ),
        neighbor_count > 8 ==> r == Err::<bool, LifeError>(LifeError::InvariantViolation),
{
    match (current_alive, neighbor_count) {
        (true, 0..=1) => Ok(false),
        (true, 2..=3) => Ok(true),
        (true, 4..=8) => Ok(false),
        (false, 3) => Ok(true),
        (false, 0..=2) => Ok(false),
        (false, 4..=8) => Ok(false),
        _ => Err(LifeError::InvariantViolation),
    }
}

/// Whether cell (r, c) is alive in the next generation: the rule applied to
/// its current state and its toroidal neighbor count.
pub fn alive(r: usize, c: usize, v: &Vec<Vec<bool>>) -> (a: bool)
    requires
        grid_wf(v.deep_view(), v@.len() as int),
        0 < v@.len(),
        r < v@.len(),
        c < v@.len(),
    ensures
        a == life_rule(
            v.deep_view()[r as int][c as int],
            neighbor_count(v.deep_view(), v@.len() as int, r as int, c as int),
        ),
{
    let count = count_surrounding(r, c, v);
    proof {
        lemma_deep_view_row(v, r as int);
    }
    let curr = v[r][c];
    match next_state(curr, count) {
        Ok(b) => b,
        Err(_) => false,
    }
}

/// Builds the whole next generation, reading only from the snapshot v and
/// writing only into the fresh result grid.
pub fn advance(v: &Vec<Vec<bool>>) -> (g: Vec<Vec<bool>>)
    requires
        grid_wf(v.deep_view(), v@.len() as int),
    ensures
        g.deep_view() == next_gen(v.deep_view(), v@.len() as int),
        grid_wf(g.deep_view(), v@.len() as int),
{
    let n = v.len();
    let mut g: Vec<Vec<bool>> = Vec::new();
    let mut i: usize = 0;
    while i < n
        invariant
            grid_wf(v.deep_view(), n as int),
            n == v@.len(),
            i <= n,
            g@.len() == i,
            forall|k: int| 0 <= k < i ==> (#[trigger] g@[k])@.len() == n,
            forall|k: int, l: int|
                0 <= k < i && 0 <= l < n ==> #[trigger] g@[k]@[l] == life_rule(
                    v.deep_view()[k][l],
                    neighbor_count(v.deep_view(), n as int, k, l),
                ),
        decreases n - i,
    {
        let mut row: Vec<bool> = Vec::new();
        let mut j: usize = 0;
        while j < n
            invariant
                grid_wf(v.deep_view(), n as int),
                n == v@.len(),
                i < n,
                j <= n,
                row@.len() == j,
                forall|l: int|
                    0 <= l < j ==> #[trigger] row@[l] == life_rule(
                        v.deep_view()[i as int][l],
                        neighbor_count(v.deep_view(), n as int, i as int, l),
                    ),
            decreases n - j,
        {
            row.push(alive(i, j, v));
            j += 1;
        }
        g.push(row);
        i += 1;
    }
    proof {
        let dv = v.deep_view();
        let ng = next_gen(dv, n as int);
        assert forall|k: int| 0 <= k < n implies #[trigger] g.deep_view()[k] == ng[k] by {
            lemma_deep_view_row(&g, k);
            assert(g@[k]@ =~= ng[k]);
        }
        assert(g.deep_view() =~= ng);
    }
    g
}

/// The next frame: a second name for `advance`, with the same contract.
pub fn life_next(v: &Vec<Vec<bool>>) -> (g: Vec<Vec<bool>>)
    requires
        grid_wf(v.deep_view(), v@.len() as int),
    ensures
        g.deep_view() == next_gen(v.deep_view(), v@.len() as int),
        grid_wf(g.deep_view(), v@.len() as int),
{
    advance(v)
}

/// Toroidal wrap at the corner: the neighborhood of cell (0, 0) is exactly
/// the eight wrapped cells (n-1, n-1), (n-1, 0), (0, n-1), (1, 0), (0, 1),
/// (1, 1), (n-1, 1) and (1, n-1); no edge or corner is special-cased.
pub proof fn lemma_toroidal_wrap_corner(g: Seq<Seq<bool>>, n: int)
    requires
        grid_wf(g, n),
        n >= 2,
    ensures
        neighbor_count(g, n, 0, 0) == b2i(g[n - 1][n - 1]) + b2i(g[n - 1][0]) + b2i(g[0][n - 1])
            + b2i(g[1][0]) + b2i(g[0][1]) + b2i(g[1][1]) + b2i(g[n - 1][1]) + b2i(g[1][n - 1]),
{
}

/// Determinism: the next generation is a function of the current grid alone,
/// so two results computed from the same grid are identical.
pub proof fn lemma_advance_deterministic(
    g: Seq<Seq<bool>>,
    a: Seq<Seq<bool>>,
    b: Seq<Seq<bool>>,
    n: int,
)
    requires
        a == next_gen(g, n),
        b == next_gen(g, n),
    ensures
        a == b,
{
}

} // verus!
