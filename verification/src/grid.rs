//! Grid construction: an N x N boolean grid built by one of three policies —
//! random fill, the fixed glider pattern, or the fixed growth pattern. The
//! fixed-pattern constructors validate that every literal coordinate fits in
//! the requested side length and report OutOfRange otherwise.

use vstd::prelude::*;

use crate::model::{grid_wf, lemma_deep_view_row, LifeError, Policy};

verus! {

/// Cell (i, j) of the fixed five-cell glider pattern.
pub open spec fn glider_cell(i: int, j: int) -> bool {
    (i == 10 && j == 11) || (i == 11 && j == 12) || (i == 12 && j == 10) || (i == 12 && j == 11)
        || (i == 12 && j == 12)
}

/// The smallest side length that fits every glider coordinate.
pub const GLIDER_MIN: usize = 13;

/// Cell (i, j) of the fixed growth-pattern seed.
pub open spec fn infinite1_cell(i: int, j: int) -> bool {
    (i == 11 && (j == 11 || j == 12 || j == 13 || j == 15)) || (i == 12 && j == 11) || (i == 13
        && (j == 14 || j == 15)) || (i == 14 && (j == 12 || j == 13 || j == 15)) || (i == 15 && (j
        == 11 || j == 13 || j == 15 || j == 19))
}

/// The smallest side length that fits every growth-pattern coordinate.
pub const INFINITE1_MIN: usize = 20;

/// Relies on rand::random::<bool>: one boolean drawn from the thread-local
/// generator, alive or dead with equal probability. Nothing can be promised
/// of a random value, so this wrapper has no contract.
#[verifier::external_body]
fn random_bool() -> bool {
    rand::random()
}

fn glider_cell_at(i: usize, j: usize) -> (b: bool)
    ensures
        b == glider_cell(i as int, j as int),
{
    (i == 10 && j == 11) || (i == 11 && j == 12) || (i == 12 && j == 10) || (i == 12 && j == 11)
        || (i == 12 && j == 12)
}

fn infinite1_cell_at(i: usize, j: usize) -> (b: bool)
    ensures
        b == infinite1_cell(i as int, j as int),
{
    (i == 11 && (j == 11 || j == 12 || j == 13 || j == 15)) || (i == 12 && j == 11) || (i == 13
        && (j == 14 || j == 15)) || (i == 14 && (j == 12 || j == 13 || j == 15)) || (i == 15 && (j
        == 11 || j == 13 || j == 15 || j == 19))
}

/// All cells dead except the five-cell glider at its fixed coordinates.
/// Rejects any side length too small to hold the pattern.
pub fn glider(ncells: usize) -> (r: Result<Vec<Vec<bool>>, LifeError>)
    ensures
        ncells >= GLIDER_MIN ==> (r matches Ok(g) && grid_wf(g.deep_view(), ncells as int)
            && forall|i: int, j: int|
            0 <= i < ncells && 0 <= j < ncells ==> #[trigger] g.deep_view()[i][j] == glider_cell(
                i,
                j,
            )),
        ncells < GLIDER_MIN ==> r == Err::<Vec<Vec<bool>>, LifeError>(LifeError::OutOfRange),
{
    if ncells < GLIDER_MIN {
        return Err(LifeError::OutOfRange);
    }
    let mut g: Vec<Vec<bool>> = Vec::new();
    let mut i: usize = 0;
    while i < ncells
        invariant
            i <= ncells,
            g@.len() == i,
            forall|k: int| 0 <= k < i ==> (#[trigger] g@[k])@.len() == ncells,
            forall|k: int, l: int|
                0 <= k < i && 0 <= l < ncells ==> #[trigger] g@[k]@[l] == glider_cell(k, l),
        decreases ncells - i,
    {
        let mut row: Vec<bool> = Vec::new();
        let mut j: usize = 0;
        while j < ncells
            invariant
                j <= ncells,
                row@.len() == j,
                forall|l: int| 0 <= l < j ==> #[trigger] row@[l] == glider_cell(i as int, l),
            decreases ncells - j,
        {
            row.push(glider_cell_at(i, j));
            j += 1;
        }
        g.push(row);
        i += 1;
    }
    proof {
        assert forall|a: int| 0 <= a < ncells implies (#[trigger] g.deep_view()[a]).len()
            == ncells by {
            lemma_deep_view_row(&g, a);
        }
        assert forall|a: int, b: int|
            0 <= a < ncells && 0 <= b < ncells implies #[trigger] g.deep_view()[a][b]
            == glider_cell(a, b) by {
            lemma_deep_view_row(&g, a);
        }
    }
    Ok(g)
}

/// All cells dead except the growth-pattern seed at its fixed coordinates.
/// Rejects any side length too small to hold the pattern.
pub fn infinite1(ncells: usize) -> (r: Result<Vec<Vec<bool>>, LifeError>)
    ensures
        ncells >= INFINITE1_MIN ==> (r matches Ok(g) && grid_wf(g.deep_view(), ncells as int)
            && forall|i: int, j: int|
            0 <= i < ncells && 0 <= j < ncells ==> #[trigger] g.deep_view()[i][j]
                == infinite1_cell(i, j)),
        ncells < INFINITE1_MIN ==> r == Err::<Vec<Vec<bool>>, LifeError>(LifeError::OutOfRange),
{
    if ncells < INFINITE1_MIN {
        return Err(LifeError::OutOfRange);
    }
    let mut g: Vec<Vec<bool>> = Vec::new();
    let mut i: usize = 0;
    while i < ncells
        invariant
            i <= ncells,
            g@.len() == i,
            forall|k: int| 0 <= k < i ==> (#[trigger] g@[k])@.len() == ncells,
            forall|k: int, l: int|
                0 <= k < i && 0 <= l < ncells ==> #[trigger] g@[k]@[l] == infinite1_cell(k, l),
        decreases ncells - i,
    {
        let mut row: Vec<bool> = Vec::new();
        let mut j: usize = 0;
        while j < ncells
            invariant
                j <= ncells,
                row@.len() == j,
                forall|l: int| 0 <= l < j ==> #[trigger] row@[l] == infinite1_cell(i as int, l),
            decreases ncells - j,
        {
            row.push(infinite1_cell_at(i, j));
            j += 1;
        }
        g.push(row);
        i += 1;
    }
    proof {
        assert forall|a: int| 0 <= a < ncells implies (#[trigger] g.deep_view()[a]).len()
            == ncells by {
            lemma_deep_view_row(&g, a);
        }
        assert forall|a: int, b: int|
            0 <= a < ncells && 0 <= b < ncells implies #[trigger] g.deep_view()[a][b]
            == infinite1_cell(a, b) by {
            lemma_deep_view_row(&g, a);
        }
    }
    Ok(g)
}

/// Every cell drawn independently from the thread-local random source.
/// Only the shape can be promised of the result.
pub fn life_random(ncells: usize) -> (g: Vec<Vec<bool>>)
    ensures
        grid_wf(g.deep_view(), ncells as int),
{
    let mut g: Vec<Vec<bool>> = Vec::new();
    let mut i: usize = 0;
    while i < ncells
        invariant
            i <= ncells,
            g@.len() == i,
            forall|k: int| 0 <= k < i ==> (#[trigger] g@[k])@.len() == ncells,
        decreases ncells - i,
    {
        let mut row: Vec<bool> = Vec::new();
        let mut j: usize = 0;
        while j < ncells
            invariant
                j <= ncells,
                row@.len() == j,
            decreases ncells - j,
        {
            row.push(random_bool());
            j += 1;
        }
        g.push(row);
        i += 1;
    }
    proof {
        assert forall|a: int| 0 <= a < ncells implies (#[trigger] g.deep_view()[a]).len()
            == ncells by {
            lemma_deep_view_row(&g, a);
        }
    }
    g
}

/// Deterministic counterpart of `life_random`: the cell sequence is injected
/// instead of drawn, row-major, so cell (i, j) is bits[i * ncells + j].
/// Rejects a sequence whose length is not exactly ncells * ncells.
pub fn grid_from_bits(bits: &Vec<bool>, ncells: usize) -> (r: Result<Vec<Vec<bool>>, LifeError>)
    ensures
        bits@.len() == (ncells as int) * (ncells as int) ==> (r matches Ok(g) && grid_wf(
            g.deep_view(),
            ncells as int,
        ) && forall|i: int, j: int|
            0 <= i < ncells && 0 <= j < ncells ==> #[trigger] g.deep_view()[i][j] == bits@[i * (
            ncells as int) + j]),
        bits@.len() != (ncells as int) * (ncells as int) ==> r == Err::<
            Vec<Vec<bool>>,
            LifeError,
        >(LifeError::OutOfRange),
{
    let mut g: Vec<Vec<bool>> = Vec::new();
    let mut idx: usize = 0;
    let mut i: usize = 0;
    while i < ncells
        invariant
            i <= ncells,
            idx == i * (ncells as int),
            idx <= bits@.len(),
            g@.len() == i,
            forall|k: int| 0 <= k < i ==> (#[trigger] g@[k])@.len() == ncells,
            forall|k: int, l: int|
                0 <= k < i && 0 <= l < ncells ==> #[trigger] g@[k]@[l] == bits@[k * (ncells as int)
                    + l],
        decreases ncells - i,
    {
        let mut row: Vec<bool> = Vec::new();
        let mut j: usize = 0;
        while j < ncells
            invariant
                i < ncells,
                j <= ncells,
                idx == i * (ncells as int) + j,
                idx <= bits@.len(),
                row@.len() == j,
                forall|l: int|
                    0 <= l < j ==> #[trigger] row@[l] == bits@[i * (ncells as int) + l],
            decreases ncells - j,
        {
            if idx >= bits.len() {
                proof {
                    assert(i * (ncells as int) + j < (ncells as int) * (ncells as int))
                        by (nonlinear_arith)
                        requires
                            0 <= i < ncells,
                            0 <= j < ncells,
                    ;
                }
                return Err(LifeError::OutOfRange);
            }
            row.push(bits[idx]);
            idx += 1;
            j += 1;
        }
        g.push(row);
        i += 1;
        proof {
            assert((i - 1) * (ncells as int) + (ncells as int) == i * (ncells as int))
                by (nonlinear_arith);
        }
    }
    if idx != bits.len() {
        return Err(LifeError::OutOfRange);
    }
    proof {
        assert forall|a: int| 0 <= a < ncells implies (#[trigger] g.deep_view()[a]).len()
            == ncells by {
            lemma_deep_view_row(&g, a);
        }
        assert forall|a: int, b: int|
            0 <= a < ncells && 0 <= b < ncells implies #[trigger] g.deep_view()[a][b] == bits@[a * (
        ncells as int) + b] by {
            lemma_deep_view_row(&g, a);
        }
    }
    Ok(g)
}

/// The single construction entry point: an N x N grid by the given policy.
/// Random fill always succeeds; a fixed pattern succeeds exactly when its
/// literal coordinates fit, and reports OutOfRange otherwise.
pub fn make_initial_grid(policy: Policy, n: usize) -> (r: Result<Vec<Vec<bool>>, LifeError>)
    ensures
        r matches Ok(g) ==> grid_wf(g.deep_view(), n as int),
        policy == Policy::Random ==> r is Ok,
        policy == Policy::FixedPatternA && n >= GLIDER_MIN ==> (r matches Ok(g) && forall|
            i: int,
            j: int,
        |
            0 <= i < n && 0 <= j < n ==> #[trigger] g.deep_view()[i][j] == glider_cell(i, j)),
        policy == Policy::FixedPatternA && n < GLIDER_MIN ==> r == Err::<Vec<Vec<bool>>, LifeError>(
            LifeError::OutOfRange,
        ),
        policy == Policy::FixedPatternB && n >= INFINITE1_MIN ==> (r matches Ok(g) && forall|
            i: int,
            j: int,
        |
            0 <= i < n && 0 <= j < n ==> #[trigger] g.deep_view()[i][j] == infinite1_cell(i, j)),
        policy == Policy::FixedPatternB && n < INFINITE1_MIN ==> r == Err::<
            Vec<Vec<bool>>,
            LifeError,
        >(LifeError::OutOfRange),
{
    match policy {
        Policy::Random => Ok(life_random(n)),
        Policy::FixedPatternA => glider(n),
        Policy::FixedPatternB => infinite1(n),
    }
}

} // verus!
