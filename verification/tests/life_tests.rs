use life::engine::{advance, alive, count_surrounding, dec, inc, life_next, next_state};
use life::grid::{
    glider, grid_from_bits, infinite1, life_random, make_initial_grid, GLIDER_MIN, INFINITE1_MIN,
};
use life::model::{LifeError, Policy};

fn dead_grid(n: usize) -> Vec<Vec<bool>> {
    vec![vec![false; n]; n]
}

fn alive_count(g: &Vec<Vec<bool>>) -> usize {
    g.iter().map(|row| row.iter().filter(|c| **c).count()).sum()
}

#[test]
fn inc_dec_wrap() {
    assert_eq!(inc(0, 40), 1);
    assert_eq!(inc(38, 40), 39);
    assert_eq!(inc(39, 40), 0);
    assert_eq!(dec(0, 40), 39);
    assert_eq!(dec(1, 40), 0);
    assert_eq!(dec(5, 40), 4);
}

#[test]
fn toroidal_wrap_corner_all_eight() {
    let n = 5;
    let mut g = dead_grid(n);
    for (r, c) in [
        (n - 1, n - 1),
        (n - 1, 0),
        (0, n - 1),
        (1, 0),
        (0, 1),
        (1, 1),
        (n - 1, 1),
        (1, n - 1),
    ] {
        g[r][c] = true;
    }
    assert_eq!(count_surrounding(0, 0, &g), 8);
}

#[test]
fn toroidal_wrap_corner_each_neighbor_counts_once() {
    let n = 5;
    for (r, c) in [
        (n - 1, n - 1),
        (n - 1, 0),
        (0, n - 1),
        (1, 0),
        (0, 1),
        (1, 1),
        (n - 1, 1),
        (1, n - 1),
    ] {
        let mut g = dead_grid(n);
        g[r][c] = true;
        assert_eq!(count_surrounding(0, 0, &g), 1);
    }
}

#[test]
fn wrap_does_not_count_non_neighbors() {
    let n = 5;
    let mut g = dead_grid(n);
    g[2][2] = true;
    g[0][3] = true;
    g[3][0] = true;
    assert_eq!(count_surrounding(0, 0, &g), 0);
}

#[test]
fn rule_table_exact() {
    for count in 0..=8u32 {
        let expect_alive = count == 2 || count == 3;
        assert_eq!(next_state(true, count), Ok(expect_alive));
        let expect_born = count == 3;
        assert_eq!(next_state(false, count), Ok(expect_born));
    }
}

#[test]
fn rule_table_rejects_out_of_range_count() {
    assert_eq!(next_state(true, 9), Err(LifeError::InvariantViolation));
    assert_eq!(next_state(false, 100), Err(LifeError::InvariantViolation));
}

#[test]
fn isolated_cell_dies() {
    let n = 5;
    let mut g = dead_grid(n);
    g[2][2] = true;
    let next = advance(&g);
    assert_eq!(next, dead_grid(n));
}

#[test]
fn block_still_life_stays() {
    let n = 6;
    let mut g = dead_grid(n);
    g[2][2] = true;
    g[2][3] = true;
    g[3][2] = true;
    g[3][3] = true;
    let next = advance(&g);
    assert!(next[2][2] && next[2][3] && next[3][2] && next[3][3]);
    assert_eq!(next, g);
}

#[test]
fn blinker_oscillates() {
    let n = 7;
    let mut horizontal = dead_grid(n);
    horizontal[3][2] = true;
    horizontal[3][3] = true;
    horizontal[3][4] = true;

    let mut vertical = dead_grid(n);
    vertical[2][3] = true;
    vertical[3][3] = true;
    vertical[4][3] = true;

    let step1 = advance(&horizontal);
    assert_eq!(step1, vertical);
    let step2 = advance(&step1);
    assert_eq!(step2, horizontal);
}

#[test]
fn alive_reports_birth_and_death() {
    let n = 7;
    let mut g = dead_grid(n);
    g[3][2] = true;
    g[3][3] = true;
    g[3][4] = true;
    assert!(alive(2, 3, &g));
    assert!(alive(3, 3, &g));
    assert!(!alive(3, 2, &g));
    assert!(!alive(3, 4, &g));
}

#[test]
fn advance_does_not_mutate_input() {
    let mut g = dead_grid(7);
    g[3][2] = true;
    g[3][3] = true;
    g[3][4] = true;
    let snapshot = g.clone();
    let _next = advance(&g);
    assert_eq!(g, snapshot);
}

#[test]
fn advance_is_deterministic() {
    let g = infinite1(20).unwrap();
    let a = advance(&g);
    let b = advance(&g);
    assert_eq!(a, b);
}

#[test]
fn life_next_matches_advance() {
    let g = glider(15).unwrap();
    assert_eq!(life_next(&g), advance(&g));
}

#[test]
fn glider_size_and_cells() {
    let n = 13;
    let g = glider(n).unwrap();
    assert_eq!(g.len(), n);
    for row in &g {
        assert_eq!(row.len(), n);
    }
    assert_eq!(alive_count(&g), 5);
    assert!(g[10][11]);
    assert!(g[11][12]);
    assert!(g[12][10]);
    assert!(g[12][11]);
    assert!(g[12][12]);
}

#[test]
fn infinite1_size_and_cells() {
    let n = 20;
    let g = infinite1(n).unwrap();
    assert_eq!(g.len(), n);
    for row in &g {
        assert_eq!(row.len(), n);
    }
    assert_eq!(alive_count(&g), 14);
    for (r, c) in [
        (11, 11),
        (11, 12),
        (11, 13),
        (11, 15),
        (12, 11),
        (13, 14),
        (13, 15),
        (14, 12),
        (14, 13),
        (14, 15),
        (15, 11),
        (15, 13),
        (15, 15),
        (15, 19),
    ] {
        assert!(g[r][c]);
    }
}

#[test]
fn out_of_range_rejection() {
    assert_eq!(glider(0), Err(LifeError::OutOfRange));
    assert_eq!(glider(GLIDER_MIN - 1), Err(LifeError::OutOfRange));
    assert!(glider(GLIDER_MIN).is_ok());
    assert_eq!(infinite1(INFINITE1_MIN - 1), Err(LifeError::OutOfRange));
    assert!(infinite1(INFINITE1_MIN).is_ok());
    assert_eq!(
        make_initial_grid(Policy::FixedPatternA, 5),
        Err(LifeError::OutOfRange)
    );
    assert_eq!(
        make_initial_grid(Policy::FixedPatternB, 19),
        Err(LifeError::OutOfRange)
    );
}

#[test]
fn size_invariance_all_policies() {
    let n = 25;
    for policy in [Policy::Random, Policy::FixedPatternA, Policy::FixedPatternB] {
        let g = make_initial_grid(policy, n).unwrap();
        assert_eq!(g.len(), n);
        for row in &g {
            assert_eq!(row.len(), n);
        }
    }
}

#[test]
fn life_random_shape() {
    let n = 10;
    let g = life_random(n);
    assert_eq!(g.len(), n);
    for row in &g {
        assert_eq!(row.len(), n);
    }
}

#[test]
fn grid_from_bits_deterministic() {
    let bits = vec![true, false, false, true];
    let g = grid_from_bits(&bits, 2).unwrap();
    assert_eq!(g, vec![vec![true, false], vec![false, true]]);
}

#[test]
fn grid_from_bits_rejects_wrong_length() {
    let bits = vec![true, false, true];
    assert_eq!(grid_from_bits(&bits, 2), Err(LifeError::OutOfRange));
    let too_many = vec![false; 5];
    assert_eq!(grid_from_bits(&too_many, 2), Err(LifeError::OutOfRange));
    let empty: Vec<bool> = vec![];
    assert!(grid_from_bits(&empty, 0).is_ok());
}

#[test]
fn glider_moves_one_step() {
    let g = glider(15).unwrap();
    let next = advance(&g);
    assert_eq!(alive_count(&next), 5);
    assert!(next[11][10]);
    assert!(next[11][12]);
    assert!(next[12][11]);
    assert!(next[12][12]);
    assert!(next[13][11]);
}
