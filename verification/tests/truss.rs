use truss::joints::Nodes;
use truss::members::Lines;
use truss::scalar::{negate_word, vec2_zero, Vec2, ZERO_WORD};
use truss::system::{assemble, bind_result, LinearSystem};
use truss::TrussError;

use nalgebra::DMatrix;

fn vec2(x: f64, y: f64) -> Vec2 {
    Vec2 { x: x.to_bits(), y: y.to_bits() }
}

fn direction(a: (f64, f64), b: (f64, f64)) -> Vec2 {
    let v = nalgebra::Vector2::new(b.0 - a.0, b.1 - a.1).normalize();
    vec2(v.x, v.y)
}

fn build(
    locs: &[(f64, f64)],
    pairs: &[(usize, usize)],
    loads: &[(usize, f64, f64)],
) -> (Nodes, Lines) {
    let locations: Vec<Vec2> = locs.iter().map(|&(x, y)| vec2(x, y)).collect();
    let load_list: Vec<(usize, Vec2)> = loads.iter().map(|&(i, x, y)| (i, vec2(x, y))).collect();
    let mut nodes = Nodes::from_locations(locations, load_list).unwrap();
    let pair_vec: Vec<(usize, usize)> = pairs.to_vec();
    let dirs: Vec<Vec2> = pairs
        .iter()
        .map(|&(a, b)| {
            if a < locs.len() && b < locs.len() {
                direction(locs[a], locs[b])
            } else {
                vec2_zero()
            }
        })
        .collect();
    let lines = Lines::from_pairs(&mut nodes, &pair_vec, &dirs);
    (nodes, lines)
}

fn solve(sys: &LinearSystem) -> Option<Vec<u64>> {
    if sys.is_trivially_singular() {
        return None;
    }
    let a = DMatrix::from_fn(sys.rows, sys.cols, |i, j| f64::from_bits(sys.coeffs[i][j]));
    let b = DMatrix::from_fn(sys.rows, 1, |i, _| f64::from_bits(sys.rhs[i]));
    let gram = a.transpose() * &a;
    match gram.try_inverse() {
        Some(gram_inv) => {
            let f = gram_inv * a.transpose() * b;
            Some(f.iter().map(|x| x.to_bits()).collect())
        }
        None => None,
    }
}

fn scenario_locs() -> Vec<(f64, f64)> {
    vec![
        (0.0, 0.0),
        (0.0, 1.0),
        (1.0, 1.0),
        (2.0, 1.0),
        (3.0, 1.0),
        (4.0, 1.0),
        (4.0, 0.0),
        (3.0, 0.0),
        (2.0, 0.0),
        (1.0, 0.0),
    ]
}

fn scenario_pairs() -> Vec<(usize, usize)> {
    vec![
        (0, 1),
        (0, 9),
        (1, 2),
        (1, 9),
        (2, 3),
        (2, 8),
        (2, 9),
        (3, 4),
        (3, 8),
        (4, 5),
        (4, 7),
        (4, 8),
        (5, 6),
        (5, 7),
        (6, 7),
        (7, 8),
        (8, 9),
    ]
}

fn scenario_loads() -> Vec<(usize, f64, f64)> {
    vec![(2, 0.0, -1.0), (0, 0.0, 0.75), (6, 0.0, 0.25)]
}

/// Largest per-joint equilibrium violation: for every joint, the solved
/// member-force contributions (direction, sign convention by endpoint
/// order) plus the applied load, gathered through the incident lists.
fn worst_joint_residual(nodes: &Nodes, lines: &Lines) -> f64 {
    let mut worst: f64 = 0.0;
    for node in &nodes.items {
        let mut sum_x = f64::from_bits(node.load.x);
        let mut sum_y = f64::from_bits(node.load.y);
        for &m in &node.line_ids {
            let line = &lines.items[m];
            let sign = if line.first == node.id { 1.0 } else { -1.0 };
            sum_x += sign * f64::from_bits(line.direction.x) * f64::from_bits(line.force);
            sum_y += sign * f64::from_bits(line.direction.y) * f64::from_bits(line.force);
        }
        worst = worst.max((sum_x * sum_x + sum_y * sum_y).sqrt());
    }
    worst
}

#[test]
fn matrix_shape_matches_model() {
    let (nodes, lines) = build(&scenario_locs(), &scenario_pairs(), &scenario_loads());
    let sys = assemble(&nodes, &lines);
    assert_eq!(sys.rows, 20);
    assert_eq!(sys.cols, 17);
    assert_eq!(sys.coeffs.len(), 20);
    for row in &sys.coeffs {
        assert_eq!(row.len(), 17);
    }
    assert_eq!(sys.rhs.len(), 20);

    let (nodes, lines) = build(&[(0.0, 0.0), (1.0, 0.0)], &[(0, 1), (0, 7)], &[]);
    let sys = assemble(&nodes, &lines);
    assert_eq!(sys.rows, 4);
    assert_eq!(sys.cols, 1);

    let (nodes, lines) = build(&[], &[], &[]);
    let sys = assemble(&nodes, &lines);
    assert_eq!(sys.rows, 0);
    assert_eq!(sys.cols, 0);
}

#[test]
fn assembler_sign_convention() {
    let (nodes, lines) = build(
        &[(0.0, 0.0), (1.0, 0.0)],
        &[(0, 1)],
        &[(0, -1.0, 0.0), (1, 1.0, 0.5)],
    );
    let sys = assemble(&nodes, &lines);
    // Joint 0 is the first endpoint: +direction in its rows.
    assert_eq!(f64::from_bits(sys.coeffs[0][0]), 1.0);
    assert_eq!(f64::from_bits(sys.coeffs[1][0]), 0.0);
    // Joint 1 is the second endpoint: -direction in its rows.
    assert_eq!(f64::from_bits(sys.coeffs[2][0]), -1.0);
    assert_eq!(f64::from_bits(sys.coeffs[3][0]), -0.0);
    // The right-hand side is the negated applied load.
    assert_eq!(f64::from_bits(sys.rhs[0]), 1.0);
    assert_eq!(f64::from_bits(sys.rhs[1]), -0.0);
    assert_eq!(f64::from_bits(sys.rhs[2]), -1.0);
    assert_eq!(f64::from_bits(sys.rhs[3]), -0.5);
}

#[test]
fn single_member_exact_force() {
    let (nodes, mut lines) = build(
        &[(0.0, 0.0), (1.0, 0.0)],
        &[(0, 1)],
        &[(0, -1.0, 0.0), (1, 1.0, 0.0)],
    );
    let sys = assemble(&nodes, &lines);
    let outcome = solve(&sys);
    assert!(outcome.is_some());
    let bound = bind_result(&mut lines, outcome);
    assert_eq!(bound, Ok(()));
    assert_eq!(f64::from_bits(lines.items[0].force), 1.0);
}

#[test]
fn scenario_ten_joints_seventeen_members() {
    let (nodes, mut lines) = build(&scenario_locs(), &scenario_pairs(), &scenario_loads());
    let sys = assemble(&nodes, &lines);
    let outcome = solve(&sys);
    assert!(outcome.is_some());
    let forces = outcome.clone().unwrap();
    assert_eq!(forces.len(), 17);
    assert_eq!(bind_result(&mut lines, outcome), Ok(()));
    for (m, line) in lines.items.iter().enumerate() {
        assert_eq!(line.id, m);
        assert_eq!(line.force, forces[m]);
        assert!(f64::from_bits(line.force).is_finite());
    }
    assert!(worst_joint_residual(&nodes, &lines) <= 1e-9);
}

#[test]
fn residual_norm_small_after_solve() {
    let (nodes, lines) = build(&scenario_locs(), &scenario_pairs(), &scenario_loads());
    let sys = assemble(&nodes, &lines);
    let forces = solve(&sys).unwrap();
    let a = DMatrix::from_fn(sys.rows, sys.cols, |i, j| f64::from_bits(sys.coeffs[i][j]));
    let b = DMatrix::from_fn(sys.rows, 1, |i, _| f64::from_bits(sys.rhs[i]));
    let f = DMatrix::from_fn(sys.cols, 1, |i, _| f64::from_bits(forces[i]));
    let residual = (a * f - b).norm();
    assert!(residual <= 1e-9, "residual {residual}");
}

#[test]
fn rebuild_is_deterministic() {
    let (nodes1, mut lines1) = build(&scenario_locs(), &scenario_pairs(), &scenario_loads());
    let (nodes2, mut lines2) = build(&scenario_locs(), &scenario_pairs(), &scenario_loads());
    assert_eq!(nodes1.items.len(), nodes2.items.len());
    for (a, b) in nodes1.items.iter().zip(nodes2.items.iter()) {
        assert_eq!(a.id, b.id);
        assert_eq!(a.loc, b.loc);
        assert_eq!(a.load, b.load);
        assert_eq!(a.line_ids, b.line_ids);
    }
    let f1 = solve(&assemble(&nodes1, &lines1)).unwrap();
    let f2 = solve(&assemble(&nodes2, &lines2)).unwrap();
    assert_eq!(f1, f2);
    assert_eq!(bind_result(&mut lines1, Some(f1)), Ok(()));
    assert_eq!(bind_result(&mut lines2, Some(f2)), Ok(()));
    for (a, b) in lines1.items.iter().zip(lines2.items.iter()) {
        assert_eq!(a.id, b.id);
        assert_eq!(a.force, b.force);
    }
}

#[test]
fn no_members_reports_singular() {
    let (nodes, mut lines) = build(&[(0.0, 0.0)], &[], &[]);
    let sys = assemble(&nodes, &lines);
    assert_eq!(sys.rows, 2);
    assert_eq!(sys.cols, 0);
    assert!(sys.is_trivially_singular());
    let a = DMatrix::from_fn(sys.rows, sys.cols, |i, j| f64::from_bits(sys.coeffs[i][j]));
    let gram = a.transpose() * &a;
    assert_eq!(gram.nrows(), 0);
    assert_eq!(gram.ncols(), 0);
    assert!(gram.iter().all(|&x| x == 0.0));
    let outcome = solve(&sys);
    assert!(outcome.is_none());
    assert_eq!(bind_result(&mut lines, outcome), Err(TrussError::SingularSystem));
    assert_eq!(lines.items.len(), 0);
}

#[test]
fn failed_solve_leaves_forces_untouched() {
    // Two duplicate members between the same joints: identical columns make
    // the normal-equations matrix singular.
    let (nodes, mut lines) = build(
        &[(0.0, 0.0), (1.0, 0.0)],
        &[(0, 1), (0, 1)],
        &[(0, -1.0, 0.0), (1, 1.0, 0.0)],
    );
    let sys = assemble(&nodes, &lines);
    let outcome = solve(&sys);
    assert!(outcome.is_none());
    assert_eq!(bind_result(&mut lines, outcome), Err(TrussError::SingularSystem));
    for line in &lines.items {
        assert_eq!(line.force, ZERO_WORD);
        assert_eq!(f64::from_bits(line.force), 0.0);
    }
}

#[test]
fn load_assignment_unknown_id_fails() {
    let locations = vec![vec2(0.0, 0.0), vec2(1.0, 0.0)];
    let loads = vec![(0usize, vec2(0.0, 1.0)), (5usize, vec2(1.0, 0.0))];
    let built = Nodes::from_locations(locations, loads);
    assert!(matches!(built, Err(TrussError::NotFound)));
}

#[test]
fn set_load_overwrites_or_fails() {
    let mut nodes = Nodes::new();
    let id = nodes.add_node(vec2(0.0, 0.0));
    assert_eq!(id, 0);
    assert_eq!(nodes.set_load(0, vec2(3.0, 4.0)), Ok(()));
    assert_eq!(nodes.set_load(0, vec2(5.0, 6.0)), Ok(()));
    assert_eq!(f64::from_bits(nodes.items[0].load.x), 5.0);
    assert_eq!(f64::from_bits(nodes.items[0].load.y), 6.0);
    assert_eq!(nodes.set_load(1, vec2(0.0, 0.0)), Err(TrussError::NotFound));
}

#[test]
fn get_finds_existing_joints_only() {
    let mut nodes = Nodes::new();
    nodes.add_node(vec2(2.0, 3.0));
    let node = nodes.get(0).unwrap();
    assert_eq!(node.id, 0);
    assert_eq!(f64::from_bits(node.loc.x), 2.0);
    assert_eq!(f64::from_bits(node.loc.y), 3.0);
    assert!(matches!(nodes.get(1), Err(TrussError::NotFound)));
}

#[test]
fn malformed_pair_is_skipped() {
    let (nodes, lines) = build(
        &[(0.0, 0.0), (1.0, 0.0), (0.0, 1.0)],
        &[(0, 1), (1, 7), (9, 2), (1, 2)],
        &[],
    );
    assert_eq!(lines.items.len(), 2);
    assert_eq!(lines.items[0].first, 0);
    assert_eq!(lines.items[0].second, 1);
    assert_eq!(lines.items[1].first, 1);
    assert_eq!(lines.items[1].second, 2);
    assert_eq!(nodes.items[0].line_ids, vec![0]);
    assert_eq!(nodes.items[1].line_ids, vec![0, 1]);
    assert_eq!(nodes.items[2].line_ids, vec![1]);
}

#[test]
fn incident_lists_follow_creation() {
    let (nodes, lines) = build(&scenario_locs(), &scenario_pairs(), &scenario_loads());
    assert_eq!(lines.items.len(), 17);
    for (m, line) in lines.items.iter().enumerate() {
        assert_eq!(line.id, m);
        assert!(nodes.items[line.first].line_ids.contains(&m));
        assert!(nodes.items[line.second].line_ids.contains(&m));
        assert_eq!(line.force, ZERO_WORD);
    }
}

#[test]
fn negate_word_flips_a_double() {
    assert_eq!(f64::from_bits(negate_word(1.5f64.to_bits())), -1.5);
    assert_eq!(f64::from_bits(negate_word((-0.25f64).to_bits())), 0.25);
    assert_eq!(f64::from_bits(negate_word(0.0f64.to_bits())), -0.0);
    let zero = vec2_zero();
    assert_eq!(f64::from_bits(zero.x), 0.0);
    assert_eq!(f64::from_bits(zero.y), 0.0);
}

#[test]
fn bind_writes_forces_in_id_order() {
    let (_nodes, mut lines) = build(
        &[(0.0, 0.0), (1.0, 0.0), (0.0, 1.0)],
        &[(0, 1), (1, 2), (0, 2)],
        &[],
    );
    let forces: Vec<u64> = vec![1.0f64.to_bits(), (-2.0f64).to_bits(), 0.5f64.to_bits()];
    assert_eq!(bind_result(&mut lines, Some(forces)), Ok(()));
    assert_eq!(f64::from_bits(lines.items[0].force), 1.0);
    assert_eq!(f64::from_bits(lines.items[1].force), -2.0);
    assert_eq!(f64::from_bits(lines.items[2].force), 0.5);
}
