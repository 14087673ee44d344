use triton_constraints::circuit::BinOp;
use triton_constraints::circuit::CircuitExpression;
use triton_constraints::circuit::ConstraintCircuitBuilder;
use triton_constraints::circuit::DualRowIndicator;
use triton_constraints::circuit::InputIndicator;
use triton_constraints::circuit::SingleRowIndicator;
use triton_constraints::constraints::AllSubstitutions;
use triton_constraints::constraints::ConstraintSet;
use triton_constraints::constraints::Constraints;
use triton_constraints::lowering::DegreeLoweringError;
use triton_constraints::lowering::DegreeLoweringInfo;

fn degree_lowering_info() -> DegreeLoweringInfo {
    DegreeLoweringInfo {
        target_degree: 4,
        num_main_cols: 42,
        num_aux_cols: 13,
    }
}

fn fourth_power(b: &mut ConstraintCircuitBuilder<SingleRowIndicator>, x: usize) -> usize {
    let x2 = b.mul(x, x);
    let x3 = b.mul(x2, x);
    b.mul(x3, x)
}

/// `x0 * x1 - x2`, `x0^4 - challenge 1 - 16`, `x2 * x0^4 - x1^4`.
fn small_init_constraints() -> ConstraintSet<SingleRowIndicator> {
    let mut set = ConstraintSet::new();
    let b = &mut set.builder;
    let x0 = b.input(SingleRowIndicator::Main(0));
    let x1 = b.input(SingleRowIndicator::Main(1));
    let x2 = b.input(SingleRowIndicator::Main(2));
    let x0x1 = b.mul(x0, x1);
    let first = b.sub(x0x1, x2);

    let x0_4 = fourth_power(b, x0);
    let ch1 = b.challenge(1);
    let sixteen = b.b_constant(16);
    let t = b.sub(x0_4, ch1);
    let second = b.sub(t, sixteen);

    let x0_4 = fourth_power(b, x0);
    let x1_4 = fourth_power(b, x1);
    let p = b.mul(x2, x0_4);
    let third = b.sub(p, x1_4);

    set.roots = vec![first, second, third];
    set
}

fn small_transition_constraints() -> ConstraintSet<DualRowIndicator> {
    let mut set = ConstraintSet::new();
    let b = &mut set.builder;
    let curr_b0 = b.input(DualRowIndicator::CurrentMain(0));
    let curr_b1 = b.input(DualRowIndicator::CurrentMain(1));
    let curr_b2 = b.input(DualRowIndicator::CurrentMain(2));
    let next_b1 = b.input(DualRowIndicator::NextMain(1));
    let next_b2 = b.input(DualRowIndicator::NextMain(2));
    let curr_x0 = b.input(DualRowIndicator::CurrentAux(0));
    let curr_x1 = b.input(DualRowIndicator::CurrentAux(1));
    let next_x0 = b.input(DualRowIndicator::NextAux(0));
    let next_x1 = b.input(DualRowIndicator::NextAux(1));
    let next_x2 = b.input(DualRowIndicator::NextAux(2));
    let next_x3 = b.input(DualRowIndicator::NextAux(3));
    let ch0 = b.challenge(0);
    let ch1 = b.challenge(1);
    let c42 = b.x_constant(42);

    let l = b.mul(curr_b0, next_x1);
    let r = b.mul(next_b1, curr_x0);
    let first = b.sub(l, r);

    let l = b.mul(curr_b1, next_x2);
    let r = b.mul(next_b2, curr_x1);
    let second = b.sub(l, r);

    let p = b.mul(curr_b2, next_x0);
    let p = b.mul(p, next_x1);
    let p = b.mul(p, next_x3);
    let third = b.add(p, c42);

    let p = b.mul(curr_b0, ch0);
    let fourth = b.sub(p, ch1);

    set.roots = vec![first, second, third, fourth];
    set
}

fn test_constraints() -> Constraints {
    Constraints::new(
        small_init_constraints(),
        ConstraintSet::new(),
        small_transition_constraints(),
        ConstraintSet::new(),
    )
}

fn max_degree<II: InputIndicator>(set: &ConstraintSet<II>) -> usize {
    set.roots.iter().map(|&r| set.builder.degree(r)).max().unwrap_or(0)
}

fn substitution_count(subs: &AllSubstitutions) -> usize {
    let m = &subs.main;
    let a = &subs.aux;
    m.init.len() + m.cons.len() + m.tran.len() + m.term.len() + a.init.len() + a.cons.len()
        + a.tran.len() + a.term.len()
}

#[test]
fn test_constraints_are_lowered_to_the_target_degree() {
    let mut constraints = test_constraints();
    assert_eq!(5, max_degree(&constraints.init));
    let substitutions = constraints
        .lower_to_target_degree_through_substitutions(degree_lowering_info())
        .unwrap();
    assert_eq!(1, substitutions.main.init.len());
    assert_eq!(1, substitution_count(&substitutions));
    assert!(max_degree(&constraints.init) <= 4);
    assert!(max_degree(&constraints.tran) <= 4);

    // The new main column is the first after the 42 existing ones, and it holds `x0^4`.
    let init = &constraints.init.builder;
    match init.node(substitutions.main.init[0]).expression {
        CircuitExpression::BinaryOperation(op, x, c) => {
            assert_eq!(BinOp::Sub, op);
            match init.node(x).expression {
                CircuitExpression::Input(ind) => assert_eq!(SingleRowIndicator::Main(42), ind),
                _ => panic!("the new column's leaf was expected"),
            }
            assert_eq!(4, init.degree(c));
            assert!(init.evaluates_to_base_element(c));
        }
        _ => panic!("a substitution constraint was expected"),
    }
}

#[test]
fn constraints_and_substitutions_can_be_combined() {
    let mut constraints = test_constraints();
    let substitutions = constraints
        .lower_to_target_degree_through_substitutions(degree_lowering_info())
        .unwrap();
    let new_init = substitutions.main.init.clone();
    let combined = constraints.combine_with_substitution_induced_constraints(substitutions);
    assert_eq!(4, combined.init.roots.len());
    assert_eq!(new_init[0], combined.init.roots[3]);
    assert_eq!(4, combined.tran.roots.len());
    assert!(max_degree(&combined.init) <= 4);
    assert!(max_degree(&combined.tran) <= 4);
    let consumed = combined.init();
    assert_eq!(combined.init.roots, consumed.roots);
}

#[test]
fn lowering_to_degree_two_moves_extension_nodes_into_aux_columns() {
    let mut constraints = test_constraints();
    let info = DegreeLoweringInfo {
        target_degree: 2,
        num_main_cols: 42,
        num_aux_cols: 13,
    };
    let substitutions = constraints
        .lower_to_target_degree_through_substitutions(info)
        .unwrap();
    assert!(max_degree(&constraints.init) <= 2);
    assert!(max_degree(&constraints.tran) <= 2);
    assert!(!substitutions.aux.tran.is_empty());
    // Each substitution defines one new column: main columns continue after those of the
    // initial bucket, and the transition bucket's auxiliary columns start at 13.
    let tran = &constraints.tran.builder;
    for (k, &id) in substitutions.aux.tran.iter().enumerate() {
        match tran.node(id).expression {
            CircuitExpression::BinaryOperation(BinOp::Sub, x, c) => {
                match tran.node(x).expression {
                    CircuitExpression::Input(ind) => {
                        assert_eq!(DualRowIndicator::CurrentAux(13 + k), ind)
                    }
                    _ => panic!("the new column's leaf was expected"),
                }
                assert!(tran.degree(c) <= 2);
                assert!(!tran.evaluates_to_base_element(c));
            }
            _ => panic!("a substitution constraint was expected"),
        }
    }
    let first_tran_main = 42 + substitutions.main.init.len() + substitutions.main.cons.len();
    for (k, &id) in substitutions.main.tran.iter().enumerate() {
        match tran.node(id).expression {
            CircuitExpression::BinaryOperation(BinOp::Sub, x, _) => match tran.node(x).expression {
                CircuitExpression::Input(ind) => {
                    assert_eq!(DualRowIndicator::CurrentMain(first_tran_main + k), ind)
                }
                _ => panic!("the new column's leaf was expected"),
            },
            _ => panic!("a substitution constraint was expected"),
        }
    }
    let combined = constraints.combine_with_substitution_induced_constraints(substitutions);
    assert!(max_degree(&combined.init) <= 2);
    assert!(max_degree(&combined.tran) <= 2);
}

#[test]
fn lowering_twice_gives_identical_substitutions() {
    let mut first = test_constraints();
    let mut second = test_constraints();
    let info = DegreeLoweringInfo {
        target_degree: 2,
        num_main_cols: 0,
        num_aux_cols: 0,
    };
    let s1 = first.lower_to_target_degree_through_substitutions(info).unwrap();
    let s2 = second.lower_to_target_degree_through_substitutions(info).unwrap();
    assert_eq!(s1.main.init, s2.main.init);
    assert_eq!(s1.main.tran, s2.main.tran);
    assert_eq!(s1.aux.init, s2.aux.init);
    assert_eq!(s1.aux.tran, s2.aux.tran);
    assert_eq!(first.init.roots, second.init.roots);
    assert_eq!(first.tran.roots, second.tran.roots);
    assert_eq!(first.tran.builder.len(), second.tran.builder.len());
    for i in 0..first.tran.builder.len() {
        assert_eq!(
            format!("{:?}", first.tran.builder.node(i)),
            format!("{:?}", second.tran.builder.node(i)),
        );
    }
}

#[test]
fn roots_within_the_target_are_left_alone() {
    let mut constraints = test_constraints();
    let info = DegreeLoweringInfo {
        target_degree: 5,
        num_main_cols: 0,
        num_aux_cols: 0,
    };
    let init_roots = constraints.init.roots.clone();
    let init_len = constraints.init.builder.len();
    let substitutions = constraints.lower_to_target_degree_through_substitutions(info).unwrap();
    assert_eq!(0, substitution_count(&substitutions));
    assert_eq!(init_roots, constraints.init.roots);
    assert_eq!(init_len, constraints.init.builder.len());
}

#[test]
fn leaf_only_roots_need_no_substitution_at_degree_one_or_zero() {
    let mut init = ConstraintSet::new();
    let x = init.builder.input(SingleRowIndicator::Main(0));
    let ch = init.builder.challenge(0);
    init.roots = vec![x, ch];
    let mut term = ConstraintSet::new();
    let k = term.builder.b_constant(1);
    term.roots = vec![k];
    let mut constraints =
        Constraints::new(init, ConstraintSet::new(), ConstraintSet::new(), ConstraintSet::new());
    let info = DegreeLoweringInfo {
        target_degree: 1,
        num_main_cols: 0,
        num_aux_cols: 0,
    };
    let substitutions = constraints.lower_to_target_degree_through_substitutions(info).unwrap();
    assert_eq!(0, substitution_count(&substitutions));
    assert_eq!(vec![x, ch], constraints.init.roots);

    let mut constant_only =
        Constraints::new(ConstraintSet::new(), ConstraintSet::new(), ConstraintSet::new(), term);
    let info = DegreeLoweringInfo {
        target_degree: 0,
        num_main_cols: 0,
        num_aux_cols: 0,
    };
    let substitutions = constant_only.lower_to_target_degree_through_substitutions(info).unwrap();
    assert_eq!(0, substitution_count(&substitutions));
}

#[test]
fn a_leaf_above_the_target_is_infeasible() {
    let mut init = ConstraintSet::new();
    let x = init.builder.input(SingleRowIndicator::Main(0));
    init.roots = vec![x];
    let info = DegreeLoweringInfo {
        target_degree: 0,
        num_main_cols: 0,
        num_aux_cols: 0,
    };
    let result = init.lower_to_degree(info);
    assert_eq!(Some(DegreeLoweringError::InfeasibleTargetDegree), result.err());
    assert_eq!(vec![x], init.roots);
}

#[test]
fn degree_two_root_cannot_be_lowered_to_one() {
    let mut tran = small_transition_constraints();
    let info = DegreeLoweringInfo {
        target_degree: 1,
        num_main_cols: 0,
        num_aux_cols: 0,
    };
    let result = tran.lower_to_degree(info);
    assert_eq!(Some(DegreeLoweringError::InfeasibleTargetDegree), result.err());
}

#[test]
fn column_counts_that_overflow_are_rejected_and_leave_the_constraints_alone() {
    let mut constraints = test_constraints();
    let init_roots = constraints.init.roots.clone();
    let init_len = constraints.init.builder.len();
    let tran_roots = constraints.tran.roots.clone();
    let info = DegreeLoweringInfo {
        target_degree: 4,
        num_main_cols: usize::MAX,
        num_aux_cols: 0,
    };
    let result = constraints.lower_to_target_degree_through_substitutions(info);
    assert_eq!(Some(DegreeLoweringError::TooManyColumns), result.err());
    assert_eq!(init_roots, constraints.init.roots);
    assert_eq!(init_len, constraints.init.builder.len());
    assert_eq!(tran_roots, constraints.tran.roots);
}

#[test]
fn leaf_roots_are_kept_while_others_are_rewritten() {
    let mut init = ConstraintSet::new();
    let x = init.builder.input(SingleRowIndicator::Main(0));
    let x2 = init.builder.mul(x, x);
    let x4 = init.builder.mul(x2, x2);
    let x8 = init.builder.mul(x4, x4);
    init.roots = vec![x, x8];
    let mut constraints =
        Constraints::new(init, ConstraintSet::new(), ConstraintSet::new(), ConstraintSet::new());
    let info = DegreeLoweringInfo {
        target_degree: 2,
        num_main_cols: 5,
        num_aux_cols: 0,
    };
    let substitutions = constraints.lower_to_target_degree_through_substitutions(info).unwrap();
    assert_eq!(2, constraints.init.roots.len());
    assert_eq!(x, constraints.init.roots[0]);
    assert_ne!(x8, constraints.init.roots[1]);
    assert!(max_degree(&constraints.init) <= 2);
    assert!(!substitutions.main.init.is_empty());
    assert_eq!(info, substitutions.main.lowering_info);
    assert_eq!(info, substitutions.aux.lowering_info);
}
