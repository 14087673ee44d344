use triton_constraints::air::ConstraintSource;
use triton_constraints::air::SmallConstraints;
use triton_constraints::air::sources;
use triton_constraints::circuit::BinOp;
use triton_constraints::circuit::CircuitExpression;
use triton_constraints::circuit::SingleRowIndicator;
use triton_constraints::constraints::Constraints;
use triton_constraints::lowering::DegreeLoweringInfo;

#[test]
fn sources_come_in_table_order_with_cross_table_arguments_last() {
    let all = sources();
    assert_eq!(10, all.len());
    assert_eq!(ConstraintSource::Program, all[0]);
    assert_eq!(ConstraintSource::Processor, all[1]);
    assert_eq!(ConstraintSource::U32, all[8]);
    assert_eq!(ConstraintSource::CrossTableArgument, all[9]);
}

#[test]
fn test_constraints_can_be_fetched() {
    let constraints = Constraints::all(&SmallConstraints);
    assert_eq!(3, constraints.init.roots.len());
    assert!(constraints.cons.roots.is_empty());
    assert_eq!(4, constraints.tran.roots.len());
    assert!(constraints.term.roots.is_empty());
    assert_eq!(0, constraints.cons.builder.len());
}

#[test]
fn bucket_functions_gather_one_bucket_each() {
    let init = Constraints::initial_constraints(&SmallConstraints);
    let degrees: Vec<usize> = init.roots.iter().map(|&r| init.builder.degree(r)).collect();
    assert_eq!(vec![2, 4, 5], degrees);
    match init.builder.node(init.roots[0]).expression {
        CircuitExpression::BinaryOperation(op, l, _) => {
            assert_eq!(BinOp::Sub, op);
            match init.builder.node(l).expression {
                CircuitExpression::BinaryOperation(BinOp::Mul, a, b) => {
                    match (init.builder.node(a).expression, init.builder.node(b).expression) {
                        (CircuitExpression::Input(x), CircuitExpression::Input(y)) => {
                            assert_eq!(SingleRowIndicator::Main(0), x);
                            assert_eq!(SingleRowIndicator::Main(1), y);
                        }
                        _ => panic!("two cells were expected"),
                    }
                }
                _ => panic!("a product was expected"),
            }
        }
        _ => panic!("a difference was expected"),
    }
    let tran = Constraints::transition_constraints(&SmallConstraints);
    let degrees: Vec<usize> = tran.roots.iter().map(|&r| tran.builder.degree(r)).collect();
    assert_eq!(vec![2, 2, 4, 2], degrees);
    assert!(Constraints::consistency_constraints(&SmallConstraints).roots.is_empty());
    assert!(Constraints::terminal_constraints(&SmallConstraints).roots.is_empty());
}

#[test]
fn degree_lowering_tables_code_can_be_generated_for_test_constraints() {
    let mut constraints = Constraints::all(&SmallConstraints);
    let info = DegreeLoweringInfo {
        target_degree: 4,
        num_main_cols: 42,
        num_aux_cols: 13,
    };
    let substitutions = constraints.lower_to_target_degree_through_substitutions(info).unwrap();
    assert_eq!(1, substitutions.main.init.len());
    assert!(substitutions.aux.init.is_empty());
    assert!(substitutions.main.tran.is_empty() && substitutions.aux.tran.is_empty());
    let combined = constraints.combine_with_substitution_induced_constraints(substitutions);
    for &r in combined.init.roots.iter() {
        assert!(combined.init.builder.degree(r) <= 4);
    }
    for &r in combined.tran.roots.iter() {
        assert!(combined.tran.builder.degree(r) <= 4);
    }
}
