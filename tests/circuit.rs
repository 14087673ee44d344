use triton_constraints::circuit::BinOp;
use triton_constraints::circuit::CircuitExpression;
use triton_constraints::circuit::ConstraintCircuitBuilder;
use triton_constraints::circuit::DualRowIndicator;
use triton_constraints::circuit::FIELD_MODULUS;
use triton_constraints::circuit::SingleRowIndicator;
use triton_constraints::constraints::ConstraintSet;
use triton_constraints::constraints::has_unique_ids;

#[test]
fn same_expression_built_twice_is_one_node() {
    let mut b = ConstraintCircuitBuilder::new();
    let x0 = b.input(SingleRowIndicator::Main(0));
    let x1 = b.input(SingleRowIndicator::Main(1));
    let first = b.mul(x0, x1);
    let len = b.len();
    let second = b.mul(x0, x1);
    assert_eq!(first, second);
    assert_eq!(len, b.len());
    assert_eq!(x0, b.input(SingleRowIndicator::Main(0)));
}

#[test]
fn independent_sums_collapse_and_square_has_degree_two() {
    let mut b = ConstraintCircuitBuilder::new();
    let a = b.input(SingleRowIndicator::Main(0));
    let c = b.input(SingleRowIndicator::Aux(3));
    let sum_1 = b.add(a, c);
    let a_again = b.input(SingleRowIndicator::Main(0));
    let c_again = b.input(SingleRowIndicator::Aux(3));
    let sum_2 = b.add(a_again, c_again);
    assert_eq!(sum_1, sum_2);
    let square = b.mul(sum_1, sum_2);
    assert_eq!(2, b.degree(square));
    assert_eq!(1, b.degree(sum_1));
    assert_eq!(4, b.len());
}

#[test]
fn operand_order_matters_for_identity() {
    let mut b = ConstraintCircuitBuilder::new();
    let x = b.input(SingleRowIndicator::Main(0));
    let y = b.input(SingleRowIndicator::Main(1));
    let d1 = b.sub(x, y);
    let d2 = b.sub(y, x);
    assert_ne!(d1, d2);
}

#[test]
fn degrees_follow_the_operations() {
    let mut b = ConstraintCircuitBuilder::new();
    let x = b.input(DualRowIndicator::CurrentMain(0));
    let y = b.input(DualRowIndicator::NextAux(2));
    let ch = b.challenge(1);
    let k = b.b_constant(16);
    assert_eq!(1, b.degree(x));
    assert_eq!(1, b.degree(ch));
    assert_eq!(0, b.degree(k));
    let xy = b.mul(x, y);
    let xyx = b.mul(xy, x);
    assert_eq!(3, b.degree(xyx));
    let s = b.add(xyx, y);
    assert_eq!(3, b.degree(s));
    let d = b.sub(k, xy);
    assert_eq!(2, b.degree(d));
    let kk = b.mul(k, k);
    assert_eq!(0, b.degree(kk));
}

#[test]
fn value_type_is_base_only_without_aux_or_challenge() {
    let mut b = ConstraintCircuitBuilder::new();
    let x = b.input(SingleRowIndicator::Main(0));
    let y = b.input(SingleRowIndicator::Aux(0));
    let ch = b.challenge(0);
    let k = b.b_constant(3);
    let xk = b.mul(x, k);
    assert!(b.evaluates_to_base_element(xk));
    let xy = b.mul(x, y);
    assert!(!b.evaluates_to_base_element(xy));
    let xch = b.add(x, ch);
    assert!(!b.evaluates_to_base_element(xch));
    let xc = b.x_constant(5);
    assert!(!b.evaluates_to_base_element(xc));
}

#[test]
fn constants_are_reduced_into_the_field() {
    let mut b: ConstraintCircuitBuilder<SingleRowIndicator> = ConstraintCircuitBuilder::new();
    let small = b.b_constant(7);
    let wrapped = b.b_constant(FIELD_MODULUS + 7);
    assert_eq!(small, wrapped);
    match b.node(small).expression {
        CircuitExpression::BConstant(v) => assert_eq!(7, v),
        _ => panic!("a constant leaf was expected"),
    }
    let x = b.x_constant(FIELD_MODULUS);
    match b.node(x).expression {
        CircuitExpression::XConstant(c0, c1, c2) => assert_eq!((0, 0, 0), (c0, c1, c2)),
        _ => panic!("an extension constant leaf was expected"),
    }
}

#[test]
fn operation_nodes_record_their_operands() {
    let mut b = ConstraintCircuitBuilder::new();
    let x = b.input(SingleRowIndicator::Main(4));
    let y = b.input(SingleRowIndicator::Main(5));
    let p = b.mul(x, y);
    match b.node(p).expression {
        CircuitExpression::BinaryOperation(op, l, r) => {
            assert_eq!(BinOp::Mul, op);
            assert_eq!((x, y), (l, r));
        }
        _ => panic!("an operation node was expected"),
    }
}

#[test]
fn consumed_circuits_have_unique_ids() {
    let mut set = ConstraintSet::new();
    let x = set.builder.input(SingleRowIndicator::Main(0));
    let y = set.builder.input(SingleRowIndicator::Main(1));
    let xy = set.builder.mul(x, y);
    let xy_again = set.builder.mul(x, y);
    let root = set.builder.sub(xy, xy_again);
    set.roots.push(root);
    set.roots.push(xy);
    let consumed = set.consume();
    assert_eq!(vec![root, xy], consumed.roots);
    assert_eq!(4, consumed.nodes.len());
    assert!(has_unique_ids(&consumed.nodes));
}

#[test]
fn duplicate_nodes_are_detected() {
    let mut b = ConstraintCircuitBuilder::new();
    let x = b.input(SingleRowIndicator::Main(0));
    let node = b.node(x);
    assert!(has_unique_ids(&vec![node]));
    assert!(!has_unique_ids(&vec![node, node]));
}

#[test]
fn extension_constants_take_three_coefficients() {
    let mut b: ConstraintCircuitBuilder<SingleRowIndicator> = ConstraintCircuitBuilder::new();
    let c = b.x_constant_from_coefficients(1, FIELD_MODULUS + 2, 3);
    match b.node(c).expression {
        CircuitExpression::XConstant(c0, c1, c2) => assert_eq!((1, 2, 3), (c0, c1, c2)),
        _ => panic!("an extension constant leaf was expected"),
    }
    assert_eq!(0, b.degree(c));
    assert!(!b.evaluates_to_base_element(c));
    let lifted = b.x_constant(7);
    let same = b.x_constant_from_coefficients(7, 0, 0);
    assert_eq!(lifted, same);
}
