//! Degree lowering: rewriting a set of circuits so that each has degree at most a target, by
//! moving subexpressions into new columns. Each moved subexpression `c` gets a new column `x`, a
//! leaf that reads `x` takes the place of `c` in every circuit, and the constraint `x - c` is
//! emitted.
//!
//! Which node moves: among the nodes of degree between 2 and the target that are an operand of a
//! node, reachable from some root, whose degree exceeds the target, the one of highest degree; of
//! several such, the one built first.

use vstd::prelude::*;

use crate::circuit::BinOp;
use crate::circuit::CircuitExpression;
use crate::circuit::CircuitNode;
use crate::circuit::ConstraintCircuitBuilder;
use crate::circuit::InputIndicator;
use crate::circuit::extends;
use crate::circuit::intern_spec;
use crate::circuit::lemma_wf_node;
use crate::circuit::nodes_wf;

verus! {

/// The number of nodes of the circuit rooted at `id`, counted as a tree: a node that two
/// operations share counts twice.
pub open spec fn tree_size<II>(nodes: Seq<CircuitNode<II>>, id: int) -> nat
    decreases id,
{
    if 0 <= id < nodes.len() {
        match nodes[id].expression {
            CircuitExpression::BinaryOperation(_, l, r) => if l < id && r < id {
                1 + tree_size(nodes, l as int) + tree_size(nodes, r as int)
            } else {
                1
            },
            _ => 1,
        }
    } else {
        1
    }
}

/// Whether node `target` occurs in the circuit rooted at `id`.
pub open spec fn occurs<II>(nodes: Seq<CircuitNode<II>>, id: int, target: int) -> bool
    decreases id,
{
    if id == target {
        true
    } else if 0 <= id < nodes.len() {
        match nodes[id].expression {
            CircuitExpression::BinaryOperation(_, l, r) => if l < id && r < id {
                occurs(nodes, l as int, target) || occurs(nodes, r as int, target)
            } else {
                false
            },
            _ => false,
        }
    } else {
        false
    }
}

/// The summed tree sizes of the circuits of all roots.
pub open spec fn forest_size<II>(nodes: Seq<CircuitNode<II>>, roots: Seq<usize>) -> nat
    decreases roots.len(),
{
    if roots.len() == 0 {
        0
    } else {
        forest_size(nodes, roots.drop_last()) + tree_size(nodes, roots.last() as int)
    }
}

/// Whether node `x` occurs in the circuit of some root.
pub open spec fn reachable<II>(nodes: Seq<CircuitNode<II>>, roots: Seq<usize>, x: int) -> bool {
    exists|k: int| 0 <= k < roots.len() && #[trigger] occurs(nodes, roots[k] as int, x)
}

/// Every root has degree at most `d`.
pub open spec fn degrees_at_most<II>(nodes: Seq<CircuitNode<II>>, roots: Seq<usize>, d: int) -> bool {
    forall|k: int| 0 <= k < roots.len() ==> nodes[#[trigger] roots[k] as int].degree <= d
}

/// Every root is a node of the arena.
pub open spec fn roots_in<II>(nodes: Seq<CircuitNode<II>>, roots: Seq<usize>) -> bool {
    forall|k: int| 0 <= k < roots.len() ==> #[trigger] roots[k] < nodes.len()
}

/// If `x` is a marked operation, its operands are marked too.
pub open spec fn operands_marked<II>(nodes: Seq<CircuitNode<II>>, marks: Seq<bool>, x: int) -> bool {
    match nodes[x].expression {
        CircuitExpression::BinaryOperation(_, l, r) => marks[l as int] && marks[r as int],
        _ => true,
    }
}

/// Node `c` is an operand of node `p`.
pub open spec fn is_operand_of<II>(nodes: Seq<CircuitNode<II>>, c: int, p: int) -> bool {
    0 <= p < nodes.len() && match nodes[p].expression {
        CircuitExpression::BinaryOperation(_, l, r) => l == c || r == c,
        _ => false,
    }
}

/// Node `c` has degree between 2 and `target` and is an operand of a marked node, below index
/// `bound`, whose degree exceeds `target`.
pub open spec fn candidate_below<II>(
    nodes: Seq<CircuitNode<II>>,
    marks: Seq<bool>,
    target: int,
    c: int,
    bound: int,
) -> bool {
    &&& 0 <= c < nodes.len()
    &&& 2 <= nodes[c].degree <= target
    &&& exists|p: int|
        0 <= p < bound && marks[p] && nodes[p].degree > target && #[trigger] is_operand_of(
            nodes,
            c,
            p,
        )
}

/// Node `c` may be moved into a new column when lowering to `target`.
pub open spec fn is_candidate<II>(nodes: Seq<CircuitNode<II>>, marks: Seq<bool>, target: int, c: int) -> bool {
    candidate_below(nodes, marks, target, c, nodes.len() as int)
}

/// Node `c` comes no later than node `d` in the selection order: higher degree first, then lower
/// index.
pub open spec fn precedes<II>(nodes: Seq<CircuitNode<II>>, c: int, d: int) -> bool {
    nodes[c].degree > nodes[d].degree || (nodes[c].degree == nodes[d].degree && c <= d)
}

/// Node `id` is the constraint `x - c` that defines a new column: `x` is a leaf reading the cell
/// `indicator`, and `c` is the moved node, of degree between 2 and `target`, whose value lies
/// in the base field exactly when `main` holds.
pub open spec fn is_substitution<II>(
    nodes: Seq<CircuitNode<II>>,
    id: int,
    indicator: II,
    main: bool,
    target: int,
) -> bool {
    &&& 0 <= id < nodes.len()
    &&& nodes[id].degree <= target
    &&& match nodes[id].expression {
        CircuitExpression::BinaryOperation(op, x, c) => {
            &&& op == BinOp::Sub
            &&& x < nodes.len()
            &&& c < nodes.len()
            &&& nodes[x as int].expression == CircuitExpression::Input(indicator)
            &&& 2 <= nodes[c as int].degree <= target
            &&& nodes[c as int].evaluates_to_base == main
        },
        _ => false,
    }
}

/// The `k`-th of `constraints` defines main column `first + k` (when `main`) or auxiliary
/// column `first + k`, for every `k`.
#[verifier::opaque]
pub open spec fn substitutions_wf<II: InputIndicator>(
    nodes: Seq<CircuitNode<II>>,
    constraints: Seq<usize>,
    first: int,
    main: bool,
    target: int,
) -> bool {
    forall|k: int|
        0 <= k < constraints.len() ==> is_substitution(
            nodes,
            #[trigger] constraints[k] as int,
            if main {
                II::spec_main_table_input((first + k) as nat)
            } else {
                II::spec_aux_table_input((first + k) as nat)
            },
            main,
            target,
        )
}

/// The configuration of degree lowering: the target degree, and how many main and auxiliary
/// columns exist already. New columns are numbered after the existing ones.
#[derive(Debug, Clone, Copy, PartialEq, Eq, Hash, Structural)]
pub struct DegreeLoweringInfo {
    pub target_degree: usize,
    pub num_main_cols: usize,
    pub num_aux_cols: usize,
}

/// Why degree lowering failed.
#[derive(Debug, Clone, Copy, PartialEq, Eq, Hash, Structural)]
pub enum DegreeLoweringError {
    /// Some circuit exceeds the target degree and no node can be moved to bring it down: the
    /// target is below 2.
    InfeasibleTargetDegree,
    /// A new column's index would not fit a `usize`.
    TooManyColumns,
}

/// The circuit rooted at `id` with every occurrence of node `target` replaced by node `leaf`:
/// the arena after the rewrite and the new root. Operations above a replaced node are built
/// again, in operand order, left before right.
pub open spec fn substitute_spec<II: InputIndicator>(
    nodes: Seq<CircuitNode<II>>,
    id: int,
    target: int,
    leaf: int,
) -> (Seq<CircuitNode<II>>, int)
    decreases id,
{
    if id == target {
        (nodes, leaf)
    } else if 0 <= id < nodes.len() {
        match nodes[id].expression {
            CircuitExpression::BinaryOperation(op, l, r) => if l < id && r < id {
                let (n1, nl) = substitute_spec(nodes, l as int, target, leaf);
                let (n2, nr) = substitute_spec(n1, r as int, target, leaf);
                let (n3, n) = intern_spec(
                    n2,
                    CircuitExpression::BinaryOperation(op, nl as usize, nr as usize),
                );
                (n3, n as int)
            } else {
                (nodes, id)
            },
            _ => (nodes, id),
        }
    } else {
        (nodes, id)
    }
}

/// Every root rewritten by `substitute_spec`, first to last, each in the arena that the one
/// before left.
pub open spec fn substitute_roots<II: InputIndicator>(
    nodes: Seq<CircuitNode<II>>,
    roots: Seq<usize>,
    target: int,
    leaf: int,
) -> (Seq<CircuitNode<II>>, Seq<usize>)
    decreases roots.len(),
{
    if roots.len() == 0 {
        (nodes, roots)
    } else {
        let (n1, r1) = substitute_roots(nodes, roots.drop_last(), target, leaf);
        let (n2, x) = substitute_spec(n1, roots.last() as int, target, leaf);
        (n2, r1.push(x as usize))
    }
}

/// The marks of the nodes that occur in some root's circuit.
pub open spec fn spec_marks<II>(nodes: Seq<CircuitNode<II>>, roots: Seq<usize>) -> Seq<bool> {
    Seq::new(nodes.len(), |x: int| reachable(nodes, roots, x))
}

/// The node that lowering moves next: the candidate that comes first in the selection order.
pub open spec fn spec_pick<II>(nodes: Seq<CircuitNode<II>>, marks: Seq<bool>, target: int) -> Option<
    usize,
> {
    if exists|c: int| is_candidate(nodes, marks, target, c) {
        Some(
            (choose|c: int|
                is_candidate(nodes, marks, target, c) && forall|d: int|
                    #[trigger] is_candidate(nodes, marks, target, d) ==> precedes(nodes, c, d)) as usize,
        )
    } else {
        None
    }
}

/// One round of lowering that moves node `c` into the column `indicator` reads: the arena
/// after it, the roots with a leaf reading that column in place of `c`, and the constraint
/// `leaf - c`.
#[verifier::opaque]
pub open spec fn round_spec<II: InputIndicator>(
    nodes: Seq<CircuitNode<II>>,
    roots: Seq<usize>,
    c: usize,
    indicator: II,
) -> (Seq<CircuitNode<II>>, Seq<usize>, nat) {
    let (n1, leaf) = intern_spec(nodes, CircuitExpression::Input(indicator));
    let (n2, roots2) = substitute_roots(n1, roots, c as int, leaf as int);
    let (n3, con) = intern_spec(n2, CircuitExpression::BinaryOperation(BinOp::Sub, leaf as usize, c));
    (n3, roots2, con)
}

/// The outcome of lowering: the arena, the rewritten roots, and the constraints that define the
/// new main and auxiliary columns.
pub type Lowered<II> = (Seq<CircuitNode<II>>, Seq<usize>, Seq<usize>, Seq<usize>);

/// Lowering from a state in which the constraints `main` and `aux` were emitted already, for at
/// most `fuel` more rounds. In each round the first candidate moves into the next column of its
/// side; lowering stops when every root meets the target.
#[verifier::opaque]
pub open spec fn lower_spec<II: InputIndicator>(
    nodes: Seq<CircuitNode<II>>,
    roots: Seq<usize>,
    main: Seq<usize>,
    aux: Seq<usize>,
    info: DegreeLoweringInfo,
    fuel: nat,
) -> Result<Lowered<II>, DegreeLoweringError>
    decreases fuel,
{
    let target = info.target_degree as int;
    if degrees_at_most(nodes, roots, target) {
        Ok((nodes, roots, main, aux))
    } else if fuel == 0 {
        Err(DegreeLoweringError::InfeasibleTargetDegree)
    } else {
        match spec_pick(nodes, spec_marks(nodes, roots), target) {
            None => Err(DegreeLoweringError::InfeasibleTargetDegree),
            Some(c) => {
                let is_main = nodes[c as int].evaluates_to_base;
                if (is_main && info.num_main_cols + main.len() > usize::MAX) || (!is_main
                    && info.num_aux_cols + aux.len() > usize::MAX) {
                    Err(DegreeLoweringError::TooManyColumns)
                } else {
                    let indicator = if is_main {
                        II::spec_main_table_input((info.num_main_cols + main.len()) as nat)
                    } else {
                        II::spec_aux_table_input((info.num_aux_cols + aux.len()) as nat)
                    };
                    let (n3, roots2, con) = round_spec(nodes, roots, c, indicator);
                    if is_main {
                        lower_spec(n3, roots2, main.push(con as usize), aux, info, (fuel - 1) as nat)
                    } else {
                        lower_spec(n3, roots2, main, aux.push(con as usize), info, (fuel - 1) as nat)
                    }
                }
            },
        }
    }
}

/// Lowering stops where every root meets the target.
pub proof fn lemma_lower_spec_done<II: InputIndicator>(
    nodes: Seq<CircuitNode<II>>,
    roots: Seq<usize>,
    main: Seq<usize>,
    aux: Seq<usize>,
    info: DegreeLoweringInfo,
    fuel: nat,
)
    requires
        degrees_at_most(nodes, roots, info.target_degree as int),
    ensures
        lower_spec(nodes, roots, main, aux, info, fuel) == Ok::<Lowered<II>, DegreeLoweringError>(
            (nodes, roots, main, aux),
        ),
{
    reveal(lower_spec);
}

/// Lowering fails where a root exceeds the target and no node can move, or where the next
/// column's index does not fit.
pub proof fn lemma_lower_spec_fails<II: InputIndicator>(
    nodes: Seq<CircuitNode<II>>,
    roots: Seq<usize>,
    main: Seq<usize>,
    aux: Seq<usize>,
    info: DegreeLoweringInfo,
    fuel: nat,
)
    requires
        !degrees_at_most(nodes, roots, info.target_degree as int),
        fuel > 0,
    ensures
        spec_pick(nodes, spec_marks(nodes, roots), info.target_degree as int) is None ==> lower_spec(
            nodes,
            roots,
            main,
            aux,
            info,
            fuel,
        ) == Err::<Lowered<II>, DegreeLoweringError>(DegreeLoweringError::InfeasibleTargetDegree),
        spec_pick(nodes, spec_marks(nodes, roots), info.target_degree as int) is Some ==> {
            let c = spec_pick(nodes, spec_marks(nodes, roots), info.target_degree as int)->Some_0;
            let is_main = nodes[c as int].evaluates_to_base;
            (is_main && info.num_main_cols + main.len() > usize::MAX) || (!is_main
                && info.num_aux_cols + aux.len() > usize::MAX) ==> lower_spec(
                nodes,
                roots,
                main,
                aux,
                info,
                fuel,
            ) == Err::<Lowered<II>, DegreeLoweringError>(DegreeLoweringError::TooManyColumns)
        },
{
    reveal(lower_spec);
}

/// One round of lowering: the first candidate moves into the next column of its side.
#[verifier::rlimit(50)]
pub proof fn lemma_lower_spec_step<II: InputIndicator>(
    nodes: Seq<CircuitNode<II>>,
    roots: Seq<usize>,
    main: Seq<usize>,
    aux: Seq<usize>,
    info: DegreeLoweringInfo,
    fuel: nat,
    c: usize,
    indicator: II,
)
    requires
        !degrees_at_most(nodes, roots, info.target_degree as int),
        fuel > 0,
        spec_pick(nodes, spec_marks(nodes, roots), info.target_degree as int) == Some(c),
        nodes[c as int].evaluates_to_base ==> info.num_main_cols + main.len() <= usize::MAX,
        !nodes[c as int].evaluates_to_base ==> info.num_aux_cols + aux.len() <= usize::MAX,
        indicator == if nodes[c as int].evaluates_to_base {
            II::spec_main_table_input((info.num_main_cols + main.len()) as nat)
        } else {
            II::spec_aux_table_input((info.num_aux_cols + aux.len()) as nat)
        },
    ensures
        ({
            let (n3, roots2, con) = round_spec(nodes, roots, c, indicator);
            lower_spec(nodes, roots, main, aux, info, fuel) == if nodes[c as int].evaluates_to_base {
                lower_spec(n3, roots2, main.push(con as usize), aux, info, (fuel - 1) as nat)
            } else {
                lower_spec(n3, roots2, main, aux.push(con as usize), info, (fuel - 1) as nat)
            }
        }),
{
    reveal(lower_spec);
}

/// Lowering the circuits of `roots` to `info.target_degree`, from scratch.
pub open spec fn lowering_of<II: InputIndicator>(
    nodes: Seq<CircuitNode<II>>,
    roots: Seq<usize>,
    info: DegreeLoweringInfo,
) -> Result<Lowered<II>, DegreeLoweringError> {
    lower_spec(nodes, roots, Seq::empty(), Seq::empty(), info, forest_size(nodes, roots))
}

/// Degree lowering is deterministic: the same circuits, target degree and column counts give
/// the same arena, the same rewritten roots, and the same substitutions, column for column.
pub proof fn lemma_lowering_is_deterministic<II: InputIndicator>(
    nodes1: Seq<CircuitNode<II>>,
    roots1: Seq<usize>,
    nodes2: Seq<CircuitNode<II>>,
    roots2: Seq<usize>,
    info: DegreeLoweringInfo,
)
    requires
        nodes1 == nodes2,
        roots1 == roots2,
    ensures
        lowering_of(nodes1, roots1, info) == lowering_of(nodes2, roots2, info),
{
}

/// Every node that occurs in some root's circuit is marked, when the roots are marked and the
/// marks are closed under taking operands.
pub proof fn lemma_marks_complete<II: InputIndicator>(
    nodes: Seq<CircuitNode<II>>,
    marks: Seq<bool>,
    id: int,
    x: int,
)
    requires
        nodes_wf(nodes),
        marks.len() == nodes.len(),
        forall|y: int| 0 <= y < marks.len() && #[trigger] marks[y] ==> operands_marked(nodes, marks, y),
        0 <= id < nodes.len(),
        marks[id],
        occurs(nodes, id, x),
    ensures
        marks[x],
    decreases id,
{
    if id != x {
        lemma_wf_node(nodes, id);
        assert(operands_marked(nodes, marks, id));
        match nodes[id].expression {
            CircuitExpression::BinaryOperation(_, l, r) => {
                if occurs(nodes, l as int, x) {
                    lemma_marks_complete(nodes, marks, l as int, x);
                } else {
                    lemma_marks_complete(nodes, marks, r as int, x);
                }
            },
            _ => {},
        }
    }
}

/// Tree sizes depend only on the nodes they reach, which an extension keeps.
pub proof fn lemma_tree_size_frame<II>(a: Seq<CircuitNode<II>>, b: Seq<CircuitNode<II>>, id: int)
    requires
        extends(a, b),
        0 <= id < a.len(),
    ensures
        tree_size(b, id) == tree_size(a, id),
    decreases id,
{
    assert(b[id] == a[id]);
    match a[id].expression {
        CircuitExpression::BinaryOperation(_, l, r) => {
            if l < id && r < id {
                lemma_tree_size_frame(a, b, l as int);
                lemma_tree_size_frame(a, b, r as int);
            }
        },
        _ => {},
    }
}

/// Occurrence depends only on the nodes it reaches, which an extension keeps.
pub proof fn lemma_occurs_frame<II>(a: Seq<CircuitNode<II>>, b: Seq<CircuitNode<II>>, id: int, t: int)
    requires
        extends(a, b),
        0 <= id < a.len(),
    ensures
        occurs(b, id, t) == occurs(a, id, t),
    decreases id,
{
    assert(b[id] == a[id]);
    if id != t {
        match a[id].expression {
            CircuitExpression::BinaryOperation(_, l, r) => {
                if l < id && r < id {
                    lemma_occurs_frame(a, b, l as int, t);
                    lemma_occurs_frame(a, b, r as int, t);
                }
            },
            _ => {},
        }
    }
}

/// The operands of a node that occurs in a circuit occur in it too.
pub proof fn lemma_occurs_operand<II: InputIndicator>(
    nodes: Seq<CircuitNode<II>>,
    id: int,
    p: int,
    c: int,
)
    requires
        nodes_wf(nodes),
        0 <= id < nodes.len(),
        occurs(nodes, id, p),
        is_operand_of(nodes, c, p),
    ensures
        occurs(nodes, id, c),
    decreases id,
{
    lemma_wf_node(nodes, p);
    if id == p {
        match nodes[p].expression {
            CircuitExpression::BinaryOperation(_, l, r) => {
                assert(occurs(nodes, l as int, l as int));
                assert(occurs(nodes, r as int, r as int));
            },
            _ => {},
        }
    } else {
        lemma_wf_node(nodes, id);
        match nodes[id].expression {
            CircuitExpression::BinaryOperation(_, l, r) => {
                if occurs(nodes, l as int, p) {
                    lemma_occurs_operand(nodes, l as int, p, c);
                } else {
                    lemma_occurs_operand(nodes, r as int, p, c);
                }
            },
            _ => {},
        }
    }
}

/// Shrinking the circuit of each root (and of at least one strictly) shrinks the forest.
pub proof fn lemma_forest_size_shrinks<II>(
    a: Seq<CircuitNode<II>>,
    ra: Seq<usize>,
    b: Seq<CircuitNode<II>>,
    rb: Seq<usize>,
)
    requires
        ra.len() == rb.len(),
        forall|k: int|
            0 <= k < ra.len() ==> tree_size(b, #[trigger] rb[k] as int) <= tree_size(a, ra[k] as int),
    ensures
        forest_size(b, rb) <= forest_size(a, ra),
        (exists|k: int|
            0 <= k < ra.len() && tree_size(b, #[trigger] rb[k] as int) < tree_size(a, ra[k] as int))
            ==> forest_size(b, rb) < forest_size(a, ra),
    decreases ra.len(),
{
    if ra.len() > 0 {
        let n = ra.len() - 1;
        assert forall|k: int| 0 <= k < n implies tree_size(
            b,
            #[trigger] rb.drop_last()[k] as int,
        ) <= tree_size(a, ra.drop_last()[k] as int) by {
            assert(rb.drop_last()[k] == rb[k] && ra.drop_last()[k] == ra[k]);
        }
        lemma_forest_size_shrinks(a, ra.drop_last(), b, rb.drop_last());
        assert(tree_size(b, rb[n] as int) <= tree_size(a, ra[n] as int));
        if exists|k: int|
            0 <= k < ra.len() && tree_size(b, #[trigger] rb[k] as int) < tree_size(a, ra[k] as int) {
            let k = choose|k: int|
                0 <= k < ra.len() && tree_size(b, #[trigger] rb[k] as int) < tree_size(
                    a,
                    ra[k] as int,
                );
            if k < n {
                assert(rb.drop_last()[k] == rb[k] && ra.drop_last()[k] == ra[k]);
                assert(tree_size(b, rb.drop_last()[k] as int) < tree_size(a, ra.drop_last()[k] as int));
            }
        }
    }
}

/// Substitution records depend only on the nodes they name, which an extension keeps.
pub proof fn lemma_substitutions_frame<II: InputIndicator>(
    a: Seq<CircuitNode<II>>,
    b: Seq<CircuitNode<II>>,
    constraints: Seq<usize>,
    first: int,
    main: bool,
    target: int,
)
    requires
        extends(a, b),
        substitutions_wf(a, constraints, first, main, target),
    ensures
        substitutions_wf(b, constraints, first, main, target),
{
    reveal(substitutions_wf);
    assert forall|k: int| 0 <= k < constraints.len() implies is_substitution(
        b,
        #[trigger] constraints[k] as int,
        if main {
            II::spec_main_table_input((first + k) as nat)
        } else {
            II::spec_aux_table_input((first + k) as nat)
        },
        main,
        target,
    ) by {
        let id = constraints[k] as int;
        assert(is_substitution(
            a,
            id,
            if main {
                II::spec_main_table_input((first + k) as nat)
            } else {
                II::spec_aux_table_input((first + k) as nat)
            },
            main,
            target,
        ));
        assert(b[id] == a[id]);
        match a[id].expression {
            CircuitExpression::BinaryOperation(_, x, c) => {
                assert(b[x as int] == a[x as int]);
                assert(b[c as int] == a[c as int]);
            },
            _ => {},
        }
    }
}

/// One round of lowering shrinks the forest: every root's circuit got no larger, the one that
/// held the moved node `c` got strictly smaller, and the arena only grew around it.
pub proof fn lemma_round_shrinks_forest<II>(
    pre: Seq<CircuitNode<II>>,
    before: Seq<CircuitNode<II>>,
    after: Seq<CircuitNode<II>>,
    fin: Seq<CircuitNode<II>>,
    old_roots: Seq<usize>,
    roots: Seq<usize>,
    kc: int,
    c: int,
)
    requires
        extends(pre, before),
        extends(after, fin),
        roots_in(pre, old_roots),
        roots.len() == old_roots.len(),
        0 <= kc < old_roots.len(),
        occurs(before, old_roots[kc] as int, c),
        forall|j: int|
            0 <= j < roots.len() ==> #[trigger] roots[j] < after.len() && tree_size(
                after,
                roots[j] as int,
            ) <= tree_size(before, old_roots[j] as int) && (occurs(
                before,
                old_roots[j] as int,
                c,
            ) ==> tree_size(after, roots[j] as int) < tree_size(before, old_roots[j] as int)),
    ensures
        forest_size(fin, roots) < forest_size(pre, old_roots),
        roots_in(fin, roots),
{
    assert forall|j: int| 0 <= j < roots.len() implies tree_size(fin, #[trigger] roots[j] as int)
        <= tree_size(before, old_roots[j] as int) by {
        lemma_tree_size_frame(after, fin, roots[j] as int);
    }
    assert(tree_size(fin, roots[kc] as int) < tree_size(before, old_roots[kc] as int)) by {
        lemma_tree_size_frame(after, fin, roots[kc] as int);
    }
    lemma_forest_size_shrinks(before, old_roots, fin, roots);
    assert forall|j: int| 0 <= j < old_roots.len() implies tree_size(
        before,
        #[trigger] old_roots[j] as int,
    ) <= tree_size(pre, old_roots[j] as int) by {
        lemma_tree_size_frame(pre, before, old_roots[j] as int);
    }
    lemma_forest_size_shrinks(pre, old_roots, before, old_roots);
    assert forall|j: int| 0 <= j < roots.len() implies #[trigger] roots[j] < fin.len() by {}
}

/// Appending the constraint that defines the next column keeps a substitution record in shape.
pub proof fn lemma_push_substitution<II: InputIndicator>(
    nodes: Seq<CircuitNode<II>>,
    constraints: Seq<usize>,
    first: int,
    main: bool,
    target: int,
    constraint: usize,
)
    requires
        substitutions_wf(nodes, constraints, first, main, target),
        is_substitution(
            nodes,
            constraint as int,
            if main {
                II::spec_main_table_input((first + constraints.len()) as nat)
            } else {
                II::spec_aux_table_input((first + constraints.len()) as nat)
            },
            main,
            target,
        ),
    ensures
        substitutions_wf(nodes, constraints.push(constraint), first, main, target),
{
    reveal(substitutions_wf);
    let all = constraints.push(constraint);
    assert forall|j: int| 0 <= j < all.len() implies is_substitution(
        nodes,
        #[trigger] all[j] as int,
        if main {
            II::spec_main_table_input((first + j) as nat)
        } else {
            II::spec_aux_table_input((first + j) as nat)
        },
        main,
        target,
    ) by {
        if j < constraints.len() {
            assert(all[j] == constraints[j]);
        }
    }
}

/// A marked node whose degree exceeds a target of at least 2 has a candidate beneath it, when
/// the marks are closed under taking operands.
pub proof fn lemma_candidate_exists<II: InputIndicator>(
    nodes: Seq<CircuitNode<II>>,
    marks: Seq<bool>,
    target: int,
    p: int,
)
    requires
        nodes_wf(nodes),
        marks.len() == nodes.len(),
        forall|x: int| 0 <= x < marks.len() && #[trigger] marks[x] ==> operands_marked(nodes, marks, x),
        0 <= p < nodes.len(),
        marks[p],
        nodes[p].degree > target,
        target >= 2,
    ensures
        exists|c: int| is_candidate(nodes, marks, target, c),
    decreases p,
{
    lemma_wf_node(nodes, p);
    lemma_wf_node(nodes, p);
    assert(operands_marked(nodes, marks, p));
    match nodes[p].expression {
        CircuitExpression::BinaryOperation(_, l, r) => {
            assert(is_operand_of(nodes, l as int, p));
            assert(is_operand_of(nodes, r as int, p));
            if 2 <= nodes[l as int].degree <= target {
                assert(is_candidate(nodes, marks, target, l as int));
            } else if 2 <= nodes[r as int].degree <= target {
                assert(is_candidate(nodes, marks, target, r as int));
            } else if nodes[l as int].degree > target {
                lemma_candidate_exists(nodes, marks, target, l as int);
            } else if nodes[r as int].degree > target {
                lemma_candidate_exists(nodes, marks, target, r as int);
            }
        },
        _ => {},
    }
}

impl<II: InputIndicator> ConstraintCircuitBuilder<II> {
    /// The circuit rooted at `id` with every occurrence of node `target` replaced by node `leaf`.
    /// Nodes that do not change are kept; those above a replaced node are built anew.
    pub fn substitute(&mut self, id: usize, target: usize, leaf: usize) -> (r: usize)
        requires
            old(self).wf(),
            id < old(self)@.len(),
            target < old(self)@.len(),
            leaf < old(self)@.len(),
            old(self)@[leaf as int].degree <= old(self)@[target as int].degree,
            tree_size(old(self)@, leaf as int) == 1,
            tree_size(old(self)@, target as int) > 1,
        ensures
            final(self).wf(),
            extends(old(self)@, final(self)@),
            r < final(self)@.len(),
            final(self)@[r as int].degree <= old(self)@[id as int].degree,
            tree_size(final(self)@, r as int) <= tree_size(old(self)@, id as int),
            occurs(old(self)@, id as int, target as int) ==> tree_size(final(self)@, r as int)
                < tree_size(old(self)@, id as int),
            (final(self)@, r as int) == substitute_spec(
                old(self)@,
                id as int,
                target as int,
                leaf as int,
            ),
            !(old(self)@[id as int].expression is BinaryOperation) && id != target ==> r == id,
        decreases id,
    {
        if id == target {
            return leaf;
        }
        let node = self.node(id);
        proof {
            lemma_wf_node(self@, id as int);
        }
        match node.expression {
            CircuitExpression::BinaryOperation(op, l, r) => {
                let ghost start = self@;
                let nl = self.substitute(l, target, leaf);
                let ghost mid = self@;
                proof {
                    lemma_tree_size_frame(start, mid, leaf as int);
                    lemma_tree_size_frame(start, mid, target as int);
                    lemma_tree_size_frame(start, mid, r as int);
                    lemma_occurs_frame(start, mid, r as int, target as int);
                }
                let nr = self.substitute(r, target, leaf);
                let ghost before = self@;
                proof {
                    lemma_tree_size_frame(mid, before, nl as int);
                    assert(self@[nl as int] == mid[nl as int]);
                }
                let e = CircuitExpression::BinaryOperation(op, nl, nr);
                let n = self.intern(e);
                proof {
                    lemma_tree_size_frame(before, self@, nl as int);
                    lemma_tree_size_frame(before, self@, nr as int);
                    assert(self@[nl as int] == before[nl as int]);
                    assert(self@[nr as int] == before[nr as int]);
                    lemma_wf_node(self@, n as int);
                    lemma_tree_size_frame(start, self@, id as int);
                }
                n
            },
            _ => id,
        }
    }

    /// Whether some root's degree exceeds `d`.
    pub fn roots_exceed(&self, roots: &Vec<usize>, d: usize) -> (r: bool)
        requires
            roots_in(self@, roots@),
        ensures
            r == !degrees_at_most(self@, roots@, d as int),
    {
        let mut k: usize = 0;
        while k < roots.len()
            invariant
                roots_in(self@, roots@),
                degrees_at_most(self@, roots@.take(k as int), d as int),
                k <= roots.len(),
            decreases roots.len() - k,
        {
            if self.degree(roots[k]) > d {
                proof {
                    assert(!degrees_at_most(self@, roots@, d as int)) by {
                        assert(self@[roots@[k as int] as int].degree > d);
                    }
                }
                return true;
            }
            proof {
                assert forall|j: int| 0 <= j < k + 1 implies self@[#[trigger] roots@.take(
                    k + 1,
                )[j] as int].degree <= d by {
                    if j < k {
                        assert(roots@.take(k + 1)[j] == roots@.take(k as int)[j]);
                    }
                }
            }
            k = k + 1;
        }
        proof {
            assert(roots@.take(k as int) =~= roots@);
        }
        false
    }

    /// Marks every node that occurs in the circuit of some root.
    fn mark_reachable(&self, roots: &Vec<usize>) -> (marks: Vec<bool>)
        requires
            self.wf(),
            roots_in(self@, roots@),
        ensures
            marks.len() == self@.len(),
            forall|x: int| 0 <= x < marks.len() && #[trigger] marks@[x] ==> reachable(self@, roots@, x),
            forall|k: int| 0 <= k < roots.len() ==> marks@[#[trigger] roots@[k] as int],
            forall|x: int|
                0 <= x < marks.len() && #[trigger] marks@[x] ==> operands_marked(self@, marks@, x),
            marks@ == spec_marks(self@, roots@),
    {
        let n = self.len();
        let mut marks: Vec<bool> = Vec::new();
        let mut i: usize = 0;
        while i < n
            invariant
                n == self@.len(),
                i <= n,
                marks@ == Seq::new(i as nat, |j: int| false),
            decreases n - i,
        {
            marks.push(false);
            i = i + 1;
            proof {
                assert(marks@ =~= Seq::new(i as nat, |j: int| false));
            }
        }
        let mut k: usize = 0;
        while k < roots.len()
            invariant
                n == self@.len(),
                marks.len() == n,
                roots_in(self@, roots@),
                k <= roots.len(),
                forall|x: int| 0 <= x < n && #[trigger] marks@[x] ==> reachable(self@, roots@, x),
                forall|j: int| 0 <= j < k ==> marks@[#[trigger] roots@[j] as int],
            decreases roots.len() - k,
        {
            let root = roots[k];
            proof {
                assert(occurs(self@, roots@[k as int] as int, root as int));
            }
            marks.set(root, true);
            k = k + 1;
        }
        let mut i: usize = n;
        while i > 0
            invariant
                self.wf(),
                n == self@.len(),
                marks.len() == n,
                roots_in(self@, roots@),
                i <= n,
                forall|x: int| 0 <= x < n && #[trigger] marks@[x] ==> reachable(self@, roots@, x),
                forall|j: int| 0 <= j < roots.len() ==> marks@[#[trigger] roots@[j] as int],
                forall|x: int|
                    i <= x < n && #[trigger] marks@[x] ==> operands_marked(self@, marks@, x),
            decreases i,
        {
            i = i - 1;
            if marks[i] {
                let node = self.node(i);
                proof {
                    lemma_wf_node(self@, i as int);
                }
                match node.expression {
                    CircuitExpression::BinaryOperation(_, l, r) => {
                        proof {
                            assert(reachable(self@, roots@, i as int));
                            let k = choose|k: int|
                                0 <= k < roots.len() && #[trigger] occurs(
                                    self@,
                                    roots@[k] as int,
                                    i as int,
                                );
                            assert(is_operand_of(self@, l as int, i as int));
                            assert(is_operand_of(self@, r as int, i as int));
                            lemma_occurs_operand(self@, roots@[k] as int, i as int, l as int);
                            lemma_occurs_operand(self@, roots@[k] as int, i as int, r as int);
                        }
                        let ghost m0 = marks@;
                        marks.set(l, true);
                        marks.set(r, true);
                        proof {
                            assert forall|y: int| 0 <= y < n && m0[y] implies #[trigger] marks@[y] by {}
                            assert forall|x: int|
                                i <= x < n && #[trigger] marks@[x] implies operands_marked(
                                self@,
                                marks@,
                                x,
                            ) by {
                                if x != i {
                                    assert(m0[x]);
                                    assert(operands_marked(self@, m0, x));
                                    lemma_wf_node(self@, x);
                                    match self@[x].expression {
                                        CircuitExpression::BinaryOperation(_, a, b) => {
                                            assert(m0[a as int] && m0[b as int]);
                                            assert(marks@[a as int] && marks@[b as int]);
                                        },
                                        _ => {},
                                    }
                                }
                            }
                        }
                    },
                    _ => {},
                }
            }
        }
        proof {
            assert forall|x: int| 0 <= x < n implies marks@[x] == reachable(self@, roots@, x) by {
                if reachable(self@, roots@, x) {
                    let k = choose|k: int|
                        0 <= k < roots@.len() && #[trigger] occurs(self@, roots@[k] as int, x);
                    lemma_marks_complete(self@, marks@, roots@[k] as int, x);
                }
            }
            assert(marks@ =~= spec_marks(self@, roots@));
        }
        marks
    }

    /// Flags every candidate for being moved into a new column when lowering to `target`.
    fn flag_candidates(&self, marks: &Vec<bool>, target: usize) -> (flags: Vec<bool>)
        requires
            self.wf(),
            marks.len() == self@.len(),
        ensures
            flags.len() == self@.len(),
            forall|c: int|
                0 <= c < flags.len() ==> (#[trigger] flags@[c] == is_candidate(
                    self@,
                    marks@,
                    target as int,
                    c,
                )),
    {
        let n = self.len();
        let mut flags: Vec<bool> = Vec::new();
        let mut i: usize = 0;
        while i < n
            invariant
                n == self@.len(),
                i <= n,
                flags@ == Seq::new(i as nat, |j: int| false),
            decreases n - i,
        {
            flags.push(false);
            i = i + 1;
            proof {
                assert(flags@ =~= Seq::new(i as nat, |j: int| false));
            }
        }
        let mut p: usize = 0;
        while p < n
            invariant
                self.wf(),
                n == self@.len(),
                marks.len() == n,
                flags.len() == n,
                p <= n,
                forall|c: int|
                    0 <= c < n ==> (#[trigger] flags@[c] == candidate_below(
                        self@,
                        marks@,
                        target as int,
                        c,
                        p as int,
                    )),
            decreases n - p,
        {
            let ghost f0 = flags@;
            let qualifies = marks[p] && self.degree(p) > target;
            if qualifies {
                let node = self.node(p);
                proof {
                    lemma_wf_node(self@, p as int);
                }
                match node.expression {
                    CircuitExpression::BinaryOperation(_, l, r) => {
                        let dl = self.degree(l);
                        if 2 <= dl && dl <= target {
                            flags.set(l, true);
                        }
                        let dr = self.degree(r);
                        if 2 <= dr && dr <= target {
                            flags.set(r, true);
                        }
                    },
                    _ => {},
                }
            }
            proof {
                assert forall|c: int| 0 <= c < n implies (#[trigger] flags@[c] == candidate_below(
                    self@,
                    marks@,
                    target as int,
                    c,
                    p + 1,
                )) by {
                    if flags@[c] {
                        if f0[c] {
                            assert(candidate_below(self@, marks@, target as int, c, p as int));
                            let q = choose|q: int|
                                0 <= q < p && marks@[q] && self@[q].degree > target
                                    && #[trigger] is_operand_of(self@, c, q);
                            assert(is_operand_of(self@, c, q));
                        } else {
                            assert(is_operand_of(self@, c, p as int));
                        }
                    }
                    if candidate_below(self@, marks@, target as int, c, p + 1) {
                        let q = choose|q: int|
                            0 <= q < p + 1 && marks@[q] && self@[q].degree > target
                                && #[trigger] is_operand_of(self@, c, q);
                        if q < p {
                            assert(candidate_below(self@, marks@, target as int, c, p as int));
                        } else {
                            assert(q == p);
                        }
                    }
                }
            }
            p = p + 1;
        }
        flags
    }

    /// The node to move into a new column: the first candidate in the selection order, if any.
    fn pick_node_to_substitute(&self, marks: &Vec<bool>, target: usize) -> (r: Option<usize>)
        requires
            self.wf(),
            marks.len() == self@.len(),
        ensures
            match r {
                Some(c) => is_candidate(self@, marks@, target as int, c as int) && forall|d: int|
                    #[trigger] is_candidate(self@, marks@, target as int, d) ==> precedes(
                        self@,
                        c as int,
                        d,
                    ),
                None => forall|d: int| !(#[trigger] is_candidate(self@, marks@, target as int, d)),
            },
            r == spec_pick(self@, marks@, target as int),
    {
        let flags = self.flag_candidates(marks, target);
        let n = self.len();
        let mut best: Option<usize> = None;
        let mut j: usize = 0;
        while j < n
            invariant
                n == self@.len(),
                flags.len() == n,
                j <= n,
                forall|c: int|
                    0 <= c < n ==> (#[trigger] flags@[c] == is_candidate(
                        self@,
                        marks@,
                        target as int,
                        c,
                    )),
                match best {
                    Some(c) => c < j && flags@[c as int] && forall|d: int|
                        0 <= d < j && #[trigger] flags@[d] ==> precedes(self@, c as int, d),
                    None => forall|d: int| 0 <= d < j ==> !(#[trigger] flags@[d]),
                },
            decreases n - j,
        {
            if flags[j] {
                match best {
                    Some(c) => {
                        if !self.precedes(c, j) {
                            best = Some(j);
                        }
                    },
                    None => {
                        best = Some(j);
                    },
                }
            }
            j = j + 1;
        }
        proof {
            assert forall|d: int| #[trigger] is_candidate(self@, marks@, target as int, d) implies 0
                <= d < n && flags@[d] by {}
            match best {
                Some(c) => {
                    assert(is_candidate(self@, marks@, target as int, c as int));
                    let c2 = choose|c2: int|
                        is_candidate(self@, marks@, target as int, c2) && forall|d: int|
                            #[trigger] is_candidate(self@, marks@, target as int, d) ==> precedes(
                                self@,
                                c2,
                                d,
                            );
                    assert(precedes(self@, c as int, c2));
                    assert(precedes(self@, c2, c as int));
                },
                None => {},
            }
        }
        best
    }

    /// Whether node `c` comes no later than node `d` in the selection order.
    fn precedes(&self, c: usize, d: usize) -> (r: bool)
        requires
            c < self@.len(),
            d < self@.len(),
        ensures
            r == precedes(self@, c as int, d as int),
    {
        let dc = self.degree(c);
        let dd = self.degree(d);
        dc > dd || (dc == dd && c <= d)
    }

    /// The node that the next round of lowering to `target` moves, if any can move.
    fn next_substitution(&self, roots: &Vec<usize>, target: usize) -> (r: Option<usize>)
        requires
            self.wf(),
            roots_in(self@, roots@),
            !degrees_at_most(self@, roots@, target as int),
        ensures
            r == spec_pick(self@, spec_marks(self@, roots@), target as int),
            r is None ==> target < 2,
            match r {
                Some(c) => c < self@.len() && 2 <= self@[c as int].degree <= target && reachable(
                    self@,
                    roots@,
                    c as int,
                ),
                None => true,
            },
    {
        let marks = self.mark_reachable(roots);
        let picked = self.pick_node_to_substitute(&marks, target);
        proof {
            match picked {
                Some(c) => {
                    let p = choose|p: int|
                        0 <= p < self@.len() && marks@[p] && self@[p].degree > target
                            && #[trigger] is_operand_of(self@, c as int, p);
                    assert(reachable(self@, roots@, p));
                    let kp = choose|k: int|
                        0 <= k < roots@.len() && #[trigger] occurs(self@, roots@[k] as int, p);
                    lemma_occurs_operand(self@, roots@[kp] as int, p, c as int);
                    assert(reachable(self@, roots@, c as int));
                },
                None => {
                    if target >= 2 {
                        let k = choose|k: int|
                            0 <= k < roots@.len() && self@[#[trigger] roots@[k] as int].degree
                                > target;
                        lemma_candidate_exists(self@, marks@, target as int, roots@[k] as int);
                    }
                },
            }
        }
        picked
    }

    /// Moves node `c` into the column that `indicator` reads: a leaf reading that column takes
    /// the place of `c` in the circuit of every root, and the constraint `leaf - c` is built.
    /// Returns that constraint.
    fn substitute_everywhere(
        &mut self,
        roots: &mut Vec<usize>,
        c: usize,
        indicator: II,
        target: usize,
    ) -> (con: usize)
        requires
            old(self).wf(),
            roots_in(old(self)@, old(roots)@),
            c < old(self)@.len(),
            2 <= old(self)@[c as int].degree <= target,
            reachable(old(self)@, old(roots)@, c as int),
        ensures
            final(self).wf(),
            extends(old(self)@, final(self)@),
            final(roots)@.len() == old(roots)@.len(),
            roots_in(final(self)@, final(roots)@),
            forest_size(final(self)@, final(roots)@) < forest_size(old(self)@, old(roots)@),
            is_substitution(
                final(self)@,
                con as int,
                indicator,
                old(self)@[c as int].evaluates_to_base,
                target as int,
            ),
            (final(self)@, final(roots)@, con as nat) == round_spec(
                old(self)@,
                old(roots)@,
                c,
                indicator,
            ),
            forall|k: int|
                0 <= k < old(roots)@.len() && !(old(self)@[#[trigger] old(roots)@[k] as int].expression is BinaryOperation)
                    ==> final(roots)@[k] == old(roots)@[k],
    {
        let ghost pre = self@;
        let ghost kc = choose|k: int|
            0 <= k < roots@.len() && #[trigger] occurs(pre, roots@[k] as int, c as int);
        proof {
            lemma_wf_node(pre, c as int);
        }
        let leaf = self.input(indicator);
        let ghost before = self@;
        let ghost old_roots = roots@;
        proof {
            crate::circuit::lemma_intern_wf(pre, CircuitExpression::Input(indicator));
            lemma_wf_node(before, leaf as int);
            lemma_tree_size_frame(pre, before, c as int);
            lemma_occurs_frame(pre, before, roots@[kc] as int, c as int);
            assert(before[c as int] == pre[c as int]);
            assert(before[leaf as int].expression == CircuitExpression::Input(indicator));
            assert(before[leaf as int].degree == 1);
            lemma_wf_node(before, c as int);
            match before[c as int].expression {
                CircuitExpression::BinaryOperation(_, l, r) => {
                    assert(l < c && r < c);
                    assert(tree_size(before, c as int) == 1 + tree_size(before, l as int)
                        + tree_size(before, r as int));
                },
                _ => {},
            }
            assert(before[c as int].expression is BinaryOperation);
            assert(old_roots.take(0) =~= Seq::<usize>::empty());
        }
        let mut k: usize = 0;
        while k < roots.len()
            invariant
                self.wf(),
                extends(before, self@),
                leaf < before.len(),
                c < before.len(),
                tree_size(before, leaf as int) == 1,
                tree_size(before, c as int) > 1,
                before[leaf as int].degree <= before[c as int].degree,
                roots@.len() == old_roots.len(),
                roots_in(before, old_roots),
                k <= roots@.len(),
                forall|j: int| k <= j < roots@.len() ==> #[trigger] roots@[j] == old_roots[j],
                forall|j: int|
                    0 <= j < k ==> #[trigger] roots@[j] < self@.len() && tree_size(
                        self@,
                        roots@[j] as int,
                    ) <= tree_size(before, old_roots[j] as int) && (occurs(
                        before,
                        old_roots[j] as int,
                        c as int,
                    ) ==> tree_size(self@, roots@[j] as int) < tree_size(
                        before,
                        old_roots[j] as int,
                    )),
                before[c as int].expression is BinaryOperation,
                forall|j: int|
                    0 <= j < k && !(before[#[trigger] old_roots[j] as int].expression is BinaryOperation)
                        ==> roots@[j] == old_roots[j],
                (self@, roots@.take(k as int)) == substitute_roots(
                    before,
                    old_roots.take(k as int),
                    c as int,
                    leaf as int,
                ),
            decreases roots.len() - k,
        {
            let ghost cur = self@;
            proof {
                lemma_tree_size_frame(before, cur, leaf as int);
                lemma_tree_size_frame(before, cur, c as int);
                lemma_tree_size_frame(before, cur, old_roots[k as int] as int);
                lemma_occurs_frame(before, cur, old_roots[k as int] as int, c as int);
                assert(cur[leaf as int] == before[leaf as int]);
                assert(cur[c as int] == before[c as int]);
                assert(cur[old_roots[k as int] as int] == before[old_roots[k as int] as int]);
            }
            let nr = self.substitute(roots[k], c, leaf);
            proof {
                assert forall|j: int| 0 <= j < k implies #[trigger] roots@[j] < self@.len()
                    && tree_size(self@, roots@[j] as int) <= tree_size(before, old_roots[j] as int)
                    && (occurs(before, old_roots[j] as int, c as int) ==> tree_size(
                    self@,
                    roots@[j] as int,
                ) < tree_size(before, old_roots[j] as int)) by {
                    lemma_tree_size_frame(cur, self@, roots@[j] as int);
                }
            }
            let ghost prev_roots = roots@;
            roots.set(k, nr);
            proof {
                assert(old_roots.take(k + 1).drop_last() =~= old_roots.take(k as int));
                assert(roots@.take(k + 1) =~= prev_roots.take(k as int).push(nr));
            }
            k = k + 1;
        }
        proof {
            assert(old_roots.take(old_roots.len() as int) =~= old_roots);
            assert(roots@.take(roots@.len() as int) =~= roots@);
        }
        let ghost after = self@;
        let con = self.sub(leaf, c);
        proof {
            crate::circuit::lemma_intern_wf(
                after,
                CircuitExpression::BinaryOperation(BinOp::Sub, leaf, c),
            );
            lemma_wf_node(self@, con as int);
            assert(self@[leaf as int] == before[leaf as int]);
            assert(self@[c as int] == before[c as int]);
            lemma_round_shrinks_forest(pre, before, after, self@, old_roots, roots@, kc, c as int);
            reveal(round_spec);
            assert forall|k: int|
                0 <= k < old_roots.len() && !(pre[#[trigger] old_roots[k] as int].expression is BinaryOperation)
                    implies roots@[k] == old_roots[k] by {
                assert(before[old_roots[k] as int] == pre[old_roots[k] as int]);
            }
        }
        con
    }

    /// One round of lowering: moves node `c`, the next to move, into the next column of its side,
    /// and records the constraint that defines that column.
    #[verifier::rlimit(50)]
    fn lowering_round(
        &mut self,
        roots: &mut Vec<usize>,
        main: &mut Vec<usize>,
        aux: &mut Vec<usize>,
        info: DegreeLoweringInfo,
        c: usize,
        fuel: Ghost<nat>,
    ) -> (r: Result<(), DegreeLoweringError>)
        requires
            old(self).wf(),
            roots_in(old(self)@, old(roots)@),
            c < old(self)@.len(),
            2 <= old(self)@[c as int].degree <= info.target_degree,
            reachable(old(self)@, old(roots)@, c as int),
            !degrees_at_most(old(self)@, old(roots)@, info.target_degree as int),
            fuel@ > 0,
            spec_pick(
                old(self)@,
                spec_marks(old(self)@, old(roots)@),
                info.target_degree as int,
            ) == Some(c),
            substitutions_wf(
                old(self)@,
                old(main)@,
                info.num_main_cols as int,
                true,
                info.target_degree as int,
            ),
            substitutions_wf(
                old(self)@,
                old(aux)@,
                info.num_aux_cols as int,
                false,
                info.target_degree as int,
            ),
        ensures
            r is Err ==> final(self)@ == old(self)@ && final(roots)@ == old(roots)@
                && final(main)@ == old(main)@ && final(aux)@ == old(aux)@,
            r is Err ==> (old(self)@[c as int].evaluates_to_base && info.num_main_cols
                + old(main)@.len() > usize::MAX) || (!old(self)@[c as int].evaluates_to_base
                && info.num_aux_cols + old(aux)@.len() > usize::MAX),
            r is Err ==> r == Err::<(), DegreeLoweringError>(DegreeLoweringError::TooManyColumns)
                && lower_spec(old(self)@, old(roots)@, old(main)@, old(aux)@, info, fuel@) == Err::<
                Lowered<II>,
                DegreeLoweringError,
            >(DegreeLoweringError::TooManyColumns),
            r is Ok ==> {
                &&& final(self).wf()
                &&& extends(old(self)@, final(self)@)
                &&& final(roots)@.len() == old(roots)@.len()
                &&& roots_in(final(self)@, final(roots)@)
                &&& forest_size(final(self)@, final(roots)@) < forest_size(old(self)@, old(roots)@)
                &&& substitutions_wf(
                    final(self)@,
                    final(main)@,
                    info.num_main_cols as int,
                    true,
                    info.target_degree as int,
                )
                &&& substitutions_wf(
                    final(self)@,
                    final(aux)@,
                    info.num_aux_cols as int,
                    false,
                    info.target_degree as int,
                )
                &&& final(main)@.len() + final(aux)@.len() == old(main)@.len() + old(aux)@.len() + 1
                &&& final(main)@.len() <= old(main)@.len() + 1
                &&& final(aux)@.len() <= old(aux)@.len() + 1
                &&& forall|k: int|
                    0 <= k < old(roots)@.len() && !(old(self)@[#[trigger] old(roots)@[k] as int].expression is BinaryOperation)
                        ==> final(roots)@[k] == old(roots)@[k]
                &&& lower_spec(old(self)@, old(roots)@, old(main)@, old(aux)@, info, fuel@)
                    == lower_spec(
                    final(self)@,
                    final(roots)@,
                    final(main)@,
                    final(aux)@,
                    info,
                    (fuel@ - 1) as nat,
                )
            },
    {
        let target = info.target_degree;
        let ghost pre = self@;
        let is_main = self.evaluates_to_base_element(c);
        proof {
            lemma_lower_spec_fails(self@, roots@, main@, aux@, info, fuel@);
        }
        let indicator = if is_main {
            if info.num_main_cols > usize::MAX - main.len() {
                return Err(DegreeLoweringError::TooManyColumns);
            }
            II::main_table_input(info.num_main_cols + main.len())
        } else {
            if info.num_aux_cols > usize::MAX - aux.len() {
                return Err(DegreeLoweringError::TooManyColumns);
            }
            II::aux_table_input(info.num_aux_cols + aux.len())
        };
        proof {
            lemma_lower_spec_step(self@, roots@, main@, aux@, info, fuel@, c, indicator);
        }
        let constraint = self.substitute_everywhere(roots, c, indicator, target);
        proof {
            lemma_substitutions_frame(pre, self@, main@, info.num_main_cols as int, true, target as int);
            lemma_substitutions_frame(pre, self@, aux@, info.num_aux_cols as int, false, target as int);
            if is_main {
                lemma_push_substitution(self@, main@, info.num_main_cols as int, true, target as int, constraint);
            } else {
                lemma_push_substitution(self@, aux@, info.num_aux_cols as int, false, target as int, constraint);
            }
        }
        if is_main {
            main.push(constraint);
        } else {
            aux.push(constraint);
        }
        Ok(())
    }

    /// Lowers the circuits of `roots` to degree `info.target_degree` or less, in place. Returns
    /// the constraints that define the new main columns and those that define the new auxiliary
    /// columns: the `k`-th new main column is `info.num_main_cols + k`, and likewise for the
    /// auxiliary side. Roots that meet the target already are left as they are.
    #[verifier::rlimit(50)]
    pub fn lower_to_degree(&mut self, roots: &mut Vec<usize>, info: DegreeLoweringInfo) -> (r: Result<
        (Vec<usize>, Vec<usize>),
        DegreeLoweringError,
    >)
        requires
            old(self).wf(),
            roots_in(old(self)@, old(roots)@),
        ensures
            final(self).wf(),
            extends(old(self)@, final(self)@),
            final(roots)@.len() == old(roots)@.len(),
            roots_in(final(self)@, final(roots)@),
            degrees_at_most(old(self)@, old(roots)@, info.target_degree as int) ==> r is Ok
                && final(self)@ == old(self)@ && final(roots)@ == old(roots)@,
            info.target_degree >= 2 && info.num_main_cols + forest_size(old(self)@, old(roots)@)
                <= usize::MAX && info.num_aux_cols + forest_size(old(self)@, old(roots)@)
                <= usize::MAX ==> r is Ok,
            forall|k: int|
                0 <= k < old(roots)@.len() && !(old(self)@[#[trigger] old(roots)@[k] as int].expression is BinaryOperation)
                    ==> final(roots)@[k] == old(roots)@[k],
            match r {
                Ok((main, aux)) => {
                    &&& main@.len() + aux@.len() <= forest_size(old(self)@, old(roots)@)
                    &&& degrees_at_most(final(self)@, final(roots)@, info.target_degree as int)
                    &&& substitutions_wf(
                        final(self)@,
                        main@,
                        info.num_main_cols as int,
                        true,
                        info.target_degree as int,
                    )
                    &&& substitutions_wf(
                        final(self)@,
                        aux@,
                        info.num_aux_cols as int,
                        false,
                        info.target_degree as int,
                    )
                    &&& degrees_at_most(old(self)@, old(roots)@, info.target_degree as int) ==> main@.len()
                        == 0 && aux@.len() == 0
                    &&& lowering_of(old(self)@, old(roots)@, info) == Ok::<
                        Lowered<II>,
                        DegreeLoweringError,
                    >((final(self)@, final(roots)@, main@, aux@))
                },
                Err(e) => {
                    &&& lowering_of(old(self)@, old(roots)@, info) == Err::<
                        Lowered<II>,
                        DegreeLoweringError,
                    >(e)
                    &&& !degrees_at_most(old(self)@, old(roots)@, info.target_degree as int)
                    &&& e == DegreeLoweringError::InfeasibleTargetDegree <==> info.target_degree < 2
                },
            },
    {
        let ghost nodes0 = self@;
        let ghost roots0 = roots@;
        let ghost fuel0 = forest_size(nodes0, roots0);
        let ghost mut rounds: nat = 0;
        let target = info.target_degree;
        let mut main: Vec<usize> = Vec::new();
        let mut aux: Vec<usize> = Vec::new();
        proof {
            reveal(substitutions_wf);
        }
        loop
            invariant
                self.wf(),
                target == info.target_degree,
                nodes0 == old(self)@,
                roots0 == old(roots)@,
                fuel0 == forest_size(nodes0, roots0),
                extends(nodes0, self@),
                roots@.len() == roots0.len(),
                roots_in(self@, roots@),
                substitutions_wf(self@, main@, info.num_main_cols as int, true, target as int),
                substitutions_wf(self@, aux@, info.num_aux_cols as int, false, target as int),
                main@.len() + aux@.len() == 0 ==> self@ == nodes0 && roots@ == roots0,
                main@.len() + aux@.len() > 0 ==> !degrees_at_most(nodes0, roots0, target as int)
                    && target >= 2,
                forest_size(self@, roots@) + rounds <= fuel0,
                main@.len() + aux@.len() == rounds,
                roots_in(nodes0, roots0),
                forall|k: int|
                    0 <= k < roots0.len() && !(nodes0[#[trigger] roots0[k] as int].expression is BinaryOperation)
                        ==> roots@[k] == roots0[k],
                lower_spec(self@, roots@, main@, aux@, info, (fuel0 - rounds) as nat) == lowering_of(
                    nodes0,
                    roots0,
                    info,
                ),
            decreases forest_size(self@, roots@),
        {
            if !self.roots_exceed(roots, target) {
                proof {
                    if degrees_at_most(nodes0, roots0, target as int) {
                        assert(main@.len() + aux@.len() == 0);
                        assert(main@.len() == 0 && aux@.len() == 0);
                    }
                    lemma_lower_spec_done(self@, roots@, main@, aux@, info, (fuel0 - rounds) as nat);
                }
                return Ok((main, aux));
            }
            proof {
                lemma_forest_size_positive(self@, roots@);
                lemma_lower_spec_fails(self@, roots@, main@, aux@, info, (fuel0 - rounds) as nat);
            }
            let picked = self.next_substitution(roots, target);
            let c = match picked {
                Some(c) => c,
                None => {
                    return Err(DegreeLoweringError::InfeasibleTargetDegree);
                },
            };
            let ghost pre = self@;
            let ghost roots_before = roots@;
            let ghost main_before = main@;
            let ghost aux_before = aux@;
            let ghost fuel = (fuel0 - rounds) as nat;
            match self.lowering_round(roots, &mut main, &mut aux, info, c, Ghost(fuel)) {
                Ok(()) => {},
                Err(e) => {
                    proof {
                        assert(main@.len() + aux@.len() < fuel0);
                    }
                    return Err(e);
                },
            }
            proof {
                assert forall|k: int|
                    0 <= k < roots0.len() && !(nodes0[#[trigger] roots0[k] as int].expression is BinaryOperation)
                        implies roots@[k] == roots0[k] by {
                    assert(pre[roots_before[k] as int] == nodes0[roots0[k] as int]);
                }
                rounds = rounds + 1;
            }
        }
    }
}

/// A forest with a root has positive size.
pub proof fn lemma_forest_size_positive<II>(nodes: Seq<CircuitNode<II>>, roots: Seq<usize>)
    requires
        roots.len() > 0,
    ensures
        forest_size(nodes, roots) > 0,
{
    assert(tree_size(nodes, roots.last() as int) >= 1);
}

} // verus!
