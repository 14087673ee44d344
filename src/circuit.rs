//! The constraint circuit: a shared, deduplicated expression graph over trace cells, challenges and
//! constants. All nodes live in one arena, the builder; a node refers to its operands by their
//! index in the arena, which is always smaller than its own.

use vstd::prelude::*;

verus! {

/// The prime modulus of the base field, `2^64 - 2^32 + 1`.
pub const FIELD_MODULUS: u64 = 0xffff_ffff_0000_0001;

/// What a leaf of a circuit reads: a cell of a main (base) or auxiliary (extension) column, of
/// one row or of one of two adjacent rows, depending on the family.
pub trait InputIndicator: Sized + Copy {
    /// Whether the leaf reads a main column.
    spec fn spec_is_main(&self) -> bool;

    /// The index of the column the leaf reads.
    spec fn spec_column(&self) -> nat;

    /// The leaf that reads main column `index` (of the current row, where there are two).
    spec fn spec_main_table_input(index: nat) -> Self;

    /// The leaf that reads auxiliary column `index` (of the current row, where there are two).
    spec fn spec_aux_table_input(index: nat) -> Self;

    /// Whether the leaf reads a main column.
    fn is_main_table_column(&self) -> (r: bool)
        ensures
            r == self.spec_is_main(),
    ;

    /// The leaf that reads main column `index` (of the current row, where there are two).
    fn main_table_input(index: usize) -> (r: Self)
        ensures
            r == Self::spec_main_table_input(index as nat),
            r.spec_is_main(),
            r.spec_column() == index,
    ;

    /// The leaf that reads auxiliary column `index` (of the current row, where there are two).
    fn aux_table_input(index: usize) -> (r: Self)
        ensures
            r == Self::spec_aux_table_input(index as nat),
            !r.spec_is_main(),
            r.spec_column() == index,
    ;

    /// Whether two indicators are the same.
    fn same_as(&self, other: &Self) -> (r: bool)
        ensures
            r == (*self == *other),
    ;
}

/// A cell of a single row: for initial, consistency and terminal constraints.
#[derive(Debug, Clone, Copy, PartialEq, Eq, Hash, Structural)]
pub enum SingleRowIndicator {
    Main(usize),
    Aux(usize),
}

/// A cell of the current or the next row: for transition constraints.
#[derive(Debug, Clone, Copy, PartialEq, Eq, Hash, Structural)]
pub enum DualRowIndicator {
    CurrentMain(usize),
    CurrentAux(usize),
    NextMain(usize),
    NextAux(usize),
}

impl InputIndicator for SingleRowIndicator {
    open spec fn spec_is_main(&self) -> bool {
        self is Main
    }

    open spec fn spec_column(&self) -> nat {
        match self {
            SingleRowIndicator::Main(i) => *i as nat,
            SingleRowIndicator::Aux(i) => *i as nat,
        }
    }

    open spec fn spec_main_table_input(index: nat) -> Self {
        SingleRowIndicator::Main(index as usize)
    }

    open spec fn spec_aux_table_input(index: nat) -> Self {
        SingleRowIndicator::Aux(index as usize)
    }

    fn is_main_table_column(&self) -> (r: bool) {
        matches!(self, SingleRowIndicator::Main(_))
    }

    fn main_table_input(index: usize) -> (r: Self) {
        SingleRowIndicator::Main(index)
    }

    fn aux_table_input(index: usize) -> (r: Self) {
        SingleRowIndicator::Aux(index)
    }

    fn same_as(&self, other: &Self) -> (r: bool) {
        *self == *other
    }
}

impl InputIndicator for DualRowIndicator {
    open spec fn spec_is_main(&self) -> bool {
        self is CurrentMain || self is NextMain
    }

    open spec fn spec_column(&self) -> nat {
        match self {
            DualRowIndicator::CurrentMain(i) => *i as nat,
            DualRowIndicator::CurrentAux(i) => *i as nat,
            DualRowIndicator::NextMain(i) => *i as nat,
            DualRowIndicator::NextAux(i) => *i as nat,
        }
    }

    open spec fn spec_main_table_input(index: nat) -> Self {
        DualRowIndicator::CurrentMain(index as usize)
    }

    open spec fn spec_aux_table_input(index: nat) -> Self {
        DualRowIndicator::CurrentAux(index as usize)
    }

    fn is_main_table_column(&self) -> (r: bool) {
        matches!(self, DualRowIndicator::CurrentMain(_) | DualRowIndicator::NextMain(_))
    }

    fn main_table_input(index: usize) -> (r: Self) {
        DualRowIndicator::CurrentMain(index)
    }

    fn aux_table_input(index: usize) -> (r: Self) {
        DualRowIndicator::CurrentAux(index)
    }

    fn same_as(&self, other: &Self) -> (r: bool) {
        *self == *other
    }
}

/// The arithmetic operation of an inner node.
#[derive(Debug, Clone, Copy, PartialEq, Eq, Hash, Structural)]
pub enum BinOp {
    Add,
    Sub,
    Mul,
}

/// What a node is: a leaf, or an operation on two earlier nodes of the same arena.
#[derive(Debug, Clone, Copy)]
pub enum CircuitExpression<II> {
    /// A trace cell.
    Input(II),
    /// A challenge the verifier supplies, by its index.
    Challenge(usize),
    /// A base-field constant, in canonical form (below the field modulus).
    BConstant(u64),
    /// An extension-field constant: its three base-field coefficients, in canonical form.
    XConstant(u64, u64, u64),
    /// An operation on the nodes at the two indices.
    BinaryOperation(BinOp, usize, usize),
}

/// A node of the arena, with its memoized degree and value type.
#[derive(Debug, Clone, Copy)]
pub struct CircuitNode<II> {
    pub expression: CircuitExpression<II>,
    /// The node's total polynomial degree.
    pub degree: usize,
    /// Whether the node's value lies in the base field: it reads no auxiliary column, no
    /// challenge and no extension-field constant.
    pub evaluates_to_base: bool,
}

/// The degree that an expression has, given the stored degrees of its operands: 0 for a
/// constant, 1 for a trace cell or challenge, the larger operand degree for a sum or difference,
/// and the sum of the operand degrees for a product.
pub open spec fn expression_degree<II>(nodes: Seq<CircuitNode<II>>, e: CircuitExpression<II>) -> int {
    match e {
        CircuitExpression::Input(_) => 1,
        CircuitExpression::Challenge(_) => 1,
        CircuitExpression::BConstant(_) => 0,
        CircuitExpression::XConstant(_, _, _) => 0,
        CircuitExpression::BinaryOperation(op, l, r) => {
            let dl = nodes[l as int].degree as int;
            let dr = nodes[r as int].degree as int;
            if op == BinOp::Mul {
                dl + dr
            } else if dl >= dr {
                dl
            } else {
                dr
            }
        },
    }
}

/// Whether an expression's value lies in the base field, given that of its operands.
pub open spec fn expression_is_base<II: InputIndicator>(
    nodes: Seq<CircuitNode<II>>,
    e: CircuitExpression<II>,
) -> bool {
    match e {
        CircuitExpression::Input(ind) => ind.spec_is_main(),
        CircuitExpression::Challenge(_) => false,
        CircuitExpression::BConstant(_) => true,
        CircuitExpression::XConstant(_, _, _) => false,
        CircuitExpression::BinaryOperation(_, l, r) => nodes[l as int].evaluates_to_base
            && nodes[r as int].evaluates_to_base,
    }
}

/// An expression may join an arena of `bound` nodes: its operands lie in the arena, its
/// constants are canonical, and its degree fits a `usize`.
pub open spec fn expression_fits<II>(nodes: Seq<CircuitNode<II>>, e: CircuitExpression<II>, bound: int) -> bool {
    match e {
        CircuitExpression::BConstant(v) => v < FIELD_MODULUS,
        CircuitExpression::XConstant(c0, c1, c2) => c0 < FIELD_MODULUS && c1 < FIELD_MODULUS && c2
            < FIELD_MODULUS,
        CircuitExpression::BinaryOperation(_, l, r) => 0 <= l < bound && 0 <= r < bound
            && expression_degree(nodes, e) <= usize::MAX,
        _ => true,
    }
}

/// The node that an expression becomes when it joins the arena.
pub open spec fn new_node<II: InputIndicator>(
    nodes: Seq<CircuitNode<II>>,
    e: CircuitExpression<II>,
) -> CircuitNode<II> {
    CircuitNode {
        expression: e,
        degree: expression_degree(nodes, e) as usize,
        evaluates_to_base: expression_is_base(nodes, e),
    }
}

/// A well-formed arena: every node refers only to earlier nodes, carries the degree and value
/// type its expression gives, and no two nodes have the same expression.
#[verifier::opaque]
pub open spec fn nodes_wf<II: InputIndicator>(nodes: Seq<CircuitNode<II>>) -> bool {
    &&& forall|i: int|
        0 <= i < nodes.len() ==> expression_fits(nodes, #[trigger] nodes[i].expression, i)
    &&& forall|i: int| 0 <= i < nodes.len() ==> #[trigger] nodes[i] == new_node(nodes, nodes[i].expression)
    &&& nodes_distinct(nodes)
}

/// No two nodes of the arena have the same expression, so a node's index identifies its
/// expression.
pub open spec fn nodes_distinct<II>(nodes: Seq<CircuitNode<II>>) -> bool {
    forall|i: int, j: int|
        0 <= i < nodes.len() && 0 <= j < nodes.len() && i != j ==> (#[trigger] nodes[i]).expression
            != (#[trigger] nodes[j]).expression
}

/// A well-formed arena has distinct nodes.
pub proof fn lemma_wf_distinct<II: InputIndicator>(nodes: Seq<CircuitNode<II>>)
    requires
        nodes_wf(nodes),
    ensures
        nodes_distinct(nodes),
{
    reveal(nodes_wf);
}

/// What well-formedness says of one node.
pub proof fn lemma_wf_node<II: InputIndicator>(nodes: Seq<CircuitNode<II>>, i: int)
    requires
        nodes_wf(nodes),
        0 <= i < nodes.len(),
    ensures
        expression_fits(nodes, nodes[i].expression, i),
        nodes[i] == new_node(nodes, nodes[i].expression),
        nodes[i].degree == expression_degree(nodes, nodes[i].expression),
        nodes[i].evaluates_to_base == expression_is_base(nodes, nodes[i].expression),
{
    reveal(nodes_wf);
}

/// The arena `new` keeps every node of `old` at its index.
pub open spec fn extends<II>(old: Seq<CircuitNode<II>>, new: Seq<CircuitNode<II>>) -> bool {
    old.len() <= new.len() && forall|i: int| 0 <= i < old.len() ==> #[trigger] new[i] == old[i]
}

/// Whether some node of the arena has expression `e`.
pub open spec fn contains_expression<II>(nodes: Seq<CircuitNode<II>>, e: CircuitExpression<II>) -> bool {
    exists|i: int| 0 <= i < nodes.len() && (#[trigger] nodes[i]).expression == e
}

/// Building expression `e`: the node of the arena that has it, if there is one, and otherwise a
/// new node at the end. Gives the arena after the build and the node's index.
#[verifier::opaque]
pub open spec fn intern_spec<II: InputIndicator>(
    nodes: Seq<CircuitNode<II>>,
    e: CircuitExpression<II>,
) -> (Seq<CircuitNode<II>>, nat) {
    if contains_expression(nodes, e) {
        (nodes, (choose|i: int| 0 <= i < nodes.len() && (#[trigger] nodes[i]).expression == e) as nat)
    } else {
        (nodes.push(new_node(nodes, e)), nodes.len())
    }
}

/// Building the same expression twice from one builder gives the same node: the second build
/// finds the node of the first and leaves the arena unchanged.
pub proof fn lemma_intern_is_idempotent<II: InputIndicator>(
    nodes: Seq<CircuitNode<II>>,
    e: CircuitExpression<II>,
)
    requires
        nodes_wf(nodes),
        expression_fits(nodes, e, nodes.len() as int),
    ensures
        intern_spec(intern_spec(nodes, e).0, e) == intern_spec(nodes, e),
{
    reveal(intern_spec);
    reveal(nodes_wf);
    let (n1, i1) = intern_spec(nodes, e);
    lemma_intern_wf(nodes, e);
    assert(n1[i1 as int].expression == e);
    assert(contains_expression(n1, e));
    let j = choose|j: int| 0 <= j < n1.len() && (#[trigger] n1[j]).expression == e;
    assert(j == i1);
}

/// Building keeps the arena well-formed, extends it, and yields a node with the expression.
pub proof fn lemma_intern_wf<II: InputIndicator>(nodes: Seq<CircuitNode<II>>, e: CircuitExpression<II>)
    requires
        nodes_wf(nodes),
        expression_fits(nodes, e, nodes.len() as int),
    ensures
        nodes_wf(intern_spec(nodes, e).0),
        extends(nodes, intern_spec(nodes, e).0),
        intern_spec(nodes, e).1 < intern_spec(nodes, e).0.len(),
        intern_spec(nodes, e).0[intern_spec(nodes, e).1 as int].expression == e,
{
    reveal(intern_spec);
    reveal(nodes_wf);
    if !contains_expression(nodes, e) {
        let n1 = nodes.push(new_node(nodes, e));
        assert forall|i: int| 0 <= i < n1.len() implies expression_fits(
            n1,
            #[trigger] n1[i].expression,
            i,
        ) by {
            if i < nodes.len() {
                assert(n1[i] == nodes[i]);
                assert(expression_fits(nodes, nodes[i].expression, i));
            }
        }
        assert forall|i: int| 0 <= i < n1.len() implies #[trigger] n1[i] == new_node(
            n1,
            n1[i].expression,
        ) by {
            if i < nodes.len() {
                assert(n1[i] == nodes[i]);
                assert(nodes[i] == new_node(nodes, nodes[i].expression));
                assert(expression_fits(nodes, nodes[i].expression, i));
            }
        }
        assert forall|i: int, j: int|
            0 <= i < n1.len() && 0 <= j < n1.len() && i != j implies (#[trigger] n1[i]).expression
            != (#[trigger] n1[j]).expression by {
            if i < nodes.len() && j < nodes.len() {
                assert(n1[i] == nodes[i] && n1[j] == nodes[j]);
            } else if i < nodes.len() {
                assert(n1[i] == nodes[i]);
            } else if j < nodes.len() {
                assert(n1[j] == nodes[j]);
            }
        }
    }
}

/// The arena in which circuits are built. Structurally equal expressions share one node.
pub struct ConstraintCircuitBuilder<II> {
    nodes: Vec<CircuitNode<II>>,
}

impl<II> View for ConstraintCircuitBuilder<II> {
    type V = Seq<CircuitNode<II>>;

    closed spec fn view(&self) -> Seq<CircuitNode<II>> {
        self.nodes@
    }
}

/// Whether two expressions are the same.
pub(crate) fn expressions_equal<II: InputIndicator>(a: &CircuitExpression<II>, b: &CircuitExpression<II>) -> (r:
    bool)
    ensures
        r == (*a == *b),
{
    match a {
        CircuitExpression::Input(x) => match b {
            CircuitExpression::Input(y) => x.same_as(y),
            _ => false,
        },
        CircuitExpression::Challenge(x) => match b {
            CircuitExpression::Challenge(y) => *x == *y,
            _ => false,
        },
        CircuitExpression::BConstant(x) => match b {
            CircuitExpression::BConstant(y) => *x == *y,
            _ => false,
        },
        CircuitExpression::XConstant(x0, x1, x2) => match b {
            CircuitExpression::XConstant(y0, y1, y2) => *x0 == *y0 && *x1 == *y1 && *x2 == *y2,
            _ => false,
        },
        CircuitExpression::BinaryOperation(o1, l1, r1) => match b {
            CircuitExpression::BinaryOperation(o2, l2, r2) => *o1 == *o2 && *l1 == *l2 && *r1
                == *r2,
            _ => false,
        },
    }
}

impl<II: InputIndicator> ConstraintCircuitBuilder<II> {
    /// The arena is well-formed.
    pub open spec fn wf(&self) -> bool {
        nodes_wf(self@)
    }

    /// An empty arena.
    pub fn new() -> (r: Self)
        ensures
            r.wf(),
            r@.len() == 0,
    {
        let r = ConstraintCircuitBuilder { nodes: Vec::new() };
        proof {
            reveal(nodes_wf);
        }
        r
    }

    /// The number of nodes in the arena.
    pub fn len(&self) -> (r: usize)
        ensures
            r == self@.len(),
    {
        self.nodes.len()
    }

    /// The node at index `id`.
    pub fn node(&self, id: usize) -> (r: CircuitNode<II>)
        requires
            id < self@.len(),
        ensures
            r == self@[id as int],
    {
        self.nodes[id]
    }

    /// The memoized degree of node `id`.
    pub fn degree(&self, id: usize) -> (r: usize)
        requires
            id < self@.len(),
        ensures
            r == self@[id as int].degree,
    {
        self.nodes[id].degree
    }

    /// Whether node `id`'s value lies in the base field.
    pub fn evaluates_to_base_element(&self, id: usize) -> (r: bool)
        requires
            id < self@.len(),
        ensures
            r == self@[id as int].evaluates_to_base,
    {
        self.nodes[id].evaluates_to_base
    }

    /// The node with expression `e`: the existing one if there is one, else a new one.
    pub(crate) fn intern(&mut self, e: CircuitExpression<II>) -> (r: usize)
        requires
            old(self).wf(),
            expression_fits(old(self)@, e, old(self)@.len() as int),
        ensures
            final(self).wf(),
            extends(old(self)@, final(self)@),
            (final(self)@, r as nat) == intern_spec(old(self)@, e),
            r < final(self)@.len(),
            final(self)@[r as int].expression == e,
            final(self)@[r as int] == new_node(old(self)@, e),
    {
        proof {
            reveal(nodes_wf);
            lemma_intern_wf(self@, e);
        }
        let mut i: usize = 0;
        while i < self.nodes.len()
            invariant
                self.wf(),
                self@ == old(self)@,
                expression_fits(self@, e, self@.len() as int),
                forall|j: int| 0 <= j < i ==> (#[trigger] self@[j]).expression != e,
            decreases self.nodes.len() - i,
        {
            if expressions_equal(&self.nodes[i].expression, &e) {
                proof {
                    reveal(nodes_wf);
                    reveal(intern_spec);
                    assert(self@[i as int].expression == e);
                    assert(contains_expression(self@, e));
                    let j = choose|j: int| 0 <= j < self@.len() && (#[trigger] self@[j]).expression == e;
                    assert(j == i);
                    lemma_wf_node(self@, i as int);
                }
                return i;
            }
            i = i + 1;
        }
        proof {
            reveal(intern_spec);
            assert(!contains_expression(self@, e));
        }
        let degree = self.expression_degree(&e);
        let evaluates_to_base = self.expression_is_base(&e);
        let id = self.nodes.len();
        self.nodes.push(CircuitNode { expression: e, degree, evaluates_to_base });
        proof {
            assert(self@ == old(self)@.push(new_node(old(self)@, e)));
        }
        id
    }

    /// The degree of `e` in this arena.
    fn expression_degree(&self, e: &CircuitExpression<II>) -> (r: usize)
        requires
            self.wf(),
            expression_fits(self@, *e, self@.len() as int),
        ensures
            r == expression_degree(self@, *e),
    {
        match e {
            CircuitExpression::Input(_) => 1,
            CircuitExpression::Challenge(_) => 1,
            CircuitExpression::BConstant(_) => 0,
            CircuitExpression::XConstant(_, _, _) => 0,
            CircuitExpression::BinaryOperation(op, l, r) => {
                let dl = self.nodes[*l].degree;
                let dr = self.nodes[*r].degree;
                match op {
                    BinOp::Mul => dl + dr,
                    _ => if dl >= dr {
                        dl
                    } else {
                        dr
                    },
                }
            },
        }
    }

    /// Whether `e`'s value lies in the base field.
    fn expression_is_base(&self, e: &CircuitExpression<II>) -> (r: bool)
        requires
            self.wf(),
            expression_fits(self@, *e, self@.len() as int),
        ensures
            r == expression_is_base(self@, *e),
    {
        match e {
            CircuitExpression::Input(ind) => ind.is_main_table_column(),
            CircuitExpression::Challenge(_) => false,
            CircuitExpression::BConstant(_) => true,
            CircuitExpression::XConstant(_, _, _) => false,
            CircuitExpression::BinaryOperation(_, l, r) => self.nodes[*l].evaluates_to_base
                && self.nodes[*r].evaluates_to_base,
        }
    }

    /// The leaf that reads the trace cell `indicator`.
    pub fn input(&mut self, indicator: II) -> (r: usize)
        requires
            old(self).wf(),
        ensures
            final(self).wf(),
            extends(old(self)@, final(self)@),
            r < final(self)@.len(),
            final(self)@[r as int] == new_node(old(self)@, CircuitExpression::Input(indicator)),
            (final(self)@, r as nat) == intern_spec(old(self)@, CircuitExpression::Input(indicator)),
    {
        self.intern(CircuitExpression::Input(indicator))
    }

    /// The leaf for challenge `id`.
    pub fn challenge(&mut self, id: usize) -> (r: usize)
        requires
            old(self).wf(),
        ensures
            final(self).wf(),
            extends(old(self)@, final(self)@),
            r < final(self)@.len(),
            final(self)@[r as int] == new_node(old(self)@, CircuitExpression::Challenge(id)),
            (final(self)@, r as nat) == intern_spec(old(self)@, CircuitExpression::Challenge(id)),
    {
        self.intern(CircuitExpression::Challenge(id))
    }

    /// The leaf for the base-field constant `value`, reduced modulo the field modulus.
    pub fn b_constant(&mut self, value: u64) -> (r: usize)
        requires
            old(self).wf(),
        ensures
            final(self).wf(),
            extends(old(self)@, final(self)@),
            r < final(self)@.len(),
            final(self)@[r as int] == new_node(old(self)@, CircuitExpression::BConstant(value % FIELD_MODULUS)),
            (final(self)@, r as nat) == intern_spec(
                old(self)@,
                CircuitExpression::BConstant(value % FIELD_MODULUS),
            ),
    {
        self.intern(CircuitExpression::BConstant(value % FIELD_MODULUS))
    }

    /// The leaf for the extension-field constant that embeds the base-field value `value`
    /// (reduced modulo the field modulus).
    pub fn x_constant(&mut self, value: u64) -> (r: usize)
        requires
            old(self).wf(),
        ensures
            final(self).wf(),
            extends(old(self)@, final(self)@),
            r < final(self)@.len(),
            final(self)@[r as int] == new_node(old(self)@, CircuitExpression::XConstant(value % FIELD_MODULUS, 0, 0)),
            (final(self)@, r as nat) == intern_spec(
                old(self)@,
                CircuitExpression::XConstant(value % FIELD_MODULUS, 0, 0),
            ),
    {
        self.intern(CircuitExpression::XConstant(value % FIELD_MODULUS, 0, 0))
    }

    /// The leaf for the extension-field constant with coefficients `c0`, `c1` and `c2`, each
    /// reduced modulo the field modulus.
    pub fn x_constant_from_coefficients(&mut self, c0: u64, c1: u64, c2: u64) -> (r: usize)
        requires
            old(self).wf(),
        ensures
            final(self).wf(),
            extends(old(self)@, final(self)@),
            r < final(self)@.len(),
            final(self)@[r as int] == new_node(old(self)@, CircuitExpression::XConstant(c0 % FIELD_MODULUS, c1 % FIELD_MODULUS, c2 % FIELD_MODULUS)),
            (final(self)@, r as nat) == intern_spec(
                old(self)@,
                CircuitExpression::XConstant(
                    c0 % FIELD_MODULUS,
                    c1 % FIELD_MODULUS,
                    c2 % FIELD_MODULUS,
                ),
            ),
    {
        self.intern(
            CircuitExpression::XConstant(c0 % FIELD_MODULUS, c1 % FIELD_MODULUS, c2 % FIELD_MODULUS),
        )
    }

    /// The arena's nodes, in order.
    pub fn into_nodes(self) -> (r: Vec<CircuitNode<II>>)
        ensures
            r@ == self@,
    {
        self.nodes
    }

    /// A copy of the arena.
    pub fn duplicate(&self) -> (r: Self)
        ensures
            r@ == self@,
    {
        let n = self.nodes.len();
        let mut nodes: Vec<CircuitNode<II>> = Vec::new();
        let mut i: usize = 0;
        while i < n
            invariant
                n == self@.len(),
                i <= n,
                nodes@ == self@.take(i as int),
            decreases n - i,
        {
            nodes.push(self.nodes[i]);
            i = i + 1;
            proof {
                assert(nodes@ =~= self@.take(i as int));
            }
        }
        proof {
            assert(nodes@ =~= self@);
        }
        ConstraintCircuitBuilder { nodes }
    }

    /// The node `lhs + rhs`.
    pub fn add(&mut self, lhs: usize, rhs: usize) -> (r: usize)
        requires
            old(self).wf(),
            lhs < old(self)@.len(),
            rhs < old(self)@.len(),
        ensures
            final(self).wf(),
            extends(old(self)@, final(self)@),
            r < final(self)@.len(),
            final(self)@[r as int] == new_node(old(self)@, CircuitExpression::BinaryOperation(BinOp::Add, lhs, rhs)),
            (final(self)@, r as nat) == intern_spec(
                old(self)@,
                CircuitExpression::BinaryOperation(BinOp::Add, lhs, rhs),
            ),
    {
        self.intern(CircuitExpression::BinaryOperation(BinOp::Add, lhs, rhs))
    }

    /// The node `lhs - rhs`.
    pub fn sub(&mut self, lhs: usize, rhs: usize) -> (r: usize)
        requires
            old(self).wf(),
            lhs < old(self)@.len(),
            rhs < old(self)@.len(),
        ensures
            final(self).wf(),
            extends(old(self)@, final(self)@),
            r < final(self)@.len(),
            final(self)@[r as int] == new_node(old(self)@, CircuitExpression::BinaryOperation(BinOp::Sub, lhs, rhs)),
            (final(self)@, r as nat) == intern_spec(
                old(self)@,
                CircuitExpression::BinaryOperation(BinOp::Sub, lhs, rhs),
            ),
    {
        self.intern(CircuitExpression::BinaryOperation(BinOp::Sub, lhs, rhs))
    }

    /// The node `lhs * rhs`. Its degree, the sum of the operands' degrees, must fit a `usize`.
    pub fn mul(&mut self, lhs: usize, rhs: usize) -> (r: usize)
        requires
            old(self).wf(),
            lhs < old(self)@.len(),
            rhs < old(self)@.len(),
            old(self)@[lhs as int].degree + old(self)@[rhs as int].degree <= usize::MAX,
        ensures
            final(self).wf(),
            extends(old(self)@, final(self)@),
            r < final(self)@.len(),
            final(self)@[r as int] == new_node(old(self)@, CircuitExpression::BinaryOperation(BinOp::Mul, lhs, rhs)),
            (final(self)@, r as nat) == intern_spec(
                old(self)@,
                CircuitExpression::BinaryOperation(BinOp::Mul, lhs, rhs),
            ),
    {
        self.intern(CircuitExpression::BinaryOperation(BinOp::Mul, lhs, rhs))
    }
}

} // verus!
