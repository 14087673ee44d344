//! Gathering the constraints of all tables. Each table, and the cross-table arguments, defines
//! its constraints for each bucket by building circuits into the bucket's arena; the buckets list
//! them source after source in a fixed order, the cross-table arguments last.

use vstd::prelude::*;

use crate::circuit::BinOp;
use crate::circuit::CircuitExpression;
use crate::circuit::CircuitNode;
use crate::circuit::ConstraintCircuitBuilder;
use crate::circuit::DualRowIndicator;
use crate::circuit::InputIndicator;
use crate::circuit::SingleRowIndicator;
use crate::circuit::FIELD_MODULUS;
use crate::circuit::extends;
use crate::circuit::intern_spec;
use crate::constraints::ConstraintSet;
use crate::constraints::Constraints;
use crate::lowering::roots_in;

verus! {

/// A source of constraints: a functional table, or the arguments that tie tables together.
#[derive(Debug, Clone, Copy, PartialEq, Eq, Hash, Structural)]
pub enum ConstraintSource {
    Program,
    Processor,
    OpStack,
    Ram,
    JumpStack,
    Hash,
    Cascade,
    Lookup,
    U32,
    CrossTableArgument,
}

/// A bucket of constraints: which rows they relate.
#[derive(Debug, Clone, Copy, PartialEq, Eq, Hash, Structural)]
pub enum Bucket {
    /// The first row.
    Initial,
    /// Every row.
    Consistency,
    /// Every pair of adjacent rows.
    Transition,
    /// The last row.
    Terminal,
}

/// The sources in the order in which a bucket lists their constraints: the tables in
/// master-table order, then the cross-table arguments.
pub open spec fn constraint_sources() -> Seq<ConstraintSource> {
    seq![
        ConstraintSource::Program,
        ConstraintSource::Processor,
        ConstraintSource::OpStack,
        ConstraintSource::Ram,
        ConstraintSource::JumpStack,
        ConstraintSource::Hash,
        ConstraintSource::Cascade,
        ConstraintSource::Lookup,
        ConstraintSource::U32,
        ConstraintSource::CrossTableArgument,
    ]
}

/// The sources in the order in which a bucket lists their constraints.
pub fn sources() -> (r: Vec<ConstraintSource>)
    ensures
        r@ == constraint_sources(),
{
    let r = vec![
        ConstraintSource::Program,
        ConstraintSource::Processor,
        ConstraintSource::OpStack,
        ConstraintSource::Ram,
        ConstraintSource::JumpStack,
        ConstraintSource::Hash,
        ConstraintSource::Cascade,
        ConstraintSource::Lookup,
        ConstraintSource::U32,
        ConstraintSource::CrossTableArgument,
    ];
    assert(r@ =~= constraint_sources());
    r
}

/// The constraint definitions of the tables and the cross-table arguments, for circuits over the
/// cells `II` names: single rows for the initial, consistency and terminal buckets, pairs of rows
/// for the transition bucket.
pub trait AIR<II: InputIndicator> {
    /// The arena after `source` built its constraints of `bucket` into `nodes`, and their roots.
    spec fn spec_constraints(
        &self,
        bucket: Bucket,
        source: ConstraintSource,
        nodes: Seq<CircuitNode<II>>,
    ) -> (Seq<CircuitNode<II>>, Seq<usize>);

    /// Builds the constraints of `bucket` that `source` defines into `builder`; returns their
    /// roots.
    fn constraints(
        &self,
        bucket: Bucket,
        source: ConstraintSource,
        builder: &mut ConstraintCircuitBuilder<II>,
    ) -> (r: Vec<usize>)
        requires
            old(builder).wf(),
        ensures
            final(builder).wf(),
            extends(old(builder)@, final(builder)@),
            roots_in(final(builder)@, r@),
            (final(builder)@, r@) == self.spec_constraints(bucket, source, old(builder)@),
    ;
}

/// The arena and roots after the first `sources` built their constraints of `bucket`, one after
/// another, into the arena `nodes`.
pub open spec fn collected<II: InputIndicator, D: AIR<II>>(
    definitions: D,
    bucket: Bucket,
    sources: Seq<ConstraintSource>,
    nodes: Seq<CircuitNode<II>>,
) -> (Seq<CircuitNode<II>>, Seq<usize>)
    decreases sources.len(),
{
    if sources.len() == 0 {
        (nodes, Seq::empty())
    } else {
        let (n1, r1) = collected(definitions, bucket, sources.drop_last(), nodes);
        let (n2, r2) = definitions.spec_constraints(bucket, sources.last(), n1);
        (n2, r1 + r2)
    }
}

/// The constraints of `bucket`, in a fresh arena: those of every source in the fixed order,
/// each built into the arena that the one before left.
pub fn collect_constraints<II: InputIndicator, D: AIR<II>>(definitions: &D, bucket: Bucket) -> (r:
    ConstraintSet<II>)
    ensures
        r.wf(),
        (r.builder@, r.roots@) == collected(*definitions, bucket, constraint_sources(), Seq::empty()),
{
    let all = sources();
    let mut builder: ConstraintCircuitBuilder<II> = ConstraintCircuitBuilder::new();
    let mut roots: Vec<usize> = Vec::new();
    let ghost start = builder@;
    let mut k: usize = 0;
    proof {
        assert(all@.take(0) =~= Seq::<ConstraintSource>::empty());
        assert(roots@ =~= Seq::<usize>::empty());
    }
    while k < all.len()
        invariant
            all@ == constraint_sources(),
            k <= all@.len(),
            builder.wf(),
            start.len() == 0,
            roots_in(builder@, roots@),
            (builder@, roots@) == collected(*definitions, bucket, all@.take(k as int), start),
        decreases all.len() - k,
    {
        let ghost before = builder@;
        let ghost roots_before = roots@;
        let new_roots = definitions.constraints(bucket, all[k], &mut builder);
        let mut j: usize = 0;
        while j < new_roots.len()
            invariant
                j <= new_roots@.len(),
                roots@ == roots_before + new_roots@.take(j as int),
            decreases new_roots.len() - j,
        {
            roots.push(new_roots[j]);
            j = j + 1;
            proof {
                assert(roots@ =~= roots_before + new_roots@.take(j as int));
            }
        }
        proof {
            assert(new_roots@.take(new_roots@.len() as int) =~= new_roots@);
            assert(all@.take(k + 1).drop_last() =~= all@.take(k as int));
            assert(all@.take(k + 1).last() == all@[k as int]);
            assert forall|i: int| 0 <= i < roots@.len() implies #[trigger] roots@[i] < builder@.len() by {
                if i < roots_before.len() {
                    assert(roots@[i] == roots_before[i]);
                } else {
                    assert(roots@[i] == new_roots@[i - roots_before.len()]);
                }
            }
        }
        k = k + 1;
    }
    proof {
        assert(all@.take(all@.len() as int) =~= all@);
        assert(start =~= Seq::<CircuitNode<II>>::empty());
    }
    ConstraintSet { builder, roots }
}

impl Constraints {
    /// The initial constraints of all tables and the cross-table arguments, in one fresh arena.
    pub fn initial_constraints<D: AIR<SingleRowIndicator>>(definitions: &D) -> (r: ConstraintSet<
        SingleRowIndicator,
    >)
        ensures
            r.wf(),
            (r.builder@, r.roots@) == collected(
                *definitions,
                Bucket::Initial,
                constraint_sources(),
                Seq::empty(),
            ),
    {
        collect_constraints(definitions, Bucket::Initial)
    }

    /// The consistency constraints of all tables and the cross-table arguments, in one fresh
    /// arena.
    pub fn consistency_constraints<D: AIR<SingleRowIndicator>>(definitions: &D) -> (r:
        ConstraintSet<SingleRowIndicator>)
        ensures
            r.wf(),
            (r.builder@, r.roots@) == collected(
                *definitions,
                Bucket::Consistency,
                constraint_sources(),
                Seq::empty(),
            ),
    {
        collect_constraints(definitions, Bucket::Consistency)
    }

    /// The transition constraints of all tables and the cross-table arguments, in one fresh
    /// arena.
    pub fn transition_constraints<D: AIR<DualRowIndicator>>(definitions: &D) -> (r: ConstraintSet<
        DualRowIndicator,
    >)
        ensures
            r.wf(),
            (r.builder@, r.roots@) == collected(
                *definitions,
                Bucket::Transition,
                constraint_sources(),
                Seq::empty(),
            ),
    {
        collect_constraints(definitions, Bucket::Transition)
    }

    /// The terminal constraints of all tables and the cross-table arguments, in one fresh arena.
    pub fn terminal_constraints<D: AIR<SingleRowIndicator>>(definitions: &D) -> (r: ConstraintSet<
        SingleRowIndicator,
    >)
        ensures
            r.wf(),
            (r.builder@, r.roots@) == collected(
                *definitions,
                Bucket::Terminal,
                constraint_sources(),
                Seq::empty(),
            ),
    {
        collect_constraints(definitions, Bucket::Terminal)
    }

    /// All constraints: each bucket gathered in an arena of its own.
    pub fn all<D: AIR<SingleRowIndicator> + AIR<DualRowIndicator>>(definitions: &D) -> (r: Self)
        ensures
            r.wf(),
            (r.init.builder@, r.init.roots@) == collected::<SingleRowIndicator, D>(
                *definitions,
                Bucket::Initial,
                constraint_sources(),
                Seq::empty(),
            ),
            (r.cons.builder@, r.cons.roots@) == collected::<SingleRowIndicator, D>(
                *definitions,
                Bucket::Consistency,
                constraint_sources(),
                Seq::empty(),
            ),
            (r.tran.builder@, r.tran.roots@) == collected::<DualRowIndicator, D>(
                *definitions,
                Bucket::Transition,
                constraint_sources(),
                Seq::empty(),
            ),
            (r.term.builder@, r.term.roots@) == collected::<SingleRowIndicator, D>(
                *definitions,
                Bucket::Terminal,
                constraint_sources(),
                Seq::empty(),
            ),
    {
        Constraints {
            init: Self::initial_constraints(definitions),
            cons: Self::consistency_constraints(definitions),
            tran: Self::transition_constraints(definitions),
            term: Self::terminal_constraints(definitions),
        }
    }
}

/// The cells `x0`, `x1` and `x2` of the small initial constraints.
pub open spec fn spec_initial_leaves(n0: Seq<CircuitNode<SingleRowIndicator>>) -> (Seq<CircuitNode<SingleRowIndicator>>, Seq<usize>) {
    let (n1, x0) = intern_spec(n0, CircuitExpression::Input(SingleRowIndicator::Main(0)));
    let (n2, x1) = intern_spec(n1, CircuitExpression::Input(SingleRowIndicator::Main(1)));
    let (n3, x2) = intern_spec(n2, CircuitExpression::Input(SingleRowIndicator::Main(2)));
    (n3, seq![x0 as usize, x1 as usize, x2 as usize])
}

/// Builds `spec_initial_leaves` into `builder`; returns its results.
fn initial_leaves(builder: &mut ConstraintCircuitBuilder<SingleRowIndicator>) -> (r: Vec<usize>)
    requires
        old(builder).wf(),
    ensures
        final(builder).wf(),
        extends(old(builder)@, final(builder)@),
        roots_in(final(builder)@, r@),
        r@.len() == 3,
        forall|k: int| 0 <= k < r@.len() ==> final(builder)@[#[trigger] r@[k] as int].degree <= 1,
        (final(builder)@, r@) == spec_initial_leaves(old(builder)@),
{
    let x0 = builder.input(SingleRowIndicator::Main(0));
    let x1 = builder.input(SingleRowIndicator::Main(1));
    let x2 = builder.input(SingleRowIndicator::Main(2));
    let r = vec![x0, x1, x2];
    proof {
        assert(r@ =~= seq![x0, x1, x2]);
    }
    r
}

/// `x0 * x1 - x2`.
pub open spec fn spec_initial_first(n0: Seq<CircuitNode<SingleRowIndicator>>, x0: nat, x1: nat, x2: nat) -> (Seq<CircuitNode<SingleRowIndicator>>, Seq<usize>) {
    let (n1, x0x1) = intern_spec(n0, CircuitExpression::BinaryOperation(BinOp::Mul, x0 as usize, x1 as usize));
    let (n2, first) = intern_spec(n1, CircuitExpression::BinaryOperation(BinOp::Sub, x0x1 as usize, x2 as usize));
    (n2, seq![first as usize])
}

/// Builds `spec_initial_first` into `builder`; returns its results.
fn initial_first(builder: &mut ConstraintCircuitBuilder<SingleRowIndicator>, x0: usize, x1: usize, x2: usize) -> (r: Vec<usize>)
    requires
        old(builder).wf(),
        x0 < old(builder)@.len(),
        old(builder)@[x0 as int].degree <= 4,
        x1 < old(builder)@.len(),
        old(builder)@[x1 as int].degree <= 4,
        x2 < old(builder)@.len(),
        old(builder)@[x2 as int].degree <= 4,
    ensures
        final(builder).wf(),
        extends(old(builder)@, final(builder)@),
        roots_in(final(builder)@, r@),
        r@.len() == 1,
        forall|k: int| 0 <= k < r@.len() ==> final(builder)@[#[trigger] r@[k] as int].degree <= 8,
        (final(builder)@, r@) == spec_initial_first(old(builder)@, x0 as nat, x1 as nat, x2 as nat),
{
    let x0x1 = builder.mul(x0, x1);
    let first = builder.sub(x0x1, x2);
    let r = vec![first];
    proof {
        assert(r@ =~= seq![first]);
    }
    r
}

/// `x^4`, as `((x * x) * x) * x`.
pub open spec fn spec_fourth_power(n0: Seq<CircuitNode<SingleRowIndicator>>, x: nat) -> (Seq<CircuitNode<SingleRowIndicator>>, Seq<usize>) {
    let (n1, x_2) = intern_spec(n0, CircuitExpression::BinaryOperation(BinOp::Mul, x as usize, x as usize));
    let (n2, x_3) = intern_spec(n1, CircuitExpression::BinaryOperation(BinOp::Mul, x_2 as usize, x as usize));
    let (n3, x_4) = intern_spec(n2, CircuitExpression::BinaryOperation(BinOp::Mul, x_3 as usize, x as usize));
    (n3, seq![x_4 as usize])
}

/// Builds `spec_fourth_power` into `builder`; returns its results.
fn fourth_power(builder: &mut ConstraintCircuitBuilder<SingleRowIndicator>, x: usize) -> (r: Vec<usize>)
    requires
        old(builder).wf(),
        x < old(builder)@.len(),
        old(builder)@[x as int].degree <= 1,
    ensures
        final(builder).wf(),
        extends(old(builder)@, final(builder)@),
        roots_in(final(builder)@, r@),
        r@.len() == 1,
        forall|k: int| 0 <= k < r@.len() ==> final(builder)@[#[trigger] r@[k] as int].degree <= 4,
        (final(builder)@, r@) == spec_fourth_power(old(builder)@, x as nat),
{
    let x_2 = builder.mul(x, x);
    let x_3 = builder.mul(x_2, x);
    let x_4 = builder.mul(x_3, x);
    let r = vec![x_4];
    proof {
        assert(r@ =~= seq![x_4]);
    }
    r
}

/// `x0^4 - challenge 1 - 16`, given `x0^4`.
pub open spec fn spec_initial_second(n0: Seq<CircuitNode<SingleRowIndicator>>, x0_4: nat) -> (Seq<CircuitNode<SingleRowIndicator>>, Seq<usize>) {
    let (n1, ch1) = intern_spec(n0, CircuitExpression::Challenge(1));
    let (n2, k16) = intern_spec(n1, CircuitExpression::BConstant(16u64 % FIELD_MODULUS));
    let (n3, t) = intern_spec(n2, CircuitExpression::BinaryOperation(BinOp::Sub, x0_4 as usize, ch1 as usize));
    let (n4, second) = intern_spec(n3, CircuitExpression::BinaryOperation(BinOp::Sub, t as usize, k16 as usize));
    (n4, seq![second as usize])
}

/// Builds `spec_initial_second` into `builder`; returns its results.
fn initial_second(builder: &mut ConstraintCircuitBuilder<SingleRowIndicator>, x0_4: usize) -> (r: Vec<usize>)
    requires
        old(builder).wf(),
        x0_4 < old(builder)@.len(),
        old(builder)@[x0_4 as int].degree <= 4,
    ensures
        final(builder).wf(),
        extends(old(builder)@, final(builder)@),
        roots_in(final(builder)@, r@),
        r@.len() == 1,
        forall|k: int| 0 <= k < r@.len() ==> final(builder)@[#[trigger] r@[k] as int].degree <= 8,
        (final(builder)@, r@) == spec_initial_second(old(builder)@, x0_4 as nat),
{
    let ch1 = builder.challenge(1);
    let k16 = builder.b_constant(16);
    let t = builder.sub(x0_4, ch1);
    let second = builder.sub(t, k16);
    let r = vec![second];
    proof {
        assert(r@ =~= seq![second]);
    }
    r
}

/// `x2 * x0^4 - x1^4`, given `x2`, `x0^4` and `x1^4`.
pub open spec fn spec_initial_third(n0: Seq<CircuitNode<SingleRowIndicator>>, x2: nat, x0_4: nat, x1_4: nat) -> (Seq<CircuitNode<SingleRowIndicator>>, Seq<usize>) {
    let (n1, p) = intern_spec(n0, CircuitExpression::BinaryOperation(BinOp::Mul, x2 as usize, x0_4 as usize));
    let (n2, third) = intern_spec(n1, CircuitExpression::BinaryOperation(BinOp::Sub, p as usize, x1_4 as usize));
    (n2, seq![third as usize])
}

/// Builds `spec_initial_third` into `builder`; returns its results.
fn initial_third(builder: &mut ConstraintCircuitBuilder<SingleRowIndicator>, x2: usize, x0_4: usize, x1_4: usize) -> (r: Vec<usize>)
    requires
        old(builder).wf(),
        x2 < old(builder)@.len(),
        old(builder)@[x2 as int].degree <= 4,
        x0_4 < old(builder)@.len(),
        old(builder)@[x0_4 as int].degree <= 4,
        x1_4 < old(builder)@.len(),
        old(builder)@[x1_4 as int].degree <= 4,
    ensures
        final(builder).wf(),
        extends(old(builder)@, final(builder)@),
        roots_in(final(builder)@, r@),
        r@.len() == 1,
        forall|k: int| 0 <= k < r@.len() ==> final(builder)@[#[trigger] r@[k] as int].degree <= 8,
        (final(builder)@, r@) == spec_initial_third(old(builder)@, x2 as nat, x0_4 as nat, x1_4 as nat),
{
    let p = builder.mul(x2, x0_4);
    let third = builder.sub(p, x1_4);
    let r = vec![third];
    proof {
        assert(r@ =~= seq![third]);
    }
    r
}

/// The main-column cells of the small transition constraints.
pub open spec fn spec_transition_main_leaves(n0: Seq<CircuitNode<DualRowIndicator>>) -> (Seq<CircuitNode<DualRowIndicator>>, Seq<usize>) {
    let (n1, curr_b0) = intern_spec(n0, CircuitExpression::Input(DualRowIndicator::CurrentMain(0)));
    let (n2, curr_b1) = intern_spec(n1, CircuitExpression::Input(DualRowIndicator::CurrentMain(1)));
    let (n3, curr_b2) = intern_spec(n2, CircuitExpression::Input(DualRowIndicator::CurrentMain(2)));
    let (n4, next_b1) = intern_spec(n3, CircuitExpression::Input(DualRowIndicator::NextMain(1)));
    let (n5, next_b2) = intern_spec(n4, CircuitExpression::Input(DualRowIndicator::NextMain(2)));
    (n5, seq![curr_b0 as usize, curr_b1 as usize, curr_b2 as usize, next_b1 as usize, next_b2 as usize])
}

/// Builds `spec_transition_main_leaves` into `builder`; returns its results.
fn transition_main_leaves(builder: &mut ConstraintCircuitBuilder<DualRowIndicator>) -> (r: Vec<usize>)
    requires
        old(builder).wf(),
    ensures
        final(builder).wf(),
        extends(old(builder)@, final(builder)@),
        roots_in(final(builder)@, r@),
        r@.len() == 5,
        forall|k: int| 0 <= k < r@.len() ==> final(builder)@[#[trigger] r@[k] as int].degree <= 1,
        (final(builder)@, r@) == spec_transition_main_leaves(old(builder)@),
{
    let curr_b0 = builder.input(DualRowIndicator::CurrentMain(0));
    let curr_b1 = builder.input(DualRowIndicator::CurrentMain(1));
    let curr_b2 = builder.input(DualRowIndicator::CurrentMain(2));
    let next_b1 = builder.input(DualRowIndicator::NextMain(1));
    let next_b2 = builder.input(DualRowIndicator::NextMain(2));
    let r = vec![curr_b0, curr_b1, curr_b2, next_b1, next_b2];
    proof {
        assert(r@ =~= seq![curr_b0, curr_b1, curr_b2, next_b1, next_b2]);
    }
    r
}

/// The auxiliary-column cells of the small transition constraints, but `next_aux3`.
pub open spec fn spec_transition_aux_leaves(n0: Seq<CircuitNode<DualRowIndicator>>) -> (Seq<CircuitNode<DualRowIndicator>>, Seq<usize>) {
    let (n1, curr_x0) = intern_spec(n0, CircuitExpression::Input(DualRowIndicator::CurrentAux(0)));
    let (n2, curr_x1) = intern_spec(n1, CircuitExpression::Input(DualRowIndicator::CurrentAux(1)));
    let (n3, next_x0) = intern_spec(n2, CircuitExpression::Input(DualRowIndicator::NextAux(0)));
    let (n4, next_x1) = intern_spec(n3, CircuitExpression::Input(DualRowIndicator::NextAux(1)));
    let (n5, next_x2) = intern_spec(n4, CircuitExpression::Input(DualRowIndicator::NextAux(2)));
    (n5, seq![curr_x0 as usize, curr_x1 as usize, next_x0 as usize, next_x1 as usize, next_x2 as usize])
}

/// Builds `spec_transition_aux_leaves` into `builder`; returns its results.
fn transition_aux_leaves(builder: &mut ConstraintCircuitBuilder<DualRowIndicator>) -> (r: Vec<usize>)
    requires
        old(builder).wf(),
    ensures
        final(builder).wf(),
        extends(old(builder)@, final(builder)@),
        roots_in(final(builder)@, r@),
        r@.len() == 5,
        forall|k: int| 0 <= k < r@.len() ==> final(builder)@[#[trigger] r@[k] as int].degree <= 1,
        (final(builder)@, r@) == spec_transition_aux_leaves(old(builder)@),
{
    let curr_x0 = builder.input(DualRowIndicator::CurrentAux(0));
    let curr_x1 = builder.input(DualRowIndicator::CurrentAux(1));
    let next_x0 = builder.input(DualRowIndicator::NextAux(0));
    let next_x1 = builder.input(DualRowIndicator::NextAux(1));
    let next_x2 = builder.input(DualRowIndicator::NextAux(2));
    let r = vec![curr_x0, curr_x1, next_x0, next_x1, next_x2];
    proof {
        assert(r@ =~= seq![curr_x0, curr_x1, next_x0, next_x1, next_x2]);
    }
    r
}

/// `next_aux3`, challenges 0 and 1, and the constant 42.
pub open spec fn spec_transition_other_leaves(n0: Seq<CircuitNode<DualRowIndicator>>) -> (Seq<CircuitNode<DualRowIndicator>>, Seq<usize>) {
    let (n1, next_x3) = intern_spec(n0, CircuitExpression::Input(DualRowIndicator::NextAux(3)));
    let (n2, ch0) = intern_spec(n1, CircuitExpression::Challenge(0));
    let (n3, ch1) = intern_spec(n2, CircuitExpression::Challenge(1));
    let (n4, c42) = intern_spec(n3, CircuitExpression::XConstant(42u64 % FIELD_MODULUS, 0, 0));
    (n4, seq![next_x3 as usize, ch0 as usize, ch1 as usize, c42 as usize])
}

/// Builds `spec_transition_other_leaves` into `builder`; returns its results.
fn transition_other_leaves(builder: &mut ConstraintCircuitBuilder<DualRowIndicator>) -> (r: Vec<usize>)
    requires
        old(builder).wf(),
    ensures
        final(builder).wf(),
        extends(old(builder)@, final(builder)@),
        roots_in(final(builder)@, r@),
        r@.len() == 4,
        forall|k: int| 0 <= k < r@.len() ==> final(builder)@[#[trigger] r@[k] as int].degree <= 1,
        (final(builder)@, r@) == spec_transition_other_leaves(old(builder)@),
{
    let next_x3 = builder.input(DualRowIndicator::NextAux(3));
    let ch0 = builder.challenge(0);
    let ch1 = builder.challenge(1);
    let c42 = builder.x_constant(42);
    let r = vec![next_x3, ch0, ch1, c42];
    proof {
        assert(r@ =~= seq![next_x3, ch0, ch1, c42]);
    }
    r
}

/// `a * b - c * d`.
pub open spec fn spec_cross_difference(n0: Seq<CircuitNode<DualRowIndicator>>, a: nat, b: nat, c: nat, d: nat) -> (Seq<CircuitNode<DualRowIndicator>>, Seq<usize>) {
    let (n1, l) = intern_spec(n0, CircuitExpression::BinaryOperation(BinOp::Mul, a as usize, b as usize));
    let (n2, r) = intern_spec(n1, CircuitExpression::BinaryOperation(BinOp::Mul, c as usize, d as usize));
    let (n3, diff) = intern_spec(n2, CircuitExpression::BinaryOperation(BinOp::Sub, l as usize, r as usize));
    (n3, seq![diff as usize])
}

/// Builds `spec_cross_difference` into `builder`; returns its results.
fn cross_difference(builder: &mut ConstraintCircuitBuilder<DualRowIndicator>, a: usize, b: usize, c: usize, d: usize) -> (r: Vec<usize>)
    requires
        old(builder).wf(),
        a < old(builder)@.len(),
        old(builder)@[a as int].degree <= 4,
        b < old(builder)@.len(),
        old(builder)@[b as int].degree <= 4,
        c < old(builder)@.len(),
        old(builder)@[c as int].degree <= 4,
        d < old(builder)@.len(),
        old(builder)@[d as int].degree <= 4,
    ensures
        final(builder).wf(),
        extends(old(builder)@, final(builder)@),
        roots_in(final(builder)@, r@),
        r@.len() == 1,
        forall|k: int| 0 <= k < r@.len() ==> final(builder)@[#[trigger] r@[k] as int].degree <= 8,
        (final(builder)@, r@) == spec_cross_difference(old(builder)@, a as nat, b as nat, c as nat, d as nat),
{
    let l = builder.mul(a, b);
    let r = builder.mul(c, d);
    let diff = builder.sub(l, r);
    let r = vec![diff];
    proof {
        assert(r@ =~= seq![diff]);
    }
    r
}

/// `curr2 * next_aux0 * next_aux1 * next_aux3 + 42`, given the cells and the constant.
pub open spec fn spec_transition_third(n0: Seq<CircuitNode<DualRowIndicator>>, c2: nat, next0: nat, next1: nat, next3: nat, c42: nat) -> (Seq<CircuitNode<DualRowIndicator>>, Seq<usize>) {
    let (n1, p1) = intern_spec(n0, CircuitExpression::BinaryOperation(BinOp::Mul, c2 as usize, next0 as usize));
    let (n2, p2) = intern_spec(n1, CircuitExpression::BinaryOperation(BinOp::Mul, p1 as usize, next1 as usize));
    let (n3, p3) = intern_spec(n2, CircuitExpression::BinaryOperation(BinOp::Mul, p2 as usize, next3 as usize));
    let (n4, third) = intern_spec(n3, CircuitExpression::BinaryOperation(BinOp::Add, p3 as usize, c42 as usize));
    (n4, seq![third as usize])
}

/// Builds `spec_transition_third` into `builder`; returns its results.
fn transition_third(builder: &mut ConstraintCircuitBuilder<DualRowIndicator>, c2: usize, next0: usize, next1: usize, next3: usize, c42: usize) -> (r: Vec<usize>)
    requires
        old(builder).wf(),
        c2 < old(builder)@.len(),
        old(builder)@[c2 as int].degree <= 4,
        next0 < old(builder)@.len(),
        old(builder)@[next0 as int].degree <= 4,
        next1 < old(builder)@.len(),
        old(builder)@[next1 as int].degree <= 4,
        next3 < old(builder)@.len(),
        old(builder)@[next3 as int].degree <= 4,
        c42 < old(builder)@.len(),
        old(builder)@[c42 as int].degree <= 4,
    ensures
        final(builder).wf(),
        extends(old(builder)@, final(builder)@),
        roots_in(final(builder)@, r@),
        r@.len() == 1,
        forall|k: int| 0 <= k < r@.len() ==> final(builder)@[#[trigger] r@[k] as int].degree <= 16,
        (final(builder)@, r@) == spec_transition_third(old(builder)@, c2 as nat, next0 as nat, next1 as nat, next3 as nat, c42 as nat),
{
    let p1 = builder.mul(c2, next0);
    let p2 = builder.mul(p1, next1);
    let p3 = builder.mul(p2, next3);
    let third = builder.add(p3, c42);
    let r = vec![third];
    proof {
        assert(r@ =~= seq![third]);
    }
    r
}

/// `curr0 * challenge 0 - challenge 1`, given the cell and the challenges.
pub open spec fn spec_transition_fourth(n0: Seq<CircuitNode<DualRowIndicator>>, c0: nat, ch0: nat, ch1: nat) -> (Seq<CircuitNode<DualRowIndicator>>, Seq<usize>) {
    let (n1, p) = intern_spec(n0, CircuitExpression::BinaryOperation(BinOp::Mul, c0 as usize, ch0 as usize));
    let (n2, fourth) = intern_spec(n1, CircuitExpression::BinaryOperation(BinOp::Sub, p as usize, ch1 as usize));
    (n2, seq![fourth as usize])
}

/// Builds `spec_transition_fourth` into `builder`; returns its results.
fn transition_fourth(builder: &mut ConstraintCircuitBuilder<DualRowIndicator>, c0: usize, ch0: usize, ch1: usize) -> (r: Vec<usize>)
    requires
        old(builder).wf(),
        c0 < old(builder)@.len(),
        old(builder)@[c0 as int].degree <= 4,
        ch0 < old(builder)@.len(),
        old(builder)@[ch0 as int].degree <= 4,
        ch1 < old(builder)@.len(),
        old(builder)@[ch1 as int].degree <= 4,
    ensures
        final(builder).wf(),
        extends(old(builder)@, final(builder)@),
        roots_in(final(builder)@, r@),
        r@.len() == 1,
        forall|k: int| 0 <= k < r@.len() ==> final(builder)@[#[trigger] r@[k] as int].degree <= 8,
        (final(builder)@, r@) == spec_transition_fourth(old(builder)@, c0 as nat, ch0 as nat, ch1 as nat),
{
    let p = builder.mul(c0, ch0);
    let fourth = builder.sub(p, ch1);
    let r = vec![fourth];
    proof {
        assert(r@ =~= seq![fourth]);
    }
    r
}

/// The small initial constraints: `x0 * x1 - x2`, `x0^4 - challenge 1 - 16` and
/// `x2 * x0^4 - x1^4`, built into the arena `n0`, and their roots.
pub open spec fn small_initial_constraints(n0: Seq<CircuitNode<SingleRowIndicator>>) -> (Seq<
    CircuitNode<SingleRowIndicator>,
>, Seq<usize>) {
    let (n1, leaves) = spec_initial_leaves(n0);
    let (n2, first) = spec_initial_first(
        n1,
        leaves[0] as nat,
        leaves[1] as nat,
        leaves[2] as nat,
    );
    let (n3, x0_4) = spec_fourth_power(n2, leaves[0] as nat);
    let (n4, second) = spec_initial_second(n3, x0_4[0] as nat);
    let (n5, x1_4) = spec_fourth_power(n4, leaves[1] as nat);
    let (n6, third) = spec_initial_third(n5, leaves[2] as nat, x0_4[0] as nat, x1_4[0] as nat);
    (n6, seq![first[0], second[0], third[0]])
}

/// Builds `small_initial_constraints` into `builder`; returns their roots.
#[verifier::rlimit(100)]
fn build_small_initial_constraints(builder: &mut ConstraintCircuitBuilder<SingleRowIndicator>) -> (r:
    Vec<usize>)
    requires
        old(builder).wf(),
    ensures
        final(builder).wf(),
        extends(old(builder)@, final(builder)@),
        roots_in(final(builder)@, r@),
        (final(builder)@, r@) == small_initial_constraints(old(builder)@),
{
    let leaves = initial_leaves(builder);
    let first = initial_first(builder, leaves[0], leaves[1], leaves[2]);
    let x0_4 = fourth_power(builder, leaves[0]);
    let second = initial_second(builder, x0_4[0]);
    let x1_4 = fourth_power(builder, leaves[1]);
    let third = initial_third(builder, leaves[2], x0_4[0], x1_4[0]);
    let r = vec![first[0], second[0], third[0]];
    proof {
        assert(r@ =~= seq![first@[0], second@[0], third@[0]]);
    }
    r
}

/// The cells, challenges and constant of the small transition constraints: the main-column
/// cells, then the auxiliary-column cells but `next_aux3`, then `next_aux3`, the challenges and
/// the constant.
pub open spec fn spec_transition_leaves(n0: Seq<CircuitNode<DualRowIndicator>>) -> (Seq<
    CircuitNode<DualRowIndicator>,
>, Seq<usize>) {
    let (n1, m) = spec_transition_main_leaves(n0);
    let (n2, x) = spec_transition_aux_leaves(n1);
    let (n3, o) = spec_transition_other_leaves(n2);
    (n3, m + x + o)
}

/// Builds `spec_transition_leaves` into `builder`; returns the leaves.
fn transition_leaves(builder: &mut ConstraintCircuitBuilder<DualRowIndicator>) -> (r: Vec<usize>)
    requires
        old(builder).wf(),
    ensures
        final(builder).wf(),
        extends(old(builder)@, final(builder)@),
        roots_in(final(builder)@, r@),
        r@.len() == 14,
        forall|k: int| 0 <= k < r@.len() ==> final(builder)@[#[trigger] r@[k] as int].degree <= 1,
        (final(builder)@, r@) == spec_transition_leaves(old(builder)@),
{
    let m = transition_main_leaves(builder);
    let ghost b1 = builder@;
    let x = transition_aux_leaves(builder);
    let ghost b2 = builder@;
    let o = transition_other_leaves(builder);
    let mut r = m;
    let mut x = x;
    let mut o = o;
    r.append(&mut x);
    r.append(&mut o);
    proof {
        assert forall|k: int| 0 <= k < r@.len() implies #[trigger] r@[k] < builder@.len()
            && builder@[r@[k] as int].degree <= 1 by {
            if k < 5 {
                assert(builder@[r@[k] as int] == b1[r@[k] as int]);
            } else if k < 10 {
                assert(builder@[r@[k] as int] == b2[r@[k] as int]);
            }
        }
    }
    r
}

/// The small transition constraints: `curr0 * next_aux1 - next1 * curr_aux0`,
/// `curr1 * next_aux2 - next2 * curr_aux1`, `curr2 * next_aux0 * next_aux1 * next_aux3 + 42` and
/// `curr0 * challenge 0 - challenge 1`, built into the arena `n0`, and their roots.
pub open spec fn small_transition_constraints(n0: Seq<CircuitNode<DualRowIndicator>>) -> (Seq<
    CircuitNode<DualRowIndicator>,
>, Seq<usize>) {
    let (n3, leaves) = spec_transition_leaves(n0);
    let m = leaves.subrange(0, 5);
    let x = leaves.subrange(5, 10);
    let o = leaves.subrange(10, 14);
    let (n4, first) = spec_cross_difference(n3, m[0] as nat, x[3] as nat, m[3] as nat, x[0] as nat);
    let (n5, second) = spec_cross_difference(
        n4,
        m[1] as nat,
        x[4] as nat,
        m[4] as nat,
        x[1] as nat,
    );
    let (n6, third) = spec_transition_third(
        n5,
        m[2] as nat,
        x[2] as nat,
        x[3] as nat,
        o[0] as nat,
        o[3] as nat,
    );
    let (n7, fourth) = spec_transition_fourth(n6, m[0] as nat, o[1] as nat, o[2] as nat);
    (n7, seq![first[0], second[0], third[0], fourth[0]])
}

/// Builds `small_transition_constraints` into `builder`; returns their roots.
#[verifier::rlimit(100)]
fn build_small_transition_constraints(builder: &mut ConstraintCircuitBuilder<DualRowIndicator>) -> (r:
    Vec<usize>)
    requires
        old(builder).wf(),
    ensures
        final(builder).wf(),
        extends(old(builder)@, final(builder)@),
        roots_in(final(builder)@, r@),
        (final(builder)@, r@) == small_transition_constraints(old(builder)@),
{
    let leaves = transition_leaves(builder);
    let first = cross_difference(builder, leaves[0], leaves[8], leaves[3], leaves[5]);
    let second = cross_difference(builder, leaves[1], leaves[9], leaves[4], leaves[6]);
    let third = transition_third(builder, leaves[2], leaves[7], leaves[8], leaves[10], leaves[13]);
    let fourth = transition_fourth(builder, leaves[0], leaves[11], leaves[12]);
    let r = vec![first[0], second[0], third[0], fourth[0]];
    proof {
        assert(r@ =~= seq![first@[0], second@[0], third@[0], fourth@[0]]);
    }
    r
}

/// Small constraint definitions with no meaning of their own, for exercising gathering and
/// lowering: the program table defines three initial and four transition constraints, and no
/// source defines any other.
pub struct SmallConstraints;

impl AIR<SingleRowIndicator> for SmallConstraints {
    open spec fn spec_constraints(
        &self,
        bucket: Bucket,
        source: ConstraintSource,
        nodes: Seq<CircuitNode<SingleRowIndicator>>,
    ) -> (Seq<CircuitNode<SingleRowIndicator>>, Seq<usize>) {
        if bucket == Bucket::Initial && source == ConstraintSource::Program {
            small_initial_constraints(nodes)
        } else {
            (nodes, Seq::empty())
        }
    }

    fn constraints(
        &self,
        bucket: Bucket,
        source: ConstraintSource,
        builder: &mut ConstraintCircuitBuilder<SingleRowIndicator>,
    ) -> (r: Vec<usize>) {
        if bucket == Bucket::Initial && source == ConstraintSource::Program {
            build_small_initial_constraints(builder)
        } else {
            Vec::new()
        }
    }
}

impl AIR<DualRowIndicator> for SmallConstraints {
    open spec fn spec_constraints(
        &self,
        bucket: Bucket,
        source: ConstraintSource,
        nodes: Seq<CircuitNode<DualRowIndicator>>,
    ) -> (Seq<CircuitNode<DualRowIndicator>>, Seq<usize>) {
        if bucket == Bucket::Transition && source == ConstraintSource::Program {
            small_transition_constraints(nodes)
        } else {
            (nodes, Seq::empty())
        }
    }

    fn constraints(
        &self,
        bucket: Bucket,
        source: ConstraintSource,
        builder: &mut ConstraintCircuitBuilder<DualRowIndicator>,
    ) -> (r: Vec<usize>) {
        if bucket == Bucket::Transition && source == ConstraintSource::Program {
            build_small_transition_constraints(builder)
        } else {
            Vec::new()
        }
    }
}

} // verus!
