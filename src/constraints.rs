//! The constraints of all tables, in four buckets: initial, consistency, transition and terminal.
//! Each bucket is built in an arena of its own, since single-row and dual-row circuits cannot
//! mix. The tables' definitions build their constraints into these arenas through the builder,
//! bucket by bucket, one table after another in the fixed table order (program, processor, op
//! stack, RAM, jump stack, hash, cascade, lookup, U32), and the cross-table arguments last; the
//! roots of a bucket keep that order. Degree lowering goes through the buckets in the order
//! initial, consistency, transition, terminal, and columns that one bucket allocates are not
//! reused by a later one.

use vstd::prelude::*;

use crate::circuit::CircuitNode;
use crate::circuit::ConstraintCircuitBuilder;
use crate::circuit::DualRowIndicator;
use crate::circuit::InputIndicator;
use crate::circuit::SingleRowIndicator;
use crate::circuit::expressions_equal;
use crate::circuit::lemma_wf_distinct;
use crate::circuit::nodes_distinct;
use crate::lowering::DegreeLoweringError;
use crate::lowering::DegreeLoweringInfo;
use crate::circuit::extends;
use crate::lowering::degrees_at_most;
use crate::lowering::forest_size;
use crate::lowering::Lowered;
use crate::lowering::is_substitution;
use crate::lowering::lowering_of;
use crate::lowering::roots_in;
use crate::lowering::substitutions_wf;

verus! {

/// The constraints of one bucket: circuits built in one arena, each of which must evaluate to
/// zero.
pub struct ConstraintSet<II> {
    pub builder: ConstraintCircuitBuilder<II>,
    pub roots: Vec<usize>,
}

impl<II: InputIndicator> ConstraintSet<II> {
    /// The arena is well-formed and holds every root.
    pub open spec fn wf(&self) -> bool {
        self.builder.wf() && roots_in(self.builder@, self.roots@)
    }

    /// Every root has degree at most `d`.
    pub open spec fn degrees_at_most(&self, d: int) -> bool {
        degrees_at_most(self.builder@, self.roots@, d)
    }

    /// `after` rewrites this bucket in place: the same number of roots, the arena only
    /// extended, and every root that is a leaf kept as it is.
    pub open spec fn rewrites_in_place(&self, after: &Self) -> bool {
        &&& after.roots@.len() == self.roots@.len()
        &&& extends(self.builder@, after.builder@)
        &&& forall|k: int|
            0 <= k < self.roots@.len() && !(self.builder@[#[trigger] self.roots@[k] as int].expression is BinaryOperation)
                ==> after.roots@[k] == self.roots@[k]
    }

    /// A copy of the bucket.
    pub fn duplicate(&self) -> (r: Self)
        ensures
            r.builder@ == self.builder@,
            r.roots@ == self.roots@,
    {
        let builder = self.builder.duplicate();
        let mut roots: Vec<usize> = Vec::new();
        let mut k: usize = 0;
        while k < self.roots.len()
            invariant
                k <= self.roots@.len(),
                roots@ == self.roots@.take(k as int),
            decreases self.roots.len() - k,
        {
            roots.push(self.roots[k]);
            k = k + 1;
            proof {
                assert(roots@ =~= self.roots@.take(k as int));
            }
        }
        proof {
            assert(roots@ =~= self.roots@);
        }
        ConstraintSet { builder, roots }
    }

    /// An empty bucket.
    pub fn new() -> (r: Self)
        ensures
            r.wf(),
            r.builder@.len() == 0,
            r.roots@.len() == 0,
    {
        ConstraintSet { builder: ConstraintCircuitBuilder::new(), roots: Vec::new() }
    }

    /// Lowers the bucket's circuits to degree `info.target_degree` or less; see
    /// `ConstraintCircuitBuilder::lower_to_degree`.
    pub fn lower_to_degree(&mut self, info: DegreeLoweringInfo) -> (r: Result<
        (Vec<usize>, Vec<usize>),
        DegreeLoweringError,
    >)
        requires
            old(self).wf(),
        ensures
            final(self).wf(),
            old(self).rewrites_in_place(&*final(self)),
            old(self).degrees_at_most(info.target_degree as int) ==> r is Ok && final(self).builder@
                == old(self).builder@ && final(self).roots@ == old(self).roots@,
            info.target_degree >= 2 && info.num_main_cols + forest_size(
                old(self).builder@,
                old(self).roots@,
            ) <= usize::MAX && info.num_aux_cols + forest_size(old(self).builder@, old(self).roots@)
                <= usize::MAX ==> r is Ok,
            match r {
                Ok((main, aux)) => {
                    &&& main@.len() + aux@.len() <= forest_size(old(self).builder@, old(self).roots@)
                    &&& final(self).degrees_at_most(info.target_degree as int)
                    &&& substitutions_wf(
                        final(self).builder@,
                        main@,
                        info.num_main_cols as int,
                        true,
                        info.target_degree as int,
                    )
                    &&& substitutions_wf(
                        final(self).builder@,
                        aux@,
                        info.num_aux_cols as int,
                        false,
                        info.target_degree as int,
                    )
                    &&& old(self).degrees_at_most(info.target_degree as int) ==> main@.len() == 0
                        && aux@.len() == 0
                    &&& lowering_of(old(self).builder@, old(self).roots@, info) == Ok::<
                        Lowered<II>,
                        DegreeLoweringError,
                    >((final(self).builder@, final(self).roots@, main@, aux@))
                },
                Err(e) => {
                    &&& lowering_of(old(self).builder@, old(self).roots@, info) == Err::<
                        Lowered<II>,
                        DegreeLoweringError,
                    >(e)
                    &&& !old(self).degrees_at_most(info.target_degree as int)
                    &&& e == DegreeLoweringError::InfeasibleTargetDegree <==> info.target_degree < 2
                },
            },
    {
        self.builder.lower_to_degree(&mut self.roots, info)
    }

    /// The bucket's circuits detached from construction: a copy of the arena and the roots,
    /// after checking that no two nodes share an expression.
    pub fn consume(&self) -> (r: ConsumedCircuits<II>)
        requires
            self.wf(),
        ensures
            r.nodes@ == self.builder@,
            r.roots@ == self.roots@,
            nodes_distinct(r.nodes@),
    {
        let copy = self.duplicate();
        let ConstraintSet { builder, roots } = copy;
        let nodes = builder.into_nodes();
        proof {
            lemma_wf_distinct(self.builder@);
        }
        let unique = has_unique_ids(&nodes);
        proof {
            assert(unique);
        }
        ConsumedCircuits { nodes, roots }
    }
}

/// Substitutions exist only where the target degree is at least 2.
pub proof fn lemma_substitutions_need_target<II: InputIndicator>(
    nodes: Seq<CircuitNode<II>>,
    constraints: Seq<usize>,
    first: int,
    main: bool,
    target: int,
)
    requires
        substitutions_wf(nodes, constraints, first, main, target),
        constraints.len() > 0,
    ensures
        target >= 2,
{
    reveal(substitutions_wf);
    assert(is_substitution(
        nodes,
        constraints[0] as int,
        if main {
            II::spec_main_table_input(first as nat)
        } else {
            II::spec_aux_table_input(first as nat)
        },
        main,
        target,
    ));
}

/// Circuits that construction is done with: the nodes of their arena and their roots.
pub struct ConsumedCircuits<II> {
    pub nodes: Vec<CircuitNode<II>>,
    pub roots: Vec<usize>,
}

/// Whether every node has an expression of its own, so that its index identifies it.
pub fn has_unique_ids<II: InputIndicator>(nodes: &Vec<CircuitNode<II>>) -> (r: bool)
    ensures
        r == nodes_distinct(nodes@),
{
    let n = nodes.len();
    let mut i: usize = 0;
    while i < n
        invariant
            n == nodes@.len(),
            i <= n,
            forall|a: int, b: int|
                0 <= a < i && 0 <= b < n && a != b ==> (#[trigger] nodes@[a]).expression
                    != (#[trigger] nodes@[b]).expression,
        decreases n - i,
    {
        let mut j: usize = 0;
        while j < n
            invariant
                n == nodes@.len(),
                i < n,
                j <= n,
                forall|a: int, b: int|
                    0 <= a < i && 0 <= b < n && a != b ==> (#[trigger] nodes@[a]).expression
                        != (#[trigger] nodes@[b]).expression,
                forall|b: int|
                    0 <= b < j && b != i ==> nodes@[i as int].expression != (
                    #[trigger] nodes@[b]).expression,
            decreases n - j,
        {
            if j != i && expressions_equal(&nodes[i].expression, &nodes[j].expression) {
                proof {
                    assert(nodes@[i as int].expression == nodes@[j as int].expression);
                }
                return false;
            }
            j = j + 1;
        }
        i = i + 1;
    }
    true
}

/// The constraints that degree lowering added for one column space, by bucket.
pub struct Substitutions {
    /// The configuration that lowering started from.
    pub lowering_info: DegreeLoweringInfo,
    pub init: Vec<usize>,
    pub cons: Vec<usize>,
    pub tran: Vec<usize>,
    pub term: Vec<usize>,
}

/// The constraints that degree lowering added, for the main and the auxiliary columns.
pub struct AllSubstitutions {
    pub main: Substitutions,
    pub aux: Substitutions,
}

impl Substitutions {
    /// The number of columns the substitutions define.
    pub open spec fn spec_len(&self) -> nat {
        self.init@.len() + self.cons@.len() + self.tran@.len() + self.term@.len()
    }
}

/// The constraints of all tables: initial (first row), consistency (every row), transition
/// (every pair of adjacent rows), and terminal (last row).
pub struct Constraints {
    pub init: ConstraintSet<SingleRowIndicator>,
    pub cons: ConstraintSet<SingleRowIndicator>,
    pub tran: ConstraintSet<DualRowIndicator>,
    pub term: ConstraintSet<SingleRowIndicator>,
}

impl Constraints {
    /// Every bucket is well-formed.
    pub open spec fn wf(&self) -> bool {
        self.init.wf() && self.cons.wf() && self.tran.wf() && self.term.wf()
    }

    /// Every root of every bucket has degree at most `d`.
    pub open spec fn degrees_at_most(&self, d: int) -> bool {
        &&& self.init.degrees_at_most(d)
        &&& self.cons.degrees_at_most(d)
        &&& self.tran.degrees_at_most(d)
        &&& self.term.degrees_at_most(d)
    }

    /// `subs` records what lowering these constraints to degree `target` added: in each bucket,
    /// the `k`-th main substitution defines the main column numbered after the existing ones and
    /// those of earlier buckets, and likewise for the auxiliary side.
    pub open spec fn substitutions_wf(&self, subs: &AllSubstitutions, target: int) -> bool {
        let info = subs.main.lowering_info;
        let m0 = info.num_main_cols as int;
        let a0 = info.num_aux_cols as int;
        let m1 = m0 + subs.main.init@.len();
        let a1 = a0 + subs.aux.init@.len();
        let m2 = m1 + subs.main.cons@.len();
        let a2 = a1 + subs.aux.cons@.len();
        let m3 = m2 + subs.main.tran@.len();
        let a3 = a2 + subs.aux.tran@.len();
        &&& subs.aux.lowering_info == info
        &&& info.target_degree == target
        &&& substitutions_wf(self.init.builder@, subs.main.init@, m0, true, target)
        &&& substitutions_wf(self.init.builder@, subs.aux.init@, a0, false, target)
        &&& substitutions_wf(self.cons.builder@, subs.main.cons@, m1, true, target)
        &&& substitutions_wf(self.cons.builder@, subs.aux.cons@, a1, false, target)
        &&& substitutions_wf(self.tran.builder@, subs.main.tran@, m2, true, target)
        &&& substitutions_wf(self.tran.builder@, subs.aux.tran@, a2, false, target)
        &&& substitutions_wf(self.term.builder@, subs.main.term@, m3, true, target)
        &&& substitutions_wf(self.term.builder@, subs.aux.term@, a3, false, target)
    }

    /// What lowering these constraints with `info` gives: each bucket lowered from its own arena
    /// and roots, in the order initial, consistency, transition, terminal, with the column counts
    /// that the earlier buckets left. The first bucket that fails, or a column count that no
    /// longer fits a `usize`, decides the error.
    pub open spec fn lowering(&self, info: DegreeLoweringInfo) -> Result<AllLowered, DegreeLoweringError> {
        match lowering_of(self.init.builder@, self.init.roots@, info) {
            Err(e) => Err(e),
            Ok(l0) => if !counts_fit(info, l0.2.len(), l0.3.len()) {
                Err(DegreeLoweringError::TooManyColumns)
            } else {
                let i1 = info_after(info, l0.2.len(), l0.3.len());
                match lowering_of(self.cons.builder@, self.cons.roots@, i1) {
                    Err(e) => Err(e),
                    Ok(l1) => if !counts_fit(i1, l1.2.len(), l1.3.len()) {
                        Err(DegreeLoweringError::TooManyColumns)
                    } else {
                        let i2 = info_after(i1, l1.2.len(), l1.3.len());
                        match lowering_of(self.tran.builder@, self.tran.roots@, i2) {
                            Err(e) => Err(e),
                            Ok(l2) => if !counts_fit(i2, l2.2.len(), l2.3.len()) {
                                Err(DegreeLoweringError::TooManyColumns)
                            } else {
                                let i3 = info_after(i2, l2.2.len(), l2.3.len());
                                match lowering_of(self.term.builder@, self.term.roots@, i3) {
                                    Err(e) => Err(e),
                                    Ok(l3) => Ok((l0, l1, l2, l3)),
                                }
                            },
                        }
                    },
                }
            },
        }
    }

    /// `after` and `r` are what lowering `before` with `info` gives. On success the buckets of
    /// `after` and the records of `r` are those of `before.lowering(info)`; on error `after` is
    /// `before` unchanged.
    pub open spec fn outcome(
        before: &Constraints,
        after: &Constraints,
        r: &Result<AllSubstitutions, DegreeLoweringError>,
        info: DegreeLoweringInfo,
    ) -> bool {
        match r {
            Ok(subs) => {
                &&& before.lowering(info) == Ok::<AllLowered, DegreeLoweringError>(
                    (
                        (after.init.builder@, after.init.roots@, subs.main.init@, subs.aux.init@),
                        (after.cons.builder@, after.cons.roots@, subs.main.cons@, subs.aux.cons@),
                        (after.tran.builder@, after.tran.roots@, subs.main.tran@, subs.aux.tran@),
                        (after.term.builder@, after.term.roots@, subs.main.term@, subs.aux.term@),
                    ),
                )
                &&& subs.main.lowering_info == info
                &&& subs.aux.lowering_info == info
            },
            Err(e) => before.lowering(info) == Err::<AllLowered, DegreeLoweringError>(*e)
                && after.same_as(before),
        }
    }

    /// The summed tree sizes of the roots of all buckets: a bound on the number of columns that
    /// lowering allocates.
    pub open spec fn forest_size(&self) -> nat {
        forest_size(self.init.builder@, self.init.roots@) + forest_size(
            self.cons.builder@,
            self.cons.roots@,
        ) + forest_size(self.tran.builder@, self.tran.roots@) + forest_size(
            self.term.builder@,
            self.term.roots@,
        )
    }

    /// Every bucket of `after` rewrites that of `before` in place: same number of roots, the arena
    /// only extended, and every root that is a leaf kept as it is.
    pub open spec fn rewrites_in_place(&self, after: &Constraints) -> bool {
        &&& self.init.rewrites_in_place(&after.init)
        &&& self.cons.rewrites_in_place(&after.cons)
        &&& self.tran.rewrites_in_place(&after.tran)
        &&& self.term.rewrites_in_place(&after.term)
    }

    /// The arenas and roots of two constraint sets agree, bucket by bucket.
    pub open spec fn same_as(&self, other: &Constraints) -> bool {
        &&& self.init.builder@ == other.init.builder@ && self.init.roots@ == other.init.roots@
        &&& self.cons.builder@ == other.cons.builder@ && self.cons.roots@ == other.cons.roots@
        &&& self.tran.builder@ == other.tran.builder@ && self.tran.roots@ == other.tran.roots@
        &&& self.term.builder@ == other.term.builder@ && self.term.roots@ == other.term.roots@
    }

    /// Constraints made of the four buckets.
    pub fn new(
        init: ConstraintSet<SingleRowIndicator>,
        cons: ConstraintSet<SingleRowIndicator>,
        tran: ConstraintSet<DualRowIndicator>,
        term: ConstraintSet<SingleRowIndicator>,
    ) -> (r: Self)
        ensures
            r.init == init,
            r.cons == cons,
            r.tran == tran,
            r.term == term,
    {
        Constraints { init, cons, tran, term }
    }

    /// Lowers every bucket, in the order initial, consistency, transition, terminal, to degree
    /// `lowering_info.target_degree` or less. Each bucket's new columns are numbered after the
    /// existing ones and after those that earlier buckets allocated. The target must be at least
    /// 2 unless every root meets it already. An error leaves the constraints as they were.
    pub fn lower_to_target_degree_through_substitutions(
        &mut self,
        lowering_info: DegreeLoweringInfo,
    ) -> (r: Result<AllSubstitutions, DegreeLoweringError>)
        requires
            old(self).wf(),
            lowering_info.target_degree >= 2 || old(self).degrees_at_most(
                lowering_info.target_degree as int,
            ),
        ensures
            final(self).wf(),
            Constraints::outcome(&*old(self), &*final(self), &r, lowering_info),
            old(self).rewrites_in_place(&*final(self)),
            lowering_info.num_main_cols + old(self).forest_size() <= usize::MAX
                && lowering_info.num_aux_cols + old(self).forest_size() <= usize::MAX ==> r is Ok,
            old(self).degrees_at_most(lowering_info.target_degree as int) ==> r is Ok
                && final(self).same_as(&*old(self)),
            match r {
                Ok(subs) => {
                    &&& final(self).degrees_at_most(lowering_info.target_degree as int)
                    &&& final(self).substitutions_wf(&subs, lowering_info.target_degree as int)
                    &&& old(self).degrees_at_most(lowering_info.target_degree as int) ==> subs.main.spec_len()
                        == 0 && subs.aux.spec_len() == 0
                },
                Err(e) => e == DegreeLoweringError::TooManyColumns,
            },
    {
        let target = lowering_info.target_degree;
        let mut info = lowering_info;
        let mut init = self.init.duplicate();
        let mut cons = self.cons.duplicate();
        let mut tran = self.tran.duplicate();
        let mut term = self.term.duplicate();

        let (init_main, init_aux) = match init.lower_to_degree(info) {
            Ok(subs) => subs,
            Err(e) => {
                return Err(e);
            },
        };
        if info.num_main_cols > usize::MAX - init_main.len() || info.num_aux_cols > usize::MAX
            - init_aux.len() {
            return Err(DegreeLoweringError::TooManyColumns);
        }
        info.num_main_cols = info.num_main_cols + init_main.len();
        info.num_aux_cols = info.num_aux_cols + init_aux.len();

        let (cons_main, cons_aux) = match cons.lower_to_degree(info) {
            Ok(subs) => subs,
            Err(e) => {
                return Err(e);
            },
        };
        if info.num_main_cols > usize::MAX - cons_main.len() || info.num_aux_cols > usize::MAX
            - cons_aux.len() {
            return Err(DegreeLoweringError::TooManyColumns);
        }
        info.num_main_cols = info.num_main_cols + cons_main.len();
        info.num_aux_cols = info.num_aux_cols + cons_aux.len();

        let (tran_main, tran_aux) = match tran.lower_to_degree(info) {
            Ok(subs) => subs,
            Err(e) => {
                return Err(e);
            },
        };
        if info.num_main_cols > usize::MAX - tran_main.len() || info.num_aux_cols > usize::MAX
            - tran_aux.len() {
            return Err(DegreeLoweringError::TooManyColumns);
        }
        info.num_main_cols = info.num_main_cols + tran_main.len();
        info.num_aux_cols = info.num_aux_cols + tran_aux.len();

        let (term_main, term_aux) = match term.lower_to_degree(info) {
            Ok(subs) => subs,
            Err(e) => {
                return Err(e);
            },
        };

        self.init = init;
        self.cons = cons;
        self.tran = tran;
        self.term = term;
        Ok(
            AllSubstitutions {
                main: Substitutions {
                    lowering_info,
                    init: init_main,
                    cons: cons_main,
                    tran: tran_main,
                    term: term_main,
                },
                aux: Substitutions {
                    lowering_info,
                    init: init_aux,
                    cons: cons_aux,
                    tran: tran_aux,
                    term: term_aux,
                },
            },
        )
    }

    /// The constraints together with those that the substitutions induced: in each bucket, the
    /// bucket's own roots, then the main substitutions' constraints, then the auxiliary ones.
    pub fn combine_with_substitution_induced_constraints(self, subs: AllSubstitutions) -> (r: Self)
        requires
            self.wf(),
            self.substitutions_wf(&subs, subs.main.lowering_info.target_degree as int),
        ensures
            r.wf(),
            r.init.builder@ == self.init.builder@,
            r.cons.builder@ == self.cons.builder@,
            r.tran.builder@ == self.tran.builder@,
            r.term.builder@ == self.term.builder@,
            r.init.roots@ == self.init.roots@ + subs.main.init@ + subs.aux.init@,
            r.cons.roots@ == self.cons.roots@ + subs.main.cons@ + subs.aux.cons@,
            r.tran.roots@ == self.tran.roots@ + subs.main.tran@ + subs.aux.tran@,
            r.term.roots@ == self.term.roots@ + subs.main.term@ + subs.aux.term@,
            self.degrees_at_most(subs.main.lowering_info.target_degree as int) ==> r.degrees_at_most(
                subs.main.lowering_info.target_degree as int,
            ),
    {
        proof {
            lemma_combined_constraints_meet_target(
                self,
                subs,
                subs.main.lowering_info.target_degree as int,
            );
        }
        let Constraints { init, cons, tran, term } = self;
        let AllSubstitutions { main, aux } = subs;
        let ConstraintSet { builder: init_builder, roots: init_roots } = init;
        let ConstraintSet { builder: cons_builder, roots: cons_roots } = cons;
        let ConstraintSet { builder: tran_builder, roots: tran_roots } = tran;
        let ConstraintSet { builder: term_builder, roots: term_roots } = term;
        Constraints {
            init: ConstraintSet {
                builder: init_builder,
                roots: concat3(init_roots, &main.init, &aux.init),
            },
            cons: ConstraintSet {
                builder: cons_builder,
                roots: concat3(cons_roots, &main.cons, &aux.cons),
            },
            tran: ConstraintSet {
                builder: tran_builder,
                roots: concat3(tran_roots, &main.tran, &aux.tran),
            },
            term: ConstraintSet {
                builder: term_builder,
                roots: concat3(term_roots, &main.term, &aux.term),
            },
        }
    }

    /// The initial constraints, detached from construction.
    pub fn init(&self) -> (r: ConsumedCircuits<SingleRowIndicator>)
        requires
            self.wf(),
        ensures
            r.nodes@ == self.init.builder@,
            r.roots@ == self.init.roots@,
            nodes_distinct(r.nodes@),
    {
        self.init.consume()
    }

    /// The consistency constraints, detached from construction.
    pub fn cons(&self) -> (r: ConsumedCircuits<SingleRowIndicator>)
        requires
            self.wf(),
        ensures
            r.nodes@ == self.cons.builder@,
            r.roots@ == self.cons.roots@,
            nodes_distinct(r.nodes@),
    {
        self.cons.consume()
    }

    /// The transition constraints, detached from construction.
    pub fn tran(&self) -> (r: ConsumedCircuits<DualRowIndicator>)
        requires
            self.wf(),
        ensures
            r.nodes@ == self.tran.builder@,
            r.roots@ == self.tran.roots@,
            nodes_distinct(r.nodes@),
    {
        self.tran.consume()
    }

    /// The terminal constraints, detached from construction.
    pub fn term(&self) -> (r: ConsumedCircuits<SingleRowIndicator>)
        requires
            self.wf(),
        ensures
            r.nodes@ == self.term.builder@,
            r.roots@ == self.term.roots@,
            nodes_distinct(r.nodes@),
    {
        self.term.consume()
    }
}

/// `a`, then `b`, then `c`.
fn concat3(a: Vec<usize>, b: &Vec<usize>, c: &Vec<usize>) -> (r: Vec<usize>)
    ensures
        r@ == a@ + b@ + c@,
{
    let mut r = a;
    let mut i: usize = 0;
    while i < b.len()
        invariant
            i <= b@.len(),
            r@ == a@ + b@.take(i as int),
        decreases b.len() - i,
    {
        r.push(b[i]);
        i = i + 1;
        proof {
            assert(r@ =~= a@ + b@.take(i as int));
        }
    }
    proof {
        assert(b@.take(b@.len() as int) =~= b@);
    }
    let mut j: usize = 0;
    while j < c.len()
        invariant
            j <= c@.len(),
            r@ == a@ + b@ + c@.take(j as int),
        decreases c.len() - j,
    {
        r.push(c[j]);
        j = j + 1;
        proof {
            assert(r@ =~= a@ + b@ + c@.take(j as int));
        }
    }
    proof {
        assert(c@.take(c@.len() as int) =~= c@);
    }
    r
}

/// The configuration after a bucket allocated `main` main and `aux` auxiliary columns.
pub open spec fn info_after(info: DegreeLoweringInfo, main: nat, aux: nat) -> DegreeLoweringInfo {
    DegreeLoweringInfo {
        target_degree: info.target_degree,
        num_main_cols: (info.num_main_cols + main) as usize,
        num_aux_cols: (info.num_aux_cols + aux) as usize,
    }
}

/// The column counts after adding `main` main and `aux` auxiliary columns still fit a `usize`.
pub open spec fn counts_fit(info: DegreeLoweringInfo, main: nat, aux: nat) -> bool {
    info.num_main_cols + main <= usize::MAX && info.num_aux_cols + aux <= usize::MAX
}

/// What lowering gives for each bucket, in bucket order.
pub type AllLowered = (
    Lowered<SingleRowIndicator>,
    Lowered<SingleRowIndicator>,
    Lowered<DualRowIndicator>,
    Lowered<SingleRowIndicator>,
);

/// Lowering is deterministic: two runs on the same constraints, with the same target degree and
/// column counts, both succeed or both fail with the same error; on success they give the same
/// substitutions, column for column, and the same rewritten constraints.
pub proof fn lemma_lowering_all_is_deterministic(
    before1: Constraints,
    after1: Constraints,
    r1: Result<AllSubstitutions, DegreeLoweringError>,
    before2: Constraints,
    after2: Constraints,
    r2: Result<AllSubstitutions, DegreeLoweringError>,
    info: DegreeLoweringInfo,
)
    requires
        before1.same_as(&before2),
        Constraints::outcome(&before1, &after1, &r1, info),
        Constraints::outcome(&before2, &after2, &r2, info),
    ensures
        after1.same_as(&after2),
        r1 is Ok <==> r2 is Ok,
        r1 is Err ==> r1->Err_0 == r2->Err_0,
        r1 is Ok ==> {
            let s1 = r1->Ok_0;
            let s2 = r2->Ok_0;
            &&& s1.main.init@ == s2.main.init@ && s1.aux.init@ == s2.aux.init@
            &&& s1.main.cons@ == s2.main.cons@ && s1.aux.cons@ == s2.aux.cons@
            &&& s1.main.tran@ == s2.main.tran@ && s1.aux.tran@ == s2.aux.tran@
            &&& s1.main.term@ == s2.main.term@ && s1.aux.term@ == s2.aux.term@
            &&& s1.main.lowering_info == s2.main.lowering_info
            &&& s1.aux.lowering_info == s2.aux.lowering_info
        },
{
    assert(before1.lowering(info) == before2.lowering(info));
}

/// A bucket's roots together with its substitution constraints: all lie in the arena, and if
/// the roots meet the target degree, so does every constraint.
pub proof fn lemma_bucket_with_substitutions<II: InputIndicator>(
    nodes: Seq<CircuitNode<II>>,
    roots: Seq<usize>,
    main: Seq<usize>,
    aux: Seq<usize>,
    first_main: int,
    first_aux: int,
    target: int,
)
    requires
        roots_in(nodes, roots),
        substitutions_wf(nodes, main, first_main, true, target),
        substitutions_wf(nodes, aux, first_aux, false, target),
    ensures
        roots_in(nodes, roots + main + aux),
        degrees_at_most(nodes, roots, target) ==> degrees_at_most(nodes, roots + main + aux, target),
{
    reveal(substitutions_wf);
    let all = roots + main + aux;
    assert forall|k: int| 0 <= k < all.len() implies #[trigger] all[k] < nodes.len() && (
    degrees_at_most(nodes, roots, target) ==> nodes[all[k] as int].degree <= target) by {
        if k < roots.len() {
            assert(all[k] == roots[k]);
        } else if k < roots.len() + main.len() {
            let j = k - roots.len();
            assert(all[k] == main[j]);
            assert(is_substitution(
                nodes,
                main[j] as int,
                II::spec_main_table_input((first_main + j) as nat),
                true,
                target,
            ));
        } else {
            let j = k - roots.len() - main.len();
            assert(all[k] == aux[j]);
            assert(is_substitution(
                nodes,
                aux[j] as int,
                II::spec_aux_table_input((first_aux + j) as nat),
                false,
                target,
            ));
        }
    }
}

/// After lowering to a target degree, every constraint has degree at most the target: the
/// lowered roots themselves and those that the substitutions induced, in every bucket.
pub proof fn lemma_combined_constraints_meet_target(
    constraints: Constraints,
    subs: AllSubstitutions,
    target: int,
)
    requires
        constraints.wf(),
        constraints.substitutions_wf(&subs, target),
    ensures
        roots_in(constraints.init.builder@, constraints.init.roots@ + subs.main.init@ + subs.aux.init@),
        roots_in(constraints.cons.builder@, constraints.cons.roots@ + subs.main.cons@ + subs.aux.cons@),
        roots_in(constraints.tran.builder@, constraints.tran.roots@ + subs.main.tran@ + subs.aux.tran@),
        roots_in(constraints.term.builder@, constraints.term.roots@ + subs.main.term@ + subs.aux.term@),
        constraints.degrees_at_most(target) ==> {
            &&& degrees_at_most(
                constraints.init.builder@,
                constraints.init.roots@ + subs.main.init@ + subs.aux.init@,
                target,
            )
            &&& degrees_at_most(
                constraints.cons.builder@,
                constraints.cons.roots@ + subs.main.cons@ + subs.aux.cons@,
                target,
            )
            &&& degrees_at_most(
                constraints.tran.builder@,
                constraints.tran.roots@ + subs.main.tran@ + subs.aux.tran@,
                target,
            )
            &&& degrees_at_most(
                constraints.term.builder@,
                constraints.term.roots@ + subs.main.term@ + subs.aux.term@,
                target,
            )
        },
{
    let info = subs.main.lowering_info;
    let m0 = info.num_main_cols as int;
    let a0 = info.num_aux_cols as int;
    let m1 = m0 + subs.main.init@.len();
    let a1 = a0 + subs.aux.init@.len();
    let m2 = m1 + subs.main.cons@.len();
    let a2 = a1 + subs.aux.cons@.len();
    let m3 = m2 + subs.main.tran@.len();
    let a3 = a2 + subs.aux.tran@.len();
    lemma_bucket_with_substitutions(
        constraints.init.builder@,
        constraints.init.roots@,
        subs.main.init@,
        subs.aux.init@,
        m0,
        a0,
        target,
    );
    lemma_bucket_with_substitutions(
        constraints.cons.builder@,
        constraints.cons.roots@,
        subs.main.cons@,
        subs.aux.cons@,
        m1,
        a1,
        target,
    );
    lemma_bucket_with_substitutions(
        constraints.tran.builder@,
        constraints.tran.roots@,
        subs.main.tran@,
        subs.aux.tran@,
        m2,
        a2,
        target,
    );
    lemma_bucket_with_substitutions(
        constraints.term.builder@,
        constraints.term.roots@,
        subs.main.term@,
        subs.aux.term@,
        m3,
        a3,
        target,
    );
}

/// Circuits built through the builder never share an id: the check that `consume` makes on a
/// bucket's arena always passes.
pub proof fn lemma_consumed_ids_are_unique<II: InputIndicator>(set: ConstraintSet<II>)
    requires
        set.wf(),
    ensures
        nodes_distinct(set.builder@),
{
    lemma_wf_distinct(set.builder@);
}

} // verus!
