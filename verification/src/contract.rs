//! The module contract and the reconciliation model.
//!
//! A module contract is the shape the reconciler consumes: a stable
//! identity, an enable/disable action pair and the declared intent.  Its
//! mathematical value is a [`ContractV`]; the outcome the reconciler owes
//! for one canonical identity is a [`StepV`].

use vstd::prelude::*;
use crate::{FileOp, FileOpV};

verus! {

/// Which of the two actions the reconciler invoked for an identity.
#[derive(Clone, Copy, Debug, PartialEq, Eq, Structural)]
pub enum Phase {
    Enable,
    Disable,
}

/// What the reconciler does after an action fails: stop at the first
/// failure, or attempt every identity and aggregate the failures.
#[derive(Clone, Copy, Debug, PartialEq, Eq, Structural)]
pub enum ApplyPolicy {
    FailFast,
    ContinueOnError,
}

/// The mathematical value of a module contract instance: its identity,
/// its declared intent, and the outcome of each action — either the
/// filesystem effects it asks for, or a failure cause.
pub ghost struct ContractV {
    pub id: Seq<char>,
    pub enabled: bool,
    pub on_enable: Result<Seq<FileOpV>, Seq<char>>,
    pub on_disable: Result<Seq<FileOpV>, Seq<char>>,
}

/// Relates an executable action result to the contract-level outcome.
pub open spec fn action_matches(
    r: Result<Vec<FileOp>, String>,
    v: Result<Seq<FileOpV>, Seq<char>>,
) -> bool {
    match r {
        Ok(effects) => v is Ok && effects.deep_view() == v->Ok_0,
        Err(cause) => v is Err && cause@ == v->Err_0,
    }
}

/// One action invocation the reconciler performed successfully: the
/// identity, the phase, whether it ran on the declared instance (rather
/// than on the canonical default), and the effects it asks for.
#[derive(Clone, Debug)]
pub struct Invocation {
    pub id: String,
    pub phase: Phase,
    pub on_declared: bool,
    pub effects: Vec<FileOp>,
}

/// The mathematical value of an [`Invocation`].
pub ghost struct InvocationV {
    pub id: Seq<char>,
    pub phase: Phase,
    pub on_declared: bool,
    pub effects: Seq<FileOpV>,
}

impl View for Invocation {
    type V = InvocationV;

    open spec fn view(&self) -> InvocationV {
        InvocationV {
            id: self.id@,
            phase: self.phase,
            on_declared: self.on_declared,
            effects: self.effects.deep_view(),
        }
    }
}

impl DeepView for Invocation {
    type V = InvocationV;

    open spec fn deep_view(&self) -> InvocationV {
        self.view()
    }
}

/// One action failure, wrapped with the offending identity and phase.
#[derive(Clone, Debug)]
pub struct ActionFailure {
    pub id: String,
    pub phase: Phase,
    pub cause: String,
}

/// The mathematical value of an [`ActionFailure`].
pub ghost struct FailureV {
    pub id: Seq<char>,
    pub phase: Phase,
    pub cause: Seq<char>,
}

impl View for ActionFailure {
    type V = FailureV;

    open spec fn view(&self) -> FailureV {
        FailureV { id: self.id@, phase: self.phase, cause: self.cause@ }
    }
}

impl DeepView for ActionFailure {
    type V = FailureV;

    open spec fn deep_view(&self) -> FailureV {
        self.view()
    }
}

/// What a successful reconciliation pass reports: every invocation it
/// performed, in registry order.
#[derive(Clone, Debug)]
pub struct ApplyReport {
    pub invocations: Vec<Invocation>,
}

impl View for ApplyReport {
    type V = Seq<InvocationV>;

    open spec fn view(&self) -> Seq<InvocationV> {
        self.invocations.deep_view()
    }
}

/// The structured error of a reconciliation pass: one or more action
/// failures, in registry order.
#[derive(Clone, Debug)]
pub struct ApplyError {
    pub failures: Vec<ActionFailure>,
}

impl View for ApplyError {
    type V = Seq<FailureV>;

    open spec fn view(&self) -> Seq<FailureV> {
        self.failures.deep_view()
    }
}

/// The declared instance that governs `id`: the last contract in `ds`
/// carrying that identity, if any.  Later insertions win, so duplicate
/// identities resolve deterministically.
pub open spec fn declared_for(ds: Seq<ContractV>, id: Seq<char>) -> Option<ContractV>
    decreases ds.len(),
{
    if ds.len() == 0 {
        None
    } else if ds.last().id == id {
        Some(ds.last())
    } else {
        declared_for(ds.drop_last(), id)
    }
}

/// The action owed for one canonical identity: the step the reconciler
/// takes for the registry entry `c` under the declared set `ds`.
pub ghost struct StepV {
    pub id: Seq<char>,
    pub phase: Phase,
    pub on_declared: bool,
    pub outcome: Result<Seq<FileOpV>, Seq<char>>,
}

/// Decides the step for the canonical entry `c`: a declared instance is
/// enabled or disabled according to its intent; an undeclared identity
/// has the canonical default's disable invoked.
pub open spec fn step_of(ds: Seq<ContractV>, c: ContractV) -> StepV {
    match declared_for(ds, c.id) {
        Some(d) => if d.enabled {
            StepV { id: c.id, phase: Phase::Enable, on_declared: true, outcome: d.on_enable }
        } else {
            StepV { id: c.id, phase: Phase::Disable, on_declared: true, outcome: d.on_disable }
        },
        None => StepV { id: c.id, phase: Phase::Disable, on_declared: false, outcome: c.on_disable },
    }
}

/// Every step of one reconciliation pass, in registry order.
pub open spec fn steps_of(ds: Seq<ContractV>, rs: Seq<ContractV>) -> Seq<StepV> {
    rs.map_values(|c: ContractV| step_of(ds, c))
}

/// Whether every step of the pass succeeds.
pub open spec fn all_ok(steps: Seq<StepV>) -> bool {
    forall|i: int| 0 <= i < steps.len() ==> (#[trigger] steps[i].outcome) is Ok
}

/// The invocation record of a successful step.
pub open spec fn step_invocation(s: StepV) -> InvocationV {
    InvocationV { id: s.id, phase: s.phase, on_declared: s.on_declared, effects: s.outcome->Ok_0 }
}

/// The invocation records of a pass, in registry order.
pub open spec fn invocations_of(steps: Seq<StepV>) -> Seq<InvocationV> {
    steps.map_values(|s: StepV| step_invocation(s))
}

/// The failure record of a failed step.
pub open spec fn step_failure(s: StepV) -> FailureV {
    FailureV { id: s.id, phase: s.phase, cause: s.outcome->Err_0 }
}

/// The failure records of a pass, in registry order.
pub open spec fn failures_of(steps: Seq<StepV>) -> Seq<FailureV>
    decreases steps.len(),
{
    if steps.len() == 0 {
        Seq::empty()
    } else if steps.last().outcome is Err {
        failures_of(steps.drop_last()) + seq![step_failure(steps.last())]
    } else {
        failures_of(steps.drop_last())
    }
}

/// The index of the first failing step, or the length when every step
/// succeeds.
pub open spec fn first_err(steps: Seq<StepV>) -> int
    decreases steps.len(),
{
    if steps.len() == 0 {
        0
    } else if steps.first().outcome is Err {
        0
    } else {
        1 + first_err(steps.drop_first())
    }
}

/// A pass with no failing step has no failure record.
pub proof fn lemma_failures_empty(steps: Seq<StepV>)
    ensures
        all_ok(steps) <==> failures_of(steps) == Seq::<FailureV>::empty(),
    decreases steps.len(),
{
    if steps.len() == 0 {
        assert(failures_of(steps) =~= Seq::<FailureV>::empty());
    } else {
        lemma_failures_empty(steps.drop_last());
        if all_ok(steps) {
            assert(all_ok(steps.drop_last()));
            assert(steps.last().outcome is Ok);
        } else {
            if steps.last().outcome is Ok {
                assert(!all_ok(steps.drop_last())) by {
                    let i = choose|i: int| 0 <= i < steps.len() && !((steps[i].outcome) is Ok);
                    assert(i < steps.len() - 1);
                    assert(steps.drop_last()[i] == steps[i]);
                }
                assert(failures_of(steps.drop_last()).len() > 0) by {
                    if failures_of(steps.drop_last()).len() == 0 {
                        assert(failures_of(steps.drop_last()) =~= Seq::<FailureV>::empty());
                        assert(all_ok(steps.drop_last()));
                    }
                }
            }
            assert(failures_of(steps).len() > 0);
        }
    }
}

/// Every canonical identity receives exactly one step per pass: the
/// steps align with the registry, index by index and identity by
/// identity.
pub proof fn lemma_steps_align(ds: Seq<ContractV>, rs: Seq<ContractV>)
    ensures
        steps_of(ds, rs).len() == rs.len(),
        forall|i: int| 0 <= i < rs.len() ==> #[trigger] steps_of(ds, rs)[i] == step_of(ds, rs[i]),
        forall|i: int| 0 <= i < rs.len() ==> #[trigger] steps_of(ds, rs)[i].id == rs[i].id,
{
}

/// Absence implies disable: a canonical identity not present in the
/// declared set has exactly one step, and it invokes the canonical
/// default's disable.  Registry identities are unique, so no other step
/// can carry the same identity.
pub proof fn lemma_absent_implies_disable(ds: Seq<ContractV>, rs: Seq<ContractV>, i: int)
    requires
        0 <= i < rs.len(),
        declared_for(ds, rs[i].id) is None,
        forall|j: int| 0 <= j < rs.len() && j != i ==> (#[trigger] rs[j]).id != rs[i].id,
    ensures
        steps_of(ds, rs)[i] == (StepV {
            id: rs[i].id,
            phase: Phase::Disable,
            on_declared: false,
            outcome: rs[i].on_disable,
        }),
        forall|j: int| 0 <= j < rs.len() && j != i ==> (#[trigger] steps_of(ds, rs)[j]).id
            != rs[i].id,
{
    lemma_steps_align(ds, rs);
}

/// Whether every declared identity occurs once.
pub open spec fn unique_ids(ds: Seq<ContractV>) -> bool {
    forall|i: int, j: int| 0 <= i < j < ds.len() ==> (#[trigger] ds[i]).id != (#[trigger] ds[j]).id
}

/// What the governing instance is, structurally: an element of the set
/// carrying the identity, or a witness that none does.
proof fn lemma_declared_elem(ds: Seq<ContractV>, id: Seq<char>)
    ensures
        match declared_for(ds, id) {
            Some(c) => ds.contains(c) && c.id == id,
            None => forall|k: int| 0 <= k < ds.len() ==> (#[trigger] ds[k]).id != id,
        },
    decreases ds.len(),
{
    if ds.len() > 0 {
        lemma_declared_elem(ds.drop_last(), id);
        if ds.last().id == id {
            assert(ds[ds.len() - 1] == ds.last());
        } else {
            match declared_for(ds.drop_last(), id) {
                Some(c) => {
                    let k = choose|k: int| 0 <= k < ds.drop_last().len() && ds.drop_last()[k] == c;
                    assert(ds[k] == c);
                },
                None => {
                    assert forall|k: int| 0 <= k < ds.len() implies (#[trigger] ds[k]).id != id by {
                        if k < ds.len() - 1 {
                            assert(ds.drop_last()[k] == ds[k]);
                        }
                    }
                },
            }
        }
    }
}

/// With unique identities, any member carrying the identity is the
/// governing instance.
proof fn lemma_declared_of_member(ds: Seq<ContractV>, id: Seq<char>, c: ContractV)
    requires
        unique_ids(ds),
        ds.contains(c),
        c.id == id,
    ensures
        declared_for(ds, id) == Some(c),
    decreases ds.len(),
{
    let k = choose|k: int| 0 <= k < ds.len() && ds[k] == c;
    if ds.last().id == id {
        if k < ds.len() - 1 {
            assert(ds[k].id == ds[ds.len() - 1].id);
            assert(false);
        }
        assert(ds[ds.len() - 1] == ds.last());
    } else {
        assert(k < ds.len() - 1);
        assert(ds.drop_last()[k] == ds[k]);
        assert(ds.drop_last().contains(c));
        assert forall|i: int, j: int| 0 <= i < j < ds.drop_last().len() implies (
        #[trigger] ds.drop_last()[i]).id != (#[trigger] ds.drop_last()[j]).id by {
            assert(ds.drop_last()[i] == ds[i]);
            assert(ds.drop_last()[j] == ds[j]);
        }
        lemma_declared_of_member(ds.drop_last(), id, c);
    }
}

/// Order independence of outcome: two declared sets with unique
/// identities that hold the same instances — one a reordering of the
/// other — yield exactly the same step for every registry entry: the
/// same phase, target and outcome, in the same registry order.
pub proof fn lemma_order_independent(ds1: Seq<ContractV>, ds2: Seq<ContractV>, rs: Seq<ContractV>)
    requires
        unique_ids(ds1),
        unique_ids(ds2),
        ds1.to_multiset() == ds2.to_multiset(),
    ensures
        steps_of(ds1, rs) == steps_of(ds2, rs),
    decreases rs.len(),
{
    ds1.to_multiset_ensures();
    ds2.to_multiset_ensures();
    assert forall|i: int| 0 <= i < rs.len() implies #[trigger] steps_of(ds1, rs)[i] == steps_of(
        ds2,
        rs,
    )[i] by {
        let id = rs[i].id;
        lemma_declared_elem(ds1, id);
        lemma_declared_elem(ds2, id);
        match declared_for(ds1, id) {
            Some(c) => {
                assert(ds1.to_multiset().count(c) > 0);
                assert(ds2.contains(c));
                lemma_declared_of_member(ds2, id, c);
            },
            None => {
                match declared_for(ds2, id) {
                    Some(c) => {
                        assert(ds2.to_multiset().count(c) > 0);
                        assert(ds1.contains(c));
                        assert(false);
                    },
                    None => {},
                }
            },
        }
    }
    assert(steps_of(ds1, rs) =~= steps_of(ds2, rs));
}

/// Characterizes the first failing step: everything before `j` succeeds
/// and `j` fails exactly when `j` is the first failure.
pub proof fn lemma_first_err(steps: Seq<StepV>, j: int)
    requires
        0 <= j < steps.len(),
        forall|i: int| 0 <= i < j ==> (#[trigger] steps[i].outcome) is Ok,
        steps[j].outcome is Err,
    ensures
        first_err(steps) == j,
    decreases j,
{
    if j == 0 {
    } else {
        assert(steps.first().outcome is Ok);
        lemma_first_err(steps.drop_first(), j - 1);
    }
}

} // verus!
