use vstd::prelude::*;

pub mod config;
pub mod contract;
pub mod logger;
pub mod manager;
pub mod modules;
pub mod node;
pub mod text;
pub mod tools;

use crate::contract::{
    action_matches, all_ok, declared_for, failures_of, first_err, invocations_of,
    lemma_failures_empty, lemma_first_err, step_failure, step_invocation, step_of, steps_of,
    ActionFailure, ApplyError, ApplyPolicy, ApplyReport, ContractV, Invocation, Phase, StepV,
};
use crate::modules::control_panel::ControlPanel;
use crate::modules::custom::CustomModule;
use crate::modules::firewall::Firewall;
use crate::modules::xserver::XServer;
use crate::modules::zen_browser::ZenBrowser;

verus! {

/// The module contract every standalone module satisfies: a stable
/// identity, an idempotent enable/disable action pair, and the declared
/// intent carried on the instance.  The spec function `contract` is the
/// mathematical value the reconciler's guarantees are stated over.
pub trait Funcs: Sized {
    /// The contract-level value of this instance.
    spec fn contract(&self) -> ContractV;

    /// The stable identity used for diffing; determined by the value.
    fn id(&self) -> (r: String)
        ensures
            r@ == self.contract().id,
    ;

    /// Invoked when the caller declares the module on.
    fn enable(&self) -> (r: Result<Vec<FileOp>, String>)
        ensures
            action_matches(r, self.contract().on_enable),
    ;

    /// Invoked when the module is declared off or undeclared.
    fn disable(&self) -> (r: Result<Vec<FileOp>, String>)
        ensures
            action_matches(r, self.contract().on_disable),
    ;

    /// The declared intent carried on the instance, not observed system
    /// state.
    fn is_enabled(&self) -> (r: bool)
        ensures
            r == self.contract().enabled,
    ;
}

/// One step a collaborator performs on the filesystem when a module is
/// brought to its declared state: write a file with given contents, or
/// remove it.
#[derive(Clone, Debug, PartialEq, Eq)]
pub enum FileOp {
    Write { path: String, contents: String },
    Remove { path: String },
}

/// The mathematical value of a `FileOp`: paths and contents as sequences
/// of characters.
pub ghost enum FileOpV {
    Write { path: Seq<char>, contents: Seq<char> },
    Remove { path: Seq<char> },
}

impl View for FileOp {
    type V = FileOpV;

    open spec fn view(&self) -> FileOpV {
        match self {
            FileOp::Write { path, contents } => FileOpV::Write {
                path: path@,
                contents: contents@,
            },
            FileOp::Remove { path } => FileOpV::Remove { path: path@ },
        }
    }
}

impl DeepView for FileOp {
    type V = FileOpV;

    open spec fn deep_view(&self) -> FileOpV {
        self.view()
    }
}

/// The closed union of the module kinds a desired configuration can
/// declare.  The contract shape is polymorphic; the set of kinds is
/// closed, so the reconciler's behavior is a total function of the
/// declared values.
pub enum ModuleKind {
    Firewall(Firewall),
    ControlPanel(ControlPanel),
    XServer(XServer),
    ZenBrowser(ZenBrowser),
    Custom(CustomModule),
}

impl Funcs for ModuleKind {
    open spec fn contract(&self) -> ContractV {
        match self {
            ModuleKind::Firewall(m) => m.contract(),
            ModuleKind::ControlPanel(m) => m.contract(),
            ModuleKind::XServer(m) => m.contract(),
            ModuleKind::ZenBrowser(m) => m.contract(),
            ModuleKind::Custom(m) => m.contract(),
        }
    }

    fn id(&self) -> (r: String) {
        match self {
            ModuleKind::Firewall(m) => m.id(),
            ModuleKind::ControlPanel(m) => m.id(),
            ModuleKind::XServer(m) => m.id(),
            ModuleKind::ZenBrowser(m) => m.id(),
            ModuleKind::Custom(m) => m.id(),
        }
    }

    fn enable(&self) -> (r: Result<Vec<FileOp>, String>) {
        match self {
            ModuleKind::Firewall(m) => m.enable(),
            ModuleKind::ControlPanel(m) => m.enable(),
            ModuleKind::XServer(m) => m.enable(),
            ModuleKind::ZenBrowser(m) => m.enable(),
            ModuleKind::Custom(m) => m.enable(),
        }
    }

    fn disable(&self) -> (r: Result<Vec<FileOp>, String>) {
        match self {
            ModuleKind::Firewall(m) => m.disable(),
            ModuleKind::ControlPanel(m) => m.disable(),
            ModuleKind::XServer(m) => m.disable(),
            ModuleKind::ZenBrowser(m) => m.disable(),
            ModuleKind::Custom(m) => m.disable(),
        }
    }

    fn is_enabled(&self) -> (r: bool) {
        match self {
            ModuleKind::Firewall(m) => m.is_enabled(),
            ModuleKind::ControlPanel(m) => m.is_enabled(),
            ModuleKind::XServer(m) => m.is_enabled(),
            ModuleKind::ZenBrowser(m) => m.is_enabled(),
            ModuleKind::Custom(m) => m.is_enabled(),
        }
    }
}

/// The contracts of a sequence of declared modules, in order.
pub open spec fn contracts_of(s: Seq<ModuleKind>) -> Seq<ContractV> {
    s.map_values(|m: ModuleKind| m.contract())
}

/// The desired configuration set: the caller-assembled, insertion-
/// ordered collection of module contract instances to reconcile against
/// the canonical registry.
pub struct SystemConfig {
    pub modules: Vec<ModuleKind>,
}

/// What one reconciliation pass owes for `r`, given the declared set
/// `ds`, the registry contracts `rs` and the failure policy: success
/// exactly when every step's action succeeds, with every invocation
/// reported in registry order; otherwise the first failure under
/// fail-fast, or every failure under continue-on-error.
pub open spec fn reconcile_post(
    ds: Seq<ContractV>,
    rs: Seq<ContractV>,
    policy: ApplyPolicy,
    r: Result<ApplyReport, ApplyError>,
) -> bool {
    let steps = steps_of(ds, rs);
    match r {
        Ok(report) => all_ok(steps) && report@ == invocations_of(steps),
        Err(e) => !all_ok(steps) && match policy {
            ApplyPolicy::FailFast => {
                let k = first_err(steps);
                &&& 0 <= k < steps.len()
                &&& (forall|i: int| 0 <= i < k ==> (#[trigger] steps[i].outcome) is Ok)
                &&& e@ == seq![step_failure(steps[k])]
            },
            ApplyPolicy::ContinueOnError => e@ == failures_of(steps),
        },
    }
}

/// A reconciliation pass is a pure function of the declared set, the
/// registry and the policy: any two results the contract admits agree.
/// Applying the same desired configuration twice therefore reports the
/// same invocations, or the same failures, both times — the flat
/// counterpart of the tree walk's idempotence.
pub proof fn lemma_reconcile_deterministic(
    ds: Seq<ContractV>,
    rs: Seq<ContractV>,
    policy: ApplyPolicy,
    r1: Result<ApplyReport, ApplyError>,
    r2: Result<ApplyReport, ApplyError>,
)
    requires
        reconcile_post(ds, rs, policy, r1),
        reconcile_post(ds, rs, policy, r2),
    ensures
        match (r1, r2) {
            (Ok(a), Ok(b)) => a@ == b@,
            (Err(a), Err(b)) => a@ == b@,
            _ => false,
        },
{
}

impl SystemConfig {
    /// An empty desired configuration set.
    pub fn new() -> (r: Self)
        ensures
            r.modules@ == Seq::<ModuleKind>::empty(),
    {
        SystemConfig { modules: Vec::new() }
    }

    /// Declares one more module; later declarations of the same
    /// identity win.
    pub fn with(self, module: ModuleKind) -> (r: Self)
        ensures
            r.modules@ == self.modules@.push(module),
    {
        let mut modules = self.modules;
        modules.push(module);
        SystemConfig { modules }
    }

    /// Appends another desired configuration set after this one, so its
    /// declarations win on shared identities.
    pub fn extend(self, other: SystemConfig) -> (r: Self)
        ensures
            r.modules@ == self.modules@ + other.modules@,
    {
        let mut modules = self.modules;
        let mut tail = other.modules;
        modules.append(&mut tail);
        SystemConfig { modules }
    }

    /// The declared instance governing `id`: the index of the last
    /// declared module with that identity, if any.
    fn find_declared(&self, id: &String) -> (r: Option<usize>)
        ensures
            (match r {
                Some(k) => k < self.modules@.len() && declared_for(contracts_of(self.modules@), id@)
                    == Some(contracts_of(self.modules@)[k as int]),
                None => declared_for(contracts_of(self.modules@), id@) is None,
            }),
    {
        let ghost ds = contracts_of(self.modules@);
        let n = self.modules.len();
        let mut i: usize = n;
        proof {
            assert(ds.take(n as int) =~= ds);
        }
        while i > 0
            invariant
                i <= n,
                n == self.modules@.len(),
                ds == contracts_of(self.modules@),
                declared_for(ds, id@) == declared_for(ds.take(i as int), id@),
            decreases i,
        {
            i -= 1;
            let mid = self.modules[i].id();
            proof {
                assert(ds.take(i as int + 1).drop_last() =~= ds.take(i as int));
                assert(ds.take(i as int + 1).last() == ds[i as int]);
            }
            if mid == *id {
                return Some(i);
            }
        }
        proof {
            assert(ds.take(0) =~= Seq::<ContractV>::empty());
        }
        None
    }

    /// Reconciles this desired configuration set against the given
    /// registry under the given failure policy.  Every registry
    /// identity receives exactly one action invocation, in registry
    /// order: the declared instance's enable or disable according to
    /// its intent, or the canonical default's disable when undeclared.
    pub fn apply_with(&self, registry: &Vec<ModuleKind>, policy: ApplyPolicy) -> (r: Result<
        ApplyReport,
        ApplyError,
    >)
        ensures
            reconcile_post(contracts_of(self.modules@), contracts_of(registry@), policy, r),
    {
        let ghost ds = contracts_of(self.modules@);
        let ghost rs = contracts_of(registry@);
        let ghost steps = steps_of(ds, rs);
        let mut invocations: Vec<Invocation> = Vec::new();
        let mut failures: Vec<ActionFailure> = Vec::new();
        let n = registry.len();
        let mut j: usize = 0;
        proof {
            assert(steps.take(0) =~= Seq::<StepV>::empty());
            assert(invocations.deep_view() =~= invocations_of(steps.take(0)));
            assert(failures.deep_view() =~= failures_of(steps.take(0)));
        }
        while j < n
            invariant
                j <= n,
                n == registry@.len(),
                ds == contracts_of(self.modules@),
                rs == contracts_of(registry@),
                steps == steps_of(ds, rs),
                policy is FailFast ==> failures@.len() == 0,
                failures.deep_view() == failures_of(steps.take(j as int)),
                failures@.len() == 0 ==> invocations.deep_view() == invocations_of(
                    steps.take(j as int),
                ),
            decreases n - j,
        {
            let entry = &registry[j];
            let id = entry.id();
            let ghost step = steps[j as int];
            proof {
                assert(rs[j as int] == registry@[j as int].contract());
                assert(step == step_of(ds, rs[j as int]));
            }
            let found = self.find_declared(&id);
            let phase: Phase;
            let on_declared: bool;
            let outcome: Result<Vec<FileOp>, String>;
            match found {
                Some(k) => {
                    let declared = &self.modules[k];
                    proof {
                        assert(ds[k as int] == self.modules@[k as int].contract());
                    }
                    on_declared = true;
                    if declared.is_enabled() {
                        phase = Phase::Enable;
                        outcome = declared.enable();
                    } else {
                        phase = Phase::Disable;
                        outcome = declared.disable();
                    }
                },
                None => {
                    phase = Phase::Disable;
                    on_declared = false;
                    outcome = entry.disable();
                },
            }
            proof {
                assert(step.phase == phase);
                assert(step.on_declared == on_declared);
                assert(action_matches(outcome, step.outcome));
                assert(steps.take(j as int + 1).drop_last() =~= steps.take(j as int));
                assert(steps.take(j as int + 1).last() == step);
            }
            match outcome {
                Ok(effects) => {
                    let ghost seen = invocations.deep_view();
                    invocations.push(
                        Invocation { id, phase, on_declared, effects },
                    );
                    proof {
                        assert(invocations.deep_view() =~= seen.push(step_invocation(step)));
                        assert(failures_of(steps.take(j as int + 1)) == failures_of(
                            steps.take(j as int),
                        ));
                        if failures@.len() == 0 {
                            assert(invocations.deep_view() =~= invocations_of(
                                steps.take(j as int + 1),
                            ));
                        }
                    }
                },
                Err(cause) => {
                    let ghost seen = failures.deep_view();
                    failures.push(ActionFailure { id, phase, cause });
                    proof {
                        assert(failures.deep_view() =~= seen.push(step_failure(step)));
                        assert(failures.deep_view() =~= failures_of(steps.take(j as int + 1)));
                    }
                    if matches!(policy, ApplyPolicy::FailFast) {
                        proof {
                            assert(seen =~= Seq::<contract::FailureV>::empty());
                            lemma_failures_empty(steps.take(j as int));
                            assert forall|i: int| 0 <= i < j implies (
                            #[trigger] steps[i].outcome) is Ok by {
                                assert(steps.take(j as int)[i] == steps[i]);
                            }
                            lemma_first_err(steps, j as int);
                            assert(failures.deep_view() =~= seq![step_failure(steps[j as int])]);
                        }
                        return Err(ApplyError { failures });
                    }
                },
            }
            j += 1;
        }
        proof {
            assert(steps.take(n as int) =~= steps);
        }
        if failures.len() == 0 {
            proof {
                assert(failures.deep_view() =~= Seq::<contract::FailureV>::empty());
                lemma_failures_empty(steps);
            }
            Ok(ApplyReport { invocations })
        } else {
            proof {
                lemma_failures_empty(steps);
                if all_ok(steps) {
                    assert(failures.deep_view().len() == 0);
                }
            }
            Err(ApplyError { failures })
        }
    }

    /// Reconciles against the canonical registry, stopping at the first
    /// failure, as a plain run does.
    pub fn apply(&self) -> (r: Result<ApplyReport, ApplyError>)
        ensures
            reconcile_post(
                contracts_of(self.modules@),
                modules::canonical_contracts(),
                ApplyPolicy::FailFast,
                r,
            ),
    {
        let registry = modules::all_modules();
        self.apply_with(&registry, ApplyPolicy::FailFast)
    }
}

} // verus!
