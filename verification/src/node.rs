//! The module node tree and its convergence walk.
//!
//! A node owns a mutable state record, a check predicate, an enable and
//! a disable action, and an ordered sequence of exclusively-owned child
//! nodes.  Convergence is depth-first with parent-gates-child
//! semantics: children run only once their parent's check holds.

use vstd::prelude::*;

verus! {

/// The mutable record a module node owns: minimally, whether the
/// module is satisfied.
#[derive(Clone, Copy, Debug, PartialEq, Eq, Structural)]
pub struct State {
    pub enabled: bool,
}

/// The check capability: a small object holding its configuration by
/// value, deciding whether the state already satisfies the goal.
#[derive(Clone, Copy, Debug, PartialEq, Eq, Structural)]
pub enum CheckFn {
    /// The default check: satisfied exactly when the flag is set.
    EnabledFlag,
    /// A constant verdict, whatever the state.
    Always(bool),
}

/// The action capability: a small object holding its configuration by
/// value, producing the next state.
#[derive(Clone, Copy, Debug, PartialEq, Eq, Structural)]
pub enum ActionFn {
    /// The default enable/disable: set the flag to this value.
    SetEnabled(bool),
    /// Leave the state untouched.
    Noop,
}

/// What a check capability decides on a state.
pub open spec fn spec_check(c: CheckFn, s: State) -> bool {
    match c {
        CheckFn::EnabledFlag => s.enabled,
        CheckFn::Always(b) => b,
    }
}

/// What an action capability does to a state.
pub open spec fn spec_action(a: ActionFn, s: State) -> State {
    match a {
        ActionFn::SetEnabled(b) => State { enabled: b },
        ActionFn::Noop => s,
    }
}

/// Every action capability is idempotent.
pub proof fn lemma_action_idempotent(a: ActionFn, s: State)
    ensures
        spec_action(a, spec_action(a, s)) == spec_action(a, s),
{
}

/// Runs a check capability.
pub fn check_state(c: &CheckFn, s: &State) -> (r: bool)
    ensures
        r == spec_check(*c, *s),
{
    match c {
        CheckFn::EnabledFlag => s.enabled,
        CheckFn::Always(b) => *b,
    }
}

/// Runs an action capability.
pub fn run_action(a: &ActionFn, s: State) -> (r: State)
    ensures
        r == spec_action(*a, s),
{
    match a {
        ActionFn::SetEnabled(b) => State { enabled: *b },
        ActionFn::Noop => s,
    }
}

/// A module node: a unit of state plus three capabilities and an
/// ordered list of exclusively-owned children.  The structure is a
/// strict tree; it is built before `apply` and mutated only by the
/// convergence walk.
pub struct Module {
    pub name: String,
    pub state: State,
    pub check: CheckFn,
    pub enable: ActionFn,
    pub disable: ActionFn,
    pub children: Vec<Module>,
}

/// The mathematical value of a module node tree.
pub ghost struct ModuleV {
    pub name: Seq<char>,
    pub state: State,
    pub check: CheckFn,
    pub enable: ActionFn,
    pub disable: ActionFn,
    pub children: Seq<ModuleV>,
}

/// The mathematical value of a node.
pub open spec fn module_view(m: Module) -> ModuleV
    decreases m,
{
    ModuleV {
        name: m.name@,
        state: m.state,
        check: m.check,
        enable: m.enable,
        disable: m.disable,
        children: children_view(m.children@),
    }
}

/// The mathematical values of a list of nodes, in order.
pub open spec fn children_view(s: Seq<Module>) -> Seq<ModuleV>
    decreases s,
{
    if s.len() == 0 {
        Seq::empty()
    } else {
        seq![module_view(s.first())] + children_view(s.drop_first())
    }
}

/// `children_view` maps index-wise.
pub proof fn lemma_children_view(s: Seq<Module>)
    ensures
        children_view(s).len() == s.len(),
        forall|i: int| 0 <= i < s.len() ==> #[trigger] children_view(s)[i] == module_view(s[i]),
    decreases s.len(),
{
    if s.len() > 0 {
        lemma_children_view(s.drop_first());
        assert forall|i: int| 0 <= i < s.len() implies #[trigger] children_view(s)[i]
            == module_view(s[i]) by {
            if i > 0 {
                assert(s.drop_first()[i - 1] == s[i]);
            }
        }
    }
}

/// The state after one convergence visit: when the check fails, the
/// enable action runs; children are visited, in declaration order, only
/// once the re-evaluated check holds.
pub open spec fn spec_converge(m: ModuleV) -> ModuleV
    decreases m,
{
    let settled = if spec_check(m.check, m.state) {
        m.state
    } else {
        spec_action(m.enable, m.state)
    };
    if spec_check(m.check, settled) {
        ModuleV { state: settled, children: spec_converge_all(m.children), ..m }
    } else {
        ModuleV { state: settled, ..m }
    }
}

/// Converges every node of a list, in order.
pub open spec fn spec_converge_all(s: Seq<ModuleV>) -> Seq<ModuleV>
    decreases s,
{
    if s.len() == 0 {
        Seq::empty()
    } else {
        seq![spec_converge(s.first())] + spec_converge_all(s.drop_first())
    }
}

/// `spec_converge_all` maps index-wise.
pub proof fn lemma_converge_all(s: Seq<ModuleV>)
    ensures
        spec_converge_all(s).len() == s.len(),
        forall|i: int| 0 <= i < s.len() ==> #[trigger] spec_converge_all(s)[i] == spec_converge(
            s[i],
        ),
    decreases s.len(),
{
    if s.len() > 0 {
        lemma_converge_all(s.drop_first());
        assert forall|i: int| 0 <= i < s.len() implies #[trigger] spec_converge_all(s)[i]
            == spec_converge(s[i]) by {
            if i > 0 {
                assert(s.drop_first()[i - 1] == s[i]);
            }
        }
    }
}

/// Brings a node and its descendants toward a state where the check
/// holds: enable when unsatisfied, re-check, and only then recurse into
/// the children in declaration order.  Each node is visited exactly
/// once; disable is never invoked by this walk.
pub fn converge(m: Module) -> (r: Module)
    ensures
        module_view(r) == spec_converge(module_view(m)),
    decreases m,
{
    let ghost mv = module_view(m);
    let Module { name, state, check, enable, disable, children } = m;
    let state = if !check_state(&check, &state) {
        run_action(&enable, state)
    } else {
        state
    };
    proof {
        lemma_children_view(children@);
    }
    if check_state(&check, &state) {
        let mut remaining = children;
        let mut done: Vec<Module> = Vec::new();
        proof {
            assert(remaining@ =~= m.children@.skip(0));
        }
        while remaining.len() > 0
            invariant
                remaining@ == m.children@.skip(done@.len() as int),
                done@.len() <= m.children@.len(),
                mv == module_view(m),
                forall|i: int| 0 <= i < done@.len() ==> module_view(#[trigger] done@[i])
                    == spec_converge(module_view(m.children@[i])),
            decreases remaining@.len(),
        {
            let ghost k = done@.len() as int;
            let child = remaining.remove(0);
            proof {
                assert(child == m.children@[k]);
                assert(remaining@ =~= m.children@.skip(k + 1));
                assert(decreases_to!(m => m.children@[k]));
            }
            let settled_child = converge(child);
            done.push(settled_child);
        }
        proof {
            lemma_children_view(done@);
            lemma_converge_all(mv.children);
            assert(children_view(done@) =~= spec_converge_all(mv.children));
        }
        Module { name, state, check, enable, disable, children: done }
    } else {
        Module { name, state, check, enable, disable, children }
    }
}

/// Parent gates child: for a node whose check fails before and still
/// fails after its enable action, convergence leaves every child — its
/// whole subtree and state — exactly as it was; no child action is ever
/// invoked.
pub proof fn lemma_parent_gates_child(m: ModuleV)
    requires
        !spec_check(m.check, m.state),
        !spec_check(m.check, spec_action(m.enable, m.state)),
    ensures
        spec_converge(m).children == m.children,
        spec_converge(m).state == spec_action(m.enable, m.state),
{
}

/// Idempotence of convergence: a second walk finds every reachable
/// check already satisfied and every action already settled, and
/// changes nothing.
pub proof fn lemma_converge_idempotent(m: ModuleV)
    ensures
        spec_converge(spec_converge(m)) == spec_converge(m),
    decreases m,
{
    let settled = if spec_check(m.check, m.state) {
        m.state
    } else {
        spec_action(m.enable, m.state)
    };
    if spec_check(m.check, settled) {
        lemma_converge_all_idempotent(m.children);
    } else {
        assert(!spec_check(m.check, m.state));
        lemma_action_idempotent(m.enable, m.state);
    }
}

/// Idempotence of convergence over a list of nodes.
pub proof fn lemma_converge_all_idempotent(s: Seq<ModuleV>)
    ensures
        spec_converge_all(spec_converge_all(s)) == spec_converge_all(s),
    decreases s,
{
    if s.len() > 0 {
        lemma_converge_idempotent(s.first());
        lemma_converge_all_idempotent(s.drop_first());
        let once = spec_converge_all(s);
        assert(once.first() == spec_converge(s.first()));
        assert(once.drop_first() =~= spec_converge_all(s.drop_first()));
        assert(spec_converge_all(once) =~= seq![spec_converge(once.first())]
            + spec_converge_all(once.drop_first()));
        assert(spec_converge_all(once) =~= once);
    }
}

/// Builds a module node with the default capabilities: check the flag,
/// enable sets it, disable clears it, no children, and an initially
/// unsatisfied state.  Building is pure: nothing runs until the
/// reconciler invokes the actions.  It cannot fail.
pub struct ModuleBuilder {
    pub module: Module,
}

/// The node a fresh builder holds.
pub open spec fn default_module() -> ModuleV {
    ModuleV {
        name: Seq::empty(),
        state: State { enabled: false },
        check: CheckFn::EnabledFlag,
        enable: ActionFn::SetEnabled(true),
        disable: ActionFn::SetEnabled(false),
        children: Seq::empty(),
    }
}

impl ModuleBuilder {
    pub fn new() -> (r: Self)
        ensures
            module_view(r.module) == default_module(),
    {
        let module = Module {
            name: String::new(),
            state: State { enabled: false },
            check: CheckFn::EnabledFlag,
            enable: ActionFn::SetEnabled(true),
            disable: ActionFn::SetEnabled(false),
            children: Vec::new(),
        };
        proof {
            assert(children_view(module.children@) =~= Seq::<ModuleV>::empty());
        }
        ModuleBuilder { module }
    }

    /// Names the node.
    pub fn named(self, name: String) -> (r: Self)
        ensures
            module_view(r.module) == (ModuleV { name: name@, ..module_view(self.module) }),
    {
        let ModuleBuilder { module } = self;
        let Module { name: _, state, check, enable, disable, children } = module;
        ModuleBuilder { module: Module { name, state, check, enable, disable, children } }
    }

    /// Replaces the check capability.
    pub fn set_check_fn(self, f: CheckFn) -> (r: Self)
        ensures
            module_view(r.module) == (ModuleV { check: f, ..module_view(self.module) }),
    {
        let ModuleBuilder { module } = self;
        let Module { name, state, check: _, enable, disable, children } = module;
        ModuleBuilder { module: Module { name, state, check: f, enable, disable, children } }
    }

    /// Replaces the enable capability.
    pub fn set_enable_fn(self, f: ActionFn) -> (r: Self)
        ensures
            module_view(r.module) == (ModuleV { enable: f, ..module_view(self.module) }),
    {
        let ModuleBuilder { module } = self;
        let Module { name, state, check, enable: _, disable, children } = module;
        ModuleBuilder { module: Module { name, state, check, enable: f, disable, children } }
    }

    /// Replaces the disable capability.
    pub fn set_disable_fn(self, f: ActionFn) -> (r: Self)
        ensures
            module_view(r.module) == (ModuleV { disable: f, ..module_view(self.module) }),
    {
        let ModuleBuilder { module } = self;
        let Module { name, state, check, enable, disable: _, children } = module;
        ModuleBuilder { module: Module { name, state, check, enable, disable: f, children } }
    }

    /// Attaches an already-built child node, by ownership transfer,
    /// after any existing children.
    pub fn add_child(self, child: Module) -> (r: Self)
        ensures
            module_view(r.module) == (ModuleV {
                children: module_view(self.module).children.push(module_view(child)),
                ..module_view(self.module)
            }),
    {
        let ghost before = module_view(self.module);
        let ModuleBuilder { module } = self;
        let Module { name, state, check, enable, disable, mut children } = module;
        let ghost child_v = module_view(child);
        let ghost seen = children@;
        children.push(child);
        proof {
            lemma_children_view(seen);
            lemma_children_view(children@);
            assert(children_view(children@) =~= before.children.push(child_v));
        }
        ModuleBuilder { module: Module { name, state, check, enable, disable, children } }
    }

    /// Hands the finished node over.
    pub fn build(self) -> (r: Module)
        ensures
            module_view(r) == module_view(self.module),
    {
        let ModuleBuilder { module } = self;
        module
    }
}

} // verus!
