//! The top-level driver: a keyed collection of root module nodes, and
//! the single `apply` pass that converges every root.

use vstd::prelude::*;
use crate::config::ModuleId;
use crate::node::{converge, module_view, spec_converge, Module};

verus! {

/// Zero or more named roots; populated by registration before `apply`,
/// with re-registration of an identity replacing the prior root.
pub struct SystemManager {
    pub roots: Vec<(ModuleId, Module)>,
}

/// Registration semantics: replace the first root carrying `id` in
/// place, or append a new one.  When identities are unique — and
/// registration keeps them unique — this is last-write-wins.
pub open spec fn upsert(
    roots: Seq<(ModuleId, Module)>,
    id: ModuleId,
    m: Module,
) -> Seq<(ModuleId, Module)>
    decreases roots.len(),
{
    if roots.len() == 0 {
        seq![(id, m)]
    } else if roots.first().0 == id {
        seq![(id, m)] + roots.drop_first()
    } else {
        seq![roots.first()] + upsert(roots.drop_first(), id, m)
    }
}

/// When `id` first occurs at `i`, upserting updates exactly `i`.
pub proof fn lemma_upsert_found(roots: Seq<(ModuleId, Module)>, id: ModuleId, m: Module, i: int)
    requires
        0 <= i < roots.len(),
        roots[i].0 == id,
        forall|k: int| 0 <= k < i ==> (#[trigger] roots[k]).0 != id,
    ensures
        upsert(roots, id, m) == roots.update(i, (id, m)),
    decreases i,
{
    if i == 0 {
        assert(upsert(roots, id, m) =~= roots.update(0, (id, m)));
    } else {
        assert(roots.first().0 != id);
        assert(roots.drop_first()[i - 1].0 == id);
        assert forall|k: int| 0 <= k < i - 1 implies (#[trigger] roots.drop_first()[k]).0
            != id by {
            assert(roots.drop_first()[k] == roots[k + 1]);
        }
        lemma_upsert_found(roots.drop_first(), id, m, i - 1);
        assert(upsert(roots, id, m) =~= roots.update(i, (id, m)));
    }
}

/// When `id` does not occur, upserting appends.
pub proof fn lemma_upsert_absent(roots: Seq<(ModuleId, Module)>, id: ModuleId, m: Module)
    requires
        forall|k: int| 0 <= k < roots.len() ==> (#[trigger] roots[k]).0 != id,
    ensures
        upsert(roots, id, m) == roots.push((id, m)),
    decreases roots.len(),
{
    if roots.len() == 0 {
        assert(upsert(roots, id, m) =~= roots.push((id, m)));
    } else {
        assert forall|k: int| 0 <= k < roots.drop_first().len() implies (
        #[trigger] roots.drop_first()[k]).0 != id by {
            assert(roots.drop_first()[k] == roots[k + 1]);
        }
        lemma_upsert_absent(roots.drop_first(), id, m);
        assert(upsert(roots, id, m) =~= roots.push((id, m)));
    }
}

impl SystemManager {
    /// A manager with no roots.
    pub fn new() -> (r: Self)
        ensures
            r.roots@ == Seq::<(ModuleId, Module)>::empty(),
    {
        SystemManager { roots: Vec::new() }
    }

    /// Registers a root under `id`; a prior root with the same identity
    /// is replaced, so the last registration wins.
    pub fn add_module(&mut self, id: ModuleId, module: Module)
        ensures
            final(self).roots@ == upsert(old(self).roots@, id, module),
    {
        let n = self.roots.len();
        let mut i: usize = 0;
        while i < n
            invariant
                i <= n,
                n == self.roots@.len(),
                self.roots@ == old(self).roots@,
                forall|k: int| 0 <= k < i ==> (#[trigger] self.roots@[k]).0 != id,
            decreases n - i,
        {
            if self.roots[i].0 == id {
                self.roots.remove(i);
                self.roots.insert(i, (id, module));
                proof {
                    lemma_upsert_found(old(self).roots@, id, module, i as int);
                    assert(self.roots@ =~= old(self).roots@.update(i as int, (id, module)));
                }
                return;
            }
            i += 1;
        }
        self.roots.push((id, module));
        proof {
            lemma_upsert_absent(old(self).roots@, id, module);
        }
    }

    /// The one side-effecting pass: converges every registered root, in
    /// registration order.  Safe to call repeatedly; a second pass
    /// changes nothing.
    pub fn apply(&mut self)
        ensures
            final(self).roots@.len() == old(self).roots@.len(),
            forall|i: int| 0 <= i < old(self).roots@.len() ==> (#[trigger] final(self).roots@[i]).0
                == old(self).roots@[i].0 && module_view(final(self).roots@[i].1) == spec_converge(
                module_view(old(self).roots@[i].1),
            ),
    {
        let ghost orig = self.roots@;
        let mut out: Vec<(ModuleId, Module)> = Vec::new();
        proof {
            assert(self.roots@ =~= orig.skip(0));
        }
        while self.roots.len() > 0
            invariant
                out@.len() + self.roots@.len() == orig.len(),
                self.roots@ == orig.skip(out@.len() as int),
                forall|i: int| 0 <= i < out@.len() ==> (#[trigger] out@[i]).0 == orig[i].0
                    && module_view(out@[i].1) == spec_converge(module_view(orig[i].1)),
            decreases self.roots@.len(),
        {
            let ghost k = out@.len() as int;
            let entry = self.roots.remove(0);
            proof {
                assert(entry == orig[k]);
                assert(self.roots@ =~= orig.skip(k + 1));
            }
            let settled = converge(entry.1);
            out.push((entry.0, settled));
        }
        self.roots = out;
        proof {
            assert(orig == old(self).roots@);
        }
    }
}

} // verus!
