//! An example standalone module: a control-panel feature whose actions
//! succeed without asking for filesystem effects.

use vstd::prelude::*;
use vstd::string::StringExecFns;
use crate::contract::ContractV;
use crate::{FileOp, Funcs};

verus! {

pub struct ControlPanel {
    pub enabled: bool,
    pub install: bool,
    pub package: String,
    pub sandbox: bool,
}

impl Default for ControlPanel {
    /// The canonical default: inert.
    fn default() -> (r: Self)
        ensures
            !r.enabled,
            !r.install,
            !r.sandbox,
            r.package@ == Seq::<char>::empty(),
    {
        ControlPanel { enabled: false, install: false, package: String::new(), sandbox: false }
    }
}

impl Funcs for ControlPanel {
    open spec fn contract(&self) -> ContractV {
        ContractV {
            id: "Control Panel"@,
            enabled: self.enabled,
            on_enable: Ok(Seq::empty()),
            on_disable: Ok(Seq::empty()),
        }
    }

    fn id(&self) -> (r: String) {
        String::from_str("Control Panel")
    }

    fn enable(&self) -> (r: Result<Vec<FileOp>, String>) {
        let effects: Vec<FileOp> = Vec::new();
        proof {
            assert(effects.deep_view() =~= Seq::<crate::FileOpV>::empty());
        }
        Ok(effects)
    }

    fn disable(&self) -> (r: Result<Vec<FileOp>, String>) {
        let effects: Vec<FileOp> = Vec::new();
        proof {
            assert(effects.deep_view() =~= Seq::<crate::FileOpV>::empty());
        }
        Ok(effects)
    }

    fn is_enabled(&self) -> (r: bool) {
        self.enabled
    }
}

} // verus!
