//! A fully data-driven module contract instance: its identity, intent
//! and action outcomes are plain values chosen by the caller.  This is
//! the polymorphic contract shape in data form; it also lets a caller
//! script a failing action to exercise the reconciler's failure policy.

use vstd::prelude::*;
use crate::contract::ContractV;
use crate::{FileOp, Funcs};

verus! {

pub struct CustomModule {
    pub id: String,
    pub enabled: bool,
    /// When set, `enable` fails with this cause.
    pub enable_error: Option<String>,
    /// When set, `disable` fails with this cause.
    pub disable_error: Option<String>,
}

impl Funcs for CustomModule {
    open spec fn contract(&self) -> ContractV {
        ContractV {
            id: self.id@,
            enabled: self.enabled,
            on_enable: match self.enable_error {
                Some(cause) => Err(cause@),
                None => Ok(Seq::empty()),
            },
            on_disable: match self.disable_error {
                Some(cause) => Err(cause@),
                None => Ok(Seq::empty()),
            },
        }
    }

    fn id(&self) -> (r: String) {
        self.id.clone()
    }

    fn enable(&self) -> (r: Result<Vec<FileOp>, String>) {
        match &self.enable_error {
            Some(cause) => Err(cause.clone()),
            None => {
                let effects: Vec<FileOp> = Vec::new();
                proof {
                    assert(effects.deep_view() =~= Seq::<crate::FileOpV>::empty());
                }
                Ok(effects)
            },
        }
    }

    fn disable(&self) -> (r: Result<Vec<FileOp>, String>) {
        match &self.disable_error {
            Some(cause) => Err(cause.clone()),
            None => {
                let effects: Vec<FileOp> = Vec::new();
                proof {
                    assert(effects.deep_view() =~= Seq::<crate::FileOpV>::empty());
                }
                Ok(effects)
            },
        }
    }

    fn is_enabled(&self) -> (r: bool) {
        self.enabled
    }
}

} // verus!
