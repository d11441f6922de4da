//! Firewall rule application, parameterized by an allow-list of ports.
//! The real rule writing is a collaborator concern; the contract's
//! actions carry no filesystem effects.

use vstd::prelude::*;
use vstd::string::StringExecFns;
use crate::contract::ContractV;
use crate::node::{default_module, module_view, Module, ModuleBuilder, ModuleV};
use crate::{FileOp, Funcs};

verus! {

/// Configuration for the tree-shaped firewall module.
#[derive(Clone, Debug)]
pub struct FirewallConfig {
    pub enable: bool,
    pub ports: Vec<u16>,
}

impl Default for FirewallConfig {
    fn default() -> (r: Self)
        ensures
            !r.enable,
            r.ports@ == Seq::<u16>::empty(),
    {
        FirewallConfig { enable: false, ports: Vec::new() }
    }
}

/// The node `build` produces: a default-capability leaf named
/// "firewall".  The allow-list is configuration data for the
/// collaborator that writes the rules.
pub open spec fn spec_firewall_module(config: FirewallConfig) -> ModuleV {
    ModuleV { name: "firewall"@, ..default_module() }
}

/// Builds the firewall module node from its configuration.
pub fn build(config: FirewallConfig) -> (r: Module)
    ensures
        module_view(r) == spec_firewall_module(config),
{
    ModuleBuilder::new().named(String::from_str("firewall")).build()
}

pub struct Firewall {
    pub enabled: bool,
    pub install: bool,
    pub package: String,
    pub sandbox: bool,
    pub ports: Vec<u16>,
}

impl Default for Firewall {
    /// The canonical default: inert, with an empty allow-list.
    fn default() -> (r: Self)
        ensures
            !r.enabled,
            !r.install,
            !r.sandbox,
            r.package@ == Seq::<char>::empty(),
            r.ports@ == Seq::<u16>::empty(),
    {
        Firewall {
            enabled: false,
            install: false,
            package: String::new(),
            sandbox: false,
            ports: Vec::new(),
        }
    }
}

impl Funcs for Firewall {
    open spec fn contract(&self) -> ContractV {
        ContractV {
            id: "Firewall"@,
            enabled: self.enabled,
            on_enable: Ok(Seq::empty()),
            on_disable: Ok(Seq::empty()),
        }
    }

    fn id(&self) -> (r: String) {
        String::from_str("Firewall")
    }

    fn enable(&self) -> (r: Result<Vec<FileOp>, String>) {
        let effects: Vec<FileOp> = Vec::new();
        proof {
            assert(effects.deep_view() =~= Seq::<crate::FileOpV>::empty());
        }
        Ok(effects)
    }

    fn disable(&self) -> (r: Result<Vec<FileOp>, String>) {
        let effects: Vec<FileOp> = Vec::new();
        proof {
            assert(effects.deep_view() =~= Seq::<crate::FileOpV>::empty());
        }
        Ok(effects)
    }

    fn is_enabled(&self) -> (r: bool) {
        self.enabled
    }
}

} // verus!
