//! Display-server enablement: a standalone contract instance, and a
//! tree-shaped build with an optional nested desktop-environment
//! sub-module.

use vstd::prelude::*;
use vstd::string::StringExecFns;
use crate::contract::ContractV;
use crate::node::{default_module, module_view, Module, ModuleBuilder, ModuleV};
use crate::{FileOp, Funcs};

verus! {

/// Configuration for the tree-shaped display-server module.
#[derive(Clone, Debug)]
pub struct XServerConfig {
    pub enable: bool,
    pub window_manager: String,
    /// An optional nested desktop-environment sub-module.
    pub desktop_environment: Option<String>,
}

impl Default for XServerConfig {
    fn default() -> (r: Self)
        ensures
            !r.enable,
            r.window_manager@ == Seq::<char>::empty(),
            r.desktop_environment is None,
    {
        XServerConfig { enable: false, window_manager: String::new(), desktop_environment: None }
    }
}

/// The node `build` produces: a default-capability root named
/// "xserver", with one default child per configured desktop
/// environment, named after it.
pub open spec fn spec_xserver_module(config: XServerConfig) -> ModuleV {
    ModuleV {
        name: "xserver"@,
        children: match config.desktop_environment {
            Some(de) => seq![ModuleV { name: de@, ..default_module() }],
            None => Seq::empty(),
        },
        ..default_module()
    }
}

/// Builds the display-server module node from its configuration.
pub fn build(config: XServerConfig) -> (r: Module)
    ensures
        module_view(r) == spec_xserver_module(config),
{
    let builder = ModuleBuilder::new().named(String::from_str("xserver"));
    match config.desktop_environment {
        Some(de) => {
            let child = ModuleBuilder::new().named(de).build();
            let ghost child_v = module_view(child);
            let r = builder.add_child(child).build();
            proof {
                assert(Seq::<ModuleV>::empty().push(child_v) =~= seq![child_v]);
            }
            r
        },
        None => builder.build(),
    }
}

pub struct XServer {
    pub enabled: bool,
    pub window_manager: String,
}

impl Default for XServer {
    /// The canonical default: inert, with no window manager chosen.
    fn default() -> (r: Self)
        ensures
            !r.enabled,
            r.window_manager@ == Seq::<char>::empty(),
    {
        XServer { enabled: false, window_manager: String::new() }
    }
}

impl Funcs for XServer {
    open spec fn contract(&self) -> ContractV {
        ContractV {
            id: "xserver"@,
            enabled: self.enabled,
            on_enable: Ok(Seq::empty()),
            on_disable: Ok(Seq::empty()),
        }
    }

    fn id(&self) -> (r: String) {
        String::from_str("xserver")
    }

    fn enable(&self) -> (r: Result<Vec<FileOp>, String>) {
        let effects: Vec<FileOp> = Vec::new();
        proof {
            assert(effects.deep_view() =~= Seq::<crate::FileOpV>::empty());
        }
        Ok(effects)
    }

    fn disable(&self) -> (r: Result<Vec<FileOp>, String>) {
        let effects: Vec<FileOp> = Vec::new();
        proof {
            assert(effects.deep_view() =~= Seq::<crate::FileOpV>::empty());
        }
        Ok(effects)
    }

    fn is_enabled(&self) -> (r: bool) {
        self.enabled
    }
}

} // verus!
