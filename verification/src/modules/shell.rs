//! Shell and package-manager bootstrapping, as a tree-shaped module:
//! its enable action marks the shell configured.  Which packages the
//! collaborator installs is configuration data; the convergence
//! semantics do not depend on it.

use vstd::prelude::*;
use vstd::string::StringExecFns;
use crate::node::{
    default_module, module_view, ActionFn, Module, ModuleBuilder, ModuleV,
};

verus! {

#[derive(Clone, Debug)]
pub enum PackageManager {
    Winget,
    Scoop,
    Chocolatey,
}

impl Default for PackageManager {
    fn default() -> (r: Self)
        ensures
            r is Winget,
    {
        PackageManager::Winget
    }
}

#[derive(Clone, Debug)]
pub struct ShellConfig {
    pub enable: bool,
    pub package_manager: PackageManager,
    pub packages: Vec<String>,
}

impl Default for ShellConfig {
    fn default() -> (r: Self)
        ensures
            !r.enable,
            r.package_manager is Winget,
            r.packages@ == Seq::<String>::empty(),
    {
        ShellConfig { enable: false, package_manager: PackageManager::Winget, packages: Vec::new() }
    }
}

/// The node `build` produces: the default capabilities under the name
/// "shell", with an explicit enable that marks the state satisfied.
pub open spec fn spec_shell_module(config: ShellConfig) -> ModuleV {
    ModuleV { name: "shell"@, enable: ActionFn::SetEnabled(true), ..default_module() }
}

/// Builds the shell module node from its configuration.
pub fn build(config: ShellConfig) -> (r: Module)
    ensures
        module_view(r) == spec_shell_module(config),
{
    ModuleBuilder::new().named(String::from_str("shell")).set_enable_fn(
        ActionFn::SetEnabled(true),
    ).build()
}

} // verus!
