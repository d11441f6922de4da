//! The keyed configuration surface: a declarative description of the
//! system, and the build step that turns it into a manager holding one
//! root module node per enabled area.

use vstd::prelude::*;
use crate::manager::SystemManager;
use crate::modules::firewall::{spec_firewall_module, FirewallConfig};
use crate::modules::shell::{spec_shell_module, ShellConfig};
use crate::modules::xserver::{spec_xserver_module, XServerConfig};
use crate::modules::{firewall, shell, xserver};
use crate::node::{module_view, Module, ModuleV};

verus! {

/// The declarative description of the system, grouped by area.
pub struct SystemConfig {
    pub services: Services,
    pub networking: Networking,
    pub shell: ShellConfig,
}

impl Default for SystemConfig {
    fn default() -> (r: Self)
        ensures
            !r.services.xserver.enable,
            !r.networking.firewall.enable,
            !r.shell.enable,
    {
        SystemConfig {
            services: Services::default(),
            networking: Networking::default(),
            shell: ShellConfig::default(),
        }
    }
}

pub struct Services {
    pub xserver: XServerConfig,
}

impl Default for Services {
    fn default() -> (r: Self)
        ensures
            !r.xserver.enable,
            r.xserver.desktop_environment is None,
    {
        Services { xserver: XServerConfig::default() }
    }
}

pub struct Networking {
    pub firewall: FirewallConfig,
}

impl Default for Networking {
    fn default() -> (r: Self)
        ensures
            !r.firewall.enable,
    {
        Networking { firewall: FirewallConfig::default() }
    }
}

/// The stable identity of a tree-shaped module area.
#[derive(Debug, Clone, Copy, PartialEq, Eq, Hash, Structural)]
pub enum ModuleId {
    XServer,
    Firewall,
    Shell,
}

/// The registered roots, at the mathematical level.
pub open spec fn roots_view(roots: Seq<(ModuleId, Module)>) -> Seq<(ModuleId, ModuleV)> {
    Seq::new(roots.len(), |i: int| (roots[i].0, module_view(roots[i].1)))
}

/// The roots `build_system` registers: one per enabled area, in the
/// fixed order display server, firewall, shell.
pub open spec fn spec_build_system(config: SystemConfig) -> Seq<(ModuleId, ModuleV)> {
    (if config.services.xserver.enable {
        seq![(ModuleId::XServer, spec_xserver_module(config.services.xserver))]
    } else {
        Seq::empty()
    })
        + (if config.networking.firewall.enable {
            seq![(ModuleId::Firewall, spec_firewall_module(config.networking.firewall))]
        } else {
            Seq::empty()
        })
        + (if config.shell.enable {
            seq![(ModuleId::Shell, spec_shell_module(config.shell))]
        } else {
            Seq::empty()
        })
}

/// Builds the manager for a declarative system description: each
/// enabled area contributes its module tree under its identity.
pub fn build_system(config: SystemConfig) -> (r: SystemManager)
    ensures
        roots_view(r.roots@) == spec_build_system(config),
{
    let ghost cfg = config;
    let SystemConfig { services, networking, shell } = config;
    let Services { xserver: xserver_config } = services;
    let Networking { firewall: firewall_config } = networking;
    let mut manager = SystemManager::new();

    if xserver_config.enable {
        let module = xserver::build(xserver_config);
        let ghost before = manager.roots@;
        manager.add_module(ModuleId::XServer, module);
        proof {
            crate::manager::lemma_upsert_absent(before, ModuleId::XServer, module);
        }
    }

    if firewall_config.enable {
        let module = firewall::build(firewall_config);
        let ghost before = manager.roots@;
        manager.add_module(ModuleId::Firewall, module);
        proof {
            crate::manager::lemma_upsert_absent(before, ModuleId::Firewall, module);
        }
    }

    if shell.enable {
        let module = shell::build(shell);
        let ghost before = manager.roots@;
        manager.add_module(ModuleId::Shell, module);
        proof {
            crate::manager::lemma_upsert_absent(before, ModuleId::Shell, module);
        }
    }

    proof {
        assert(roots_view(manager.roots@) =~= spec_build_system(cfg));
    }
    manager
}

} // verus!
