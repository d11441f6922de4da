//! Tests for the module node tree, the builder, the convergence walk
//! and the keyed manager.

use ezix::config::{build_system, ModuleId, Networking, Services, SystemConfig};
use ezix::manager::SystemManager;
use ezix::modules::firewall::FirewallConfig;
use ezix::modules::shell::{build as build_shell, PackageManager, ShellConfig};
use ezix::modules::xserver::{build as build_xserver, XServerConfig};
use ezix::node::{converge, ActionFn, CheckFn, Module, ModuleBuilder, State};

fn root_with_child(child_name: &str) -> Module {
    let child = ModuleBuilder::new().named(child_name.to_string()).build();
    ModuleBuilder::new()
        .named("XServer".to_string())
        .add_child(child)
        .build()
}

#[test]
fn enable_then_recurse_into_child() {
    let root = root_with_child("Gnome");
    assert!(!root.state.enabled);
    assert!(!root.children[0].state.enabled);
    let settled = converge(root);
    assert!(settled.state.enabled);
    assert_eq!(settled.children.len(), 1);
    assert_eq!(settled.children[0].name, "Gnome");
    assert!(settled.children[0].state.enabled);
}

#[test]
fn childless_root_performs_only_its_own_enable() {
    let root = ModuleBuilder::new().named("XServer".to_string()).build();
    let settled = converge(root);
    assert!(settled.state.enabled);
    assert!(settled.children.is_empty());
}

#[test]
fn unsatisfiable_parent_never_visits_children() {
    let child = ModuleBuilder::new().named("Gnome".to_string()).build();
    let root = ModuleBuilder::new()
        .named("XServer".to_string())
        .set_check_fn(CheckFn::Always(false))
        .add_child(child)
        .build();
    let settled = converge(root);
    // The enable action ran on the root itself...
    assert!(settled.state.enabled);
    // ...but the gated child was never touched.
    assert!(!settled.children[0].state.enabled);
}

#[test]
fn satisfied_node_short_circuits_enable() {
    let root = ModuleBuilder::new()
        .set_enable_fn(ActionFn::Noop)
        .build();
    let mut satisfied = root;
    satisfied.state = State { enabled: true };
    let settled = converge(satisfied);
    assert!(settled.state.enabled);
}

#[test]
fn converge_is_idempotent_on_a_tree() {
    let grandchild = ModuleBuilder::new().named("terminal".to_string()).build();
    let child = ModuleBuilder::new()
        .named("Gnome".to_string())
        .add_child(grandchild)
        .build();
    let root = ModuleBuilder::new()
        .named("XServer".to_string())
        .add_child(child)
        .build();
    let once = converge(root);
    let twice = converge(clone_tree(&once));
    assert_eq!(tree_shape(&once), tree_shape(&twice));
}

fn clone_tree(m: &Module) -> Module {
    Module {
        name: m.name.clone(),
        state: m.state,
        check: m.check,
        enable: m.enable,
        disable: m.disable,
        children: m.children.iter().map(clone_tree).collect(),
    }
}

fn tree_shape(m: &Module) -> (String, bool, Vec<(String, bool)>) {
    (
        m.name.clone(),
        m.state.enabled,
        m.children
            .iter()
            .map(|c| (c.name.clone(), c.state.enabled))
            .collect(),
    )
}

#[test]
fn manager_registers_and_converges_every_root() {
    let mut manager = SystemManager::new();
    manager.add_module(
        ModuleId::XServer,
        ModuleBuilder::new().named("xserver".to_string()).build(),
    );
    manager.add_module(
        ModuleId::Shell,
        ModuleBuilder::new().named("shell".to_string()).build(),
    );
    manager.apply();
    assert_eq!(manager.roots.len(), 2);
    assert!(manager.roots[0].1.state.enabled);
    assert!(manager.roots[1].1.state.enabled);
}

#[test]
fn re_registering_an_identity_replaces_the_prior_root() {
    let mut manager = SystemManager::new();
    manager.add_module(
        ModuleId::Shell,
        ModuleBuilder::new().named("first".to_string()).build(),
    );
    manager.add_module(
        ModuleId::Shell,
        ModuleBuilder::new().named("second".to_string()).build(),
    );
    assert_eq!(manager.roots.len(), 1);
    assert_eq!(manager.roots[0].1.name, "second");
}

#[test]
fn manager_apply_twice_changes_nothing_more() {
    let mut manager = SystemManager::new();
    manager.add_module(
        ModuleId::Firewall,
        ModuleBuilder::new().named("firewall".to_string()).build(),
    );
    manager.apply();
    let after_once = tree_shape(&manager.roots[0].1);
    manager.apply();
    assert_eq!(tree_shape(&manager.roots[0].1), after_once);
}

#[test]
fn build_system_registers_only_enabled_areas_in_order() {
    let config = SystemConfig {
        services: Services {
            xserver: XServerConfig {
                enable: true,
                window_manager: "i3".to_string(),
                desktop_environment: Some("Gnome".to_string()),
            },
        },
        networking: Networking {
            firewall: FirewallConfig { enable: false, ports: vec![] },
        },
        shell: ShellConfig {
            enable: true,
            package_manager: PackageManager::Scoop,
            packages: vec!["git".to_string()],
        },
    };
    let manager = build_system(config);
    let ids: Vec<ModuleId> = manager.roots.iter().map(|r| r.0).collect();
    assert_eq!(ids, vec![ModuleId::XServer, ModuleId::Shell]);
    assert_eq!(manager.roots[0].1.children.len(), 1);
    assert_eq!(manager.roots[0].1.children[0].name, "Gnome");
}

#[test]
fn build_system_with_default_config_registers_nothing() {
    let manager = build_system(SystemConfig::default());
    assert!(manager.roots.is_empty());
}

#[test]
fn built_modules_carry_their_area_names() {
    let shell = build_shell(ShellConfig {
        enable: true,
        package_manager: PackageManager::Winget,
        packages: vec![],
    });
    assert_eq!(shell.name, "shell");
    assert_eq!(shell.enable, ActionFn::SetEnabled(true));

    let xserver = build_xserver(XServerConfig {
        enable: true,
        window_manager: String::new(),
        desktop_environment: None,
    });
    assert_eq!(xserver.name, "xserver");
    assert!(xserver.children.is_empty());
}
