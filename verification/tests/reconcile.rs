//! Scenario tests for the flat registry-diff reconciler.

use ezix::contract::{ApplyPolicy, Phase};
use ezix::modules::all_modules;
use ezix::modules::control_panel::ControlPanel;
use ezix::modules::custom::CustomModule;
use ezix::modules::firewall::Firewall;
use ezix::{Funcs, ModuleKind, SystemConfig};

fn firewall_declared(enabled: bool, ports: Vec<u16>) -> ModuleKind {
    let mut firewall = Firewall::default();
    firewall.enabled = enabled;
    firewall.ports = ports;
    ModuleKind::Firewall(firewall)
}

fn two_entry_registry() -> Vec<ModuleKind> {
    vec![
        ModuleKind::Firewall(Firewall::default()),
        ModuleKind::ControlPanel(ControlPanel::default()),
    ]
}

#[test]
fn declared_enabled_module_is_enabled_and_undeclared_is_disabled() {
    let config = SystemConfig::new().with(firewall_declared(true, vec![22, 80, 443]));
    let registry = two_entry_registry();
    let report = config
        .apply_with(&registry, ApplyPolicy::FailFast)
        .expect("both actions succeed");
    assert_eq!(report.invocations.len(), 2);
    assert_eq!(report.invocations[0].id, "Firewall");
    assert_eq!(report.invocations[0].phase, Phase::Enable);
    assert!(report.invocations[0].on_declared);
    assert_eq!(report.invocations[1].id, "Control Panel");
    assert_eq!(report.invocations[1].phase, Phase::Disable);
    assert!(!report.invocations[1].on_declared);
}

#[test]
fn declared_but_off_module_is_disabled_not_enabled() {
    let config = SystemConfig::new().with(firewall_declared(false, vec![]));
    let registry = vec![ModuleKind::Firewall(Firewall::default())];
    let report = config
        .apply_with(&registry, ApplyPolicy::FailFast)
        .expect("disable succeeds");
    assert_eq!(report.invocations.len(), 1);
    assert_eq!(report.invocations[0].id, "Firewall");
    assert_eq!(report.invocations[0].phase, Phase::Disable);
    assert!(report.invocations[0].on_declared);
}

fn failing(id: &str, enabled: bool) -> ModuleKind {
    ModuleKind::Custom(CustomModule {
        id: id.to_string(),
        enabled,
        enable_error: Some(format!("cannot enable {}", id)),
        disable_error: Some(format!("cannot disable {}", id)),
    })
}

#[test]
fn fail_fast_stops_at_first_failure() {
    let config = SystemConfig::new()
        .with(failing("Firewall", true))
        .with(failing("Control Panel", false));
    let registry = two_entry_registry();
    let err = config
        .apply_with(&registry, ApplyPolicy::FailFast)
        .expect_err("firewall enable fails");
    assert_eq!(err.failures.len(), 1);
    assert_eq!(err.failures[0].id, "Firewall");
    assert_eq!(err.failures[0].phase, Phase::Enable);
    assert_eq!(err.failures[0].cause, "cannot enable Firewall");
}

#[test]
fn continue_on_error_attempts_every_identity_and_aggregates() {
    let config = SystemConfig::new()
        .with(failing("Firewall", true))
        .with(failing("Control Panel", false));
    let registry = two_entry_registry();
    let err = config
        .apply_with(&registry, ApplyPolicy::ContinueOnError)
        .expect_err("both actions fail");
    assert_eq!(err.failures.len(), 2);
    assert_eq!(err.failures[0].id, "Firewall");
    assert_eq!(err.failures[0].phase, Phase::Enable);
    assert_eq!(err.failures[0].cause, "cannot enable Firewall");
    assert_eq!(err.failures[1].id, "Control Panel");
    assert_eq!(err.failures[1].phase, Phase::Disable);
    assert_eq!(err.failures[1].cause, "cannot disable Control Panel");
}

#[test]
fn continue_on_error_still_succeeds_for_the_modules_that_can() {
    // Only the firewall fails; the undeclared control panel's disable
    // still runs, so it is absent from the aggregate error.
    let config = SystemConfig::new().with(failing("Firewall", true));
    let registry = two_entry_registry();
    let err = config
        .apply_with(&registry, ApplyPolicy::ContinueOnError)
        .expect_err("firewall enable fails");
    assert_eq!(err.failures.len(), 1);
    assert_eq!(err.failures[0].id, "Firewall");
}

#[test]
fn duplicate_identity_resolves_to_last_inserted() {
    let off = ModuleKind::Custom(CustomModule {
        id: "firewall".to_string(),
        enabled: false,
        enable_error: None,
        disable_error: None,
    });
    let on = ModuleKind::Custom(CustomModule {
        id: "firewall".to_string(),
        enabled: true,
        enable_error: None,
        disable_error: None,
    });
    let registry = vec![ModuleKind::Custom(CustomModule {
        id: "firewall".to_string(),
        enabled: false,
        enable_error: None,
        disable_error: None,
    })];
    let config = SystemConfig::new().with(off).with(on);
    let report = config
        .apply_with(&registry, ApplyPolicy::FailFast)
        .expect("scripted actions succeed");
    assert_eq!(report.invocations.len(), 1);
    assert_eq!(report.invocations[0].phase, Phase::Enable);

    // The reverse insertion order resolves to disable.
    let off = ModuleKind::Custom(CustomModule {
        id: "firewall".to_string(),
        enabled: false,
        enable_error: None,
        disable_error: None,
    });
    let on = ModuleKind::Custom(CustomModule {
        id: "firewall".to_string(),
        enabled: true,
        enable_error: None,
        disable_error: None,
    });
    let config = SystemConfig::new().with(on).with(off);
    let report = config
        .apply_with(&registry, ApplyPolicy::FailFast)
        .expect("scripted actions succeed");
    assert_eq!(report.invocations[0].phase, Phase::Disable);
}

#[test]
fn empty_configuration_disables_every_canonical_identity_exactly_once() {
    let config = SystemConfig::new();
    let report = config.apply().expect("canonical disables succeed");
    let ids: Vec<&str> = report
        .invocations
        .iter()
        .map(|inv| inv.id.as_str())
        .collect();
    assert_eq!(ids, vec!["Firewall", "Control Panel", "Zen Browser"]);
    for invocation in &report.invocations {
        assert_eq!(invocation.phase, Phase::Disable);
        assert!(!invocation.on_declared);
    }
}

#[test]
fn reordering_the_declared_set_does_not_change_actions() {
    let registry = two_entry_registry();
    let a = firewall_declared(true, vec![22]);
    let mut panel = ControlPanel::default();
    panel.enabled = false;
    let b = ModuleKind::ControlPanel(panel);

    let first = SystemConfig::new()
        .with(a)
        .with(b)
        .apply_with(&registry, ApplyPolicy::FailFast)
        .expect("actions succeed");

    let a = firewall_declared(true, vec![22]);
    let mut panel = ControlPanel::default();
    panel.enabled = false;
    let b = ModuleKind::ControlPanel(panel);
    let second = SystemConfig::new()
        .with(b)
        .with(a)
        .apply_with(&registry, ApplyPolicy::FailFast)
        .expect("actions succeed");

    for (x, y) in first.invocations.iter().zip(second.invocations.iter()) {
        assert_eq!(x.id, y.id);
        assert_eq!(x.phase, y.phase);
        assert_eq!(x.on_declared, y.on_declared);
    }
}

#[test]
fn applying_twice_reports_the_same_invocations() {
    let registry = all_modules();
    let config = SystemConfig::new().with(firewall_declared(true, vec![22, 80]));
    let first = config
        .apply_with(&registry, ApplyPolicy::FailFast)
        .expect("actions succeed");
    let second = config
        .apply_with(&registry, ApplyPolicy::FailFast)
        .expect("actions succeed");
    assert_eq!(first.invocations.len(), second.invocations.len());
    for (x, y) in first.invocations.iter().zip(second.invocations.iter()) {
        assert_eq!(x.id, y.id);
        assert_eq!(x.phase, y.phase);
        assert_eq!(x.effects, y.effects);
    }
}

#[test]
fn extend_appends_and_later_entries_win() {
    let base = SystemConfig::new().with(firewall_declared(false, vec![]));
    let override_set = SystemConfig::new().with(firewall_declared(true, vec![8080]));
    let merged = base.extend(override_set);
    let registry = vec![ModuleKind::Firewall(Firewall::default())];
    let report = merged
        .apply_with(&registry, ApplyPolicy::FailFast)
        .expect("actions succeed");
    assert_eq!(report.invocations[0].phase, Phase::Enable);
}

#[test]
fn module_contract_accessors_report_the_declared_value() {
    let module = firewall_declared(true, vec![1]);
    assert_eq!(module.id(), "Firewall");
    assert!(module.is_enabled());
    assert!(module.enable().is_ok());
    assert!(module.disable().is_ok());
}
