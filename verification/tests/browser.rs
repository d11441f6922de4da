//! Tests for the browser module's rendered documents and effects.

use ezix::modules::zen_browser::paths::{AUTOCONFIG_JS, MOZILLA_CFG, POLICY_PATH};
use ezix::modules::zen_browser::{
    policies_document, render_autoconfig_js, render_cfg_from_prefs, render_mozilla_cfg,
    render_value, Policies, PrefValue, Prefs, ZenBrowser,
};
use ezix::{FileOp, Funcs};

#[test]
fn autoconfig_activates_the_override_file() {
    let text = render_autoconfig_js();
    assert_eq!(
        text,
        "pref(\"general.config.filename\", \"mozilla.cfg\");\npref(\"general.config.obscure_value\", 0);\n"
    );
}

#[test]
fn scalar_values_render_as_preference_text() {
    assert_eq!(render_value(&PrefValue::Bool(true)), "true");
    assert_eq!(render_value(&PrefValue::Bool(false)), "false");
    assert_eq!(render_value(&PrefValue::Int(3)), "3");
    assert_eq!(render_value(&PrefValue::Int(-17)), "-17");
    assert_eq!(render_value(&PrefValue::Str("x.y".to_string())), "\"x.y\"");
}

#[test]
fn mozilla_cfg_starts_with_a_skipped_line_and_lists_entries_in_order() {
    let entries = vec![
        ("a.b".to_string(), PrefValue::Str("x".to_string())),
        ("c".to_string(), PrefValue::Int(-5)),
        ("d".to_string(), PrefValue::Bool(false)),
    ];
    let text = render_mozilla_cfg(&entries);
    assert_eq!(
        text,
        "//\npref(\"a.b\", \"x\");\npref(\"c\", -5);\npref(\"d\", false);\n"
    );
}

#[test]
fn typed_prefs_render_before_extras() {
    let mut prefs = Prefs::default();
    prefs.restore_prev_session = Some(true);
    prefs.continue_where_you_left_off = Some(true);
    prefs.extra = vec![(
        "privacy.donottrackheader.enabled".to_string(),
        PrefValue::Bool(true),
    )];
    let text = render_cfg_from_prefs(&prefs);
    assert_eq!(
        text,
        "//\npref(\"browser.startup.page\", 3);\npref(\"zen.workspaces.continue-where-left-off\", true);\npref(\"privacy.donottrackheader.enabled\", true);\n"
    );
}

#[test]
fn empty_prefs_render_only_the_skipped_line() {
    let text = render_cfg_from_prefs(&Prefs::default());
    assert_eq!(text, "//\n");
}

#[test]
fn policy_document_carries_the_typed_fields() {
    let mut policies = Policies::default();
    policies.disable_app_update = Some(true);
    policies.background_app_update = Some(false);
    policies.dont_check_default_browser = Some(true);
    policies.no_default_bookmarks = Some(true);
    let text = policies_document(&policies);
    let parsed: serde_json::Value = serde_json::from_str(&text).expect("valid JSON");
    let inner = parsed.get("policies").expect("wrapped under policies");
    assert_eq!(inner.get("DisableAppUpdate"), Some(&serde_json::Value::Bool(true)));
    assert_eq!(inner.get("BackgroundAppUpdate"), Some(&serde_json::Value::Bool(false)));
    assert_eq!(inner.get("DontCheckDefaultBrowser"), Some(&serde_json::Value::Bool(true)));
    assert_eq!(inner.get("NoDefaultBookmarks"), Some(&serde_json::Value::Bool(true)));
}

#[test]
fn policy_extras_win_over_typed_fields() {
    let mut policies = Policies::default();
    policies.disable_app_update = Some(true);
    policies.extra = vec![
        ("DisableAppUpdate".to_string(), PrefValue::Bool(false)),
        ("HardwareAcceleration".to_string(), PrefValue::Bool(true)),
        ("DefaultDownloadDirectory".to_string(), PrefValue::Str("D:\\dl".to_string())),
        ("SearchSuggestEnabled".to_string(), PrefValue::Int(0)),
    ];
    let text = policies_document(&policies);
    let parsed: serde_json::Value = serde_json::from_str(&text).expect("valid JSON");
    let inner = parsed.get("policies").expect("wrapped under policies");
    assert_eq!(inner.get("DisableAppUpdate"), Some(&serde_json::Value::Bool(false)));
    assert_eq!(inner.get("HardwareAcceleration"), Some(&serde_json::Value::Bool(true)));
    assert_eq!(
        inner.get("DefaultDownloadDirectory").and_then(|v| v.as_str()),
        Some("D:\\dl")
    );
    assert_eq!(
        inner.get("SearchSuggestEnabled").and_then(|v| v.as_i64()),
        Some(0)
    );
}

#[test]
fn empty_policies_serialize_to_an_empty_document() {
    let text = policies_document(&Policies::default());
    let parsed: serde_json::Value = serde_json::from_str(&text).expect("valid JSON");
    let inner = parsed.get("policies").expect("wrapped under policies");
    assert_eq!(inner.as_object().map(|m| m.len()), Some(0));
}

#[test]
fn enable_writes_the_three_documents_at_their_fixed_paths() {
    let mut browser = ZenBrowser::default();
    browser.enabled = true;
    browser.prefs.restore_prev_session = Some(true);
    let effects = browser.enable().expect("rendering cannot fail");
    assert_eq!(effects.len(), 3);
    match &effects[0] {
        FileOp::Write { path, contents } => {
            assert_eq!(path, POLICY_PATH);
            assert!(contents.contains("policies"));
        }
        other => panic!("expected a write, got {:?}", other),
    }
    match &effects[1] {
        FileOp::Write { path, contents } => {
            assert_eq!(path, AUTOCONFIG_JS);
            assert!(contents.contains("general.config.filename"));
        }
        other => panic!("expected a write, got {:?}", other),
    }
    match &effects[2] {
        FileOp::Write { path, contents } => {
            assert_eq!(path, MOZILLA_CFG);
            assert_eq!(contents, "//\npref(\"browser.startup.page\", 3);\n");
        }
        other => panic!("expected a write, got {:?}", other),
    }
}

#[test]
fn disable_removes_the_three_documents() {
    let browser = ZenBrowser::default();
    let effects = browser.disable().expect("removal plan cannot fail");
    assert_eq!(
        effects,
        vec![
            FileOp::Remove { path: POLICY_PATH.to_string() },
            FileOp::Remove { path: AUTOCONFIG_JS.to_string() },
            FileOp::Remove { path: MOZILLA_CFG.to_string() },
        ]
    );
}
