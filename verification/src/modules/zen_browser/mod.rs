//! Declarative browser management: the module materializes a policy
//! document, an autoconfig activation stub and a preference-override
//! file at fixed locations, and removes all three on disable.
//!
//! The documents are computed here; the actual filesystem writes are the
//! caller's concern and are described by the returned [`FileOp`]s.

pub mod paths;

use vstd::prelude::*;
use vstd::string::StringExecFns;
use crate::contract::ContractV;
use crate::text::{int_dec, i64_dec_string};
use crate::{FileOp, FileOpV, Funcs};
use paths::{AUTOCONFIG_JS, MOZILLA_CFG, POLICY_PATH};

verus! {

/// A scalar preference value.
#[derive(Debug, PartialEq, Eq)]
pub enum PrefValue {
    Bool(bool),
    Int(i64),
    Str(String),
}

/// The mathematical value of a [`PrefValue`].
pub ghost enum PrefValueV {
    Bool(bool),
    Int(int),
    Str(Seq<char>),
}

impl View for PrefValue {
    type V = PrefValueV;

    open spec fn view(&self) -> PrefValueV {
        match self {
            PrefValue::Bool(b) => PrefValueV::Bool(*b),
            PrefValue::Int(i) => PrefValueV::Int(*i as int),
            PrefValue::Str(s) => PrefValueV::Str(s@),
        }
    }
}

impl DeepView for PrefValue {
    type V = PrefValueV;

    open spec fn deep_view(&self) -> PrefValueV {
        self.view()
    }
}

impl Clone for PrefValue {
    fn clone(&self) -> (res: Self)
        ensures
            res == *self,
    {
        match self {
            PrefValue::Bool(b) => PrefValue::Bool(*b),
            PrefValue::Int(i) => PrefValue::Int(*i),
            PrefValue::Str(s) => PrefValue::Str(s.clone()),
        }
    }
}

/// One named preference or policy entry.
pub type PrefEntry = (String, PrefValue);

/// The entries of a sequence of pairs, at the mathematical level.
pub type PrefEntryV = (Seq<char>, PrefValueV);

pub struct Policies {
    pub disable_app_update: Option<bool>,
    pub background_app_update: Option<bool>,
    pub dont_check_default_browser: Option<bool>,
    pub no_default_bookmarks: Option<bool>,
    /// Anything not covered by the typed fields lands here; entries here
    /// win over the typed fields when they name the same policy.
    pub extra: Vec<PrefEntry>,
}

impl Default for Policies {
    fn default() -> (r: Self)
        ensures
            r.disable_app_update is None,
            r.background_app_update is None,
            r.dont_check_default_browser is None,
            r.no_default_bookmarks is None,
            r.extra@ == Seq::<PrefEntry>::empty(),
    {
        Policies {
            disable_app_update: None,
            background_app_update: None,
            dont_check_default_browser: None,
            no_default_bookmarks: None,
            extra: Vec::new(),
        }
    }
}

#[derive(Debug, Clone, Copy)]
pub enum AppearanceModePref {
    System,
    Light,
    Dark,
}

pub struct FontPref {
    pub size: Option<i64>,
    pub default_font: Option<String>,
}

pub struct ZoomPref {
    pub default_zoom: Option<i64>,
    pub zoom_text_only: Option<bool>,
}

pub struct LanguagePref {
    pub default_language: Option<String>,
    pub check_spelling: Option<bool>,
}

pub struct DownloadsPref {
    pub default_path: Option<String>,
    pub always_ask_where_to_save: Option<bool>,
}

pub enum WhatTodoWithOtherFilesPref {
    SaveFiles,
    Ask,
}

pub struct UpdatesPref {
    pub check_for_updates: Option<bool>,
    pub auto_update: Option<bool>,
    pub update_only_in_background: Option<bool>,
}

pub struct PerformancePref {
    pub use_recommended_settings: Option<bool>,
    pub use_hardware_acceleration: Option<bool>,
}

pub struct NetworkPref {
    pub proxy: Option<ProxyPref>,
}

pub struct ProxyPref {
    pub mode: Option<ProxyModePref>,
}

pub enum ProxyModePref {
    NoProxy,
    AutoDetect,
    SystemProxy,
    Manual,
}

pub enum BrowserLayoutPref {
    SingleToolbar,
    MultipleToolbars,
    CollapsedToolbar,
}

pub struct VerticalTabsPref {
    pub new_tab_button_on_tab_list: Option<bool>,
    pub new_tab_button_on_top: Option<bool>,
}

pub enum UrlBarBehaviourPref {
    Normal,
    FloatingWhenTyping,
    FloatingAlways,
}

pub struct WorkspacesPref {
    pub hide_container_indicator: Option<bool>,
    pub switch_to_default_container_workspace: Option<bool>,
}

pub struct PinnedTabsPref {
    pub restore_pinned_tabs_on_startup: Option<bool>,
    pub container_essentials: Option<bool>,
    pub close_tab_shortcut_behaviour: Option<CloseTabShortcutBehaviourPref>,
}

pub enum CloseTabShortcutBehaviourPref {
    ResetURLUnloadAndSwitchToNextTab,
    UnloadAndSwitchToNextTab,
    ResetURLAndSwitchToNextTab,
    SwitchToNextTab,
    ResetURL,
    CloseTab,
}

pub struct ZenModsPref {
    pub enabled: Option<bool>,
    pub auto_update_on_startup: Option<bool>,
}

pub struct HomePref {
    pub homepage_and_new_windows: Option<HomepageAndNewWindowsPref>,
    pub new_tabs: Option<NewTabsPref>,
    pub home_content: Option<Vec<HomeContentItem>>,
}

pub enum HomepageAndNewWindowsPref {
    FirefoxHome,
    CustomPage(String),
    BlankPage,
}

pub enum NewTabsPref {
    FirefoxHome,
    BlankPage,
}

pub enum HomeContentItem {
    WebSearch,
    Shortcuts,
    SupportZenBrowser,
    SponsoredShortcuts,
    RecentActivity(RecentActivitySelection),
}

pub enum RecentActivitySelection {
    VisitedPages,
    Bookmarks,
    MostRecentDownload,
}

pub struct SearchPref {
    pub default_search_engine: Option<DefaultSearchEnginePref>,
    pub use_default_search_engine_in_private_windows: Option<bool>,
    pub default_search_engine_private_windows: Option<DefaultSearchEnginePref>,
    pub search_suggestions: Option<SearchSuggestionsPref>,
    pub address_bar: Option<AddressBarPref>,
}

pub enum DefaultSearchEnginePref {
    Google,
    Bing,
    DuckDuckGo,
    Wikipedia,
}

pub struct SearchSuggestionsPref {
    pub ahead_of_browsing_history: Option<bool>,
    pub in_private_windows: Option<bool>,
    pub recent_searches: Option<bool>,
}

pub struct AddressBarPref {
    pub browsing_history: Option<bool>,
    pub bookmarks: Option<bool>,
    pub clipboard: Option<bool>,
    pub open_tabs: Option<bool>,
    pub shortcuts: Option<bool>,
    pub search_engines: Option<bool>,
}

pub struct PrivacyAndSecurityPref {
    pub tracking_protection: Option<TrackingProtectionPref>,
    pub tell_sites_not_to_sell_or_share_data: Option<bool>,
    pub delete_cookies_when_closed: Option<bool>,
    pub passwords: Option<PasswordsPref>,
    pub autofill: Option<AutofillPref>,
    pub remember_history: Option<RememberHistoryPref>,
    pub block_popups: Option<bool>,
    pub warn_about_addon_installs: Option<bool>,
    pub security: Option<SecurityPref>,
    pub dns_over_https: Option<DnsOverHttpsPref>,
}

pub struct SecurityPref {
    pub block_dangerous_and_deceptive_content: Option<bool>,
    pub block_dangerous_downloads: Option<bool>,
    pub warn_about_unwanted_uncommon_software: Option<bool>,
    pub query_ocsp_responder_to_confirm_certificates: Option<bool>,
    pub auto_trust_third_party_root_certificates: Option<bool>,
    pub https_only_mode: Option<HttpsOnlyModePref>,
}

pub enum HttpsOnlyModePref {
    InAllWindows,
    InPrivateWindowsOnly,
    DontEnable,
}

pub struct DnsOverHttpsPref {
    pub mode: Option<DnsOverHttpsModePref>,
}

pub enum DnsOverHttpsModePref {
    DefaultProtection,
    IncreasedProtection,
    MaxProtection,
    Off,
}

pub enum TrackingProtectionPref {
    Standard,
    Strict(StrictTrackingProtectionPref),
}

pub struct StrictTrackingProtectionPref {
    pub allow_browser_to_apply_exceptions: Option<bool>,
    pub allow_browser_to_apply_minor_exceptions: Option<bool>,
}

pub struct PasswordsPref {
    pub ask_to_save_passwords: Option<AskToSavePasswordsPref>,
    pub require_device_signin_to_fill: Option<bool>,
    pub primary_password: Option<PrimaryPasswordPref>,
    pub windows_sso: Option<bool>,
}

pub struct AskToSavePasswordsPref {
    pub fill_usernames_and_passwords: Option<bool>,
    pub suggest_strong_passwords: Option<bool>,
    pub suggest_firefox_relay_email: Option<bool>,
    pub alerts_about_passwords_breached_websites: Option<bool>,
}

pub struct PrimaryPasswordPref {
    pub enabled: Option<bool>,
    pub password: Option<String>,
}

pub struct AutofillPref {
    pub save_and_fill_payment_methods: Option<bool>,
    pub require_device_signin_to_fill: Option<bool>,
}

pub enum RememberHistoryPref {
    RememberHistory,
    NeverRemember,
    CustomSettings(CustomRememberHistorySettings),
}

pub struct CustomRememberHistorySettings {
    pub browsing_and_download_history: Option<bool>,
    pub search_and_form_history: Option<bool>,
    pub clear_history_when_closing: Option<bool>,
}

pub struct Prefs {
    /// General
    pub restore_prev_session: Option<bool>,
    pub continue_where_you_left_off: Option<bool>,
    pub ctrl_tab_tabs_cycling: Option<bool>,
    pub open_links_in_new_tab: Option<bool>,
    pub switch_to_media_immediately: Option<bool>,
    pub ask_before_closing_multiple_tabs: Option<bool>,
    pub tab_previews: Option<bool>,
    pub container_tabs: Option<bool>,
    /// Language and appearance
    pub appearance: Option<AppearanceModePref>,
    pub font: Option<FontPref>,
    pub default_zoom: Option<ZoomPref>,
    pub language: Option<LanguagePref>,
    /// Files and applications
    pub downloads: Option<DownloadsPref>,
    pub what_todo_with_other_files: Option<WhatTodoWithOtherFilesPref>,
    pub play_drm_controlled_content: Option<bool>,
    /// Updates
    pub updates: Option<UpdatesPref>,
    /// Performance
    pub performance: Option<PerformancePref>,
    /// Browsing
    pub autoscrolling: Option<bool>,
    pub smooth_scrolling: Option<bool>,
    pub touch_keyboard: Option<bool>,
    pub cursor_keys: Option<bool>,
    pub underline_links: Option<bool>,
    pub search_for_text_when_typing: Option<bool>,
    pub picture_in_picture_video_controls: Option<bool>,
    pub control_media_via_media_interfaces: Option<bool>,
    pub recommend_extensions: Option<bool>,
    pub recommend_features: Option<bool>,
    /// Network
    pub network: Option<NetworkPref>,
    /// Look and feel
    pub browser_layout: Option<BrowserLayoutPref>,
    pub vertical_tabs: Option<VerticalTabsPref>,
    /// Theme
    pub toolbar_popup_in_compact_mode: Option<bool>,
    pub themed_background_for_compact_toolbar: Option<bool>,
    pub themed_background_for_compact_sidebar: Option<bool>,
    /// Glance
    pub glance: Option<bool>,
    /// URL bar
    pub url_bar_behaviour: Option<UrlBarBehaviourPref>,
    /// Workspaces
    pub workspaces: Option<WorkspacesPref>,
    /// Pinned tabs
    pub pinned_tabs: Option<PinnedTabsPref>,
    /// Zen mods
    pub zen_mods: Option<ZenModsPref>,
    /// Home
    pub home: Option<HomePref>,
    /// Search
    pub search: Option<SearchPref>,
    /// Privacy and security
    pub privacy_and_security: Option<PrivacyAndSecurityPref>,
    /// Additional arbitrary prefs
    pub extra: Vec<PrefEntry>,
}

impl Default for Prefs {
    fn default() -> (r: Self)
        ensures
            r.restore_prev_session is None,
            r.continue_where_you_left_off is None,
            r.extra@ == Seq::<PrefEntry>::empty(),
    {
        Prefs {
            restore_prev_session: None,
            continue_where_you_left_off: None,
            ctrl_tab_tabs_cycling: None,
            open_links_in_new_tab: None,
            switch_to_media_immediately: None,
            ask_before_closing_multiple_tabs: None,
            tab_previews: None,
            container_tabs: None,
            appearance: None,
            font: None,
            default_zoom: None,
            language: None,
            downloads: None,
            what_todo_with_other_files: None,
            play_drm_controlled_content: None,
            updates: None,
            performance: None,
            autoscrolling: None,
            smooth_scrolling: None,
            touch_keyboard: None,
            cursor_keys: None,
            underline_links: None,
            search_for_text_when_typing: None,
            picture_in_picture_video_controls: None,
            control_media_via_media_interfaces: None,
            recommend_extensions: None,
            recommend_features: None,
            network: None,
            browser_layout: None,
            vertical_tabs: None,
            toolbar_popup_in_compact_mode: None,
            themed_background_for_compact_toolbar: None,
            themed_background_for_compact_sidebar: None,
            glance: None,
            url_bar_behaviour: None,
            workspaces: None,
            pinned_tabs: None,
            zen_mods: None,
            home: None,
            search: None,
            privacy_and_security: None,
            extra: Vec::new(),
        }
    }
}

/// The entry contributed by one typed boolean policy field.
pub open spec fn bool_policy_entry(key: Seq<char>, v: Option<bool>) -> Seq<PrefEntryV> {
    match v {
        Some(b) => seq![(key, PrefValueV::Bool(b))],
        None => Seq::empty(),
    }
}

/// The ordered entries of the policy document: the typed fields first,
/// then the extras, which win when they name the same policy.
pub open spec fn spec_policies_entries(p: Policies) -> Seq<PrefEntryV> {
    bool_policy_entry("DisableAppUpdate"@, p.disable_app_update)
        + bool_policy_entry("BackgroundAppUpdate"@, p.background_app_update)
        + bool_policy_entry("DontCheckDefaultBrowser"@, p.dont_check_default_browser)
        + bool_policy_entry("NoDefaultBookmarks"@, p.no_default_bookmarks)
        + p.extra.deep_view()
}

/// Collects the policy entries in document order.
pub fn policies_entries(p: &Policies) -> (r: Vec<PrefEntry>)
    ensures
        r.deep_view() == spec_policies_entries(*p),
{
    let mut out: Vec<PrefEntry> = Vec::new();
    if let Some(b) = p.disable_app_update {
        out.push((String::from_str("DisableAppUpdate"), PrefValue::Bool(b)));
    }
    if let Some(b) = p.background_app_update {
        out.push((String::from_str("BackgroundAppUpdate"), PrefValue::Bool(b)));
    }
    if let Some(b) = p.dont_check_default_browser {
        out.push((String::from_str("DontCheckDefaultBrowser"), PrefValue::Bool(b)));
    }
    if let Some(b) = p.no_default_bookmarks {
        out.push((String::from_str("NoDefaultBookmarks"), PrefValue::Bool(b)));
    }
    let ghost typed: Seq<PrefEntryV> = bool_policy_entry("DisableAppUpdate"@, p.disable_app_update)
        + bool_policy_entry("BackgroundAppUpdate"@, p.background_app_update)
        + bool_policy_entry("DontCheckDefaultBrowser"@, p.dont_check_default_browser)
        + bool_policy_entry("NoDefaultBookmarks"@, p.no_default_bookmarks);
    proof {
        assert(out.deep_view() =~= typed);
    }
    let n = p.extra.len();
    let mut i: usize = 0;
    while i < n
        invariant
            i <= n,
            n == p.extra@.len(),
            out.deep_view() == typed + p.extra.deep_view().take(i as int),
        decreases n - i,
    {
        let pair = &p.extra[i];
        let key = pair.0.clone();
        let value = pair.1.clone();
        let ghost seen = out.deep_view();
        out.push((key, value));
        proof {
            assert((key, value).deep_view() == p.extra.deep_view()[i as int]);
            assert(out.deep_view() =~= seen.push(p.extra.deep_view()[i as int]));
            assert(out.deep_view() =~= typed + p.extra.deep_view().take(i as int + 1));
        }
        i += 1;
    }
    proof {
        assert(p.extra.deep_view().take(n as int) =~= p.extra.deep_view());
        assert(out.deep_view() =~= spec_policies_entries(*p));
    }
    out
}

/// The preference-file text of one scalar value: booleans and integers
/// bare, strings quoted.
pub open spec fn value_text(v: PrefValueV) -> Seq<char> {
    match v {
        PrefValueV::Bool(b) => if b {
            "true"@
        } else {
            "false"@
        },
        PrefValueV::Int(i) => int_dec(i),
        PrefValueV::Str(s) => "\""@ + s + "\""@,
    }
}

/// One preference-override line.
pub open spec fn pref_line(k: Seq<char>, v: PrefValueV) -> Seq<char> {
    "pref(\""@ + k + "\", "@ + value_text(v) + ");\n"@
}

/// The full preference-override file: a leading comment line the
/// browser skips, then one line per entry, in order.
pub open spec fn cfg_text(entries: Seq<PrefEntryV>) -> Seq<char>
    decreases entries.len(),
{
    if entries.len() == 0 {
        "//\n"@
    } else {
        cfg_text(entries.drop_last()) + pref_line(entries.last().0, entries.last().1)
    }
}

/// Renders one scalar value as preference-file text.
pub fn render_value(v: &PrefValue) -> (r: String)
    ensures
        r@ == value_text(v.deep_view()),
{
    match v {
        PrefValue::Bool(b) => {
            if *b {
                String::from_str("true")
            } else {
                String::from_str("false")
            }
        },
        PrefValue::Int(i) => i64_dec_string(*i),
        PrefValue::Str(s) => {
            let mut out = String::from_str("\"");
            out.append(s.as_str());
            out.append("\"");
            proof {
                assert(out@ =~= value_text(v.deep_view()));
            }
            out
        },
    }
}

/// Renders the preference-override file for the given entries.
pub fn render_mozilla_cfg(entries: &Vec<PrefEntry>) -> (r: String)
    ensures
        r@ == cfg_text(entries.deep_view()),
{
    let mut out = String::from_str("//\n");
    proof {
        assert(entries.deep_view().take(0) =~= Seq::<PrefEntryV>::empty());
    }
    let n = entries.len();
    let mut i: usize = 0;
    while i < n
        invariant
            i <= n,
            n == entries@.len(),
            out@ == cfg_text(entries.deep_view().take(i as int)),
        decreases n - i,
    {
        out.append("pref(\"");
        out.append(entries[i].0.as_str());
        out.append("\", ");
        let value = render_value(&entries[i].1);
        out.append(value.as_str());
        out.append(");\n");
        proof {
            let dv = entries.deep_view();
            assert(dv.take(i as int + 1).drop_last() =~= dv.take(i as int));
            assert(dv.take(i as int + 1).last() == dv[i as int]);
            assert(out@ =~= cfg_text(dv.take(i as int + 1)));
        }
        i += 1;
    }
    proof {
        assert(entries.deep_view().take(n as int) =~= entries.deep_view());
    }
    out
}

/// The ordered entries of the preference-override file: the handled
/// typed fields first, then the extras.
pub open spec fn spec_prefs_entries(p: Prefs) -> Seq<PrefEntryV> {
    (if p.restore_prev_session is Some {
        seq![("browser.startup.page"@, PrefValueV::Int(3))]
    } else {
        Seq::empty()
    })
        + (if p.continue_where_you_left_off is Some {
            seq![("zen.workspaces.continue-where-left-off"@, PrefValueV::Bool(true))]
        } else {
            Seq::empty()
        })
        + p.extra.deep_view()
}

/// Collects the preference entries in file order.
pub fn prefs_entries(p: &Prefs) -> (r: Vec<PrefEntry>)
    ensures
        r.deep_view() == spec_prefs_entries(*p),
{
    let mut out: Vec<PrefEntry> = Vec::new();
    if p.restore_prev_session.is_some() {
        out.push((String::from_str("browser.startup.page"), PrefValue::Int(3)));
    }
    if p.continue_where_you_left_off.is_some() {
        out.push((String::from_str("zen.workspaces.continue-where-left-off"), PrefValue::Bool(true)));
    }
    let ghost typed: Seq<PrefEntryV> = (if p.restore_prev_session is Some {
        seq![("browser.startup.page"@, PrefValueV::Int(3))]
    } else {
        Seq::empty()
    })
        + (if p.continue_where_you_left_off is Some {
            seq![("zen.workspaces.continue-where-left-off"@, PrefValueV::Bool(true))]
        } else {
            Seq::empty()
        });
    proof {
        assert(out.deep_view() =~= typed);
    }
    let n = p.extra.len();
    let mut i: usize = 0;
    while i < n
        invariant
            i <= n,
            n == p.extra@.len(),
            out.deep_view() == typed + p.extra.deep_view().take(i as int),
        decreases n - i,
    {
        let pair = &p.extra[i];
        let key = pair.0.clone();
        let value = pair.1.clone();
        let ghost seen = out.deep_view();
        out.push((key, value));
        proof {
            assert((key, value).deep_view() == p.extra.deep_view()[i as int]);
            assert(out.deep_view() =~= seen.push(p.extra.deep_view()[i as int]));
            assert(out.deep_view() =~= typed + p.extra.deep_view().take(i as int + 1));
        }
        i += 1;
    }
    proof {
        assert(p.extra.deep_view().take(n as int) =~= p.extra.deep_view());
        assert(out.deep_view() =~= spec_prefs_entries(*p));
    }
    out
}

/// Renders the preference-override file straight from the typed
/// preferences.
pub fn render_cfg_from_prefs(p: &Prefs) -> (r: String)
    ensures
        r@ == cfg_text(spec_prefs_entries(*p)),
{
    let entries = prefs_entries(p);
    render_mozilla_cfg(&entries)
}

/// The autoconfig stub that activates the preference-override file.
pub open spec fn autoconfig_text() -> Seq<char> {
    "pref(\"general.config.filename\", \"mozilla.cfg\");\npref(\"general.config.obscure_value\", 0);\n"@
}

/// Renders the autoconfig stub.
pub fn render_autoconfig_js() -> (r: String)
    ensures
        r@ == autoconfig_text(),
{
    String::from_str(
        "pref(\"general.config.filename\", \"mozilla.cfg\");\npref(\"general.config.obscure_value\", 0);\n",
    )
}

/// The serialized policy document for the given entries.  The text is a
/// function of the entries alone; entries naming the same policy
/// resolve to the last one, matching the document's map semantics.
pub uninterp spec fn policies_json_of(entries: Seq<PrefEntryV>) -> Seq<char>;

/// Relies on serde_json::to_string_pretty on a value assembled with
/// serde_json::Map::insert: the pretty-printed JSON object that wraps
/// the entries, as a map, under the key "policies".
#[verifier::external_body]
fn policies_pretty(entries: &Vec<PrefEntry>) -> (r: String)
    ensures
        r@ == policies_json_of(entries.deep_view()),
{
    let mut m = serde_json::Map::new();
    for (k, v) in entries.iter() {
        let jv = match v {
            PrefValue::Bool(b) => serde_json::Value::Bool(*b),
            PrefValue::Int(i) => serde_json::Value::from(*i),
            PrefValue::Str(s) => serde_json::Value::String(s.clone()),
        };
        m.insert(k.clone(), jv);
    }
    let mut outer = serde_json::Map::new();
    outer.insert(String::from("policies"), serde_json::Value::Object(m));
    serde_json::to_string_pretty(&serde_json::Value::Object(outer)).unwrap_or_default()
}

/// Serializes the policy document for the given typed policies.
pub fn policies_document(p: &Policies) -> (r: String)
    ensures
        r@ == policies_json_of(spec_policies_entries(*p)),
{
    let entries = policies_entries(p);
    policies_pretty(&entries)
}

pub struct ZenBrowser {
    pub enabled: bool,
    pub install: bool,
    pub package: String,
    pub sandbox: bool,
    pub policies: Policies,
    pub prefs: Prefs,
}

impl Default for ZenBrowser {
    /// The canonical default: inert, with empty policies and
    /// preferences.
    fn default() -> (r: Self)
        ensures
            !r.enabled,
            !r.install,
            !r.sandbox,
            r.package@ == Seq::<char>::empty(),
            r.policies.disable_app_update is None,
            r.policies.background_app_update is None,
            r.policies.dont_check_default_browser is None,
            r.policies.no_default_bookmarks is None,
            r.policies.extra@ == Seq::<PrefEntry>::empty(),
            r.prefs.restore_prev_session is None,
            r.prefs.continue_where_you_left_off is None,
            r.prefs.extra@ == Seq::<PrefEntry>::empty(),
    {
        ZenBrowser {
            enabled: false,
            install: false,
            package: String::new(),
            sandbox: false,
            policies: Policies::default(),
            prefs: Prefs::default(),
        }
    }
}

impl Funcs for ZenBrowser {
    open spec fn contract(&self) -> ContractV {
        ContractV {
            id: "Zen Browser"@,
            enabled: self.enabled,
            on_enable: Ok(
                seq![
                    FileOpV::Write {
                        path: POLICY_PATH@,
                        contents: policies_json_of(spec_policies_entries(self.policies)),
                    },
                    FileOpV::Write { path: AUTOCONFIG_JS@, contents: autoconfig_text() },
                    FileOpV::Write {
                        path: MOZILLA_CFG@,
                        contents: cfg_text(spec_prefs_entries(self.prefs)),
                    },
                ],
            ),
            on_disable: Ok(
                seq![
                    FileOpV::Remove { path: POLICY_PATH@ },
                    FileOpV::Remove { path: AUTOCONFIG_JS@ },
                    FileOpV::Remove { path: MOZILLA_CFG@ },
                ],
            ),
        }
    }

    fn id(&self) -> (r: String) {
        String::from_str("Zen Browser")
    }

    fn enable(&self) -> (r: Result<Vec<FileOp>, String>) {
        let policies_text = policies_document(&self.policies);
        let autoconfig = render_autoconfig_js();
        let cfg = render_cfg_from_prefs(&self.prefs);
        let mut effects: Vec<FileOp> = Vec::new();
        effects.push(FileOp::Write { path: String::from_str(POLICY_PATH), contents: policies_text });
        effects.push(FileOp::Write { path: String::from_str(AUTOCONFIG_JS), contents: autoconfig });
        effects.push(FileOp::Write { path: String::from_str(MOZILLA_CFG), contents: cfg });
        proof {
            assert(effects.deep_view() =~= self.contract().on_enable->Ok_0);
        }
        Ok(effects)
    }

    fn disable(&self) -> (r: Result<Vec<FileOp>, String>) {
        let mut effects: Vec<FileOp> = Vec::new();
        effects.push(FileOp::Remove { path: String::from_str(POLICY_PATH) });
        effects.push(FileOp::Remove { path: String::from_str(AUTOCONFIG_JS) });
        effects.push(FileOp::Remove { path: String::from_str(MOZILLA_CFG) });
        proof {
            assert(effects.deep_view() =~= self.contract().on_disable->Ok_0);
        }
        Ok(effects)
    }

    fn is_enabled(&self) -> (r: bool) {
        self.enabled
    }
}

} // verus!
