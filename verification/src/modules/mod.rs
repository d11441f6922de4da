//! The concrete module kinds known to the system, and the canonical
//! registry: every known kind in its default, inert instantiation.

pub mod control_panel;
pub mod shell;
pub mod custom;
pub mod firewall;
pub mod xserver;
pub mod zen_browser;

use vstd::prelude::*;
use crate::contract::ContractV;
use crate::{contracts_of, FileOpV, Funcs, ModuleKind};
use control_panel::ControlPanel;
use firewall::Firewall;
use zen_browser::{
    autoconfig_text, cfg_text, policies_json_of, spec_policies_entries, spec_prefs_entries,
    PrefEntryV, ZenBrowser,
};
use zen_browser::paths::{AUTOCONFIG_JS, MOZILLA_CFG, POLICY_PATH};

verus! {

/// The contracts of the canonical registry, in registry order: the
/// firewall, the control panel and the browser, each inert.
pub open spec fn canonical_contracts() -> Seq<ContractV> {
    seq![
        ContractV {
            id: "Firewall"@,
            enabled: false,
            on_enable: Ok(Seq::empty()),
            on_disable: Ok(Seq::empty()),
        },
        ContractV {
            id: "Control Panel"@,
            enabled: false,
            on_enable: Ok(Seq::empty()),
            on_disable: Ok(Seq::empty()),
        },
        ContractV {
            id: "Zen Browser"@,
            enabled: false,
            on_enable: Ok(
                seq![
                    FileOpV::Write {
                        path: POLICY_PATH@,
                        contents: policies_json_of(Seq::empty()),
                    },
                    FileOpV::Write { path: AUTOCONFIG_JS@, contents: autoconfig_text() },
                    FileOpV::Write { path: MOZILLA_CFG@, contents: cfg_text(Seq::empty()) },
                ],
            ),
            on_disable: Ok(
                seq![
                    FileOpV::Remove { path: POLICY_PATH@ },
                    FileOpV::Remove { path: AUTOCONFIG_JS@ },
                    FileOpV::Remove { path: MOZILLA_CFG@ },
                ],
            ),
        },
    ]
}

/// The canonical registry: one default instance per known module kind.
pub fn all_modules() -> (r: Vec<ModuleKind>)
    ensures
        contracts_of(r@) == canonical_contracts(),
{
    let mut v: Vec<ModuleKind> = Vec::new();
    v.push(ModuleKind::Firewall(Firewall::default()));
    v.push(ModuleKind::ControlPanel(ControlPanel::default()));
    let zb = ZenBrowser::default();
    let ghost zbg = zb;
    v.push(ModuleKind::ZenBrowser(zb));
    proof {
        assert(spec_policies_entries(zbg.policies) =~= Seq::<PrefEntryV>::empty());
        assert(spec_prefs_entries(zbg.prefs) =~= Seq::<PrefEntryV>::empty());
        assert(zbg.contract().on_enable->Ok_0 =~= canonical_contracts()[2].on_enable->Ok_0);
        assert(zbg.contract().on_disable->Ok_0 =~= canonical_contracts()[2].on_disable->Ok_0);
        assert(contracts_of(v@) =~= canonical_contracts());
    }
    v
}

} // verus!
