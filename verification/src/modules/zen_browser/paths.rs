//! Fixed filesystem locations the browser module materializes its
//! configuration at.

use vstd::prelude::*;

verus! {

pub const POLICY_PATH: &'static str = "C:\\Program Files\\Zen Browser\\distribution\\policies.json";

pub const AUTOCONFIG_JS: &'static str = "C:\\Program Files\\Zen Browser\\defaults\\pref\\autoconfig.js";

pub const MOZILLA_CFG: &'static str = "C:\\Program Files\\Zen Browser\\mozilla.cfg";

} // verus!
