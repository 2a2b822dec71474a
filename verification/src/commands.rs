//! The small computations behind the commands of the user interface and the
//! request headers: the greeting, the effective core version, the user agent.

use vstd::prelude::*;
use vstd::string::StringExecFns;

verus! {

/// Version assumed for `easytier-core` until the installed one is known.
pub const DEFAULT_CORE_VERSION: &'static str = "2.6.4";

/// Address that answers application update checks (a proxy of the GitHub
/// Releases API).
pub const APP_UPDATE_URL: &'static str = "https://easytier-pro.782389.xyz";

/// GitHub Releases API address of the latest `easytier-core` release.
pub const CORE_UPDATE_URL: &'static str = "https://api.github.com/repos/EasyTier/EasyTier/releases/latest";

/// Seconds before an update request gives up.
pub const REQUEST_TIMEOUT: u64 = 15;

/// Product word of the `User-Agent` header.
pub const USER_AGENT_PREFIX: &'static str = "EasyTierManager";

/// The greeting of the development command.
pub fn greet(name: &str) -> (r: String)
    ensures
        r@ == "你好，"@ + name@ + "！来自 Rust 的问候！"@,
{
    let mut s = "你好，".to_owned();
    s.append(name);
    s.append("！来自 Rust 的问候！");
    s
}

/// The `easytier-core` version to report and check: the recorded one, or
/// `DEFAULT_CORE_VERSION` while none is recorded (the record is empty).
pub fn get_core_version(recorded: &str) -> (r: String)
    ensures
        r@ == if recorded@.len() == 0 {
            DEFAULT_CORE_VERSION@
        } else {
            recorded@
        },
{
    if recorded.is_empty() {
        DEFAULT_CORE_VERSION.to_owned()
    } else {
        recorded.to_owned()
    }
}

/// The `User-Agent` of update requests: `EasyTierManager/<version>`.
pub fn user_agent(version: &str) -> (r: String)
    ensures
        r@ == USER_AGENT_PREFIX@ + "/"@ + version@,
{
    let mut s = USER_AGENT_PREFIX.to_owned();
    s.append("/");
    s.append(version);
    s
}

} // verus!
