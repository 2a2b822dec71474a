//! Release records of the update servers and what an update check makes of
//! them: whether a newer version exists and which asset to download.

use vstd::prelude::*;
use crate::text::{chars_of, contains, ends_with, has_substring, has_suffix};
use crate::version::{is_newer, newer_spec, strip_v_prefix, strip_v_spec};

verus! {

/// One downloadable file of a release.
#[derive(Debug)]
pub struct GitHubAsset {
    pub name: String,
    pub browser_download_url: String,
}

/// A release as the GitHub Releases API (or its proxy) describes it.
#[derive(Debug)]
pub struct GitHubRelease {
    pub tag_name: String,
    pub body: Option<String>,
    pub html_url: Option<String>,
    pub assets: Vec<GitHubAsset>,
}

/// Result of checking for a new version of the application itself.
#[derive(Debug)]
pub struct AppUpdateInfo {
    /// A newer version is available.
    pub has_update: bool,
    /// The running version.
    pub current_version: String,
    /// The newest released version, without a leading `v`.
    pub latest_version: String,
    /// Release notes (Markdown).
    pub release_notes: String,
    /// Where to download the installer; empty when no disk image was found.
    pub download_url: String,
}

/// Result of checking for a new version of `easytier-core`.
#[derive(Debug)]
pub struct CoreUpdateInfo {
    /// A newer version is available.
    pub has_update: bool,
    /// The installed version.
    pub current_version: String,
    /// The newest released version, without a leading `v`.
    pub latest_version: String,
    /// Where to download the archive; empty when no matching archive was found.
    pub download_url: String,
}

/// The architecture word that asset names use for the machine architecture
/// `arch` (as `std::env::consts::ARCH` names it): ARM machines use `aarch64`,
/// every other machine `x86_64`.
pub open spec fn arch_keyword_spec(arch: Seq<char>) -> Seq<char> {
    if arch == "aarch64"@ || arch == "arm"@ {
        "aarch64"@
    } else {
        "x86_64"@
    }
}

/// The rules by which an asset is picked.
#[derive(Clone, Copy, Debug, PartialEq, Eq)]
pub enum AssetRule {
    /// A disk image built for the machine: on ARM its name holds `aarch64` or
    /// the older `arm64`; on other machines it holds `x86_64`.
    DmgForArch,
    /// Any disk image.
    AnyDmg,
    /// A macOS archive of `easytier-core` for the machine.
    CoreZipForArch,
}

/// Whether a disk image called `name` is built for the machine whose
/// architecture word is `keyword`: on ARM (`aarch64`) the name holds `aarch64`
/// or the older `arm64`; elsewhere it holds the architecture word itself.
pub open spec fn dmg_arch_matches(name: Seq<char>, keyword: Seq<char>) -> bool {
    if keyword == "aarch64"@ {
        has_substring(name, "aarch64"@) || has_substring(name, "arm64"@)
    } else {
        has_substring(name, keyword)
    }
}

/// Whether an asset called `name` satisfies `rule`, `keyword` being the
/// machine's architecture word.
pub open spec fn rule_holds(rule: AssetRule, name: Seq<char>, keyword: Seq<char>) -> bool {
    match rule {
        AssetRule::DmgForArch => has_suffix(name, ".dmg"@) && dmg_arch_matches(name, keyword),
        AssetRule::AnyDmg => has_suffix(name, ".dmg"@),
        AssetRule::CoreZipForArch => has_suffix(name, ".zip"@) && has_substring(name, "macos"@)
            && has_substring(name, keyword),
    }
}

/// The first index at or after `start` of an asset satisfying `rule`.
pub open spec fn first_match(
    assets: Seq<GitHubAsset>,
    rule: AssetRule,
    keyword: Seq<char>,
    start: int,
) -> Option<int>
    decreases assets.len() - start,
{
    if start < 0 || start >= assets.len() {
        None
    } else if rule_holds(rule, assets[start].name@, keyword) {
        Some(start)
    } else {
        first_match(assets, rule, keyword, start + 1)
    }
}

/// `first_match` is the least matching index at or after `start`.
pub proof fn lemma_first_match(
    assets: Seq<GitHubAsset>,
    rule: AssetRule,
    keyword: Seq<char>,
    start: int,
)
    requires
        0 <= start,
    ensures
        match first_match(assets, rule, keyword, start) {
            Some(i) => start <= i < assets.len() && rule_holds(rule, assets[i].name@, keyword)
                && forall|j: int|
                start <= j < i ==> !rule_holds(rule, #[trigger] assets[j].name@, keyword),
            None => forall|j: int|
                start <= j < assets.len() ==> !rule_holds(rule, #[trigger] assets[j].name@, keyword),
        },
    decreases assets.len() - start,
{
    if start < assets.len() && !rule_holds(rule, assets[start].name@, keyword) {
        lemma_first_match(assets, rule, keyword, start + 1);
    }
}

/// Which disk image an application update downloads: the first one built for
/// the machine, else the first disk image of any kind.
pub open spec fn dmg_choice(assets: Seq<GitHubAsset>, keyword: Seq<char>) -> Option<int> {
    match first_match(assets, AssetRule::DmgForArch, keyword, 0) {
        Some(i) => Some(i),
        None => first_match(assets, AssetRule::AnyDmg, keyword, 0),
    }
}

/// Which archive a core update downloads: the first macOS archive for the machine.
pub open spec fn core_zip_choice(assets: Seq<GitHubAsset>, keyword: Seq<char>) -> Option<int> {
    first_match(assets, AssetRule::CoreZipForArch, keyword, 0)
}

/// The download address of the chosen asset, or the empty text.
pub open spec fn chosen_url(assets: Seq<GitHubAsset>, choice: Option<int>) -> Seq<char> {
    match choice {
        Some(i) => assets[i].browser_download_url@,
        None => Seq::empty(),
    }
}

/// An application update offers a download exactly when the release holds a
/// disk image; the chosen asset is a disk image, and one built for the
/// machine is preferred over any other.
pub proof fn law_dmg_choice(assets: Seq<GitHubAsset>, keyword: Seq<char>)
    ensures
        dmg_choice(assets, keyword) is Some <==> exists|j: int|
            0 <= j < assets.len() && has_suffix(#[trigger] assets[j].name@, ".dmg"@),
        dmg_choice(assets, keyword) matches Some(i) ==> 0 <= i < assets.len() && has_suffix(
            assets[i].name@,
            ".dmg"@,
        ),
        (exists|j: int|
            0 <= j < assets.len() && rule_holds(AssetRule::DmgForArch, #[trigger] assets[j].name@, keyword))
            ==> (dmg_choice(assets, keyword) matches Some(i) && rule_holds(
            AssetRule::DmgForArch,
            assets[i].name@,
            keyword,
        )),
{
    lemma_first_match(assets, AssetRule::DmgForArch, keyword, 0);
    lemma_first_match(assets, AssetRule::AnyDmg, keyword, 0);
}

/// On an ARM machine (`aarch64`, or `arm`) a disk image whose name holds
/// `aarch64` or the older `arm64` is built for the machine: the chosen image is
/// the first such one whenever the release has one, so an image without an ARM
/// word is taken only when no ARM image exists.
pub proof fn law_arm_machine_gets_arm_image(assets: Seq<GitHubAsset>, arch: Seq<char>, i: int)
    requires
        arch == "aarch64"@ || arch == "arm"@,
        0 <= i < assets.len(),
        has_suffix(assets[i].name@, ".dmg"@),
        has_substring(assets[i].name@, "aarch64"@) || has_substring(assets[i].name@, "arm64"@),
        forall|j: int|
            0 <= j < i ==> !(has_suffix(#[trigger] assets[j].name@, ".dmg"@) && (has_substring(
                assets[j].name@,
                "aarch64"@,
            ) || has_substring(assets[j].name@, "arm64"@))),
    ensures
        dmg_choice(assets, arch_keyword_spec(arch)) == Some(i),
{
    let k = arch_keyword_spec(arch);
    assert(k == "aarch64"@);
    lemma_first_match(assets, AssetRule::DmgForArch, k, 0);
    match first_match(assets, AssetRule::DmgForArch, k, 0) {
        Some(m) => {
            assert(rule_holds(AssetRule::DmgForArch, assets[m].name@, k));
            if m < i {
                assert(!(has_suffix(assets[m].name@, ".dmg"@) && (has_substring(
                    assets[m].name@,
                    "aarch64"@,
                ) || has_substring(assets[m].name@, "arm64"@))));
            }
            assert(!(m > i) || !rule_holds(AssetRule::DmgForArch, assets[i].name@, k));
        },
        None => {
            assert(!rule_holds(AssetRule::DmgForArch, assets[i].name@, k));
        },
    }
}

/// On any other machine the chosen image is the first disk image whose name
/// holds `x86_64`, whenever the release has one.
pub proof fn law_intel_machine_gets_x86_64_image(assets: Seq<GitHubAsset>, arch: Seq<char>, i: int)
    requires
        arch != "aarch64"@ && arch != "arm"@,
        0 <= i < assets.len(),
        has_suffix(assets[i].name@, ".dmg"@),
        has_substring(assets[i].name@, "x86_64"@),
        forall|j: int|
            0 <= j < i ==> !(has_suffix(#[trigger] assets[j].name@, ".dmg"@) && has_substring(
                assets[j].name@,
                "x86_64"@,
            )),
    ensures
        dmg_choice(assets, arch_keyword_spec(arch)) == Some(i),
{
    let k = arch_keyword_spec(arch);
    assert(k == "x86_64"@);
    reveal_strlit("x86_64");
    reveal_strlit("aarch64");
    assert(k != "aarch64"@);
    lemma_first_match(assets, AssetRule::DmgForArch, k, 0);
    match first_match(assets, AssetRule::DmgForArch, k, 0) {
        Some(m) => {
            assert(rule_holds(AssetRule::DmgForArch, assets[m].name@, k));
            if m < i {
                assert(!(has_suffix(assets[m].name@, ".dmg"@) && has_substring(
                    assets[m].name@,
                    "x86_64"@,
                )));
            }
            assert(!(m > i) || !rule_holds(AssetRule::DmgForArch, assets[i].name@, k));
        },
        None => {
            assert(!rule_holds(AssetRule::DmgForArch, assets[i].name@, k));
        },
    }
}

/// A core update downloads the first asset whose name ends in `.zip` and holds
/// both `macos` and the machine's architecture word (`aarch64` on ARM machines,
/// `x86_64` on others).
pub proof fn law_core_zip_is_first_macos_archive(assets: Seq<GitHubAsset>, arch: Seq<char>, i: int)
    requires
        0 <= i < assets.len(),
        has_suffix(assets[i].name@, ".zip"@),
        has_substring(assets[i].name@, "macos"@),
        has_substring(
            assets[i].name@,
            if arch == "aarch64"@ || arch == "arm"@ {
                "aarch64"@
            } else {
                "x86_64"@
            },
        ),
        forall|j: int|
            0 <= j < i ==> !(has_suffix(#[trigger] assets[j].name@, ".zip"@) && has_substring(
                assets[j].name@,
                "macos"@,
            ) && has_substring(
                assets[j].name@,
                if arch == "aarch64"@ || arch == "arm"@ {
                    "aarch64"@
                } else {
                    "x86_64"@
                },
            )),
    ensures
        core_zip_choice(assets, arch_keyword_spec(arch)) == Some(i),
{
    let k = arch_keyword_spec(arch);
    lemma_first_match(assets, AssetRule::CoreZipForArch, k, 0);
    match first_match(assets, AssetRule::CoreZipForArch, k, 0) {
        Some(m) => {
            assert(rule_holds(AssetRule::CoreZipForArch, assets[m].name@, k));
            assert(!(m > i) || !rule_holds(AssetRule::CoreZipForArch, assets[i].name@, k));
        },
        None => {
            assert(!rule_holds(AssetRule::CoreZipForArch, assets[i].name@, k));
        },
    }
}

/// A core update offers a download exactly when the release holds a macOS
/// archive for the machine, and then the chosen asset is one.
pub proof fn law_core_zip_choice(assets: Seq<GitHubAsset>, keyword: Seq<char>)
    ensures
        core_zip_choice(assets, keyword) is Some <==> exists|j: int|
            0 <= j < assets.len() && rule_holds(AssetRule::CoreZipForArch, #[trigger] assets[j].name@, keyword),
        core_zip_choice(assets, keyword) matches Some(i) ==> 0 <= i < assets.len() && has_suffix(
            assets[i].name@,
            ".zip"@,
        ) && has_substring(assets[i].name@, "macos"@) && has_substring(assets[i].name@, keyword),
{
    lemma_first_match(assets, AssetRule::CoreZipForArch, keyword, 0);
}

/// Whether two character sequences are equal.
fn same_chars(a: &[char], b: &[char]) -> (r: bool)
    ensures
        r == (a@ == b@),
{
    if a.len() != b.len() {
        return false;
    }
    let mut i: usize = 0;
    while i < a.len()
        invariant
            a.len() == b.len(),
            i <= a.len(),
            forall|k: int| 0 <= k < i ==> a@[k] == b@[k],
        decreases a.len() - i,
    {
        if a[i] != b[i] {
            return false;
        }
        i = i + 1;
    }
    assert(a@ =~= b@);
    true
}

/// The architecture word that asset names use for the machine architecture
/// `arch`: `aarch64` on `aarch64` and `arm`, `x86_64` otherwise.
pub fn arch_keyword(arch: &str) -> (r: &'static str)
    ensures
        r@ == arch_keyword_spec(arch@),
{
    let a = chars_of(arch);
    let arm64 = chars_of("aarch64");
    let arm = chars_of("arm");
    if same_chars(&a, &arm64) || same_chars(&a, &arm) {
        "aarch64"
    } else {
        "x86_64"
    }
}

/// Whether an asset called `name` satisfies `rule`.
pub fn asset_satisfies(rule: AssetRule, name: &str, keyword: &str) -> (r: bool)
    ensures
        r == rule_holds(rule, name@, keyword@),
{
    let n = chars_of(name);
    let k = chars_of(keyword);
    match rule {
        AssetRule::DmgForArch => {
            let dmg = chars_of(".dmg");
            let aarch64 = chars_of("aarch64");
            let arm64 = chars_of("arm64");
            let for_arch = if same_chars(&k, &aarch64) {
                contains(&n, &aarch64) || contains(&n, &arm64)
            } else {
                contains(&n, &k)
            };
            ends_with(&n, &dmg) && for_arch
        },
        AssetRule::AnyDmg => {
            let dmg = chars_of(".dmg");
            ends_with(&n, &dmg)
        },
        AssetRule::CoreZipForArch => {
            let zip = chars_of(".zip");
            let macos = chars_of("macos");
            ends_with(&n, &zip) && contains(&n, &macos) && contains(&n, &k)
        },
    }
}

/// The index of the first asset satisfying `rule`.
fn first_asset(assets: &[GitHubAsset], rule: AssetRule, keyword: &str) -> (r: Option<usize>)
    ensures
        r is Some <==> first_match(assets@, rule, keyword@, 0) is Some,
        r matches Some(i) ==> first_match(assets@, rule, keyword@, 0) == Some(i as int) && i
            < assets.len(),
{
    proof {
        lemma_first_match(assets@, rule, keyword@, 0);
    }
    let mut i: usize = 0;
    while i < assets.len()
        invariant
            i <= assets.len(),
            first_match(assets@, rule, keyword@, 0) == first_match(assets@, rule, keyword@, i as int),
        decreases assets.len() - i,
    {
        if asset_satisfies(rule, assets[i].name.as_str(), keyword) {
            return Some(i);
        }
        i = i + 1;
    }
    None
}

/// Picks the disk image to install on a machine of architecture `arch`: the
/// first `.dmg` built for it (see `dmg_arch_matches`), else the
/// first `.dmg`; `None` when the release has no disk image.
pub fn select_dmg_asset<'a>(assets: &'a [GitHubAsset], arch: &str) -> (r: Option<&'a GitHubAsset>)
    ensures
        r == match dmg_choice(assets@, arch_keyword_spec(arch@)) {
            Some(i) => Some(&assets@[i]),
            None => None,
        },
{
    let keyword = arch_keyword(arch);
    match first_asset(assets, AssetRule::DmgForArch, keyword) {
        Some(i) => Some(&assets[i]),
        None => match first_asset(assets, AssetRule::AnyDmg, keyword) {
            Some(i) => Some(&assets[i]),
            None => None,
        },
    }
}

/// Picks the `easytier-core` archive for a machine of architecture `arch`:
/// the first `.zip` whose name holds `macos` and the architecture word.
pub fn select_core_zip_asset<'a>(assets: &'a [GitHubAsset], arch: &str) -> (r: Option<
    &'a GitHubAsset,
>)
    ensures
        r == match core_zip_choice(assets@, arch_keyword_spec(arch@)) {
            Some(i) => Some(&assets@[i]),
            None => None,
        },
{
    let keyword = arch_keyword(arch);
    match first_asset(assets, AssetRule::CoreZipForArch, keyword) {
        Some(i) => Some(&assets[i]),
        None => None,
    }
}

/// The download address of a chosen asset, or an empty string.
fn url_of(choice: Option<&GitHubAsset>) -> (r: String)
    ensures
        r@ == match choice {
            Some(a) => a.browser_download_url@,
            None => Seq::empty(),
        },
{
    match choice {
        Some(a) => a.browser_download_url.clone(),
        None => String::new(),
    }
}

/// Works out what an application release means for the running version
/// `current_version` on a machine of architecture `arch`.
pub fn check_app_update(current_version: &str, release: &GitHubRelease, arch: &str) -> (info:
    AppUpdateInfo)
    ensures
        info.has_update == newer_spec(current_version@, release.tag_name@),
        info.current_version@ == current_version@,
        info.latest_version@ == strip_v_spec(release.tag_name@),
        info.release_notes@ == match release.body {
            Some(b) => b@,
            None => Seq::empty(),
        },
        info.download_url@ == chosen_url(
            release.assets@,
            dmg_choice(release.assets@, arch_keyword_spec(arch@)),
        ),
{
    let latest_version = strip_v_prefix(release.tag_name.as_str()).to_owned();
    let has_update = is_newer(current_version, release.tag_name.as_str());
    let download_url = url_of(select_dmg_asset(release.assets.as_slice(), arch));
    let release_notes = match &release.body {
        Some(b) => b.clone(),
        None => String::new(),
    };
    AppUpdateInfo {
        has_update,
        current_version: current_version.to_owned(),
        latest_version,
        release_notes,
        download_url,
    }
}

/// Works out what an `easytier-core` release means for the installed version
/// `current_version` on a machine of architecture `arch`.
pub fn check_core_update(current_version: &str, release: &GitHubRelease, arch: &str) -> (info:
    CoreUpdateInfo)
    ensures
        info.has_update == newer_spec(current_version@, release.tag_name@),
        info.current_version@ == current_version@,
        info.latest_version@ == strip_v_spec(release.tag_name@),
        info.download_url@ == chosen_url(
            release.assets@,
            core_zip_choice(release.assets@, arch_keyword_spec(arch@)),
        ),
{
    let latest_version = strip_v_prefix(release.tag_name.as_str()).to_owned();
    let has_update = is_newer(current_version, release.tag_name.as_str());
    let download_url = url_of(select_core_zip_asset(release.assets.as_slice(), arch));
    CoreUpdateInfo {
        has_update,
        current_version: current_version.to_owned(),
        latest_version,
        download_url,
    }
}

} // verus!
