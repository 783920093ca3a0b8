//! Platform profiles and the ordered composition of capability plugins.

use vstd::prelude::*;

verus! {

/// Compile-time platform target. Fixed for the whole process lifetime; it
/// selects the plugin set and whether binding export may run.
#[derive(Clone, Copy, PartialEq, Eq, Structural, Debug)]
pub enum PlatformProfile {
    Desktop,
    Mobile,
}

/// A capability plugin, identified by kind. Plugin internals are external
/// collaborators; this layer only chooses and orders them.
#[derive(Clone, Copy, PartialEq, Eq, Structural, Debug)]
pub enum PluginKind {
    /// Opens external links in the system browser.
    Opener,
    /// Clipboard read/write access.
    ClipboardManager,
    /// Operating-system information.
    OsInfo,
    /// Persists and restores window geometry (desktop only).
    WindowState,
    /// File-system access (desktop only).
    FileSystem,
    /// Native dialog presenter (desktop only).
    Dialog,
    /// Barcode scanner (mobile only).
    BarcodeScanner,
    /// Safe-area-inset reporter (mobile only).
    SafeAreaInsets,
    /// Biometric authenticator (mobile only).
    Biometric,
    /// Native share-sheet presenter (mobile only).
    ShareSheet,
}

/// Plugins present in every profile, in registration order.
pub open spec fn baseline_plugins() -> Seq<PluginKind> {
    seq![PluginKind::Opener, PluginKind::ClipboardManager, PluginKind::OsInfo]
}

/// Plugins added only on desktop, in registration order.
pub open spec fn desktop_only_plugins() -> Seq<PluginKind> {
    seq![PluginKind::WindowState, PluginKind::FileSystem, PluginKind::Dialog]
}

/// Plugins added only on mobile, in registration order.
pub open spec fn mobile_only_plugins() -> Seq<PluginKind> {
    seq![
        PluginKind::BarcodeScanner,
        PluginKind::SafeAreaInsets,
        PluginKind::Biometric,
        PluginKind::ShareSheet,
    ]
}

pub open spec fn is_baseline(p: PluginKind) -> bool {
    baseline_plugins().contains(p)
}

pub open spec fn is_desktop_only(p: PluginKind) -> bool {
    desktop_only_plugins().contains(p)
}

pub open spec fn is_mobile_only(p: PluginKind) -> bool {
    mobile_only_plugins().contains(p)
}

/// The full composition for a profile: baseline first, then the
/// profile-specific plugins, order preserved exactly.
pub open spec fn composed_plugins(profile: PlatformProfile) -> Seq<PluginKind> {
    match profile {
        PlatformProfile::Desktop => baseline_plugins() + desktop_only_plugins(),
        PlatformProfile::Mobile => baseline_plugins() + mobile_only_plugins(),
    }
}

/// Builds the ordered plugin list for a profile. Deterministic, pure
/// function of the compile-time profile.
pub fn compose_plugins(profile: PlatformProfile) -> (r: Vec<PluginKind>)
    ensures
        r@ == composed_plugins(profile),
{
    let mut v: Vec<PluginKind> = Vec::new();
    v.push(PluginKind::Opener);
    v.push(PluginKind::ClipboardManager);
    v.push(PluginKind::OsInfo);
    match profile {
        PlatformProfile::Desktop => {
            v.push(PluginKind::WindowState);
            v.push(PluginKind::FileSystem);
            v.push(PluginKind::Dialog);
        },
        PlatformProfile::Mobile => {
            v.push(PluginKind::BarcodeScanner);
            v.push(PluginKind::SafeAreaInsets);
            v.push(PluginKind::Biometric);
            v.push(PluginKind::ShareSheet);
        },
    }
    proof {
        assert(v@ =~= composed_plugins(profile));
    }
    v
}

/// Membership in the baseline, spelled out.
proof fn lemma_baseline_elems(p: PluginKind)
    ensures
        is_baseline(p) <==> (p == PluginKind::Opener || p == PluginKind::ClipboardManager
            || p == PluginKind::OsInfo),
{
    let s = baseline_plugins();
    if p == PluginKind::Opener {
        assert(s.contains(p)) by { assert(s[0] == p); }
    }
    if p == PluginKind::ClipboardManager {
        assert(s.contains(p)) by { assert(s[1] == p); }
    }
    if p == PluginKind::OsInfo {
        assert(s.contains(p)) by { assert(s[2] == p); }
    }
    if s.contains(p) {
        let i = choose|i: int| 0 <= i < s.len() && s[i] == p;
        assert(i == 0 || i == 1 || i == 2);
    }
}

/// Membership in the desktop-only set, spelled out.
proof fn lemma_desktop_only_elems(p: PluginKind)
    ensures
        is_desktop_only(p) <==> (p == PluginKind::WindowState || p == PluginKind::FileSystem
            || p == PluginKind::Dialog),
{
    let s = desktop_only_plugins();
    if p == PluginKind::WindowState {
        assert(s.contains(p)) by { assert(s[0] == p); }
    }
    if p == PluginKind::FileSystem {
        assert(s.contains(p)) by { assert(s[1] == p); }
    }
    if p == PluginKind::Dialog {
        assert(s.contains(p)) by { assert(s[2] == p); }
    }
    if s.contains(p) {
        let i = choose|i: int| 0 <= i < s.len() && s[i] == p;
        assert(i == 0 || i == 1 || i == 2);
    }
}

/// Membership in the mobile-only set, spelled out.
proof fn lemma_mobile_only_elems(p: PluginKind)
    ensures
        is_mobile_only(p) <==> (p == PluginKind::BarcodeScanner || p == PluginKind::SafeAreaInsets
            || p == PluginKind::Biometric || p == PluginKind::ShareSheet),
{
    let s = mobile_only_plugins();
    if p == PluginKind::BarcodeScanner {
        assert(s.contains(p)) by { assert(s[0] == p); }
    }
    if p == PluginKind::SafeAreaInsets {
        assert(s.contains(p)) by { assert(s[1] == p); }
    }
    if p == PluginKind::Biometric {
        assert(s.contains(p)) by { assert(s[2] == p); }
    }
    if p == PluginKind::ShareSheet {
        assert(s.contains(p)) by { assert(s[3] == p); }
    }
    if s.contains(p) {
        let i = choose|i: int| 0 <= i < s.len() && s[i] == p;
        assert(i == 0 || i == 1 || i == 2 || i == 3);
    }
}

/// A composition holds a plugin exactly when it is baseline or belongs to
/// the profile's own set.
pub proof fn lemma_composition_membership(profile: PlatformProfile, p: PluginKind)
    ensures
        profile == PlatformProfile::Desktop ==> (composed_plugins(profile).contains(p) <==> (
        is_baseline(p) || is_desktop_only(p))),
        profile == PlatformProfile::Mobile ==> (composed_plugins(profile).contains(p) <==> (
        is_baseline(p) || is_mobile_only(p))),
{
    lemma_baseline_elems(p);
    lemma_desktop_only_elems(p);
    lemma_mobile_only_elems(p);
    let s = composed_plugins(profile);
    if s.contains(p) {
        let i = choose|i: int| 0 <= i < s.len() && s[i] == p;
        if i < 3 {
            assert(baseline_plugins()[i] == p);
        } else {
            match profile {
                PlatformProfile::Desktop => {
                    assert(desktop_only_plugins()[i - 3] == p);
                },
                PlatformProfile::Mobile => {
                    assert(mobile_only_plugins()[i - 3] == p);
                },
            }
        }
    }
    if is_baseline(p) {
        let i = choose|i: int| 0 <= i < baseline_plugins().len() && baseline_plugins()[i] == p;
        assert(s[i] == p);
        assert(s.contains(p));
    }
    if profile == PlatformProfile::Desktop && is_desktop_only(p) {
        let i = choose|i: int|
            0 <= i < desktop_only_plugins().len() && desktop_only_plugins()[i] == p;
        assert(s[3 + i] == p);
        assert(s.contains(p));
    }
    if profile == PlatformProfile::Mobile && is_mobile_only(p) {
        let i = choose|i: int| 0 <= i < mobile_only_plugins().len() && mobile_only_plugins()[i] == p;
        assert(s[3 + i] == p);
        assert(s.contains(p));
    }
}

/// The desktop and mobile compositions partition cleanly: each holds its
/// own profile's plugins and the baseline, never the other profile's, and
/// the plugins they share are exactly the baseline.
pub proof fn lemma_composition_partition()
    ensures
        forall|p: PluginKind|
            composed_plugins(PlatformProfile::Desktop).contains(p) <==> (is_baseline(p)
                || is_desktop_only(p)),
        forall|p: PluginKind|
            composed_plugins(PlatformProfile::Mobile).contains(p) <==> (is_baseline(p)
                || is_mobile_only(p)),
        forall|p: PluginKind| !(is_desktop_only(p) && is_mobile_only(p)),
        forall|p: PluginKind|
            (composed_plugins(PlatformProfile::Desktop).contains(p)
                && composed_plugins(PlatformProfile::Mobile).contains(p)) <==> is_baseline(p),
{
    assert forall|p: PluginKind|
        composed_plugins(PlatformProfile::Desktop).contains(p) <==> (is_baseline(p)
            || is_desktop_only(p)) by {
        lemma_composition_membership(PlatformProfile::Desktop, p);
    }
    assert forall|p: PluginKind|
        composed_plugins(PlatformProfile::Mobile).contains(p) <==> (is_baseline(p)
            || is_mobile_only(p)) by {
        lemma_composition_membership(PlatformProfile::Mobile, p);
    }
    assert forall|p: PluginKind| !(is_desktop_only(p) && is_mobile_only(p)) by {
        lemma_desktop_only_elems(p);
        lemma_mobile_only_elems(p);
    }
    assert forall|p: PluginKind|
        (composed_plugins(PlatformProfile::Desktop).contains(p) && composed_plugins(
            PlatformProfile::Mobile,
        ).contains(p)) <==> is_baseline(p) by {
        lemma_composition_membership(PlatformProfile::Desktop, p);
        lemma_composition_membership(PlatformProfile::Mobile, p);
        lemma_desktop_only_elems(p);
        lemma_mobile_only_elems(p);
    }
}

} // verus!
