use app_boot::plugins::{compose_plugins, PlatformProfile, PluginKind};

#[test]
fn desktop_composition_is_baseline_then_desktop_set() {
    let v = compose_plugins(PlatformProfile::Desktop);
    assert_eq!(
        v,
        vec![
            PluginKind::Opener,
            PluginKind::ClipboardManager,
            PluginKind::OsInfo,
            PluginKind::WindowState,
            PluginKind::FileSystem,
            PluginKind::Dialog,
        ]
    );
}

#[test]
fn mobile_composition_is_baseline_then_mobile_set() {
    let v = compose_plugins(PlatformProfile::Mobile);
    assert_eq!(
        v,
        vec![
            PluginKind::Opener,
            PluginKind::ClipboardManager,
            PluginKind::OsInfo,
            PluginKind::BarcodeScanner,
            PluginKind::SafeAreaInsets,
            PluginKind::Biometric,
            PluginKind::ShareSheet,
        ]
    );
}

#[test]
fn desktop_composition_excludes_every_mobile_only_plugin() {
    let v = compose_plugins(PlatformProfile::Desktop);
    assert!(!v.contains(&PluginKind::BarcodeScanner));
    assert!(!v.contains(&PluginKind::SafeAreaInsets));
    assert!(!v.contains(&PluginKind::Biometric));
    assert!(!v.contains(&PluginKind::ShareSheet));
}

#[test]
fn mobile_composition_excludes_every_desktop_only_plugin() {
    let v = compose_plugins(PlatformProfile::Mobile);
    assert!(!v.contains(&PluginKind::WindowState));
    assert!(!v.contains(&PluginKind::FileSystem));
    assert!(!v.contains(&PluginKind::Dialog));
}

#[test]
fn shared_plugins_are_exactly_the_baseline() {
    let d = compose_plugins(PlatformProfile::Desktop);
    let m = compose_plugins(PlatformProfile::Mobile);
    let shared: Vec<PluginKind> = d.iter().copied().filter(|p| m.contains(p)).collect();
    assert_eq!(
        shared,
        vec![PluginKind::Opener, PluginKind::ClipboardManager, PluginKind::OsInfo]
    );
}
