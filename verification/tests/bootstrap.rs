use app_boot::boot::{
    advance_phase, attach_plugins, export_enabled, next_boot_step, BootConfig, BootPhase, BootStep,
    PluginAttachError,
};
use app_boot::plugins::{compose_plugins, PlatformProfile, PluginKind};

#[test]
fn export_gate_truth_table() {
    assert!(export_enabled(true, false));
    assert!(!export_enabled(true, true));
    assert!(!export_enabled(false, false));
    assert!(!export_enabled(false, true));
}

#[test]
fn export_step_owed_only_on_desktop_debug() {
    let desktop_debug = BootConfig { profile: PlatformProfile::Desktop, debug_build: true };
    let desktop_release = BootConfig { profile: PlatformProfile::Desktop, debug_build: false };
    let mobile_debug = BootConfig { profile: PlatformProfile::Mobile, debug_build: true };
    assert_eq!(
        next_boot_step(BootPhase::BridgeBuilt, desktop_debug),
        Some(BootStep::ExportBindings)
    );
    assert_eq!(
        next_boot_step(BootPhase::BridgeBuilt, desktop_release),
        Some(BootStep::SkipExport)
    );
    assert_eq!(
        next_boot_step(BootPhase::BridgeBuilt, mobile_debug),
        Some(BootStep::SkipExport)
    );
}

#[test]
fn happy_path_desktop_debug_reaches_running() {
    let config = BootConfig { profile: PlatformProfile::Desktop, debug_build: true };
    let mut phase = BootPhase::Uninitialized;
    let mut observed: Vec<BootPhase> = Vec::new();
    while let Some(_step) = next_boot_step(phase, config) {
        phase = advance_phase(phase, config, true);
        observed.push(phase);
    }
    assert_eq!(
        observed,
        vec![
            BootPhase::CryptoInstalled,
            BootPhase::BridgeBuilt,
            BootPhase::BindingsExported,
            BootPhase::PluginsComposed,
            BootPhase::Running,
        ]
    );
    assert_eq!(compose_plugins(config.profile).len(), 6);
}

#[test]
fn happy_path_mobile_release_skips_export() {
    let config = BootConfig { profile: PlatformProfile::Mobile, debug_build: false };
    let mut phase = BootPhase::Uninitialized;
    let mut observed: Vec<BootPhase> = Vec::new();
    while let Some(_step) = next_boot_step(phase, config) {
        phase = advance_phase(phase, config, true);
        observed.push(phase);
    }
    assert_eq!(
        observed,
        vec![
            BootPhase::CryptoInstalled,
            BootPhase::BridgeBuilt,
            BootPhase::BindingsSkipped,
            BootPhase::PluginsComposed,
            BootPhase::Running,
        ]
    );
}

#[test]
fn any_failing_step_aborts() {
    let config = BootConfig { profile: PlatformProfile::Desktop, debug_build: true };
    assert_eq!(
        advance_phase(BootPhase::Uninitialized, config, false),
        BootPhase::Aborted
    );
    assert_eq!(
        advance_phase(BootPhase::BridgeBuilt, config, false),
        BootPhase::Aborted
    );
    assert_eq!(
        advance_phase(BootPhase::PluginsComposed, config, false),
        BootPhase::Aborted
    );
    // Terminal phases owe no step and stay put.
    assert_eq!(next_boot_step(BootPhase::Running, config), None);
    assert_eq!(next_boot_step(BootPhase::Aborted, config), None);
}

#[test]
fn attach_reports_first_failing_plugin_and_stops() {
    let plugins = compose_plugins(PlatformProfile::Desktop);
    let init_ok = vec![true, true, false, true, false, true];
    assert_eq!(
        attach_plugins(&plugins, &init_ok),
        Err(PluginAttachError { index: 2, plugin: PluginKind::OsInfo })
    );
}

#[test]
fn attach_succeeds_when_every_init_hook_succeeds() {
    let plugins = compose_plugins(PlatformProfile::Mobile);
    let init_ok = vec![true; plugins.len()];
    assert_eq!(attach_plugins(&plugins, &init_ok), Ok(7));
}

#[test]
fn attach_failure_at_first_plugin() {
    let plugins = compose_plugins(PlatformProfile::Desktop);
    let init_ok = vec![false, true, true, true, true, true];
    assert_eq!(
        attach_plugins(&plugins, &init_ok),
        Err(PluginAttachError { index: 0, plugin: PluginKind::Opener })
    );
}
