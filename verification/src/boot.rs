//! The bootstrap state machine and the sequencing of plugin attachment.
//!
//! Startup is a strictly sequential pipeline: crypto install, bridge build,
//! optional binding export, plugin composition, run loop. Each step's
//! completion is a precondition for the next, any failure aborts the
//! process, and the run loop is terminal. The host executable performs each
//! step's outside work and advances the machine with the step's outcome.

use vstd::prelude::*;

use crate::plugins::{PlatformProfile, PluginKind, composed_plugins};

verus! {

/// Compile-time build configuration: the two-axis switch controlling
/// binding export and the composed plugin set.
#[derive(Clone, Copy, PartialEq, Eq, Structural, Debug)]
pub struct BootConfig {
    pub profile: PlatformProfile,
    pub debug_build: bool,
}

/// Whether the configuration targets the mobile platform.
pub open spec fn targets_mobile(config: BootConfig) -> bool {
    config.profile == PlatformProfile::Mobile
}

/// Whether binding export runs under a configuration: only development
/// builds that target a non-mobile platform export the artifact.
pub open spec fn export_runs(config: BootConfig) -> bool {
    config.debug_build && !targets_mobile(config)
}

/// Binding export runs only in development builds that target a non-mobile
/// platform; release and mobile builds use a pre-generated artifact.
pub fn export_enabled(debug_build: bool, mobile_target: bool) -> (r: bool)
    ensures
        r == (debug_build && !mobile_target),
{
    debug_build && !mobile_target
}

/// The phases of the bootstrap pipeline. `Running` and `Aborted` are
/// terminal: the former ends only with process exit, the latter is the
/// fail-fast exit itself.
#[derive(Clone, Copy, PartialEq, Eq, Structural, Debug)]
pub enum BootPhase {
    Uninitialized,
    CryptoInstalled,
    BridgeBuilt,
    BindingsExported,
    BindingsSkipped,
    PluginsComposed,
    Running,
    Aborted,
}

/// The outside work owed in a phase.
#[derive(Clone, Copy, PartialEq, Eq, Structural, Debug)]
pub enum BootStep {
    InstallCrypto,
    BuildBridge,
    ExportBindings,
    SkipExport,
    ComposePlugins,
    StartRunLoop,
}

/// The step owed in a phase, or nothing in a terminal phase.
pub open spec fn step_of(phase: BootPhase, config: BootConfig) -> Option<BootStep> {
    match phase {
        BootPhase::Uninitialized => Some(BootStep::InstallCrypto),
        BootPhase::CryptoInstalled => Some(BootStep::BuildBridge),
        BootPhase::BridgeBuilt => if export_runs(config) {
            Some(BootStep::ExportBindings)
        } else {
            Some(BootStep::SkipExport)
        },
        BootPhase::BindingsExported => Some(BootStep::ComposePlugins),
        BootPhase::BindingsSkipped => Some(BootStep::ComposePlugins),
        BootPhase::PluginsComposed => Some(BootStep::StartRunLoop),
        BootPhase::Running => None,
        BootPhase::Aborted => None,
    }
}

/// The phase after performing the owed step with the given outcome: a
/// terminal phase stays, a failure aborts, a success moves forward.
pub open spec fn phase_after(phase: BootPhase, config: BootConfig, succeeded: bool) -> BootPhase {
    if step_of(phase, config) is None {
        phase
    } else if !succeeded {
        BootPhase::Aborted
    } else {
        match phase {
            BootPhase::Uninitialized => BootPhase::CryptoInstalled,
            BootPhase::CryptoInstalled => BootPhase::BridgeBuilt,
            BootPhase::BridgeBuilt => if export_runs(config) {
                BootPhase::BindingsExported
            } else {
                BootPhase::BindingsSkipped
            },
            BootPhase::BindingsExported => BootPhase::PluginsComposed,
            BootPhase::BindingsSkipped => BootPhase::PluginsComposed,
            BootPhase::PluginsComposed => BootPhase::Running,
            BootPhase::Running => BootPhase::Running,
            BootPhase::Aborted => BootPhase::Aborted,
        }
    }
}

/// The step the host must perform next, or `None` once the pipeline is in
/// a terminal phase.
pub fn next_boot_step(phase: BootPhase, config: BootConfig) -> (r: Option<BootStep>)
    ensures
        r == step_of(phase, config),
{
    match phase {
        BootPhase::Uninitialized => Some(BootStep::InstallCrypto),
        BootPhase::CryptoInstalled => Some(BootStep::BuildBridge),
        BootPhase::BridgeBuilt => {
            if export_enabled(config.debug_build, matches!(config.profile, PlatformProfile::Mobile)) {
                Some(BootStep::ExportBindings)
            } else {
                Some(BootStep::SkipExport)
            }
        },
        BootPhase::BindingsExported => Some(BootStep::ComposePlugins),
        BootPhase::BindingsSkipped => Some(BootStep::ComposePlugins),
        BootPhase::PluginsComposed => Some(BootStep::StartRunLoop),
        BootPhase::Running => None,
        BootPhase::Aborted => None,
    }
}

/// Advances the pipeline with the outcome of the owed step.
pub fn advance_phase(phase: BootPhase, config: BootConfig, succeeded: bool) -> (r: BootPhase)
    ensures
        r == phase_after(phase, config, succeeded),
{
    match phase {
        BootPhase::Running => BootPhase::Running,
        BootPhase::Aborted => BootPhase::Aborted,
        _ => {
            if !succeeded {
                BootPhase::Aborted
            } else {
                match phase {
                    BootPhase::Uninitialized => BootPhase::CryptoInstalled,
                    BootPhase::CryptoInstalled => BootPhase::BridgeBuilt,
                    BootPhase::BridgeBuilt => {
                        if export_enabled(
                            config.debug_build,
                            matches!(config.profile, PlatformProfile::Mobile),
                        ) {
                            BootPhase::BindingsExported
                        } else {
                            BootPhase::BindingsSkipped
                        }
                    },
                    BootPhase::BindingsExported => BootPhase::PluginsComposed,
                    BootPhase::BindingsSkipped => BootPhase::PluginsComposed,
                    BootPhase::PluginsComposed => BootPhase::Running,
                    BootPhase::Running => BootPhase::Running,
                    BootPhase::Aborted => BootPhase::Aborted,
                }
            }
        },
    }
}

/// Failure of plugin attachment: the position and identity of the plugin
/// whose init hook failed.
#[derive(Clone, Copy, PartialEq, Eq, Structural, Debug)]
pub struct PluginAttachError {
    pub index: usize,
    pub plugin: PluginKind,
}

/// Attaches the composed plugins strictly in order, given the outcome each
/// plugin's init hook would report. Attachment stops at the first failing
/// plugin: the error carries its position and identity, every plugin before
/// it attached, and no later plugin is attached at all. When every hook
/// succeeds, all of them attach.
pub fn attach_plugins(plugins: &Vec<PluginKind>, init_ok: &Vec<bool>) -> (r: Result<
    usize,
    PluginAttachError,
>)
    requires
        plugins@.len() == init_ok@.len(),
    ensures
        match r {
            Ok(n) => n == plugins@.len() && (forall|i: int|
                0 <= i < init_ok@.len() ==> init_ok@[i]),
            Err(e) => e.index < plugins@.len() && !init_ok@[e.index as int] && (forall|i: int|
                0 <= i < e.index ==> init_ok@[i]) && e.plugin == plugins@[e.index as int],
        },
{
    let n = plugins.len();
    let mut i: usize = 0;
    while i < n
        invariant
            n == plugins@.len(),
            n == init_ok@.len(),
            i <= n,
            forall|j: int| 0 <= j < i ==> init_ok@[j],
        decreases n - i,
    {
        if !init_ok[i] {
            return Err(PluginAttachError { index: i, plugin: plugins[i] });
        }
        i += 1;
    }
    Ok(n)
}

/// The phases a run visits: starting from a phase, one transition per step
/// outcome, stopping when the outcomes run out or the pipeline is terminal.
pub open spec fn phases_from(
    phase: BootPhase,
    config: BootConfig,
    outcomes: Seq<bool>,
) -> Seq<BootPhase>
    decreases outcomes.len(),
{
    if outcomes.len() == 0 || step_of(phase, config) is None {
        seq![phase]
    } else {
        seq![phase] + phases_from(
            phase_after(phase, config, outcomes[0]),
            config,
            outcomes.drop_first(),
        )
    }
}

/// The position of a phase in the pipeline's one-way order. The two export
/// decisions share a position; `Aborted` sits past `Running` so that a
/// failure also moves strictly forward.
pub open spec fn phase_rank(phase: BootPhase) -> nat {
    match phase {
        BootPhase::Uninitialized => 0,
        BootPhase::CryptoInstalled => 1,
        BootPhase::BridgeBuilt => 2,
        BootPhase::BindingsExported => 3,
        BootPhase::BindingsSkipped => 3,
        BootPhase::PluginsComposed => 4,
        BootPhase::Running => 5,
        BootPhase::Aborted => 6,
    }
}

/// Every transition out of a phase that owes a step moves strictly forward
/// in the pipeline order, whatever the outcome.
pub proof fn lemma_transition_advances(phase: BootPhase, config: BootConfig, succeeded: bool)
    requires
        step_of(phase, config) is Some,
    ensures
        phase_rank(phase_after(phase, config, succeeded)) > phase_rank(phase),
{
}

/// A run's phases are strictly ordered: the pipeline never revisits a
/// phase, and there is no path back once a phase is passed.
pub proof fn lemma_run_never_revisits(phase: BootPhase, config: BootConfig, outcomes: Seq<bool>)
    ensures
        forall|i: int, j: int|
            0 <= i < j < phases_from(phase, config, outcomes).len() ==> phase_rank(
                #[trigger] phases_from(phase, config, outcomes)[i],
            ) < phase_rank(#[trigger] phases_from(phase, config, outcomes)[j]),
    decreases outcomes.len(),
{
    let trace = phases_from(phase, config, outcomes);
    if outcomes.len() == 0 || step_of(phase, config) is None {
        assert(trace.len() == 1);
    } else {
        let next = phase_after(phase, config, outcomes[0]);
        let rest = phases_from(next, config, outcomes.drop_first());
        lemma_run_never_revisits(next, config, outcomes.drop_first());
        lemma_transition_advances(phase, config, outcomes[0]);
        assert(rest[0] == next);
        assert forall|i: int, j: int| 0 <= i < j < trace.len() implies phase_rank(
            #[trigger] trace[i],
        ) < phase_rank(#[trigger] trace[j]) by {
            assert(trace[j] == rest[j - 1]);
            if i == 0 {
                assert(trace[0] == phase);
                if j == 1 {
                    assert(rest[0] == next);
                } else {
                    assert(phase_rank(rest[0]) < phase_rank(rest[j - 1]));
                }
            } else {
                assert(trace[i] == rest[i - 1]);
            }
        }
    }
}

/// Export-once law: along any run of the pipeline, the export step is owed
/// at most once, whatever the configuration and the step outcomes.
pub proof fn lemma_export_owed_at_most_once(
    phase: BootPhase,
    config: BootConfig,
    outcomes: Seq<bool>,
)
    ensures
        forall|i: int, j: int|
            0 <= i < j < phases_from(phase, config, outcomes).len() ==> !(step_of(
                #[trigger] phases_from(phase, config, outcomes)[i],
                config,
            ) == Some(BootStep::ExportBindings) && step_of(
                #[trigger] phases_from(phase, config, outcomes)[j],
                config,
            ) == Some(BootStep::ExportBindings)),
{
    let trace = phases_from(phase, config, outcomes);
    lemma_run_never_revisits(phase, config, outcomes);
    assert forall|i: int, j: int| 0 <= i < j < trace.len() implies !(step_of(
        #[trigger] trace[i],
        config,
    ) == Some(BootStep::ExportBindings) && step_of(#[trigger] trace[j], config) == Some(
        BootStep::ExportBindings,
    )) by {
        if step_of(trace[i], config) == Some(BootStep::ExportBindings) && step_of(
            trace[j],
            config,
        ) == Some(BootStep::ExportBindings) {
            // Only the phase after the bridge build owes the export step,
            // so both positions would hold the same phase.
            assert(trace[i] == BootPhase::BridgeBuilt);
            assert(trace[j] == BootPhase::BridgeBuilt);
            assert(phase_rank(trace[i]) < phase_rank(trace[j]));
        }
    }
}

/// Export gating law: the export step is owed exactly in the phase that
/// follows the bridge build, and there exactly when the build is a
/// non-mobile development build; no other phase ever owes it.
pub proof fn lemma_export_gating(config: BootConfig)
    ensures
        (step_of(BootPhase::BridgeBuilt, config) == Some(BootStep::ExportBindings)) <==> (
        config.debug_build && config.profile != PlatformProfile::Mobile),
        step_of(BootPhase::Uninitialized, config) != Some(BootStep::ExportBindings),
        step_of(BootPhase::CryptoInstalled, config) != Some(BootStep::ExportBindings),
        step_of(BootPhase::BindingsExported, config) != Some(BootStep::ExportBindings),
        step_of(BootPhase::BindingsSkipped, config) != Some(BootStep::ExportBindings),
        step_of(BootPhase::PluginsComposed, config) != Some(BootStep::ExportBindings),
        step_of(BootPhase::Running, config) != Some(BootStep::ExportBindings),
        step_of(BootPhase::Aborted, config) != Some(BootStep::ExportBindings),
{
}

/// Fail-fast law: from any phase that still owes a step, a failed step
/// moves the pipeline directly to `Aborted`.
pub proof fn lemma_failure_aborts(phase: BootPhase, config: BootConfig)
    requires
        step_of(phase, config) is Some,
    ensures
        phase_after(phase, config, false) == BootPhase::Aborted,
{
}

/// Happy-path law for a desktop development build: with every step
/// succeeding, the pipeline walks exactly through crypto install, bridge
/// build, binding export and plugin composition into the run loop, and the
/// composition holds six plugins.
pub proof fn lemma_happy_path_desktop_debug(config: BootConfig)
    requires
        config.profile == PlatformProfile::Desktop,
        config.debug_build,
    ensures
        phase_after(BootPhase::Uninitialized, config, true) == BootPhase::CryptoInstalled,
        phase_after(BootPhase::CryptoInstalled, config, true) == BootPhase::BridgeBuilt,
        phase_after(BootPhase::BridgeBuilt, config, true) == BootPhase::BindingsExported,
        phase_after(BootPhase::BindingsExported, config, true) == BootPhase::PluginsComposed,
        phase_after(BootPhase::PluginsComposed, config, true) == BootPhase::Running,
        composed_plugins(config.profile).len() == 6,
{
}

/// The full happy-path trace on a desktop development build: five
/// successful steps visit exactly crypto install, bridge build, binding
/// export and plugin composition, and end in the run loop.
pub proof fn lemma_happy_path_trace(config: BootConfig)
    requires
        config.profile == PlatformProfile::Desktop,
        config.debug_build,
    ensures
        phases_from(BootPhase::Uninitialized, config, seq![true, true, true, true, true]) =~= seq![
            BootPhase::Uninitialized,
            BootPhase::CryptoInstalled,
            BootPhase::BridgeBuilt,
            BootPhase::BindingsExported,
            BootPhase::PluginsComposed,
            BootPhase::Running,
        ],
{
    let o0 = seq![true, true, true, true, true];
    let o1 = o0.drop_first();
    let o2 = o1.drop_first();
    let o3 = o2.drop_first();
    let o4 = o3.drop_first();
    let o5 = o4.drop_first();
    assert(o0[0] && o1[0] && o2[0] && o3[0] && o4[0]);
    assert(o5.len() == 0);
    let t5 = phases_from(BootPhase::Running, config, o5);
    assert(t5 =~= seq![BootPhase::Running]);
    let t4 = phases_from(BootPhase::PluginsComposed, config, o4);
    assert(t4 =~= seq![BootPhase::PluginsComposed] + t5);
    let t3 = phases_from(BootPhase::BindingsExported, config, o3);
    assert(t3 =~= seq![BootPhase::BindingsExported] + t4);
    let t2 = phases_from(BootPhase::BridgeBuilt, config, o2);
    assert(t2 =~= seq![BootPhase::BridgeBuilt] + t3);
    let t1 = phases_from(BootPhase::CryptoInstalled, config, o1);
    assert(t1 =~= seq![BootPhase::CryptoInstalled] + t2);
    let t0 = phases_from(BootPhase::Uninitialized, config, o0);
    assert(t0 =~= seq![BootPhase::Uninitialized] + t1);
}

} // verus!
