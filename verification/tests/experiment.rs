use lib::experiment::{
    ExperimentViolation, NormTraining, PanelConfig, PanelViolation, RecoveryCase, SaturationPenalty,
    TrainingExperiment, Withdrawal,
};
use lib::run_config::RunConfig;

fn fold(basis: u64, bytes: &[u8]) -> u64 {
    bytes
        .iter()
        .fold(basis, |hash, byte| (hash ^ u64::from(*byte)).wrapping_mul(0x100_0000_01b3))
}

fn schedule() -> Withdrawal {
    Withdrawal {
        observe: 8,
        taper: 8,
        autonomous_tail: 48,
        min_fidelity: 0.2f32.to_bits(),
        max_fidelity: 1.0f32.to_bits(),
        guided_anchor_probability: 0.1f32.to_bits(),
    }
}

fn panel() -> PanelConfig {
    PanelConfig {
        targets: vec![0, 1],
        seeds: vec![7],
        burn_in: 16,
        diagnostic_ages: vec![0, 8, 16],
        horizons: vec![32, 64],
        stride: 2,
        recovery_horizon: 64,
        recovery_cases: vec![RecoveryCase::MicroNoise, RecoveryCase::Combined],
        history_capacity: 8,
        clock_robustness: true,
    }
}

#[test]
fn default_settings_keep_the_legacy_signature() {
    let e = TrainingExperiment::default();
    assert_eq!(e.signature(0x1234_5678_9abc_def0, b"settings", b"penalty"), 0x1234_5678_9abc_def0);
    assert!(e.active_saturation_penalty().is_none());
}

#[test]
fn differentiable_norm_folds_the_settings_encoding() {
    let mut e = TrainingExperiment::default();
    e.norm = NormTraining::Differentiable;
    assert_eq!(e.signature(77, b"abc", b"xyz"), fold(77, b"abc"));
    assert_ne!(e.signature(77, b"abc", b"xyz"), 77);
}

#[test]
fn withdrawal_alone_changes_the_base() {
    let mut e = TrainingExperiment::default();
    e.withdrawal = Some(schedule());
    assert_eq!(e.signature(5, b"w", b"p"), fold(5, b"w"));
}

#[test]
fn penalty_is_folded_only_with_positive_weight() {
    let mut e = TrainingExperiment::default();
    e.saturation_penalty = Some(SaturationPenalty { weight: 0.5f32.to_bits(), threshold: 0.9f32.to_bits() });
    assert_eq!(e.signature(77, b"abc", b"xyz"), fold(77, b"xyz"));
    assert_eq!(e.active_saturation_penalty().unwrap().weight, 0.5f32.to_bits());
    e.saturation_penalty = Some(SaturationPenalty { weight: 0.0f32.to_bits(), threshold: 0.9f32.to_bits() });
    assert_eq!(e.signature(77, b"abc", b"xyz"), 77);
    assert!(e.active_saturation_penalty().is_none());
    e.saturation_penalty = Some(SaturationPenalty { weight: (-0.0f32).to_bits(), threshold: 0.9f32.to_bits() });
    assert!(e.active_saturation_penalty().is_none());
}

#[test]
fn settings_and_penalty_fold_in_order() {
    let mut e = TrainingExperiment::default();
    e.norm = NormTraining::Differentiable;
    e.saturation_penalty = Some(SaturationPenalty { weight: 1.0f32.to_bits(), threshold: 0.9f32.to_bits() });
    assert_eq!(e.signature(9, b"abc", b"xyz"), fold(fold(9, b"abc"), b"xyz"));
}

#[test]
fn diagnostics_and_panel_leave_the_signature_alone() {
    let mut e = TrainingExperiment::default();
    e.optimizer_diagnostics = true;
    e.panel = Some(panel());
    assert_eq!(e.signature(31, b"abc", b"xyz"), 31);
}

#[test]
fn withdrawal_that_fits_the_episode_passes() {
    let config = RunConfig::default_for(None);
    let mut e = TrainingExperiment::default();
    e.withdrawal = Some(schedule());
    e.panel = Some(panel());
    assert_eq!(e.validate(&config, false), Ok(()));
    assert_eq!(TrainingExperiment::default().validate(&config, true), Ok(()));
}

#[test]
fn withdrawal_needs_fixed_resetting_episodes() {
    let mut config = RunConfig::default_for(None);
    let mut e = TrainingExperiment::default();
    e.withdrawal = Some(schedule());
    assert_eq!(e.validate(&config, true), Err(ExperimentViolation::WithdrawalEpisodes));
    config.episode_reset = 0.0f32.to_bits();
    assert_eq!(e.validate(&config, false), Err(ExperimentViolation::WithdrawalEpisodes));
}

#[test]
fn withdrawal_phases_must_sum_to_the_episode() {
    let config = RunConfig::default_for(None);
    let mut e = TrainingExperiment::default();
    let mut w = schedule();
    w.autonomous_tail = 40;
    e.withdrawal = Some(w);
    assert_eq!(e.validate(&config, false), Err(ExperimentViolation::WithdrawalDurations));
    w.observe = usize::MAX;
    e.withdrawal = Some(w);
    assert_eq!(e.validate(&config, false), Err(ExperimentViolation::WithdrawalDurations));
}

#[test]
fn withdrawal_needs_an_autonomous_tail() {
    let config = RunConfig::default_for(None);
    let mut e = TrainingExperiment::default();
    let mut w = schedule();
    w.observe = 32;
    w.taper = 32;
    w.autonomous_tail = 0;
    e.withdrawal = Some(w);
    assert_eq!(e.validate(&config, false), Err(ExperimentViolation::WithdrawalTail));
}

#[test]
fn withdrawal_fidelities_must_be_ordered_in_the_unit_range() {
    let config = RunConfig::default_for(None);
    let mut e = TrainingExperiment::default();
    let mut w = schedule();
    w.min_fidelity = 0.5f32.to_bits();
    w.max_fidelity = 0.4f32.to_bits();
    e.withdrawal = Some(w);
    assert_eq!(e.validate(&config, false), Err(ExperimentViolation::WithdrawalFidelity));
    let mut w = schedule();
    w.guided_anchor_probability = f32::NAN.to_bits();
    e.withdrawal = Some(w);
    assert_eq!(e.validate(&config, false), Err(ExperimentViolation::WithdrawalFidelity));
    let mut w = schedule();
    w.max_fidelity = 1.5f32.to_bits();
    e.withdrawal = Some(w);
    assert_eq!(e.validate(&config, false), Err(ExperimentViolation::WithdrawalFidelity));
}

#[test]
fn penalty_needs_finite_weight_and_positive_threshold() {
    let config = RunConfig::default_for(None);
    let mut e = TrainingExperiment::default();
    e.saturation_penalty = Some(SaturationPenalty { weight: 0.0f32.to_bits(), threshold: 1.0f32.to_bits() });
    assert_eq!(e.validate(&config, false), Ok(()));
    e.saturation_penalty = Some(SaturationPenalty { weight: f32::INFINITY.to_bits(), threshold: 1.0f32.to_bits() });
    assert_eq!(e.validate(&config, false), Err(ExperimentViolation::SaturationPenalty));
    e.saturation_penalty = Some(SaturationPenalty { weight: 0.5f32.to_bits(), threshold: 0.0f32.to_bits() });
    assert_eq!(e.validate(&config, false), Err(ExperimentViolation::SaturationPenalty));
}

#[test]
fn experiment_guards_run_penalty_then_panel_then_withdrawal() {
    let config = RunConfig::default_for(None);
    let mut e = TrainingExperiment::default();
    let mut long = panel();
    long.recovery_horizon = 4096;
    e.panel = Some(long);
    let mut w = schedule();
    w.autonomous_tail = 0;
    e.withdrawal = Some(w);
    assert_eq!(
        e.validate(&config, false),
        Err(ExperimentViolation::Panel(PanelViolation::RecoveryHorizon))
    );
    e.saturation_penalty = Some(SaturationPenalty { weight: (-1.0f32).to_bits(), threshold: 1.0f32.to_bits() });
    assert_eq!(e.validate(&config, false), Err(ExperimentViolation::SaturationPenalty));
}

const PENALTY_AT_TWO: &[u8] = b"[\"write-saturation-v1\",{\"weight\":0.01,\"threshold\":2.0}]";
const PENALTY_AT_THREE: &[u8] = b"[\"write-saturation-v1\",{\"weight\":0.01,\"threshold\":3.0}]";

fn settings_encoding(norm: NormTraining) -> &'static [u8] {
    match norm {
        NormTraining::Legacy => b"[\"training-experiment-v1\",\"legacy\",null]",
        NormTraining::Differentiable => b"[\"training-experiment-v1\",\"differentiable\",null]",
    }
}

#[test]
fn saturation_signature_preserves_v1_and_rejects_invalid_settings() {
    let mut c = RunConfig::default_for(None);
    for norm in [NormTraining::Legacy, NormTraining::Differentiable] {
        let settings = settings_encoding(norm);
        c.experiment.norm = norm;
        c.experiment.saturation_penalty = None;
        let old = c.checkpoint_signature(settings, PENALTY_AT_TWO);
        let mut expected = 123u64;
        if norm != NormTraining::Legacy {
            for b in settings {
                expected = (expected ^ u64::from(*b)).wrapping_mul(0x100_0000_01b3);
            }
        }
        assert_eq!(c.experiment.signature(123, settings, PENALTY_AT_TWO), expected);
        c.experiment.saturation_penalty =
            Some(SaturationPenalty { weight: 0.0f32.to_bits(), threshold: 2.0f32.to_bits() });
        assert_eq!(old, c.checkpoint_signature(settings, PENALTY_AT_TWO));
        c.experiment.saturation_penalty.as_mut().unwrap().weight = 0.01f32.to_bits();
        assert_eq!(c.validate(), Ok(()));
        assert_ne!(old, c.checkpoint_signature(settings, PENALTY_AT_TWO));
        let active = c.checkpoint_signature(settings, PENALTY_AT_TWO);
        c.experiment.saturation_penalty.as_mut().unwrap().threshold = 3.0f32.to_bits();
        assert_ne!(active, c.checkpoint_signature(settings, PENALTY_AT_THREE));
    }
    for weight in [-1.0f32, f32::NAN, f32::INFINITY] {
        c.experiment.saturation_penalty =
            Some(SaturationPenalty { weight: weight.to_bits(), threshold: 2.0f32.to_bits() });
        assert!(c.validate().is_err());
    }
    for threshold in [0.0f32, -1.0, f32::NAN, f32::INFINITY] {
        c.experiment.saturation_penalty =
            Some(SaturationPenalty { weight: 0.0f32.to_bits(), threshold: threshold.to_bits() });
        assert!(c.validate().is_err());
    }
}

#[test]
fn recovery_selection_is_backward_compatible_and_validated() {
    let panel = PanelConfig {
        targets: vec![0],
        seeds: vec![42],
        burn_in: 4,
        diagnostic_ages: vec![0],
        horizons: vec![4],
        stride: 1,
        recovery_horizon: 4,
        recovery_cases: lib::experiment::default_recovery_cases(),
        history_capacity: 3,
        clock_robustness: false,
    };
    let mut c = RunConfig::default_for(None);
    let signature = c.checkpoint_signature(&[], &[]);
    c.experiment.panel = Some(panel);
    c.experiment.panel.as_mut().unwrap().recovery_cases = vec![RecoveryCase::MacroPatch];
    assert_eq!(c.validate(), Ok(()));
    assert_eq!(signature, c.checkpoint_signature(&[], &[]));
    c.experiment.panel.as_mut().unwrap().recovery_cases.push(RecoveryCase::MacroPatch);
    assert!(c.validate().is_err());
    c.experiment.panel.as_mut().unwrap().recovery_cases.clear();
    assert_eq!(c.validate(), Ok(()));
    c.experiment.panel.as_mut().unwrap().recovery_horizon = 2049;
    assert!(c.validate().is_err());
}

#[test]
fn run_validation_reports_experiment_guards_last() {
    let mut c = RunConfig::default_for(None);
    let mut w = schedule();
    w.autonomous_tail = 0;
    c.experiment.withdrawal = Some(w);
    assert_eq!(
        c.validate(),
        Err(lib::validation::Violation::Experiment(ExperimentViolation::WithdrawalDurations))
    );
    c.threads = 0;
    assert_eq!(c.validate(), Err(lib::validation::Violation::Threads));
}
