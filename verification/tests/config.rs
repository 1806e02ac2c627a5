use lib::cli::validate_tag;
use lib::config::{
    ConditioningMode, MorphDepthMode, ObjectiveMode, PhoneProfile, ResearchPreset, StylePreset,
};
use lib::presets::preapply_presets;
use lib::run_config::RunConfig;

fn bits(value: f32) -> u32 {
    value.to_bits()
}

fn args(list: &[&str]) -> Vec<String> {
    list.iter().map(|s| s.to_string()).collect()
}

#[test]
fn defaults_obey_guards() {
    RunConfig::default_for(None).validate().unwrap();
}

#[test]
fn profile_and_style_are_applied_before_overrides() {
    let mut config = RunConfig::default_for(None);
    preapply_presets(&args(&["--style", "fractal-flame", "--profile", "s25-fast"]), &mut config)
        .unwrap();
    assert_eq!(config.micro_size, 48);
    assert_eq!(config.fractal_gain, bits(0.34));
}

#[test]
fn preset_category_order_is_deterministic() {
    let mut first = RunConfig::default_for(None);
    preapply_presets(
        &args(&[
            "--research-preset",
            "grounded-emergent",
            "--profile",
            "s25-fast",
            "--style",
            "pure-nca",
        ]),
        &mut first,
    )
    .unwrap();
    let mut second = RunConfig::default_for(None);
    preapply_presets(
        &args(&[
            "--style",
            "pure-nca",
            "--profile",
            "s25-fast",
            "--research-preset",
            "grounded-emergent",
        ]),
        &mut second,
    )
    .unwrap();
    assert_eq!(first.resolved_config_signature(&[], &[]), second.resolved_config_signature(&[], &[]));
    assert_eq!(first.interface_grid, 4);
    assert_eq!(first.reaction_gain, bits(0.0));
    assert_eq!(first.reconstruction.emergence_strength, bits(0.70));
    assert_eq!(first.morph_growth.mode, MorphDepthMode::Adaptive);
}

#[test]
fn research_presets_resolve_distinct_operating_regimes() {
    let mut strict = RunConfig::default_for(None);
    strict.apply_research_preset(ResearchPreset::StrictReconstruct);
    let mut balanced = RunConfig::default_for(None);
    balanced.apply_research_preset(ResearchPreset::ReconstructionPlus);
    let mut free = RunConfig::default_for(None);
    free.apply_research_preset(ResearchPreset::FreeMorph);
    let mut flow = RunConfig::default_for(None);
    flow.apply_research_preset(ResearchPreset::FlowReconstruct);

    let f = f32::from_bits;
    assert!(f(strict.reconstruction.grounding_floor) > f(balanced.reconstruction.grounding_floor));
    assert!(
        f(strict.reconstruction.emergence_strength) < f(balanced.reconstruction.emergence_strength)
    );
    assert!(
        f(free.reconstruction.emergence_low_budget) > f(balanced.reconstruction.emergence_low_budget)
    );
    assert!(f(free.reference_fidelity_max) < f(balanced.reference_fidelity_max));
    assert_eq!(flow.objective, ObjectiveMode::HybridFlow);
    assert_eq!(flow.flow.weight, bits(0.10));
}

#[test]
fn append_only_morph_capacity_has_separate_resolved_signature() {
    let base = RunConfig::default_for(None);
    let mut expanded = base.clone();
    expanded.morph_layers += 2;
    expanded.morph_growth.max_depth += 2;
    assert_eq!(base.checkpoint_signature(&[], &[]), expanded.checkpoint_signature(&[], &[]));
    assert_ne!(base.resolved_config_signature(&[], &[]), expanded.resolved_config_signature(&[], &[]));
}

#[test]
fn tag_cannot_escape_output_dir() {
    assert!(validate_tag("alien-garden_01").is_ok());
    assert!(validate_tag("../escape").is_err());
}

#[test]
fn continuation_signature_tracks_training_but_not_output_size() {
    let base = RunConfig::default_for(None);
    let changed_dt = RunConfig { dt: bits(0.11), ..base.clone() };
    let changed_output = RunConfig { output_resolution: 1024, ..base.clone() };
    let changed_preview = RunConfig { snapshot_resolution: 512, ..base.clone() };
    assert_ne!(base.checkpoint_signature(&[], &[]), changed_dt.checkpoint_signature(&[], &[]));
    assert_eq!(base.checkpoint_signature(&[], &[]), changed_output.checkpoint_signature(&[], &[]));
    assert_eq!(base.checkpoint_signature(&[], &[]), changed_preview.checkpoint_signature(&[], &[]));
}

#[test]
fn continuation_signature_tracks_stability_semantics() {
    let base = RunConfig::default_for(None);
    let changed = RunConfig { memory_limit: bits(2.5), ..base.clone() };
    assert_ne!(base.checkpoint_signature(&[], &[]), changed.checkpoint_signature(&[], &[]));
}

#[test]
fn probe_controls_require_frozen_analysis_and_preserve_checkpoint_identity() {
    let base = RunConfig::default_for(None);
    let mut probe = base.clone();
    probe.analysis.only = true;
    probe.analysis.probe_dir = Some("held-out-probes".to_owned());
    probe.analysis.probe_ages = vec![1, 8, 16, 64];
    probe.analysis.probe_reference_fidelities = vec![bits(1.0), bits(0.25), bits(0.0)];
    assert!(probe.validate().is_ok());
    assert_eq!(base.checkpoint_signature(&[], &[]), probe.checkpoint_signature(&[], &[]));

    let mut training_probe = probe.clone();
    training_probe.analysis.only = false;
    assert!(training_probe.validate().is_err());

    let mut unsorted_ages = probe.clone();
    unsorted_ages.analysis.probe_ages = vec![1, 16, 8];
    assert!(unsorted_ages.validate().is_err());

    let mut invalid_fidelity = probe;
    invalid_fidelity.analysis.probe_reference_fidelities = vec![bits(1.0), bits(-0.1)];
    assert!(invalid_fidelity.validate().is_err());
}

#[test]
fn stability_controls_obey_guards() {
    let invalid_loss = RunConfig { loss_state: bits(-0.1), ..RunConfig::default_for(None) };
    assert!(invalid_loss.validate().is_err());
    let invalid_soft_limit = RunConfig {
        state_soft_limit: bits(4.0),
        state_limit: bits(3.5),
        ..RunConfig::default_for(None)
    };
    assert!(invalid_soft_limit.validate().is_err());
    let disabled_watchdog = RunConfig { stability_patience: 0, ..RunConfig::default_for(None) };
    assert!(disabled_watchdog.validate().is_ok());
}

#[test]
fn quality_profile_sets_its_geometry() {
    let mut config = RunConfig::default_for(None);
    config.apply_profile(PhoneProfile::S25Quality);
    assert_eq!(config.profile, PhoneProfile::S25Quality);
    assert_eq!(config.micro_size, 80);
    assert_eq!(config.output_resolution, 1024);
    assert_eq!(config.core_update_every, 1);
    assert_eq!(config.morph_growth.min_depth, 4);
    assert_eq!(config.morph_growth.max_depth, 8);
    assert_eq!(config.detail.probability, bits(0.25));
    assert_eq!(config.checkpoint_every, 400);
}

#[test]
fn pure_nca_style_silences_the_operators() {
    let mut config = RunConfig::default_for(None);
    config.apply_style(StylePreset::PureNca);
    assert_eq!(config.style, StylePreset::PureNca);
    assert_eq!(config.reaction_gain, bits(0.0));
    assert_eq!(config.fractal_gain, bits(0.0));
    assert_eq!(config.coord_gain, bits(0.08));
    assert_eq!(config.state_skip, bits(0.60));
    assert_eq!(config.chroma, bits(0.18));
}

#[test]
fn free_morph_preset_loosens_reference_fidelity() {
    let mut config = RunConfig::default_for(None);
    config.apply_research_preset(ResearchPreset::FreeMorph);
    assert_eq!(config.research_preset, ResearchPreset::FreeMorph);
    assert_eq!(config.objective, ObjectiveMode::ReconstructionPlus);
    assert_eq!(config.conditioning, ConditioningMode::Hybrid);
    assert_eq!(config.reference_fidelity_max, bits(0.45));
    assert_eq!(config.reference_dropout, bits(0.35));
    assert_eq!(config.reconstruction.emergence_strength, bits(1.0));
    assert_eq!(config.morph_growth.mode, MorphDepthMode::Adaptive);
}

#[test]
fn objective_modes_name_their_losses() {
    assert!(ObjectiveMode::Endpoint.uses_endpoint());
    assert!(!ObjectiveMode::Endpoint.uses_flow());
    assert!(!ObjectiveMode::Flow.uses_endpoint());
    assert!(ObjectiveMode::Flow.uses_flow());
    assert!(ObjectiveMode::HybridFlow.uses_endpoint());
    assert!(ObjectiveMode::HybridFlow.uses_flow());
    assert!(ObjectiveMode::ReconstructionPlus.uses_endpoint());
    assert!(!ObjectiveMode::ReconstructionPlus.uses_flow());
}
