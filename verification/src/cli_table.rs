//! The options that the command line accepts: which setting each one names and
//! how a value is stored into the run configuration.
use vstd::prelude::*;
use crate::run_config::{AnalysisConfig, DetailConfig, FlowConfig, MorphGrowthConfig, ReconstructionConfig, RunConfig};
use crate::text::str_eq;

verus! {

/// A size, count or cadence setting.
#[derive(Clone, Copy, Debug, PartialEq, Eq, Structural)]
pub enum SizeField {
    DetailResolution,
    PyramidCacheMaxLevel,
    MorphMinDepth,
    MorphMaxDepth,
    MorphGrowthInterval,
    MorphPlateauWindow,
    FlowHidden,
    FlowResolution,
    FlowCadence,
    FlowSampleSteps,
    AutonomousRollout,
    PerturbationAnalysis,
    DynamicsAblation,
    AnalysisStride,
    Steps,
    Threads,
    MicroSize,
    MacroSize,
    Channels,
    GenomeDim,
    CaHidden,
    InterfaceGrid,
    InterfaceWidth,
    InterfaceLoops,
    MorphLayers,
    MorphDepth,
    RenderHidden,
    RenderBlocks,
    CoordBands,
    TrainResolution,
    OutputResolution,
    SnapshotResolution,
    EpisodeSteps,
    Bptt,
    CoreUpdateEvery,
    MacroUpdateEvery,
    SnapshotEvery,
    CheckpointEvery,
    LogEvery,
    ImageCache,
    WarmupUpdates,
    MuonNsSteps,
    StabilityPatience,
    Gallery,
    GallerySteps,
    GalleryStride,
}

/// A 64-bit seed setting.
#[derive(Clone, Copy, Debug, PartialEq, Eq, Structural)]
pub enum SeedField {
    Seed,
    GallerySeed,
}

/// A binary32 scalar setting.
#[derive(Clone, Copy, Debug, PartialEq, Eq, Structural)]
pub enum F32Field {
    GroundingStrength,
    EmergenceStrength,
    EmergenceLowBudget,
    EmergenceMidBudget,
    EmergenceStart,
    EmergenceRamp,
    GroundingFloor,
    EmergentLimit,
    LocalReferenceGain,
    LossComposite,
    LossGroundCoarse,
    LossGroundMid,
    LossGroundFine,
    LossEmergentLow,
    LossEmergentTv,
    DetailCropProbability,
    LossEmergentFit,
    LossHeadRedundancy,
    LossCrossResolution,
    DetailMinZoom,
    DetailMaxZoom,
    DetailCurriculumStart,
    MorphPlateauEpsilon,
    MorphSeamThreshold,
    FlowWeight,
    FlowEndpointWeight,
    FlowMinTime,
    FlowMaxTime,
    MorphResidualGain,
    MemoryLimit,
    InterfaceGain,
    ReferenceFidelityMin,
    ReferenceFidelityMax,
    ReferenceDropout,
    CoordGain,
    StateSkip,
    Chroma,
    Gamma,
    EpisodeReset,
    MemoryReset,
    Dt,
    StateLimit,
    StateSoftLimit,
    ClockProbability,
    NcaGain,
    ReactionGain,
    StateLeak,
    PhaseGain,
    FractalGain,
    QuasiperiodicGain,
    CyclicGain,
    RdDiffusionU,
    RdDiffusionV,
    RdFeed,
    RdKill,
    PhaseGrowth,
    PhaseSaturation,
    PhaseFrequency,
    PhaseDiffusion,
    PhaseDispersion,
    LossContent,
    LossPalette,
    LossStructure,
    LossSeam,
    LossGamut,
    LossState,
    LossMemory,
    MaxSaturationFraction,
    MasteringStrength,
}

/// A binary64 optimizer setting.
#[derive(Clone, Copy, Debug, PartialEq, Eq, Structural)]
pub enum F64Field {
    LearningRate,
    WeightDecay,
    Beta1,
    Beta2,
    AdamEpsilon,
    GradClip,
    MuonMomentum,
}

/// A setting that an option without value switches.
#[derive(Clone, Copy, Debug, PartialEq, Eq, Structural)]
pub enum SwitchField {
    AnalysisOnly,
    RenderAttribution,
    ModelStats,
    Benchmark,
    NoEmergenceGallery,
    RecursiveCorpus,
    Fresh,
    RenderOnly,
    NoStateAtlas,
}

/// What an argument of the command line names.
#[derive(Clone, Copy, Debug, PartialEq, Eq, Structural)]
pub enum CliOption {
    CorpusDir,
    OutputDir,
    RunTag,
    Mode,
    Profile,
    Style,
    ResearchPreset,
    Objective,
    PyramidCacheDir,
    TargetBoundary,
    MorphDepthMode,
    Terminal,
    ProbeDir,
    ProbeAges,
    ProbeReferenceFidelities,
    CompareV8Dir,
    Conditioning,
    Optimizer,
    Integrator,
    /// A size, count or cadence.
    Size(SizeField),
    /// A 64-bit seed.
    Seed(SeedField),
    /// A binary32 scalar.
    Scalar(F32Field),
    /// A binary64 optimizer scalar.
    Wide(F64Field),
    /// An option without value that switches a setting.
    Switch(SwitchField),
    /// An option without value that sets a binary32 gain to zero.
    Disable(F32Field),
}

#[verifier::opaque]
pub open spec fn with_size(c: RunConfig, field: SizeField, value: usize) -> RunConfig {
    match field {
        SizeField::DetailResolution => RunConfig { detail: DetailConfig { resolution: value, ..c.detail }, ..c },
        SizeField::PyramidCacheMaxLevel => RunConfig { detail: DetailConfig { cache_max_level: value, ..c.detail }, ..c },
        SizeField::MorphMinDepth => RunConfig { morph_growth: MorphGrowthConfig { min_depth: value, ..c.morph_growth }, ..c },
        SizeField::MorphMaxDepth => RunConfig { morph_growth: MorphGrowthConfig { max_depth: value, ..c.morph_growth }, ..c },
        SizeField::MorphGrowthInterval => RunConfig { morph_growth: MorphGrowthConfig { interval: value, ..c.morph_growth }, ..c },
        SizeField::MorphPlateauWindow => RunConfig { morph_growth: MorphGrowthConfig { plateau_window: value, ..c.morph_growth }, ..c },
        SizeField::FlowHidden => RunConfig { flow: FlowConfig { hidden: value, ..c.flow }, ..c },
        SizeField::FlowResolution => RunConfig { flow: FlowConfig { resolution: value, ..c.flow }, ..c },
        SizeField::FlowCadence => RunConfig { flow: FlowConfig { cadence: value, ..c.flow }, ..c },
        SizeField::FlowSampleSteps => RunConfig { flow: FlowConfig { sample_steps: value, ..c.flow }, ..c },
        SizeField::AutonomousRollout => RunConfig { analysis: AnalysisConfig { autonomous_horizon: value, ..c.analysis }, ..c },
        SizeField::PerturbationAnalysis => RunConfig { analysis: AnalysisConfig { perturbation_horizon: value, ..c.analysis }, ..c },
        SizeField::DynamicsAblation => RunConfig { analysis: AnalysisConfig { dynamics_horizon: value, ..c.analysis }, ..c },
        SizeField::AnalysisStride => RunConfig { analysis: AnalysisConfig { stride: value, ..c.analysis }, ..c },
        SizeField::Steps => RunConfig { steps: value, ..c },
        SizeField::Threads => RunConfig { threads: value, ..c },
        SizeField::MicroSize => RunConfig { micro_size: value, ..c },
        SizeField::MacroSize => RunConfig { macro_size: value, ..c },
        SizeField::Channels => RunConfig { channels: value, ..c },
        SizeField::GenomeDim => RunConfig { genome_dim: value, ..c },
        SizeField::CaHidden => RunConfig { ca_hidden: value, ..c },
        SizeField::InterfaceGrid => RunConfig { interface_grid: value, ..c },
        SizeField::InterfaceWidth => RunConfig { interface_width: value, ..c },
        SizeField::InterfaceLoops => RunConfig { interface_loops: value, ..c },
        SizeField::MorphLayers => RunConfig { morph_layers: value, ..c },
        SizeField::MorphDepth => RunConfig { morph_depth: value, ..c },
        SizeField::RenderHidden => RunConfig { render_hidden: value, ..c },
        SizeField::RenderBlocks => RunConfig { render_blocks: value, ..c },
        SizeField::CoordBands => RunConfig { coord_bands: value, ..c },
        SizeField::TrainResolution => RunConfig { train_resolution: value, ..c },
        SizeField::OutputResolution => RunConfig { output_resolution: value, ..c },
        SizeField::SnapshotResolution => RunConfig { snapshot_resolution: value, ..c },
        SizeField::EpisodeSteps => RunConfig { episode_steps: value, ..c },
        SizeField::Bptt => RunConfig { bptt: value, ..c },
        SizeField::CoreUpdateEvery => RunConfig { core_update_every: value, ..c },
        SizeField::MacroUpdateEvery => RunConfig { macro_update_every: value, ..c },
        SizeField::SnapshotEvery => RunConfig { snapshot_every: value, ..c },
        SizeField::CheckpointEvery => RunConfig { checkpoint_every: value, ..c },
        SizeField::LogEvery => RunConfig { log_every: value, ..c },
        SizeField::ImageCache => RunConfig { image_cache: value, ..c },
        SizeField::WarmupUpdates => RunConfig { warmup_updates: value, ..c },
        SizeField::MuonNsSteps => RunConfig { muon_ns_steps: value, ..c },
        SizeField::StabilityPatience => RunConfig { stability_patience: value, ..c },
        SizeField::Gallery => RunConfig { gallery: value, ..c },
        SizeField::GallerySteps => RunConfig { gallery_steps: value, ..c },
        SizeField::GalleryStride => RunConfig { gallery_stride: value, ..c },
    }
}

#[verifier::opaque]
pub open spec fn with_seed(c: RunConfig, field: SeedField, value: u64) -> RunConfig {
    match field {
        SeedField::Seed => RunConfig { seed: value, ..c },
        SeedField::GallerySeed => RunConfig { gallery_seed: value, ..c },
    }
}

#[verifier::opaque]
pub open spec fn with_f32(c: RunConfig, field: F32Field, value: u32) -> RunConfig {
    match field {
        F32Field::GroundingStrength => RunConfig { reconstruction: ReconstructionConfig { grounding_strength: value, ..c.reconstruction }, ..c },
        F32Field::EmergenceStrength => RunConfig { reconstruction: ReconstructionConfig { emergence_strength: value, ..c.reconstruction }, ..c },
        F32Field::EmergenceLowBudget => RunConfig { reconstruction: ReconstructionConfig { emergence_low_budget: value, ..c.reconstruction }, ..c },
        F32Field::EmergenceMidBudget => RunConfig { reconstruction: ReconstructionConfig { emergence_mid_budget: value, ..c.reconstruction }, ..c },
        F32Field::EmergenceStart => RunConfig { reconstruction: ReconstructionConfig { emergence_start: value, ..c.reconstruction }, ..c },
        F32Field::EmergenceRamp => RunConfig { reconstruction: ReconstructionConfig { emergence_ramp: value, ..c.reconstruction }, ..c },
        F32Field::GroundingFloor => RunConfig { reconstruction: ReconstructionConfig { grounding_floor: value, ..c.reconstruction }, ..c },
        F32Field::EmergentLimit => RunConfig { reconstruction: ReconstructionConfig { emergent_limit: value, ..c.reconstruction }, ..c },
        F32Field::LocalReferenceGain => RunConfig { reconstruction: ReconstructionConfig { local_reference_gain: value, ..c.reconstruction }, ..c },
        F32Field::LossComposite => RunConfig { reconstruction: ReconstructionConfig { loss_composite: value, ..c.reconstruction }, ..c },
        F32Field::LossGroundCoarse => RunConfig { reconstruction: ReconstructionConfig { loss_ground_coarse: value, ..c.reconstruction }, ..c },
        F32Field::LossGroundMid => RunConfig { reconstruction: ReconstructionConfig { loss_ground_mid: value, ..c.reconstruction }, ..c },
        F32Field::LossGroundFine => RunConfig { reconstruction: ReconstructionConfig { loss_ground_fine: value, ..c.reconstruction }, ..c },
        F32Field::LossEmergentLow => RunConfig { reconstruction: ReconstructionConfig { loss_emergent_low: value, ..c.reconstruction }, ..c },
        F32Field::LossEmergentTv => RunConfig { reconstruction: ReconstructionConfig { loss_emergent_tv: value, ..c.reconstruction }, ..c },
        F32Field::DetailCropProbability => RunConfig { detail: DetailConfig { probability: value, ..c.detail }, ..c },
        F32Field::LossEmergentFit => RunConfig { reconstruction: ReconstructionConfig { loss_emergent_fit: value, ..c.reconstruction }, ..c },
        F32Field::LossHeadRedundancy => RunConfig { reconstruction: ReconstructionConfig { loss_head_redundancy: value, ..c.reconstruction }, ..c },
        F32Field::LossCrossResolution => RunConfig { reconstruction: ReconstructionConfig { loss_cross_resolution: value, ..c.reconstruction }, ..c },
        F32Field::DetailMinZoom => RunConfig { detail: DetailConfig { min_zoom: value, ..c.detail }, ..c },
        F32Field::DetailMaxZoom => RunConfig { detail: DetailConfig { max_zoom: value, ..c.detail }, ..c },
        F32Field::DetailCurriculumStart => RunConfig { detail: DetailConfig { curriculum_start: value, ..c.detail }, ..c },
        F32Field::MorphPlateauEpsilon => RunConfig { morph_growth: MorphGrowthConfig { plateau_epsilon: value, ..c.morph_growth }, ..c },
        F32Field::MorphSeamThreshold => RunConfig { morph_growth: MorphGrowthConfig { seam_threshold: value, ..c.morph_growth }, ..c },
        F32Field::FlowWeight => RunConfig { flow: FlowConfig { weight: value, ..c.flow }, ..c },
        F32Field::FlowEndpointWeight => RunConfig { flow: FlowConfig { endpoint_weight: value, ..c.flow }, ..c },
        F32Field::FlowMinTime => RunConfig { flow: FlowConfig { min_time: value, ..c.flow }, ..c },
        F32Field::FlowMaxTime => RunConfig { flow: FlowConfig { max_time: value, ..c.flow }, ..c },
        F32Field::MorphResidualGain => RunConfig { morph_residual_gain: value, ..c },
        F32Field::MemoryLimit => RunConfig { memory_limit: value, ..c },
        F32Field::InterfaceGain => RunConfig { interface_gain: value, ..c },
        F32Field::ReferenceFidelityMin => RunConfig { reference_fidelity_min: value, ..c },
        F32Field::ReferenceFidelityMax => RunConfig { reference_fidelity_max: value, ..c },
        F32Field::ReferenceDropout => RunConfig { reference_dropout: value, ..c },
        F32Field::CoordGain => RunConfig { coord_gain: value, ..c },
        F32Field::StateSkip => RunConfig { state_skip: value, ..c },
        F32Field::Chroma => RunConfig { chroma: value, ..c },
        F32Field::Gamma => RunConfig { gamma: value, ..c },
        F32Field::EpisodeReset => RunConfig { episode_reset: value, ..c },
        F32Field::MemoryReset => RunConfig { memory_reset: value, ..c },
        F32Field::Dt => RunConfig { dt: value, ..c },
        F32Field::StateLimit => RunConfig { state_limit: value, ..c },
        F32Field::StateSoftLimit => RunConfig { state_soft_limit: value, ..c },
        F32Field::ClockProbability => RunConfig { clock_probability: value, ..c },
        F32Field::NcaGain => RunConfig { nca_gain: value, ..c },
        F32Field::ReactionGain => RunConfig { reaction_gain: value, ..c },
        F32Field::StateLeak => RunConfig { state_leak: value, ..c },
        F32Field::PhaseGain => RunConfig { phase_gain: value, ..c },
        F32Field::FractalGain => RunConfig { fractal_gain: value, ..c },
        F32Field::QuasiperiodicGain => RunConfig { quasiperiodic_gain: value, ..c },
        F32Field::CyclicGain => RunConfig { cyclic_gain: value, ..c },
        F32Field::RdDiffusionU => RunConfig { rd_diffusion_u: value, ..c },
        F32Field::RdDiffusionV => RunConfig { rd_diffusion_v: value, ..c },
        F32Field::RdFeed => RunConfig { rd_feed: value, ..c },
        F32Field::RdKill => RunConfig { rd_kill: value, ..c },
        F32Field::PhaseGrowth => RunConfig { phase_growth: value, ..c },
        F32Field::PhaseSaturation => RunConfig { phase_saturation: value, ..c },
        F32Field::PhaseFrequency => RunConfig { phase_frequency: value, ..c },
        F32Field::PhaseDiffusion => RunConfig { phase_diffusion: value, ..c },
        F32Field::PhaseDispersion => RunConfig { phase_dispersion: value, ..c },
        F32Field::LossContent => RunConfig { loss_content: value, ..c },
        F32Field::LossPalette => RunConfig { loss_palette: value, ..c },
        F32Field::LossStructure => RunConfig { loss_structure: value, ..c },
        F32Field::LossSeam => RunConfig { loss_seam: value, ..c },
        F32Field::LossGamut => RunConfig { loss_gamut: value, ..c },
        F32Field::LossState => RunConfig { loss_state: value, ..c },
        F32Field::LossMemory => RunConfig { loss_memory: value, ..c },
        F32Field::MaxSaturationFraction => RunConfig { max_saturation_fraction: value, ..c },
        F32Field::MasteringStrength => RunConfig { mastering_strength: value, ..c },
    }
}

#[verifier::opaque]
pub open spec fn with_f64(c: RunConfig, field: F64Field, value: u64) -> RunConfig {
    match field {
        F64Field::LearningRate => RunConfig { learning_rate: value, ..c },
        F64Field::WeightDecay => RunConfig { weight_decay: value, ..c },
        F64Field::Beta1 => RunConfig { beta1: value, ..c },
        F64Field::Beta2 => RunConfig { beta2: value, ..c },
        F64Field::AdamEpsilon => RunConfig { adam_epsilon: value, ..c },
        F64Field::GradClip => RunConfig { grad_clip: value, ..c },
        F64Field::MuonMomentum => RunConfig { muon_momentum: value, ..c },
    }
}

#[verifier::opaque]
pub open spec fn with_switch(c: RunConfig, field: SwitchField) -> RunConfig {
    match field {
        SwitchField::AnalysisOnly => RunConfig { analysis: AnalysisConfig { only: true, ..c.analysis }, ..c },
        SwitchField::RenderAttribution => RunConfig { analysis: AnalysisConfig { render_attribution: true, ..c.analysis }, ..c },
        SwitchField::ModelStats => RunConfig { analysis: AnalysisConfig { model_stats: true, ..c.analysis }, ..c },
        SwitchField::Benchmark => RunConfig { analysis: AnalysisConfig { benchmark: true, ..c.analysis }, ..c },
        SwitchField::NoEmergenceGallery => RunConfig { analysis: AnalysisConfig { emergence_gallery: false, ..c.analysis }, ..c },
        SwitchField::RecursiveCorpus => RunConfig { recursive_corpus: true, ..c },
        SwitchField::Fresh => RunConfig { fresh: true, ..c },
        SwitchField::RenderOnly => RunConfig { render_only: true, ..c },
        SwitchField::NoStateAtlas => RunConfig { save_state_atlas: false, ..c },
    }
}

#[verifier::opaque]
pub open spec fn cli_option_part0(flag: Seq<char>) -> Option<CliOption> {
    if flag == "--corpus-dir"@ {
        Some(CliOption::CorpusDir)
    } else if flag == "--output-dir"@ {
        Some(CliOption::OutputDir)
    } else if flag == "--run-tag"@ {
        Some(CliOption::RunTag)
    } else if flag == "--mode"@ {
        Some(CliOption::Mode)
    } else if flag == "--profile"@ {
        Some(CliOption::Profile)
    } else if flag == "--style"@ {
        Some(CliOption::Style)
    } else if flag == "--research-preset"@ {
        Some(CliOption::ResearchPreset)
    } else if flag == "--objective"@ {
        Some(CliOption::Objective)
    } else if flag == "--grounding-strength"@ {
        Some(CliOption::Scalar(F32Field::GroundingStrength))
    } else if flag == "--emergence-strength"@ {
        Some(CliOption::Scalar(F32Field::EmergenceStrength))
    } else if flag == "--emergence-low-budget"@ {
        Some(CliOption::Scalar(F32Field::EmergenceLowBudget))
    } else if flag == "--emergence-mid-budget"@ {
        Some(CliOption::Scalar(F32Field::EmergenceMidBudget))
    } else if flag == "--emergence-start"@ {
        Some(CliOption::Scalar(F32Field::EmergenceStart))
    } else if flag == "--emergence-ramp"@ {
        Some(CliOption::Scalar(F32Field::EmergenceRamp))
    } else if flag == "--grounding-floor"@ {
        Some(CliOption::Scalar(F32Field::GroundingFloor))
    } else if flag == "--emergent-limit"@ {
        Some(CliOption::Scalar(F32Field::EmergentLimit))
    } else if flag == "--local-reference-gain"@ {
        Some(CliOption::Scalar(F32Field::LocalReferenceGain))
    } else if flag == "--loss-composite"@ {
        Some(CliOption::Scalar(F32Field::LossComposite))
    } else if flag == "--loss-ground-coarse"@ {
        Some(CliOption::Scalar(F32Field::LossGroundCoarse))
    } else if flag == "--loss-ground-mid"@ {
        Some(CliOption::Scalar(F32Field::LossGroundMid))
    } else if flag == "--loss-ground-fine"@ {
        Some(CliOption::Scalar(F32Field::LossGroundFine))
    } else if flag == "--loss-emergent-low"@ {
        Some(CliOption::Scalar(F32Field::LossEmergentLow))
    } else if flag == "--loss-emergent-tv"@ {
        Some(CliOption::Scalar(F32Field::LossEmergentTv))
    } else if flag == "--detail-crop-probability"@ {
        Some(CliOption::Scalar(F32Field::DetailCropProbability))
    } else if flag == "--loss-emergent-fit"@ {
        Some(CliOption::Scalar(F32Field::LossEmergentFit))
    } else if flag == "--loss-head-redundancy"@ {
        Some(CliOption::Scalar(F32Field::LossHeadRedundancy))
    } else if flag == "--loss-cross-resolution"@ {
        Some(CliOption::Scalar(F32Field::LossCrossResolution))
    } else if flag == "--detail-resolution"@ {
        Some(CliOption::Size(SizeField::DetailResolution))
    } else if flag == "--detail-min-zoom"@ {
        Some(CliOption::Scalar(F32Field::DetailMinZoom))
    } else if flag == "--detail-max-zoom"@ {
        Some(CliOption::Scalar(F32Field::DetailMaxZoom))
    } else if flag == "--detail-curriculum-start"@ {
        Some(CliOption::Scalar(F32Field::DetailCurriculumStart))
    } else if flag == "--pyramid-cache-max-level"@ {
        Some(CliOption::Size(SizeField::PyramidCacheMaxLevel))
    } else if flag == "--pyramid-cache-dir"@ {
        Some(CliOption::PyramidCacheDir)
    } else if flag == "--target-boundary"@ {
        Some(CliOption::TargetBoundary)
    } else if flag == "--morph-depth-mode"@ {
        Some(CliOption::MorphDepthMode)
    } else if flag == "--morph-min-depth"@ {
        Some(CliOption::Size(SizeField::MorphMinDepth))
    } else if flag == "--morph-max-depth"@ {
        Some(CliOption::Size(SizeField::MorphMaxDepth))
    } else if flag == "--morph-growth-interval"@ {
        Some(CliOption::Size(SizeField::MorphGrowthInterval))
    } else if flag == "--morph-plateau-window"@ {
        Some(CliOption::Size(SizeField::MorphPlateauWindow))
    } else if flag == "--morph-plateau-epsilon"@ {
        Some(CliOption::Scalar(F32Field::MorphPlateauEpsilon))
    } else {
        None
    }
}

#[verifier::opaque]
pub open spec fn cli_option_part1(flag: Seq<char>) -> Option<CliOption> {
    if flag == "--morph-seam-threshold"@ {
        Some(CliOption::Scalar(F32Field::MorphSeamThreshold))
    } else if flag == "--flow-weight"@ {
        Some(CliOption::Scalar(F32Field::FlowWeight))
    } else if flag == "--flow-endpoint-weight"@ {
        Some(CliOption::Scalar(F32Field::FlowEndpointWeight))
    } else if flag == "--flow-min-time"@ {
        Some(CliOption::Scalar(F32Field::FlowMinTime))
    } else if flag == "--flow-max-time"@ {
        Some(CliOption::Scalar(F32Field::FlowMaxTime))
    } else if flag == "--flow-hidden"@ {
        Some(CliOption::Size(SizeField::FlowHidden))
    } else if flag == "--flow-resolution"@ {
        Some(CliOption::Size(SizeField::FlowResolution))
    } else if flag == "--flow-cadence"@ {
        Some(CliOption::Size(SizeField::FlowCadence))
    } else if flag == "--flow-sample-steps"@ {
        Some(CliOption::Size(SizeField::FlowSampleSteps))
    } else if flag == "--terminal"@ {
        Some(CliOption::Terminal)
    } else if flag == "--analysis-only"@ {
        Some(CliOption::Switch(SwitchField::AnalysisOnly))
    } else if flag == "--render-attribution"@ {
        Some(CliOption::Switch(SwitchField::RenderAttribution))
    } else if flag == "--model-stats"@ {
        Some(CliOption::Switch(SwitchField::ModelStats))
    } else if flag == "--benchmark"@ {
        Some(CliOption::Switch(SwitchField::Benchmark))
    } else if flag == "--probe-dir"@ {
        Some(CliOption::ProbeDir)
    } else if flag == "--probe-ages"@ {
        Some(CliOption::ProbeAges)
    } else if flag == "--probe-reference-fidelities"@ {
        Some(CliOption::ProbeReferenceFidelities)
    } else if flag == "--compare-v8-dir"@ {
        Some(CliOption::CompareV8Dir)
    } else if flag == "--autonomous-rollout"@ {
        Some(CliOption::Size(SizeField::AutonomousRollout))
    } else if flag == "--perturbation-analysis"@ {
        Some(CliOption::Size(SizeField::PerturbationAnalysis))
    } else if flag == "--dynamics-ablation"@ {
        Some(CliOption::Size(SizeField::DynamicsAblation))
    } else if flag == "--analysis-stride"@ {
        Some(CliOption::Size(SizeField::AnalysisStride))
    } else if flag == "--no-emergence-gallery"@ {
        Some(CliOption::Switch(SwitchField::NoEmergenceGallery))
    } else if flag == "--steps"@ {
        Some(CliOption::Size(SizeField::Steps))
    } else if flag == "--threads"@ {
        Some(CliOption::Size(SizeField::Threads))
    } else if flag == "-t"@ {
        Some(CliOption::Size(SizeField::Threads))
    } else if flag == "--seed"@ {
        Some(CliOption::Seed(SeedField::Seed))
    } else if flag == "--micro-size"@ {
        Some(CliOption::Size(SizeField::MicroSize))
    } else if flag == "--macro-size"@ {
        Some(CliOption::Size(SizeField::MacroSize))
    } else if flag == "--channels"@ {
        Some(CliOption::Size(SizeField::Channels))
    } else if flag == "--genome-dim"@ {
        Some(CliOption::Size(SizeField::GenomeDim))
    } else if flag == "--ca-hidden"@ {
        Some(CliOption::Size(SizeField::CaHidden))
    } else if flag == "--interface-grid"@ {
        Some(CliOption::Size(SizeField::InterfaceGrid))
    } else if flag == "--interface-width"@ {
        Some(CliOption::Size(SizeField::InterfaceWidth))
    } else if flag == "--interface-loops"@ {
        Some(CliOption::Size(SizeField::InterfaceLoops))
    } else if flag == "--morph-layers"@ {
        Some(CliOption::Size(SizeField::MorphLayers))
    } else if flag == "--morph-depth"@ {
        Some(CliOption::Size(SizeField::MorphDepth))
    } else if flag == "--morph-residual-gain"@ {
        Some(CliOption::Scalar(F32Field::MorphResidualGain))
    } else if flag == "--memory-limit"@ {
        Some(CliOption::Scalar(F32Field::MemoryLimit))
    } else if flag == "--interface-gain"@ {
        Some(CliOption::Scalar(F32Field::InterfaceGain))
    } else {
        None
    }
}

#[verifier::opaque]
pub open spec fn cli_option_part2(flag: Seq<char>) -> Option<CliOption> {
    if flag == "--conditioning"@ {
        Some(CliOption::Conditioning)
    } else if flag == "--reference-fidelity-min"@ {
        Some(CliOption::Scalar(F32Field::ReferenceFidelityMin))
    } else if flag == "--reference-fidelity-max"@ {
        Some(CliOption::Scalar(F32Field::ReferenceFidelityMax))
    } else if flag == "--reference-dropout"@ {
        Some(CliOption::Scalar(F32Field::ReferenceDropout))
    } else if flag == "--render-hidden"@ {
        Some(CliOption::Size(SizeField::RenderHidden))
    } else if flag == "--render-blocks"@ {
        Some(CliOption::Size(SizeField::RenderBlocks))
    } else if flag == "--coord-bands"@ {
        Some(CliOption::Size(SizeField::CoordBands))
    } else if flag == "--coord-gain"@ {
        Some(CliOption::Scalar(F32Field::CoordGain))
    } else if flag == "--state-skip"@ {
        Some(CliOption::Scalar(F32Field::StateSkip))
    } else if flag == "--chroma"@ {
        Some(CliOption::Scalar(F32Field::Chroma))
    } else if flag == "--gamma"@ {
        Some(CliOption::Scalar(F32Field::Gamma))
    } else if flag == "--train-resolution"@ {
        Some(CliOption::Size(SizeField::TrainResolution))
    } else if flag == "--output-resolution"@ {
        Some(CliOption::Size(SizeField::OutputResolution))
    } else if flag == "--snapshot-resolution"@ {
        Some(CliOption::Size(SizeField::SnapshotResolution))
    } else if flag == "--episode-steps"@ {
        Some(CliOption::Size(SizeField::EpisodeSteps))
    } else if flag == "--episode-reset"@ {
        Some(CliOption::Scalar(F32Field::EpisodeReset))
    } else if flag == "--memory-reset"@ {
        Some(CliOption::Scalar(F32Field::MemoryReset))
    } else if flag == "--bptt"@ {
        Some(CliOption::Size(SizeField::Bptt))
    } else if flag == "--core-update-every"@ {
        Some(CliOption::Size(SizeField::CoreUpdateEvery))
    } else if flag == "--macro-update-every"@ {
        Some(CliOption::Size(SizeField::MacroUpdateEvery))
    } else if flag == "--snapshot-every"@ {
        Some(CliOption::Size(SizeField::SnapshotEvery))
    } else if flag == "--checkpoint-every"@ {
        Some(CliOption::Size(SizeField::CheckpointEvery))
    } else if flag == "--log-every"@ {
        Some(CliOption::Size(SizeField::LogEvery))
    } else if flag == "--image-cache"@ {
        Some(CliOption::Size(SizeField::ImageCache))
    } else if flag == "--recursive-corpus"@ {
        Some(CliOption::Switch(SwitchField::RecursiveCorpus))
    } else if flag == "--learning-rate"@ {
        Some(CliOption::Wide(F64Field::LearningRate))
    } else if flag == "--weight-decay"@ {
        Some(CliOption::Wide(F64Field::WeightDecay))
    } else if flag == "--beta1"@ {
        Some(CliOption::Wide(F64Field::Beta1))
    } else if flag == "--beta2"@ {
        Some(CliOption::Wide(F64Field::Beta2))
    } else if flag == "--adam-epsilon"@ {
        Some(CliOption::Wide(F64Field::AdamEpsilon))
    } else if flag == "--grad-clip"@ {
        Some(CliOption::Wide(F64Field::GradClip))
    } else if flag == "--warmup-updates"@ {
        Some(CliOption::Size(SizeField::WarmupUpdates))
    } else if flag == "--optimizer"@ {
        Some(CliOption::Optimizer)
    } else if flag == "--muon-momentum"@ {
        Some(CliOption::Wide(F64Field::MuonMomentum))
    } else if flag == "--muon-ns-steps"@ {
        Some(CliOption::Size(SizeField::MuonNsSteps))
    } else if flag == "--integrator"@ {
        Some(CliOption::Integrator)
    } else if flag == "--dt"@ {
        Some(CliOption::Scalar(F32Field::Dt))
    } else if flag == "--state-limit"@ {
        Some(CliOption::Scalar(F32Field::StateLimit))
    } else if flag == "--state-soft-limit"@ {
        Some(CliOption::Scalar(F32Field::StateSoftLimit))
    } else if flag == "--clock-probability"@ {
        Some(CliOption::Scalar(F32Field::ClockProbability))
    } else {
        None
    }
}

#[verifier::opaque]
pub open spec fn cli_option_part3(flag: Seq<char>) -> Option<CliOption> {
    if flag == "--nca-gain"@ {
        Some(CliOption::Scalar(F32Field::NcaGain))
    } else if flag == "--reaction-gain"@ {
        Some(CliOption::Scalar(F32Field::ReactionGain))
    } else if flag == "--state-leak"@ {
        Some(CliOption::Scalar(F32Field::StateLeak))
    } else if flag == "--phase-gain"@ {
        Some(CliOption::Scalar(F32Field::PhaseGain))
    } else if flag == "--fractal-gain"@ {
        Some(CliOption::Scalar(F32Field::FractalGain))
    } else if flag == "--quasiperiodic-gain"@ {
        Some(CliOption::Scalar(F32Field::QuasiperiodicGain))
    } else if flag == "--cyclic-gain"@ {
        Some(CliOption::Scalar(F32Field::CyclicGain))
    } else if flag == "--rd-diffusion-u"@ {
        Some(CliOption::Scalar(F32Field::RdDiffusionU))
    } else if flag == "--rd-diffusion-v"@ {
        Some(CliOption::Scalar(F32Field::RdDiffusionV))
    } else if flag == "--rd-feed"@ {
        Some(CliOption::Scalar(F32Field::RdFeed))
    } else if flag == "--rd-kill"@ {
        Some(CliOption::Scalar(F32Field::RdKill))
    } else if flag == "--phase-growth"@ {
        Some(CliOption::Scalar(F32Field::PhaseGrowth))
    } else if flag == "--phase-saturation"@ {
        Some(CliOption::Scalar(F32Field::PhaseSaturation))
    } else if flag == "--phase-frequency"@ {
        Some(CliOption::Scalar(F32Field::PhaseFrequency))
    } else if flag == "--phase-diffusion"@ {
        Some(CliOption::Scalar(F32Field::PhaseDiffusion))
    } else if flag == "--phase-dispersion"@ {
        Some(CliOption::Scalar(F32Field::PhaseDispersion))
    } else if flag == "--loss-content"@ {
        Some(CliOption::Scalar(F32Field::LossContent))
    } else if flag == "--loss-palette"@ {
        Some(CliOption::Scalar(F32Field::LossPalette))
    } else if flag == "--loss-structure"@ {
        Some(CliOption::Scalar(F32Field::LossStructure))
    } else if flag == "--loss-seam"@ {
        Some(CliOption::Scalar(F32Field::LossSeam))
    } else if flag == "--loss-gamut"@ {
        Some(CliOption::Scalar(F32Field::LossGamut))
    } else if flag == "--loss-state"@ {
        Some(CliOption::Scalar(F32Field::LossState))
    } else if flag == "--loss-memory"@ {
        Some(CliOption::Scalar(F32Field::LossMemory))
    } else if flag == "--max-saturation-fraction"@ {
        Some(CliOption::Scalar(F32Field::MaxSaturationFraction))
    } else if flag == "--stability-patience"@ {
        Some(CliOption::Size(SizeField::StabilityPatience))
    } else if flag == "--mastering-strength"@ {
        Some(CliOption::Scalar(F32Field::MasteringStrength))
    } else if flag == "--gallery"@ {
        Some(CliOption::Size(SizeField::Gallery))
    } else if flag == "--gallery-steps"@ {
        Some(CliOption::Size(SizeField::GallerySteps))
    } else if flag == "--gallery-stride"@ {
        Some(CliOption::Size(SizeField::GalleryStride))
    } else if flag == "--gallery-seed"@ {
        Some(CliOption::Seed(SeedField::GallerySeed))
    } else if flag == "--fresh"@ {
        Some(CliOption::Switch(SwitchField::Fresh))
    } else if flag == "--render-only"@ {
        Some(CliOption::Switch(SwitchField::RenderOnly))
    } else if flag == "--no-reaction-diffusion"@ {
        Some(CliOption::Disable(F32Field::ReactionGain))
    } else if flag == "--no-complex-phase"@ {
        Some(CliOption::Disable(F32Field::PhaseGain))
    } else if flag == "--no-fractal"@ {
        Some(CliOption::Disable(F32Field::FractalGain))
    } else if flag == "--no-quasiperiodic"@ {
        Some(CliOption::Disable(F32Field::QuasiperiodicGain))
    } else if flag == "--no-cyclic"@ {
        Some(CliOption::Disable(F32Field::CyclicGain))
    } else if flag == "--no-mastering"@ {
        Some(CliOption::Disable(F32Field::MasteringStrength))
    } else if flag == "--no-state-atlas"@ {
        Some(CliOption::Switch(SwitchField::NoStateAtlas))
    } else {
        None
    }
}

/// The option that an argument names, if any.
#[verifier::opaque]
pub open spec fn cli_option(flag: Seq<char>) -> Option<CliOption> {
    if cli_option_part0(flag) is Some {
        cli_option_part0(flag)
    } else if cli_option_part1(flag) is Some {
        cli_option_part1(flag)
    } else if cli_option_part2(flag) is Some {
        cli_option_part2(flag)
    } else if cli_option_part3(flag) is Some {
        cli_option_part3(flag)
    } else {
        None
    }
}

impl RunConfig {
    pub(crate) fn set_size(&mut self, field: SizeField, value: usize)
        ensures
            *final(self) == with_size(*old(self), field, value),
    {
        reveal(with_size);
        match field {
            SizeField::DetailResolution => self.detail.resolution = value,
            SizeField::PyramidCacheMaxLevel => self.detail.cache_max_level = value,
            SizeField::MorphMinDepth => self.morph_growth.min_depth = value,
            SizeField::MorphMaxDepth => self.morph_growth.max_depth = value,
            SizeField::MorphGrowthInterval => self.morph_growth.interval = value,
            SizeField::MorphPlateauWindow => self.morph_growth.plateau_window = value,
            SizeField::FlowHidden => self.flow.hidden = value,
            SizeField::FlowResolution => self.flow.resolution = value,
            SizeField::FlowCadence => self.flow.cadence = value,
            SizeField::FlowSampleSteps => self.flow.sample_steps = value,
            SizeField::AutonomousRollout => self.analysis.autonomous_horizon = value,
            SizeField::PerturbationAnalysis => self.analysis.perturbation_horizon = value,
            SizeField::DynamicsAblation => self.analysis.dynamics_horizon = value,
            SizeField::AnalysisStride => self.analysis.stride = value,
            SizeField::Steps => self.steps = value,
            SizeField::Threads => self.threads = value,
            SizeField::MicroSize => self.micro_size = value,
            SizeField::MacroSize => self.macro_size = value,
            SizeField::Channels => self.channels = value,
            SizeField::GenomeDim => self.genome_dim = value,
            SizeField::CaHidden => self.ca_hidden = value,
            SizeField::InterfaceGrid => self.interface_grid = value,
            SizeField::InterfaceWidth => self.interface_width = value,
            SizeField::InterfaceLoops => self.interface_loops = value,
            SizeField::MorphLayers => self.morph_layers = value,
            SizeField::MorphDepth => self.morph_depth = value,
            SizeField::RenderHidden => self.render_hidden = value,
            SizeField::RenderBlocks => self.render_blocks = value,
            SizeField::CoordBands => self.coord_bands = value,
            SizeField::TrainResolution => self.train_resolution = value,
            SizeField::OutputResolution => self.output_resolution = value,
            SizeField::SnapshotResolution => self.snapshot_resolution = value,
            SizeField::EpisodeSteps => self.episode_steps = value,
            SizeField::Bptt => self.bptt = value,
            SizeField::CoreUpdateEvery => self.core_update_every = value,
            SizeField::MacroUpdateEvery => self.macro_update_every = value,
            SizeField::SnapshotEvery => self.snapshot_every = value,
            SizeField::CheckpointEvery => self.checkpoint_every = value,
            SizeField::LogEvery => self.log_every = value,
            SizeField::ImageCache => self.image_cache = value,
            SizeField::WarmupUpdates => self.warmup_updates = value,
            SizeField::MuonNsSteps => self.muon_ns_steps = value,
            SizeField::StabilityPatience => self.stability_patience = value,
            SizeField::Gallery => self.gallery = value,
            SizeField::GallerySteps => self.gallery_steps = value,
            SizeField::GalleryStride => self.gallery_stride = value,
        }
    }

    pub(crate) fn set_seed(&mut self, field: SeedField, value: u64)
        ensures
            *final(self) == with_seed(*old(self), field, value),
    {
        reveal(with_seed);
        match field {
            SeedField::Seed => self.seed = value,
            SeedField::GallerySeed => self.gallery_seed = value,
        }
    }

    pub(crate) fn set_f32(&mut self, field: F32Field, value: u32)
        ensures
            *final(self) == with_f32(*old(self), field, value),
    {
        reveal(with_f32);
        match field {
            F32Field::GroundingStrength => self.reconstruction.grounding_strength = value,
            F32Field::EmergenceStrength => self.reconstruction.emergence_strength = value,
            F32Field::EmergenceLowBudget => self.reconstruction.emergence_low_budget = value,
            F32Field::EmergenceMidBudget => self.reconstruction.emergence_mid_budget = value,
            F32Field::EmergenceStart => self.reconstruction.emergence_start = value,
            F32Field::EmergenceRamp => self.reconstruction.emergence_ramp = value,
            F32Field::GroundingFloor => self.reconstruction.grounding_floor = value,
            F32Field::EmergentLimit => self.reconstruction.emergent_limit = value,
            F32Field::LocalReferenceGain => self.reconstruction.local_reference_gain = value,
            F32Field::LossComposite => self.reconstruction.loss_composite = value,
            F32Field::LossGroundCoarse => self.reconstruction.loss_ground_coarse = value,
            F32Field::LossGroundMid => self.reconstruction.loss_ground_mid = value,
            F32Field::LossGroundFine => self.reconstruction.loss_ground_fine = value,
            F32Field::LossEmergentLow => self.reconstruction.loss_emergent_low = value,
            F32Field::LossEmergentTv => self.reconstruction.loss_emergent_tv = value,
            F32Field::DetailCropProbability => self.detail.probability = value,
            F32Field::LossEmergentFit => self.reconstruction.loss_emergent_fit = value,
            F32Field::LossHeadRedundancy => self.reconstruction.loss_head_redundancy = value,
            F32Field::LossCrossResolution => self.reconstruction.loss_cross_resolution = value,
            F32Field::DetailMinZoom => self.detail.min_zoom = value,
            F32Field::DetailMaxZoom => self.detail.max_zoom = value,
            F32Field::DetailCurriculumStart => self.detail.curriculum_start = value,
            F32Field::MorphPlateauEpsilon => self.morph_growth.plateau_epsilon = value,
            F32Field::MorphSeamThreshold => self.morph_growth.seam_threshold = value,
            F32Field::FlowWeight => self.flow.weight = value,
            F32Field::FlowEndpointWeight => self.flow.endpoint_weight = value,
            F32Field::FlowMinTime => self.flow.min_time = value,
            F32Field::FlowMaxTime => self.flow.max_time = value,
            F32Field::MorphResidualGain => self.morph_residual_gain = value,
            F32Field::MemoryLimit => self.memory_limit = value,
            F32Field::InterfaceGain => self.interface_gain = value,
            F32Field::ReferenceFidelityMin => self.reference_fidelity_min = value,
            F32Field::ReferenceFidelityMax => self.reference_fidelity_max = value,
            F32Field::ReferenceDropout => self.reference_dropout = value,
            F32Field::CoordGain => self.coord_gain = value,
            F32Field::StateSkip => self.state_skip = value,
            F32Field::Chroma => self.chroma = value,
            F32Field::Gamma => self.gamma = value,
            F32Field::EpisodeReset => self.episode_reset = value,
            F32Field::MemoryReset => self.memory_reset = value,
            F32Field::Dt => self.dt = value,
            F32Field::StateLimit => self.state_limit = value,
            F32Field::StateSoftLimit => self.state_soft_limit = value,
            F32Field::ClockProbability => self.clock_probability = value,
            F32Field::NcaGain => self.nca_gain = value,
            F32Field::ReactionGain => self.reaction_gain = value,
            F32Field::StateLeak => self.state_leak = value,
            F32Field::PhaseGain => self.phase_gain = value,
            F32Field::FractalGain => self.fractal_gain = value,
            F32Field::QuasiperiodicGain => self.quasiperiodic_gain = value,
            F32Field::CyclicGain => self.cyclic_gain = value,
            F32Field::RdDiffusionU => self.rd_diffusion_u = value,
            F32Field::RdDiffusionV => self.rd_diffusion_v = value,
            F32Field::RdFeed => self.rd_feed = value,
            F32Field::RdKill => self.rd_kill = value,
            F32Field::PhaseGrowth => self.phase_growth = value,
            F32Field::PhaseSaturation => self.phase_saturation = value,
            F32Field::PhaseFrequency => self.phase_frequency = value,
            F32Field::PhaseDiffusion => self.phase_diffusion = value,
            F32Field::PhaseDispersion => self.phase_dispersion = value,
            F32Field::LossContent => self.loss_content = value,
            F32Field::LossPalette => self.loss_palette = value,
            F32Field::LossStructure => self.loss_structure = value,
            F32Field::LossSeam => self.loss_seam = value,
            F32Field::LossGamut => self.loss_gamut = value,
            F32Field::LossState => self.loss_state = value,
            F32Field::LossMemory => self.loss_memory = value,
            F32Field::MaxSaturationFraction => self.max_saturation_fraction = value,
            F32Field::MasteringStrength => self.mastering_strength = value,
        }
    }

    pub(crate) fn set_f64(&mut self, field: F64Field, value: u64)
        ensures
            *final(self) == with_f64(*old(self), field, value),
    {
        reveal(with_f64);
        match field {
            F64Field::LearningRate => self.learning_rate = value,
            F64Field::WeightDecay => self.weight_decay = value,
            F64Field::Beta1 => self.beta1 = value,
            F64Field::Beta2 => self.beta2 = value,
            F64Field::AdamEpsilon => self.adam_epsilon = value,
            F64Field::GradClip => self.grad_clip = value,
            F64Field::MuonMomentum => self.muon_momentum = value,
        }
    }

    pub(crate) fn set_switch(&mut self, field: SwitchField)
        ensures
            *final(self) == with_switch(*old(self), field),
    {
        reveal(with_switch);
        match field {
            SwitchField::AnalysisOnly => self.analysis.only = true,
            SwitchField::RenderAttribution => self.analysis.render_attribution = true,
            SwitchField::ModelStats => self.analysis.model_stats = true,
            SwitchField::Benchmark => self.analysis.benchmark = true,
            SwitchField::NoEmergenceGallery => self.analysis.emergence_gallery = false,
            SwitchField::RecursiveCorpus => self.recursive_corpus = true,
            SwitchField::Fresh => self.fresh = true,
            SwitchField::RenderOnly => self.render_only = true,
            SwitchField::NoStateAtlas => self.save_state_atlas = false,
        }
    }
}

fn lookup_part0(flag: &str) -> (r: Option<CliOption>)
    ensures
        r == cli_option_part0(flag@),
{
    reveal(cli_option_part0);
    if str_eq(flag, "--corpus-dir") {
        Some(CliOption::CorpusDir)
    } else if str_eq(flag, "--output-dir") {
        Some(CliOption::OutputDir)
    } else if str_eq(flag, "--run-tag") {
        Some(CliOption::RunTag)
    } else if str_eq(flag, "--mode") {
        Some(CliOption::Mode)
    } else if str_eq(flag, "--profile") {
        Some(CliOption::Profile)
    } else if str_eq(flag, "--style") {
        Some(CliOption::Style)
    } else if str_eq(flag, "--research-preset") {
        Some(CliOption::ResearchPreset)
    } else if str_eq(flag, "--objective") {
        Some(CliOption::Objective)
    } else if str_eq(flag, "--grounding-strength") {
        Some(CliOption::Scalar(F32Field::GroundingStrength))
    } else if str_eq(flag, "--emergence-strength") {
        Some(CliOption::Scalar(F32Field::EmergenceStrength))
    } else if str_eq(flag, "--emergence-low-budget") {
        Some(CliOption::Scalar(F32Field::EmergenceLowBudget))
    } else if str_eq(flag, "--emergence-mid-budget") {
        Some(CliOption::Scalar(F32Field::EmergenceMidBudget))
    } else if str_eq(flag, "--emergence-start") {
        Some(CliOption::Scalar(F32Field::EmergenceStart))
    } else if str_eq(flag, "--emergence-ramp") {
        Some(CliOption::Scalar(F32Field::EmergenceRamp))
    } else if str_eq(flag, "--grounding-floor") {
        Some(CliOption::Scalar(F32Field::GroundingFloor))
    } else if str_eq(flag, "--emergent-limit") {
        Some(CliOption::Scalar(F32Field::EmergentLimit))
    } else if str_eq(flag, "--local-reference-gain") {
        Some(CliOption::Scalar(F32Field::LocalReferenceGain))
    } else if str_eq(flag, "--loss-composite") {
        Some(CliOption::Scalar(F32Field::LossComposite))
    } else if str_eq(flag, "--loss-ground-coarse") {
        Some(CliOption::Scalar(F32Field::LossGroundCoarse))
    } else if str_eq(flag, "--loss-ground-mid") {
        Some(CliOption::Scalar(F32Field::LossGroundMid))
    } else if str_eq(flag, "--loss-ground-fine") {
        Some(CliOption::Scalar(F32Field::LossGroundFine))
    } else if str_eq(flag, "--loss-emergent-low") {
        Some(CliOption::Scalar(F32Field::LossEmergentLow))
    } else if str_eq(flag, "--loss-emergent-tv") {
        Some(CliOption::Scalar(F32Field::LossEmergentTv))
    } else if str_eq(flag, "--detail-crop-probability") {
        Some(CliOption::Scalar(F32Field::DetailCropProbability))
    } else if str_eq(flag, "--loss-emergent-fit") {
        Some(CliOption::Scalar(F32Field::LossEmergentFit))
    } else if str_eq(flag, "--loss-head-redundancy") {
        Some(CliOption::Scalar(F32Field::LossHeadRedundancy))
    } else if str_eq(flag, "--loss-cross-resolution") {
        Some(CliOption::Scalar(F32Field::LossCrossResolution))
    } else if str_eq(flag, "--detail-resolution") {
        Some(CliOption::Size(SizeField::DetailResolution))
    } else if str_eq(flag, "--detail-min-zoom") {
        Some(CliOption::Scalar(F32Field::DetailMinZoom))
    } else if str_eq(flag, "--detail-max-zoom") {
        Some(CliOption::Scalar(F32Field::DetailMaxZoom))
    } else if str_eq(flag, "--detail-curriculum-start") {
        Some(CliOption::Scalar(F32Field::DetailCurriculumStart))
    } else if str_eq(flag, "--pyramid-cache-max-level") {
        Some(CliOption::Size(SizeField::PyramidCacheMaxLevel))
    } else if str_eq(flag, "--pyramid-cache-dir") {
        Some(CliOption::PyramidCacheDir)
    } else if str_eq(flag, "--target-boundary") {
        Some(CliOption::TargetBoundary)
    } else if str_eq(flag, "--morph-depth-mode") {
        Some(CliOption::MorphDepthMode)
    } else if str_eq(flag, "--morph-min-depth") {
        Some(CliOption::Size(SizeField::MorphMinDepth))
    } else if str_eq(flag, "--morph-max-depth") {
        Some(CliOption::Size(SizeField::MorphMaxDepth))
    } else if str_eq(flag, "--morph-growth-interval") {
        Some(CliOption::Size(SizeField::MorphGrowthInterval))
    } else if str_eq(flag, "--morph-plateau-window") {
        Some(CliOption::Size(SizeField::MorphPlateauWindow))
    } else if str_eq(flag, "--morph-plateau-epsilon") {
        Some(CliOption::Scalar(F32Field::MorphPlateauEpsilon))
    } else {
        None
    }
}

fn lookup_part1(flag: &str) -> (r: Option<CliOption>)
    ensures
        r == cli_option_part1(flag@),
{
    reveal(cli_option_part1);
    if str_eq(flag, "--morph-seam-threshold") {
        Some(CliOption::Scalar(F32Field::MorphSeamThreshold))
    } else if str_eq(flag, "--flow-weight") {
        Some(CliOption::Scalar(F32Field::FlowWeight))
    } else if str_eq(flag, "--flow-endpoint-weight") {
        Some(CliOption::Scalar(F32Field::FlowEndpointWeight))
    } else if str_eq(flag, "--flow-min-time") {
        Some(CliOption::Scalar(F32Field::FlowMinTime))
    } else if str_eq(flag, "--flow-max-time") {
        Some(CliOption::Scalar(F32Field::FlowMaxTime))
    } else if str_eq(flag, "--flow-hidden") {
        Some(CliOption::Size(SizeField::FlowHidden))
    } else if str_eq(flag, "--flow-resolution") {
        Some(CliOption::Size(SizeField::FlowResolution))
    } else if str_eq(flag, "--flow-cadence") {
        Some(CliOption::Size(SizeField::FlowCadence))
    } else if str_eq(flag, "--flow-sample-steps") {
        Some(CliOption::Size(SizeField::FlowSampleSteps))
    } else if str_eq(flag, "--terminal") {
        Some(CliOption::Terminal)
    } else if str_eq(flag, "--analysis-only") {
        Some(CliOption::Switch(SwitchField::AnalysisOnly))
    } else if str_eq(flag, "--render-attribution") {
        Some(CliOption::Switch(SwitchField::RenderAttribution))
    } else if str_eq(flag, "--model-stats") {
        Some(CliOption::Switch(SwitchField::ModelStats))
    } else if str_eq(flag, "--benchmark") {
        Some(CliOption::Switch(SwitchField::Benchmark))
    } else if str_eq(flag, "--probe-dir") {
        Some(CliOption::ProbeDir)
    } else if str_eq(flag, "--probe-ages") {
        Some(CliOption::ProbeAges)
    } else if str_eq(flag, "--probe-reference-fidelities") {
        Some(CliOption::ProbeReferenceFidelities)
    } else if str_eq(flag, "--compare-v8-dir") {
        Some(CliOption::CompareV8Dir)
    } else if str_eq(flag, "--autonomous-rollout") {
        Some(CliOption::Size(SizeField::AutonomousRollout))
    } else if str_eq(flag, "--perturbation-analysis") {
        Some(CliOption::Size(SizeField::PerturbationAnalysis))
    } else if str_eq(flag, "--dynamics-ablation") {
        Some(CliOption::Size(SizeField::DynamicsAblation))
    } else if str_eq(flag, "--analysis-stride") {
        Some(CliOption::Size(SizeField::AnalysisStride))
    } else if str_eq(flag, "--no-emergence-gallery") {
        Some(CliOption::Switch(SwitchField::NoEmergenceGallery))
    } else if str_eq(flag, "--steps") {
        Some(CliOption::Size(SizeField::Steps))
    } else if str_eq(flag, "--threads") {
        Some(CliOption::Size(SizeField::Threads))
    } else if str_eq(flag, "-t") {
        Some(CliOption::Size(SizeField::Threads))
    } else if str_eq(flag, "--seed") {
        Some(CliOption::Seed(SeedField::Seed))
    } else if str_eq(flag, "--micro-size") {
        Some(CliOption::Size(SizeField::MicroSize))
    } else if str_eq(flag, "--macro-size") {
        Some(CliOption::Size(SizeField::MacroSize))
    } else if str_eq(flag, "--channels") {
        Some(CliOption::Size(SizeField::Channels))
    } else if str_eq(flag, "--genome-dim") {
        Some(CliOption::Size(SizeField::GenomeDim))
    } else if str_eq(flag, "--ca-hidden") {
        Some(CliOption::Size(SizeField::CaHidden))
    } else if str_eq(flag, "--interface-grid") {
        Some(CliOption::Size(SizeField::InterfaceGrid))
    } else if str_eq(flag, "--interface-width") {
        Some(CliOption::Size(SizeField::InterfaceWidth))
    } else if str_eq(flag, "--interface-loops") {
        Some(CliOption::Size(SizeField::InterfaceLoops))
    } else if str_eq(flag, "--morph-layers") {
        Some(CliOption::Size(SizeField::MorphLayers))
    } else if str_eq(flag, "--morph-depth") {
        Some(CliOption::Size(SizeField::MorphDepth))
    } else if str_eq(flag, "--morph-residual-gain") {
        Some(CliOption::Scalar(F32Field::MorphResidualGain))
    } else if str_eq(flag, "--memory-limit") {
        Some(CliOption::Scalar(F32Field::MemoryLimit))
    } else if str_eq(flag, "--interface-gain") {
        Some(CliOption::Scalar(F32Field::InterfaceGain))
    } else {
        None
    }
}

fn lookup_part2(flag: &str) -> (r: Option<CliOption>)
    ensures
        r == cli_option_part2(flag@),
{
    reveal(cli_option_part2);
    if str_eq(flag, "--conditioning") {
        Some(CliOption::Conditioning)
    } else if str_eq(flag, "--reference-fidelity-min") {
        Some(CliOption::Scalar(F32Field::ReferenceFidelityMin))
    } else if str_eq(flag, "--reference-fidelity-max") {
        Some(CliOption::Scalar(F32Field::ReferenceFidelityMax))
    } else if str_eq(flag, "--reference-dropout") {
        Some(CliOption::Scalar(F32Field::ReferenceDropout))
    } else if str_eq(flag, "--render-hidden") {
        Some(CliOption::Size(SizeField::RenderHidden))
    } else if str_eq(flag, "--render-blocks") {
        Some(CliOption::Size(SizeField::RenderBlocks))
    } else if str_eq(flag, "--coord-bands") {
        Some(CliOption::Size(SizeField::CoordBands))
    } else if str_eq(flag, "--coord-gain") {
        Some(CliOption::Scalar(F32Field::CoordGain))
    } else if str_eq(flag, "--state-skip") {
        Some(CliOption::Scalar(F32Field::StateSkip))
    } else if str_eq(flag, "--chroma") {
        Some(CliOption::Scalar(F32Field::Chroma))
    } else if str_eq(flag, "--gamma") {
        Some(CliOption::Scalar(F32Field::Gamma))
    } else if str_eq(flag, "--train-resolution") {
        Some(CliOption::Size(SizeField::TrainResolution))
    } else if str_eq(flag, "--output-resolution") {
        Some(CliOption::Size(SizeField::OutputResolution))
    } else if str_eq(flag, "--snapshot-resolution") {
        Some(CliOption::Size(SizeField::SnapshotResolution))
    } else if str_eq(flag, "--episode-steps") {
        Some(CliOption::Size(SizeField::EpisodeSteps))
    } else if str_eq(flag, "--episode-reset") {
        Some(CliOption::Scalar(F32Field::EpisodeReset))
    } else if str_eq(flag, "--memory-reset") {
        Some(CliOption::Scalar(F32Field::MemoryReset))
    } else if str_eq(flag, "--bptt") {
        Some(CliOption::Size(SizeField::Bptt))
    } else if str_eq(flag, "--core-update-every") {
        Some(CliOption::Size(SizeField::CoreUpdateEvery))
    } else if str_eq(flag, "--macro-update-every") {
        Some(CliOption::Size(SizeField::MacroUpdateEvery))
    } else if str_eq(flag, "--snapshot-every") {
        Some(CliOption::Size(SizeField::SnapshotEvery))
    } else if str_eq(flag, "--checkpoint-every") {
        Some(CliOption::Size(SizeField::CheckpointEvery))
    } else if str_eq(flag, "--log-every") {
        Some(CliOption::Size(SizeField::LogEvery))
    } else if str_eq(flag, "--image-cache") {
        Some(CliOption::Size(SizeField::ImageCache))
    } else if str_eq(flag, "--recursive-corpus") {
        Some(CliOption::Switch(SwitchField::RecursiveCorpus))
    } else if str_eq(flag, "--learning-rate") {
        Some(CliOption::Wide(F64Field::LearningRate))
    } else if str_eq(flag, "--weight-decay") {
        Some(CliOption::Wide(F64Field::WeightDecay))
    } else if str_eq(flag, "--beta1") {
        Some(CliOption::Wide(F64Field::Beta1))
    } else if str_eq(flag, "--beta2") {
        Some(CliOption::Wide(F64Field::Beta2))
    } else if str_eq(flag, "--adam-epsilon") {
        Some(CliOption::Wide(F64Field::AdamEpsilon))
    } else if str_eq(flag, "--grad-clip") {
        Some(CliOption::Wide(F64Field::GradClip))
    } else if str_eq(flag, "--warmup-updates") {
        Some(CliOption::Size(SizeField::WarmupUpdates))
    } else if str_eq(flag, "--optimizer") {
        Some(CliOption::Optimizer)
    } else if str_eq(flag, "--muon-momentum") {
        Some(CliOption::Wide(F64Field::MuonMomentum))
    } else if str_eq(flag, "--muon-ns-steps") {
        Some(CliOption::Size(SizeField::MuonNsSteps))
    } else if str_eq(flag, "--integrator") {
        Some(CliOption::Integrator)
    } else if str_eq(flag, "--dt") {
        Some(CliOption::Scalar(F32Field::Dt))
    } else if str_eq(flag, "--state-limit") {
        Some(CliOption::Scalar(F32Field::StateLimit))
    } else if str_eq(flag, "--state-soft-limit") {
        Some(CliOption::Scalar(F32Field::StateSoftLimit))
    } else if str_eq(flag, "--clock-probability") {
        Some(CliOption::Scalar(F32Field::ClockProbability))
    } else {
        None
    }
}

fn lookup_part3(flag: &str) -> (r: Option<CliOption>)
    ensures
        r == cli_option_part3(flag@),
{
    reveal(cli_option_part3);
    if str_eq(flag, "--nca-gain") {
        Some(CliOption::Scalar(F32Field::NcaGain))
    } else if str_eq(flag, "--reaction-gain") {
        Some(CliOption::Scalar(F32Field::ReactionGain))
    } else if str_eq(flag, "--state-leak") {
        Some(CliOption::Scalar(F32Field::StateLeak))
    } else if str_eq(flag, "--phase-gain") {
        Some(CliOption::Scalar(F32Field::PhaseGain))
    } else if str_eq(flag, "--fractal-gain") {
        Some(CliOption::Scalar(F32Field::FractalGain))
    } else if str_eq(flag, "--quasiperiodic-gain") {
        Some(CliOption::Scalar(F32Field::QuasiperiodicGain))
    } else if str_eq(flag, "--cyclic-gain") {
        Some(CliOption::Scalar(F32Field::CyclicGain))
    } else if str_eq(flag, "--rd-diffusion-u") {
        Some(CliOption::Scalar(F32Field::RdDiffusionU))
    } else if str_eq(flag, "--rd-diffusion-v") {
        Some(CliOption::Scalar(F32Field::RdDiffusionV))
    } else if str_eq(flag, "--rd-feed") {
        Some(CliOption::Scalar(F32Field::RdFeed))
    } else if str_eq(flag, "--rd-kill") {
        Some(CliOption::Scalar(F32Field::RdKill))
    } else if str_eq(flag, "--phase-growth") {
        Some(CliOption::Scalar(F32Field::PhaseGrowth))
    } else if str_eq(flag, "--phase-saturation") {
        Some(CliOption::Scalar(F32Field::PhaseSaturation))
    } else if str_eq(flag, "--phase-frequency") {
        Some(CliOption::Scalar(F32Field::PhaseFrequency))
    } else if str_eq(flag, "--phase-diffusion") {
        Some(CliOption::Scalar(F32Field::PhaseDiffusion))
    } else if str_eq(flag, "--phase-dispersion") {
        Some(CliOption::Scalar(F32Field::PhaseDispersion))
    } else if str_eq(flag, "--loss-content") {
        Some(CliOption::Scalar(F32Field::LossContent))
    } else if str_eq(flag, "--loss-palette") {
        Some(CliOption::Scalar(F32Field::LossPalette))
    } else if str_eq(flag, "--loss-structure") {
        Some(CliOption::Scalar(F32Field::LossStructure))
    } else if str_eq(flag, "--loss-seam") {
        Some(CliOption::Scalar(F32Field::LossSeam))
    } else if str_eq(flag, "--loss-gamut") {
        Some(CliOption::Scalar(F32Field::LossGamut))
    } else if str_eq(flag, "--loss-state") {
        Some(CliOption::Scalar(F32Field::LossState))
    } else if str_eq(flag, "--loss-memory") {
        Some(CliOption::Scalar(F32Field::LossMemory))
    } else if str_eq(flag, "--max-saturation-fraction") {
        Some(CliOption::Scalar(F32Field::MaxSaturationFraction))
    } else if str_eq(flag, "--stability-patience") {
        Some(CliOption::Size(SizeField::StabilityPatience))
    } else if str_eq(flag, "--mastering-strength") {
        Some(CliOption::Scalar(F32Field::MasteringStrength))
    } else if str_eq(flag, "--gallery") {
        Some(CliOption::Size(SizeField::Gallery))
    } else if str_eq(flag, "--gallery-steps") {
        Some(CliOption::Size(SizeField::GallerySteps))
    } else if str_eq(flag, "--gallery-stride") {
        Some(CliOption::Size(SizeField::GalleryStride))
    } else if str_eq(flag, "--gallery-seed") {
        Some(CliOption::Seed(SeedField::GallerySeed))
    } else if str_eq(flag, "--fresh") {
        Some(CliOption::Switch(SwitchField::Fresh))
    } else if str_eq(flag, "--render-only") {
        Some(CliOption::Switch(SwitchField::RenderOnly))
    } else if str_eq(flag, "--no-reaction-diffusion") {
        Some(CliOption::Disable(F32Field::ReactionGain))
    } else if str_eq(flag, "--no-complex-phase") {
        Some(CliOption::Disable(F32Field::PhaseGain))
    } else if str_eq(flag, "--no-fractal") {
        Some(CliOption::Disable(F32Field::FractalGain))
    } else if str_eq(flag, "--no-quasiperiodic") {
        Some(CliOption::Disable(F32Field::QuasiperiodicGain))
    } else if str_eq(flag, "--no-cyclic") {
        Some(CliOption::Disable(F32Field::CyclicGain))
    } else if str_eq(flag, "--no-mastering") {
        Some(CliOption::Disable(F32Field::MasteringStrength))
    } else if str_eq(flag, "--no-state-atlas") {
        Some(CliOption::Switch(SwitchField::NoStateAtlas))
    } else {
        None
    }
}

/// Looks up the option that `flag` names.
pub fn lookup_option(flag: &str) -> (r: Option<CliOption>)
    ensures
        r == cli_option(flag@),
{
    reveal(cli_option);
    let found = lookup_part0(flag);
    if found.is_some() {
        return found;
    }
    let found = lookup_part1(flag);
    if found.is_some() {
        return found;
    }
    let found = lookup_part2(flag);
    if found.is_some() {
        return found;
    }
    let found = lookup_part3(flag);
    if found.is_some() {
        return found;
    }
    None
}

/// Each size option stores its value into the setting it names and
/// leaves every other setting as it was.
pub proof fn lemma_size_options_store_their_setting_0(c: RunConfig, v: usize)
    ensures
        with_size(c, SizeField::DetailResolution, v) == (RunConfig { detail: DetailConfig { resolution: v, ..c.detail }, ..c }),
        with_size(c, SizeField::PyramidCacheMaxLevel, v) == (RunConfig { detail: DetailConfig { cache_max_level: v, ..c.detail }, ..c }),
        with_size(c, SizeField::MorphMinDepth, v) == (RunConfig { morph_growth: MorphGrowthConfig { min_depth: v, ..c.morph_growth }, ..c }),
        with_size(c, SizeField::MorphMaxDepth, v) == (RunConfig { morph_growth: MorphGrowthConfig { max_depth: v, ..c.morph_growth }, ..c }),
        with_size(c, SizeField::MorphGrowthInterval, v) == (RunConfig { morph_growth: MorphGrowthConfig { interval: v, ..c.morph_growth }, ..c }),
        with_size(c, SizeField::MorphPlateauWindow, v) == (RunConfig { morph_growth: MorphGrowthConfig { plateau_window: v, ..c.morph_growth }, ..c }),
        with_size(c, SizeField::FlowHidden, v) == (RunConfig { flow: FlowConfig { hidden: v, ..c.flow }, ..c }),
        with_size(c, SizeField::FlowResolution, v) == (RunConfig { flow: FlowConfig { resolution: v, ..c.flow }, ..c }),
        with_size(c, SizeField::FlowCadence, v) == (RunConfig { flow: FlowConfig { cadence: v, ..c.flow }, ..c }),
        with_size(c, SizeField::FlowSampleSteps, v) == (RunConfig { flow: FlowConfig { sample_steps: v, ..c.flow }, ..c }),
        with_size(c, SizeField::AutonomousRollout, v) == (RunConfig { analysis: AnalysisConfig { autonomous_horizon: v, ..c.analysis }, ..c }),
        with_size(c, SizeField::PerturbationAnalysis, v) == (RunConfig { analysis: AnalysisConfig { perturbation_horizon: v, ..c.analysis }, ..c }),
{
    reveal(with_size);
}

/// Each size option stores its value into the setting it names and
/// leaves every other setting as it was.
pub proof fn lemma_size_options_store_their_setting_1(c: RunConfig, v: usize)
    ensures
        with_size(c, SizeField::DynamicsAblation, v) == (RunConfig { analysis: AnalysisConfig { dynamics_horizon: v, ..c.analysis }, ..c }),
        with_size(c, SizeField::AnalysisStride, v) == (RunConfig { analysis: AnalysisConfig { stride: v, ..c.analysis }, ..c }),
        with_size(c, SizeField::Steps, v) == (RunConfig { steps: v, ..c }),
        with_size(c, SizeField::Threads, v) == (RunConfig { threads: v, ..c }),
        with_size(c, SizeField::MicroSize, v) == (RunConfig { micro_size: v, ..c }),
        with_size(c, SizeField::MacroSize, v) == (RunConfig { macro_size: v, ..c }),
        with_size(c, SizeField::Channels, v) == (RunConfig { channels: v, ..c }),
        with_size(c, SizeField::GenomeDim, v) == (RunConfig { genome_dim: v, ..c }),
        with_size(c, SizeField::CaHidden, v) == (RunConfig { ca_hidden: v, ..c }),
        with_size(c, SizeField::InterfaceGrid, v) == (RunConfig { interface_grid: v, ..c }),
        with_size(c, SizeField::InterfaceWidth, v) == (RunConfig { interface_width: v, ..c }),
        with_size(c, SizeField::InterfaceLoops, v) == (RunConfig { interface_loops: v, ..c }),
{
    reveal(with_size);
}

/// Each size option stores its value into the setting it names and
/// leaves every other setting as it was.
pub proof fn lemma_size_options_store_their_setting_2(c: RunConfig, v: usize)
    ensures
        with_size(c, SizeField::MorphLayers, v) == (RunConfig { morph_layers: v, ..c }),
        with_size(c, SizeField::MorphDepth, v) == (RunConfig { morph_depth: v, ..c }),
        with_size(c, SizeField::RenderHidden, v) == (RunConfig { render_hidden: v, ..c }),
        with_size(c, SizeField::RenderBlocks, v) == (RunConfig { render_blocks: v, ..c }),
        with_size(c, SizeField::CoordBands, v) == (RunConfig { coord_bands: v, ..c }),
        with_size(c, SizeField::TrainResolution, v) == (RunConfig { train_resolution: v, ..c }),
        with_size(c, SizeField::OutputResolution, v) == (RunConfig { output_resolution: v, ..c }),
        with_size(c, SizeField::SnapshotResolution, v) == (RunConfig { snapshot_resolution: v, ..c }),
        with_size(c, SizeField::EpisodeSteps, v) == (RunConfig { episode_steps: v, ..c }),
        with_size(c, SizeField::Bptt, v) == (RunConfig { bptt: v, ..c }),
        with_size(c, SizeField::CoreUpdateEvery, v) == (RunConfig { core_update_every: v, ..c }),
        with_size(c, SizeField::MacroUpdateEvery, v) == (RunConfig { macro_update_every: v, ..c }),
{
    reveal(with_size);
}

/// Each size option stores its value into the setting it names and
/// leaves every other setting as it was.
pub proof fn lemma_size_options_store_their_setting_3(c: RunConfig, v: usize)
    ensures
        with_size(c, SizeField::SnapshotEvery, v) == (RunConfig { snapshot_every: v, ..c }),
        with_size(c, SizeField::CheckpointEvery, v) == (RunConfig { checkpoint_every: v, ..c }),
        with_size(c, SizeField::LogEvery, v) == (RunConfig { log_every: v, ..c }),
        with_size(c, SizeField::ImageCache, v) == (RunConfig { image_cache: v, ..c }),
        with_size(c, SizeField::WarmupUpdates, v) == (RunConfig { warmup_updates: v, ..c }),
        with_size(c, SizeField::MuonNsSteps, v) == (RunConfig { muon_ns_steps: v, ..c }),
        with_size(c, SizeField::StabilityPatience, v) == (RunConfig { stability_patience: v, ..c }),
        with_size(c, SizeField::Gallery, v) == (RunConfig { gallery: v, ..c }),
        with_size(c, SizeField::GallerySteps, v) == (RunConfig { gallery_steps: v, ..c }),
        with_size(c, SizeField::GalleryStride, v) == (RunConfig { gallery_stride: v, ..c }),
{
    reveal(with_size);
}

/// Each seed option stores its value into the setting it names and
/// leaves every other setting as it was.
pub proof fn lemma_seed_options_store_their_setting_0(c: RunConfig, v: u64)
    ensures
        with_seed(c, SeedField::Seed, v) == (RunConfig { seed: v, ..c }),
        with_seed(c, SeedField::GallerySeed, v) == (RunConfig { gallery_seed: v, ..c }),
{
    reveal(with_seed);
}

/// Each binary32 option stores its value into the setting it names and
/// leaves every other setting as it was.
pub proof fn lemma_binary32_options_store_their_setting_0(c: RunConfig, v: u32)
    ensures
        with_f32(c, F32Field::GroundingStrength, v) == (RunConfig { reconstruction: ReconstructionConfig { grounding_strength: v, ..c.reconstruction }, ..c }),
        with_f32(c, F32Field::EmergenceStrength, v) == (RunConfig { reconstruction: ReconstructionConfig { emergence_strength: v, ..c.reconstruction }, ..c }),
        with_f32(c, F32Field::EmergenceLowBudget, v) == (RunConfig { reconstruction: ReconstructionConfig { emergence_low_budget: v, ..c.reconstruction }, ..c }),
        with_f32(c, F32Field::EmergenceMidBudget, v) == (RunConfig { reconstruction: ReconstructionConfig { emergence_mid_budget: v, ..c.reconstruction }, ..c }),
        with_f32(c, F32Field::EmergenceStart, v) == (RunConfig { reconstruction: ReconstructionConfig { emergence_start: v, ..c.reconstruction }, ..c }),
        with_f32(c, F32Field::EmergenceRamp, v) == (RunConfig { reconstruction: ReconstructionConfig { emergence_ramp: v, ..c.reconstruction }, ..c }),
        with_f32(c, F32Field::GroundingFloor, v) == (RunConfig { reconstruction: ReconstructionConfig { grounding_floor: v, ..c.reconstruction }, ..c }),
        with_f32(c, F32Field::EmergentLimit, v) == (RunConfig { reconstruction: ReconstructionConfig { emergent_limit: v, ..c.reconstruction }, ..c }),
        with_f32(c, F32Field::LocalReferenceGain, v) == (RunConfig { reconstruction: ReconstructionConfig { local_reference_gain: v, ..c.reconstruction }, ..c }),
        with_f32(c, F32Field::LossComposite, v) == (RunConfig { reconstruction: ReconstructionConfig { loss_composite: v, ..c.reconstruction }, ..c }),
        with_f32(c, F32Field::LossGroundCoarse, v) == (RunConfig { reconstruction: ReconstructionConfig { loss_ground_coarse: v, ..c.reconstruction }, ..c }),
        with_f32(c, F32Field::LossGroundMid, v) == (RunConfig { reconstruction: ReconstructionConfig { loss_ground_mid: v, ..c.reconstruction }, ..c }),
{
    reveal(with_f32);
}

/// Each binary32 option stores its value into the setting it names and
/// leaves every other setting as it was.
pub proof fn lemma_binary32_options_store_their_setting_1(c: RunConfig, v: u32)
    ensures
        with_f32(c, F32Field::LossGroundFine, v) == (RunConfig { reconstruction: ReconstructionConfig { loss_ground_fine: v, ..c.reconstruction }, ..c }),
        with_f32(c, F32Field::LossEmergentLow, v) == (RunConfig { reconstruction: ReconstructionConfig { loss_emergent_low: v, ..c.reconstruction }, ..c }),
        with_f32(c, F32Field::LossEmergentTv, v) == (RunConfig { reconstruction: ReconstructionConfig { loss_emergent_tv: v, ..c.reconstruction }, ..c }),
        with_f32(c, F32Field::DetailCropProbability, v) == (RunConfig { detail: DetailConfig { probability: v, ..c.detail }, ..c }),
        with_f32(c, F32Field::LossEmergentFit, v) == (RunConfig { reconstruction: ReconstructionConfig { loss_emergent_fit: v, ..c.reconstruction }, ..c }),
        with_f32(c, F32Field::LossHeadRedundancy, v) == (RunConfig { reconstruction: ReconstructionConfig { loss_head_redundancy: v, ..c.reconstruction }, ..c }),
        with_f32(c, F32Field::LossCrossResolution, v) == (RunConfig { reconstruction: ReconstructionConfig { loss_cross_resolution: v, ..c.reconstruction }, ..c }),
        with_f32(c, F32Field::DetailMinZoom, v) == (RunConfig { detail: DetailConfig { min_zoom: v, ..c.detail }, ..c }),
        with_f32(c, F32Field::DetailMaxZoom, v) == (RunConfig { detail: DetailConfig { max_zoom: v, ..c.detail }, ..c }),
        with_f32(c, F32Field::DetailCurriculumStart, v) == (RunConfig { detail: DetailConfig { curriculum_start: v, ..c.detail }, ..c }),
        with_f32(c, F32Field::MorphPlateauEpsilon, v) == (RunConfig { morph_growth: MorphGrowthConfig { plateau_epsilon: v, ..c.morph_growth }, ..c }),
        with_f32(c, F32Field::MorphSeamThreshold, v) == (RunConfig { morph_growth: MorphGrowthConfig { seam_threshold: v, ..c.morph_growth }, ..c }),
{
    reveal(with_f32);
}

/// Each binary32 option stores its value into the setting it names and
/// leaves every other setting as it was.
pub proof fn lemma_binary32_options_store_their_setting_2(c: RunConfig, v: u32)
    ensures
        with_f32(c, F32Field::FlowWeight, v) == (RunConfig { flow: FlowConfig { weight: v, ..c.flow }, ..c }),
        with_f32(c, F32Field::FlowEndpointWeight, v) == (RunConfig { flow: FlowConfig { endpoint_weight: v, ..c.flow }, ..c }),
        with_f32(c, F32Field::FlowMinTime, v) == (RunConfig { flow: FlowConfig { min_time: v, ..c.flow }, ..c }),
        with_f32(c, F32Field::FlowMaxTime, v) == (RunConfig { flow: FlowConfig { max_time: v, ..c.flow }, ..c }),
        with_f32(c, F32Field::MorphResidualGain, v) == (RunConfig { morph_residual_gain: v, ..c }),
        with_f32(c, F32Field::MemoryLimit, v) == (RunConfig { memory_limit: v, ..c }),
        with_f32(c, F32Field::InterfaceGain, v) == (RunConfig { interface_gain: v, ..c }),
        with_f32(c, F32Field::ReferenceFidelityMin, v) == (RunConfig { reference_fidelity_min: v, ..c }),
        with_f32(c, F32Field::ReferenceFidelityMax, v) == (RunConfig { reference_fidelity_max: v, ..c }),
        with_f32(c, F32Field::ReferenceDropout, v) == (RunConfig { reference_dropout: v, ..c }),
        with_f32(c, F32Field::CoordGain, v) == (RunConfig { coord_gain: v, ..c }),
        with_f32(c, F32Field::StateSkip, v) == (RunConfig { state_skip: v, ..c }),
{
    reveal(with_f32);
}

/// Each binary32 option stores its value into the setting it names and
/// leaves every other setting as it was.
pub proof fn lemma_binary32_options_store_their_setting_3(c: RunConfig, v: u32)
    ensures
        with_f32(c, F32Field::Chroma, v) == (RunConfig { chroma: v, ..c }),
        with_f32(c, F32Field::Gamma, v) == (RunConfig { gamma: v, ..c }),
        with_f32(c, F32Field::EpisodeReset, v) == (RunConfig { episode_reset: v, ..c }),
        with_f32(c, F32Field::MemoryReset, v) == (RunConfig { memory_reset: v, ..c }),
        with_f32(c, F32Field::Dt, v) == (RunConfig { dt: v, ..c }),
        with_f32(c, F32Field::StateLimit, v) == (RunConfig { state_limit: v, ..c }),
        with_f32(c, F32Field::StateSoftLimit, v) == (RunConfig { state_soft_limit: v, ..c }),
        with_f32(c, F32Field::ClockProbability, v) == (RunConfig { clock_probability: v, ..c }),
        with_f32(c, F32Field::NcaGain, v) == (RunConfig { nca_gain: v, ..c }),
        with_f32(c, F32Field::ReactionGain, v) == (RunConfig { reaction_gain: v, ..c }),
        with_f32(c, F32Field::StateLeak, v) == (RunConfig { state_leak: v, ..c }),
        with_f32(c, F32Field::PhaseGain, v) == (RunConfig { phase_gain: v, ..c }),
{
    reveal(with_f32);
}

/// Each binary32 option stores its value into the setting it names and
/// leaves every other setting as it was.
pub proof fn lemma_binary32_options_store_their_setting_4(c: RunConfig, v: u32)
    ensures
        with_f32(c, F32Field::FractalGain, v) == (RunConfig { fractal_gain: v, ..c }),
        with_f32(c, F32Field::QuasiperiodicGain, v) == (RunConfig { quasiperiodic_gain: v, ..c }),
        with_f32(c, F32Field::CyclicGain, v) == (RunConfig { cyclic_gain: v, ..c }),
        with_f32(c, F32Field::RdDiffusionU, v) == (RunConfig { rd_diffusion_u: v, ..c }),
        with_f32(c, F32Field::RdDiffusionV, v) == (RunConfig { rd_diffusion_v: v, ..c }),
        with_f32(c, F32Field::RdFeed, v) == (RunConfig { rd_feed: v, ..c }),
        with_f32(c, F32Field::RdKill, v) == (RunConfig { rd_kill: v, ..c }),
        with_f32(c, F32Field::PhaseGrowth, v) == (RunConfig { phase_growth: v, ..c }),
        with_f32(c, F32Field::PhaseSaturation, v) == (RunConfig { phase_saturation: v, ..c }),
        with_f32(c, F32Field::PhaseFrequency, v) == (RunConfig { phase_frequency: v, ..c }),
        with_f32(c, F32Field::PhaseDiffusion, v) == (RunConfig { phase_diffusion: v, ..c }),
        with_f32(c, F32Field::PhaseDispersion, v) == (RunConfig { phase_dispersion: v, ..c }),
{
    reveal(with_f32);
}

/// Each binary32 option stores its value into the setting it names and
/// leaves every other setting as it was.
pub proof fn lemma_binary32_options_store_their_setting_5(c: RunConfig, v: u32)
    ensures
        with_f32(c, F32Field::LossContent, v) == (RunConfig { loss_content: v, ..c }),
        with_f32(c, F32Field::LossPalette, v) == (RunConfig { loss_palette: v, ..c }),
        with_f32(c, F32Field::LossStructure, v) == (RunConfig { loss_structure: v, ..c }),
        with_f32(c, F32Field::LossSeam, v) == (RunConfig { loss_seam: v, ..c }),
        with_f32(c, F32Field::LossGamut, v) == (RunConfig { loss_gamut: v, ..c }),
        with_f32(c, F32Field::LossState, v) == (RunConfig { loss_state: v, ..c }),
        with_f32(c, F32Field::LossMemory, v) == (RunConfig { loss_memory: v, ..c }),
        with_f32(c, F32Field::MaxSaturationFraction, v) == (RunConfig { max_saturation_fraction: v, ..c }),
        with_f32(c, F32Field::MasteringStrength, v) == (RunConfig { mastering_strength: v, ..c }),
{
    reveal(with_f32);
}

/// Each binary64 option stores its value into the setting it names and
/// leaves every other setting as it was.
pub proof fn lemma_binary64_options_store_their_setting_0(c: RunConfig, v: u64)
    ensures
        with_f64(c, F64Field::LearningRate, v) == (RunConfig { learning_rate: v, ..c }),
        with_f64(c, F64Field::WeightDecay, v) == (RunConfig { weight_decay: v, ..c }),
        with_f64(c, F64Field::Beta1, v) == (RunConfig { beta1: v, ..c }),
        with_f64(c, F64Field::Beta2, v) == (RunConfig { beta2: v, ..c }),
        with_f64(c, F64Field::AdamEpsilon, v) == (RunConfig { adam_epsilon: v, ..c }),
        with_f64(c, F64Field::GradClip, v) == (RunConfig { grad_clip: v, ..c }),
        with_f64(c, F64Field::MuonMomentum, v) == (RunConfig { muon_momentum: v, ..c }),
{
    reveal(with_f64);
}

/// Each switch sets the one setting it names and leaves every other setting
/// as it was.
pub proof fn lemma_switch_options_store_their_setting_0(c: RunConfig)
    ensures
        with_switch(c, SwitchField::AnalysisOnly) == (RunConfig { analysis: AnalysisConfig { only: true, ..c.analysis }, ..c }),
        with_switch(c, SwitchField::RenderAttribution) == (RunConfig { analysis: AnalysisConfig { render_attribution: true, ..c.analysis }, ..c }),
        with_switch(c, SwitchField::ModelStats) == (RunConfig { analysis: AnalysisConfig { model_stats: true, ..c.analysis }, ..c }),
        with_switch(c, SwitchField::Benchmark) == (RunConfig { analysis: AnalysisConfig { benchmark: true, ..c.analysis }, ..c }),
        with_switch(c, SwitchField::NoEmergenceGallery) == (RunConfig { analysis: AnalysisConfig { emergence_gallery: false, ..c.analysis }, ..c }),
        with_switch(c, SwitchField::RecursiveCorpus) == (RunConfig { recursive_corpus: true, ..c }),
        with_switch(c, SwitchField::Fresh) == (RunConfig { fresh: true, ..c }),
        with_switch(c, SwitchField::RenderOnly) == (RunConfig { render_only: true, ..c }),
        with_switch(c, SwitchField::NoStateAtlas) == (RunConfig { save_state_atlas: false, ..c }),
{
    reveal(with_switch);
}

proof fn lemma_cli_option_part0_flags(flag: Seq<char>)
    ensures
        cli_option_part0(flag) == Some(CliOption::CorpusDir) ==> (flag == "--corpus-dir"@),
        cli_option_part0(flag) == Some(CliOption::OutputDir) ==> (flag == "--output-dir"@),
        cli_option_part0(flag) == Some(CliOption::RunTag) ==> (flag == "--run-tag"@),
        cli_option_part0(flag) == Some(CliOption::Mode) ==> (flag == "--mode"@),
        cli_option_part0(flag) == Some(CliOption::Profile) ==> (flag == "--profile"@),
        cli_option_part0(flag) == Some(CliOption::Style) ==> (flag == "--style"@),
        cli_option_part0(flag) == Some(CliOption::ResearchPreset) ==> (flag == "--research-preset"@),
        cli_option_part0(flag) == Some(CliOption::Objective) ==> (flag == "--objective"@),
        cli_option_part0(flag) == Some(CliOption::Scalar(F32Field::GroundingStrength)) ==> (flag == "--grounding-strength"@),
        cli_option_part0(flag) == Some(CliOption::Scalar(F32Field::EmergenceStrength)) ==> (flag == "--emergence-strength"@),
        cli_option_part0(flag) == Some(CliOption::Scalar(F32Field::EmergenceLowBudget)) ==> (flag == "--emergence-low-budget"@),
        cli_option_part0(flag) == Some(CliOption::Scalar(F32Field::EmergenceMidBudget)) ==> (flag == "--emergence-mid-budget"@),
        cli_option_part0(flag) == Some(CliOption::Scalar(F32Field::EmergenceStart)) ==> (flag == "--emergence-start"@),
        cli_option_part0(flag) == Some(CliOption::Scalar(F32Field::EmergenceRamp)) ==> (flag == "--emergence-ramp"@),
        cli_option_part0(flag) == Some(CliOption::Scalar(F32Field::GroundingFloor)) ==> (flag == "--grounding-floor"@),
        cli_option_part0(flag) == Some(CliOption::Scalar(F32Field::EmergentLimit)) ==> (flag == "--emergent-limit"@),
        cli_option_part0(flag) == Some(CliOption::Scalar(F32Field::LocalReferenceGain)) ==> (flag == "--local-reference-gain"@),
        cli_option_part0(flag) == Some(CliOption::Scalar(F32Field::LossComposite)) ==> (flag == "--loss-composite"@),
        cli_option_part0(flag) == Some(CliOption::Scalar(F32Field::LossGroundCoarse)) ==> (flag == "--loss-ground-coarse"@),
        cli_option_part0(flag) == Some(CliOption::Scalar(F32Field::LossGroundMid)) ==> (flag == "--loss-ground-mid"@),
        cli_option_part0(flag) == Some(CliOption::Scalar(F32Field::LossGroundFine)) ==> (flag == "--loss-ground-fine"@),
        cli_option_part0(flag) == Some(CliOption::Scalar(F32Field::LossEmergentLow)) ==> (flag == "--loss-emergent-low"@),
        cli_option_part0(flag) == Some(CliOption::Scalar(F32Field::LossEmergentTv)) ==> (flag == "--loss-emergent-tv"@),
        cli_option_part0(flag) == Some(CliOption::Scalar(F32Field::DetailCropProbability)) ==> (flag == "--detail-crop-probability"@),
        cli_option_part0(flag) == Some(CliOption::Scalar(F32Field::LossEmergentFit)) ==> (flag == "--loss-emergent-fit"@),
        cli_option_part0(flag) == Some(CliOption::Scalar(F32Field::LossHeadRedundancy)) ==> (flag == "--loss-head-redundancy"@),
        cli_option_part0(flag) == Some(CliOption::Scalar(F32Field::LossCrossResolution)) ==> (flag == "--loss-cross-resolution"@),
        cli_option_part0(flag) == Some(CliOption::Size(SizeField::DetailResolution)) ==> (flag == "--detail-resolution"@),
        cli_option_part0(flag) == Some(CliOption::Scalar(F32Field::DetailMinZoom)) ==> (flag == "--detail-min-zoom"@),
        cli_option_part0(flag) == Some(CliOption::Scalar(F32Field::DetailMaxZoom)) ==> (flag == "--detail-max-zoom"@),
        cli_option_part0(flag) == Some(CliOption::Scalar(F32Field::DetailCurriculumStart)) ==> (flag == "--detail-curriculum-start"@),
        cli_option_part0(flag) == Some(CliOption::Size(SizeField::PyramidCacheMaxLevel)) ==> (flag == "--pyramid-cache-max-level"@),
        cli_option_part0(flag) == Some(CliOption::PyramidCacheDir) ==> (flag == "--pyramid-cache-dir"@),
        cli_option_part0(flag) == Some(CliOption::TargetBoundary) ==> (flag == "--target-boundary"@),
        cli_option_part0(flag) == Some(CliOption::MorphDepthMode) ==> (flag == "--morph-depth-mode"@),
        cli_option_part0(flag) == Some(CliOption::Size(SizeField::MorphMinDepth)) ==> (flag == "--morph-min-depth"@),
        cli_option_part0(flag) == Some(CliOption::Size(SizeField::MorphMaxDepth)) ==> (flag == "--morph-max-depth"@),
        cli_option_part0(flag) == Some(CliOption::Size(SizeField::MorphGrowthInterval)) ==> (flag == "--morph-growth-interval"@),
        cli_option_part0(flag) == Some(CliOption::Size(SizeField::MorphPlateauWindow)) ==> (flag == "--morph-plateau-window"@),
        cli_option_part0(flag) == Some(CliOption::Scalar(F32Field::MorphPlateauEpsilon)) ==> (flag == "--morph-plateau-epsilon"@),
        cli_option_part0(flag) is None <==> !((flag == "--corpus-dir"@) || (flag == "--output-dir"@) || (flag == "--run-tag"@) || (flag == "--mode"@) || (flag == "--profile"@) || (flag == "--style"@) || (flag == "--research-preset"@) || (flag == "--objective"@) || (flag == "--grounding-strength"@) || (flag == "--emergence-strength"@) || (flag == "--emergence-low-budget"@) || (flag == "--emergence-mid-budget"@) || (flag == "--emergence-start"@) || (flag == "--emergence-ramp"@) || (flag == "--grounding-floor"@) || (flag == "--emergent-limit"@) || (flag == "--local-reference-gain"@) || (flag == "--loss-composite"@) || (flag == "--loss-ground-coarse"@) || (flag == "--loss-ground-mid"@) || (flag == "--loss-ground-fine"@) || (flag == "--loss-emergent-low"@) || (flag == "--loss-emergent-tv"@) || (flag == "--detail-crop-probability"@) || (flag == "--loss-emergent-fit"@) || (flag == "--loss-head-redundancy"@) || (flag == "--loss-cross-resolution"@) || (flag == "--detail-resolution"@) || (flag == "--detail-min-zoom"@) || (flag == "--detail-max-zoom"@) || (flag == "--detail-curriculum-start"@) || (flag == "--pyramid-cache-max-level"@) || (flag == "--pyramid-cache-dir"@) || (flag == "--target-boundary"@) || (flag == "--morph-depth-mode"@) || (flag == "--morph-min-depth"@) || (flag == "--morph-max-depth"@) || (flag == "--morph-growth-interval"@) || (flag == "--morph-plateau-window"@) || (flag == "--morph-plateau-epsilon"@)),
        cli_option_part0(flag) is Some ==> (cli_option_part0(flag) == Some(CliOption::CorpusDir) || cli_option_part0(flag) == Some(CliOption::OutputDir) || cli_option_part0(flag) == Some(CliOption::RunTag) || cli_option_part0(flag) == Some(CliOption::Mode) || cli_option_part0(flag) == Some(CliOption::Profile) || cli_option_part0(flag) == Some(CliOption::Style) || cli_option_part0(flag) == Some(CliOption::ResearchPreset) || cli_option_part0(flag) == Some(CliOption::Objective) || cli_option_part0(flag) == Some(CliOption::Scalar(F32Field::GroundingStrength)) || cli_option_part0(flag) == Some(CliOption::Scalar(F32Field::EmergenceStrength)) || cli_option_part0(flag) == Some(CliOption::Scalar(F32Field::EmergenceLowBudget)) || cli_option_part0(flag) == Some(CliOption::Scalar(F32Field::EmergenceMidBudget)) || cli_option_part0(flag) == Some(CliOption::Scalar(F32Field::EmergenceStart)) || cli_option_part0(flag) == Some(CliOption::Scalar(F32Field::EmergenceRamp)) || cli_option_part0(flag) == Some(CliOption::Scalar(F32Field::GroundingFloor)) || cli_option_part0(flag) == Some(CliOption::Scalar(F32Field::EmergentLimit)) || cli_option_part0(flag) == Some(CliOption::Scalar(F32Field::LocalReferenceGain)) || cli_option_part0(flag) == Some(CliOption::Scalar(F32Field::LossComposite)) || cli_option_part0(flag) == Some(CliOption::Scalar(F32Field::LossGroundCoarse)) || cli_option_part0(flag) == Some(CliOption::Scalar(F32Field::LossGroundMid)) || cli_option_part0(flag) == Some(CliOption::Scalar(F32Field::LossGroundFine)) || cli_option_part0(flag) == Some(CliOption::Scalar(F32Field::LossEmergentLow)) || cli_option_part0(flag) == Some(CliOption::Scalar(F32Field::LossEmergentTv)) || cli_option_part0(flag) == Some(CliOption::Scalar(F32Field::DetailCropProbability)) || cli_option_part0(flag) == Some(CliOption::Scalar(F32Field::LossEmergentFit)) || cli_option_part0(flag) == Some(CliOption::Scalar(F32Field::LossHeadRedundancy)) || cli_option_part0(flag) == Some(CliOption::Scalar(F32Field::LossCrossResolution)) || cli_option_part0(flag) == Some(CliOption::Size(SizeField::DetailResolution)) || cli_option_part0(flag) == Some(CliOption::Scalar(F32Field::DetailMinZoom)) || cli_option_part0(flag) == Some(CliOption::Scalar(F32Field::DetailMaxZoom)) || cli_option_part0(flag) == Some(CliOption::Scalar(F32Field::DetailCurriculumStart)) || cli_option_part0(flag) == Some(CliOption::Size(SizeField::PyramidCacheMaxLevel)) || cli_option_part0(flag) == Some(CliOption::PyramidCacheDir) || cli_option_part0(flag) == Some(CliOption::TargetBoundary) || cli_option_part0(flag) == Some(CliOption::MorphDepthMode) || cli_option_part0(flag) == Some(CliOption::Size(SizeField::MorphMinDepth)) || cli_option_part0(flag) == Some(CliOption::Size(SizeField::MorphMaxDepth)) || cli_option_part0(flag) == Some(CliOption::Size(SizeField::MorphGrowthInterval)) || cli_option_part0(flag) == Some(CliOption::Size(SizeField::MorphPlateauWindow)) || cli_option_part0(flag) == Some(CliOption::Scalar(F32Field::MorphPlateauEpsilon))),
{
    reveal(cli_option_part0);
}

proof fn lemma_cli_option_part1_flags(flag: Seq<char>)
    ensures
        cli_option_part1(flag) == Some(CliOption::Scalar(F32Field::MorphSeamThreshold)) ==> (flag == "--morph-seam-threshold"@),
        cli_option_part1(flag) == Some(CliOption::Scalar(F32Field::FlowWeight)) ==> (flag == "--flow-weight"@),
        cli_option_part1(flag) == Some(CliOption::Scalar(F32Field::FlowEndpointWeight)) ==> (flag == "--flow-endpoint-weight"@),
        cli_option_part1(flag) == Some(CliOption::Scalar(F32Field::FlowMinTime)) ==> (flag == "--flow-min-time"@),
        cli_option_part1(flag) == Some(CliOption::Scalar(F32Field::FlowMaxTime)) ==> (flag == "--flow-max-time"@),
        cli_option_part1(flag) == Some(CliOption::Size(SizeField::FlowHidden)) ==> (flag == "--flow-hidden"@),
        cli_option_part1(flag) == Some(CliOption::Size(SizeField::FlowResolution)) ==> (flag == "--flow-resolution"@),
        cli_option_part1(flag) == Some(CliOption::Size(SizeField::FlowCadence)) ==> (flag == "--flow-cadence"@),
        cli_option_part1(flag) == Some(CliOption::Size(SizeField::FlowSampleSteps)) ==> (flag == "--flow-sample-steps"@),
        cli_option_part1(flag) == Some(CliOption::Terminal) ==> (flag == "--terminal"@),
        cli_option_part1(flag) == Some(CliOption::Switch(SwitchField::AnalysisOnly)) ==> (flag == "--analysis-only"@),
        cli_option_part1(flag) == Some(CliOption::Switch(SwitchField::RenderAttribution)) ==> (flag == "--render-attribution"@),
        cli_option_part1(flag) == Some(CliOption::Switch(SwitchField::ModelStats)) ==> (flag == "--model-stats"@),
        cli_option_part1(flag) == Some(CliOption::Switch(SwitchField::Benchmark)) ==> (flag == "--benchmark"@),
        cli_option_part1(flag) == Some(CliOption::ProbeDir) ==> (flag == "--probe-dir"@),
        cli_option_part1(flag) == Some(CliOption::ProbeAges) ==> (flag == "--probe-ages"@),
        cli_option_part1(flag) == Some(CliOption::ProbeReferenceFidelities) ==> (flag == "--probe-reference-fidelities"@),
        cli_option_part1(flag) == Some(CliOption::CompareV8Dir) ==> (flag == "--compare-v8-dir"@),
        cli_option_part1(flag) == Some(CliOption::Size(SizeField::AutonomousRollout)) ==> (flag == "--autonomous-rollout"@),
        cli_option_part1(flag) == Some(CliOption::Size(SizeField::PerturbationAnalysis)) ==> (flag == "--perturbation-analysis"@),
        cli_option_part1(flag) == Some(CliOption::Size(SizeField::DynamicsAblation)) ==> (flag == "--dynamics-ablation"@),
        cli_option_part1(flag) == Some(CliOption::Size(SizeField::AnalysisStride)) ==> (flag == "--analysis-stride"@),
        cli_option_part1(flag) == Some(CliOption::Switch(SwitchField::NoEmergenceGallery)) ==> (flag == "--no-emergence-gallery"@),
        cli_option_part1(flag) == Some(CliOption::Size(SizeField::Steps)) ==> (flag == "--steps"@),
        cli_option_part1(flag) == Some(CliOption::Size(SizeField::Threads)) ==> (flag == "--threads"@) || (flag == "-t"@),
        cli_option_part1(flag) == Some(CliOption::Seed(SeedField::Seed)) ==> (flag == "--seed"@),
        cli_option_part1(flag) == Some(CliOption::Size(SizeField::MicroSize)) ==> (flag == "--micro-size"@),
        cli_option_part1(flag) == Some(CliOption::Size(SizeField::MacroSize)) ==> (flag == "--macro-size"@),
        cli_option_part1(flag) == Some(CliOption::Size(SizeField::Channels)) ==> (flag == "--channels"@),
        cli_option_part1(flag) == Some(CliOption::Size(SizeField::GenomeDim)) ==> (flag == "--genome-dim"@),
        cli_option_part1(flag) == Some(CliOption::Size(SizeField::CaHidden)) ==> (flag == "--ca-hidden"@),
        cli_option_part1(flag) == Some(CliOption::Size(SizeField::InterfaceGrid)) ==> (flag == "--interface-grid"@),
        cli_option_part1(flag) == Some(CliOption::Size(SizeField::InterfaceWidth)) ==> (flag == "--interface-width"@),
        cli_option_part1(flag) == Some(CliOption::Size(SizeField::InterfaceLoops)) ==> (flag == "--interface-loops"@),
        cli_option_part1(flag) == Some(CliOption::Size(SizeField::MorphLayers)) ==> (flag == "--morph-layers"@),
        cli_option_part1(flag) == Some(CliOption::Size(SizeField::MorphDepth)) ==> (flag == "--morph-depth"@),
        cli_option_part1(flag) == Some(CliOption::Scalar(F32Field::MorphResidualGain)) ==> (flag == "--morph-residual-gain"@),
        cli_option_part1(flag) == Some(CliOption::Scalar(F32Field::MemoryLimit)) ==> (flag == "--memory-limit"@),
        cli_option_part1(flag) == Some(CliOption::Scalar(F32Field::InterfaceGain)) ==> (flag == "--interface-gain"@),
        cli_option_part1(flag) is None <==> !((flag == "--morph-seam-threshold"@) || (flag == "--flow-weight"@) || (flag == "--flow-endpoint-weight"@) || (flag == "--flow-min-time"@) || (flag == "--flow-max-time"@) || (flag == "--flow-hidden"@) || (flag == "--flow-resolution"@) || (flag == "--flow-cadence"@) || (flag == "--flow-sample-steps"@) || (flag == "--terminal"@) || (flag == "--analysis-only"@) || (flag == "--render-attribution"@) || (flag == "--model-stats"@) || (flag == "--benchmark"@) || (flag == "--probe-dir"@) || (flag == "--probe-ages"@) || (flag == "--probe-reference-fidelities"@) || (flag == "--compare-v8-dir"@) || (flag == "--autonomous-rollout"@) || (flag == "--perturbation-analysis"@) || (flag == "--dynamics-ablation"@) || (flag == "--analysis-stride"@) || (flag == "--no-emergence-gallery"@) || (flag == "--steps"@) || (flag == "--threads"@) || (flag == "-t"@) || (flag == "--seed"@) || (flag == "--micro-size"@) || (flag == "--macro-size"@) || (flag == "--channels"@) || (flag == "--genome-dim"@) || (flag == "--ca-hidden"@) || (flag == "--interface-grid"@) || (flag == "--interface-width"@) || (flag == "--interface-loops"@) || (flag == "--morph-layers"@) || (flag == "--morph-depth"@) || (flag == "--morph-residual-gain"@) || (flag == "--memory-limit"@) || (flag == "--interface-gain"@)),
        cli_option_part1(flag) is Some ==> (cli_option_part1(flag) == Some(CliOption::Scalar(F32Field::MorphSeamThreshold)) || cli_option_part1(flag) == Some(CliOption::Scalar(F32Field::FlowWeight)) || cli_option_part1(flag) == Some(CliOption::Scalar(F32Field::FlowEndpointWeight)) || cli_option_part1(flag) == Some(CliOption::Scalar(F32Field::FlowMinTime)) || cli_option_part1(flag) == Some(CliOption::Scalar(F32Field::FlowMaxTime)) || cli_option_part1(flag) == Some(CliOption::Size(SizeField::FlowHidden)) || cli_option_part1(flag) == Some(CliOption::Size(SizeField::FlowResolution)) || cli_option_part1(flag) == Some(CliOption::Size(SizeField::FlowCadence)) || cli_option_part1(flag) == Some(CliOption::Size(SizeField::FlowSampleSteps)) || cli_option_part1(flag) == Some(CliOption::Terminal) || cli_option_part1(flag) == Some(CliOption::Switch(SwitchField::AnalysisOnly)) || cli_option_part1(flag) == Some(CliOption::Switch(SwitchField::RenderAttribution)) || cli_option_part1(flag) == Some(CliOption::Switch(SwitchField::ModelStats)) || cli_option_part1(flag) == Some(CliOption::Switch(SwitchField::Benchmark)) || cli_option_part1(flag) == Some(CliOption::ProbeDir) || cli_option_part1(flag) == Some(CliOption::ProbeAges) || cli_option_part1(flag) == Some(CliOption::ProbeReferenceFidelities) || cli_option_part1(flag) == Some(CliOption::CompareV8Dir) || cli_option_part1(flag) == Some(CliOption::Size(SizeField::AutonomousRollout)) || cli_option_part1(flag) == Some(CliOption::Size(SizeField::PerturbationAnalysis)) || cli_option_part1(flag) == Some(CliOption::Size(SizeField::DynamicsAblation)) || cli_option_part1(flag) == Some(CliOption::Size(SizeField::AnalysisStride)) || cli_option_part1(flag) == Some(CliOption::Switch(SwitchField::NoEmergenceGallery)) || cli_option_part1(flag) == Some(CliOption::Size(SizeField::Steps)) || cli_option_part1(flag) == Some(CliOption::Size(SizeField::Threads)) || cli_option_part1(flag) == Some(CliOption::Seed(SeedField::Seed)) || cli_option_part1(flag) == Some(CliOption::Size(SizeField::MicroSize)) || cli_option_part1(flag) == Some(CliOption::Size(SizeField::MacroSize)) || cli_option_part1(flag) == Some(CliOption::Size(SizeField::Channels)) || cli_option_part1(flag) == Some(CliOption::Size(SizeField::GenomeDim)) || cli_option_part1(flag) == Some(CliOption::Size(SizeField::CaHidden)) || cli_option_part1(flag) == Some(CliOption::Size(SizeField::InterfaceGrid)) || cli_option_part1(flag) == Some(CliOption::Size(SizeField::InterfaceWidth)) || cli_option_part1(flag) == Some(CliOption::Size(SizeField::InterfaceLoops)) || cli_option_part1(flag) == Some(CliOption::Size(SizeField::MorphLayers)) || cli_option_part1(flag) == Some(CliOption::Size(SizeField::MorphDepth)) || cli_option_part1(flag) == Some(CliOption::Scalar(F32Field::MorphResidualGain)) || cli_option_part1(flag) == Some(CliOption::Scalar(F32Field::MemoryLimit)) || cli_option_part1(flag) == Some(CliOption::Scalar(F32Field::InterfaceGain))),
{
    reveal(cli_option_part1);
}

proof fn lemma_cli_option_part2_flags(flag: Seq<char>)
    ensures
        cli_option_part2(flag) == Some(CliOption::Conditioning) ==> (flag == "--conditioning"@),
        cli_option_part2(flag) == Some(CliOption::Scalar(F32Field::ReferenceFidelityMin)) ==> (flag == "--reference-fidelity-min"@),
        cli_option_part2(flag) == Some(CliOption::Scalar(F32Field::ReferenceFidelityMax)) ==> (flag == "--reference-fidelity-max"@),
        cli_option_part2(flag) == Some(CliOption::Scalar(F32Field::ReferenceDropout)) ==> (flag == "--reference-dropout"@),
        cli_option_part2(flag) == Some(CliOption::Size(SizeField::RenderHidden)) ==> (flag == "--render-hidden"@),
        cli_option_part2(flag) == Some(CliOption::Size(SizeField::RenderBlocks)) ==> (flag == "--render-blocks"@),
        cli_option_part2(flag) == Some(CliOption::Size(SizeField::CoordBands)) ==> (flag == "--coord-bands"@),
        cli_option_part2(flag) == Some(CliOption::Scalar(F32Field::CoordGain)) ==> (flag == "--coord-gain"@),
        cli_option_part2(flag) == Some(CliOption::Scalar(F32Field::StateSkip)) ==> (flag == "--state-skip"@),
        cli_option_part2(flag) == Some(CliOption::Scalar(F32Field::Chroma)) ==> (flag == "--chroma"@),
        cli_option_part2(flag) == Some(CliOption::Scalar(F32Field::Gamma)) ==> (flag == "--gamma"@),
        cli_option_part2(flag) == Some(CliOption::Size(SizeField::TrainResolution)) ==> (flag == "--train-resolution"@),
        cli_option_part2(flag) == Some(CliOption::Size(SizeField::OutputResolution)) ==> (flag == "--output-resolution"@),
        cli_option_part2(flag) == Some(CliOption::Size(SizeField::SnapshotResolution)) ==> (flag == "--snapshot-resolution"@),
        cli_option_part2(flag) == Some(CliOption::Size(SizeField::EpisodeSteps)) ==> (flag == "--episode-steps"@),
        cli_option_part2(flag) == Some(CliOption::Scalar(F32Field::EpisodeReset)) ==> (flag == "--episode-reset"@),
        cli_option_part2(flag) == Some(CliOption::Scalar(F32Field::MemoryReset)) ==> (flag == "--memory-reset"@),
        cli_option_part2(flag) == Some(CliOption::Size(SizeField::Bptt)) ==> (flag == "--bptt"@),
        cli_option_part2(flag) == Some(CliOption::Size(SizeField::CoreUpdateEvery)) ==> (flag == "--core-update-every"@),
        cli_option_part2(flag) == Some(CliOption::Size(SizeField::MacroUpdateEvery)) ==> (flag == "--macro-update-every"@),
        cli_option_part2(flag) == Some(CliOption::Size(SizeField::SnapshotEvery)) ==> (flag == "--snapshot-every"@),
        cli_option_part2(flag) == Some(CliOption::Size(SizeField::CheckpointEvery)) ==> (flag == "--checkpoint-every"@),
        cli_option_part2(flag) == Some(CliOption::Size(SizeField::LogEvery)) ==> (flag == "--log-every"@),
        cli_option_part2(flag) == Some(CliOption::Size(SizeField::ImageCache)) ==> (flag == "--image-cache"@),
        cli_option_part2(flag) == Some(CliOption::Switch(SwitchField::RecursiveCorpus)) ==> (flag == "--recursive-corpus"@),
        cli_option_part2(flag) == Some(CliOption::Wide(F64Field::LearningRate)) ==> (flag == "--learning-rate"@),
        cli_option_part2(flag) == Some(CliOption::Wide(F64Field::WeightDecay)) ==> (flag == "--weight-decay"@),
        cli_option_part2(flag) == Some(CliOption::Wide(F64Field::Beta1)) ==> (flag == "--beta1"@),
        cli_option_part2(flag) == Some(CliOption::Wide(F64Field::Beta2)) ==> (flag == "--beta2"@),
        cli_option_part2(flag) == Some(CliOption::Wide(F64Field::AdamEpsilon)) ==> (flag == "--adam-epsilon"@),
        cli_option_part2(flag) == Some(CliOption::Wide(F64Field::GradClip)) ==> (flag == "--grad-clip"@),
        cli_option_part2(flag) == Some(CliOption::Size(SizeField::WarmupUpdates)) ==> (flag == "--warmup-updates"@),
        cli_option_part2(flag) == Some(CliOption::Optimizer) ==> (flag == "--optimizer"@),
        cli_option_part2(flag) == Some(CliOption::Wide(F64Field::MuonMomentum)) ==> (flag == "--muon-momentum"@),
        cli_option_part2(flag) == Some(CliOption::Size(SizeField::MuonNsSteps)) ==> (flag == "--muon-ns-steps"@),
        cli_option_part2(flag) == Some(CliOption::Integrator) ==> (flag == "--integrator"@),
        cli_option_part2(flag) == Some(CliOption::Scalar(F32Field::Dt)) ==> (flag == "--dt"@),
        cli_option_part2(flag) == Some(CliOption::Scalar(F32Field::StateLimit)) ==> (flag == "--state-limit"@),
        cli_option_part2(flag) == Some(CliOption::Scalar(F32Field::StateSoftLimit)) ==> (flag == "--state-soft-limit"@),
        cli_option_part2(flag) == Some(CliOption::Scalar(F32Field::ClockProbability)) ==> (flag == "--clock-probability"@),
        cli_option_part2(flag) is None <==> !((flag == "--conditioning"@) || (flag == "--reference-fidelity-min"@) || (flag == "--reference-fidelity-max"@) || (flag == "--reference-dropout"@) || (flag == "--render-hidden"@) || (flag == "--render-blocks"@) || (flag == "--coord-bands"@) || (flag == "--coord-gain"@) || (flag == "--state-skip"@) || (flag == "--chroma"@) || (flag == "--gamma"@) || (flag == "--train-resolution"@) || (flag == "--output-resolution"@) || (flag == "--snapshot-resolution"@) || (flag == "--episode-steps"@) || (flag == "--episode-reset"@) || (flag == "--memory-reset"@) || (flag == "--bptt"@) || (flag == "--core-update-every"@) || (flag == "--macro-update-every"@) || (flag == "--snapshot-every"@) || (flag == "--checkpoint-every"@) || (flag == "--log-every"@) || (flag == "--image-cache"@) || (flag == "--recursive-corpus"@) || (flag == "--learning-rate"@) || (flag == "--weight-decay"@) || (flag == "--beta1"@) || (flag == "--beta2"@) || (flag == "--adam-epsilon"@) || (flag == "--grad-clip"@) || (flag == "--warmup-updates"@) || (flag == "--optimizer"@) || (flag == "--muon-momentum"@) || (flag == "--muon-ns-steps"@) || (flag == "--integrator"@) || (flag == "--dt"@) || (flag == "--state-limit"@) || (flag == "--state-soft-limit"@) || (flag == "--clock-probability"@)),
        cli_option_part2(flag) is Some ==> (cli_option_part2(flag) == Some(CliOption::Conditioning) || cli_option_part2(flag) == Some(CliOption::Scalar(F32Field::ReferenceFidelityMin)) || cli_option_part2(flag) == Some(CliOption::Scalar(F32Field::ReferenceFidelityMax)) || cli_option_part2(flag) == Some(CliOption::Scalar(F32Field::ReferenceDropout)) || cli_option_part2(flag) == Some(CliOption::Size(SizeField::RenderHidden)) || cli_option_part2(flag) == Some(CliOption::Size(SizeField::RenderBlocks)) || cli_option_part2(flag) == Some(CliOption::Size(SizeField::CoordBands)) || cli_option_part2(flag) == Some(CliOption::Scalar(F32Field::CoordGain)) || cli_option_part2(flag) == Some(CliOption::Scalar(F32Field::StateSkip)) || cli_option_part2(flag) == Some(CliOption::Scalar(F32Field::Chroma)) || cli_option_part2(flag) == Some(CliOption::Scalar(F32Field::Gamma)) || cli_option_part2(flag) == Some(CliOption::Size(SizeField::TrainResolution)) || cli_option_part2(flag) == Some(CliOption::Size(SizeField::OutputResolution)) || cli_option_part2(flag) == Some(CliOption::Size(SizeField::SnapshotResolution)) || cli_option_part2(flag) == Some(CliOption::Size(SizeField::EpisodeSteps)) || cli_option_part2(flag) == Some(CliOption::Scalar(F32Field::EpisodeReset)) || cli_option_part2(flag) == Some(CliOption::Scalar(F32Field::MemoryReset)) || cli_option_part2(flag) == Some(CliOption::Size(SizeField::Bptt)) || cli_option_part2(flag) == Some(CliOption::Size(SizeField::CoreUpdateEvery)) || cli_option_part2(flag) == Some(CliOption::Size(SizeField::MacroUpdateEvery)) || cli_option_part2(flag) == Some(CliOption::Size(SizeField::SnapshotEvery)) || cli_option_part2(flag) == Some(CliOption::Size(SizeField::CheckpointEvery)) || cli_option_part2(flag) == Some(CliOption::Size(SizeField::LogEvery)) || cli_option_part2(flag) == Some(CliOption::Size(SizeField::ImageCache)) || cli_option_part2(flag) == Some(CliOption::Switch(SwitchField::RecursiveCorpus)) || cli_option_part2(flag) == Some(CliOption::Wide(F64Field::LearningRate)) || cli_option_part2(flag) == Some(CliOption::Wide(F64Field::WeightDecay)) || cli_option_part2(flag) == Some(CliOption::Wide(F64Field::Beta1)) || cli_option_part2(flag) == Some(CliOption::Wide(F64Field::Beta2)) || cli_option_part2(flag) == Some(CliOption::Wide(F64Field::AdamEpsilon)) || cli_option_part2(flag) == Some(CliOption::Wide(F64Field::GradClip)) || cli_option_part2(flag) == Some(CliOption::Size(SizeField::WarmupUpdates)) || cli_option_part2(flag) == Some(CliOption::Optimizer) || cli_option_part2(flag) == Some(CliOption::Wide(F64Field::MuonMomentum)) || cli_option_part2(flag) == Some(CliOption::Size(SizeField::MuonNsSteps)) || cli_option_part2(flag) == Some(CliOption::Integrator) || cli_option_part2(flag) == Some(CliOption::Scalar(F32Field::Dt)) || cli_option_part2(flag) == Some(CliOption::Scalar(F32Field::StateLimit)) || cli_option_part2(flag) == Some(CliOption::Scalar(F32Field::StateSoftLimit)) || cli_option_part2(flag) == Some(CliOption::Scalar(F32Field::ClockProbability))),
{
    reveal(cli_option_part2);
}

proof fn lemma_cli_option_part3_flags(flag: Seq<char>)
    ensures
        cli_option_part3(flag) == Some(CliOption::Scalar(F32Field::NcaGain)) ==> (flag == "--nca-gain"@),
        cli_option_part3(flag) == Some(CliOption::Scalar(F32Field::ReactionGain)) ==> (flag == "--reaction-gain"@),
        cli_option_part3(flag) == Some(CliOption::Scalar(F32Field::StateLeak)) ==> (flag == "--state-leak"@),
        cli_option_part3(flag) == Some(CliOption::Scalar(F32Field::PhaseGain)) ==> (flag == "--phase-gain"@),
        cli_option_part3(flag) == Some(CliOption::Scalar(F32Field::FractalGain)) ==> (flag == "--fractal-gain"@),
        cli_option_part3(flag) == Some(CliOption::Scalar(F32Field::QuasiperiodicGain)) ==> (flag == "--quasiperiodic-gain"@),
        cli_option_part3(flag) == Some(CliOption::Scalar(F32Field::CyclicGain)) ==> (flag == "--cyclic-gain"@),
        cli_option_part3(flag) == Some(CliOption::Scalar(F32Field::RdDiffusionU)) ==> (flag == "--rd-diffusion-u"@),
        cli_option_part3(flag) == Some(CliOption::Scalar(F32Field::RdDiffusionV)) ==> (flag == "--rd-diffusion-v"@),
        cli_option_part3(flag) == Some(CliOption::Scalar(F32Field::RdFeed)) ==> (flag == "--rd-feed"@),
        cli_option_part3(flag) == Some(CliOption::Scalar(F32Field::RdKill)) ==> (flag == "--rd-kill"@),
        cli_option_part3(flag) == Some(CliOption::Scalar(F32Field::PhaseGrowth)) ==> (flag == "--phase-growth"@),
        cli_option_part3(flag) == Some(CliOption::Scalar(F32Field::PhaseSaturation)) ==> (flag == "--phase-saturation"@),
        cli_option_part3(flag) == Some(CliOption::Scalar(F32Field::PhaseFrequency)) ==> (flag == "--phase-frequency"@),
        cli_option_part3(flag) == Some(CliOption::Scalar(F32Field::PhaseDiffusion)) ==> (flag == "--phase-diffusion"@),
        cli_option_part3(flag) == Some(CliOption::Scalar(F32Field::PhaseDispersion)) ==> (flag == "--phase-dispersion"@),
        cli_option_part3(flag) == Some(CliOption::Scalar(F32Field::LossContent)) ==> (flag == "--loss-content"@),
        cli_option_part3(flag) == Some(CliOption::Scalar(F32Field::LossPalette)) ==> (flag == "--loss-palette"@),
        cli_option_part3(flag) == Some(CliOption::Scalar(F32Field::LossStructure)) ==> (flag == "--loss-structure"@),
        cli_option_part3(flag) == Some(CliOption::Scalar(F32Field::LossSeam)) ==> (flag == "--loss-seam"@),
        cli_option_part3(flag) == Some(CliOption::Scalar(F32Field::LossGamut)) ==> (flag == "--loss-gamut"@),
        cli_option_part3(flag) == Some(CliOption::Scalar(F32Field::LossState)) ==> (flag == "--loss-state"@),
        cli_option_part3(flag) == Some(CliOption::Scalar(F32Field::LossMemory)) ==> (flag == "--loss-memory"@),
        cli_option_part3(flag) == Some(CliOption::Scalar(F32Field::MaxSaturationFraction)) ==> (flag == "--max-saturation-fraction"@),
        cli_option_part3(flag) == Some(CliOption::Size(SizeField::StabilityPatience)) ==> (flag == "--stability-patience"@),
        cli_option_part3(flag) == Some(CliOption::Scalar(F32Field::MasteringStrength)) ==> (flag == "--mastering-strength"@),
        cli_option_part3(flag) == Some(CliOption::Size(SizeField::Gallery)) ==> (flag == "--gallery"@),
        cli_option_part3(flag) == Some(CliOption::Size(SizeField::GallerySteps)) ==> (flag == "--gallery-steps"@),
        cli_option_part3(flag) == Some(CliOption::Size(SizeField::GalleryStride)) ==> (flag == "--gallery-stride"@),
        cli_option_part3(flag) == Some(CliOption::Seed(SeedField::GallerySeed)) ==> (flag == "--gallery-seed"@),
        cli_option_part3(flag) == Some(CliOption::Switch(SwitchField::Fresh)) ==> (flag == "--fresh"@),
        cli_option_part3(flag) == Some(CliOption::Switch(SwitchField::RenderOnly)) ==> (flag == "--render-only"@),
        cli_option_part3(flag) == Some(CliOption::Disable(F32Field::ReactionGain)) ==> (flag == "--no-reaction-diffusion"@),
        cli_option_part3(flag) == Some(CliOption::Disable(F32Field::PhaseGain)) ==> (flag == "--no-complex-phase"@),
        cli_option_part3(flag) == Some(CliOption::Disable(F32Field::FractalGain)) ==> (flag == "--no-fractal"@),
        cli_option_part3(flag) == Some(CliOption::Disable(F32Field::QuasiperiodicGain)) ==> (flag == "--no-quasiperiodic"@),
        cli_option_part3(flag) == Some(CliOption::Disable(F32Field::CyclicGain)) ==> (flag == "--no-cyclic"@),
        cli_option_part3(flag) == Some(CliOption::Disable(F32Field::MasteringStrength)) ==> (flag == "--no-mastering"@),
        cli_option_part3(flag) == Some(CliOption::Switch(SwitchField::NoStateAtlas)) ==> (flag == "--no-state-atlas"@),
        cli_option_part3(flag) is None <==> !((flag == "--nca-gain"@) || (flag == "--reaction-gain"@) || (flag == "--state-leak"@) || (flag == "--phase-gain"@) || (flag == "--fractal-gain"@) || (flag == "--quasiperiodic-gain"@) || (flag == "--cyclic-gain"@) || (flag == "--rd-diffusion-u"@) || (flag == "--rd-diffusion-v"@) || (flag == "--rd-feed"@) || (flag == "--rd-kill"@) || (flag == "--phase-growth"@) || (flag == "--phase-saturation"@) || (flag == "--phase-frequency"@) || (flag == "--phase-diffusion"@) || (flag == "--phase-dispersion"@) || (flag == "--loss-content"@) || (flag == "--loss-palette"@) || (flag == "--loss-structure"@) || (flag == "--loss-seam"@) || (flag == "--loss-gamut"@) || (flag == "--loss-state"@) || (flag == "--loss-memory"@) || (flag == "--max-saturation-fraction"@) || (flag == "--stability-patience"@) || (flag == "--mastering-strength"@) || (flag == "--gallery"@) || (flag == "--gallery-steps"@) || (flag == "--gallery-stride"@) || (flag == "--gallery-seed"@) || (flag == "--fresh"@) || (flag == "--render-only"@) || (flag == "--no-reaction-diffusion"@) || (flag == "--no-complex-phase"@) || (flag == "--no-fractal"@) || (flag == "--no-quasiperiodic"@) || (flag == "--no-cyclic"@) || (flag == "--no-mastering"@) || (flag == "--no-state-atlas"@)),
        cli_option_part3(flag) is Some ==> (cli_option_part3(flag) == Some(CliOption::Scalar(F32Field::NcaGain)) || cli_option_part3(flag) == Some(CliOption::Scalar(F32Field::ReactionGain)) || cli_option_part3(flag) == Some(CliOption::Scalar(F32Field::StateLeak)) || cli_option_part3(flag) == Some(CliOption::Scalar(F32Field::PhaseGain)) || cli_option_part3(flag) == Some(CliOption::Scalar(F32Field::FractalGain)) || cli_option_part3(flag) == Some(CliOption::Scalar(F32Field::QuasiperiodicGain)) || cli_option_part3(flag) == Some(CliOption::Scalar(F32Field::CyclicGain)) || cli_option_part3(flag) == Some(CliOption::Scalar(F32Field::RdDiffusionU)) || cli_option_part3(flag) == Some(CliOption::Scalar(F32Field::RdDiffusionV)) || cli_option_part3(flag) == Some(CliOption::Scalar(F32Field::RdFeed)) || cli_option_part3(flag) == Some(CliOption::Scalar(F32Field::RdKill)) || cli_option_part3(flag) == Some(CliOption::Scalar(F32Field::PhaseGrowth)) || cli_option_part3(flag) == Some(CliOption::Scalar(F32Field::PhaseSaturation)) || cli_option_part3(flag) == Some(CliOption::Scalar(F32Field::PhaseFrequency)) || cli_option_part3(flag) == Some(CliOption::Scalar(F32Field::PhaseDiffusion)) || cli_option_part3(flag) == Some(CliOption::Scalar(F32Field::PhaseDispersion)) || cli_option_part3(flag) == Some(CliOption::Scalar(F32Field::LossContent)) || cli_option_part3(flag) == Some(CliOption::Scalar(F32Field::LossPalette)) || cli_option_part3(flag) == Some(CliOption::Scalar(F32Field::LossStructure)) || cli_option_part3(flag) == Some(CliOption::Scalar(F32Field::LossSeam)) || cli_option_part3(flag) == Some(CliOption::Scalar(F32Field::LossGamut)) || cli_option_part3(flag) == Some(CliOption::Scalar(F32Field::LossState)) || cli_option_part3(flag) == Some(CliOption::Scalar(F32Field::LossMemory)) || cli_option_part3(flag) == Some(CliOption::Scalar(F32Field::MaxSaturationFraction)) || cli_option_part3(flag) == Some(CliOption::Size(SizeField::StabilityPatience)) || cli_option_part3(flag) == Some(CliOption::Scalar(F32Field::MasteringStrength)) || cli_option_part3(flag) == Some(CliOption::Size(SizeField::Gallery)) || cli_option_part3(flag) == Some(CliOption::Size(SizeField::GallerySteps)) || cli_option_part3(flag) == Some(CliOption::Size(SizeField::GalleryStride)) || cli_option_part3(flag) == Some(CliOption::Seed(SeedField::GallerySeed)) || cli_option_part3(flag) == Some(CliOption::Switch(SwitchField::Fresh)) || cli_option_part3(flag) == Some(CliOption::Switch(SwitchField::RenderOnly)) || cli_option_part3(flag) == Some(CliOption::Disable(F32Field::ReactionGain)) || cli_option_part3(flag) == Some(CliOption::Disable(F32Field::PhaseGain)) || cli_option_part3(flag) == Some(CliOption::Disable(F32Field::FractalGain)) || cli_option_part3(flag) == Some(CliOption::Disable(F32Field::QuasiperiodicGain)) || cli_option_part3(flag) == Some(CliOption::Disable(F32Field::CyclicGain)) || cli_option_part3(flag) == Some(CliOption::Disable(F32Field::MasteringStrength)) || cli_option_part3(flag) == Some(CliOption::Switch(SwitchField::NoStateAtlas))),
{
    reveal(cli_option_part3);
}

/// The command line's flags: each option is named by its own spelling and no
/// other, and every other argument names no option.
#[verifier::rlimit(50)]
pub proof fn lemma_cli_option_flags(flag: Seq<char>)
    ensures
        cli_option(flag) == Some(CliOption::CorpusDir) ==> (flag == "--corpus-dir"@),
        cli_option(flag) == Some(CliOption::OutputDir) ==> (flag == "--output-dir"@),
        cli_option(flag) == Some(CliOption::RunTag) ==> (flag == "--run-tag"@),
        cli_option(flag) == Some(CliOption::Mode) ==> (flag == "--mode"@),
        cli_option(flag) == Some(CliOption::Profile) ==> (flag == "--profile"@),
        cli_option(flag) == Some(CliOption::Style) ==> (flag == "--style"@),
        cli_option(flag) == Some(CliOption::ResearchPreset) ==> (flag == "--research-preset"@),
        cli_option(flag) == Some(CliOption::Objective) ==> (flag == "--objective"@),
        cli_option(flag) == Some(CliOption::Scalar(F32Field::GroundingStrength)) ==> (flag == "--grounding-strength"@),
        cli_option(flag) == Some(CliOption::Scalar(F32Field::EmergenceStrength)) ==> (flag == "--emergence-strength"@),
        cli_option(flag) == Some(CliOption::Scalar(F32Field::EmergenceLowBudget)) ==> (flag == "--emergence-low-budget"@),
        cli_option(flag) == Some(CliOption::Scalar(F32Field::EmergenceMidBudget)) ==> (flag == "--emergence-mid-budget"@),
        cli_option(flag) == Some(CliOption::Scalar(F32Field::EmergenceStart)) ==> (flag == "--emergence-start"@),
        cli_option(flag) == Some(CliOption::Scalar(F32Field::EmergenceRamp)) ==> (flag == "--emergence-ramp"@),
        cli_option(flag) == Some(CliOption::Scalar(F32Field::GroundingFloor)) ==> (flag == "--grounding-floor"@),
        cli_option(flag) == Some(CliOption::Scalar(F32Field::EmergentLimit)) ==> (flag == "--emergent-limit"@),
        cli_option(flag) == Some(CliOption::Scalar(F32Field::LocalReferenceGain)) ==> (flag == "--local-reference-gain"@),
        cli_option(flag) == Some(CliOption::Scalar(F32Field::LossComposite)) ==> (flag == "--loss-composite"@),
        cli_option(flag) == Some(CliOption::Scalar(F32Field::LossGroundCoarse)) ==> (flag == "--loss-ground-coarse"@),
        cli_option(flag) == Some(CliOption::Scalar(F32Field::LossGroundMid)) ==> (flag == "--loss-ground-mid"@),
        cli_option(flag) == Some(CliOption::Scalar(F32Field::LossGroundFine)) ==> (flag == "--loss-ground-fine"@),
        cli_option(flag) == Some(CliOption::Scalar(F32Field::LossEmergentLow)) ==> (flag == "--loss-emergent-low"@),
        cli_option(flag) == Some(CliOption::Scalar(F32Field::LossEmergentTv)) ==> (flag == "--loss-emergent-tv"@),
        cli_option(flag) == Some(CliOption::Scalar(F32Field::DetailCropProbability)) ==> (flag == "--detail-crop-probability"@),
        cli_option(flag) == Some(CliOption::Scalar(F32Field::LossEmergentFit)) ==> (flag == "--loss-emergent-fit"@),
        cli_option(flag) == Some(CliOption::Scalar(F32Field::LossHeadRedundancy)) ==> (flag == "--loss-head-redundancy"@),
        cli_option(flag) == Some(CliOption::Scalar(F32Field::LossCrossResolution)) ==> (flag == "--loss-cross-resolution"@),
        cli_option(flag) == Some(CliOption::Size(SizeField::DetailResolution)) ==> (flag == "--detail-resolution"@),
        cli_option(flag) == Some(CliOption::Scalar(F32Field::DetailMinZoom)) ==> (flag == "--detail-min-zoom"@),
        cli_option(flag) == Some(CliOption::Scalar(F32Field::DetailMaxZoom)) ==> (flag == "--detail-max-zoom"@),
        cli_option(flag) == Some(CliOption::Scalar(F32Field::DetailCurriculumStart)) ==> (flag == "--detail-curriculum-start"@),
        cli_option(flag) == Some(CliOption::Size(SizeField::PyramidCacheMaxLevel)) ==> (flag == "--pyramid-cache-max-level"@),
        cli_option(flag) == Some(CliOption::PyramidCacheDir) ==> (flag == "--pyramid-cache-dir"@),
        cli_option(flag) == Some(CliOption::TargetBoundary) ==> (flag == "--target-boundary"@),
        cli_option(flag) == Some(CliOption::MorphDepthMode) ==> (flag == "--morph-depth-mode"@),
        cli_option(flag) == Some(CliOption::Size(SizeField::MorphMinDepth)) ==> (flag == "--morph-min-depth"@),
        cli_option(flag) == Some(CliOption::Size(SizeField::MorphMaxDepth)) ==> (flag == "--morph-max-depth"@),
        cli_option(flag) == Some(CliOption::Size(SizeField::MorphGrowthInterval)) ==> (flag == "--morph-growth-interval"@),
        cli_option(flag) == Some(CliOption::Size(SizeField::MorphPlateauWindow)) ==> (flag == "--morph-plateau-window"@),
        cli_option(flag) == Some(CliOption::Scalar(F32Field::MorphPlateauEpsilon)) ==> (flag == "--morph-plateau-epsilon"@),
        cli_option(flag) == Some(CliOption::Scalar(F32Field::MorphSeamThreshold)) ==> (flag == "--morph-seam-threshold"@),
        cli_option(flag) == Some(CliOption::Scalar(F32Field::FlowWeight)) ==> (flag == "--flow-weight"@),
        cli_option(flag) == Some(CliOption::Scalar(F32Field::FlowEndpointWeight)) ==> (flag == "--flow-endpoint-weight"@),
        cli_option(flag) == Some(CliOption::Scalar(F32Field::FlowMinTime)) ==> (flag == "--flow-min-time"@),
        cli_option(flag) == Some(CliOption::Scalar(F32Field::FlowMaxTime)) ==> (flag == "--flow-max-time"@),
        cli_option(flag) == Some(CliOption::Size(SizeField::FlowHidden)) ==> (flag == "--flow-hidden"@),
        cli_option(flag) == Some(CliOption::Size(SizeField::FlowResolution)) ==> (flag == "--flow-resolution"@),
        cli_option(flag) == Some(CliOption::Size(SizeField::FlowCadence)) ==> (flag == "--flow-cadence"@),
        cli_option(flag) == Some(CliOption::Size(SizeField::FlowSampleSteps)) ==> (flag == "--flow-sample-steps"@),
        cli_option(flag) == Some(CliOption::Terminal) ==> (flag == "--terminal"@),
        cli_option(flag) == Some(CliOption::Switch(SwitchField::AnalysisOnly)) ==> (flag == "--analysis-only"@),
        cli_option(flag) == Some(CliOption::Switch(SwitchField::RenderAttribution)) ==> (flag == "--render-attribution"@),
        cli_option(flag) == Some(CliOption::Switch(SwitchField::ModelStats)) ==> (flag == "--model-stats"@),
        cli_option(flag) == Some(CliOption::Switch(SwitchField::Benchmark)) ==> (flag == "--benchmark"@),
        cli_option(flag) == Some(CliOption::ProbeDir) ==> (flag == "--probe-dir"@),
        cli_option(flag) == Some(CliOption::ProbeAges) ==> (flag == "--probe-ages"@),
        cli_option(flag) == Some(CliOption::ProbeReferenceFidelities) ==> (flag == "--probe-reference-fidelities"@),
        cli_option(flag) == Some(CliOption::CompareV8Dir) ==> (flag == "--compare-v8-dir"@),
        cli_option(flag) == Some(CliOption::Size(SizeField::AutonomousRollout)) ==> (flag == "--autonomous-rollout"@),
        cli_option(flag) == Some(CliOption::Size(SizeField::PerturbationAnalysis)) ==> (flag == "--perturbation-analysis"@),
        cli_option(flag) == Some(CliOption::Size(SizeField::DynamicsAblation)) ==> (flag == "--dynamics-ablation"@),
        cli_option(flag) == Some(CliOption::Size(SizeField::AnalysisStride)) ==> (flag == "--analysis-stride"@),
        cli_option(flag) == Some(CliOption::Switch(SwitchField::NoEmergenceGallery)) ==> (flag == "--no-emergence-gallery"@),
        cli_option(flag) == Some(CliOption::Size(SizeField::Steps)) ==> (flag == "--steps"@),
        cli_option(flag) == Some(CliOption::Size(SizeField::Threads)) ==> (flag == "--threads"@) || (flag == "-t"@),
        cli_option(flag) == Some(CliOption::Seed(SeedField::Seed)) ==> (flag == "--seed"@),
        cli_option(flag) == Some(CliOption::Size(SizeField::MicroSize)) ==> (flag == "--micro-size"@),
        cli_option(flag) == Some(CliOption::Size(SizeField::MacroSize)) ==> (flag == "--macro-size"@),
        cli_option(flag) == Some(CliOption::Size(SizeField::Channels)) ==> (flag == "--channels"@),
        cli_option(flag) == Some(CliOption::Size(SizeField::GenomeDim)) ==> (flag == "--genome-dim"@),
        cli_option(flag) == Some(CliOption::Size(SizeField::CaHidden)) ==> (flag == "--ca-hidden"@),
        cli_option(flag) == Some(CliOption::Size(SizeField::InterfaceGrid)) ==> (flag == "--interface-grid"@),
        cli_option(flag) == Some(CliOption::Size(SizeField::InterfaceWidth)) ==> (flag == "--interface-width"@),
        cli_option(flag) == Some(CliOption::Size(SizeField::InterfaceLoops)) ==> (flag == "--interface-loops"@),
        cli_option(flag) == Some(CliOption::Size(SizeField::MorphLayers)) ==> (flag == "--morph-layers"@),
        cli_option(flag) == Some(CliOption::Size(SizeField::MorphDepth)) ==> (flag == "--morph-depth"@),
        cli_option(flag) == Some(CliOption::Scalar(F32Field::MorphResidualGain)) ==> (flag == "--morph-residual-gain"@),
        cli_option(flag) == Some(CliOption::Scalar(F32Field::MemoryLimit)) ==> (flag == "--memory-limit"@),
        cli_option(flag) == Some(CliOption::Scalar(F32Field::InterfaceGain)) ==> (flag == "--interface-gain"@),
        cli_option(flag) == Some(CliOption::Conditioning) ==> (flag == "--conditioning"@),
        cli_option(flag) == Some(CliOption::Scalar(F32Field::ReferenceFidelityMin)) ==> (flag == "--reference-fidelity-min"@),
        cli_option(flag) == Some(CliOption::Scalar(F32Field::ReferenceFidelityMax)) ==> (flag == "--reference-fidelity-max"@),
        cli_option(flag) == Some(CliOption::Scalar(F32Field::ReferenceDropout)) ==> (flag == "--reference-dropout"@),
        cli_option(flag) == Some(CliOption::Size(SizeField::RenderHidden)) ==> (flag == "--render-hidden"@),
        cli_option(flag) == Some(CliOption::Size(SizeField::RenderBlocks)) ==> (flag == "--render-blocks"@),
        cli_option(flag) == Some(CliOption::Size(SizeField::CoordBands)) ==> (flag == "--coord-bands"@),
        cli_option(flag) == Some(CliOption::Scalar(F32Field::CoordGain)) ==> (flag == "--coord-gain"@),
        cli_option(flag) == Some(CliOption::Scalar(F32Field::StateSkip)) ==> (flag == "--state-skip"@),
        cli_option(flag) == Some(CliOption::Scalar(F32Field::Chroma)) ==> (flag == "--chroma"@),
        cli_option(flag) == Some(CliOption::Scalar(F32Field::Gamma)) ==> (flag == "--gamma"@),
        cli_option(flag) == Some(CliOption::Size(SizeField::TrainResolution)) ==> (flag == "--train-resolution"@),
        cli_option(flag) == Some(CliOption::Size(SizeField::OutputResolution)) ==> (flag == "--output-resolution"@),
        cli_option(flag) == Some(CliOption::Size(SizeField::SnapshotResolution)) ==> (flag == "--snapshot-resolution"@),
        cli_option(flag) == Some(CliOption::Size(SizeField::EpisodeSteps)) ==> (flag == "--episode-steps"@),
        cli_option(flag) == Some(CliOption::Scalar(F32Field::EpisodeReset)) ==> (flag == "--episode-reset"@),
        cli_option(flag) == Some(CliOption::Scalar(F32Field::MemoryReset)) ==> (flag == "--memory-reset"@),
        cli_option(flag) == Some(CliOption::Size(SizeField::Bptt)) ==> (flag == "--bptt"@),
        cli_option(flag) == Some(CliOption::Size(SizeField::CoreUpdateEvery)) ==> (flag == "--core-update-every"@),
        cli_option(flag) == Some(CliOption::Size(SizeField::MacroUpdateEvery)) ==> (flag == "--macro-update-every"@),
        cli_option(flag) == Some(CliOption::Size(SizeField::SnapshotEvery)) ==> (flag == "--snapshot-every"@),
        cli_option(flag) == Some(CliOption::Size(SizeField::CheckpointEvery)) ==> (flag == "--checkpoint-every"@),
        cli_option(flag) == Some(CliOption::Size(SizeField::LogEvery)) ==> (flag == "--log-every"@),
        cli_option(flag) == Some(CliOption::Size(SizeField::ImageCache)) ==> (flag == "--image-cache"@),
        cli_option(flag) == Some(CliOption::Switch(SwitchField::RecursiveCorpus)) ==> (flag == "--recursive-corpus"@),
        cli_option(flag) == Some(CliOption::Wide(F64Field::LearningRate)) ==> (flag == "--learning-rate"@),
        cli_option(flag) == Some(CliOption::Wide(F64Field::WeightDecay)) ==> (flag == "--weight-decay"@),
        cli_option(flag) == Some(CliOption::Wide(F64Field::Beta1)) ==> (flag == "--beta1"@),
        cli_option(flag) == Some(CliOption::Wide(F64Field::Beta2)) ==> (flag == "--beta2"@),
        cli_option(flag) == Some(CliOption::Wide(F64Field::AdamEpsilon)) ==> (flag == "--adam-epsilon"@),
        cli_option(flag) == Some(CliOption::Wide(F64Field::GradClip)) ==> (flag == "--grad-clip"@),
        cli_option(flag) == Some(CliOption::Size(SizeField::WarmupUpdates)) ==> (flag == "--warmup-updates"@),
        cli_option(flag) == Some(CliOption::Optimizer) ==> (flag == "--optimizer"@),
        cli_option(flag) == Some(CliOption::Wide(F64Field::MuonMomentum)) ==> (flag == "--muon-momentum"@),
        cli_option(flag) == Some(CliOption::Size(SizeField::MuonNsSteps)) ==> (flag == "--muon-ns-steps"@),
        cli_option(flag) == Some(CliOption::Integrator) ==> (flag == "--integrator"@),
        cli_option(flag) == Some(CliOption::Scalar(F32Field::Dt)) ==> (flag == "--dt"@),
        cli_option(flag) == Some(CliOption::Scalar(F32Field::StateLimit)) ==> (flag == "--state-limit"@),
        cli_option(flag) == Some(CliOption::Scalar(F32Field::StateSoftLimit)) ==> (flag == "--state-soft-limit"@),
        cli_option(flag) == Some(CliOption::Scalar(F32Field::ClockProbability)) ==> (flag == "--clock-probability"@),
        cli_option(flag) == Some(CliOption::Scalar(F32Field::NcaGain)) ==> (flag == "--nca-gain"@),
        cli_option(flag) == Some(CliOption::Scalar(F32Field::ReactionGain)) ==> (flag == "--reaction-gain"@),
        cli_option(flag) == Some(CliOption::Scalar(F32Field::StateLeak)) ==> (flag == "--state-leak"@),
        cli_option(flag) == Some(CliOption::Scalar(F32Field::PhaseGain)) ==> (flag == "--phase-gain"@),
        cli_option(flag) == Some(CliOption::Scalar(F32Field::FractalGain)) ==> (flag == "--fractal-gain"@),
        cli_option(flag) == Some(CliOption::Scalar(F32Field::QuasiperiodicGain)) ==> (flag == "--quasiperiodic-gain"@),
        cli_option(flag) == Some(CliOption::Scalar(F32Field::CyclicGain)) ==> (flag == "--cyclic-gain"@),
        cli_option(flag) == Some(CliOption::Scalar(F32Field::RdDiffusionU)) ==> (flag == "--rd-diffusion-u"@),
        cli_option(flag) == Some(CliOption::Scalar(F32Field::RdDiffusionV)) ==> (flag == "--rd-diffusion-v"@),
        cli_option(flag) == Some(CliOption::Scalar(F32Field::RdFeed)) ==> (flag == "--rd-feed"@),
        cli_option(flag) == Some(CliOption::Scalar(F32Field::RdKill)) ==> (flag == "--rd-kill"@),
        cli_option(flag) == Some(CliOption::Scalar(F32Field::PhaseGrowth)) ==> (flag == "--phase-growth"@),
        cli_option(flag) == Some(CliOption::Scalar(F32Field::PhaseSaturation)) ==> (flag == "--phase-saturation"@),
        cli_option(flag) == Some(CliOption::Scalar(F32Field::PhaseFrequency)) ==> (flag == "--phase-frequency"@),
        cli_option(flag) == Some(CliOption::Scalar(F32Field::PhaseDiffusion)) ==> (flag == "--phase-diffusion"@),
        cli_option(flag) == Some(CliOption::Scalar(F32Field::PhaseDispersion)) ==> (flag == "--phase-dispersion"@),
        cli_option(flag) == Some(CliOption::Scalar(F32Field::LossContent)) ==> (flag == "--loss-content"@),
        cli_option(flag) == Some(CliOption::Scalar(F32Field::LossPalette)) ==> (flag == "--loss-palette"@),
        cli_option(flag) == Some(CliOption::Scalar(F32Field::LossStructure)) ==> (flag == "--loss-structure"@),
        cli_option(flag) == Some(CliOption::Scalar(F32Field::LossSeam)) ==> (flag == "--loss-seam"@),
        cli_option(flag) == Some(CliOption::Scalar(F32Field::LossGamut)) ==> (flag == "--loss-gamut"@),
        cli_option(flag) == Some(CliOption::Scalar(F32Field::LossState)) ==> (flag == "--loss-state"@),
        cli_option(flag) == Some(CliOption::Scalar(F32Field::LossMemory)) ==> (flag == "--loss-memory"@),
        cli_option(flag) == Some(CliOption::Scalar(F32Field::MaxSaturationFraction)) ==> (flag == "--max-saturation-fraction"@),
        cli_option(flag) == Some(CliOption::Size(SizeField::StabilityPatience)) ==> (flag == "--stability-patience"@),
        cli_option(flag) == Some(CliOption::Scalar(F32Field::MasteringStrength)) ==> (flag == "--mastering-strength"@),
        cli_option(flag) == Some(CliOption::Size(SizeField::Gallery)) ==> (flag == "--gallery"@),
        cli_option(flag) == Some(CliOption::Size(SizeField::GallerySteps)) ==> (flag == "--gallery-steps"@),
        cli_option(flag) == Some(CliOption::Size(SizeField::GalleryStride)) ==> (flag == "--gallery-stride"@),
        cli_option(flag) == Some(CliOption::Seed(SeedField::GallerySeed)) ==> (flag == "--gallery-seed"@),
        cli_option(flag) == Some(CliOption::Switch(SwitchField::Fresh)) ==> (flag == "--fresh"@),
        cli_option(flag) == Some(CliOption::Switch(SwitchField::RenderOnly)) ==> (flag == "--render-only"@),
        cli_option(flag) == Some(CliOption::Disable(F32Field::ReactionGain)) ==> (flag == "--no-reaction-diffusion"@),
        cli_option(flag) == Some(CliOption::Disable(F32Field::PhaseGain)) ==> (flag == "--no-complex-phase"@),
        cli_option(flag) == Some(CliOption::Disable(F32Field::FractalGain)) ==> (flag == "--no-fractal"@),
        cli_option(flag) == Some(CliOption::Disable(F32Field::QuasiperiodicGain)) ==> (flag == "--no-quasiperiodic"@),
        cli_option(flag) == Some(CliOption::Disable(F32Field::CyclicGain)) ==> (flag == "--no-cyclic"@),
        cli_option(flag) == Some(CliOption::Disable(F32Field::MasteringStrength)) ==> (flag == "--no-mastering"@),
        cli_option(flag) == Some(CliOption::Switch(SwitchField::NoStateAtlas)) ==> (flag == "--no-state-atlas"@),
        cli_option(flag) is None <==> !((flag == "--corpus-dir"@) || (flag == "--output-dir"@) || (flag == "--run-tag"@) || (flag == "--mode"@) || (flag == "--profile"@) || (flag == "--style"@) || (flag == "--research-preset"@) || (flag == "--objective"@) || (flag == "--grounding-strength"@) || (flag == "--emergence-strength"@) || (flag == "--emergence-low-budget"@) || (flag == "--emergence-mid-budget"@) || (flag == "--emergence-start"@) || (flag == "--emergence-ramp"@) || (flag == "--grounding-floor"@) || (flag == "--emergent-limit"@) || (flag == "--local-reference-gain"@) || (flag == "--loss-composite"@) || (flag == "--loss-ground-coarse"@) || (flag == "--loss-ground-mid"@) || (flag == "--loss-ground-fine"@) || (flag == "--loss-emergent-low"@) || (flag == "--loss-emergent-tv"@) || (flag == "--detail-crop-probability"@) || (flag == "--loss-emergent-fit"@) || (flag == "--loss-head-redundancy"@) || (flag == "--loss-cross-resolution"@) || (flag == "--detail-resolution"@) || (flag == "--detail-min-zoom"@) || (flag == "--detail-max-zoom"@) || (flag == "--detail-curriculum-start"@) || (flag == "--pyramid-cache-max-level"@) || (flag == "--pyramid-cache-dir"@) || (flag == "--target-boundary"@) || (flag == "--morph-depth-mode"@) || (flag == "--morph-min-depth"@) || (flag == "--morph-max-depth"@) || (flag == "--morph-growth-interval"@) || (flag == "--morph-plateau-window"@) || (flag == "--morph-plateau-epsilon"@) || (flag == "--morph-seam-threshold"@) || (flag == "--flow-weight"@) || (flag == "--flow-endpoint-weight"@) || (flag == "--flow-min-time"@) || (flag == "--flow-max-time"@) || (flag == "--flow-hidden"@) || (flag == "--flow-resolution"@) || (flag == "--flow-cadence"@) || (flag == "--flow-sample-steps"@) || (flag == "--terminal"@) || (flag == "--analysis-only"@) || (flag == "--render-attribution"@) || (flag == "--model-stats"@) || (flag == "--benchmark"@) || (flag == "--probe-dir"@) || (flag == "--probe-ages"@) || (flag == "--probe-reference-fidelities"@) || (flag == "--compare-v8-dir"@) || (flag == "--autonomous-rollout"@) || (flag == "--perturbation-analysis"@) || (flag == "--dynamics-ablation"@) || (flag == "--analysis-stride"@) || (flag == "--no-emergence-gallery"@) || (flag == "--steps"@) || (flag == "--threads"@) || (flag == "-t"@) || (flag == "--seed"@) || (flag == "--micro-size"@) || (flag == "--macro-size"@) || (flag == "--channels"@) || (flag == "--genome-dim"@) || (flag == "--ca-hidden"@) || (flag == "--interface-grid"@) || (flag == "--interface-width"@) || (flag == "--interface-loops"@) || (flag == "--morph-layers"@) || (flag == "--morph-depth"@) || (flag == "--morph-residual-gain"@) || (flag == "--memory-limit"@) || (flag == "--interface-gain"@) || (flag == "--conditioning"@) || (flag == "--reference-fidelity-min"@) || (flag == "--reference-fidelity-max"@) || (flag == "--reference-dropout"@) || (flag == "--render-hidden"@) || (flag == "--render-blocks"@) || (flag == "--coord-bands"@) || (flag == "--coord-gain"@) || (flag == "--state-skip"@) || (flag == "--chroma"@) || (flag == "--gamma"@) || (flag == "--train-resolution"@) || (flag == "--output-resolution"@) || (flag == "--snapshot-resolution"@) || (flag == "--episode-steps"@) || (flag == "--episode-reset"@) || (flag == "--memory-reset"@) || (flag == "--bptt"@) || (flag == "--core-update-every"@) || (flag == "--macro-update-every"@) || (flag == "--snapshot-every"@) || (flag == "--checkpoint-every"@) || (flag == "--log-every"@) || (flag == "--image-cache"@) || (flag == "--recursive-corpus"@) || (flag == "--learning-rate"@) || (flag == "--weight-decay"@) || (flag == "--beta1"@) || (flag == "--beta2"@) || (flag == "--adam-epsilon"@) || (flag == "--grad-clip"@) || (flag == "--warmup-updates"@) || (flag == "--optimizer"@) || (flag == "--muon-momentum"@) || (flag == "--muon-ns-steps"@) || (flag == "--integrator"@) || (flag == "--dt"@) || (flag == "--state-limit"@) || (flag == "--state-soft-limit"@) || (flag == "--clock-probability"@) || (flag == "--nca-gain"@) || (flag == "--reaction-gain"@) || (flag == "--state-leak"@) || (flag == "--phase-gain"@) || (flag == "--fractal-gain"@) || (flag == "--quasiperiodic-gain"@) || (flag == "--cyclic-gain"@) || (flag == "--rd-diffusion-u"@) || (flag == "--rd-diffusion-v"@) || (flag == "--rd-feed"@) || (flag == "--rd-kill"@) || (flag == "--phase-growth"@) || (flag == "--phase-saturation"@) || (flag == "--phase-frequency"@) || (flag == "--phase-diffusion"@) || (flag == "--phase-dispersion"@) || (flag == "--loss-content"@) || (flag == "--loss-palette"@) || (flag == "--loss-structure"@) || (flag == "--loss-seam"@) || (flag == "--loss-gamut"@) || (flag == "--loss-state"@) || (flag == "--loss-memory"@) || (flag == "--max-saturation-fraction"@) || (flag == "--stability-patience"@) || (flag == "--mastering-strength"@) || (flag == "--gallery"@) || (flag == "--gallery-steps"@) || (flag == "--gallery-stride"@) || (flag == "--gallery-seed"@) || (flag == "--fresh"@) || (flag == "--render-only"@) || (flag == "--no-reaction-diffusion"@) || (flag == "--no-complex-phase"@) || (flag == "--no-fractal"@) || (flag == "--no-quasiperiodic"@) || (flag == "--no-cyclic"@) || (flag == "--no-mastering"@) || (flag == "--no-state-atlas"@)),
{
    reveal(cli_option);
    lemma_cli_option_part0_flags(flag);
    lemma_cli_option_part1_flags(flag);
    lemma_cli_option_part2_flags(flag);
    lemma_cli_option_part3_flags(flag);
}

} // verus!
