//! The guards that a run configuration must pass before any work starts.
use vstd::prelude::*;
use crate::config::MorphDepthMode;
use crate::float_bits::{
    f32_eq, f32_equal, f32_in_finite_range, f32_le, f32_less, f32_less_equal,
    f32_lt, f32_sum_exceeds_two, f32_sum_gt_two, f32_within, f64_finite, f64_is_finite, f64_le,
    f64_less, f64_less_equal, f64_lt,
};
use crate::run_config::{is_default_config, AnalysisConfig, RunConfig, MIN_PHYSICAL_CHANNELS};
use crate::experiment::{experiment_violation, ExperimentViolation};

verus! {

pub const ZERO: u32 = 0x0000_0000;

pub const ONE: u32 = 0x3F80_0000;

pub const THIRTY_TWO: u32 = 0x4200_0000;

pub const ZERO64: u64 = 0x0000_0000_0000_0000;

pub const ONE64: u64 = 0x3FF0_0000_0000_0000;

/// A scalar setting named by the option that sets it.
#[derive(Clone, Copy, Debug, PartialEq, Eq, Structural)]
pub enum Scalar {
    MorphPlateauEpsilon,
    MorphSeamThreshold,
    GroundingStrength,
    EmergenceStrength,
    EmergenceStart,
    EmergenceRamp,
    GroundingFloor,
    EmergentLimit,
    LocalReferenceGain,
    EmergenceLowBudget,
    EmergenceMidBudget,
    LossComposite,
    LossGroundCoarse,
    LossGroundMid,
    LossGroundFine,
    LossEmergentLow,
    LossEmergentTv,
    LossEmergentFit,
    LossHeadRedundancy,
    LossCrossResolution,
    DetailCropProbability,
    DetailCurriculumStart,
    FlowWeight,
    FlowEndpointWeight,
    FlowMinTime,
    FlowMaxTime,
    InterfaceGain,
    MorphResidualGain,
    MemoryLimit,
    ReferenceFidelityMin,
    ReferenceFidelityMax,
    ReferenceDropout,
    CoordGain,
    StateSkip,
    Chroma,
    Gamma,
    LearningRate,
    WeightDecay,
    AdamEpsilon,
    GradClip,
    Dt,
    StateLimit,
    StateSoftLimit,
    ClockProbability,
    EpisodeReset,
    MemoryReset,
    StateLeak,
    NcaGain,
    ReactionGain,
    PhaseGain,
    FractalGain,
    QuasiperiodicGain,
    CyclicGain,
    RdDiffusionU,
    RdDiffusionV,
    RdFeed,
    RdKill,
    PhaseGrowth,
    PhaseSaturation,
    PhaseFrequency,
    PhaseDiffusion,
    PhaseDispersion,
    LossContent,
    LossPalette,
    LossStructure,
    LossSeam,
    LossGamut,
    LossState,
    LossMemory,
    MaxSaturationFraction,
    MasteringStrength,
    ProbeReferenceFidelities,
}


impl Scalar {
    /// The command-line option that sets this scalar.
    pub open spec fn flag_text(self) -> Seq<char> {
        match self {
            Scalar::MorphPlateauEpsilon => "--morph-plateau-epsilon"@,
            Scalar::MorphSeamThreshold => "--morph-seam-threshold"@,
            Scalar::GroundingStrength => "--grounding-strength"@,
            Scalar::EmergenceStrength => "--emergence-strength"@,
            Scalar::EmergenceStart => "--emergence-start"@,
            Scalar::EmergenceRamp => "--emergence-ramp"@,
            Scalar::GroundingFloor => "--grounding-floor"@,
            Scalar::EmergentLimit => "--emergent-limit"@,
            Scalar::LocalReferenceGain => "--local-reference-gain"@,
            Scalar::EmergenceLowBudget => "--emergence-low-budget"@,
            Scalar::EmergenceMidBudget => "--emergence-mid-budget"@,
            Scalar::LossComposite => "--loss-composite"@,
            Scalar::LossGroundCoarse => "--loss-ground-coarse"@,
            Scalar::LossGroundMid => "--loss-ground-mid"@,
            Scalar::LossGroundFine => "--loss-ground-fine"@,
            Scalar::LossEmergentLow => "--loss-emergent-low"@,
            Scalar::LossEmergentTv => "--loss-emergent-tv"@,
            Scalar::LossEmergentFit => "--loss-emergent-fit"@,
            Scalar::LossHeadRedundancy => "--loss-head-redundancy"@,
            Scalar::LossCrossResolution => "--loss-cross-resolution"@,
            Scalar::DetailCropProbability => "--detail-crop-probability"@,
            Scalar::DetailCurriculumStart => "--detail-curriculum-start"@,
            Scalar::FlowWeight => "--flow-weight"@,
            Scalar::FlowEndpointWeight => "--flow-endpoint-weight"@,
            Scalar::FlowMinTime => "--flow-min-time"@,
            Scalar::FlowMaxTime => "--flow-max-time"@,
            Scalar::InterfaceGain => "--interface-gain"@,
            Scalar::MorphResidualGain => "--morph-residual-gain"@,
            Scalar::MemoryLimit => "--memory-limit"@,
            Scalar::ReferenceFidelityMin => "--reference-fidelity-min"@,
            Scalar::ReferenceFidelityMax => "--reference-fidelity-max"@,
            Scalar::ReferenceDropout => "--reference-dropout"@,
            Scalar::CoordGain => "--coord-gain"@,
            Scalar::StateSkip => "--state-skip"@,
            Scalar::Chroma => "--chroma"@,
            Scalar::Gamma => "--gamma"@,
            Scalar::LearningRate => "--learning-rate"@,
            Scalar::WeightDecay => "--weight-decay"@,
            Scalar::AdamEpsilon => "--adam-epsilon"@,
            Scalar::GradClip => "--grad-clip"@,
            Scalar::Dt => "--dt"@,
            Scalar::StateLimit => "--state-limit"@,
            Scalar::StateSoftLimit => "--state-soft-limit"@,
            Scalar::ClockProbability => "--clock-probability"@,
            Scalar::EpisodeReset => "--episode-reset"@,
            Scalar::MemoryReset => "--memory-reset"@,
            Scalar::StateLeak => "--state-leak"@,
            Scalar::NcaGain => "--nca-gain"@,
            Scalar::ReactionGain => "--reaction-gain"@,
            Scalar::PhaseGain => "--phase-gain"@,
            Scalar::FractalGain => "--fractal-gain"@,
            Scalar::QuasiperiodicGain => "--quasiperiodic-gain"@,
            Scalar::CyclicGain => "--cyclic-gain"@,
            Scalar::RdDiffusionU => "--rd-diffusion-u"@,
            Scalar::RdDiffusionV => "--rd-diffusion-v"@,
            Scalar::RdFeed => "--rd-feed"@,
            Scalar::RdKill => "--rd-kill"@,
            Scalar::PhaseGrowth => "--phase-growth"@,
            Scalar::PhaseSaturation => "--phase-saturation"@,
            Scalar::PhaseFrequency => "--phase-frequency"@,
            Scalar::PhaseDiffusion => "--phase-diffusion"@,
            Scalar::PhaseDispersion => "--phase-dispersion"@,
            Scalar::LossContent => "--loss-content"@,
            Scalar::LossPalette => "--loss-palette"@,
            Scalar::LossStructure => "--loss-structure"@,
            Scalar::LossSeam => "--loss-seam"@,
            Scalar::LossGamut => "--loss-gamut"@,
            Scalar::LossState => "--loss-state"@,
            Scalar::LossMemory => "--loss-memory"@,
            Scalar::MaxSaturationFraction => "--max-saturation-fraction"@,
            Scalar::MasteringStrength => "--mastering-strength"@,
            Scalar::ProbeReferenceFidelities => "--probe-reference-fidelities"@,
        }
    }

    pub fn flag(self) -> (r: &'static str)
        ensures
            r@ == self.flag_text(),
    {
        match self {
            Scalar::MorphPlateauEpsilon => "--morph-plateau-epsilon",
            Scalar::MorphSeamThreshold => "--morph-seam-threshold",
            Scalar::GroundingStrength => "--grounding-strength",
            Scalar::EmergenceStrength => "--emergence-strength",
            Scalar::EmergenceStart => "--emergence-start",
            Scalar::EmergenceRamp => "--emergence-ramp",
            Scalar::GroundingFloor => "--grounding-floor",
            Scalar::EmergentLimit => "--emergent-limit",
            Scalar::LocalReferenceGain => "--local-reference-gain",
            Scalar::EmergenceLowBudget => "--emergence-low-budget",
            Scalar::EmergenceMidBudget => "--emergence-mid-budget",
            Scalar::LossComposite => "--loss-composite",
            Scalar::LossGroundCoarse => "--loss-ground-coarse",
            Scalar::LossGroundMid => "--loss-ground-mid",
            Scalar::LossGroundFine => "--loss-ground-fine",
            Scalar::LossEmergentLow => "--loss-emergent-low",
            Scalar::LossEmergentTv => "--loss-emergent-tv",
            Scalar::LossEmergentFit => "--loss-emergent-fit",
            Scalar::LossHeadRedundancy => "--loss-head-redundancy",
            Scalar::LossCrossResolution => "--loss-cross-resolution",
            Scalar::DetailCropProbability => "--detail-crop-probability",
            Scalar::DetailCurriculumStart => "--detail-curriculum-start",
            Scalar::FlowWeight => "--flow-weight",
            Scalar::FlowEndpointWeight => "--flow-endpoint-weight",
            Scalar::FlowMinTime => "--flow-min-time",
            Scalar::FlowMaxTime => "--flow-max-time",
            Scalar::InterfaceGain => "--interface-gain",
            Scalar::MorphResidualGain => "--morph-residual-gain",
            Scalar::MemoryLimit => "--memory-limit",
            Scalar::ReferenceFidelityMin => "--reference-fidelity-min",
            Scalar::ReferenceFidelityMax => "--reference-fidelity-max",
            Scalar::ReferenceDropout => "--reference-dropout",
            Scalar::CoordGain => "--coord-gain",
            Scalar::StateSkip => "--state-skip",
            Scalar::Chroma => "--chroma",
            Scalar::Gamma => "--gamma",
            Scalar::LearningRate => "--learning-rate",
            Scalar::WeightDecay => "--weight-decay",
            Scalar::AdamEpsilon => "--adam-epsilon",
            Scalar::GradClip => "--grad-clip",
            Scalar::Dt => "--dt",
            Scalar::StateLimit => "--state-limit",
            Scalar::StateSoftLimit => "--state-soft-limit",
            Scalar::ClockProbability => "--clock-probability",
            Scalar::EpisodeReset => "--episode-reset",
            Scalar::MemoryReset => "--memory-reset",
            Scalar::StateLeak => "--state-leak",
            Scalar::NcaGain => "--nca-gain",
            Scalar::ReactionGain => "--reaction-gain",
            Scalar::PhaseGain => "--phase-gain",
            Scalar::FractalGain => "--fractal-gain",
            Scalar::QuasiperiodicGain => "--quasiperiodic-gain",
            Scalar::CyclicGain => "--cyclic-gain",
            Scalar::RdDiffusionU => "--rd-diffusion-u",
            Scalar::RdDiffusionV => "--rd-diffusion-v",
            Scalar::RdFeed => "--rd-feed",
            Scalar::RdKill => "--rd-kill",
            Scalar::PhaseGrowth => "--phase-growth",
            Scalar::PhaseSaturation => "--phase-saturation",
            Scalar::PhaseFrequency => "--phase-frequency",
            Scalar::PhaseDiffusion => "--phase-diffusion",
            Scalar::PhaseDispersion => "--phase-dispersion",
            Scalar::LossContent => "--loss-content",
            Scalar::LossPalette => "--loss-palette",
            Scalar::LossStructure => "--loss-structure",
            Scalar::LossSeam => "--loss-seam",
            Scalar::LossGamut => "--loss-gamut",
            Scalar::LossState => "--loss-state",
            Scalar::LossMemory => "--loss-memory",
            Scalar::MaxSaturationFraction => "--max-saturation-fraction",
            Scalar::MasteringStrength => "--mastering-strength",
            Scalar::ProbeReferenceFidelities => "--probe-reference-fidelities",
        }
    }
}

/// The first guard that a configuration fails.
#[derive(Clone, Copy, Debug, PartialEq, Eq, Structural)]
pub enum Violation {
    /// `--steps` is zero while training.
    StepsZero,
    /// `--bptt` or `--episode-steps` is zero.
    BpttOrEpisodeZero,
    /// `--steps` is not a multiple of `--bptt` while training.
    StepsNotMultipleOfBptt,
    /// `--episode-steps` is not a multiple of `--bptt`.
    EpisodeNotMultipleOfBptt,
    /// `--threads` is outside 1..=64.
    Threads,
    /// `--micro-size` is outside 24..=128 or `--macro-size` outside 8..=micro-size.
    FieldSizes,
    /// `--channels` is outside 12..=64.
    Channels,
    /// An architecture width or count exceeds its range.
    Architecture,
    /// `--interface-grid` is outside 2..=16 or does not divide both field sizes.
    InterfaceGrid,
    /// A recurrent-interface control exceeds its range.
    RecurrentInterface,
    /// Morph growth depths violate 1 <= min <= max <= morph-layers.
    MorphGrowthDepths,
    /// A fixed `--morph-depth` lies outside the morph min/max depth.
    FixedMorphDepth,
    /// The morph growth interval is zero or the plateau window below 4.
    MorphGrowthCadence,
    /// The reconstruction curriculum is not normalized or has a zero ramp.
    ReconstructionSchedule,
    /// A native-detail resolution, zoom or cache control exceeds its range.
    DetailControls,
    /// A flow width, resolution, cadence or step count exceeds its range.
    FlowControls,
    /// The analysis stride is zero or a horizon exceeds 4096.
    AnalysisControls,
    /// `--train-resolution` lies outside micro-size..=512.
    TrainResolution,
    /// `--output-resolution` lies outside train-resolution..=4096.
    OutputResolution,
    /// `--snapshot-resolution` lies outside micro-size..=4096.
    SnapshotResolution,
    /// An update or logging cadence is zero.
    UpdateCadences,
    /// `--checkpoint-every` is neither zero nor a multiple of `--bptt`.
    CheckpointCadence,
    /// `--image-cache` is outside 1..=256.
    ImageCache,
    /// `--beta1` or `--beta2` lies outside [0, 1).
    AdamBetas,
    /// `--muon-momentum` lies outside [0, 1) or `--muon-ns-steps` outside 1..=10.
    Muon,
    /// No visual loss weight is positive.
    NoVisualLoss,
    /// `--stability-patience` exceeds 10000.
    StabilityPatience,
    /// A gallery count, step count or stride exceeds its bound.
    Gallery,
    /// The scalar is not finite or lies outside its range.
    OutOfRange(Scalar),
    /// The scalar is not finite and positive.
    NotPositive(Scalar),
    /// The scalar is not finite and nonnegative.
    Negative(Scalar),
    /// `--probe-dir` is given without `--analysis-only`.
    ProbeNeedsAnalysisOnly,
    /// The probe ages are empty, more than 64, or include 0 or an age above 4096.
    ProbeAges,
    /// The probe reference fidelities are empty or more than 32.
    ProbeFidelityCount,
    /// The probe ages are not strictly increasing.
    ProbeAgesOrder,
    /// The probe reference fidelities contain an equal pair.
    ProbeFidelityDuplicates,
    /// `--fresh` is combined with render-only or analysis-only.
    FreshWithFrozen,
    /// The opt-in training settings fail one of their guards.
    Experiment(ExperimentViolation),
}

pub open spec fn structure_violation(c: RunConfig) -> Option<Violation> {
    if !c.render_only && !c.analysis.only && c.steps == 0 {
        Some(Violation::StepsZero)
    } else if c.bptt == 0 || c.episode_steps == 0 {
        Some(Violation::BpttOrEpisodeZero)
    } else if !c.render_only && !c.analysis.only && c.steps % c.bptt != 0 {
        Some(Violation::StepsNotMultipleOfBptt)
    } else if c.episode_steps % c.bptt != 0 {
        Some(Violation::EpisodeNotMultipleOfBptt)
    } else if !(1 <= c.threads && c.threads <= 64) {
        Some(Violation::Threads)
    } else if !(24 <= c.micro_size && c.micro_size <= 128) || !(8 <= c.macro_size && c.macro_size <= c.micro_size) {
        Some(Violation::FieldSizes)
    } else if !(MIN_PHYSICAL_CHANNELS <= c.channels && c.channels <= 64) {
        Some(Violation::Channels)
    } else if !(2 <= c.genome_dim && c.genome_dim <= 32) || !(32 <= c.ca_hidden && c.ca_hidden <= 512) || !(32 <= c.render_hidden && c.render_hidden <= 512) || !(1 <= c.render_blocks && c.render_blocks <= 8) || !(1 <= c.coord_bands && c.coord_bands <= 8) {
        Some(Violation::Architecture)
    } else if !(2 <= c.interface_grid && c.interface_grid <= 16) || c.micro_size % c.interface_grid != 0 || c.macro_size % c.interface_grid != 0 {
        Some(Violation::InterfaceGrid)
    } else if !(32 <= c.interface_width && c.interface_width <= 512) || c.interface_width % 32 != 0 || !(1 <= c.interface_loops && c.interface_loops <= 8) || !(1 <= c.morph_layers && c.morph_layers <= 32) || !(1 <= c.morph_depth && c.morph_depth <= c.morph_layers) {
        Some(Violation::RecurrentInterface)
    } else if !(1 <= c.morph_growth.min_depth && c.morph_growth.min_depth <= c.morph_layers) || !(c.morph_growth.min_depth <= c.morph_growth.max_depth && c.morph_growth.max_depth <= c.morph_layers) {
        Some(Violation::MorphGrowthDepths)
    } else if c.morph_growth.mode == MorphDepthMode::Fixed && !(c.morph_growth.min_depth <= c.morph_depth && c.morph_depth <= c.morph_growth.max_depth) {
        Some(Violation::FixedMorphDepth)
    } else if c.morph_growth.interval == 0 || c.morph_growth.plateau_window < 4 {
        Some(Violation::MorphGrowthCadence)
    } else {
        None
    }
}

pub open spec fn reconstruction_violation(c: RunConfig) -> Option<Violation> {
    if !f32_in_finite_range(c.morph_growth.plateau_epsilon, 0x0000_0000, 0x3F80_0000) {
        Some(Violation::OutOfRange(Scalar::MorphPlateauEpsilon))
    } else if !f32_in_finite_range(c.morph_growth.seam_threshold, 0x0000_0000, 0x4120_0000) {
        Some(Violation::OutOfRange(Scalar::MorphSeamThreshold))
    } else if !f32_in_finite_range(c.reconstruction.grounding_strength, 0x0000_0000, 0x4080_0000) {
        Some(Violation::OutOfRange(Scalar::GroundingStrength))
    } else if !f32_in_finite_range(c.reconstruction.emergence_strength, 0x0000_0000, 0x4080_0000) {
        Some(Violation::OutOfRange(Scalar::EmergenceStrength))
    } else if !f32_in_finite_range(c.reconstruction.emergence_start, 0x0000_0000, 0x4080_0000) {
        Some(Violation::OutOfRange(Scalar::EmergenceStart))
    } else if !f32_in_finite_range(c.reconstruction.emergence_ramp, 0x0000_0000, 0x4080_0000) {
        Some(Violation::OutOfRange(Scalar::EmergenceRamp))
    } else if !f32_in_finite_range(c.reconstruction.grounding_floor, 0x0000_0000, 0x4080_0000) {
        Some(Violation::OutOfRange(Scalar::GroundingFloor))
    } else if !f32_in_finite_range(c.reconstruction.emergent_limit, 0x0000_0000, 0x4080_0000) {
        Some(Violation::OutOfRange(Scalar::EmergentLimit))
    } else if !f32_in_finite_range(c.reconstruction.local_reference_gain, 0x0000_0000, 0x4080_0000) {
        Some(Violation::OutOfRange(Scalar::LocalReferenceGain))
    } else if !f32_in_finite_range(c.reconstruction.emergence_low_budget, 0x0000_0000, 0x3F80_0000) {
        Some(Violation::OutOfRange(Scalar::EmergenceLowBudget))
    } else if !f32_in_finite_range(c.reconstruction.emergence_mid_budget, 0x0000_0000, 0x3F80_0000) {
        Some(Violation::OutOfRange(Scalar::EmergenceMidBudget))
    } else if f32_lt(ONE, c.reconstruction.emergence_start) || f32_le(c.reconstruction.emergence_ramp, ZERO) || f32_sum_gt_two(c.reconstruction.emergence_start, c.reconstruction.emergence_ramp) || f32_lt(ONE, c.reconstruction.grounding_floor) {
        Some(Violation::ReconstructionSchedule)
    } else if !f32_in_finite_range(c.reconstruction.loss_composite, 0x0000_0000, 0x42C8_0000) {
        Some(Violation::OutOfRange(Scalar::LossComposite))
    } else if !f32_in_finite_range(c.reconstruction.loss_ground_coarse, 0x0000_0000, 0x42C8_0000) {
        Some(Violation::OutOfRange(Scalar::LossGroundCoarse))
    } else if !f32_in_finite_range(c.reconstruction.loss_ground_mid, 0x0000_0000, 0x42C8_0000) {
        Some(Violation::OutOfRange(Scalar::LossGroundMid))
    } else if !f32_in_finite_range(c.reconstruction.loss_ground_fine, 0x0000_0000, 0x42C8_0000) {
        Some(Violation::OutOfRange(Scalar::LossGroundFine))
    } else if !f32_in_finite_range(c.reconstruction.loss_emergent_low, 0x0000_0000, 0x42C8_0000) {
        Some(Violation::OutOfRange(Scalar::LossEmergentLow))
    } else if !f32_in_finite_range(c.reconstruction.loss_emergent_tv, 0x0000_0000, 0x42C8_0000) {
        Some(Violation::OutOfRange(Scalar::LossEmergentTv))
    } else if !f32_in_finite_range(c.reconstruction.loss_emergent_fit, 0x0000_0000, 0x42C8_0000) {
        Some(Violation::OutOfRange(Scalar::LossEmergentFit))
    } else if !f32_in_finite_range(c.reconstruction.loss_head_redundancy, 0x0000_0000, 0x42C8_0000) {
        Some(Violation::OutOfRange(Scalar::LossHeadRedundancy))
    } else if !f32_in_finite_range(c.reconstruction.loss_cross_resolution, 0x0000_0000, 0x42C8_0000) {
        Some(Violation::OutOfRange(Scalar::LossCrossResolution))
    } else {
        None
    }
}

pub open spec fn detail_flow_violation(c: RunConfig) -> Option<Violation> {
    if !f32_in_finite_range(c.detail.probability, 0x0000_0000, 0x3F80_0000) {
        Some(Violation::OutOfRange(Scalar::DetailCropProbability))
    } else if !(32 <= c.detail.resolution && c.detail.resolution <= 384) || f32_lt(c.detail.min_zoom, ONE) || f32_lt(c.detail.max_zoom, c.detail.min_zoom) || f32_lt(THIRTY_TWO, c.detail.max_zoom) || !(64 <= c.detail.cache_max_level && c.detail.cache_max_level <= 4096) {
        Some(Violation::DetailControls)
    } else if !f32_in_finite_range(c.detail.curriculum_start, 0x0000_0000, 0x3F80_0000) {
        Some(Violation::OutOfRange(Scalar::DetailCurriculumStart))
    } else if !(16 <= c.flow.hidden && c.flow.hidden <= 512) || !(1 <= c.flow.sample_steps && c.flow.sample_steps <= 256) || !(16 <= c.flow.resolution && c.flow.resolution <= 128) || c.flow.cadence == 0 {
        Some(Violation::FlowControls)
    } else if !f32_in_finite_range(c.flow.weight, 0x0000_0000, 0x42C8_0000) {
        Some(Violation::OutOfRange(Scalar::FlowWeight))
    } else if !f32_in_finite_range(c.flow.endpoint_weight, 0x0000_0000, 0x42C8_0000) {
        Some(Violation::OutOfRange(Scalar::FlowEndpointWeight))
    } else if !f32_in_finite_range(c.flow.min_time, 0x0000_0000, 0x3F80_0000) {
        Some(Violation::OutOfRange(Scalar::FlowMinTime))
    } else if !f32_in_finite_range(c.flow.max_time, c.flow.min_time, 0x3F80_0000) {
        Some(Violation::OutOfRange(Scalar::FlowMaxTime))
    } else if c.analysis.stride == 0 || c.analysis.autonomous_horizon > 4096 || c.analysis.perturbation_horizon > 4096 || c.analysis.dynamics_horizon > 4096 {
        Some(Violation::AnalysisControls)
    } else {
        None
    }
}

pub open spec fn render_violation(c: RunConfig) -> Option<Violation> {
    if !f32_in_finite_range(c.interface_gain, 0x0000_0000, 0x3F80_0000) {
        Some(Violation::OutOfRange(Scalar::InterfaceGain))
    } else if !f32_in_finite_range(c.morph_residual_gain, 0x0000_0000, 0x3E80_0000) {
        Some(Violation::OutOfRange(Scalar::MorphResidualGain))
    } else if !f32_in_finite_range(c.memory_limit, 0x3F00_0000, 0x4180_0000) {
        Some(Violation::OutOfRange(Scalar::MemoryLimit))
    } else if !f32_in_finite_range(c.reference_fidelity_min, 0x0000_0000, 0x3F80_0000) {
        Some(Violation::OutOfRange(Scalar::ReferenceFidelityMin))
    } else if !f32_in_finite_range(c.reference_fidelity_max, c.reference_fidelity_min, 0x3F80_0000) {
        Some(Violation::OutOfRange(Scalar::ReferenceFidelityMax))
    } else if !f32_in_finite_range(c.reference_dropout, 0x0000_0000, 0x3F80_0000) {
        Some(Violation::OutOfRange(Scalar::ReferenceDropout))
    } else if !f32_in_finite_range(c.coord_gain, 0x0000_0000, 0x4000_0000) {
        Some(Violation::OutOfRange(Scalar::CoordGain))
    } else if !f32_in_finite_range(c.state_skip, 0x0000_0000, 0x4080_0000) {
        Some(Violation::OutOfRange(Scalar::StateSkip))
    } else if !f32_in_finite_range(c.chroma, 0x0000_0000, 0x3ECC_CCCD) {
        Some(Violation::OutOfRange(Scalar::Chroma))
    } else if !f32_in_finite_range(c.gamma, 0x3F80_0000, 0x4040_0000) {
        Some(Violation::OutOfRange(Scalar::Gamma))
    } else if c.train_resolution < c.micro_size || c.train_resolution > 512 {
        Some(Violation::TrainResolution)
    } else if c.output_resolution < c.train_resolution || c.output_resolution > 4096 {
        Some(Violation::OutputResolution)
    } else if c.snapshot_resolution < c.micro_size || c.snapshot_resolution > 4096 {
        Some(Violation::SnapshotResolution)
    } else if c.core_update_every == 0 || c.macro_update_every == 0 || c.log_every == 0 {
        Some(Violation::UpdateCadences)
    } else if c.checkpoint_every > 0 && c.checkpoint_every % c.bptt != 0 {
        Some(Violation::CheckpointCadence)
    } else if !(1 <= c.image_cache && c.image_cache <= 256) {
        Some(Violation::ImageCache)
    } else {
        None
    }
}

pub open spec fn optimizer_violation(c: RunConfig) -> Option<Violation> {
    if !(f64_is_finite(c.learning_rate) && f64_lt(ZERO64, c.learning_rate)) {
        Some(Violation::NotPositive(Scalar::LearningRate))
    } else if !(f64_is_finite(c.weight_decay) && f64_le(ZERO64, c.weight_decay)) {
        Some(Violation::Negative(Scalar::WeightDecay))
    } else if !(f64_le(ZERO64, c.beta1) && f64_lt(c.beta1, ONE64)) || !(f64_le(ZERO64, c.beta2) && f64_lt(c.beta2, ONE64)) {
        Some(Violation::AdamBetas)
    } else if !(f64_is_finite(c.adam_epsilon) && f64_lt(ZERO64, c.adam_epsilon)) {
        Some(Violation::NotPositive(Scalar::AdamEpsilon))
    } else if !(f64_is_finite(c.grad_clip) && f64_le(ZERO64, c.grad_clip)) {
        Some(Violation::Negative(Scalar::GradClip))
    } else if !(f64_le(ZERO64, c.muon_momentum) && f64_lt(c.muon_momentum, ONE64)) || !(1 <= c.muon_ns_steps && c.muon_ns_steps <= 10) {
        Some(Violation::Muon)
    } else if !f32_in_finite_range(c.dt, 0x3BA3_D70A, 0x3E80_0000) {
        Some(Violation::OutOfRange(Scalar::Dt))
    } else if !f32_in_finite_range(c.state_limit, 0x3F80_0000, 0x4140_0000) {
        Some(Violation::OutOfRange(Scalar::StateLimit))
    } else if !f32_in_finite_range(c.state_soft_limit, 0x3E80_0000, c.state_limit) {
        Some(Violation::OutOfRange(Scalar::StateSoftLimit))
    } else if !f32_in_finite_range(c.clock_probability, 0x3D4C_CCCD, 0x3F80_0000) {
        Some(Violation::OutOfRange(Scalar::ClockProbability))
    } else if !f32_in_finite_range(c.episode_reset, 0x0000_0000, 0x3F80_0000) {
        Some(Violation::OutOfRange(Scalar::EpisodeReset))
    } else if !f32_in_finite_range(c.memory_reset, 0x0000_0000, 0x3F80_0000) {
        Some(Violation::OutOfRange(Scalar::MemoryReset))
    } else if !f32_in_finite_range(c.state_leak, 0x0000_0000, 0x3F00_0000) {
        Some(Violation::OutOfRange(Scalar::StateLeak))
    } else if !f32_in_finite_range(c.nca_gain, 0x0000_0000, 0x4080_0000) {
        Some(Violation::OutOfRange(Scalar::NcaGain))
    } else if !f32_in_finite_range(c.reaction_gain, 0x0000_0000, 0x4080_0000) {
        Some(Violation::OutOfRange(Scalar::ReactionGain))
    } else if !f32_in_finite_range(c.phase_gain, 0x0000_0000, 0x4080_0000) {
        Some(Violation::OutOfRange(Scalar::PhaseGain))
    } else if !f32_in_finite_range(c.fractal_gain, 0x0000_0000, 0x4080_0000) {
        Some(Violation::OutOfRange(Scalar::FractalGain))
    } else if !f32_in_finite_range(c.quasiperiodic_gain, 0x0000_0000, 0x4080_0000) {
        Some(Violation::OutOfRange(Scalar::QuasiperiodicGain))
    } else if !f32_in_finite_range(c.cyclic_gain, 0x0000_0000, 0x4080_0000) {
        Some(Violation::OutOfRange(Scalar::CyclicGain))
    } else if !f32_in_finite_range(c.rd_diffusion_u, 0x0000_0000, 0x4000_0000) {
        Some(Violation::OutOfRange(Scalar::RdDiffusionU))
    } else if !f32_in_finite_range(c.rd_diffusion_v, 0x0000_0000, 0x4000_0000) {
        Some(Violation::OutOfRange(Scalar::RdDiffusionV))
    } else if !f32_in_finite_range(c.rd_feed, 0x0000_0000, 0x4000_0000) {
        Some(Violation::OutOfRange(Scalar::RdFeed))
    } else if !f32_in_finite_range(c.rd_kill, 0x0000_0000, 0x4000_0000) {
        Some(Violation::OutOfRange(Scalar::RdKill))
    } else if !f32_in_finite_range(c.phase_growth, 0x0000_0000, 0x4000_0000) {
        Some(Violation::OutOfRange(Scalar::PhaseGrowth))
    } else if !f32_in_finite_range(c.phase_saturation, 0x0000_0000, 0x4000_0000) {
        Some(Violation::OutOfRange(Scalar::PhaseSaturation))
    } else if !f32_in_finite_range(c.phase_frequency, 0x0000_0000, 0x4000_0000) {
        Some(Violation::OutOfRange(Scalar::PhaseFrequency))
    } else if !f32_in_finite_range(c.phase_diffusion, 0x0000_0000, 0x4000_0000) {
        Some(Violation::OutOfRange(Scalar::PhaseDiffusion))
    } else if !f32_in_finite_range(c.phase_dispersion, 0x0000_0000, 0x4000_0000) {
        Some(Violation::OutOfRange(Scalar::PhaseDispersion))
    } else {
        None
    }
}

pub open spec fn loss_violation(c: RunConfig) -> Option<Violation> {
    if !f32_in_finite_range(c.loss_content, 0x0000_0000, 0x42C8_0000) {
        Some(Violation::OutOfRange(Scalar::LossContent))
    } else if !f32_in_finite_range(c.loss_palette, 0x0000_0000, 0x42C8_0000) {
        Some(Violation::OutOfRange(Scalar::LossPalette))
    } else if !f32_in_finite_range(c.loss_structure, 0x0000_0000, 0x42C8_0000) {
        Some(Violation::OutOfRange(Scalar::LossStructure))
    } else if !f32_in_finite_range(c.loss_seam, 0x0000_0000, 0x42C8_0000) {
        Some(Violation::OutOfRange(Scalar::LossSeam))
    } else if !f32_in_finite_range(c.loss_gamut, 0x0000_0000, 0x42C8_0000) {
        Some(Violation::OutOfRange(Scalar::LossGamut))
    } else if !(f32_lt(ZERO, c.loss_content) || f32_lt(ZERO, c.loss_palette) || f32_lt(ZERO, c.loss_structure) || f32_lt(ZERO, c.loss_seam) || f32_lt(ZERO, c.loss_gamut)) {
        Some(Violation::NoVisualLoss)
    } else if !f32_in_finite_range(c.loss_state, 0x0000_0000, 0x42C8_0000) {
        Some(Violation::OutOfRange(Scalar::LossState))
    } else if !f32_in_finite_range(c.loss_memory, 0x0000_0000, 0x42C8_0000) {
        Some(Violation::OutOfRange(Scalar::LossMemory))
    } else if !f32_in_finite_range(c.max_saturation_fraction, 0x0000_0000, 0x3F80_0000) {
        Some(Violation::OutOfRange(Scalar::MaxSaturationFraction))
    } else if c.stability_patience > 10000 {
        Some(Violation::StabilityPatience)
    } else if !f32_in_finite_range(c.mastering_strength, 0x0000_0000, 0x4000_0000) {
        Some(Violation::OutOfRange(Scalar::MasteringStrength))
    } else if c.gallery > 64 || c.gallery_steps > 1024 || c.gallery_stride > 256 {
        Some(Violation::Gallery)
    } else {
        None
    }
}

/// Every age is below every later age.
pub open spec fn strictly_increasing_ages(ages: Seq<usize>) -> bool {
    forall|i: int, j: int| 0 <= i < j < ages.len() ==> ages[i] < ages[j]
}

/// Two positions hold equal values (IEEE equality: NaN equals nothing, the zeros are equal).
pub open spec fn has_equal_pair(values: Seq<u32>) -> bool {
    exists|i: int, j: int| 0 <= j < i < values.len() && f32_eq(values[j], values[i])
}

pub open spec fn probe_violation(c: RunConfig) -> Option<Violation> {
    let ages = c.analysis.probe_ages@;
    let fidelities = c.analysis.probe_reference_fidelities@;
    if c.analysis.probe_dir is None {
        None
    } else if !c.analysis.only {
        Some(Violation::ProbeNeedsAnalysisOnly)
    } else if ages.len() == 0 || ages.len() > 64 || exists|i: int|
        0 <= i < ages.len() && (ages[i] == 0 || ages[i] > 4096) {
        Some(Violation::ProbeAges)
    } else if fidelities.len() == 0 || fidelities.len() > 32 {
        Some(Violation::ProbeFidelityCount)
    } else if exists|i: int|
        0 <= i < fidelities.len() && !f32_in_finite_range(fidelities[i], ZERO, ONE) {
        Some(Violation::OutOfRange(Scalar::ProbeReferenceFidelities))
    } else if !strictly_increasing_ages(ages) {
        Some(Violation::ProbeAgesOrder)
    } else if has_equal_pair(fidelities) {
        Some(Violation::ProbeFidelityDuplicates)
    } else {
        None
    }
}

pub open spec fn lifecycle_violation(c: RunConfig) -> Option<Violation> {
    if (c.render_only || c.analysis.only) && c.fresh {
        Some(Violation::FreshWithFrozen)
    } else {
        None
    }
}

/// The first guard, in checking order, that `c` fails.
pub open spec fn first_violation(c: RunConfig) -> Option<Violation> {
    if structure_violation(c) is Some {
        structure_violation(c)
    } else if reconstruction_violation(c) is Some {
        reconstruction_violation(c)
    } else if detail_flow_violation(c) is Some {
        detail_flow_violation(c)
    } else if render_violation(c) is Some {
        render_violation(c)
    } else if optimizer_violation(c) is Some {
        optimizer_violation(c)
    } else if loss_violation(c) is Some {
        loss_violation(c)
    } else if probe_violation(c) is Some {
        probe_violation(c)
    } else if lifecycle_violation(c) is Some {
        lifecycle_violation(c)
    } else {
        experiment_guard(c)
    }
}

/// The guards of the run's opt-in training settings. The configuration has no
/// setting that varies the age of its episodes, so they are checked as fixed.
pub open spec fn experiment_guard(c: RunConfig) -> Option<Violation> {
    match experiment_violation(c.experiment, c, false) {
        Some(v) => Some(Violation::Experiment(v)),
        None => None,
    }
}

impl RunConfig {
    fn check_structure_violation(&self) -> (r: Option<Violation>)
        ensures
            r == structure_violation(*self),
    {
        if !self.render_only && !self.analysis.only && self.steps == 0 {
            Some(Violation::StepsZero)
        } else if self.bptt == 0 || self.episode_steps == 0 {
            Some(Violation::BpttOrEpisodeZero)
        } else if !self.render_only && !self.analysis.only && self.steps % self.bptt != 0 {
            Some(Violation::StepsNotMultipleOfBptt)
        } else if self.episode_steps % self.bptt != 0 {
            Some(Violation::EpisodeNotMultipleOfBptt)
        } else if !(1 <= self.threads && self.threads <= 64) {
            Some(Violation::Threads)
        } else if !(24 <= self.micro_size && self.micro_size <= 128) || !(8 <= self.macro_size && self.macro_size <= self.micro_size) {
            Some(Violation::FieldSizes)
        } else if !(MIN_PHYSICAL_CHANNELS <= self.channels && self.channels <= 64) {
            Some(Violation::Channels)
        } else if !(2 <= self.genome_dim && self.genome_dim <= 32) || !(32 <= self.ca_hidden && self.ca_hidden <= 512) || !(32 <= self.render_hidden && self.render_hidden <= 512) || !(1 <= self.render_blocks && self.render_blocks <= 8) || !(1 <= self.coord_bands && self.coord_bands <= 8) {
            Some(Violation::Architecture)
        } else if !(2 <= self.interface_grid && self.interface_grid <= 16) || self.micro_size % self.interface_grid != 0 || self.macro_size % self.interface_grid != 0 {
            Some(Violation::InterfaceGrid)
        } else if !(32 <= self.interface_width && self.interface_width <= 512) || self.interface_width % 32 != 0 || !(1 <= self.interface_loops && self.interface_loops <= 8) || !(1 <= self.morph_layers && self.morph_layers <= 32) || !(1 <= self.morph_depth && self.morph_depth <= self.morph_layers) {
            Some(Violation::RecurrentInterface)
        } else if !(1 <= self.morph_growth.min_depth && self.morph_growth.min_depth <= self.morph_layers) || !(self.morph_growth.min_depth <= self.morph_growth.max_depth && self.morph_growth.max_depth <= self.morph_layers) {
            Some(Violation::MorphGrowthDepths)
        } else if self.morph_growth.mode == MorphDepthMode::Fixed && !(self.morph_growth.min_depth <= self.morph_depth && self.morph_depth <= self.morph_growth.max_depth) {
            Some(Violation::FixedMorphDepth)
        } else if self.morph_growth.interval == 0 || self.morph_growth.plateau_window < 4 {
            Some(Violation::MorphGrowthCadence)
        } else {
            None
        }
    }

    fn check_reconstruction_violation(&self) -> (r: Option<Violation>)
        ensures
            r == reconstruction_violation(*self),
    {
        if !f32_within(self.morph_growth.plateau_epsilon, 0x0000_0000, 0x3F80_0000) {
            Some(Violation::OutOfRange(Scalar::MorphPlateauEpsilon))
        } else if !f32_within(self.morph_growth.seam_threshold, 0x0000_0000, 0x4120_0000) {
            Some(Violation::OutOfRange(Scalar::MorphSeamThreshold))
        } else if !f32_within(self.reconstruction.grounding_strength, 0x0000_0000, 0x4080_0000) {
            Some(Violation::OutOfRange(Scalar::GroundingStrength))
        } else if !f32_within(self.reconstruction.emergence_strength, 0x0000_0000, 0x4080_0000) {
            Some(Violation::OutOfRange(Scalar::EmergenceStrength))
        } else if !f32_within(self.reconstruction.emergence_start, 0x0000_0000, 0x4080_0000) {
            Some(Violation::OutOfRange(Scalar::EmergenceStart))
        } else if !f32_within(self.reconstruction.emergence_ramp, 0x0000_0000, 0x4080_0000) {
            Some(Violation::OutOfRange(Scalar::EmergenceRamp))
        } else if !f32_within(self.reconstruction.grounding_floor, 0x0000_0000, 0x4080_0000) {
            Some(Violation::OutOfRange(Scalar::GroundingFloor))
        } else if !f32_within(self.reconstruction.emergent_limit, 0x0000_0000, 0x4080_0000) {
            Some(Violation::OutOfRange(Scalar::EmergentLimit))
        } else if !f32_within(self.reconstruction.local_reference_gain, 0x0000_0000, 0x4080_0000) {
            Some(Violation::OutOfRange(Scalar::LocalReferenceGain))
        } else if !f32_within(self.reconstruction.emergence_low_budget, 0x0000_0000, 0x3F80_0000) {
            Some(Violation::OutOfRange(Scalar::EmergenceLowBudget))
        } else if !f32_within(self.reconstruction.emergence_mid_budget, 0x0000_0000, 0x3F80_0000) {
            Some(Violation::OutOfRange(Scalar::EmergenceMidBudget))
        } else if f32_less(ONE, self.reconstruction.emergence_start) || f32_less_equal(self.reconstruction.emergence_ramp, ZERO) || f32_sum_exceeds_two(self.reconstruction.emergence_start, self.reconstruction.emergence_ramp) || f32_less(ONE, self.reconstruction.grounding_floor) {
            Some(Violation::ReconstructionSchedule)
        } else if !f32_within(self.reconstruction.loss_composite, 0x0000_0000, 0x42C8_0000) {
            Some(Violation::OutOfRange(Scalar::LossComposite))
        } else if !f32_within(self.reconstruction.loss_ground_coarse, 0x0000_0000, 0x42C8_0000) {
            Some(Violation::OutOfRange(Scalar::LossGroundCoarse))
        } else if !f32_within(self.reconstruction.loss_ground_mid, 0x0000_0000, 0x42C8_0000) {
            Some(Violation::OutOfRange(Scalar::LossGroundMid))
        } else if !f32_within(self.reconstruction.loss_ground_fine, 0x0000_0000, 0x42C8_0000) {
            Some(Violation::OutOfRange(Scalar::LossGroundFine))
        } else if !f32_within(self.reconstruction.loss_emergent_low, 0x0000_0000, 0x42C8_0000) {
            Some(Violation::OutOfRange(Scalar::LossEmergentLow))
        } else if !f32_within(self.reconstruction.loss_emergent_tv, 0x0000_0000, 0x42C8_0000) {
            Some(Violation::OutOfRange(Scalar::LossEmergentTv))
        } else if !f32_within(self.reconstruction.loss_emergent_fit, 0x0000_0000, 0x42C8_0000) {
            Some(Violation::OutOfRange(Scalar::LossEmergentFit))
        } else if !f32_within(self.reconstruction.loss_head_redundancy, 0x0000_0000, 0x42C8_0000) {
            Some(Violation::OutOfRange(Scalar::LossHeadRedundancy))
        } else if !f32_within(self.reconstruction.loss_cross_resolution, 0x0000_0000, 0x42C8_0000) {
            Some(Violation::OutOfRange(Scalar::LossCrossResolution))
        } else {
            None
        }
    }

    fn check_detail_flow_violation(&self) -> (r: Option<Violation>)
        ensures
            r == detail_flow_violation(*self),
    {
        if !f32_within(self.detail.probability, 0x0000_0000, 0x3F80_0000) {
            Some(Violation::OutOfRange(Scalar::DetailCropProbability))
        } else if !(32 <= self.detail.resolution && self.detail.resolution <= 384) || f32_less(self.detail.min_zoom, ONE) || f32_less(self.detail.max_zoom, self.detail.min_zoom) || f32_less(THIRTY_TWO, self.detail.max_zoom) || !(64 <= self.detail.cache_max_level && self.detail.cache_max_level <= 4096) {
            Some(Violation::DetailControls)
        } else if !f32_within(self.detail.curriculum_start, 0x0000_0000, 0x3F80_0000) {
            Some(Violation::OutOfRange(Scalar::DetailCurriculumStart))
        } else if !(16 <= self.flow.hidden && self.flow.hidden <= 512) || !(1 <= self.flow.sample_steps && self.flow.sample_steps <= 256) || !(16 <= self.flow.resolution && self.flow.resolution <= 128) || self.flow.cadence == 0 {
            Some(Violation::FlowControls)
        } else if !f32_within(self.flow.weight, 0x0000_0000, 0x42C8_0000) {
            Some(Violation::OutOfRange(Scalar::FlowWeight))
        } else if !f32_within(self.flow.endpoint_weight, 0x0000_0000, 0x42C8_0000) {
            Some(Violation::OutOfRange(Scalar::FlowEndpointWeight))
        } else if !f32_within(self.flow.min_time, 0x0000_0000, 0x3F80_0000) {
            Some(Violation::OutOfRange(Scalar::FlowMinTime))
        } else if !f32_within(self.flow.max_time, self.flow.min_time, 0x3F80_0000) {
            Some(Violation::OutOfRange(Scalar::FlowMaxTime))
        } else if self.analysis.stride == 0 || self.analysis.autonomous_horizon > 4096 || self.analysis.perturbation_horizon > 4096 || self.analysis.dynamics_horizon > 4096 {
            Some(Violation::AnalysisControls)
        } else {
            None
        }
    }

    fn check_render_violation(&self) -> (r: Option<Violation>)
        requires
            self.bptt > 0,
        ensures
            r == render_violation(*self),
    {
        if !f32_within(self.interface_gain, 0x0000_0000, 0x3F80_0000) {
            Some(Violation::OutOfRange(Scalar::InterfaceGain))
        } else if !f32_within(self.morph_residual_gain, 0x0000_0000, 0x3E80_0000) {
            Some(Violation::OutOfRange(Scalar::MorphResidualGain))
        } else if !f32_within(self.memory_limit, 0x3F00_0000, 0x4180_0000) {
            Some(Violation::OutOfRange(Scalar::MemoryLimit))
        } else if !f32_within(self.reference_fidelity_min, 0x0000_0000, 0x3F80_0000) {
            Some(Violation::OutOfRange(Scalar::ReferenceFidelityMin))
        } else if !f32_within(self.reference_fidelity_max, self.reference_fidelity_min, 0x3F80_0000) {
            Some(Violation::OutOfRange(Scalar::ReferenceFidelityMax))
        } else if !f32_within(self.reference_dropout, 0x0000_0000, 0x3F80_0000) {
            Some(Violation::OutOfRange(Scalar::ReferenceDropout))
        } else if !f32_within(self.coord_gain, 0x0000_0000, 0x4000_0000) {
            Some(Violation::OutOfRange(Scalar::CoordGain))
        } else if !f32_within(self.state_skip, 0x0000_0000, 0x4080_0000) {
            Some(Violation::OutOfRange(Scalar::StateSkip))
        } else if !f32_within(self.chroma, 0x0000_0000, 0x3ECC_CCCD) {
            Some(Violation::OutOfRange(Scalar::Chroma))
        } else if !f32_within(self.gamma, 0x3F80_0000, 0x4040_0000) {
            Some(Violation::OutOfRange(Scalar::Gamma))
        } else if self.train_resolution < self.micro_size || self.train_resolution > 512 {
            Some(Violation::TrainResolution)
        } else if self.output_resolution < self.train_resolution || self.output_resolution > 4096 {
            Some(Violation::OutputResolution)
        } else if self.snapshot_resolution < self.micro_size || self.snapshot_resolution > 4096 {
            Some(Violation::SnapshotResolution)
        } else if self.core_update_every == 0 || self.macro_update_every == 0 || self.log_every == 0 {
            Some(Violation::UpdateCadences)
        } else if self.checkpoint_every > 0 && self.checkpoint_every % self.bptt != 0 {
            Some(Violation::CheckpointCadence)
        } else if !(1 <= self.image_cache && self.image_cache <= 256) {
            Some(Violation::ImageCache)
        } else {
            None
        }
    }

    fn check_optimizer_violation(&self) -> (r: Option<Violation>)
        ensures
            r == optimizer_violation(*self),
    {
        if !(f64_finite(self.learning_rate) && f64_less(ZERO64, self.learning_rate)) {
            Some(Violation::NotPositive(Scalar::LearningRate))
        } else if !(f64_finite(self.weight_decay) && f64_less_equal(ZERO64, self.weight_decay)) {
            Some(Violation::Negative(Scalar::WeightDecay))
        } else if !(f64_less_equal(ZERO64, self.beta1) && f64_less(self.beta1, ONE64)) || !(f64_less_equal(ZERO64, self.beta2) && f64_less(self.beta2, ONE64)) {
            Some(Violation::AdamBetas)
        } else if !(f64_finite(self.adam_epsilon) && f64_less(ZERO64, self.adam_epsilon)) {
            Some(Violation::NotPositive(Scalar::AdamEpsilon))
        } else if !(f64_finite(self.grad_clip) && f64_less_equal(ZERO64, self.grad_clip)) {
            Some(Violation::Negative(Scalar::GradClip))
        } else if !(f64_less_equal(ZERO64, self.muon_momentum) && f64_less(self.muon_momentum, ONE64)) || !(1 <= self.muon_ns_steps && self.muon_ns_steps <= 10) {
            Some(Violation::Muon)
        } else if !f32_within(self.dt, 0x3BA3_D70A, 0x3E80_0000) {
            Some(Violation::OutOfRange(Scalar::Dt))
        } else if !f32_within(self.state_limit, 0x3F80_0000, 0x4140_0000) {
            Some(Violation::OutOfRange(Scalar::StateLimit))
        } else if !f32_within(self.state_soft_limit, 0x3E80_0000, self.state_limit) {
            Some(Violation::OutOfRange(Scalar::StateSoftLimit))
        } else if !f32_within(self.clock_probability, 0x3D4C_CCCD, 0x3F80_0000) {
            Some(Violation::OutOfRange(Scalar::ClockProbability))
        } else if !f32_within(self.episode_reset, 0x0000_0000, 0x3F80_0000) {
            Some(Violation::OutOfRange(Scalar::EpisodeReset))
        } else if !f32_within(self.memory_reset, 0x0000_0000, 0x3F80_0000) {
            Some(Violation::OutOfRange(Scalar::MemoryReset))
        } else if !f32_within(self.state_leak, 0x0000_0000, 0x3F00_0000) {
            Some(Violation::OutOfRange(Scalar::StateLeak))
        } else if !f32_within(self.nca_gain, 0x0000_0000, 0x4080_0000) {
            Some(Violation::OutOfRange(Scalar::NcaGain))
        } else if !f32_within(self.reaction_gain, 0x0000_0000, 0x4080_0000) {
            Some(Violation::OutOfRange(Scalar::ReactionGain))
        } else if !f32_within(self.phase_gain, 0x0000_0000, 0x4080_0000) {
            Some(Violation::OutOfRange(Scalar::PhaseGain))
        } else if !f32_within(self.fractal_gain, 0x0000_0000, 0x4080_0000) {
            Some(Violation::OutOfRange(Scalar::FractalGain))
        } else if !f32_within(self.quasiperiodic_gain, 0x0000_0000, 0x4080_0000) {
            Some(Violation::OutOfRange(Scalar::QuasiperiodicGain))
        } else if !f32_within(self.cyclic_gain, 0x0000_0000, 0x4080_0000) {
            Some(Violation::OutOfRange(Scalar::CyclicGain))
        } else if !f32_within(self.rd_diffusion_u, 0x0000_0000, 0x4000_0000) {
            Some(Violation::OutOfRange(Scalar::RdDiffusionU))
        } else if !f32_within(self.rd_diffusion_v, 0x0000_0000, 0x4000_0000) {
            Some(Violation::OutOfRange(Scalar::RdDiffusionV))
        } else if !f32_within(self.rd_feed, 0x0000_0000, 0x4000_0000) {
            Some(Violation::OutOfRange(Scalar::RdFeed))
        } else if !f32_within(self.rd_kill, 0x0000_0000, 0x4000_0000) {
            Some(Violation::OutOfRange(Scalar::RdKill))
        } else if !f32_within(self.phase_growth, 0x0000_0000, 0x4000_0000) {
            Some(Violation::OutOfRange(Scalar::PhaseGrowth))
        } else if !f32_within(self.phase_saturation, 0x0000_0000, 0x4000_0000) {
            Some(Violation::OutOfRange(Scalar::PhaseSaturation))
        } else if !f32_within(self.phase_frequency, 0x0000_0000, 0x4000_0000) {
            Some(Violation::OutOfRange(Scalar::PhaseFrequency))
        } else if !f32_within(self.phase_diffusion, 0x0000_0000, 0x4000_0000) {
            Some(Violation::OutOfRange(Scalar::PhaseDiffusion))
        } else if !f32_within(self.phase_dispersion, 0x0000_0000, 0x4000_0000) {
            Some(Violation::OutOfRange(Scalar::PhaseDispersion))
        } else {
            None
        }
    }

    fn check_loss_violation(&self) -> (r: Option<Violation>)
        ensures
            r == loss_violation(*self),
    {
        if !f32_within(self.loss_content, 0x0000_0000, 0x42C8_0000) {
            Some(Violation::OutOfRange(Scalar::LossContent))
        } else if !f32_within(self.loss_palette, 0x0000_0000, 0x42C8_0000) {
            Some(Violation::OutOfRange(Scalar::LossPalette))
        } else if !f32_within(self.loss_structure, 0x0000_0000, 0x42C8_0000) {
            Some(Violation::OutOfRange(Scalar::LossStructure))
        } else if !f32_within(self.loss_seam, 0x0000_0000, 0x42C8_0000) {
            Some(Violation::OutOfRange(Scalar::LossSeam))
        } else if !f32_within(self.loss_gamut, 0x0000_0000, 0x42C8_0000) {
            Some(Violation::OutOfRange(Scalar::LossGamut))
        } else if !(f32_less(ZERO, self.loss_content) || f32_less(ZERO, self.loss_palette) || f32_less(ZERO, self.loss_structure) || f32_less(ZERO, self.loss_seam) || f32_less(ZERO, self.loss_gamut)) {
            Some(Violation::NoVisualLoss)
        } else if !f32_within(self.loss_state, 0x0000_0000, 0x42C8_0000) {
            Some(Violation::OutOfRange(Scalar::LossState))
        } else if !f32_within(self.loss_memory, 0x0000_0000, 0x42C8_0000) {
            Some(Violation::OutOfRange(Scalar::LossMemory))
        } else if !f32_within(self.max_saturation_fraction, 0x0000_0000, 0x3F80_0000) {
            Some(Violation::OutOfRange(Scalar::MaxSaturationFraction))
        } else if self.stability_patience > 10000 {
            Some(Violation::StabilityPatience)
        } else if !f32_within(self.mastering_strength, 0x0000_0000, 0x4000_0000) {
            Some(Violation::OutOfRange(Scalar::MasteringStrength))
        } else if self.gallery > 64 || self.gallery_steps > 1024 || self.gallery_stride > 256 {
            Some(Violation::Gallery)
        } else {
            None
        }
    }

    fn check_probe_violation(&self) -> (r: Option<Violation>)
        ensures
            r == probe_violation(*self),
    {
        if self.analysis.probe_dir.is_none() {
            return None;
        }
        if !self.analysis.only {
            return Some(Violation::ProbeNeedsAnalysisOnly);
        }
        let ages = &self.analysis.probe_ages;
        if ages.len() == 0 || ages.len() > 64 {
            return Some(Violation::ProbeAges);
        }
        let mut i: usize = 0;
        while i < ages.len()
            invariant
                ages@ == self.analysis.probe_ages@,
                self.analysis.probe_dir is Some,
                self.analysis.only,
                1 <= ages@.len() <= 64,
                i <= ages@.len(),
                forall|k: int| 0 <= k < i ==> !(ages@[k] == 0 || ages@[k] > 4096),
            decreases ages@.len() - i,
        {
            if ages[i] == 0 || ages[i] > 4096 {
                assert(ages@[i as int] == 0 || ages@[i as int] > 4096);
                return Some(Violation::ProbeAges);
            }
            i = i + 1;
        }
        let fidelities = &self.analysis.probe_reference_fidelities;
        if fidelities.len() == 0 || fidelities.len() > 32 {
            return Some(Violation::ProbeFidelityCount);
        }
        let mut i: usize = 0;
        while i < fidelities.len()
            invariant
                ages@ == self.analysis.probe_ages@,
                fidelities@ == self.analysis.probe_reference_fidelities@,
                self.analysis.probe_dir is Some,
                self.analysis.only,
                1 <= ages@.len() <= 64,
                1 <= fidelities@.len() <= 32,
                forall|k: int| 0 <= k < ages@.len() ==> !(ages@[k] == 0 || ages@[k] > 4096),
                i <= fidelities@.len(),
                forall|k: int| 0 <= k < i ==> f32_in_finite_range(fidelities@[k], ZERO, ONE),
            decreases fidelities@.len() - i,
        {
            if !f32_within(fidelities[i], ZERO, ONE) {
                assert(!f32_in_finite_range(fidelities@[i as int], ZERO, ONE));
                return Some(Violation::OutOfRange(Scalar::ProbeReferenceFidelities));
            }
            i = i + 1;
        }
        if !strictly_increasing(ages) {
            return Some(Violation::ProbeAgesOrder);
        }
        if has_duplicate_f32(fidelities) {
            return Some(Violation::ProbeFidelityDuplicates);
        }
        None
    }

    /// Checks every guard in order and reports the first that fails.
    pub fn validate(&self) -> (r: Result<(), Violation>)
        ensures
            r == (match first_violation(*self) {
                None => Ok(()),
                Some(v) => Err(v),
            }),
    {
        let v = self.check_structure_violation();
        if v.is_some() {
            return Err(v.unwrap());
        }
        let v = self.check_reconstruction_violation();
        if v.is_some() {
            return Err(v.unwrap());
        }
        let v = self.check_detail_flow_violation();
        if v.is_some() {
            return Err(v.unwrap());
        }
        let v = self.check_render_violation();
        if v.is_some() {
            return Err(v.unwrap());
        }
        let v = self.check_optimizer_violation();
        if v.is_some() {
            return Err(v.unwrap());
        }
        let v = self.check_loss_violation();
        if v.is_some() {
            return Err(v.unwrap());
        }
        let v = self.check_probe_violation();
        if v.is_some() {
            return Err(v.unwrap());
        }
        if (self.render_only || self.analysis.only) && self.fresh {
            return Err(Violation::FreshWithFrozen);
        }
        match self.experiment.validate(self, false) {
            Ok(()) => Ok(()),
            Err(v) => Err(Violation::Experiment(v)),
        }
    }
}

/// Whether each value is below the next.
pub fn strictly_increasing(values: &Vec<usize>) -> (r: bool)
    ensures
        r == strictly_increasing_ages(values@),
{
    if values.len() == 0 {
        return true;
    }
    let mut i: usize = 1;
    while i < values.len()
        invariant
            1 <= i <= values@.len(),
            forall|a: int, b: int| 0 <= a < b < i ==> values@[a] < values@[b],
        decreases values@.len() - i,
    {
        if values[i - 1] >= values[i] {
            return false;
        }
        assert forall|a: int, b: int| 0 <= a < b < i + 1 implies values@[a] < values@[b] by {
            if b == i && a < i - 1 {
                assert(values@[a] < values@[i - 1]);
            }
        }
        i = i + 1;
    }
    true
}

/// Whether two positions hold equal values.
pub fn has_duplicate_f32(values: &Vec<u32>) -> (r: bool)
    ensures
        r == has_equal_pair(values@),
{
    let mut i: usize = 0;
    while i < values.len()
        invariant
            i <= values@.len(),
            forall|a: int, b: int| 0 <= b < a < i ==> !f32_eq(values@[b], values@[a]),
        decreases values@.len() - i,
    {
        let mut j: usize = 0;
        while j < i
            invariant
                i < values@.len(),
                j <= i,
                forall|a: int, b: int| 0 <= b < a < i ==> !f32_eq(values@[b], values@[a]),
                forall|b: int| 0 <= b < j ==> !f32_eq(values@[b], values@[i as int]),
            decreases i - j,
        {
            if f32_equal(values[j], values[i]) {
                return true;
            }
            j = j + 1;
        }
        i = i + 1;
    }
    false
}

/// The guards read the probe reference fidelities only through their values:
/// two configurations that differ in nothing else fail the same guard.
pub proof fn lemma_guards_read_fidelity_values(x: RunConfig, y: RunConfig)
    requires
        x == (RunConfig {
            analysis: AnalysisConfig {
                probe_reference_fidelities: x.analysis.probe_reference_fidelities,
                ..y.analysis
            },
            ..y
        }),
        x.analysis.probe_reference_fidelities@ == y.analysis.probe_reference_fidelities@,
    ensures
        first_violation(x) == first_violation(y),
{
    assert(structure_violation(x) == structure_violation(y));
    assert(reconstruction_violation(x) == reconstruction_violation(y));
    assert(detail_flow_violation(x) == detail_flow_violation(y));
    assert(render_violation(x) == render_violation(y));
    assert(optimizer_violation(x) == optimizer_violation(y));
    assert(loss_violation(x) == loss_violation(y));
    assert(probe_violation(x) == probe_violation(y));
    assert(lifecycle_violation(x) == lifecycle_violation(y));
}

/// The default configuration passes every guard, whatever worker count the
/// machine gives it within 1..=64.
pub proof fn lemma_defaults_pass_guards(c: RunConfig, threads: usize)
    requires
        is_default_config(c, threads),
        1 <= threads <= 64,
    ensures
        first_violation(c) is None,
{
    assert(structure_violation(c) is None);
    assert(!f32_sum_gt_two(c.reconstruction.emergence_start, c.reconstruction.emergence_ramp)) by {
        crate::float_bits::lemma_scaled_below_one(c.reconstruction.emergence_start);
        crate::float_bits::lemma_scaled_below_one(c.reconstruction.emergence_ramp);
        vstd::arithmetic::power2::lemma_pow2_unfold(150);
        vstd::arithmetic::power2::lemma_pow2_pos(126);
    }
    assert(reconstruction_violation(c) is None);
    assert(detail_flow_violation(c) is None);
    assert(render_violation(c) is None);
    assert(optimizer_violation(c) is None);
    assert(loss_violation(c) is None);
    assert(probe_violation(c) is None);
    assert(lifecycle_violation(c) is None);
}

/// A training run (neither render-only nor analysis-only) passes the guards
/// only with positive `--steps` and `--bptt` whose quotient is whole; with
/// positive `--steps`, `--bptt` and `--episode-steps`, a step count that is
/// not a multiple of `--bptt` is refused as such.
pub proof fn lemma_training_steps_are_whole_windows(c: RunConfig)
    ensures
        first_violation(c) is None && !c.render_only && !c.analysis.only ==> c.steps > 0 && c.bptt > 0
            && c.steps % c.bptt == 0,
        !c.render_only && !c.analysis.only && c.steps > 0 && c.bptt > 0 && c.episode_steps > 0 && c.steps
            % c.bptt != 0 ==> first_violation(c) == Some(Violation::StepsNotMultipleOfBptt),
{
}

/// The structural guards pass exactly when every one of their conditions holds.
pub proof fn lemma_structure_violation_none_exactly_when_guards_hold(c: RunConfig)
    ensures
        structure_violation(c) is None <==> {
            &&& !(!c.render_only && !c.analysis.only && c.steps == 0)
            &&& !(c.bptt == 0 || c.episode_steps == 0)
            &&& !(!c.render_only && !c.analysis.only && c.steps % c.bptt != 0)
            &&& !(c.episode_steps % c.bptt != 0)
            &&& !(!(1 <= c.threads && c.threads <= 64))
            &&& !(!(24 <= c.micro_size && c.micro_size <= 128) || !(8 <= c.macro_size && c.macro_size <= c.micro_size))
            &&& !(!(MIN_PHYSICAL_CHANNELS <= c.channels && c.channels <= 64))
            &&& !(!(2 <= c.genome_dim && c.genome_dim <= 32) || !(32 <= c.ca_hidden && c.ca_hidden <= 512) || !(32 <= c.render_hidden && c.render_hidden <= 512) || !(1 <= c.render_blocks && c.render_blocks <= 8) || !(1 <= c.coord_bands && c.coord_bands <= 8))
            &&& !(!(2 <= c.interface_grid && c.interface_grid <= 16) || c.micro_size % c.interface_grid != 0 || c.macro_size % c.interface_grid != 0)
            &&& !(!(32 <= c.interface_width && c.interface_width <= 512) || c.interface_width % 32 != 0 || !(1 <= c.interface_loops && c.interface_loops <= 8) || !(1 <= c.morph_layers && c.morph_layers <= 32) || !(1 <= c.morph_depth && c.morph_depth <= c.morph_layers))
            &&& !(!(1 <= c.morph_growth.min_depth && c.morph_growth.min_depth <= c.morph_layers) || !(c.morph_growth.min_depth <= c.morph_growth.max_depth && c.morph_growth.max_depth <= c.morph_layers))
            &&& !(c.morph_growth.mode == MorphDepthMode::Fixed && !(c.morph_growth.min_depth <= c.morph_depth && c.morph_depth <= c.morph_growth.max_depth))
            &&& !(c.morph_growth.interval == 0 || c.morph_growth.plateau_window < 4)
        },
{
}

/// The reconstruction guards pass exactly when every one of their conditions holds.
pub proof fn lemma_reconstruction_violation_none_exactly_when_guards_hold(c: RunConfig)
    ensures
        reconstruction_violation(c) is None <==> {
            &&& !(!f32_in_finite_range(c.morph_growth.plateau_epsilon, 0x0000_0000, 0x3F80_0000))
            &&& !(!f32_in_finite_range(c.morph_growth.seam_threshold, 0x0000_0000, 0x4120_0000))
            &&& !(!f32_in_finite_range(c.reconstruction.grounding_strength, 0x0000_0000, 0x4080_0000))
            &&& !(!f32_in_finite_range(c.reconstruction.emergence_strength, 0x0000_0000, 0x4080_0000))
            &&& !(!f32_in_finite_range(c.reconstruction.emergence_start, 0x0000_0000, 0x4080_0000))
            &&& !(!f32_in_finite_range(c.reconstruction.emergence_ramp, 0x0000_0000, 0x4080_0000))
            &&& !(!f32_in_finite_range(c.reconstruction.grounding_floor, 0x0000_0000, 0x4080_0000))
            &&& !(!f32_in_finite_range(c.reconstruction.emergent_limit, 0x0000_0000, 0x4080_0000))
            &&& !(!f32_in_finite_range(c.reconstruction.local_reference_gain, 0x0000_0000, 0x4080_0000))
            &&& !(!f32_in_finite_range(c.reconstruction.emergence_low_budget, 0x0000_0000, 0x3F80_0000))
            &&& !(!f32_in_finite_range(c.reconstruction.emergence_mid_budget, 0x0000_0000, 0x3F80_0000))
            &&& !(f32_lt(ONE, c.reconstruction.emergence_start) || f32_le(c.reconstruction.emergence_ramp, ZERO) || f32_sum_gt_two(c.reconstruction.emergence_start, c.reconstruction.emergence_ramp) || f32_lt(ONE, c.reconstruction.grounding_floor))
            &&& !(!f32_in_finite_range(c.reconstruction.loss_composite, 0x0000_0000, 0x42C8_0000))
            &&& !(!f32_in_finite_range(c.reconstruction.loss_ground_coarse, 0x0000_0000, 0x42C8_0000))
            &&& !(!f32_in_finite_range(c.reconstruction.loss_ground_mid, 0x0000_0000, 0x42C8_0000))
            &&& !(!f32_in_finite_range(c.reconstruction.loss_ground_fine, 0x0000_0000, 0x42C8_0000))
            &&& !(!f32_in_finite_range(c.reconstruction.loss_emergent_low, 0x0000_0000, 0x42C8_0000))
            &&& !(!f32_in_finite_range(c.reconstruction.loss_emergent_tv, 0x0000_0000, 0x42C8_0000))
            &&& !(!f32_in_finite_range(c.reconstruction.loss_emergent_fit, 0x0000_0000, 0x42C8_0000))
            &&& !(!f32_in_finite_range(c.reconstruction.loss_head_redundancy, 0x0000_0000, 0x42C8_0000))
            &&& !(!f32_in_finite_range(c.reconstruction.loss_cross_resolution, 0x0000_0000, 0x42C8_0000))
        },
{
}

/// The detail and flow guards pass exactly when every one of their conditions holds.
pub proof fn lemma_detail_flow_violation_none_exactly_when_guards_hold(c: RunConfig)
    ensures
        detail_flow_violation(c) is None <==> {
            &&& !(!f32_in_finite_range(c.detail.probability, 0x0000_0000, 0x3F80_0000))
            &&& !(!(32 <= c.detail.resolution && c.detail.resolution <= 384) || f32_lt(c.detail.min_zoom, ONE) || f32_lt(c.detail.max_zoom, c.detail.min_zoom) || f32_lt(THIRTY_TWO, c.detail.max_zoom) || !(64 <= c.detail.cache_max_level && c.detail.cache_max_level <= 4096))
            &&& !(!f32_in_finite_range(c.detail.curriculum_start, 0x0000_0000, 0x3F80_0000))
            &&& !(!(16 <= c.flow.hidden && c.flow.hidden <= 512) || !(1 <= c.flow.sample_steps && c.flow.sample_steps <= 256) || !(16 <= c.flow.resolution && c.flow.resolution <= 128) || c.flow.cadence == 0)
            &&& !(!f32_in_finite_range(c.flow.weight, 0x0000_0000, 0x42C8_0000))
            &&& !(!f32_in_finite_range(c.flow.endpoint_weight, 0x0000_0000, 0x42C8_0000))
            &&& !(!f32_in_finite_range(c.flow.min_time, 0x0000_0000, 0x3F80_0000))
            &&& !(!f32_in_finite_range(c.flow.max_time, c.flow.min_time, 0x3F80_0000))
            &&& !(c.analysis.stride == 0 || c.analysis.autonomous_horizon > 4096 || c.analysis.perturbation_horizon > 4096 || c.analysis.dynamics_horizon > 4096)
        },
{
}

/// The render guards pass exactly when every one of their conditions holds.
pub proof fn lemma_render_violation_none_exactly_when_guards_hold(c: RunConfig)
    ensures
        render_violation(c) is None <==> {
            &&& !(!f32_in_finite_range(c.interface_gain, 0x0000_0000, 0x3F80_0000))
            &&& !(!f32_in_finite_range(c.morph_residual_gain, 0x0000_0000, 0x3E80_0000))
            &&& !(!f32_in_finite_range(c.memory_limit, 0x3F00_0000, 0x4180_0000))
            &&& !(!f32_in_finite_range(c.reference_fidelity_min, 0x0000_0000, 0x3F80_0000))
            &&& !(!f32_in_finite_range(c.reference_fidelity_max, c.reference_fidelity_min, 0x3F80_0000))
            &&& !(!f32_in_finite_range(c.reference_dropout, 0x0000_0000, 0x3F80_0000))
            &&& !(!f32_in_finite_range(c.coord_gain, 0x0000_0000, 0x4000_0000))
            &&& !(!f32_in_finite_range(c.state_skip, 0x0000_0000, 0x4080_0000))
            &&& !(!f32_in_finite_range(c.chroma, 0x0000_0000, 0x3ECC_CCCD))
            &&& !(!f32_in_finite_range(c.gamma, 0x3F80_0000, 0x4040_0000))
            &&& !(c.train_resolution < c.micro_size || c.train_resolution > 512)
            &&& !(c.output_resolution < c.train_resolution || c.output_resolution > 4096)
            &&& !(c.snapshot_resolution < c.micro_size || c.snapshot_resolution > 4096)
            &&& !(c.core_update_every == 0 || c.macro_update_every == 0 || c.log_every == 0)
            &&& !(c.checkpoint_every > 0 && c.checkpoint_every % c.bptt != 0)
            &&& !(!(1 <= c.image_cache && c.image_cache <= 256))
        },
{
}

/// The optimizer guards pass exactly when every one of their conditions holds.
pub proof fn lemma_optimizer_violation_none_exactly_when_guards_hold(c: RunConfig)
    ensures
        optimizer_violation(c) is None <==> {
            &&& !(!(f64_is_finite(c.learning_rate) && f64_lt(ZERO64, c.learning_rate)))
            &&& !(!(f64_is_finite(c.weight_decay) && f64_le(ZERO64, c.weight_decay)))
            &&& !(!(f64_le(ZERO64, c.beta1) && f64_lt(c.beta1, ONE64)) || !(f64_le(ZERO64, c.beta2) && f64_lt(c.beta2, ONE64)))
            &&& !(!(f64_is_finite(c.adam_epsilon) && f64_lt(ZERO64, c.adam_epsilon)))
            &&& !(!(f64_is_finite(c.grad_clip) && f64_le(ZERO64, c.grad_clip)))
            &&& !(!(f64_le(ZERO64, c.muon_momentum) && f64_lt(c.muon_momentum, ONE64)) || !(1 <= c.muon_ns_steps && c.muon_ns_steps <= 10))
            &&& !(!f32_in_finite_range(c.dt, 0x3BA3_D70A, 0x3E80_0000))
            &&& !(!f32_in_finite_range(c.state_limit, 0x3F80_0000, 0x4140_0000))
            &&& !(!f32_in_finite_range(c.state_soft_limit, 0x3E80_0000, c.state_limit))
            &&& !(!f32_in_finite_range(c.clock_probability, 0x3D4C_CCCD, 0x3F80_0000))
            &&& !(!f32_in_finite_range(c.episode_reset, 0x0000_0000, 0x3F80_0000))
            &&& !(!f32_in_finite_range(c.memory_reset, 0x0000_0000, 0x3F80_0000))
            &&& !(!f32_in_finite_range(c.state_leak, 0x0000_0000, 0x3F00_0000))
            &&& !(!f32_in_finite_range(c.nca_gain, 0x0000_0000, 0x4080_0000))
            &&& !(!f32_in_finite_range(c.reaction_gain, 0x0000_0000, 0x4080_0000))
            &&& !(!f32_in_finite_range(c.phase_gain, 0x0000_0000, 0x4080_0000))
            &&& !(!f32_in_finite_range(c.fractal_gain, 0x0000_0000, 0x4080_0000))
            &&& !(!f32_in_finite_range(c.quasiperiodic_gain, 0x0000_0000, 0x4080_0000))
            &&& !(!f32_in_finite_range(c.cyclic_gain, 0x0000_0000, 0x4080_0000))
            &&& !(!f32_in_finite_range(c.rd_diffusion_u, 0x0000_0000, 0x4000_0000))
            &&& !(!f32_in_finite_range(c.rd_diffusion_v, 0x0000_0000, 0x4000_0000))
            &&& !(!f32_in_finite_range(c.rd_feed, 0x0000_0000, 0x4000_0000))
            &&& !(!f32_in_finite_range(c.rd_kill, 0x0000_0000, 0x4000_0000))
            &&& !(!f32_in_finite_range(c.phase_growth, 0x0000_0000, 0x4000_0000))
            &&& !(!f32_in_finite_range(c.phase_saturation, 0x0000_0000, 0x4000_0000))
            &&& !(!f32_in_finite_range(c.phase_frequency, 0x0000_0000, 0x4000_0000))
            &&& !(!f32_in_finite_range(c.phase_diffusion, 0x0000_0000, 0x4000_0000))
            &&& !(!f32_in_finite_range(c.phase_dispersion, 0x0000_0000, 0x4000_0000))
        },
{
}

/// The loss guards pass exactly when every one of their conditions holds.
pub proof fn lemma_loss_violation_none_exactly_when_guards_hold(c: RunConfig)
    ensures
        loss_violation(c) is None <==> {
            &&& !(!f32_in_finite_range(c.loss_content, 0x0000_0000, 0x42C8_0000))
            &&& !(!f32_in_finite_range(c.loss_palette, 0x0000_0000, 0x42C8_0000))
            &&& !(!f32_in_finite_range(c.loss_structure, 0x0000_0000, 0x42C8_0000))
            &&& !(!f32_in_finite_range(c.loss_seam, 0x0000_0000, 0x42C8_0000))
            &&& !(!f32_in_finite_range(c.loss_gamut, 0x0000_0000, 0x42C8_0000))
            &&& !(!(f32_lt(ZERO, c.loss_content) || f32_lt(ZERO, c.loss_palette) || f32_lt(ZERO, c.loss_structure) || f32_lt(ZERO, c.loss_seam) || f32_lt(ZERO, c.loss_gamut)))
            &&& !(!f32_in_finite_range(c.loss_state, 0x0000_0000, 0x42C8_0000))
            &&& !(!f32_in_finite_range(c.loss_memory, 0x0000_0000, 0x42C8_0000))
            &&& !(!f32_in_finite_range(c.max_saturation_fraction, 0x0000_0000, 0x3F80_0000))
            &&& !(c.stability_patience > 10000)
            &&& !(!f32_in_finite_range(c.mastering_strength, 0x0000_0000, 0x4000_0000))
            &&& !(c.gallery > 64 || c.gallery_steps > 1024 || c.gallery_stride > 256)
        },
{
}

/// The lifecycle guards pass exactly when every one of their conditions holds.
pub proof fn lemma_lifecycle_violation_none_exactly_when_guards_hold(c: RunConfig)
    ensures
        lifecycle_violation(c) is None <==> {
            &&& !((c.render_only || c.analysis.only) && c.fresh)
        },
{
}

/// The probe guards pass exactly when no probe is requested, or when it is
/// frozen analysis with 1..=64 ages in 1..=4096 in strictly increasing order
/// and 1..=32 distinct reference fidelities in [0, 1].
pub proof fn lemma_probe_violation_none_exactly_when_guards_hold(c: RunConfig)
    ensures
        probe_violation(c) is None <==> (c.analysis.probe_dir is None || {
            let ages = c.analysis.probe_ages@;
            let fidelities = c.analysis.probe_reference_fidelities@;
            &&& c.analysis.only
            &&& 1 <= ages.len() <= 64
            &&& forall|i: int| 0 <= i < ages.len() ==> 1 <= #[trigger] ages[i] <= 4096
            &&& 1 <= fidelities.len() <= 32
            &&& forall|i: int| 0 <= i < fidelities.len() ==> f32_in_finite_range(#[trigger] fidelities[i], ZERO, ONE)
            &&& strictly_increasing_ages(ages)
            &&& !has_equal_pair(fidelities)
        }),
{
}

/// A configuration passes validation exactly when every group of guards
/// passes, the opt-in training settings included.
pub proof fn lemma_first_violation_none_exactly_when_all_groups_pass(c: RunConfig)
    ensures
        first_violation(c) is None <==> {
            &&& structure_violation(c) is None
            &&& reconstruction_violation(c) is None
            &&& detail_flow_violation(c) is None
            &&& render_violation(c) is None
            &&& optimizer_violation(c) is None
            &&& loss_violation(c) is None
            &&& probe_violation(c) is None
            &&& lifecycle_violation(c) is None
            &&& experiment_violation(c.experiment, c, false) is None
        },
{
}

/// Each violation reported names a guard whose condition fails.
pub proof fn lemma_structure_violation_reports_a_failing_guard(c: RunConfig)
    ensures
        structure_violation(c) == Some(Violation::StepsZero) ==> (!c.render_only && !c.analysis.only && c.steps == 0),
        structure_violation(c) == Some(Violation::BpttOrEpisodeZero) ==> (c.bptt == 0 || c.episode_steps == 0),
        structure_violation(c) == Some(Violation::StepsNotMultipleOfBptt) ==> (!c.render_only && !c.analysis.only && c.steps % c.bptt != 0),
        structure_violation(c) == Some(Violation::EpisodeNotMultipleOfBptt) ==> (c.episode_steps % c.bptt != 0),
        structure_violation(c) == Some(Violation::Threads) ==> (!(1 <= c.threads && c.threads <= 64)),
        structure_violation(c) == Some(Violation::FieldSizes) ==> (!(24 <= c.micro_size && c.micro_size <= 128) || !(8 <= c.macro_size && c.macro_size <= c.micro_size)),
        structure_violation(c) == Some(Violation::Channels) ==> (!(MIN_PHYSICAL_CHANNELS <= c.channels && c.channels <= 64)),
        structure_violation(c) == Some(Violation::Architecture) ==> (!(2 <= c.genome_dim && c.genome_dim <= 32) || !(32 <= c.ca_hidden && c.ca_hidden <= 512) || !(32 <= c.render_hidden && c.render_hidden <= 512) || !(1 <= c.render_blocks && c.render_blocks <= 8) || !(1 <= c.coord_bands && c.coord_bands <= 8)),
        structure_violation(c) == Some(Violation::InterfaceGrid) ==> (!(2 <= c.interface_grid && c.interface_grid <= 16) || c.micro_size % c.interface_grid != 0 || c.macro_size % c.interface_grid != 0),
        structure_violation(c) == Some(Violation::RecurrentInterface) ==> (!(32 <= c.interface_width && c.interface_width <= 512) || c.interface_width % 32 != 0 || !(1 <= c.interface_loops && c.interface_loops <= 8) || !(1 <= c.morph_layers && c.morph_layers <= 32) || !(1 <= c.morph_depth && c.morph_depth <= c.morph_layers)),
        structure_violation(c) == Some(Violation::MorphGrowthDepths) ==> (!(1 <= c.morph_growth.min_depth && c.morph_growth.min_depth <= c.morph_layers) || !(c.morph_growth.min_depth <= c.morph_growth.max_depth && c.morph_growth.max_depth <= c.morph_layers)),
        structure_violation(c) == Some(Violation::FixedMorphDepth) ==> (c.morph_growth.mode == MorphDepthMode::Fixed && !(c.morph_growth.min_depth <= c.morph_depth && c.morph_depth <= c.morph_growth.max_depth)),
        structure_violation(c) == Some(Violation::MorphGrowthCadence) ==> (c.morph_growth.interval == 0 || c.morph_growth.plateau_window < 4),
{
}

/// Each violation reported names a guard whose condition fails.
pub proof fn lemma_reconstruction_violation_reports_a_failing_guard(c: RunConfig)
    ensures
        reconstruction_violation(c) == Some(Violation::OutOfRange(Scalar::MorphPlateauEpsilon)) ==> (!f32_in_finite_range(c.morph_growth.plateau_epsilon, 0x0000_0000, 0x3F80_0000)),
        reconstruction_violation(c) == Some(Violation::OutOfRange(Scalar::MorphSeamThreshold)) ==> (!f32_in_finite_range(c.morph_growth.seam_threshold, 0x0000_0000, 0x4120_0000)),
        reconstruction_violation(c) == Some(Violation::OutOfRange(Scalar::GroundingStrength)) ==> (!f32_in_finite_range(c.reconstruction.grounding_strength, 0x0000_0000, 0x4080_0000)),
        reconstruction_violation(c) == Some(Violation::OutOfRange(Scalar::EmergenceStrength)) ==> (!f32_in_finite_range(c.reconstruction.emergence_strength, 0x0000_0000, 0x4080_0000)),
        reconstruction_violation(c) == Some(Violation::OutOfRange(Scalar::EmergenceStart)) ==> (!f32_in_finite_range(c.reconstruction.emergence_start, 0x0000_0000, 0x4080_0000)),
        reconstruction_violation(c) == Some(Violation::OutOfRange(Scalar::EmergenceRamp)) ==> (!f32_in_finite_range(c.reconstruction.emergence_ramp, 0x0000_0000, 0x4080_0000)),
        reconstruction_violation(c) == Some(Violation::OutOfRange(Scalar::GroundingFloor)) ==> (!f32_in_finite_range(c.reconstruction.grounding_floor, 0x0000_0000, 0x4080_0000)),
        reconstruction_violation(c) == Some(Violation::OutOfRange(Scalar::EmergentLimit)) ==> (!f32_in_finite_range(c.reconstruction.emergent_limit, 0x0000_0000, 0x4080_0000)),
        reconstruction_violation(c) == Some(Violation::OutOfRange(Scalar::LocalReferenceGain)) ==> (!f32_in_finite_range(c.reconstruction.local_reference_gain, 0x0000_0000, 0x4080_0000)),
        reconstruction_violation(c) == Some(Violation::OutOfRange(Scalar::EmergenceLowBudget)) ==> (!f32_in_finite_range(c.reconstruction.emergence_low_budget, 0x0000_0000, 0x3F80_0000)),
        reconstruction_violation(c) == Some(Violation::OutOfRange(Scalar::EmergenceMidBudget)) ==> (!f32_in_finite_range(c.reconstruction.emergence_mid_budget, 0x0000_0000, 0x3F80_0000)),
        reconstruction_violation(c) == Some(Violation::ReconstructionSchedule) ==> (f32_lt(ONE, c.reconstruction.emergence_start) || f32_le(c.reconstruction.emergence_ramp, ZERO) || f32_sum_gt_two(c.reconstruction.emergence_start, c.reconstruction.emergence_ramp) || f32_lt(ONE, c.reconstruction.grounding_floor)),
        reconstruction_violation(c) == Some(Violation::OutOfRange(Scalar::LossComposite)) ==> (!f32_in_finite_range(c.reconstruction.loss_composite, 0x0000_0000, 0x42C8_0000)),
        reconstruction_violation(c) == Some(Violation::OutOfRange(Scalar::LossGroundCoarse)) ==> (!f32_in_finite_range(c.reconstruction.loss_ground_coarse, 0x0000_0000, 0x42C8_0000)),
        reconstruction_violation(c) == Some(Violation::OutOfRange(Scalar::LossGroundMid)) ==> (!f32_in_finite_range(c.reconstruction.loss_ground_mid, 0x0000_0000, 0x42C8_0000)),
        reconstruction_violation(c) == Some(Violation::OutOfRange(Scalar::LossGroundFine)) ==> (!f32_in_finite_range(c.reconstruction.loss_ground_fine, 0x0000_0000, 0x42C8_0000)),
        reconstruction_violation(c) == Some(Violation::OutOfRange(Scalar::LossEmergentLow)) ==> (!f32_in_finite_range(c.reconstruction.loss_emergent_low, 0x0000_0000, 0x42C8_0000)),
        reconstruction_violation(c) == Some(Violation::OutOfRange(Scalar::LossEmergentTv)) ==> (!f32_in_finite_range(c.reconstruction.loss_emergent_tv, 0x0000_0000, 0x42C8_0000)),
        reconstruction_violation(c) == Some(Violation::OutOfRange(Scalar::LossEmergentFit)) ==> (!f32_in_finite_range(c.reconstruction.loss_emergent_fit, 0x0000_0000, 0x42C8_0000)),
        reconstruction_violation(c) == Some(Violation::OutOfRange(Scalar::LossHeadRedundancy)) ==> (!f32_in_finite_range(c.reconstruction.loss_head_redundancy, 0x0000_0000, 0x42C8_0000)),
        reconstruction_violation(c) == Some(Violation::OutOfRange(Scalar::LossCrossResolution)) ==> (!f32_in_finite_range(c.reconstruction.loss_cross_resolution, 0x0000_0000, 0x42C8_0000)),
{
}

/// Each violation reported names a guard whose condition fails.
pub proof fn lemma_detail_flow_violation_reports_a_failing_guard(c: RunConfig)
    ensures
        detail_flow_violation(c) == Some(Violation::OutOfRange(Scalar::DetailCropProbability)) ==> (!f32_in_finite_range(c.detail.probability, 0x0000_0000, 0x3F80_0000)),
        detail_flow_violation(c) == Some(Violation::DetailControls) ==> (!(32 <= c.detail.resolution && c.detail.resolution <= 384) || f32_lt(c.detail.min_zoom, ONE) || f32_lt(c.detail.max_zoom, c.detail.min_zoom) || f32_lt(THIRTY_TWO, c.detail.max_zoom) || !(64 <= c.detail.cache_max_level && c.detail.cache_max_level <= 4096)),
        detail_flow_violation(c) == Some(Violation::OutOfRange(Scalar::DetailCurriculumStart)) ==> (!f32_in_finite_range(c.detail.curriculum_start, 0x0000_0000, 0x3F80_0000)),
        detail_flow_violation(c) == Some(Violation::FlowControls) ==> (!(16 <= c.flow.hidden && c.flow.hidden <= 512) || !(1 <= c.flow.sample_steps && c.flow.sample_steps <= 256) || !(16 <= c.flow.resolution && c.flow.resolution <= 128) || c.flow.cadence == 0),
        detail_flow_violation(c) == Some(Violation::OutOfRange(Scalar::FlowWeight)) ==> (!f32_in_finite_range(c.flow.weight, 0x0000_0000, 0x42C8_0000)),
        detail_flow_violation(c) == Some(Violation::OutOfRange(Scalar::FlowEndpointWeight)) ==> (!f32_in_finite_range(c.flow.endpoint_weight, 0x0000_0000, 0x42C8_0000)),
        detail_flow_violation(c) == Some(Violation::OutOfRange(Scalar::FlowMinTime)) ==> (!f32_in_finite_range(c.flow.min_time, 0x0000_0000, 0x3F80_0000)),
        detail_flow_violation(c) == Some(Violation::OutOfRange(Scalar::FlowMaxTime)) ==> (!f32_in_finite_range(c.flow.max_time, c.flow.min_time, 0x3F80_0000)),
        detail_flow_violation(c) == Some(Violation::AnalysisControls) ==> (c.analysis.stride == 0 || c.analysis.autonomous_horizon > 4096 || c.analysis.perturbation_horizon > 4096 || c.analysis.dynamics_horizon > 4096),
{
}

/// Each violation reported names a guard whose condition fails.
pub proof fn lemma_render_violation_reports_a_failing_guard(c: RunConfig)
    ensures
        render_violation(c) == Some(Violation::OutOfRange(Scalar::InterfaceGain)) ==> (!f32_in_finite_range(c.interface_gain, 0x0000_0000, 0x3F80_0000)),
        render_violation(c) == Some(Violation::OutOfRange(Scalar::MorphResidualGain)) ==> (!f32_in_finite_range(c.morph_residual_gain, 0x0000_0000, 0x3E80_0000)),
        render_violation(c) == Some(Violation::OutOfRange(Scalar::MemoryLimit)) ==> (!f32_in_finite_range(c.memory_limit, 0x3F00_0000, 0x4180_0000)),
        render_violation(c) == Some(Violation::OutOfRange(Scalar::ReferenceFidelityMin)) ==> (!f32_in_finite_range(c.reference_fidelity_min, 0x0000_0000, 0x3F80_0000)),
        render_violation(c) == Some(Violation::OutOfRange(Scalar::ReferenceFidelityMax)) ==> (!f32_in_finite_range(c.reference_fidelity_max, c.reference_fidelity_min, 0x3F80_0000)),
        render_violation(c) == Some(Violation::OutOfRange(Scalar::ReferenceDropout)) ==> (!f32_in_finite_range(c.reference_dropout, 0x0000_0000, 0x3F80_0000)),
        render_violation(c) == Some(Violation::OutOfRange(Scalar::CoordGain)) ==> (!f32_in_finite_range(c.coord_gain, 0x0000_0000, 0x4000_0000)),
        render_violation(c) == Some(Violation::OutOfRange(Scalar::StateSkip)) ==> (!f32_in_finite_range(c.state_skip, 0x0000_0000, 0x4080_0000)),
        render_violation(c) == Some(Violation::OutOfRange(Scalar::Chroma)) ==> (!f32_in_finite_range(c.chroma, 0x0000_0000, 0x3ECC_CCCD)),
        render_violation(c) == Some(Violation::OutOfRange(Scalar::Gamma)) ==> (!f32_in_finite_range(c.gamma, 0x3F80_0000, 0x4040_0000)),
        render_violation(c) == Some(Violation::TrainResolution) ==> (c.train_resolution < c.micro_size || c.train_resolution > 512),
        render_violation(c) == Some(Violation::OutputResolution) ==> (c.output_resolution < c.train_resolution || c.output_resolution > 4096),
        render_violation(c) == Some(Violation::SnapshotResolution) ==> (c.snapshot_resolution < c.micro_size || c.snapshot_resolution > 4096),
        render_violation(c) == Some(Violation::UpdateCadences) ==> (c.core_update_every == 0 || c.macro_update_every == 0 || c.log_every == 0),
        render_violation(c) == Some(Violation::CheckpointCadence) ==> (c.checkpoint_every > 0 && c.checkpoint_every % c.bptt != 0),
        render_violation(c) == Some(Violation::ImageCache) ==> (!(1 <= c.image_cache && c.image_cache <= 256)),
{
}

/// Each violation reported names a guard whose condition fails.
pub proof fn lemma_optimizer_violation_reports_a_failing_guard(c: RunConfig)
    ensures
        optimizer_violation(c) == Some(Violation::NotPositive(Scalar::LearningRate)) ==> (!(f64_is_finite(c.learning_rate) && f64_lt(ZERO64, c.learning_rate))),
        optimizer_violation(c) == Some(Violation::Negative(Scalar::WeightDecay)) ==> (!(f64_is_finite(c.weight_decay) && f64_le(ZERO64, c.weight_decay))),
        optimizer_violation(c) == Some(Violation::AdamBetas) ==> (!(f64_le(ZERO64, c.beta1) && f64_lt(c.beta1, ONE64)) || !(f64_le(ZERO64, c.beta2) && f64_lt(c.beta2, ONE64))),
        optimizer_violation(c) == Some(Violation::NotPositive(Scalar::AdamEpsilon)) ==> (!(f64_is_finite(c.adam_epsilon) && f64_lt(ZERO64, c.adam_epsilon))),
        optimizer_violation(c) == Some(Violation::Negative(Scalar::GradClip)) ==> (!(f64_is_finite(c.grad_clip) && f64_le(ZERO64, c.grad_clip))),
        optimizer_violation(c) == Some(Violation::Muon) ==> (!(f64_le(ZERO64, c.muon_momentum) && f64_lt(c.muon_momentum, ONE64)) || !(1 <= c.muon_ns_steps && c.muon_ns_steps <= 10)),
        optimizer_violation(c) == Some(Violation::OutOfRange(Scalar::Dt)) ==> (!f32_in_finite_range(c.dt, 0x3BA3_D70A, 0x3E80_0000)),
        optimizer_violation(c) == Some(Violation::OutOfRange(Scalar::StateLimit)) ==> (!f32_in_finite_range(c.state_limit, 0x3F80_0000, 0x4140_0000)),
        optimizer_violation(c) == Some(Violation::OutOfRange(Scalar::StateSoftLimit)) ==> (!f32_in_finite_range(c.state_soft_limit, 0x3E80_0000, c.state_limit)),
        optimizer_violation(c) == Some(Violation::OutOfRange(Scalar::ClockProbability)) ==> (!f32_in_finite_range(c.clock_probability, 0x3D4C_CCCD, 0x3F80_0000)),
        optimizer_violation(c) == Some(Violation::OutOfRange(Scalar::EpisodeReset)) ==> (!f32_in_finite_range(c.episode_reset, 0x0000_0000, 0x3F80_0000)),
        optimizer_violation(c) == Some(Violation::OutOfRange(Scalar::MemoryReset)) ==> (!f32_in_finite_range(c.memory_reset, 0x0000_0000, 0x3F80_0000)),
        optimizer_violation(c) == Some(Violation::OutOfRange(Scalar::StateLeak)) ==> (!f32_in_finite_range(c.state_leak, 0x0000_0000, 0x3F00_0000)),
        optimizer_violation(c) == Some(Violation::OutOfRange(Scalar::NcaGain)) ==> (!f32_in_finite_range(c.nca_gain, 0x0000_0000, 0x4080_0000)),
        optimizer_violation(c) == Some(Violation::OutOfRange(Scalar::ReactionGain)) ==> (!f32_in_finite_range(c.reaction_gain, 0x0000_0000, 0x4080_0000)),
        optimizer_violation(c) == Some(Violation::OutOfRange(Scalar::PhaseGain)) ==> (!f32_in_finite_range(c.phase_gain, 0x0000_0000, 0x4080_0000)),
        optimizer_violation(c) == Some(Violation::OutOfRange(Scalar::FractalGain)) ==> (!f32_in_finite_range(c.fractal_gain, 0x0000_0000, 0x4080_0000)),
        optimizer_violation(c) == Some(Violation::OutOfRange(Scalar::QuasiperiodicGain)) ==> (!f32_in_finite_range(c.quasiperiodic_gain, 0x0000_0000, 0x4080_0000)),
        optimizer_violation(c) == Some(Violation::OutOfRange(Scalar::CyclicGain)) ==> (!f32_in_finite_range(c.cyclic_gain, 0x0000_0000, 0x4080_0000)),
        optimizer_violation(c) == Some(Violation::OutOfRange(Scalar::RdDiffusionU)) ==> (!f32_in_finite_range(c.rd_diffusion_u, 0x0000_0000, 0x4000_0000)),
        optimizer_violation(c) == Some(Violation::OutOfRange(Scalar::RdDiffusionV)) ==> (!f32_in_finite_range(c.rd_diffusion_v, 0x0000_0000, 0x4000_0000)),
        optimizer_violation(c) == Some(Violation::OutOfRange(Scalar::RdFeed)) ==> (!f32_in_finite_range(c.rd_feed, 0x0000_0000, 0x4000_0000)),
        optimizer_violation(c) == Some(Violation::OutOfRange(Scalar::RdKill)) ==> (!f32_in_finite_range(c.rd_kill, 0x0000_0000, 0x4000_0000)),
        optimizer_violation(c) == Some(Violation::OutOfRange(Scalar::PhaseGrowth)) ==> (!f32_in_finite_range(c.phase_growth, 0x0000_0000, 0x4000_0000)),
        optimizer_violation(c) == Some(Violation::OutOfRange(Scalar::PhaseSaturation)) ==> (!f32_in_finite_range(c.phase_saturation, 0x0000_0000, 0x4000_0000)),
        optimizer_violation(c) == Some(Violation::OutOfRange(Scalar::PhaseFrequency)) ==> (!f32_in_finite_range(c.phase_frequency, 0x0000_0000, 0x4000_0000)),
        optimizer_violation(c) == Some(Violation::OutOfRange(Scalar::PhaseDiffusion)) ==> (!f32_in_finite_range(c.phase_diffusion, 0x0000_0000, 0x4000_0000)),
        optimizer_violation(c) == Some(Violation::OutOfRange(Scalar::PhaseDispersion)) ==> (!f32_in_finite_range(c.phase_dispersion, 0x0000_0000, 0x4000_0000)),
{
}

/// Each violation reported names a guard whose condition fails.
pub proof fn lemma_loss_violation_reports_a_failing_guard(c: RunConfig)
    ensures
        loss_violation(c) == Some(Violation::OutOfRange(Scalar::LossContent)) ==> (!f32_in_finite_range(c.loss_content, 0x0000_0000, 0x42C8_0000)),
        loss_violation(c) == Some(Violation::OutOfRange(Scalar::LossPalette)) ==> (!f32_in_finite_range(c.loss_palette, 0x0000_0000, 0x42C8_0000)),
        loss_violation(c) == Some(Violation::OutOfRange(Scalar::LossStructure)) ==> (!f32_in_finite_range(c.loss_structure, 0x0000_0000, 0x42C8_0000)),
        loss_violation(c) == Some(Violation::OutOfRange(Scalar::LossSeam)) ==> (!f32_in_finite_range(c.loss_seam, 0x0000_0000, 0x42C8_0000)),
        loss_violation(c) == Some(Violation::OutOfRange(Scalar::LossGamut)) ==> (!f32_in_finite_range(c.loss_gamut, 0x0000_0000, 0x42C8_0000)),
        loss_violation(c) == Some(Violation::NoVisualLoss) ==> (!(f32_lt(ZERO, c.loss_content) || f32_lt(ZERO, c.loss_palette) || f32_lt(ZERO, c.loss_structure) || f32_lt(ZERO, c.loss_seam) || f32_lt(ZERO, c.loss_gamut))),
        loss_violation(c) == Some(Violation::OutOfRange(Scalar::LossState)) ==> (!f32_in_finite_range(c.loss_state, 0x0000_0000, 0x42C8_0000)),
        loss_violation(c) == Some(Violation::OutOfRange(Scalar::LossMemory)) ==> (!f32_in_finite_range(c.loss_memory, 0x0000_0000, 0x42C8_0000)),
        loss_violation(c) == Some(Violation::OutOfRange(Scalar::MaxSaturationFraction)) ==> (!f32_in_finite_range(c.max_saturation_fraction, 0x0000_0000, 0x3F80_0000)),
        loss_violation(c) == Some(Violation::StabilityPatience) ==> (c.stability_patience > 10000),
        loss_violation(c) == Some(Violation::OutOfRange(Scalar::MasteringStrength)) ==> (!f32_in_finite_range(c.mastering_strength, 0x0000_0000, 0x4000_0000)),
        loss_violation(c) == Some(Violation::Gallery) ==> (c.gallery > 64 || c.gallery_steps > 1024 || c.gallery_stride > 256),
{
}

/// Each violation reported names a guard whose condition fails.
pub proof fn lemma_probe_violation_reports_a_failing_guard(c: RunConfig)
    ensures
        probe_violation(c) == Some(Violation::ProbeNeedsAnalysisOnly) ==> (!c.analysis.only),
        probe_violation(c) == Some(Violation::ProbeAges) ==> (c.analysis.probe_ages@.len() == 0 || c.analysis.probe_ages@.len() > 64 || exists|i: int|
        0 <= i < c.analysis.probe_ages@.len() && (c.analysis.probe_ages@[i] == 0 || c.analysis.probe_ages@[i] > 4096)),
        probe_violation(c) == Some(Violation::ProbeFidelityCount) ==> (c.analysis.probe_reference_fidelities@.len() == 0 || c.analysis.probe_reference_fidelities@.len() > 32),
        probe_violation(c) == Some(Violation::OutOfRange(Scalar::ProbeReferenceFidelities)) ==> (exists|i: int|
        0 <= i < c.analysis.probe_reference_fidelities@.len() && !f32_in_finite_range(c.analysis.probe_reference_fidelities@[i], ZERO, ONE)),
        probe_violation(c) == Some(Violation::ProbeAgesOrder) ==> (!strictly_increasing_ages(c.analysis.probe_ages@)),
        probe_violation(c) == Some(Violation::ProbeFidelityDuplicates) ==> (has_equal_pair(c.analysis.probe_reference_fidelities@)),
{
}

/// Each violation reported names a guard whose condition fails.
pub proof fn lemma_lifecycle_violation_reports_a_failing_guard(c: RunConfig)
    ensures
        lifecycle_violation(c) == Some(Violation::FreshWithFrozen) ==> ((c.render_only || c.analysis.only) && c.fresh),
{
}

/// The groups of guards are checked in order: the structure, the
/// reconstruction schedule, detail and flow, rendering, the optimizer, the
/// losses, the probe, the lifecycle, then the opt-in training settings; the
/// first group that fails decides the violation reported.
pub proof fn lemma_guard_groups_checked_in_order(c: RunConfig)
    ensures
        structure_violation(c) is Some ==> first_violation(c) == structure_violation(c),
        structure_violation(c) is None && reconstruction_violation(c) is Some ==> first_violation(c) == reconstruction_violation(c),
        structure_violation(c) is None && reconstruction_violation(c) is None && detail_flow_violation(c) is Some ==> first_violation(c) == detail_flow_violation(c),
        structure_violation(c) is None && reconstruction_violation(c) is None && detail_flow_violation(c) is None && render_violation(c) is Some ==> first_violation(c) == render_violation(c),
        structure_violation(c) is None && reconstruction_violation(c) is None && detail_flow_violation(c) is None && render_violation(c) is None && optimizer_violation(c) is Some ==> first_violation(c) == optimizer_violation(c),
        structure_violation(c) is None && reconstruction_violation(c) is None && detail_flow_violation(c) is None && render_violation(c) is None && optimizer_violation(c) is None && loss_violation(c) is Some ==> first_violation(c) == loss_violation(c),
        structure_violation(c) is None && reconstruction_violation(c) is None && detail_flow_violation(c) is None && render_violation(c) is None && optimizer_violation(c) is None && loss_violation(c) is None && probe_violation(c) is Some ==> first_violation(c) == probe_violation(c),
        structure_violation(c) is None && reconstruction_violation(c) is None && detail_flow_violation(c) is None && render_violation(c) is None && optimizer_violation(c) is None && loss_violation(c) is None && probe_violation(c) is None && lifecycle_violation(c) is Some ==> first_violation(c) == lifecycle_violation(c),
        structure_violation(c) is None && reconstruction_violation(c) is None && detail_flow_violation(c) is None && render_violation(c) is None && optimizer_violation(c) is None && loss_violation(c) is None && probe_violation(c) is None && lifecycle_violation(c) is None ==> first_violation(c) == experiment_guard(c),
{
}

/// The first guard, in checking order, whose condition fails decides the violation.
pub proof fn lemma_structure_violation_checked_in_order(c: RunConfig)
    ensures
        (!c.render_only && !c.analysis.only && c.steps == 0) ==> structure_violation(c) == Some(Violation::StepsZero),
        !(!c.render_only && !c.analysis.only && c.steps == 0) && (c.bptt == 0 || c.episode_steps == 0) ==> structure_violation(c) == Some(Violation::BpttOrEpisodeZero),
        !(!c.render_only && !c.analysis.only && c.steps == 0) && !(c.bptt == 0 || c.episode_steps == 0) && (!c.render_only && !c.analysis.only && c.steps % c.bptt != 0) ==> structure_violation(c) == Some(Violation::StepsNotMultipleOfBptt),
        !(!c.render_only && !c.analysis.only && c.steps == 0) && !(c.bptt == 0 || c.episode_steps == 0) && !(!c.render_only && !c.analysis.only && c.steps % c.bptt != 0) && (c.episode_steps % c.bptt != 0) ==> structure_violation(c) == Some(Violation::EpisodeNotMultipleOfBptt),
        !(!c.render_only && !c.analysis.only && c.steps == 0) && !(c.bptt == 0 || c.episode_steps == 0) && !(!c.render_only && !c.analysis.only && c.steps % c.bptt != 0) && !(c.episode_steps % c.bptt != 0) && (!(1 <= c.threads && c.threads <= 64)) ==> structure_violation(c) == Some(Violation::Threads),
        !(!c.render_only && !c.analysis.only && c.steps == 0) && !(c.bptt == 0 || c.episode_steps == 0) && !(!c.render_only && !c.analysis.only && c.steps % c.bptt != 0) && !(c.episode_steps % c.bptt != 0) && !(!(1 <= c.threads && c.threads <= 64)) && (!(24 <= c.micro_size && c.micro_size <= 128) || !(8 <= c.macro_size && c.macro_size <= c.micro_size)) ==> structure_violation(c) == Some(Violation::FieldSizes),
        !(!c.render_only && !c.analysis.only && c.steps == 0) && !(c.bptt == 0 || c.episode_steps == 0) && !(!c.render_only && !c.analysis.only && c.steps % c.bptt != 0) && !(c.episode_steps % c.bptt != 0) && !(!(1 <= c.threads && c.threads <= 64)) && !(!(24 <= c.micro_size && c.micro_size <= 128) || !(8 <= c.macro_size && c.macro_size <= c.micro_size)) && (!(MIN_PHYSICAL_CHANNELS <= c.channels && c.channels <= 64)) ==> structure_violation(c) == Some(Violation::Channels),
        !(!c.render_only && !c.analysis.only && c.steps == 0) && !(c.bptt == 0 || c.episode_steps == 0) && !(!c.render_only && !c.analysis.only && c.steps % c.bptt != 0) && !(c.episode_steps % c.bptt != 0) && !(!(1 <= c.threads && c.threads <= 64)) && !(!(24 <= c.micro_size && c.micro_size <= 128) || !(8 <= c.macro_size && c.macro_size <= c.micro_size)) && !(!(MIN_PHYSICAL_CHANNELS <= c.channels && c.channels <= 64)) && (!(2 <= c.genome_dim && c.genome_dim <= 32) || !(32 <= c.ca_hidden && c.ca_hidden <= 512) || !(32 <= c.render_hidden && c.render_hidden <= 512) || !(1 <= c.render_blocks && c.render_blocks <= 8) || !(1 <= c.coord_bands && c.coord_bands <= 8)) ==> structure_violation(c) == Some(Violation::Architecture),
        !(!c.render_only && !c.analysis.only && c.steps == 0) && !(c.bptt == 0 || c.episode_steps == 0) && !(!c.render_only && !c.analysis.only && c.steps % c.bptt != 0) && !(c.episode_steps % c.bptt != 0) && !(!(1 <= c.threads && c.threads <= 64)) && !(!(24 <= c.micro_size && c.micro_size <= 128) || !(8 <= c.macro_size && c.macro_size <= c.micro_size)) && !(!(MIN_PHYSICAL_CHANNELS <= c.channels && c.channels <= 64)) && !(!(2 <= c.genome_dim && c.genome_dim <= 32) || !(32 <= c.ca_hidden && c.ca_hidden <= 512) || !(32 <= c.render_hidden && c.render_hidden <= 512) || !(1 <= c.render_blocks && c.render_blocks <= 8) || !(1 <= c.coord_bands && c.coord_bands <= 8)) && (!(2 <= c.interface_grid && c.interface_grid <= 16) || c.micro_size % c.interface_grid != 0 || c.macro_size % c.interface_grid != 0) ==> structure_violation(c) == Some(Violation::InterfaceGrid),
        !(!c.render_only && !c.analysis.only && c.steps == 0) && !(c.bptt == 0 || c.episode_steps == 0) && !(!c.render_only && !c.analysis.only && c.steps % c.bptt != 0) && !(c.episode_steps % c.bptt != 0) && !(!(1 <= c.threads && c.threads <= 64)) && !(!(24 <= c.micro_size && c.micro_size <= 128) || !(8 <= c.macro_size && c.macro_size <= c.micro_size)) && !(!(MIN_PHYSICAL_CHANNELS <= c.channels && c.channels <= 64)) && !(!(2 <= c.genome_dim && c.genome_dim <= 32) || !(32 <= c.ca_hidden && c.ca_hidden <= 512) || !(32 <= c.render_hidden && c.render_hidden <= 512) || !(1 <= c.render_blocks && c.render_blocks <= 8) || !(1 <= c.coord_bands && c.coord_bands <= 8)) && !(!(2 <= c.interface_grid && c.interface_grid <= 16) || c.micro_size % c.interface_grid != 0 || c.macro_size % c.interface_grid != 0) && (!(32 <= c.interface_width && c.interface_width <= 512) || c.interface_width % 32 != 0 || !(1 <= c.interface_loops && c.interface_loops <= 8) || !(1 <= c.morph_layers && c.morph_layers <= 32) || !(1 <= c.morph_depth && c.morph_depth <= c.morph_layers)) ==> structure_violation(c) == Some(Violation::RecurrentInterface),
        !(!c.render_only && !c.analysis.only && c.steps == 0) && !(c.bptt == 0 || c.episode_steps == 0) && !(!c.render_only && !c.analysis.only && c.steps % c.bptt != 0) && !(c.episode_steps % c.bptt != 0) && !(!(1 <= c.threads && c.threads <= 64)) && !(!(24 <= c.micro_size && c.micro_size <= 128) || !(8 <= c.macro_size && c.macro_size <= c.micro_size)) && !(!(MIN_PHYSICAL_CHANNELS <= c.channels && c.channels <= 64)) && !(!(2 <= c.genome_dim && c.genome_dim <= 32) || !(32 <= c.ca_hidden && c.ca_hidden <= 512) || !(32 <= c.render_hidden && c.render_hidden <= 512) || !(1 <= c.render_blocks && c.render_blocks <= 8) || !(1 <= c.coord_bands && c.coord_bands <= 8)) && !(!(2 <= c.interface_grid && c.interface_grid <= 16) || c.micro_size % c.interface_grid != 0 || c.macro_size % c.interface_grid != 0) && !(!(32 <= c.interface_width && c.interface_width <= 512) || c.interface_width % 32 != 0 || !(1 <= c.interface_loops && c.interface_loops <= 8) || !(1 <= c.morph_layers && c.morph_layers <= 32) || !(1 <= c.morph_depth && c.morph_depth <= c.morph_layers)) && (!(1 <= c.morph_growth.min_depth && c.morph_growth.min_depth <= c.morph_layers) || !(c.morph_growth.min_depth <= c.morph_growth.max_depth && c.morph_growth.max_depth <= c.morph_layers)) ==> structure_violation(c) == Some(Violation::MorphGrowthDepths),
        !(!c.render_only && !c.analysis.only && c.steps == 0) && !(c.bptt == 0 || c.episode_steps == 0) && !(!c.render_only && !c.analysis.only && c.steps % c.bptt != 0) && !(c.episode_steps % c.bptt != 0) && !(!(1 <= c.threads && c.threads <= 64)) && !(!(24 <= c.micro_size && c.micro_size <= 128) || !(8 <= c.macro_size && c.macro_size <= c.micro_size)) && !(!(MIN_PHYSICAL_CHANNELS <= c.channels && c.channels <= 64)) && !(!(2 <= c.genome_dim && c.genome_dim <= 32) || !(32 <= c.ca_hidden && c.ca_hidden <= 512) || !(32 <= c.render_hidden && c.render_hidden <= 512) || !(1 <= c.render_blocks && c.render_blocks <= 8) || !(1 <= c.coord_bands && c.coord_bands <= 8)) && !(!(2 <= c.interface_grid && c.interface_grid <= 16) || c.micro_size % c.interface_grid != 0 || c.macro_size % c.interface_grid != 0) && !(!(32 <= c.interface_width && c.interface_width <= 512) || c.interface_width % 32 != 0 || !(1 <= c.interface_loops && c.interface_loops <= 8) || !(1 <= c.morph_layers && c.morph_layers <= 32) || !(1 <= c.morph_depth && c.morph_depth <= c.morph_layers)) && !(!(1 <= c.morph_growth.min_depth && c.morph_growth.min_depth <= c.morph_layers) || !(c.morph_growth.min_depth <= c.morph_growth.max_depth && c.morph_growth.max_depth <= c.morph_layers)) && (c.morph_growth.mode == MorphDepthMode::Fixed && !(c.morph_growth.min_depth <= c.morph_depth && c.morph_depth <= c.morph_growth.max_depth)) ==> structure_violation(c) == Some(Violation::FixedMorphDepth),
        !(!c.render_only && !c.analysis.only && c.steps == 0) && !(c.bptt == 0 || c.episode_steps == 0) && !(!c.render_only && !c.analysis.only && c.steps % c.bptt != 0) && !(c.episode_steps % c.bptt != 0) && !(!(1 <= c.threads && c.threads <= 64)) && !(!(24 <= c.micro_size && c.micro_size <= 128) || !(8 <= c.macro_size && c.macro_size <= c.micro_size)) && !(!(MIN_PHYSICAL_CHANNELS <= c.channels && c.channels <= 64)) && !(!(2 <= c.genome_dim && c.genome_dim <= 32) || !(32 <= c.ca_hidden && c.ca_hidden <= 512) || !(32 <= c.render_hidden && c.render_hidden <= 512) || !(1 <= c.render_blocks && c.render_blocks <= 8) || !(1 <= c.coord_bands && c.coord_bands <= 8)) && !(!(2 <= c.interface_grid && c.interface_grid <= 16) || c.micro_size % c.interface_grid != 0 || c.macro_size % c.interface_grid != 0) && !(!(32 <= c.interface_width && c.interface_width <= 512) || c.interface_width % 32 != 0 || !(1 <= c.interface_loops && c.interface_loops <= 8) || !(1 <= c.morph_layers && c.morph_layers <= 32) || !(1 <= c.morph_depth && c.morph_depth <= c.morph_layers)) && !(!(1 <= c.morph_growth.min_depth && c.morph_growth.min_depth <= c.morph_layers) || !(c.morph_growth.min_depth <= c.morph_growth.max_depth && c.morph_growth.max_depth <= c.morph_layers)) && !(c.morph_growth.mode == MorphDepthMode::Fixed && !(c.morph_growth.min_depth <= c.morph_depth && c.morph_depth <= c.morph_growth.max_depth)) && (c.morph_growth.interval == 0 || c.morph_growth.plateau_window < 4) ==> structure_violation(c) == Some(Violation::MorphGrowthCadence),
{
}

/// The first guard, in checking order, whose condition fails decides the violation.
pub proof fn lemma_reconstruction_violation_checked_in_order(c: RunConfig)
    ensures
        (!f32_in_finite_range(c.morph_growth.plateau_epsilon, 0x0000_0000, 0x3F80_0000)) ==> reconstruction_violation(c) == Some(Violation::OutOfRange(Scalar::MorphPlateauEpsilon)),
        !(!f32_in_finite_range(c.morph_growth.plateau_epsilon, 0x0000_0000, 0x3F80_0000)) && (!f32_in_finite_range(c.morph_growth.seam_threshold, 0x0000_0000, 0x4120_0000)) ==> reconstruction_violation(c) == Some(Violation::OutOfRange(Scalar::MorphSeamThreshold)),
        !(!f32_in_finite_range(c.morph_growth.plateau_epsilon, 0x0000_0000, 0x3F80_0000)) && !(!f32_in_finite_range(c.morph_growth.seam_threshold, 0x0000_0000, 0x4120_0000)) && (!f32_in_finite_range(c.reconstruction.grounding_strength, 0x0000_0000, 0x4080_0000)) ==> reconstruction_violation(c) == Some(Violation::OutOfRange(Scalar::GroundingStrength)),
        !(!f32_in_finite_range(c.morph_growth.plateau_epsilon, 0x0000_0000, 0x3F80_0000)) && !(!f32_in_finite_range(c.morph_growth.seam_threshold, 0x0000_0000, 0x4120_0000)) && !(!f32_in_finite_range(c.reconstruction.grounding_strength, 0x0000_0000, 0x4080_0000)) && (!f32_in_finite_range(c.reconstruction.emergence_strength, 0x0000_0000, 0x4080_0000)) ==> reconstruction_violation(c) == Some(Violation::OutOfRange(Scalar::EmergenceStrength)),
        !(!f32_in_finite_range(c.morph_growth.plateau_epsilon, 0x0000_0000, 0x3F80_0000)) && !(!f32_in_finite_range(c.morph_growth.seam_threshold, 0x0000_0000, 0x4120_0000)) && !(!f32_in_finite_range(c.reconstruction.grounding_strength, 0x0000_0000, 0x4080_0000)) && !(!f32_in_finite_range(c.reconstruction.emergence_strength, 0x0000_0000, 0x4080_0000)) && (!f32_in_finite_range(c.reconstruction.emergence_start, 0x0000_0000, 0x4080_0000)) ==> reconstruction_violation(c) == Some(Violation::OutOfRange(Scalar::EmergenceStart)),
        !(!f32_in_finite_range(c.morph_growth.plateau_epsilon, 0x0000_0000, 0x3F80_0000)) && !(!f32_in_finite_range(c.morph_growth.seam_threshold, 0x0000_0000, 0x4120_0000)) && !(!f32_in_finite_range(c.reconstruction.grounding_strength, 0x0000_0000, 0x4080_0000)) && !(!f32_in_finite_range(c.reconstruction.emergence_strength, 0x0000_0000, 0x4080_0000)) && !(!f32_in_finite_range(c.reconstruction.emergence_start, 0x0000_0000, 0x4080_0000)) && (!f32_in_finite_range(c.reconstruction.emergence_ramp, 0x0000_0000, 0x4080_0000)) ==> reconstruction_violation(c) == Some(Violation::OutOfRange(Scalar::EmergenceRamp)),
        !(!f32_in_finite_range(c.morph_growth.plateau_epsilon, 0x0000_0000, 0x3F80_0000)) && !(!f32_in_finite_range(c.morph_growth.seam_threshold, 0x0000_0000, 0x4120_0000)) && !(!f32_in_finite_range(c.reconstruction.grounding_strength, 0x0000_0000, 0x4080_0000)) && !(!f32_in_finite_range(c.reconstruction.emergence_strength, 0x0000_0000, 0x4080_0000)) && !(!f32_in_finite_range(c.reconstruction.emergence_start, 0x0000_0000, 0x4080_0000)) && !(!f32_in_finite_range(c.reconstruction.emergence_ramp, 0x0000_0000, 0x4080_0000)) && (!f32_in_finite_range(c.reconstruction.grounding_floor, 0x0000_0000, 0x4080_0000)) ==> reconstruction_violation(c) == Some(Violation::OutOfRange(Scalar::GroundingFloor)),
        !(!f32_in_finite_range(c.morph_growth.plateau_epsilon, 0x0000_0000, 0x3F80_0000)) && !(!f32_in_finite_range(c.morph_growth.seam_threshold, 0x0000_0000, 0x4120_0000)) && !(!f32_in_finite_range(c.reconstruction.grounding_strength, 0x0000_0000, 0x4080_0000)) && !(!f32_in_finite_range(c.reconstruction.emergence_strength, 0x0000_0000, 0x4080_0000)) && !(!f32_in_finite_range(c.reconstruction.emergence_start, 0x0000_0000, 0x4080_0000)) && !(!f32_in_finite_range(c.reconstruction.emergence_ramp, 0x0000_0000, 0x4080_0000)) && !(!f32_in_finite_range(c.reconstruction.grounding_floor, 0x0000_0000, 0x4080_0000)) && (!f32_in_finite_range(c.reconstruction.emergent_limit, 0x0000_0000, 0x4080_0000)) ==> reconstruction_violation(c) == Some(Violation::OutOfRange(Scalar::EmergentLimit)),
        !(!f32_in_finite_range(c.morph_growth.plateau_epsilon, 0x0000_0000, 0x3F80_0000)) && !(!f32_in_finite_range(c.morph_growth.seam_threshold, 0x0000_0000, 0x4120_0000)) && !(!f32_in_finite_range(c.reconstruction.grounding_strength, 0x0000_0000, 0x4080_0000)) && !(!f32_in_finite_range(c.reconstruction.emergence_strength, 0x0000_0000, 0x4080_0000)) && !(!f32_in_finite_range(c.reconstruction.emergence_start, 0x0000_0000, 0x4080_0000)) && !(!f32_in_finite_range(c.reconstruction.emergence_ramp, 0x0000_0000, 0x4080_0000)) && !(!f32_in_finite_range(c.reconstruction.grounding_floor, 0x0000_0000, 0x4080_0000)) && !(!f32_in_finite_range(c.reconstruction.emergent_limit, 0x0000_0000, 0x4080_0000)) && (!f32_in_finite_range(c.reconstruction.local_reference_gain, 0x0000_0000, 0x4080_0000)) ==> reconstruction_violation(c) == Some(Violation::OutOfRange(Scalar::LocalReferenceGain)),
        !(!f32_in_finite_range(c.morph_growth.plateau_epsilon, 0x0000_0000, 0x3F80_0000)) && !(!f32_in_finite_range(c.morph_growth.seam_threshold, 0x0000_0000, 0x4120_0000)) && !(!f32_in_finite_range(c.reconstruction.grounding_strength, 0x0000_0000, 0x4080_0000)) && !(!f32_in_finite_range(c.reconstruction.emergence_strength, 0x0000_0000, 0x4080_0000)) && !(!f32_in_finite_range(c.reconstruction.emergence_start, 0x0000_0000, 0x4080_0000)) && !(!f32_in_finite_range(c.reconstruction.emergence_ramp, 0x0000_0000, 0x4080_0000)) && !(!f32_in_finite_range(c.reconstruction.grounding_floor, 0x0000_0000, 0x4080_0000)) && !(!f32_in_finite_range(c.reconstruction.emergent_limit, 0x0000_0000, 0x4080_0000)) && !(!f32_in_finite_range(c.reconstruction.local_reference_gain, 0x0000_0000, 0x4080_0000)) && (!f32_in_finite_range(c.reconstruction.emergence_low_budget, 0x0000_0000, 0x3F80_0000)) ==> reconstruction_violation(c) == Some(Violation::OutOfRange(Scalar::EmergenceLowBudget)),
        !(!f32_in_finite_range(c.morph_growth.plateau_epsilon, 0x0000_0000, 0x3F80_0000)) && !(!f32_in_finite_range(c.morph_growth.seam_threshold, 0x0000_0000, 0x4120_0000)) && !(!f32_in_finite_range(c.reconstruction.grounding_strength, 0x0000_0000, 0x4080_0000)) && !(!f32_in_finite_range(c.reconstruction.emergence_strength, 0x0000_0000, 0x4080_0000)) && !(!f32_in_finite_range(c.reconstruction.emergence_start, 0x0000_0000, 0x4080_0000)) && !(!f32_in_finite_range(c.reconstruction.emergence_ramp, 0x0000_0000, 0x4080_0000)) && !(!f32_in_finite_range(c.reconstruction.grounding_floor, 0x0000_0000, 0x4080_0000)) && !(!f32_in_finite_range(c.reconstruction.emergent_limit, 0x0000_0000, 0x4080_0000)) && !(!f32_in_finite_range(c.reconstruction.local_reference_gain, 0x0000_0000, 0x4080_0000)) && !(!f32_in_finite_range(c.reconstruction.emergence_low_budget, 0x0000_0000, 0x3F80_0000)) && (!f32_in_finite_range(c.reconstruction.emergence_mid_budget, 0x0000_0000, 0x3F80_0000)) ==> reconstruction_violation(c) == Some(Violation::OutOfRange(Scalar::EmergenceMidBudget)),
        !(!f32_in_finite_range(c.morph_growth.plateau_epsilon, 0x0000_0000, 0x3F80_0000)) && !(!f32_in_finite_range(c.morph_growth.seam_threshold, 0x0000_0000, 0x4120_0000)) && !(!f32_in_finite_range(c.reconstruction.grounding_strength, 0x0000_0000, 0x4080_0000)) && !(!f32_in_finite_range(c.reconstruction.emergence_strength, 0x0000_0000, 0x4080_0000)) && !(!f32_in_finite_range(c.reconstruction.emergence_start, 0x0000_0000, 0x4080_0000)) && !(!f32_in_finite_range(c.reconstruction.emergence_ramp, 0x0000_0000, 0x4080_0000)) && !(!f32_in_finite_range(c.reconstruction.grounding_floor, 0x0000_0000, 0x4080_0000)) && !(!f32_in_finite_range(c.reconstruction.emergent_limit, 0x0000_0000, 0x4080_0000)) && !(!f32_in_finite_range(c.reconstruction.local_reference_gain, 0x0000_0000, 0x4080_0000)) && !(!f32_in_finite_range(c.reconstruction.emergence_low_budget, 0x0000_0000, 0x3F80_0000)) && !(!f32_in_finite_range(c.reconstruction.emergence_mid_budget, 0x0000_0000, 0x3F80_0000)) && (f32_lt(ONE, c.reconstruction.emergence_start) || f32_le(c.reconstruction.emergence_ramp, ZERO) || f32_sum_gt_two(c.reconstruction.emergence_start, c.reconstruction.emergence_ramp) || f32_lt(ONE, c.reconstruction.grounding_floor)) ==> reconstruction_violation(c) == Some(Violation::ReconstructionSchedule),
        !(!f32_in_finite_range(c.morph_growth.plateau_epsilon, 0x0000_0000, 0x3F80_0000)) && !(!f32_in_finite_range(c.morph_growth.seam_threshold, 0x0000_0000, 0x4120_0000)) && !(!f32_in_finite_range(c.reconstruction.grounding_strength, 0x0000_0000, 0x4080_0000)) && !(!f32_in_finite_range(c.reconstruction.emergence_strength, 0x0000_0000, 0x4080_0000)) && !(!f32_in_finite_range(c.reconstruction.emergence_start, 0x0000_0000, 0x4080_0000)) && !(!f32_in_finite_range(c.reconstruction.emergence_ramp, 0x0000_0000, 0x4080_0000)) && !(!f32_in_finite_range(c.reconstruction.grounding_floor, 0x0000_0000, 0x4080_0000)) && !(!f32_in_finite_range(c.reconstruction.emergent_limit, 0x0000_0000, 0x4080_0000)) && !(!f32_in_finite_range(c.reconstruction.local_reference_gain, 0x0000_0000, 0x4080_0000)) && !(!f32_in_finite_range(c.reconstruction.emergence_low_budget, 0x0000_0000, 0x3F80_0000)) && !(!f32_in_finite_range(c.reconstruction.emergence_mid_budget, 0x0000_0000, 0x3F80_0000)) && !(f32_lt(ONE, c.reconstruction.emergence_start) || f32_le(c.reconstruction.emergence_ramp, ZERO) || f32_sum_gt_two(c.reconstruction.emergence_start, c.reconstruction.emergence_ramp) || f32_lt(ONE, c.reconstruction.grounding_floor)) && (!f32_in_finite_range(c.reconstruction.loss_composite, 0x0000_0000, 0x42C8_0000)) ==> reconstruction_violation(c) == Some(Violation::OutOfRange(Scalar::LossComposite)),
        !(!f32_in_finite_range(c.morph_growth.plateau_epsilon, 0x0000_0000, 0x3F80_0000)) && !(!f32_in_finite_range(c.morph_growth.seam_threshold, 0x0000_0000, 0x4120_0000)) && !(!f32_in_finite_range(c.reconstruction.grounding_strength, 0x0000_0000, 0x4080_0000)) && !(!f32_in_finite_range(c.reconstruction.emergence_strength, 0x0000_0000, 0x4080_0000)) && !(!f32_in_finite_range(c.reconstruction.emergence_start, 0x0000_0000, 0x4080_0000)) && !(!f32_in_finite_range(c.reconstruction.emergence_ramp, 0x0000_0000, 0x4080_0000)) && !(!f32_in_finite_range(c.reconstruction.grounding_floor, 0x0000_0000, 0x4080_0000)) && !(!f32_in_finite_range(c.reconstruction.emergent_limit, 0x0000_0000, 0x4080_0000)) && !(!f32_in_finite_range(c.reconstruction.local_reference_gain, 0x0000_0000, 0x4080_0000)) && !(!f32_in_finite_range(c.reconstruction.emergence_low_budget, 0x0000_0000, 0x3F80_0000)) && !(!f32_in_finite_range(c.reconstruction.emergence_mid_budget, 0x0000_0000, 0x3F80_0000)) && !(f32_lt(ONE, c.reconstruction.emergence_start) || f32_le(c.reconstruction.emergence_ramp, ZERO) || f32_sum_gt_two(c.reconstruction.emergence_start, c.reconstruction.emergence_ramp) || f32_lt(ONE, c.reconstruction.grounding_floor)) && !(!f32_in_finite_range(c.reconstruction.loss_composite, 0x0000_0000, 0x42C8_0000)) && (!f32_in_finite_range(c.reconstruction.loss_ground_coarse, 0x0000_0000, 0x42C8_0000)) ==> reconstruction_violation(c) == Some(Violation::OutOfRange(Scalar::LossGroundCoarse)),
        !(!f32_in_finite_range(c.morph_growth.plateau_epsilon, 0x0000_0000, 0x3F80_0000)) && !(!f32_in_finite_range(c.morph_growth.seam_threshold, 0x0000_0000, 0x4120_0000)) && !(!f32_in_finite_range(c.reconstruction.grounding_strength, 0x0000_0000, 0x4080_0000)) && !(!f32_in_finite_range(c.reconstruction.emergence_strength, 0x0000_0000, 0x4080_0000)) && !(!f32_in_finite_range(c.reconstruction.emergence_start, 0x0000_0000, 0x4080_0000)) && !(!f32_in_finite_range(c.reconstruction.emergence_ramp, 0x0000_0000, 0x4080_0000)) && !(!f32_in_finite_range(c.reconstruction.grounding_floor, 0x0000_0000, 0x4080_0000)) && !(!f32_in_finite_range(c.reconstruction.emergent_limit, 0x0000_0000, 0x4080_0000)) && !(!f32_in_finite_range(c.reconstruction.local_reference_gain, 0x0000_0000, 0x4080_0000)) && !(!f32_in_finite_range(c.reconstruction.emergence_low_budget, 0x0000_0000, 0x3F80_0000)) && !(!f32_in_finite_range(c.reconstruction.emergence_mid_budget, 0x0000_0000, 0x3F80_0000)) && !(f32_lt(ONE, c.reconstruction.emergence_start) || f32_le(c.reconstruction.emergence_ramp, ZERO) || f32_sum_gt_two(c.reconstruction.emergence_start, c.reconstruction.emergence_ramp) || f32_lt(ONE, c.reconstruction.grounding_floor)) && !(!f32_in_finite_range(c.reconstruction.loss_composite, 0x0000_0000, 0x42C8_0000)) && !(!f32_in_finite_range(c.reconstruction.loss_ground_coarse, 0x0000_0000, 0x42C8_0000)) && (!f32_in_finite_range(c.reconstruction.loss_ground_mid, 0x0000_0000, 0x42C8_0000)) ==> reconstruction_violation(c) == Some(Violation::OutOfRange(Scalar::LossGroundMid)),
        !(!f32_in_finite_range(c.morph_growth.plateau_epsilon, 0x0000_0000, 0x3F80_0000)) && !(!f32_in_finite_range(c.morph_growth.seam_threshold, 0x0000_0000, 0x4120_0000)) && !(!f32_in_finite_range(c.reconstruction.grounding_strength, 0x0000_0000, 0x4080_0000)) && !(!f32_in_finite_range(c.reconstruction.emergence_strength, 0x0000_0000, 0x4080_0000)) && !(!f32_in_finite_range(c.reconstruction.emergence_start, 0x0000_0000, 0x4080_0000)) && !(!f32_in_finite_range(c.reconstruction.emergence_ramp, 0x0000_0000, 0x4080_0000)) && !(!f32_in_finite_range(c.reconstruction.grounding_floor, 0x0000_0000, 0x4080_0000)) && !(!f32_in_finite_range(c.reconstruction.emergent_limit, 0x0000_0000, 0x4080_0000)) && !(!f32_in_finite_range(c.reconstruction.local_reference_gain, 0x0000_0000, 0x4080_0000)) && !(!f32_in_finite_range(c.reconstruction.emergence_low_budget, 0x0000_0000, 0x3F80_0000)) && !(!f32_in_finite_range(c.reconstruction.emergence_mid_budget, 0x0000_0000, 0x3F80_0000)) && !(f32_lt(ONE, c.reconstruction.emergence_start) || f32_le(c.reconstruction.emergence_ramp, ZERO) || f32_sum_gt_two(c.reconstruction.emergence_start, c.reconstruction.emergence_ramp) || f32_lt(ONE, c.reconstruction.grounding_floor)) && !(!f32_in_finite_range(c.reconstruction.loss_composite, 0x0000_0000, 0x42C8_0000)) && !(!f32_in_finite_range(c.reconstruction.loss_ground_coarse, 0x0000_0000, 0x42C8_0000)) && !(!f32_in_finite_range(c.reconstruction.loss_ground_mid, 0x0000_0000, 0x42C8_0000)) && (!f32_in_finite_range(c.reconstruction.loss_ground_fine, 0x0000_0000, 0x42C8_0000)) ==> reconstruction_violation(c) == Some(Violation::OutOfRange(Scalar::LossGroundFine)),
        !(!f32_in_finite_range(c.morph_growth.plateau_epsilon, 0x0000_0000, 0x3F80_0000)) && !(!f32_in_finite_range(c.morph_growth.seam_threshold, 0x0000_0000, 0x4120_0000)) && !(!f32_in_finite_range(c.reconstruction.grounding_strength, 0x0000_0000, 0x4080_0000)) && !(!f32_in_finite_range(c.reconstruction.emergence_strength, 0x0000_0000, 0x4080_0000)) && !(!f32_in_finite_range(c.reconstruction.emergence_start, 0x0000_0000, 0x4080_0000)) && !(!f32_in_finite_range(c.reconstruction.emergence_ramp, 0x0000_0000, 0x4080_0000)) && !(!f32_in_finite_range(c.reconstruction.grounding_floor, 0x0000_0000, 0x4080_0000)) && !(!f32_in_finite_range(c.reconstruction.emergent_limit, 0x0000_0000, 0x4080_0000)) && !(!f32_in_finite_range(c.reconstruction.local_reference_gain, 0x0000_0000, 0x4080_0000)) && !(!f32_in_finite_range(c.reconstruction.emergence_low_budget, 0x0000_0000, 0x3F80_0000)) && !(!f32_in_finite_range(c.reconstruction.emergence_mid_budget, 0x0000_0000, 0x3F80_0000)) && !(f32_lt(ONE, c.reconstruction.emergence_start) || f32_le(c.reconstruction.emergence_ramp, ZERO) || f32_sum_gt_two(c.reconstruction.emergence_start, c.reconstruction.emergence_ramp) || f32_lt(ONE, c.reconstruction.grounding_floor)) && !(!f32_in_finite_range(c.reconstruction.loss_composite, 0x0000_0000, 0x42C8_0000)) && !(!f32_in_finite_range(c.reconstruction.loss_ground_coarse, 0x0000_0000, 0x42C8_0000)) && !(!f32_in_finite_range(c.reconstruction.loss_ground_mid, 0x0000_0000, 0x42C8_0000)) && !(!f32_in_finite_range(c.reconstruction.loss_ground_fine, 0x0000_0000, 0x42C8_0000)) && (!f32_in_finite_range(c.reconstruction.loss_emergent_low, 0x0000_0000, 0x42C8_0000)) ==> reconstruction_violation(c) == Some(Violation::OutOfRange(Scalar::LossEmergentLow)),
        !(!f32_in_finite_range(c.morph_growth.plateau_epsilon, 0x0000_0000, 0x3F80_0000)) && !(!f32_in_finite_range(c.morph_growth.seam_threshold, 0x0000_0000, 0x4120_0000)) && !(!f32_in_finite_range(c.reconstruction.grounding_strength, 0x0000_0000, 0x4080_0000)) && !(!f32_in_finite_range(c.reconstruction.emergence_strength, 0x0000_0000, 0x4080_0000)) && !(!f32_in_finite_range(c.reconstruction.emergence_start, 0x0000_0000, 0x4080_0000)) && !(!f32_in_finite_range(c.reconstruction.emergence_ramp, 0x0000_0000, 0x4080_0000)) && !(!f32_in_finite_range(c.reconstruction.grounding_floor, 0x0000_0000, 0x4080_0000)) && !(!f32_in_finite_range(c.reconstruction.emergent_limit, 0x0000_0000, 0x4080_0000)) && !(!f32_in_finite_range(c.reconstruction.local_reference_gain, 0x0000_0000, 0x4080_0000)) && !(!f32_in_finite_range(c.reconstruction.emergence_low_budget, 0x0000_0000, 0x3F80_0000)) && !(!f32_in_finite_range(c.reconstruction.emergence_mid_budget, 0x0000_0000, 0x3F80_0000)) && !(f32_lt(ONE, c.reconstruction.emergence_start) || f32_le(c.reconstruction.emergence_ramp, ZERO) || f32_sum_gt_two(c.reconstruction.emergence_start, c.reconstruction.emergence_ramp) || f32_lt(ONE, c.reconstruction.grounding_floor)) && !(!f32_in_finite_range(c.reconstruction.loss_composite, 0x0000_0000, 0x42C8_0000)) && !(!f32_in_finite_range(c.reconstruction.loss_ground_coarse, 0x0000_0000, 0x42C8_0000)) && !(!f32_in_finite_range(c.reconstruction.loss_ground_mid, 0x0000_0000, 0x42C8_0000)) && !(!f32_in_finite_range(c.reconstruction.loss_ground_fine, 0x0000_0000, 0x42C8_0000)) && !(!f32_in_finite_range(c.reconstruction.loss_emergent_low, 0x0000_0000, 0x42C8_0000)) && (!f32_in_finite_range(c.reconstruction.loss_emergent_tv, 0x0000_0000, 0x42C8_0000)) ==> reconstruction_violation(c) == Some(Violation::OutOfRange(Scalar::LossEmergentTv)),
        !(!f32_in_finite_range(c.morph_growth.plateau_epsilon, 0x0000_0000, 0x3F80_0000)) && !(!f32_in_finite_range(c.morph_growth.seam_threshold, 0x0000_0000, 0x4120_0000)) && !(!f32_in_finite_range(c.reconstruction.grounding_strength, 0x0000_0000, 0x4080_0000)) && !(!f32_in_finite_range(c.reconstruction.emergence_strength, 0x0000_0000, 0x4080_0000)) && !(!f32_in_finite_range(c.reconstruction.emergence_start, 0x0000_0000, 0x4080_0000)) && !(!f32_in_finite_range(c.reconstruction.emergence_ramp, 0x0000_0000, 0x4080_0000)) && !(!f32_in_finite_range(c.reconstruction.grounding_floor, 0x0000_0000, 0x4080_0000)) && !(!f32_in_finite_range(c.reconstruction.emergent_limit, 0x0000_0000, 0x4080_0000)) && !(!f32_in_finite_range(c.reconstruction.local_reference_gain, 0x0000_0000, 0x4080_0000)) && !(!f32_in_finite_range(c.reconstruction.emergence_low_budget, 0x0000_0000, 0x3F80_0000)) && !(!f32_in_finite_range(c.reconstruction.emergence_mid_budget, 0x0000_0000, 0x3F80_0000)) && !(f32_lt(ONE, c.reconstruction.emergence_start) || f32_le(c.reconstruction.emergence_ramp, ZERO) || f32_sum_gt_two(c.reconstruction.emergence_start, c.reconstruction.emergence_ramp) || f32_lt(ONE, c.reconstruction.grounding_floor)) && !(!f32_in_finite_range(c.reconstruction.loss_composite, 0x0000_0000, 0x42C8_0000)) && !(!f32_in_finite_range(c.reconstruction.loss_ground_coarse, 0x0000_0000, 0x42C8_0000)) && !(!f32_in_finite_range(c.reconstruction.loss_ground_mid, 0x0000_0000, 0x42C8_0000)) && !(!f32_in_finite_range(c.reconstruction.loss_ground_fine, 0x0000_0000, 0x42C8_0000)) && !(!f32_in_finite_range(c.reconstruction.loss_emergent_low, 0x0000_0000, 0x42C8_0000)) && !(!f32_in_finite_range(c.reconstruction.loss_emergent_tv, 0x0000_0000, 0x42C8_0000)) && (!f32_in_finite_range(c.reconstruction.loss_emergent_fit, 0x0000_0000, 0x42C8_0000)) ==> reconstruction_violation(c) == Some(Violation::OutOfRange(Scalar::LossEmergentFit)),
        !(!f32_in_finite_range(c.morph_growth.plateau_epsilon, 0x0000_0000, 0x3F80_0000)) && !(!f32_in_finite_range(c.morph_growth.seam_threshold, 0x0000_0000, 0x4120_0000)) && !(!f32_in_finite_range(c.reconstruction.grounding_strength, 0x0000_0000, 0x4080_0000)) && !(!f32_in_finite_range(c.reconstruction.emergence_strength, 0x0000_0000, 0x4080_0000)) && !(!f32_in_finite_range(c.reconstruction.emergence_start, 0x0000_0000, 0x4080_0000)) && !(!f32_in_finite_range(c.reconstruction.emergence_ramp, 0x0000_0000, 0x4080_0000)) && !(!f32_in_finite_range(c.reconstruction.grounding_floor, 0x0000_0000, 0x4080_0000)) && !(!f32_in_finite_range(c.reconstruction.emergent_limit, 0x0000_0000, 0x4080_0000)) && !(!f32_in_finite_range(c.reconstruction.local_reference_gain, 0x0000_0000, 0x4080_0000)) && !(!f32_in_finite_range(c.reconstruction.emergence_low_budget, 0x0000_0000, 0x3F80_0000)) && !(!f32_in_finite_range(c.reconstruction.emergence_mid_budget, 0x0000_0000, 0x3F80_0000)) && !(f32_lt(ONE, c.reconstruction.emergence_start) || f32_le(c.reconstruction.emergence_ramp, ZERO) || f32_sum_gt_two(c.reconstruction.emergence_start, c.reconstruction.emergence_ramp) || f32_lt(ONE, c.reconstruction.grounding_floor)) && !(!f32_in_finite_range(c.reconstruction.loss_composite, 0x0000_0000, 0x42C8_0000)) && !(!f32_in_finite_range(c.reconstruction.loss_ground_coarse, 0x0000_0000, 0x42C8_0000)) && !(!f32_in_finite_range(c.reconstruction.loss_ground_mid, 0x0000_0000, 0x42C8_0000)) && !(!f32_in_finite_range(c.reconstruction.loss_ground_fine, 0x0000_0000, 0x42C8_0000)) && !(!f32_in_finite_range(c.reconstruction.loss_emergent_low, 0x0000_0000, 0x42C8_0000)) && !(!f32_in_finite_range(c.reconstruction.loss_emergent_tv, 0x0000_0000, 0x42C8_0000)) && !(!f32_in_finite_range(c.reconstruction.loss_emergent_fit, 0x0000_0000, 0x42C8_0000)) && (!f32_in_finite_range(c.reconstruction.loss_head_redundancy, 0x0000_0000, 0x42C8_0000)) ==> reconstruction_violation(c) == Some(Violation::OutOfRange(Scalar::LossHeadRedundancy)),
        !(!f32_in_finite_range(c.morph_growth.plateau_epsilon, 0x0000_0000, 0x3F80_0000)) && !(!f32_in_finite_range(c.morph_growth.seam_threshold, 0x0000_0000, 0x4120_0000)) && !(!f32_in_finite_range(c.reconstruction.grounding_strength, 0x0000_0000, 0x4080_0000)) && !(!f32_in_finite_range(c.reconstruction.emergence_strength, 0x0000_0000, 0x4080_0000)) && !(!f32_in_finite_range(c.reconstruction.emergence_start, 0x0000_0000, 0x4080_0000)) && !(!f32_in_finite_range(c.reconstruction.emergence_ramp, 0x0000_0000, 0x4080_0000)) && !(!f32_in_finite_range(c.reconstruction.grounding_floor, 0x0000_0000, 0x4080_0000)) && !(!f32_in_finite_range(c.reconstruction.emergent_limit, 0x0000_0000, 0x4080_0000)) && !(!f32_in_finite_range(c.reconstruction.local_reference_gain, 0x0000_0000, 0x4080_0000)) && !(!f32_in_finite_range(c.reconstruction.emergence_low_budget, 0x0000_0000, 0x3F80_0000)) && !(!f32_in_finite_range(c.reconstruction.emergence_mid_budget, 0x0000_0000, 0x3F80_0000)) && !(f32_lt(ONE, c.reconstruction.emergence_start) || f32_le(c.reconstruction.emergence_ramp, ZERO) || f32_sum_gt_two(c.reconstruction.emergence_start, c.reconstruction.emergence_ramp) || f32_lt(ONE, c.reconstruction.grounding_floor)) && !(!f32_in_finite_range(c.reconstruction.loss_composite, 0x0000_0000, 0x42C8_0000)) && !(!f32_in_finite_range(c.reconstruction.loss_ground_coarse, 0x0000_0000, 0x42C8_0000)) && !(!f32_in_finite_range(c.reconstruction.loss_ground_mid, 0x0000_0000, 0x42C8_0000)) && !(!f32_in_finite_range(c.reconstruction.loss_ground_fine, 0x0000_0000, 0x42C8_0000)) && !(!f32_in_finite_range(c.reconstruction.loss_emergent_low, 0x0000_0000, 0x42C8_0000)) && !(!f32_in_finite_range(c.reconstruction.loss_emergent_tv, 0x0000_0000, 0x42C8_0000)) && !(!f32_in_finite_range(c.reconstruction.loss_emergent_fit, 0x0000_0000, 0x42C8_0000)) && !(!f32_in_finite_range(c.reconstruction.loss_head_redundancy, 0x0000_0000, 0x42C8_0000)) && (!f32_in_finite_range(c.reconstruction.loss_cross_resolution, 0x0000_0000, 0x42C8_0000)) ==> reconstruction_violation(c) == Some(Violation::OutOfRange(Scalar::LossCrossResolution)),
{
}

/// The first guard, in checking order, whose condition fails decides the violation.
pub proof fn lemma_detail_flow_violation_checked_in_order(c: RunConfig)
    ensures
        (!f32_in_finite_range(c.detail.probability, 0x0000_0000, 0x3F80_0000)) ==> detail_flow_violation(c) == Some(Violation::OutOfRange(Scalar::DetailCropProbability)),
        !(!f32_in_finite_range(c.detail.probability, 0x0000_0000, 0x3F80_0000)) && (!(32 <= c.detail.resolution && c.detail.resolution <= 384) || f32_lt(c.detail.min_zoom, ONE) || f32_lt(c.detail.max_zoom, c.detail.min_zoom) || f32_lt(THIRTY_TWO, c.detail.max_zoom) || !(64 <= c.detail.cache_max_level && c.detail.cache_max_level <= 4096)) ==> detail_flow_violation(c) == Some(Violation::DetailControls),
        !(!f32_in_finite_range(c.detail.probability, 0x0000_0000, 0x3F80_0000)) && !(!(32 <= c.detail.resolution && c.detail.resolution <= 384) || f32_lt(c.detail.min_zoom, ONE) || f32_lt(c.detail.max_zoom, c.detail.min_zoom) || f32_lt(THIRTY_TWO, c.detail.max_zoom) || !(64 <= c.detail.cache_max_level && c.detail.cache_max_level <= 4096)) && (!f32_in_finite_range(c.detail.curriculum_start, 0x0000_0000, 0x3F80_0000)) ==> detail_flow_violation(c) == Some(Violation::OutOfRange(Scalar::DetailCurriculumStart)),
        !(!f32_in_finite_range(c.detail.probability, 0x0000_0000, 0x3F80_0000)) && !(!(32 <= c.detail.resolution && c.detail.resolution <= 384) || f32_lt(c.detail.min_zoom, ONE) || f32_lt(c.detail.max_zoom, c.detail.min_zoom) || f32_lt(THIRTY_TWO, c.detail.max_zoom) || !(64 <= c.detail.cache_max_level && c.detail.cache_max_level <= 4096)) && !(!f32_in_finite_range(c.detail.curriculum_start, 0x0000_0000, 0x3F80_0000)) && (!(16 <= c.flow.hidden && c.flow.hidden <= 512) || !(1 <= c.flow.sample_steps && c.flow.sample_steps <= 256) || !(16 <= c.flow.resolution && c.flow.resolution <= 128) || c.flow.cadence == 0) ==> detail_flow_violation(c) == Some(Violation::FlowControls),
        !(!f32_in_finite_range(c.detail.probability, 0x0000_0000, 0x3F80_0000)) && !(!(32 <= c.detail.resolution && c.detail.resolution <= 384) || f32_lt(c.detail.min_zoom, ONE) || f32_lt(c.detail.max_zoom, c.detail.min_zoom) || f32_lt(THIRTY_TWO, c.detail.max_zoom) || !(64 <= c.detail.cache_max_level && c.detail.cache_max_level <= 4096)) && !(!f32_in_finite_range(c.detail.curriculum_start, 0x0000_0000, 0x3F80_0000)) && !(!(16 <= c.flow.hidden && c.flow.hidden <= 512) || !(1 <= c.flow.sample_steps && c.flow.sample_steps <= 256) || !(16 <= c.flow.resolution && c.flow.resolution <= 128) || c.flow.cadence == 0) && (!f32_in_finite_range(c.flow.weight, 0x0000_0000, 0x42C8_0000)) ==> detail_flow_violation(c) == Some(Violation::OutOfRange(Scalar::FlowWeight)),
        !(!f32_in_finite_range(c.detail.probability, 0x0000_0000, 0x3F80_0000)) && !(!(32 <= c.detail.resolution && c.detail.resolution <= 384) || f32_lt(c.detail.min_zoom, ONE) || f32_lt(c.detail.max_zoom, c.detail.min_zoom) || f32_lt(THIRTY_TWO, c.detail.max_zoom) || !(64 <= c.detail.cache_max_level && c.detail.cache_max_level <= 4096)) && !(!f32_in_finite_range(c.detail.curriculum_start, 0x0000_0000, 0x3F80_0000)) && !(!(16 <= c.flow.hidden && c.flow.hidden <= 512) || !(1 <= c.flow.sample_steps && c.flow.sample_steps <= 256) || !(16 <= c.flow.resolution && c.flow.resolution <= 128) || c.flow.cadence == 0) && !(!f32_in_finite_range(c.flow.weight, 0x0000_0000, 0x42C8_0000)) && (!f32_in_finite_range(c.flow.endpoint_weight, 0x0000_0000, 0x42C8_0000)) ==> detail_flow_violation(c) == Some(Violation::OutOfRange(Scalar::FlowEndpointWeight)),
        !(!f32_in_finite_range(c.detail.probability, 0x0000_0000, 0x3F80_0000)) && !(!(32 <= c.detail.resolution && c.detail.resolution <= 384) || f32_lt(c.detail.min_zoom, ONE) || f32_lt(c.detail.max_zoom, c.detail.min_zoom) || f32_lt(THIRTY_TWO, c.detail.max_zoom) || !(64 <= c.detail.cache_max_level && c.detail.cache_max_level <= 4096)) && !(!f32_in_finite_range(c.detail.curriculum_start, 0x0000_0000, 0x3F80_0000)) && !(!(16 <= c.flow.hidden && c.flow.hidden <= 512) || !(1 <= c.flow.sample_steps && c.flow.sample_steps <= 256) || !(16 <= c.flow.resolution && c.flow.resolution <= 128) || c.flow.cadence == 0) && !(!f32_in_finite_range(c.flow.weight, 0x0000_0000, 0x42C8_0000)) && !(!f32_in_finite_range(c.flow.endpoint_weight, 0x0000_0000, 0x42C8_0000)) && (!f32_in_finite_range(c.flow.min_time, 0x0000_0000, 0x3F80_0000)) ==> detail_flow_violation(c) == Some(Violation::OutOfRange(Scalar::FlowMinTime)),
        !(!f32_in_finite_range(c.detail.probability, 0x0000_0000, 0x3F80_0000)) && !(!(32 <= c.detail.resolution && c.detail.resolution <= 384) || f32_lt(c.detail.min_zoom, ONE) || f32_lt(c.detail.max_zoom, c.detail.min_zoom) || f32_lt(THIRTY_TWO, c.detail.max_zoom) || !(64 <= c.detail.cache_max_level && c.detail.cache_max_level <= 4096)) && !(!f32_in_finite_range(c.detail.curriculum_start, 0x0000_0000, 0x3F80_0000)) && !(!(16 <= c.flow.hidden && c.flow.hidden <= 512) || !(1 <= c.flow.sample_steps && c.flow.sample_steps <= 256) || !(16 <= c.flow.resolution && c.flow.resolution <= 128) || c.flow.cadence == 0) && !(!f32_in_finite_range(c.flow.weight, 0x0000_0000, 0x42C8_0000)) && !(!f32_in_finite_range(c.flow.endpoint_weight, 0x0000_0000, 0x42C8_0000)) && !(!f32_in_finite_range(c.flow.min_time, 0x0000_0000, 0x3F80_0000)) && (!f32_in_finite_range(c.flow.max_time, c.flow.min_time, 0x3F80_0000)) ==> detail_flow_violation(c) == Some(Violation::OutOfRange(Scalar::FlowMaxTime)),
        !(!f32_in_finite_range(c.detail.probability, 0x0000_0000, 0x3F80_0000)) && !(!(32 <= c.detail.resolution && c.detail.resolution <= 384) || f32_lt(c.detail.min_zoom, ONE) || f32_lt(c.detail.max_zoom, c.detail.min_zoom) || f32_lt(THIRTY_TWO, c.detail.max_zoom) || !(64 <= c.detail.cache_max_level && c.detail.cache_max_level <= 4096)) && !(!f32_in_finite_range(c.detail.curriculum_start, 0x0000_0000, 0x3F80_0000)) && !(!(16 <= c.flow.hidden && c.flow.hidden <= 512) || !(1 <= c.flow.sample_steps && c.flow.sample_steps <= 256) || !(16 <= c.flow.resolution && c.flow.resolution <= 128) || c.flow.cadence == 0) && !(!f32_in_finite_range(c.flow.weight, 0x0000_0000, 0x42C8_0000)) && !(!f32_in_finite_range(c.flow.endpoint_weight, 0x0000_0000, 0x42C8_0000)) && !(!f32_in_finite_range(c.flow.min_time, 0x0000_0000, 0x3F80_0000)) && !(!f32_in_finite_range(c.flow.max_time, c.flow.min_time, 0x3F80_0000)) && (c.analysis.stride == 0 || c.analysis.autonomous_horizon > 4096 || c.analysis.perturbation_horizon > 4096 || c.analysis.dynamics_horizon > 4096) ==> detail_flow_violation(c) == Some(Violation::AnalysisControls),
{
}

/// The first guard, in checking order, whose condition fails decides the violation.
pub proof fn lemma_render_violation_checked_in_order(c: RunConfig)
    ensures
        (!f32_in_finite_range(c.interface_gain, 0x0000_0000, 0x3F80_0000)) ==> render_violation(c) == Some(Violation::OutOfRange(Scalar::InterfaceGain)),
        !(!f32_in_finite_range(c.interface_gain, 0x0000_0000, 0x3F80_0000)) && (!f32_in_finite_range(c.morph_residual_gain, 0x0000_0000, 0x3E80_0000)) ==> render_violation(c) == Some(Violation::OutOfRange(Scalar::MorphResidualGain)),
        !(!f32_in_finite_range(c.interface_gain, 0x0000_0000, 0x3F80_0000)) && !(!f32_in_finite_range(c.morph_residual_gain, 0x0000_0000, 0x3E80_0000)) && (!f32_in_finite_range(c.memory_limit, 0x3F00_0000, 0x4180_0000)) ==> render_violation(c) == Some(Violation::OutOfRange(Scalar::MemoryLimit)),
        !(!f32_in_finite_range(c.interface_gain, 0x0000_0000, 0x3F80_0000)) && !(!f32_in_finite_range(c.morph_residual_gain, 0x0000_0000, 0x3E80_0000)) && !(!f32_in_finite_range(c.memory_limit, 0x3F00_0000, 0x4180_0000)) && (!f32_in_finite_range(c.reference_fidelity_min, 0x0000_0000, 0x3F80_0000)) ==> render_violation(c) == Some(Violation::OutOfRange(Scalar::ReferenceFidelityMin)),
        !(!f32_in_finite_range(c.interface_gain, 0x0000_0000, 0x3F80_0000)) && !(!f32_in_finite_range(c.morph_residual_gain, 0x0000_0000, 0x3E80_0000)) && !(!f32_in_finite_range(c.memory_limit, 0x3F00_0000, 0x4180_0000)) && !(!f32_in_finite_range(c.reference_fidelity_min, 0x0000_0000, 0x3F80_0000)) && (!f32_in_finite_range(c.reference_fidelity_max, c.reference_fidelity_min, 0x3F80_0000)) ==> render_violation(c) == Some(Violation::OutOfRange(Scalar::ReferenceFidelityMax)),
        !(!f32_in_finite_range(c.interface_gain, 0x0000_0000, 0x3F80_0000)) && !(!f32_in_finite_range(c.morph_residual_gain, 0x0000_0000, 0x3E80_0000)) && !(!f32_in_finite_range(c.memory_limit, 0x3F00_0000, 0x4180_0000)) && !(!f32_in_finite_range(c.reference_fidelity_min, 0x0000_0000, 0x3F80_0000)) && !(!f32_in_finite_range(c.reference_fidelity_max, c.reference_fidelity_min, 0x3F80_0000)) && (!f32_in_finite_range(c.reference_dropout, 0x0000_0000, 0x3F80_0000)) ==> render_violation(c) == Some(Violation::OutOfRange(Scalar::ReferenceDropout)),
        !(!f32_in_finite_range(c.interface_gain, 0x0000_0000, 0x3F80_0000)) && !(!f32_in_finite_range(c.morph_residual_gain, 0x0000_0000, 0x3E80_0000)) && !(!f32_in_finite_range(c.memory_limit, 0x3F00_0000, 0x4180_0000)) && !(!f32_in_finite_range(c.reference_fidelity_min, 0x0000_0000, 0x3F80_0000)) && !(!f32_in_finite_range(c.reference_fidelity_max, c.reference_fidelity_min, 0x3F80_0000)) && !(!f32_in_finite_range(c.reference_dropout, 0x0000_0000, 0x3F80_0000)) && (!f32_in_finite_range(c.coord_gain, 0x0000_0000, 0x4000_0000)) ==> render_violation(c) == Some(Violation::OutOfRange(Scalar::CoordGain)),
        !(!f32_in_finite_range(c.interface_gain, 0x0000_0000, 0x3F80_0000)) && !(!f32_in_finite_range(c.morph_residual_gain, 0x0000_0000, 0x3E80_0000)) && !(!f32_in_finite_range(c.memory_limit, 0x3F00_0000, 0x4180_0000)) && !(!f32_in_finite_range(c.reference_fidelity_min, 0x0000_0000, 0x3F80_0000)) && !(!f32_in_finite_range(c.reference_fidelity_max, c.reference_fidelity_min, 0x3F80_0000)) && !(!f32_in_finite_range(c.reference_dropout, 0x0000_0000, 0x3F80_0000)) && !(!f32_in_finite_range(c.coord_gain, 0x0000_0000, 0x4000_0000)) && (!f32_in_finite_range(c.state_skip, 0x0000_0000, 0x4080_0000)) ==> render_violation(c) == Some(Violation::OutOfRange(Scalar::StateSkip)),
        !(!f32_in_finite_range(c.interface_gain, 0x0000_0000, 0x3F80_0000)) && !(!f32_in_finite_range(c.morph_residual_gain, 0x0000_0000, 0x3E80_0000)) && !(!f32_in_finite_range(c.memory_limit, 0x3F00_0000, 0x4180_0000)) && !(!f32_in_finite_range(c.reference_fidelity_min, 0x0000_0000, 0x3F80_0000)) && !(!f32_in_finite_range(c.reference_fidelity_max, c.reference_fidelity_min, 0x3F80_0000)) && !(!f32_in_finite_range(c.reference_dropout, 0x0000_0000, 0x3F80_0000)) && !(!f32_in_finite_range(c.coord_gain, 0x0000_0000, 0x4000_0000)) && !(!f32_in_finite_range(c.state_skip, 0x0000_0000, 0x4080_0000)) && (!f32_in_finite_range(c.chroma, 0x0000_0000, 0x3ECC_CCCD)) ==> render_violation(c) == Some(Violation::OutOfRange(Scalar::Chroma)),
        !(!f32_in_finite_range(c.interface_gain, 0x0000_0000, 0x3F80_0000)) && !(!f32_in_finite_range(c.morph_residual_gain, 0x0000_0000, 0x3E80_0000)) && !(!f32_in_finite_range(c.memory_limit, 0x3F00_0000, 0x4180_0000)) && !(!f32_in_finite_range(c.reference_fidelity_min, 0x0000_0000, 0x3F80_0000)) && !(!f32_in_finite_range(c.reference_fidelity_max, c.reference_fidelity_min, 0x3F80_0000)) && !(!f32_in_finite_range(c.reference_dropout, 0x0000_0000, 0x3F80_0000)) && !(!f32_in_finite_range(c.coord_gain, 0x0000_0000, 0x4000_0000)) && !(!f32_in_finite_range(c.state_skip, 0x0000_0000, 0x4080_0000)) && !(!f32_in_finite_range(c.chroma, 0x0000_0000, 0x3ECC_CCCD)) && (!f32_in_finite_range(c.gamma, 0x3F80_0000, 0x4040_0000)) ==> render_violation(c) == Some(Violation::OutOfRange(Scalar::Gamma)),
        !(!f32_in_finite_range(c.interface_gain, 0x0000_0000, 0x3F80_0000)) && !(!f32_in_finite_range(c.morph_residual_gain, 0x0000_0000, 0x3E80_0000)) && !(!f32_in_finite_range(c.memory_limit, 0x3F00_0000, 0x4180_0000)) && !(!f32_in_finite_range(c.reference_fidelity_min, 0x0000_0000, 0x3F80_0000)) && !(!f32_in_finite_range(c.reference_fidelity_max, c.reference_fidelity_min, 0x3F80_0000)) && !(!f32_in_finite_range(c.reference_dropout, 0x0000_0000, 0x3F80_0000)) && !(!f32_in_finite_range(c.coord_gain, 0x0000_0000, 0x4000_0000)) && !(!f32_in_finite_range(c.state_skip, 0x0000_0000, 0x4080_0000)) && !(!f32_in_finite_range(c.chroma, 0x0000_0000, 0x3ECC_CCCD)) && !(!f32_in_finite_range(c.gamma, 0x3F80_0000, 0x4040_0000)) && (c.train_resolution < c.micro_size || c.train_resolution > 512) ==> render_violation(c) == Some(Violation::TrainResolution),
        !(!f32_in_finite_range(c.interface_gain, 0x0000_0000, 0x3F80_0000)) && !(!f32_in_finite_range(c.morph_residual_gain, 0x0000_0000, 0x3E80_0000)) && !(!f32_in_finite_range(c.memory_limit, 0x3F00_0000, 0x4180_0000)) && !(!f32_in_finite_range(c.reference_fidelity_min, 0x0000_0000, 0x3F80_0000)) && !(!f32_in_finite_range(c.reference_fidelity_max, c.reference_fidelity_min, 0x3F80_0000)) && !(!f32_in_finite_range(c.reference_dropout, 0x0000_0000, 0x3F80_0000)) && !(!f32_in_finite_range(c.coord_gain, 0x0000_0000, 0x4000_0000)) && !(!f32_in_finite_range(c.state_skip, 0x0000_0000, 0x4080_0000)) && !(!f32_in_finite_range(c.chroma, 0x0000_0000, 0x3ECC_CCCD)) && !(!f32_in_finite_range(c.gamma, 0x3F80_0000, 0x4040_0000)) && !(c.train_resolution < c.micro_size || c.train_resolution > 512) && (c.output_resolution < c.train_resolution || c.output_resolution > 4096) ==> render_violation(c) == Some(Violation::OutputResolution),
        !(!f32_in_finite_range(c.interface_gain, 0x0000_0000, 0x3F80_0000)) && !(!f32_in_finite_range(c.morph_residual_gain, 0x0000_0000, 0x3E80_0000)) && !(!f32_in_finite_range(c.memory_limit, 0x3F00_0000, 0x4180_0000)) && !(!f32_in_finite_range(c.reference_fidelity_min, 0x0000_0000, 0x3F80_0000)) && !(!f32_in_finite_range(c.reference_fidelity_max, c.reference_fidelity_min, 0x3F80_0000)) && !(!f32_in_finite_range(c.reference_dropout, 0x0000_0000, 0x3F80_0000)) && !(!f32_in_finite_range(c.coord_gain, 0x0000_0000, 0x4000_0000)) && !(!f32_in_finite_range(c.state_skip, 0x0000_0000, 0x4080_0000)) && !(!f32_in_finite_range(c.chroma, 0x0000_0000, 0x3ECC_CCCD)) && !(!f32_in_finite_range(c.gamma, 0x3F80_0000, 0x4040_0000)) && !(c.train_resolution < c.micro_size || c.train_resolution > 512) && !(c.output_resolution < c.train_resolution || c.output_resolution > 4096) && (c.snapshot_resolution < c.micro_size || c.snapshot_resolution > 4096) ==> render_violation(c) == Some(Violation::SnapshotResolution),
        !(!f32_in_finite_range(c.interface_gain, 0x0000_0000, 0x3F80_0000)) && !(!f32_in_finite_range(c.morph_residual_gain, 0x0000_0000, 0x3E80_0000)) && !(!f32_in_finite_range(c.memory_limit, 0x3F00_0000, 0x4180_0000)) && !(!f32_in_finite_range(c.reference_fidelity_min, 0x0000_0000, 0x3F80_0000)) && !(!f32_in_finite_range(c.reference_fidelity_max, c.reference_fidelity_min, 0x3F80_0000)) && !(!f32_in_finite_range(c.reference_dropout, 0x0000_0000, 0x3F80_0000)) && !(!f32_in_finite_range(c.coord_gain, 0x0000_0000, 0x4000_0000)) && !(!f32_in_finite_range(c.state_skip, 0x0000_0000, 0x4080_0000)) && !(!f32_in_finite_range(c.chroma, 0x0000_0000, 0x3ECC_CCCD)) && !(!f32_in_finite_range(c.gamma, 0x3F80_0000, 0x4040_0000)) && !(c.train_resolution < c.micro_size || c.train_resolution > 512) && !(c.output_resolution < c.train_resolution || c.output_resolution > 4096) && !(c.snapshot_resolution < c.micro_size || c.snapshot_resolution > 4096) && (c.core_update_every == 0 || c.macro_update_every == 0 || c.log_every == 0) ==> render_violation(c) == Some(Violation::UpdateCadences),
        !(!f32_in_finite_range(c.interface_gain, 0x0000_0000, 0x3F80_0000)) && !(!f32_in_finite_range(c.morph_residual_gain, 0x0000_0000, 0x3E80_0000)) && !(!f32_in_finite_range(c.memory_limit, 0x3F00_0000, 0x4180_0000)) && !(!f32_in_finite_range(c.reference_fidelity_min, 0x0000_0000, 0x3F80_0000)) && !(!f32_in_finite_range(c.reference_fidelity_max, c.reference_fidelity_min, 0x3F80_0000)) && !(!f32_in_finite_range(c.reference_dropout, 0x0000_0000, 0x3F80_0000)) && !(!f32_in_finite_range(c.coord_gain, 0x0000_0000, 0x4000_0000)) && !(!f32_in_finite_range(c.state_skip, 0x0000_0000, 0x4080_0000)) && !(!f32_in_finite_range(c.chroma, 0x0000_0000, 0x3ECC_CCCD)) && !(!f32_in_finite_range(c.gamma, 0x3F80_0000, 0x4040_0000)) && !(c.train_resolution < c.micro_size || c.train_resolution > 512) && !(c.output_resolution < c.train_resolution || c.output_resolution > 4096) && !(c.snapshot_resolution < c.micro_size || c.snapshot_resolution > 4096) && !(c.core_update_every == 0 || c.macro_update_every == 0 || c.log_every == 0) && (c.checkpoint_every > 0 && c.checkpoint_every % c.bptt != 0) ==> render_violation(c) == Some(Violation::CheckpointCadence),
        !(!f32_in_finite_range(c.interface_gain, 0x0000_0000, 0x3F80_0000)) && !(!f32_in_finite_range(c.morph_residual_gain, 0x0000_0000, 0x3E80_0000)) && !(!f32_in_finite_range(c.memory_limit, 0x3F00_0000, 0x4180_0000)) && !(!f32_in_finite_range(c.reference_fidelity_min, 0x0000_0000, 0x3F80_0000)) && !(!f32_in_finite_range(c.reference_fidelity_max, c.reference_fidelity_min, 0x3F80_0000)) && !(!f32_in_finite_range(c.reference_dropout, 0x0000_0000, 0x3F80_0000)) && !(!f32_in_finite_range(c.coord_gain, 0x0000_0000, 0x4000_0000)) && !(!f32_in_finite_range(c.state_skip, 0x0000_0000, 0x4080_0000)) && !(!f32_in_finite_range(c.chroma, 0x0000_0000, 0x3ECC_CCCD)) && !(!f32_in_finite_range(c.gamma, 0x3F80_0000, 0x4040_0000)) && !(c.train_resolution < c.micro_size || c.train_resolution > 512) && !(c.output_resolution < c.train_resolution || c.output_resolution > 4096) && !(c.snapshot_resolution < c.micro_size || c.snapshot_resolution > 4096) && !(c.core_update_every == 0 || c.macro_update_every == 0 || c.log_every == 0) && !(c.checkpoint_every > 0 && c.checkpoint_every % c.bptt != 0) && (!(1 <= c.image_cache && c.image_cache <= 256)) ==> render_violation(c) == Some(Violation::ImageCache),
{
}

/// The first guard, in checking order, whose condition fails decides the violation.
pub proof fn lemma_optimizer_violation_checked_in_order(c: RunConfig)
    ensures
        (!(f64_is_finite(c.learning_rate) && f64_lt(ZERO64, c.learning_rate))) ==> optimizer_violation(c) == Some(Violation::NotPositive(Scalar::LearningRate)),
        !(!(f64_is_finite(c.learning_rate) && f64_lt(ZERO64, c.learning_rate))) && (!(f64_is_finite(c.weight_decay) && f64_le(ZERO64, c.weight_decay))) ==> optimizer_violation(c) == Some(Violation::Negative(Scalar::WeightDecay)),
        !(!(f64_is_finite(c.learning_rate) && f64_lt(ZERO64, c.learning_rate))) && !(!(f64_is_finite(c.weight_decay) && f64_le(ZERO64, c.weight_decay))) && (!(f64_le(ZERO64, c.beta1) && f64_lt(c.beta1, ONE64)) || !(f64_le(ZERO64, c.beta2) && f64_lt(c.beta2, ONE64))) ==> optimizer_violation(c) == Some(Violation::AdamBetas),
        !(!(f64_is_finite(c.learning_rate) && f64_lt(ZERO64, c.learning_rate))) && !(!(f64_is_finite(c.weight_decay) && f64_le(ZERO64, c.weight_decay))) && !(!(f64_le(ZERO64, c.beta1) && f64_lt(c.beta1, ONE64)) || !(f64_le(ZERO64, c.beta2) && f64_lt(c.beta2, ONE64))) && (!(f64_is_finite(c.adam_epsilon) && f64_lt(ZERO64, c.adam_epsilon))) ==> optimizer_violation(c) == Some(Violation::NotPositive(Scalar::AdamEpsilon)),
        !(!(f64_is_finite(c.learning_rate) && f64_lt(ZERO64, c.learning_rate))) && !(!(f64_is_finite(c.weight_decay) && f64_le(ZERO64, c.weight_decay))) && !(!(f64_le(ZERO64, c.beta1) && f64_lt(c.beta1, ONE64)) || !(f64_le(ZERO64, c.beta2) && f64_lt(c.beta2, ONE64))) && !(!(f64_is_finite(c.adam_epsilon) && f64_lt(ZERO64, c.adam_epsilon))) && (!(f64_is_finite(c.grad_clip) && f64_le(ZERO64, c.grad_clip))) ==> optimizer_violation(c) == Some(Violation::Negative(Scalar::GradClip)),
        !(!(f64_is_finite(c.learning_rate) && f64_lt(ZERO64, c.learning_rate))) && !(!(f64_is_finite(c.weight_decay) && f64_le(ZERO64, c.weight_decay))) && !(!(f64_le(ZERO64, c.beta1) && f64_lt(c.beta1, ONE64)) || !(f64_le(ZERO64, c.beta2) && f64_lt(c.beta2, ONE64))) && !(!(f64_is_finite(c.adam_epsilon) && f64_lt(ZERO64, c.adam_epsilon))) && !(!(f64_is_finite(c.grad_clip) && f64_le(ZERO64, c.grad_clip))) && (!(f64_le(ZERO64, c.muon_momentum) && f64_lt(c.muon_momentum, ONE64)) || !(1 <= c.muon_ns_steps && c.muon_ns_steps <= 10)) ==> optimizer_violation(c) == Some(Violation::Muon),
        !(!(f64_is_finite(c.learning_rate) && f64_lt(ZERO64, c.learning_rate))) && !(!(f64_is_finite(c.weight_decay) && f64_le(ZERO64, c.weight_decay))) && !(!(f64_le(ZERO64, c.beta1) && f64_lt(c.beta1, ONE64)) || !(f64_le(ZERO64, c.beta2) && f64_lt(c.beta2, ONE64))) && !(!(f64_is_finite(c.adam_epsilon) && f64_lt(ZERO64, c.adam_epsilon))) && !(!(f64_is_finite(c.grad_clip) && f64_le(ZERO64, c.grad_clip))) && !(!(f64_le(ZERO64, c.muon_momentum) && f64_lt(c.muon_momentum, ONE64)) || !(1 <= c.muon_ns_steps && c.muon_ns_steps <= 10)) && (!f32_in_finite_range(c.dt, 0x3BA3_D70A, 0x3E80_0000)) ==> optimizer_violation(c) == Some(Violation::OutOfRange(Scalar::Dt)),
        !(!(f64_is_finite(c.learning_rate) && f64_lt(ZERO64, c.learning_rate))) && !(!(f64_is_finite(c.weight_decay) && f64_le(ZERO64, c.weight_decay))) && !(!(f64_le(ZERO64, c.beta1) && f64_lt(c.beta1, ONE64)) || !(f64_le(ZERO64, c.beta2) && f64_lt(c.beta2, ONE64))) && !(!(f64_is_finite(c.adam_epsilon) && f64_lt(ZERO64, c.adam_epsilon))) && !(!(f64_is_finite(c.grad_clip) && f64_le(ZERO64, c.grad_clip))) && !(!(f64_le(ZERO64, c.muon_momentum) && f64_lt(c.muon_momentum, ONE64)) || !(1 <= c.muon_ns_steps && c.muon_ns_steps <= 10)) && !(!f32_in_finite_range(c.dt, 0x3BA3_D70A, 0x3E80_0000)) && (!f32_in_finite_range(c.state_limit, 0x3F80_0000, 0x4140_0000)) ==> optimizer_violation(c) == Some(Violation::OutOfRange(Scalar::StateLimit)),
        !(!(f64_is_finite(c.learning_rate) && f64_lt(ZERO64, c.learning_rate))) && !(!(f64_is_finite(c.weight_decay) && f64_le(ZERO64, c.weight_decay))) && !(!(f64_le(ZERO64, c.beta1) && f64_lt(c.beta1, ONE64)) || !(f64_le(ZERO64, c.beta2) && f64_lt(c.beta2, ONE64))) && !(!(f64_is_finite(c.adam_epsilon) && f64_lt(ZERO64, c.adam_epsilon))) && !(!(f64_is_finite(c.grad_clip) && f64_le(ZERO64, c.grad_clip))) && !(!(f64_le(ZERO64, c.muon_momentum) && f64_lt(c.muon_momentum, ONE64)) || !(1 <= c.muon_ns_steps && c.muon_ns_steps <= 10)) && !(!f32_in_finite_range(c.dt, 0x3BA3_D70A, 0x3E80_0000)) && !(!f32_in_finite_range(c.state_limit, 0x3F80_0000, 0x4140_0000)) && (!f32_in_finite_range(c.state_soft_limit, 0x3E80_0000, c.state_limit)) ==> optimizer_violation(c) == Some(Violation::OutOfRange(Scalar::StateSoftLimit)),
        !(!(f64_is_finite(c.learning_rate) && f64_lt(ZERO64, c.learning_rate))) && !(!(f64_is_finite(c.weight_decay) && f64_le(ZERO64, c.weight_decay))) && !(!(f64_le(ZERO64, c.beta1) && f64_lt(c.beta1, ONE64)) || !(f64_le(ZERO64, c.beta2) && f64_lt(c.beta2, ONE64))) && !(!(f64_is_finite(c.adam_epsilon) && f64_lt(ZERO64, c.adam_epsilon))) && !(!(f64_is_finite(c.grad_clip) && f64_le(ZERO64, c.grad_clip))) && !(!(f64_le(ZERO64, c.muon_momentum) && f64_lt(c.muon_momentum, ONE64)) || !(1 <= c.muon_ns_steps && c.muon_ns_steps <= 10)) && !(!f32_in_finite_range(c.dt, 0x3BA3_D70A, 0x3E80_0000)) && !(!f32_in_finite_range(c.state_limit, 0x3F80_0000, 0x4140_0000)) && !(!f32_in_finite_range(c.state_soft_limit, 0x3E80_0000, c.state_limit)) && (!f32_in_finite_range(c.clock_probability, 0x3D4C_CCCD, 0x3F80_0000)) ==> optimizer_violation(c) == Some(Violation::OutOfRange(Scalar::ClockProbability)),
        !(!(f64_is_finite(c.learning_rate) && f64_lt(ZERO64, c.learning_rate))) && !(!(f64_is_finite(c.weight_decay) && f64_le(ZERO64, c.weight_decay))) && !(!(f64_le(ZERO64, c.beta1) && f64_lt(c.beta1, ONE64)) || !(f64_le(ZERO64, c.beta2) && f64_lt(c.beta2, ONE64))) && !(!(f64_is_finite(c.adam_epsilon) && f64_lt(ZERO64, c.adam_epsilon))) && !(!(f64_is_finite(c.grad_clip) && f64_le(ZERO64, c.grad_clip))) && !(!(f64_le(ZERO64, c.muon_momentum) && f64_lt(c.muon_momentum, ONE64)) || !(1 <= c.muon_ns_steps && c.muon_ns_steps <= 10)) && !(!f32_in_finite_range(c.dt, 0x3BA3_D70A, 0x3E80_0000)) && !(!f32_in_finite_range(c.state_limit, 0x3F80_0000, 0x4140_0000)) && !(!f32_in_finite_range(c.state_soft_limit, 0x3E80_0000, c.state_limit)) && !(!f32_in_finite_range(c.clock_probability, 0x3D4C_CCCD, 0x3F80_0000)) && (!f32_in_finite_range(c.episode_reset, 0x0000_0000, 0x3F80_0000)) ==> optimizer_violation(c) == Some(Violation::OutOfRange(Scalar::EpisodeReset)),
        !(!(f64_is_finite(c.learning_rate) && f64_lt(ZERO64, c.learning_rate))) && !(!(f64_is_finite(c.weight_decay) && f64_le(ZERO64, c.weight_decay))) && !(!(f64_le(ZERO64, c.beta1) && f64_lt(c.beta1, ONE64)) || !(f64_le(ZERO64, c.beta2) && f64_lt(c.beta2, ONE64))) && !(!(f64_is_finite(c.adam_epsilon) && f64_lt(ZERO64, c.adam_epsilon))) && !(!(f64_is_finite(c.grad_clip) && f64_le(ZERO64, c.grad_clip))) && !(!(f64_le(ZERO64, c.muon_momentum) && f64_lt(c.muon_momentum, ONE64)) || !(1 <= c.muon_ns_steps && c.muon_ns_steps <= 10)) && !(!f32_in_finite_range(c.dt, 0x3BA3_D70A, 0x3E80_0000)) && !(!f32_in_finite_range(c.state_limit, 0x3F80_0000, 0x4140_0000)) && !(!f32_in_finite_range(c.state_soft_limit, 0x3E80_0000, c.state_limit)) && !(!f32_in_finite_range(c.clock_probability, 0x3D4C_CCCD, 0x3F80_0000)) && !(!f32_in_finite_range(c.episode_reset, 0x0000_0000, 0x3F80_0000)) && (!f32_in_finite_range(c.memory_reset, 0x0000_0000, 0x3F80_0000)) ==> optimizer_violation(c) == Some(Violation::OutOfRange(Scalar::MemoryReset)),
        !(!(f64_is_finite(c.learning_rate) && f64_lt(ZERO64, c.learning_rate))) && !(!(f64_is_finite(c.weight_decay) && f64_le(ZERO64, c.weight_decay))) && !(!(f64_le(ZERO64, c.beta1) && f64_lt(c.beta1, ONE64)) || !(f64_le(ZERO64, c.beta2) && f64_lt(c.beta2, ONE64))) && !(!(f64_is_finite(c.adam_epsilon) && f64_lt(ZERO64, c.adam_epsilon))) && !(!(f64_is_finite(c.grad_clip) && f64_le(ZERO64, c.grad_clip))) && !(!(f64_le(ZERO64, c.muon_momentum) && f64_lt(c.muon_momentum, ONE64)) || !(1 <= c.muon_ns_steps && c.muon_ns_steps <= 10)) && !(!f32_in_finite_range(c.dt, 0x3BA3_D70A, 0x3E80_0000)) && !(!f32_in_finite_range(c.state_limit, 0x3F80_0000, 0x4140_0000)) && !(!f32_in_finite_range(c.state_soft_limit, 0x3E80_0000, c.state_limit)) && !(!f32_in_finite_range(c.clock_probability, 0x3D4C_CCCD, 0x3F80_0000)) && !(!f32_in_finite_range(c.episode_reset, 0x0000_0000, 0x3F80_0000)) && !(!f32_in_finite_range(c.memory_reset, 0x0000_0000, 0x3F80_0000)) && (!f32_in_finite_range(c.state_leak, 0x0000_0000, 0x3F00_0000)) ==> optimizer_violation(c) == Some(Violation::OutOfRange(Scalar::StateLeak)),
        !(!(f64_is_finite(c.learning_rate) && f64_lt(ZERO64, c.learning_rate))) && !(!(f64_is_finite(c.weight_decay) && f64_le(ZERO64, c.weight_decay))) && !(!(f64_le(ZERO64, c.beta1) && f64_lt(c.beta1, ONE64)) || !(f64_le(ZERO64, c.beta2) && f64_lt(c.beta2, ONE64))) && !(!(f64_is_finite(c.adam_epsilon) && f64_lt(ZERO64, c.adam_epsilon))) && !(!(f64_is_finite(c.grad_clip) && f64_le(ZERO64, c.grad_clip))) && !(!(f64_le(ZERO64, c.muon_momentum) && f64_lt(c.muon_momentum, ONE64)) || !(1 <= c.muon_ns_steps && c.muon_ns_steps <= 10)) && !(!f32_in_finite_range(c.dt, 0x3BA3_D70A, 0x3E80_0000)) && !(!f32_in_finite_range(c.state_limit, 0x3F80_0000, 0x4140_0000)) && !(!f32_in_finite_range(c.state_soft_limit, 0x3E80_0000, c.state_limit)) && !(!f32_in_finite_range(c.clock_probability, 0x3D4C_CCCD, 0x3F80_0000)) && !(!f32_in_finite_range(c.episode_reset, 0x0000_0000, 0x3F80_0000)) && !(!f32_in_finite_range(c.memory_reset, 0x0000_0000, 0x3F80_0000)) && !(!f32_in_finite_range(c.state_leak, 0x0000_0000, 0x3F00_0000)) && (!f32_in_finite_range(c.nca_gain, 0x0000_0000, 0x4080_0000)) ==> optimizer_violation(c) == Some(Violation::OutOfRange(Scalar::NcaGain)),
        !(!(f64_is_finite(c.learning_rate) && f64_lt(ZERO64, c.learning_rate))) && !(!(f64_is_finite(c.weight_decay) && f64_le(ZERO64, c.weight_decay))) && !(!(f64_le(ZERO64, c.beta1) && f64_lt(c.beta1, ONE64)) || !(f64_le(ZERO64, c.beta2) && f64_lt(c.beta2, ONE64))) && !(!(f64_is_finite(c.adam_epsilon) && f64_lt(ZERO64, c.adam_epsilon))) && !(!(f64_is_finite(c.grad_clip) && f64_le(ZERO64, c.grad_clip))) && !(!(f64_le(ZERO64, c.muon_momentum) && f64_lt(c.muon_momentum, ONE64)) || !(1 <= c.muon_ns_steps && c.muon_ns_steps <= 10)) && !(!f32_in_finite_range(c.dt, 0x3BA3_D70A, 0x3E80_0000)) && !(!f32_in_finite_range(c.state_limit, 0x3F80_0000, 0x4140_0000)) && !(!f32_in_finite_range(c.state_soft_limit, 0x3E80_0000, c.state_limit)) && !(!f32_in_finite_range(c.clock_probability, 0x3D4C_CCCD, 0x3F80_0000)) && !(!f32_in_finite_range(c.episode_reset, 0x0000_0000, 0x3F80_0000)) && !(!f32_in_finite_range(c.memory_reset, 0x0000_0000, 0x3F80_0000)) && !(!f32_in_finite_range(c.state_leak, 0x0000_0000, 0x3F00_0000)) && !(!f32_in_finite_range(c.nca_gain, 0x0000_0000, 0x4080_0000)) && (!f32_in_finite_range(c.reaction_gain, 0x0000_0000, 0x4080_0000)) ==> optimizer_violation(c) == Some(Violation::OutOfRange(Scalar::ReactionGain)),
        !(!(f64_is_finite(c.learning_rate) && f64_lt(ZERO64, c.learning_rate))) && !(!(f64_is_finite(c.weight_decay) && f64_le(ZERO64, c.weight_decay))) && !(!(f64_le(ZERO64, c.beta1) && f64_lt(c.beta1, ONE64)) || !(f64_le(ZERO64, c.beta2) && f64_lt(c.beta2, ONE64))) && !(!(f64_is_finite(c.adam_epsilon) && f64_lt(ZERO64, c.adam_epsilon))) && !(!(f64_is_finite(c.grad_clip) && f64_le(ZERO64, c.grad_clip))) && !(!(f64_le(ZERO64, c.muon_momentum) && f64_lt(c.muon_momentum, ONE64)) || !(1 <= c.muon_ns_steps && c.muon_ns_steps <= 10)) && !(!f32_in_finite_range(c.dt, 0x3BA3_D70A, 0x3E80_0000)) && !(!f32_in_finite_range(c.state_limit, 0x3F80_0000, 0x4140_0000)) && !(!f32_in_finite_range(c.state_soft_limit, 0x3E80_0000, c.state_limit)) && !(!f32_in_finite_range(c.clock_probability, 0x3D4C_CCCD, 0x3F80_0000)) && !(!f32_in_finite_range(c.episode_reset, 0x0000_0000, 0x3F80_0000)) && !(!f32_in_finite_range(c.memory_reset, 0x0000_0000, 0x3F80_0000)) && !(!f32_in_finite_range(c.state_leak, 0x0000_0000, 0x3F00_0000)) && !(!f32_in_finite_range(c.nca_gain, 0x0000_0000, 0x4080_0000)) && !(!f32_in_finite_range(c.reaction_gain, 0x0000_0000, 0x4080_0000)) && (!f32_in_finite_range(c.phase_gain, 0x0000_0000, 0x4080_0000)) ==> optimizer_violation(c) == Some(Violation::OutOfRange(Scalar::PhaseGain)),
        !(!(f64_is_finite(c.learning_rate) && f64_lt(ZERO64, c.learning_rate))) && !(!(f64_is_finite(c.weight_decay) && f64_le(ZERO64, c.weight_decay))) && !(!(f64_le(ZERO64, c.beta1) && f64_lt(c.beta1, ONE64)) || !(f64_le(ZERO64, c.beta2) && f64_lt(c.beta2, ONE64))) && !(!(f64_is_finite(c.adam_epsilon) && f64_lt(ZERO64, c.adam_epsilon))) && !(!(f64_is_finite(c.grad_clip) && f64_le(ZERO64, c.grad_clip))) && !(!(f64_le(ZERO64, c.muon_momentum) && f64_lt(c.muon_momentum, ONE64)) || !(1 <= c.muon_ns_steps && c.muon_ns_steps <= 10)) && !(!f32_in_finite_range(c.dt, 0x3BA3_D70A, 0x3E80_0000)) && !(!f32_in_finite_range(c.state_limit, 0x3F80_0000, 0x4140_0000)) && !(!f32_in_finite_range(c.state_soft_limit, 0x3E80_0000, c.state_limit)) && !(!f32_in_finite_range(c.clock_probability, 0x3D4C_CCCD, 0x3F80_0000)) && !(!f32_in_finite_range(c.episode_reset, 0x0000_0000, 0x3F80_0000)) && !(!f32_in_finite_range(c.memory_reset, 0x0000_0000, 0x3F80_0000)) && !(!f32_in_finite_range(c.state_leak, 0x0000_0000, 0x3F00_0000)) && !(!f32_in_finite_range(c.nca_gain, 0x0000_0000, 0x4080_0000)) && !(!f32_in_finite_range(c.reaction_gain, 0x0000_0000, 0x4080_0000)) && !(!f32_in_finite_range(c.phase_gain, 0x0000_0000, 0x4080_0000)) && (!f32_in_finite_range(c.fractal_gain, 0x0000_0000, 0x4080_0000)) ==> optimizer_violation(c) == Some(Violation::OutOfRange(Scalar::FractalGain)),
        !(!(f64_is_finite(c.learning_rate) && f64_lt(ZERO64, c.learning_rate))) && !(!(f64_is_finite(c.weight_decay) && f64_le(ZERO64, c.weight_decay))) && !(!(f64_le(ZERO64, c.beta1) && f64_lt(c.beta1, ONE64)) || !(f64_le(ZERO64, c.beta2) && f64_lt(c.beta2, ONE64))) && !(!(f64_is_finite(c.adam_epsilon) && f64_lt(ZERO64, c.adam_epsilon))) && !(!(f64_is_finite(c.grad_clip) && f64_le(ZERO64, c.grad_clip))) && !(!(f64_le(ZERO64, c.muon_momentum) && f64_lt(c.muon_momentum, ONE64)) || !(1 <= c.muon_ns_steps && c.muon_ns_steps <= 10)) && !(!f32_in_finite_range(c.dt, 0x3BA3_D70A, 0x3E80_0000)) && !(!f32_in_finite_range(c.state_limit, 0x3F80_0000, 0x4140_0000)) && !(!f32_in_finite_range(c.state_soft_limit, 0x3E80_0000, c.state_limit)) && !(!f32_in_finite_range(c.clock_probability, 0x3D4C_CCCD, 0x3F80_0000)) && !(!f32_in_finite_range(c.episode_reset, 0x0000_0000, 0x3F80_0000)) && !(!f32_in_finite_range(c.memory_reset, 0x0000_0000, 0x3F80_0000)) && !(!f32_in_finite_range(c.state_leak, 0x0000_0000, 0x3F00_0000)) && !(!f32_in_finite_range(c.nca_gain, 0x0000_0000, 0x4080_0000)) && !(!f32_in_finite_range(c.reaction_gain, 0x0000_0000, 0x4080_0000)) && !(!f32_in_finite_range(c.phase_gain, 0x0000_0000, 0x4080_0000)) && !(!f32_in_finite_range(c.fractal_gain, 0x0000_0000, 0x4080_0000)) && (!f32_in_finite_range(c.quasiperiodic_gain, 0x0000_0000, 0x4080_0000)) ==> optimizer_violation(c) == Some(Violation::OutOfRange(Scalar::QuasiperiodicGain)),
        !(!(f64_is_finite(c.learning_rate) && f64_lt(ZERO64, c.learning_rate))) && !(!(f64_is_finite(c.weight_decay) && f64_le(ZERO64, c.weight_decay))) && !(!(f64_le(ZERO64, c.beta1) && f64_lt(c.beta1, ONE64)) || !(f64_le(ZERO64, c.beta2) && f64_lt(c.beta2, ONE64))) && !(!(f64_is_finite(c.adam_epsilon) && f64_lt(ZERO64, c.adam_epsilon))) && !(!(f64_is_finite(c.grad_clip) && f64_le(ZERO64, c.grad_clip))) && !(!(f64_le(ZERO64, c.muon_momentum) && f64_lt(c.muon_momentum, ONE64)) || !(1 <= c.muon_ns_steps && c.muon_ns_steps <= 10)) && !(!f32_in_finite_range(c.dt, 0x3BA3_D70A, 0x3E80_0000)) && !(!f32_in_finite_range(c.state_limit, 0x3F80_0000, 0x4140_0000)) && !(!f32_in_finite_range(c.state_soft_limit, 0x3E80_0000, c.state_limit)) && !(!f32_in_finite_range(c.clock_probability, 0x3D4C_CCCD, 0x3F80_0000)) && !(!f32_in_finite_range(c.episode_reset, 0x0000_0000, 0x3F80_0000)) && !(!f32_in_finite_range(c.memory_reset, 0x0000_0000, 0x3F80_0000)) && !(!f32_in_finite_range(c.state_leak, 0x0000_0000, 0x3F00_0000)) && !(!f32_in_finite_range(c.nca_gain, 0x0000_0000, 0x4080_0000)) && !(!f32_in_finite_range(c.reaction_gain, 0x0000_0000, 0x4080_0000)) && !(!f32_in_finite_range(c.phase_gain, 0x0000_0000, 0x4080_0000)) && !(!f32_in_finite_range(c.fractal_gain, 0x0000_0000, 0x4080_0000)) && !(!f32_in_finite_range(c.quasiperiodic_gain, 0x0000_0000, 0x4080_0000)) && (!f32_in_finite_range(c.cyclic_gain, 0x0000_0000, 0x4080_0000)) ==> optimizer_violation(c) == Some(Violation::OutOfRange(Scalar::CyclicGain)),
        !(!(f64_is_finite(c.learning_rate) && f64_lt(ZERO64, c.learning_rate))) && !(!(f64_is_finite(c.weight_decay) && f64_le(ZERO64, c.weight_decay))) && !(!(f64_le(ZERO64, c.beta1) && f64_lt(c.beta1, ONE64)) || !(f64_le(ZERO64, c.beta2) && f64_lt(c.beta2, ONE64))) && !(!(f64_is_finite(c.adam_epsilon) && f64_lt(ZERO64, c.adam_epsilon))) && !(!(f64_is_finite(c.grad_clip) && f64_le(ZERO64, c.grad_clip))) && !(!(f64_le(ZERO64, c.muon_momentum) && f64_lt(c.muon_momentum, ONE64)) || !(1 <= c.muon_ns_steps && c.muon_ns_steps <= 10)) && !(!f32_in_finite_range(c.dt, 0x3BA3_D70A, 0x3E80_0000)) && !(!f32_in_finite_range(c.state_limit, 0x3F80_0000, 0x4140_0000)) && !(!f32_in_finite_range(c.state_soft_limit, 0x3E80_0000, c.state_limit)) && !(!f32_in_finite_range(c.clock_probability, 0x3D4C_CCCD, 0x3F80_0000)) && !(!f32_in_finite_range(c.episode_reset, 0x0000_0000, 0x3F80_0000)) && !(!f32_in_finite_range(c.memory_reset, 0x0000_0000, 0x3F80_0000)) && !(!f32_in_finite_range(c.state_leak, 0x0000_0000, 0x3F00_0000)) && !(!f32_in_finite_range(c.nca_gain, 0x0000_0000, 0x4080_0000)) && !(!f32_in_finite_range(c.reaction_gain, 0x0000_0000, 0x4080_0000)) && !(!f32_in_finite_range(c.phase_gain, 0x0000_0000, 0x4080_0000)) && !(!f32_in_finite_range(c.fractal_gain, 0x0000_0000, 0x4080_0000)) && !(!f32_in_finite_range(c.quasiperiodic_gain, 0x0000_0000, 0x4080_0000)) && !(!f32_in_finite_range(c.cyclic_gain, 0x0000_0000, 0x4080_0000)) && (!f32_in_finite_range(c.rd_diffusion_u, 0x0000_0000, 0x4000_0000)) ==> optimizer_violation(c) == Some(Violation::OutOfRange(Scalar::RdDiffusionU)),
        !(!(f64_is_finite(c.learning_rate) && f64_lt(ZERO64, c.learning_rate))) && !(!(f64_is_finite(c.weight_decay) && f64_le(ZERO64, c.weight_decay))) && !(!(f64_le(ZERO64, c.beta1) && f64_lt(c.beta1, ONE64)) || !(f64_le(ZERO64, c.beta2) && f64_lt(c.beta2, ONE64))) && !(!(f64_is_finite(c.adam_epsilon) && f64_lt(ZERO64, c.adam_epsilon))) && !(!(f64_is_finite(c.grad_clip) && f64_le(ZERO64, c.grad_clip))) && !(!(f64_le(ZERO64, c.muon_momentum) && f64_lt(c.muon_momentum, ONE64)) || !(1 <= c.muon_ns_steps && c.muon_ns_steps <= 10)) && !(!f32_in_finite_range(c.dt, 0x3BA3_D70A, 0x3E80_0000)) && !(!f32_in_finite_range(c.state_limit, 0x3F80_0000, 0x4140_0000)) && !(!f32_in_finite_range(c.state_soft_limit, 0x3E80_0000, c.state_limit)) && !(!f32_in_finite_range(c.clock_probability, 0x3D4C_CCCD, 0x3F80_0000)) && !(!f32_in_finite_range(c.episode_reset, 0x0000_0000, 0x3F80_0000)) && !(!f32_in_finite_range(c.memory_reset, 0x0000_0000, 0x3F80_0000)) && !(!f32_in_finite_range(c.state_leak, 0x0000_0000, 0x3F00_0000)) && !(!f32_in_finite_range(c.nca_gain, 0x0000_0000, 0x4080_0000)) && !(!f32_in_finite_range(c.reaction_gain, 0x0000_0000, 0x4080_0000)) && !(!f32_in_finite_range(c.phase_gain, 0x0000_0000, 0x4080_0000)) && !(!f32_in_finite_range(c.fractal_gain, 0x0000_0000, 0x4080_0000)) && !(!f32_in_finite_range(c.quasiperiodic_gain, 0x0000_0000, 0x4080_0000)) && !(!f32_in_finite_range(c.cyclic_gain, 0x0000_0000, 0x4080_0000)) && !(!f32_in_finite_range(c.rd_diffusion_u, 0x0000_0000, 0x4000_0000)) && (!f32_in_finite_range(c.rd_diffusion_v, 0x0000_0000, 0x4000_0000)) ==> optimizer_violation(c) == Some(Violation::OutOfRange(Scalar::RdDiffusionV)),
        !(!(f64_is_finite(c.learning_rate) && f64_lt(ZERO64, c.learning_rate))) && !(!(f64_is_finite(c.weight_decay) && f64_le(ZERO64, c.weight_decay))) && !(!(f64_le(ZERO64, c.beta1) && f64_lt(c.beta1, ONE64)) || !(f64_le(ZERO64, c.beta2) && f64_lt(c.beta2, ONE64))) && !(!(f64_is_finite(c.adam_epsilon) && f64_lt(ZERO64, c.adam_epsilon))) && !(!(f64_is_finite(c.grad_clip) && f64_le(ZERO64, c.grad_clip))) && !(!(f64_le(ZERO64, c.muon_momentum) && f64_lt(c.muon_momentum, ONE64)) || !(1 <= c.muon_ns_steps && c.muon_ns_steps <= 10)) && !(!f32_in_finite_range(c.dt, 0x3BA3_D70A, 0x3E80_0000)) && !(!f32_in_finite_range(c.state_limit, 0x3F80_0000, 0x4140_0000)) && !(!f32_in_finite_range(c.state_soft_limit, 0x3E80_0000, c.state_limit)) && !(!f32_in_finite_range(c.clock_probability, 0x3D4C_CCCD, 0x3F80_0000)) && !(!f32_in_finite_range(c.episode_reset, 0x0000_0000, 0x3F80_0000)) && !(!f32_in_finite_range(c.memory_reset, 0x0000_0000, 0x3F80_0000)) && !(!f32_in_finite_range(c.state_leak, 0x0000_0000, 0x3F00_0000)) && !(!f32_in_finite_range(c.nca_gain, 0x0000_0000, 0x4080_0000)) && !(!f32_in_finite_range(c.reaction_gain, 0x0000_0000, 0x4080_0000)) && !(!f32_in_finite_range(c.phase_gain, 0x0000_0000, 0x4080_0000)) && !(!f32_in_finite_range(c.fractal_gain, 0x0000_0000, 0x4080_0000)) && !(!f32_in_finite_range(c.quasiperiodic_gain, 0x0000_0000, 0x4080_0000)) && !(!f32_in_finite_range(c.cyclic_gain, 0x0000_0000, 0x4080_0000)) && !(!f32_in_finite_range(c.rd_diffusion_u, 0x0000_0000, 0x4000_0000)) && !(!f32_in_finite_range(c.rd_diffusion_v, 0x0000_0000, 0x4000_0000)) && (!f32_in_finite_range(c.rd_feed, 0x0000_0000, 0x4000_0000)) ==> optimizer_violation(c) == Some(Violation::OutOfRange(Scalar::RdFeed)),
        !(!(f64_is_finite(c.learning_rate) && f64_lt(ZERO64, c.learning_rate))) && !(!(f64_is_finite(c.weight_decay) && f64_le(ZERO64, c.weight_decay))) && !(!(f64_le(ZERO64, c.beta1) && f64_lt(c.beta1, ONE64)) || !(f64_le(ZERO64, c.beta2) && f64_lt(c.beta2, ONE64))) && !(!(f64_is_finite(c.adam_epsilon) && f64_lt(ZERO64, c.adam_epsilon))) && !(!(f64_is_finite(c.grad_clip) && f64_le(ZERO64, c.grad_clip))) && !(!(f64_le(ZERO64, c.muon_momentum) && f64_lt(c.muon_momentum, ONE64)) || !(1 <= c.muon_ns_steps && c.muon_ns_steps <= 10)) && !(!f32_in_finite_range(c.dt, 0x3BA3_D70A, 0x3E80_0000)) && !(!f32_in_finite_range(c.state_limit, 0x3F80_0000, 0x4140_0000)) && !(!f32_in_finite_range(c.state_soft_limit, 0x3E80_0000, c.state_limit)) && !(!f32_in_finite_range(c.clock_probability, 0x3D4C_CCCD, 0x3F80_0000)) && !(!f32_in_finite_range(c.episode_reset, 0x0000_0000, 0x3F80_0000)) && !(!f32_in_finite_range(c.memory_reset, 0x0000_0000, 0x3F80_0000)) && !(!f32_in_finite_range(c.state_leak, 0x0000_0000, 0x3F00_0000)) && !(!f32_in_finite_range(c.nca_gain, 0x0000_0000, 0x4080_0000)) && !(!f32_in_finite_range(c.reaction_gain, 0x0000_0000, 0x4080_0000)) && !(!f32_in_finite_range(c.phase_gain, 0x0000_0000, 0x4080_0000)) && !(!f32_in_finite_range(c.fractal_gain, 0x0000_0000, 0x4080_0000)) && !(!f32_in_finite_range(c.quasiperiodic_gain, 0x0000_0000, 0x4080_0000)) && !(!f32_in_finite_range(c.cyclic_gain, 0x0000_0000, 0x4080_0000)) && !(!f32_in_finite_range(c.rd_diffusion_u, 0x0000_0000, 0x4000_0000)) && !(!f32_in_finite_range(c.rd_diffusion_v, 0x0000_0000, 0x4000_0000)) && !(!f32_in_finite_range(c.rd_feed, 0x0000_0000, 0x4000_0000)) && (!f32_in_finite_range(c.rd_kill, 0x0000_0000, 0x4000_0000)) ==> optimizer_violation(c) == Some(Violation::OutOfRange(Scalar::RdKill)),
        !(!(f64_is_finite(c.learning_rate) && f64_lt(ZERO64, c.learning_rate))) && !(!(f64_is_finite(c.weight_decay) && f64_le(ZERO64, c.weight_decay))) && !(!(f64_le(ZERO64, c.beta1) && f64_lt(c.beta1, ONE64)) || !(f64_le(ZERO64, c.beta2) && f64_lt(c.beta2, ONE64))) && !(!(f64_is_finite(c.adam_epsilon) && f64_lt(ZERO64, c.adam_epsilon))) && !(!(f64_is_finite(c.grad_clip) && f64_le(ZERO64, c.grad_clip))) && !(!(f64_le(ZERO64, c.muon_momentum) && f64_lt(c.muon_momentum, ONE64)) || !(1 <= c.muon_ns_steps && c.muon_ns_steps <= 10)) && !(!f32_in_finite_range(c.dt, 0x3BA3_D70A, 0x3E80_0000)) && !(!f32_in_finite_range(c.state_limit, 0x3F80_0000, 0x4140_0000)) && !(!f32_in_finite_range(c.state_soft_limit, 0x3E80_0000, c.state_limit)) && !(!f32_in_finite_range(c.clock_probability, 0x3D4C_CCCD, 0x3F80_0000)) && !(!f32_in_finite_range(c.episode_reset, 0x0000_0000, 0x3F80_0000)) && !(!f32_in_finite_range(c.memory_reset, 0x0000_0000, 0x3F80_0000)) && !(!f32_in_finite_range(c.state_leak, 0x0000_0000, 0x3F00_0000)) && !(!f32_in_finite_range(c.nca_gain, 0x0000_0000, 0x4080_0000)) && !(!f32_in_finite_range(c.reaction_gain, 0x0000_0000, 0x4080_0000)) && !(!f32_in_finite_range(c.phase_gain, 0x0000_0000, 0x4080_0000)) && !(!f32_in_finite_range(c.fractal_gain, 0x0000_0000, 0x4080_0000)) && !(!f32_in_finite_range(c.quasiperiodic_gain, 0x0000_0000, 0x4080_0000)) && !(!f32_in_finite_range(c.cyclic_gain, 0x0000_0000, 0x4080_0000)) && !(!f32_in_finite_range(c.rd_diffusion_u, 0x0000_0000, 0x4000_0000)) && !(!f32_in_finite_range(c.rd_diffusion_v, 0x0000_0000, 0x4000_0000)) && !(!f32_in_finite_range(c.rd_feed, 0x0000_0000, 0x4000_0000)) && !(!f32_in_finite_range(c.rd_kill, 0x0000_0000, 0x4000_0000)) && (!f32_in_finite_range(c.phase_growth, 0x0000_0000, 0x4000_0000)) ==> optimizer_violation(c) == Some(Violation::OutOfRange(Scalar::PhaseGrowth)),
        !(!(f64_is_finite(c.learning_rate) && f64_lt(ZERO64, c.learning_rate))) && !(!(f64_is_finite(c.weight_decay) && f64_le(ZERO64, c.weight_decay))) && !(!(f64_le(ZERO64, c.beta1) && f64_lt(c.beta1, ONE64)) || !(f64_le(ZERO64, c.beta2) && f64_lt(c.beta2, ONE64))) && !(!(f64_is_finite(c.adam_epsilon) && f64_lt(ZERO64, c.adam_epsilon))) && !(!(f64_is_finite(c.grad_clip) && f64_le(ZERO64, c.grad_clip))) && !(!(f64_le(ZERO64, c.muon_momentum) && f64_lt(c.muon_momentum, ONE64)) || !(1 <= c.muon_ns_steps && c.muon_ns_steps <= 10)) && !(!f32_in_finite_range(c.dt, 0x3BA3_D70A, 0x3E80_0000)) && !(!f32_in_finite_range(c.state_limit, 0x3F80_0000, 0x4140_0000)) && !(!f32_in_finite_range(c.state_soft_limit, 0x3E80_0000, c.state_limit)) && !(!f32_in_finite_range(c.clock_probability, 0x3D4C_CCCD, 0x3F80_0000)) && !(!f32_in_finite_range(c.episode_reset, 0x0000_0000, 0x3F80_0000)) && !(!f32_in_finite_range(c.memory_reset, 0x0000_0000, 0x3F80_0000)) && !(!f32_in_finite_range(c.state_leak, 0x0000_0000, 0x3F00_0000)) && !(!f32_in_finite_range(c.nca_gain, 0x0000_0000, 0x4080_0000)) && !(!f32_in_finite_range(c.reaction_gain, 0x0000_0000, 0x4080_0000)) && !(!f32_in_finite_range(c.phase_gain, 0x0000_0000, 0x4080_0000)) && !(!f32_in_finite_range(c.fractal_gain, 0x0000_0000, 0x4080_0000)) && !(!f32_in_finite_range(c.quasiperiodic_gain, 0x0000_0000, 0x4080_0000)) && !(!f32_in_finite_range(c.cyclic_gain, 0x0000_0000, 0x4080_0000)) && !(!f32_in_finite_range(c.rd_diffusion_u, 0x0000_0000, 0x4000_0000)) && !(!f32_in_finite_range(c.rd_diffusion_v, 0x0000_0000, 0x4000_0000)) && !(!f32_in_finite_range(c.rd_feed, 0x0000_0000, 0x4000_0000)) && !(!f32_in_finite_range(c.rd_kill, 0x0000_0000, 0x4000_0000)) && !(!f32_in_finite_range(c.phase_growth, 0x0000_0000, 0x4000_0000)) && (!f32_in_finite_range(c.phase_saturation, 0x0000_0000, 0x4000_0000)) ==> optimizer_violation(c) == Some(Violation::OutOfRange(Scalar::PhaseSaturation)),
        !(!(f64_is_finite(c.learning_rate) && f64_lt(ZERO64, c.learning_rate))) && !(!(f64_is_finite(c.weight_decay) && f64_le(ZERO64, c.weight_decay))) && !(!(f64_le(ZERO64, c.beta1) && f64_lt(c.beta1, ONE64)) || !(f64_le(ZERO64, c.beta2) && f64_lt(c.beta2, ONE64))) && !(!(f64_is_finite(c.adam_epsilon) && f64_lt(ZERO64, c.adam_epsilon))) && !(!(f64_is_finite(c.grad_clip) && f64_le(ZERO64, c.grad_clip))) && !(!(f64_le(ZERO64, c.muon_momentum) && f64_lt(c.muon_momentum, ONE64)) || !(1 <= c.muon_ns_steps && c.muon_ns_steps <= 10)) && !(!f32_in_finite_range(c.dt, 0x3BA3_D70A, 0x3E80_0000)) && !(!f32_in_finite_range(c.state_limit, 0x3F80_0000, 0x4140_0000)) && !(!f32_in_finite_range(c.state_soft_limit, 0x3E80_0000, c.state_limit)) && !(!f32_in_finite_range(c.clock_probability, 0x3D4C_CCCD, 0x3F80_0000)) && !(!f32_in_finite_range(c.episode_reset, 0x0000_0000, 0x3F80_0000)) && !(!f32_in_finite_range(c.memory_reset, 0x0000_0000, 0x3F80_0000)) && !(!f32_in_finite_range(c.state_leak, 0x0000_0000, 0x3F00_0000)) && !(!f32_in_finite_range(c.nca_gain, 0x0000_0000, 0x4080_0000)) && !(!f32_in_finite_range(c.reaction_gain, 0x0000_0000, 0x4080_0000)) && !(!f32_in_finite_range(c.phase_gain, 0x0000_0000, 0x4080_0000)) && !(!f32_in_finite_range(c.fractal_gain, 0x0000_0000, 0x4080_0000)) && !(!f32_in_finite_range(c.quasiperiodic_gain, 0x0000_0000, 0x4080_0000)) && !(!f32_in_finite_range(c.cyclic_gain, 0x0000_0000, 0x4080_0000)) && !(!f32_in_finite_range(c.rd_diffusion_u, 0x0000_0000, 0x4000_0000)) && !(!f32_in_finite_range(c.rd_diffusion_v, 0x0000_0000, 0x4000_0000)) && !(!f32_in_finite_range(c.rd_feed, 0x0000_0000, 0x4000_0000)) && !(!f32_in_finite_range(c.rd_kill, 0x0000_0000, 0x4000_0000)) && !(!f32_in_finite_range(c.phase_growth, 0x0000_0000, 0x4000_0000)) && !(!f32_in_finite_range(c.phase_saturation, 0x0000_0000, 0x4000_0000)) && (!f32_in_finite_range(c.phase_frequency, 0x0000_0000, 0x4000_0000)) ==> optimizer_violation(c) == Some(Violation::OutOfRange(Scalar::PhaseFrequency)),
        !(!(f64_is_finite(c.learning_rate) && f64_lt(ZERO64, c.learning_rate))) && !(!(f64_is_finite(c.weight_decay) && f64_le(ZERO64, c.weight_decay))) && !(!(f64_le(ZERO64, c.beta1) && f64_lt(c.beta1, ONE64)) || !(f64_le(ZERO64, c.beta2) && f64_lt(c.beta2, ONE64))) && !(!(f64_is_finite(c.adam_epsilon) && f64_lt(ZERO64, c.adam_epsilon))) && !(!(f64_is_finite(c.grad_clip) && f64_le(ZERO64, c.grad_clip))) && !(!(f64_le(ZERO64, c.muon_momentum) && f64_lt(c.muon_momentum, ONE64)) || !(1 <= c.muon_ns_steps && c.muon_ns_steps <= 10)) && !(!f32_in_finite_range(c.dt, 0x3BA3_D70A, 0x3E80_0000)) && !(!f32_in_finite_range(c.state_limit, 0x3F80_0000, 0x4140_0000)) && !(!f32_in_finite_range(c.state_soft_limit, 0x3E80_0000, c.state_limit)) && !(!f32_in_finite_range(c.clock_probability, 0x3D4C_CCCD, 0x3F80_0000)) && !(!f32_in_finite_range(c.episode_reset, 0x0000_0000, 0x3F80_0000)) && !(!f32_in_finite_range(c.memory_reset, 0x0000_0000, 0x3F80_0000)) && !(!f32_in_finite_range(c.state_leak, 0x0000_0000, 0x3F00_0000)) && !(!f32_in_finite_range(c.nca_gain, 0x0000_0000, 0x4080_0000)) && !(!f32_in_finite_range(c.reaction_gain, 0x0000_0000, 0x4080_0000)) && !(!f32_in_finite_range(c.phase_gain, 0x0000_0000, 0x4080_0000)) && !(!f32_in_finite_range(c.fractal_gain, 0x0000_0000, 0x4080_0000)) && !(!f32_in_finite_range(c.quasiperiodic_gain, 0x0000_0000, 0x4080_0000)) && !(!f32_in_finite_range(c.cyclic_gain, 0x0000_0000, 0x4080_0000)) && !(!f32_in_finite_range(c.rd_diffusion_u, 0x0000_0000, 0x4000_0000)) && !(!f32_in_finite_range(c.rd_diffusion_v, 0x0000_0000, 0x4000_0000)) && !(!f32_in_finite_range(c.rd_feed, 0x0000_0000, 0x4000_0000)) && !(!f32_in_finite_range(c.rd_kill, 0x0000_0000, 0x4000_0000)) && !(!f32_in_finite_range(c.phase_growth, 0x0000_0000, 0x4000_0000)) && !(!f32_in_finite_range(c.phase_saturation, 0x0000_0000, 0x4000_0000)) && !(!f32_in_finite_range(c.phase_frequency, 0x0000_0000, 0x4000_0000)) && (!f32_in_finite_range(c.phase_diffusion, 0x0000_0000, 0x4000_0000)) ==> optimizer_violation(c) == Some(Violation::OutOfRange(Scalar::PhaseDiffusion)),
        !(!(f64_is_finite(c.learning_rate) && f64_lt(ZERO64, c.learning_rate))) && !(!(f64_is_finite(c.weight_decay) && f64_le(ZERO64, c.weight_decay))) && !(!(f64_le(ZERO64, c.beta1) && f64_lt(c.beta1, ONE64)) || !(f64_le(ZERO64, c.beta2) && f64_lt(c.beta2, ONE64))) && !(!(f64_is_finite(c.adam_epsilon) && f64_lt(ZERO64, c.adam_epsilon))) && !(!(f64_is_finite(c.grad_clip) && f64_le(ZERO64, c.grad_clip))) && !(!(f64_le(ZERO64, c.muon_momentum) && f64_lt(c.muon_momentum, ONE64)) || !(1 <= c.muon_ns_steps && c.muon_ns_steps <= 10)) && !(!f32_in_finite_range(c.dt, 0x3BA3_D70A, 0x3E80_0000)) && !(!f32_in_finite_range(c.state_limit, 0x3F80_0000, 0x4140_0000)) && !(!f32_in_finite_range(c.state_soft_limit, 0x3E80_0000, c.state_limit)) && !(!f32_in_finite_range(c.clock_probability, 0x3D4C_CCCD, 0x3F80_0000)) && !(!f32_in_finite_range(c.episode_reset, 0x0000_0000, 0x3F80_0000)) && !(!f32_in_finite_range(c.memory_reset, 0x0000_0000, 0x3F80_0000)) && !(!f32_in_finite_range(c.state_leak, 0x0000_0000, 0x3F00_0000)) && !(!f32_in_finite_range(c.nca_gain, 0x0000_0000, 0x4080_0000)) && !(!f32_in_finite_range(c.reaction_gain, 0x0000_0000, 0x4080_0000)) && !(!f32_in_finite_range(c.phase_gain, 0x0000_0000, 0x4080_0000)) && !(!f32_in_finite_range(c.fractal_gain, 0x0000_0000, 0x4080_0000)) && !(!f32_in_finite_range(c.quasiperiodic_gain, 0x0000_0000, 0x4080_0000)) && !(!f32_in_finite_range(c.cyclic_gain, 0x0000_0000, 0x4080_0000)) && !(!f32_in_finite_range(c.rd_diffusion_u, 0x0000_0000, 0x4000_0000)) && !(!f32_in_finite_range(c.rd_diffusion_v, 0x0000_0000, 0x4000_0000)) && !(!f32_in_finite_range(c.rd_feed, 0x0000_0000, 0x4000_0000)) && !(!f32_in_finite_range(c.rd_kill, 0x0000_0000, 0x4000_0000)) && !(!f32_in_finite_range(c.phase_growth, 0x0000_0000, 0x4000_0000)) && !(!f32_in_finite_range(c.phase_saturation, 0x0000_0000, 0x4000_0000)) && !(!f32_in_finite_range(c.phase_frequency, 0x0000_0000, 0x4000_0000)) && !(!f32_in_finite_range(c.phase_diffusion, 0x0000_0000, 0x4000_0000)) && (!f32_in_finite_range(c.phase_dispersion, 0x0000_0000, 0x4000_0000)) ==> optimizer_violation(c) == Some(Violation::OutOfRange(Scalar::PhaseDispersion)),
{
}

/// The first guard, in checking order, whose condition fails decides the violation.
pub proof fn lemma_loss_violation_checked_in_order(c: RunConfig)
    ensures
        (!f32_in_finite_range(c.loss_content, 0x0000_0000, 0x42C8_0000)) ==> loss_violation(c) == Some(Violation::OutOfRange(Scalar::LossContent)),
        !(!f32_in_finite_range(c.loss_content, 0x0000_0000, 0x42C8_0000)) && (!f32_in_finite_range(c.loss_palette, 0x0000_0000, 0x42C8_0000)) ==> loss_violation(c) == Some(Violation::OutOfRange(Scalar::LossPalette)),
        !(!f32_in_finite_range(c.loss_content, 0x0000_0000, 0x42C8_0000)) && !(!f32_in_finite_range(c.loss_palette, 0x0000_0000, 0x42C8_0000)) && (!f32_in_finite_range(c.loss_structure, 0x0000_0000, 0x42C8_0000)) ==> loss_violation(c) == Some(Violation::OutOfRange(Scalar::LossStructure)),
        !(!f32_in_finite_range(c.loss_content, 0x0000_0000, 0x42C8_0000)) && !(!f32_in_finite_range(c.loss_palette, 0x0000_0000, 0x42C8_0000)) && !(!f32_in_finite_range(c.loss_structure, 0x0000_0000, 0x42C8_0000)) && (!f32_in_finite_range(c.loss_seam, 0x0000_0000, 0x42C8_0000)) ==> loss_violation(c) == Some(Violation::OutOfRange(Scalar::LossSeam)),
        !(!f32_in_finite_range(c.loss_content, 0x0000_0000, 0x42C8_0000)) && !(!f32_in_finite_range(c.loss_palette, 0x0000_0000, 0x42C8_0000)) && !(!f32_in_finite_range(c.loss_structure, 0x0000_0000, 0x42C8_0000)) && !(!f32_in_finite_range(c.loss_seam, 0x0000_0000, 0x42C8_0000)) && (!f32_in_finite_range(c.loss_gamut, 0x0000_0000, 0x42C8_0000)) ==> loss_violation(c) == Some(Violation::OutOfRange(Scalar::LossGamut)),
        !(!f32_in_finite_range(c.loss_content, 0x0000_0000, 0x42C8_0000)) && !(!f32_in_finite_range(c.loss_palette, 0x0000_0000, 0x42C8_0000)) && !(!f32_in_finite_range(c.loss_structure, 0x0000_0000, 0x42C8_0000)) && !(!f32_in_finite_range(c.loss_seam, 0x0000_0000, 0x42C8_0000)) && !(!f32_in_finite_range(c.loss_gamut, 0x0000_0000, 0x42C8_0000)) && (!(f32_lt(ZERO, c.loss_content) || f32_lt(ZERO, c.loss_palette) || f32_lt(ZERO, c.loss_structure) || f32_lt(ZERO, c.loss_seam) || f32_lt(ZERO, c.loss_gamut))) ==> loss_violation(c) == Some(Violation::NoVisualLoss),
        !(!f32_in_finite_range(c.loss_content, 0x0000_0000, 0x42C8_0000)) && !(!f32_in_finite_range(c.loss_palette, 0x0000_0000, 0x42C8_0000)) && !(!f32_in_finite_range(c.loss_structure, 0x0000_0000, 0x42C8_0000)) && !(!f32_in_finite_range(c.loss_seam, 0x0000_0000, 0x42C8_0000)) && !(!f32_in_finite_range(c.loss_gamut, 0x0000_0000, 0x42C8_0000)) && !(!(f32_lt(ZERO, c.loss_content) || f32_lt(ZERO, c.loss_palette) || f32_lt(ZERO, c.loss_structure) || f32_lt(ZERO, c.loss_seam) || f32_lt(ZERO, c.loss_gamut))) && (!f32_in_finite_range(c.loss_state, 0x0000_0000, 0x42C8_0000)) ==> loss_violation(c) == Some(Violation::OutOfRange(Scalar::LossState)),
        !(!f32_in_finite_range(c.loss_content, 0x0000_0000, 0x42C8_0000)) && !(!f32_in_finite_range(c.loss_palette, 0x0000_0000, 0x42C8_0000)) && !(!f32_in_finite_range(c.loss_structure, 0x0000_0000, 0x42C8_0000)) && !(!f32_in_finite_range(c.loss_seam, 0x0000_0000, 0x42C8_0000)) && !(!f32_in_finite_range(c.loss_gamut, 0x0000_0000, 0x42C8_0000)) && !(!(f32_lt(ZERO, c.loss_content) || f32_lt(ZERO, c.loss_palette) || f32_lt(ZERO, c.loss_structure) || f32_lt(ZERO, c.loss_seam) || f32_lt(ZERO, c.loss_gamut))) && !(!f32_in_finite_range(c.loss_state, 0x0000_0000, 0x42C8_0000)) && (!f32_in_finite_range(c.loss_memory, 0x0000_0000, 0x42C8_0000)) ==> loss_violation(c) == Some(Violation::OutOfRange(Scalar::LossMemory)),
        !(!f32_in_finite_range(c.loss_content, 0x0000_0000, 0x42C8_0000)) && !(!f32_in_finite_range(c.loss_palette, 0x0000_0000, 0x42C8_0000)) && !(!f32_in_finite_range(c.loss_structure, 0x0000_0000, 0x42C8_0000)) && !(!f32_in_finite_range(c.loss_seam, 0x0000_0000, 0x42C8_0000)) && !(!f32_in_finite_range(c.loss_gamut, 0x0000_0000, 0x42C8_0000)) && !(!(f32_lt(ZERO, c.loss_content) || f32_lt(ZERO, c.loss_palette) || f32_lt(ZERO, c.loss_structure) || f32_lt(ZERO, c.loss_seam) || f32_lt(ZERO, c.loss_gamut))) && !(!f32_in_finite_range(c.loss_state, 0x0000_0000, 0x42C8_0000)) && !(!f32_in_finite_range(c.loss_memory, 0x0000_0000, 0x42C8_0000)) && (!f32_in_finite_range(c.max_saturation_fraction, 0x0000_0000, 0x3F80_0000)) ==> loss_violation(c) == Some(Violation::OutOfRange(Scalar::MaxSaturationFraction)),
        !(!f32_in_finite_range(c.loss_content, 0x0000_0000, 0x42C8_0000)) && !(!f32_in_finite_range(c.loss_palette, 0x0000_0000, 0x42C8_0000)) && !(!f32_in_finite_range(c.loss_structure, 0x0000_0000, 0x42C8_0000)) && !(!f32_in_finite_range(c.loss_seam, 0x0000_0000, 0x42C8_0000)) && !(!f32_in_finite_range(c.loss_gamut, 0x0000_0000, 0x42C8_0000)) && !(!(f32_lt(ZERO, c.loss_content) || f32_lt(ZERO, c.loss_palette) || f32_lt(ZERO, c.loss_structure) || f32_lt(ZERO, c.loss_seam) || f32_lt(ZERO, c.loss_gamut))) && !(!f32_in_finite_range(c.loss_state, 0x0000_0000, 0x42C8_0000)) && !(!f32_in_finite_range(c.loss_memory, 0x0000_0000, 0x42C8_0000)) && !(!f32_in_finite_range(c.max_saturation_fraction, 0x0000_0000, 0x3F80_0000)) && (c.stability_patience > 10000) ==> loss_violation(c) == Some(Violation::StabilityPatience),
        !(!f32_in_finite_range(c.loss_content, 0x0000_0000, 0x42C8_0000)) && !(!f32_in_finite_range(c.loss_palette, 0x0000_0000, 0x42C8_0000)) && !(!f32_in_finite_range(c.loss_structure, 0x0000_0000, 0x42C8_0000)) && !(!f32_in_finite_range(c.loss_seam, 0x0000_0000, 0x42C8_0000)) && !(!f32_in_finite_range(c.loss_gamut, 0x0000_0000, 0x42C8_0000)) && !(!(f32_lt(ZERO, c.loss_content) || f32_lt(ZERO, c.loss_palette) || f32_lt(ZERO, c.loss_structure) || f32_lt(ZERO, c.loss_seam) || f32_lt(ZERO, c.loss_gamut))) && !(!f32_in_finite_range(c.loss_state, 0x0000_0000, 0x42C8_0000)) && !(!f32_in_finite_range(c.loss_memory, 0x0000_0000, 0x42C8_0000)) && !(!f32_in_finite_range(c.max_saturation_fraction, 0x0000_0000, 0x3F80_0000)) && !(c.stability_patience > 10000) && (!f32_in_finite_range(c.mastering_strength, 0x0000_0000, 0x4000_0000)) ==> loss_violation(c) == Some(Violation::OutOfRange(Scalar::MasteringStrength)),
        !(!f32_in_finite_range(c.loss_content, 0x0000_0000, 0x42C8_0000)) && !(!f32_in_finite_range(c.loss_palette, 0x0000_0000, 0x42C8_0000)) && !(!f32_in_finite_range(c.loss_structure, 0x0000_0000, 0x42C8_0000)) && !(!f32_in_finite_range(c.loss_seam, 0x0000_0000, 0x42C8_0000)) && !(!f32_in_finite_range(c.loss_gamut, 0x0000_0000, 0x42C8_0000)) && !(!(f32_lt(ZERO, c.loss_content) || f32_lt(ZERO, c.loss_palette) || f32_lt(ZERO, c.loss_structure) || f32_lt(ZERO, c.loss_seam) || f32_lt(ZERO, c.loss_gamut))) && !(!f32_in_finite_range(c.loss_state, 0x0000_0000, 0x42C8_0000)) && !(!f32_in_finite_range(c.loss_memory, 0x0000_0000, 0x42C8_0000)) && !(!f32_in_finite_range(c.max_saturation_fraction, 0x0000_0000, 0x3F80_0000)) && !(c.stability_patience > 10000) && !(!f32_in_finite_range(c.mastering_strength, 0x0000_0000, 0x4000_0000)) && (c.gallery > 64 || c.gallery_steps > 1024 || c.gallery_stride > 256) ==> loss_violation(c) == Some(Violation::Gallery),
{
}

/// The first guard, in checking order, whose condition fails decides the violation.
pub proof fn lemma_probe_violation_checked_in_order(c: RunConfig)
    ensures
        (c.analysis.probe_dir is None) ==> probe_violation(c) is None,
        !(c.analysis.probe_dir is None) && (!c.analysis.only) ==> probe_violation(c) == Some(Violation::ProbeNeedsAnalysisOnly),
        !(c.analysis.probe_dir is None) && !(!c.analysis.only) && (c.analysis.probe_ages@.len() == 0 || c.analysis.probe_ages@.len() > 64 || exists|i: int|
        0 <= i < c.analysis.probe_ages@.len() && (c.analysis.probe_ages@[i] == 0 || c.analysis.probe_ages@[i] > 4096)) ==> probe_violation(c) == Some(Violation::ProbeAges),
        !(c.analysis.probe_dir is None) && !(!c.analysis.only) && !(c.analysis.probe_ages@.len() == 0 || c.analysis.probe_ages@.len() > 64 || exists|i: int|
        0 <= i < c.analysis.probe_ages@.len() && (c.analysis.probe_ages@[i] == 0 || c.analysis.probe_ages@[i] > 4096)) && (c.analysis.probe_reference_fidelities@.len() == 0 || c.analysis.probe_reference_fidelities@.len() > 32) ==> probe_violation(c) == Some(Violation::ProbeFidelityCount),
        !(c.analysis.probe_dir is None) && !(!c.analysis.only) && !(c.analysis.probe_ages@.len() == 0 || c.analysis.probe_ages@.len() > 64 || exists|i: int|
        0 <= i < c.analysis.probe_ages@.len() && (c.analysis.probe_ages@[i] == 0 || c.analysis.probe_ages@[i] > 4096)) && !(c.analysis.probe_reference_fidelities@.len() == 0 || c.analysis.probe_reference_fidelities@.len() > 32) && (exists|i: int|
        0 <= i < c.analysis.probe_reference_fidelities@.len() && !f32_in_finite_range(c.analysis.probe_reference_fidelities@[i], ZERO, ONE)) ==> probe_violation(c) == Some(Violation::OutOfRange(Scalar::ProbeReferenceFidelities)),
        !(c.analysis.probe_dir is None) && !(!c.analysis.only) && !(c.analysis.probe_ages@.len() == 0 || c.analysis.probe_ages@.len() > 64 || exists|i: int|
        0 <= i < c.analysis.probe_ages@.len() && (c.analysis.probe_ages@[i] == 0 || c.analysis.probe_ages@[i] > 4096)) && !(c.analysis.probe_reference_fidelities@.len() == 0 || c.analysis.probe_reference_fidelities@.len() > 32) && !(exists|i: int|
        0 <= i < c.analysis.probe_reference_fidelities@.len() && !f32_in_finite_range(c.analysis.probe_reference_fidelities@[i], ZERO, ONE)) && (!strictly_increasing_ages(c.analysis.probe_ages@)) ==> probe_violation(c) == Some(Violation::ProbeAgesOrder),
        !(c.analysis.probe_dir is None) && !(!c.analysis.only) && !(c.analysis.probe_ages@.len() == 0 || c.analysis.probe_ages@.len() > 64 || exists|i: int|
        0 <= i < c.analysis.probe_ages@.len() && (c.analysis.probe_ages@[i] == 0 || c.analysis.probe_ages@[i] > 4096)) && !(c.analysis.probe_reference_fidelities@.len() == 0 || c.analysis.probe_reference_fidelities@.len() > 32) && !(exists|i: int|
        0 <= i < c.analysis.probe_reference_fidelities@.len() && !f32_in_finite_range(c.analysis.probe_reference_fidelities@[i], ZERO, ONE)) && !(!strictly_increasing_ages(c.analysis.probe_ages@)) && (has_equal_pair(c.analysis.probe_reference_fidelities@)) ==> probe_violation(c) == Some(Violation::ProbeFidelityDuplicates),
{
}

} // verus!
