//! The resolved run configuration, its defaults and its presets.
use vstd::prelude::*;
use crate::config::{
    BoundaryMode, ConditioningMode, Integrator, MorphDepthMode, ObjectiveMode, OptimizerKind,
    PhoneProfile, ResearchPreset, StylePreset, TerminalMode, TrainingMode,
};
use crate::experiment::{is_default_experiment, TrainingExperiment};

verus! {

/// Version of the checkpoint and artifact schema.
pub const SCHEMA_VERSION: u32 = 9;

/// Fewest recurrent channels that carry the physical operators.
pub const MIN_PHYSICAL_CHANNELS: usize = 12;

/// Grounded reconstruction and emergent residual schedule.
#[derive(Clone, Debug)]
pub struct ReconstructionConfig {
    pub grounding_strength: u32,
    pub emergence_strength: u32,
    pub emergence_start: u32,
    pub emergence_ramp: u32,
    pub grounding_floor: u32,
    pub emergent_limit: u32,
    pub emergence_low_budget: u32,
    pub emergence_mid_budget: u32,
    pub local_reference_gain: u32,
    pub loss_composite: u32,
    pub loss_ground_coarse: u32,
    pub loss_ground_mid: u32,
    pub loss_ground_fine: u32,
    pub loss_emergent_low: u32,
    pub loss_emergent_tv: u32,
    pub loss_emergent_fit: u32,
    pub loss_head_redundancy: u32,
    pub loss_cross_resolution: u32,
}

/// Native-detail crop supervision.
#[derive(Clone, Debug)]
pub struct DetailConfig {
    pub probability: u32,
    pub resolution: usize,
    pub min_zoom: u32,
    pub max_zoom: u32,
    pub curriculum_start: u32,
    pub cache_max_level: usize,
    pub cache_dir: Option<String>,
    pub boundary: BoundaryMode,
}

/// Growth of the active morphic depth.
#[derive(Clone, Debug)]
pub struct MorphGrowthConfig {
    pub mode: MorphDepthMode,
    pub min_depth: usize,
    pub max_depth: usize,
    pub interval: usize,
    pub plateau_window: usize,
    pub plateau_epsilon: u32,
    pub seam_threshold: u32,
}

/// Conditional rectified-flow objective.
#[derive(Clone, Debug)]
pub struct FlowConfig {
    pub weight: u32,
    pub endpoint_weight: u32,
    pub resolution: usize,
    pub cadence: usize,
    pub min_time: u32,
    pub max_time: u32,
    pub hidden: usize,
    pub sample_steps: usize,
}

/// Frozen-checkpoint analysis requests.
#[derive(Clone, Debug)]
pub struct AnalysisConfig {
    pub only: bool,
    pub render_attribution: bool,
    pub model_stats: bool,
    pub autonomous_horizon: usize,
    pub perturbation_horizon: usize,
    pub dynamics_horizon: usize,
    pub stride: usize,
    pub emergence_gallery: bool,
    pub benchmark: bool,
    pub compare_v8_dir: Option<String>,
    pub probe_dir: Option<String>,
    pub probe_ages: Vec<usize>,
    pub probe_reference_fidelities: Vec<u32>,
}

/// Every setting of a run. Binary32 and binary64 scalars are held as their IEEE-754 bits; paths are held as text.
#[derive(Clone, Debug)]
pub struct RunConfig {
    pub corpus_dir: String,
    pub output_dir: String,
    pub run_tag: Option<String>,
    pub mode: TrainingMode,
    pub profile: PhoneProfile,
    pub style: StylePreset,
    pub research_preset: ResearchPreset,
    pub objective: ObjectiveMode,
    pub reconstruction: ReconstructionConfig,
    pub detail: DetailConfig,
    pub morph_growth: MorphGrowthConfig,
    pub flow: FlowConfig,
    pub analysis: AnalysisConfig,
    pub steps: usize,
    pub threads: usize,
    pub seed: u64,
    pub micro_size: usize,
    pub macro_size: usize,
    pub channels: usize,
    pub genome_dim: usize,
    pub ca_hidden: usize,
    pub interface_grid: usize,
    pub interface_width: usize,
    pub interface_loops: usize,
    pub morph_layers: usize,
    pub morph_depth: usize,
    pub morph_residual_gain: u32,
    pub memory_limit: u32,
    pub interface_gain: u32,
    pub conditioning: ConditioningMode,
    pub reference_fidelity_min: u32,
    pub reference_fidelity_max: u32,
    pub reference_dropout: u32,
    pub render_hidden: usize,
    pub render_blocks: usize,
    pub coord_bands: usize,
    pub coord_gain: u32,
    pub state_skip: u32,
    pub chroma: u32,
    pub gamma: u32,
    pub train_resolution: usize,
    pub output_resolution: usize,
    pub snapshot_resolution: usize,
    pub episode_steps: usize,
    pub episode_reset: u32,
    pub memory_reset: u32,
    pub bptt: usize,
    pub core_update_every: usize,
    pub macro_update_every: usize,
    pub snapshot_every: usize,
    pub checkpoint_every: usize,
    pub log_every: usize,
    pub terminal: TerminalMode,
    pub image_cache: usize,
    pub recursive_corpus: bool,
    pub learning_rate: u64,
    pub weight_decay: u64,
    pub beta1: u64,
    pub beta2: u64,
    pub adam_epsilon: u64,
    pub grad_clip: u64,
    pub warmup_updates: usize,
    pub optimizer: OptimizerKind,
    pub muon_momentum: u64,
    pub muon_ns_steps: usize,
    pub integrator: Integrator,
    pub dt: u32,
    pub state_limit: u32,
    pub state_soft_limit: u32,
    pub clock_probability: u32,
    pub nca_gain: u32,
    pub reaction_gain: u32,
    pub state_leak: u32,
    pub phase_gain: u32,
    pub fractal_gain: u32,
    pub quasiperiodic_gain: u32,
    pub cyclic_gain: u32,
    pub rd_diffusion_u: u32,
    pub rd_diffusion_v: u32,
    pub rd_feed: u32,
    pub rd_kill: u32,
    pub phase_growth: u32,
    pub phase_saturation: u32,
    pub phase_frequency: u32,
    pub phase_diffusion: u32,
    pub phase_dispersion: u32,
    pub loss_content: u32,
    pub loss_palette: u32,
    pub loss_structure: u32,
    pub loss_seam: u32,
    pub loss_gamut: u32,
    pub loss_state: u32,
    pub loss_memory: u32,
    pub max_saturation_fraction: u32,
    pub stability_patience: usize,
    pub mastering_strength: u32,
    pub save_state_atlas: bool,
    pub gallery: usize,
    pub gallery_steps: usize,
    pub gallery_stride: usize,
    pub gallery_seed: u64,
    pub fresh: bool,
    pub render_only: bool,
    /// Opt-in training semantics, checked with the run and folded into its signature.
    pub experiment: TrainingExperiment,
}

/// The worker count used when the machine reports its parallelism (capped at
/// eight) or does not (four).
pub open spec fn default_threads(available_parallelism: Option<usize>) -> usize {
    match available_parallelism {
        Some(n) => if n < 8 { n } else { 8 },
        None => 4,
    }
}

/// `c` holds the resolved defaults: the balanced profile, the alien-fluid style
/// and the reconstruction-plus research preset applied to the base settings.
pub open spec fn is_default_config(c: RunConfig, threads: usize) -> bool {
    &&& c.corpus_dir@ == "/sdcard/Download/titan_image_sources"@
    &&& c.output_dir@ == "/sdcard/Download/titan_image_v9"@
    &&& c.run_tag is None
    &&& c.mode == TrainingMode::Family
    &&& c.profile == PhoneProfile::S25Balanced
    &&& c.style == StylePreset::AlienFluid
    &&& c.research_preset == ResearchPreset::ReconstructionPlus
    &&& c.objective == ObjectiveMode::ReconstructionPlus
    &&& c.reconstruction.grounding_strength == 0x3F80_0000 // 1.0
    &&& c.reconstruction.emergence_strength == 0x3EB3_3333 // 0.35
    &&& c.reconstruction.emergence_start == 0x3E80_0000 // 0.25
    &&& c.reconstruction.emergence_ramp == 0x3F00_0000 // 0.50
    &&& c.reconstruction.grounding_floor == 0x3F33_3333 // 0.70
    &&& c.reconstruction.emergent_limit == 0x3E99_999A // 0.30
    &&& c.reconstruction.emergence_low_budget == 0x3D4C_CCCD // 0.05
    &&& c.reconstruction.emergence_mid_budget == 0x3EB3_3333 // 0.35
    &&& c.reconstruction.local_reference_gain == 0x3DF5_C28F // 0.12
    &&& c.reconstruction.loss_composite == 0x3F80_0000 // 1.0
    &&& c.reconstruction.loss_ground_coarse == 0x4020_0000 // 2.5
    &&& c.reconstruction.loss_ground_mid == 0x3FC0_0000 // 1.5
    &&& c.reconstruction.loss_ground_fine == 0x3F40_0000 // 0.75
    &&& c.reconstruction.loss_emergent_low == 0x3E4C_CCCD // 0.20
    &&& c.reconstruction.loss_emergent_tv == 0x3C75_C28F // 0.015
    &&& c.reconstruction.loss_emergent_fit == 0x3E80_0000 // 0.25
    &&& c.reconstruction.loss_head_redundancy == 0x3C23_D70A // 0.01
    &&& c.reconstruction.loss_cross_resolution == 0x3D4C_CCCD // 0.05
    &&& c.detail.probability == 0x3E4C_CCCD // 0.20
    &&& c.detail.resolution == 128
    &&& c.detail.min_zoom == 0x4000_0000 // 2.0
    &&& c.detail.max_zoom == 0x4100_0000 // 8.0
    &&& c.detail.curriculum_start == 0x3EB3_3333 // 0.35
    &&& c.detail.cache_max_level == 1536
    &&& c.detail.cache_dir is None
    &&& c.detail.boundary == BoundaryMode::Natural
    &&& c.morph_growth.mode == MorphDepthMode::Fixed
    &&& c.morph_growth.min_depth == 3
    &&& c.morph_growth.max_depth == 6
    &&& c.morph_growth.interval == 512
    &&& c.morph_growth.plateau_window == 128
    &&& c.morph_growth.plateau_epsilon == 0x3B03_126F // 0.002
    &&& c.morph_growth.seam_threshold == 0x3D4C_CCCD // 0.05
    &&& c.flow.weight == 0x3DCC_CCCD // 0.10
    &&& c.flow.endpoint_weight == 0x3F80_0000 // 1.0
    &&& c.flow.resolution == 64
    &&& c.flow.cadence == 4
    &&& c.flow.min_time == 0x0000_0000 // 0.0
    &&& c.flow.max_time == 0x3F80_0000 // 1.0
    &&& c.flow.hidden == 64
    &&& c.flow.sample_steps == 16
    &&& c.analysis.only == false
    &&& c.analysis.render_attribution == false
    &&& c.analysis.model_stats == false
    &&& c.analysis.autonomous_horizon == 0
    &&& c.analysis.perturbation_horizon == 0
    &&& c.analysis.dynamics_horizon == 0
    &&& c.analysis.stride == 32
    &&& c.analysis.emergence_gallery == true
    &&& c.analysis.benchmark == false
    &&& c.analysis.compare_v8_dir is None
    &&& c.analysis.probe_dir is None
    &&& c.analysis.probe_ages@ == seq![1usize, 8usize, 16usize, 32usize, 64usize]
    &&& c.analysis.probe_reference_fidelities@ == seq![0x3F80_0000u32, 0x3F00_0000u32, 0x3E80_0000u32, 0x3DCC_CCCDu32, 0x0000_0000u32]
    &&& c.steps == 1600
    &&& c.threads == threads
    &&& c.seed == 42
    &&& c.micro_size == 64
    &&& c.macro_size == 32
    &&& c.channels == 24
    &&& c.genome_dim == 8
    &&& c.ca_hidden == 128
    &&& c.interface_grid == 8
    &&& c.interface_width == 128
    &&& c.interface_loops == 3
    &&& c.morph_layers == 6
    &&& c.morph_depth == 3
    &&& c.morph_residual_gain == 0x3CA3_D70A // 0.02
    &&& c.memory_limit == 0x4040_0000 // 3.0
    &&& c.interface_gain == 0x3E38_51EC // 0.18
    &&& c.conditioning == ConditioningMode::Reconstruct
    &&& c.reference_fidelity_min == 0x3E19_999A // 0.15
    &&& c.reference_fidelity_max == 0x3F80_0000 // 1.0
    &&& c.reference_dropout == 0x3E19_999A // 0.15
    &&& c.render_hidden == 128
    &&& c.render_blocks == 4
    &&& c.coord_bands == 4
    &&& c.coord_gain == 0x3DF5_C28F // 0.12
    &&& c.state_skip == 0x3F40_0000 // 0.75
    &&& c.chroma == 0x3E4C_CCCD // 0.20
    &&& c.gamma == 0x400C_CCCD // 2.2
    &&& c.train_resolution == 192
    &&& c.output_resolution == 768
    &&& c.snapshot_resolution == 384
    &&& c.episode_steps == 64
    &&& c.episode_reset == 0x3F59_999A // 0.85
    &&& c.memory_reset == 0x3F80_0000 // 1.0
    &&& c.bptt == 4
    &&& c.core_update_every == 2
    &&& c.macro_update_every == 4
    &&& c.snapshot_every == 50
    &&& c.checkpoint_every == 400
    &&& c.log_every == 10
    &&& c.terminal == TerminalMode::Compact
    &&& c.image_cache == 32
    &&& c.recursive_corpus == false
    &&& c.learning_rate == 0x3F43_A92A_3055_3261 // 6e-4
    &&& c.weight_decay == 0x3F50_624D_D2F1_A9FC // 1e-3
    &&& c.beta1 == 0x3FEC_CCCC_CCCC_CCCD // 0.9
    &&& c.beta2 == 0x3FEF_F7CE_D916_872B // 0.999
    &&& c.adam_epsilon == 0x3E45_798E_E230_8C3A // 1e-8
    &&& c.grad_clip == 0x3FF0_0000_0000_0000 // 1.0
    &&& c.warmup_updates == 48
    &&& c.optimizer == OptimizerKind::AdamW
    &&& c.muon_momentum == 0x3FEE_6666_6666_6666 // 0.95
    &&& c.muon_ns_steps == 5
    &&& c.integrator == Integrator::Euler
    &&& c.dt == 0x3DF5_C28F // 0.12
    &&& c.state_limit == 0x4060_0000 // 3.5
    &&& c.state_soft_limit == 0x3FC0_0000 // 1.5
    &&& c.clock_probability == 0x3F38_51EC // 0.72
    &&& c.nca_gain == 0x3E80_0000 // 0.25
    &&& c.reaction_gain == 0x3EB3_3333 // 0.35
    &&& c.state_leak == 0x3DCC_CCCD // 0.10
    &&& c.phase_gain == 0x3F59_999A // 0.85
    &&& c.fractal_gain == 0x3DA3_D70A // 0.08
    &&& c.quasiperiodic_gain == 0x3DF5_C28F // 0.12
    &&& c.cyclic_gain == 0x3E61_47AE // 0.22
    &&& c.rd_diffusion_u == 0x3E23_D70A // 0.16
    &&& c.rd_diffusion_v == 0x3DA3_D70A // 0.08
    &&& c.rd_feed == 0x3D0F_5C29 // 0.035
    &&& c.rd_kill == 0x3D79_DB23 // 0.061
    &&& c.phase_growth == 0x3E8F_5C29 // 0.28
    &&& c.phase_saturation == 0x3ED7_0A3D // 0.42
    &&& c.phase_frequency == 0x3F38_51EC // 0.72
    &&& c.phase_diffusion == 0x3DF5_C28F // 0.12
    &&& c.phase_dispersion == 0x3D0F_5C29 // 0.035
    &&& c.loss_content == 0x3F80_0000 // 1.0
    &&& c.loss_palette == 0x3F8C_CCCD // 1.1
    &&& c.loss_structure == 0x3F40_0000 // 0.75
    &&& c.loss_seam == 0x3DA3_D70A // 0.08
    &&& c.loss_gamut == 0x3E38_51EC // 0.18
    &&& c.loss_state == 0x3CA3_D70A // 0.02
    &&& c.loss_memory == 0x3B03_126F // 0.002
    &&& c.max_saturation_fraction == 0x3E80_0000 // 0.25
    &&& c.stability_patience == 8
    &&& c.mastering_strength == 0x3F40_0000 // 0.75
    &&& c.save_state_atlas == true
    &&& c.gallery == 4
    &&& c.gallery_steps == 64
    &&& c.gallery_stride == 16
    &&& c.gallery_seed == 0x5eed_5eed
    &&& c.fresh == false
    &&& c.render_only == false
    &&& is_default_experiment(c.experiment)
}

pub open spec fn with_profile(c: RunConfig, profile: PhoneProfile) -> RunConfig {
    match profile {
        PhoneProfile::S25Fast => RunConfig {
            profile: profile,
            micro_size: 48,
            macro_size: 24,
            channels: 16,
            genome_dim: 6,
            ca_hidden: 96,
            interface_grid: 4,
            interface_width: 96,
            interface_loops: 2,
            morph_layers: 4,
            morph_depth: 2,
            render_hidden: 80,
            render_blocks: 3,
            coord_bands: 3,
            train_resolution: 128,
            output_resolution: 512,
            snapshot_resolution: 256,
            bptt: 4,
            core_update_every: 2,
            episode_steps: 48,
            snapshot_every: 50,
            checkpoint_every: 480,
            gallery_steps: 48,
            morph_growth: MorphGrowthConfig {
                min_depth: 2,
                max_depth: 4,
                ..c.morph_growth
            },
            detail: DetailConfig {
                resolution: 96,
                probability: 0x3E19_999A, // 0.15
                ..c.detail
            },
            ..c
        },
        PhoneProfile::S25Balanced => RunConfig {
            profile: profile,
            micro_size: 64,
            macro_size: 32,
            channels: 24,
            genome_dim: 8,
            ca_hidden: 128,
            render_hidden: 128,
            interface_grid: 8,
            interface_width: 128,
            interface_loops: 3,
            morph_layers: 6,
            morph_depth: 3,
            render_blocks: 4,
            coord_bands: 4,
            train_resolution: 192,
            output_resolution: 768,
            snapshot_resolution: 384,
            bptt: 4,
            core_update_every: 2,
            episode_steps: 64,
            snapshot_every: 50,
            checkpoint_every: 400,
            gallery_steps: 64,
            morph_growth: MorphGrowthConfig {
                min_depth: 3,
                max_depth: 6,
                ..c.morph_growth
            },
            detail: DetailConfig {
                resolution: 128,
                probability: 0x3E4C_CCCD, // 0.20
                ..c.detail
            },
            ..c
        },
        PhoneProfile::S25Quality => RunConfig {
            profile: profile,
            micro_size: 80,
            macro_size: 40,
            channels: 32,
            genome_dim: 12,
            ca_hidden: 192,
            render_hidden: 160,
            interface_grid: 8,
            interface_width: 160,
            interface_loops: 4,
            morph_layers: 8,
            morph_depth: 4,
            render_blocks: 5,
            coord_bands: 5,
            train_resolution: 256,
            output_resolution: 1024,
            snapshot_resolution: 512,
            bptt: 4,
            core_update_every: 1,
            episode_steps: 80,
            snapshot_every: 50,
            checkpoint_every: 400,
            gallery_steps: 80,
            morph_growth: MorphGrowthConfig {
                min_depth: 4,
                max_depth: 8,
                ..c.morph_growth
            },
            detail: DetailConfig {
                resolution: 192,
                probability: 0x3E80_0000, // 0.25
                ..c.detail
            },
            ..c
        },
    }
}

pub open spec fn with_style(c: RunConfig, style: StylePreset) -> RunConfig {
    match style {
        StylePreset::AlienFluid => RunConfig {
            style: style,
            reaction_gain: 0x3EB3_3333, // 0.35
            phase_gain: 0x3F59_999A, // 0.85
            fractal_gain: 0x3DA3_D70A, // 0.08
            quasiperiodic_gain: 0x3DF5_C28F, // 0.12
            cyclic_gain: 0x3E61_47AE, // 0.22
            coord_gain: 0x3DF5_C28F, // 0.12
            state_skip: 0x3F40_0000, // 0.75
            chroma: 0x3E4C_CCCD, // 0.20
            ..c
        },
        StylePreset::FractalFlame => RunConfig {
            style: style,
            reaction_gain: 0x3E61_47AE, // 0.22
            phase_gain: 0x3ED7_0A3D, // 0.42
            fractal_gain: 0x3EAE_147B, // 0.34
            quasiperiodic_gain: 0x3E19_999A, // 0.15
            cyclic_gain: 0x3E23_D70A, // 0.16
            coord_gain: 0x3E38_51EC, // 0.18
            state_skip: 0x3F73_3333, // 0.95
            chroma: 0x3E61_47AE, // 0.22
            ..c
        },
        StylePreset::ReactionGarden => RunConfig {
            style: style,
            reaction_gain: 0x3F73_3333, // 0.95
            phase_gain: 0x3E38_51EC, // 0.18
            fractal_gain: 0x3D0F_5C29, // 0.035
            quasiperiodic_gain: 0x3D4C_CCCD, // 0.05
            cyclic_gain: 0x3E8F_5C29, // 0.28
            coord_gain: 0x3DA3_D70A, // 0.08
            state_skip: 0x3F51_EB85, // 0.82
            chroma: 0x3E38_51EC, // 0.18
            ..c
        },
        StylePreset::Quasicrystal => RunConfig {
            style: style,
            reaction_gain: 0x3E23_D70A, // 0.16
            phase_gain: 0x3F05_1EB8, // 0.52
            fractal_gain: 0x3D8F_5C29, // 0.07
            quasiperiodic_gain: 0x3EAE_147B, // 0.34
            cyclic_gain: 0x3E4C_CCCD, // 0.20
            coord_gain: 0x3E8F_5C29, // 0.28
            state_skip: 0x3F38_51EC, // 0.72
            chroma: 0x3E57_0A3D, // 0.21
            ..c
        },
        StylePreset::PureNca => RunConfig {
            style: style,
            reaction_gain: 0x0000_0000, // 0.0
            phase_gain: 0x0000_0000, // 0.0
            fractal_gain: 0x0000_0000, // 0.0
            quasiperiodic_gain: 0x0000_0000, // 0.0
            cyclic_gain: 0x0000_0000, // 0.0
            coord_gain: 0x3DA3_D70A, // 0.08
            state_skip: 0x3F19_999A, // 0.60
            chroma: 0x3E38_51EC, // 0.18
            ..c
        },
    }
}

pub open spec fn with_research_preset(c: RunConfig, preset: ResearchPreset) -> RunConfig {
    match preset {
        ResearchPreset::StrictReconstruct => RunConfig {
            research_preset: preset,
            objective: ObjectiveMode::ReconstructionPlus,
            conditioning: ConditioningMode::Reconstruct,
            reference_fidelity_max: 0x3F80_0000, // 1.0
            reconstruction: ReconstructionConfig {
                grounding_strength: 0x3FA0_0000, // 1.25
                emergence_strength: 0x3D4C_CCCD, // 0.05
                grounding_floor: 0x3F73_3333, // 0.95
                emergence_low_budget: 0x0000_0000, // 0.0
                emergence_mid_budget: 0x3DCC_CCCD, // 0.10
                loss_ground_coarse: 0x4040_0000, // 3.0
                loss_ground_mid: 0x4000_0000, // 2.0
                loss_ground_fine: 0x3FA0_0000, // 1.25
                ..c.reconstruction
            },
            detail: DetailConfig {
                probability: 0x3E80_0000, // 0.25
                ..c.detail
            },
            ..c
        },
        ResearchPreset::ReconstructionPlus => RunConfig {
            research_preset: preset,
            objective: ObjectiveMode::ReconstructionPlus,
            conditioning: ConditioningMode::Reconstruct,
            reference_fidelity_max: 0x3F80_0000, // 1.0
            ..c
        },
        ResearchPreset::GroundedEmergent => RunConfig {
            research_preset: preset,
            objective: ObjectiveMode::ReconstructionPlus,
            conditioning: ConditioningMode::Reconstruct,
            reference_fidelity_max: 0x3F80_0000, // 1.0
            reconstruction: ReconstructionConfig {
                emergence_strength: 0x3F33_3333, // 0.70
                emergence_start: 0x3E4C_CCCD, // 0.20
                grounding_floor: 0x3F26_6666, // 0.65
                loss_emergent_low: 0x3DA3_D70A, // 0.08
                emergence_low_budget: 0x3E19_999A, // 0.15
                emergence_mid_budget: 0x3F26_6666, // 0.65
                ..c.reconstruction
            },
            morph_growth: MorphGrowthConfig {
                mode: MorphDepthMode::Adaptive,
                ..c.morph_growth
            },
            ..c
        },
        ResearchPreset::FreeMorph => RunConfig {
            research_preset: preset,
            objective: ObjectiveMode::ReconstructionPlus,
            conditioning: ConditioningMode::Hybrid,
            reference_fidelity_min: 0x0000_0000, // 0.0
            reference_fidelity_max: 0x3EE6_6666, // 0.45
            reference_dropout: 0x3EB3_3333, // 0.35
            reconstruction: ReconstructionConfig {
                emergence_strength: 0x3F80_0000, // 1.0
                emergence_start: 0x3DCC_CCCD, // 0.10
                grounding_floor: 0x3E80_0000, // 0.25
                loss_emergent_low: 0x3CA3_D70A, // 0.02
                emergence_low_budget: 0x3F00_0000, // 0.50
                emergence_mid_budget: 0x3F80_0000, // 1.0
                ..c.reconstruction
            },
            morph_growth: MorphGrowthConfig {
                mode: MorphDepthMode::Adaptive,
                ..c.morph_growth
            },
            ..c
        },
        ResearchPreset::FlowReconstruct => RunConfig {
            research_preset: preset,
            objective: ObjectiveMode::HybridFlow,
            conditioning: ConditioningMode::Reconstruct,
            reference_fidelity_max: 0x3F80_0000, // 1.0
            reconstruction: ReconstructionConfig {
                emergence_strength: 0x3E4C_CCCD, // 0.20
                ..c.reconstruction
            },
            flow: FlowConfig {
                weight: 0x3DCC_CCCD, // 0.10
                endpoint_weight: 0x3F80_0000, // 1.0
                ..c.flow
            },
            ..c
        },
    }
}

impl RunConfig {
    /// The default configuration. `available_parallelism` is what the machine
    /// reports as its available parallelism, if anything.
    pub fn default_for(available_parallelism: Option<usize>) -> (r: RunConfig)
        ensures
            is_default_config(r, default_threads(available_parallelism)),
    {
        let threads = match available_parallelism {
            Some(n) => if n < 8 { n } else { 8 },
            None => 4,
        };
        let config = RunConfig {
            corpus_dir: "/sdcard/Download/titan_image_sources".to_owned(),
            output_dir: "/sdcard/Download/titan_image_v9".to_owned(),
            run_tag: None,
            mode: TrainingMode::Family,
            profile: PhoneProfile::S25Balanced,
            style: StylePreset::AlienFluid,
            research_preset: ResearchPreset::ReconstructionPlus,
            objective: ObjectiveMode::ReconstructionPlus,
            reconstruction: ReconstructionConfig {
                grounding_strength: 0x3F80_0000, // 1.0
                emergence_strength: 0x3EB3_3333, // 0.35
                emergence_start: 0x3E80_0000, // 0.25
                emergence_ramp: 0x3F00_0000, // 0.50
                grounding_floor: 0x3F33_3333, // 0.70
                emergent_limit: 0x3E99_999A, // 0.30
                emergence_low_budget: 0x3D4C_CCCD, // 0.05
                emergence_mid_budget: 0x3EB3_3333, // 0.35
                local_reference_gain: 0x3DF5_C28F, // 0.12
                loss_composite: 0x3F80_0000, // 1.0
                loss_ground_coarse: 0x4020_0000, // 2.5
                loss_ground_mid: 0x3FC0_0000, // 1.5
                loss_ground_fine: 0x3F40_0000, // 0.75
                loss_emergent_low: 0x3E4C_CCCD, // 0.20
                loss_emergent_tv: 0x3C75_C28F, // 0.015
                loss_emergent_fit: 0x3E80_0000, // 0.25
                loss_head_redundancy: 0x3C23_D70A, // 0.01
                loss_cross_resolution: 0x3D4C_CCCD, // 0.05
            },
            detail: DetailConfig {
                probability: 0x3E4C_CCCD, // 0.20
                resolution: 128,
                min_zoom: 0x4000_0000, // 2.0
                max_zoom: 0x4100_0000, // 8.0
                curriculum_start: 0x3EB3_3333, // 0.35
                cache_max_level: 1536,
                cache_dir: None,
                boundary: BoundaryMode::Natural,
            },
            morph_growth: MorphGrowthConfig {
                mode: MorphDepthMode::Fixed,
                min_depth: 3,
                max_depth: 6,
                interval: 512,
                plateau_window: 128,
                plateau_epsilon: 0x3B03_126F, // 0.002
                seam_threshold: 0x3D4C_CCCD, // 0.05
            },
            flow: FlowConfig {
                weight: 0x3DCC_CCCD, // 0.10
                endpoint_weight: 0x3F80_0000, // 1.0
                resolution: 64,
                cadence: 4,
                min_time: 0x0000_0000, // 0.0
                max_time: 0x3F80_0000, // 1.0
                hidden: 64,
                sample_steps: 16,
            },
            analysis: AnalysisConfig {
                only: false,
                render_attribution: false,
                model_stats: false,
                autonomous_horizon: 0,
                perturbation_horizon: 0,
                dynamics_horizon: 0,
                stride: 32,
                emergence_gallery: true,
                benchmark: false,
                compare_v8_dir: None,
                probe_dir: None,
                probe_ages: vec![1, 8, 16, 32, 64],
                probe_reference_fidelities: vec![0x3F80_0000, 0x3F00_0000, 0x3E80_0000, 0x3DCC_CCCD, 0x0000_0000],
            },
            steps: 1600,
            threads: threads,
            seed: 42,
            micro_size: 64,
            macro_size: 32,
            channels: 24,
            genome_dim: 8,
            ca_hidden: 128,
            interface_grid: 8,
            interface_width: 128,
            interface_loops: 3,
            morph_layers: 6,
            morph_depth: 3,
            morph_residual_gain: 0x3CA3_D70A, // 0.02
            memory_limit: 0x4040_0000, // 3.0
            interface_gain: 0x3E38_51EC, // 0.18
            conditioning: ConditioningMode::Reconstruct,
            reference_fidelity_min: 0x3E19_999A, // 0.15
            reference_fidelity_max: 0x3F59_999A, // 0.85
            reference_dropout: 0x3E19_999A, // 0.15
            render_hidden: 128,
            render_blocks: 4,
            coord_bands: 4,
            coord_gain: 0x3DF5_C28F, // 0.12
            state_skip: 0x3F40_0000, // 0.75
            chroma: 0x3E4C_CCCD, // 0.20
            gamma: 0x400C_CCCD, // 2.2
            train_resolution: 192,
            output_resolution: 768,
            snapshot_resolution: 384,
            episode_steps: 64,
            episode_reset: 0x3F59_999A, // 0.85
            memory_reset: 0x3F80_0000, // 1.0
            bptt: 4,
            core_update_every: 2,
            macro_update_every: 4,
            snapshot_every: 50,
            checkpoint_every: 400,
            log_every: 10,
            terminal: TerminalMode::Compact,
            image_cache: 32,
            recursive_corpus: false,
            learning_rate: 0x3F43_A92A_3055_3261, // 6e-4
            weight_decay: 0x3F50_624D_D2F1_A9FC, // 1e-3
            beta1: 0x3FEC_CCCC_CCCC_CCCD, // 0.9
            beta2: 0x3FEF_F7CE_D916_872B, // 0.999
            adam_epsilon: 0x3E45_798E_E230_8C3A, // 1e-8
            grad_clip: 0x3FF0_0000_0000_0000, // 1.0
            warmup_updates: 48,
            optimizer: OptimizerKind::AdamW,
            muon_momentum: 0x3FEE_6666_6666_6666, // 0.95
            muon_ns_steps: 5,
            integrator: Integrator::Euler,
            dt: 0x3DF5_C28F, // 0.12
            state_limit: 0x4060_0000, // 3.5
            state_soft_limit: 0x3FC0_0000, // 1.5
            clock_probability: 0x3F38_51EC, // 0.72
            nca_gain: 0x3E80_0000, // 0.25
            reaction_gain: 0x3EB3_3333, // 0.35
            state_leak: 0x3DCC_CCCD, // 0.10
            phase_gain: 0x3F59_999A, // 0.85
            fractal_gain: 0x3DA3_D70A, // 0.08
            quasiperiodic_gain: 0x3DF5_C28F, // 0.12
            cyclic_gain: 0x3E61_47AE, // 0.22
            rd_diffusion_u: 0x3E23_D70A, // 0.16
            rd_diffusion_v: 0x3DA3_D70A, // 0.08
            rd_feed: 0x3D0F_5C29, // 0.035
            rd_kill: 0x3D79_DB23, // 0.061
            phase_growth: 0x3E8F_5C29, // 0.28
            phase_saturation: 0x3ED7_0A3D, // 0.42
            phase_frequency: 0x3F38_51EC, // 0.72
            phase_diffusion: 0x3DF5_C28F, // 0.12
            phase_dispersion: 0x3D0F_5C29, // 0.035
            loss_content: 0x3F80_0000, // 1.0
            loss_palette: 0x3F8C_CCCD, // 1.1
            loss_structure: 0x3F40_0000, // 0.75
            loss_seam: 0x3DA3_D70A, // 0.08
            loss_gamut: 0x3E38_51EC, // 0.18
            loss_state: 0x3CA3_D70A, // 0.02
            loss_memory: 0x3B03_126F, // 0.002
            max_saturation_fraction: 0x3E80_0000, // 0.25
            stability_patience: 8,
            mastering_strength: 0x3F40_0000, // 0.75
            save_state_atlas: true,
            gallery: 4,
            gallery_steps: 64,
            gallery_stride: 16,
            gallery_seed: 0x5eed_5eed,
            fresh: false,
            render_only: false,
            experiment: TrainingExperiment::default(),
        };
        config.into_profile(PhoneProfile::S25Balanced).into_style(StylePreset::AlienFluid)
            .into_research_preset(ResearchPreset::ReconstructionPlus)
    }

    pub(crate) fn into_profile(self, profile: PhoneProfile) -> (r: RunConfig)
        ensures
            r == with_profile(self, profile),
    {
        let c = self;
        match profile {
            PhoneProfile::S25Fast => RunConfig {
                profile: profile,
                micro_size: 48,
                macro_size: 24,
                channels: 16,
                genome_dim: 6,
                ca_hidden: 96,
                interface_grid: 4,
                interface_width: 96,
                interface_loops: 2,
                morph_layers: 4,
                morph_depth: 2,
                render_hidden: 80,
                render_blocks: 3,
                coord_bands: 3,
                train_resolution: 128,
                output_resolution: 512,
                snapshot_resolution: 256,
                bptt: 4,
                core_update_every: 2,
                episode_steps: 48,
                snapshot_every: 50,
                checkpoint_every: 480,
                gallery_steps: 48,
                morph_growth: MorphGrowthConfig {
                    min_depth: 2,
                    max_depth: 4,
                    ..c.morph_growth
                },
                detail: DetailConfig {
                    resolution: 96,
                    probability: 0x3E19_999A, // 0.15
                    ..c.detail
                },
                ..c
            },
            PhoneProfile::S25Balanced => RunConfig {
                profile: profile,
                micro_size: 64,
                macro_size: 32,
                channels: 24,
                genome_dim: 8,
                ca_hidden: 128,
                render_hidden: 128,
                interface_grid: 8,
                interface_width: 128,
                interface_loops: 3,
                morph_layers: 6,
                morph_depth: 3,
                render_blocks: 4,
                coord_bands: 4,
                train_resolution: 192,
                output_resolution: 768,
                snapshot_resolution: 384,
                bptt: 4,
                core_update_every: 2,
                episode_steps: 64,
                snapshot_every: 50,
                checkpoint_every: 400,
                gallery_steps: 64,
                morph_growth: MorphGrowthConfig {
                    min_depth: 3,
                    max_depth: 6,
                    ..c.morph_growth
                },
                detail: DetailConfig {
                    resolution: 128,
                    probability: 0x3E4C_CCCD, // 0.20
                    ..c.detail
                },
                ..c
            },
            PhoneProfile::S25Quality => RunConfig {
                profile: profile,
                micro_size: 80,
                macro_size: 40,
                channels: 32,
                genome_dim: 12,
                ca_hidden: 192,
                render_hidden: 160,
                interface_grid: 8,
                interface_width: 160,
                interface_loops: 4,
                morph_layers: 8,
                morph_depth: 4,
                render_blocks: 5,
                coord_bands: 5,
                train_resolution: 256,
                output_resolution: 1024,
                snapshot_resolution: 512,
                bptt: 4,
                core_update_every: 1,
                episode_steps: 80,
                snapshot_every: 50,
                checkpoint_every: 400,
                gallery_steps: 80,
                morph_growth: MorphGrowthConfig {
                    min_depth: 4,
                    max_depth: 8,
                    ..c.morph_growth
                },
                detail: DetailConfig {
                    resolution: 192,
                    probability: 0x3E80_0000, // 0.25
                    ..c.detail
                },
                ..c
            },
        }
    }

    pub(crate) fn into_style(self, style: StylePreset) -> (r: RunConfig)
        ensures
            r == with_style(self, style),
    {
        let c = self;
        match style {
            StylePreset::AlienFluid => RunConfig {
                style: style,
                reaction_gain: 0x3EB3_3333, // 0.35
                phase_gain: 0x3F59_999A, // 0.85
                fractal_gain: 0x3DA3_D70A, // 0.08
                quasiperiodic_gain: 0x3DF5_C28F, // 0.12
                cyclic_gain: 0x3E61_47AE, // 0.22
                coord_gain: 0x3DF5_C28F, // 0.12
                state_skip: 0x3F40_0000, // 0.75
                chroma: 0x3E4C_CCCD, // 0.20
                ..c
            },
            StylePreset::FractalFlame => RunConfig {
                style: style,
                reaction_gain: 0x3E61_47AE, // 0.22
                phase_gain: 0x3ED7_0A3D, // 0.42
                fractal_gain: 0x3EAE_147B, // 0.34
                quasiperiodic_gain: 0x3E19_999A, // 0.15
                cyclic_gain: 0x3E23_D70A, // 0.16
                coord_gain: 0x3E38_51EC, // 0.18
                state_skip: 0x3F73_3333, // 0.95
                chroma: 0x3E61_47AE, // 0.22
                ..c
            },
            StylePreset::ReactionGarden => RunConfig {
                style: style,
                reaction_gain: 0x3F73_3333, // 0.95
                phase_gain: 0x3E38_51EC, // 0.18
                fractal_gain: 0x3D0F_5C29, // 0.035
                quasiperiodic_gain: 0x3D4C_CCCD, // 0.05
                cyclic_gain: 0x3E8F_5C29, // 0.28
                coord_gain: 0x3DA3_D70A, // 0.08
                state_skip: 0x3F51_EB85, // 0.82
                chroma: 0x3E38_51EC, // 0.18
                ..c
            },
            StylePreset::Quasicrystal => RunConfig {
                style: style,
                reaction_gain: 0x3E23_D70A, // 0.16
                phase_gain: 0x3F05_1EB8, // 0.52
                fractal_gain: 0x3D8F_5C29, // 0.07
                quasiperiodic_gain: 0x3EAE_147B, // 0.34
                cyclic_gain: 0x3E4C_CCCD, // 0.20
                coord_gain: 0x3E8F_5C29, // 0.28
                state_skip: 0x3F38_51EC, // 0.72
                chroma: 0x3E57_0A3D, // 0.21
                ..c
            },
            StylePreset::PureNca => RunConfig {
                style: style,
                reaction_gain: 0x0000_0000, // 0.0
                phase_gain: 0x0000_0000, // 0.0
                fractal_gain: 0x0000_0000, // 0.0
                quasiperiodic_gain: 0x0000_0000, // 0.0
                cyclic_gain: 0x0000_0000, // 0.0
                coord_gain: 0x3DA3_D70A, // 0.08
                state_skip: 0x3F19_999A, // 0.60
                chroma: 0x3E38_51EC, // 0.18
                ..c
            },
        }
    }

    pub(crate) fn into_research_preset(self, preset: ResearchPreset) -> (r: RunConfig)
        ensures
            r == with_research_preset(self, preset),
    {
        let c = self;
        match preset {
            ResearchPreset::StrictReconstruct => RunConfig {
                research_preset: preset,
                objective: ObjectiveMode::ReconstructionPlus,
                conditioning: ConditioningMode::Reconstruct,
                reference_fidelity_max: 0x3F80_0000, // 1.0
                reconstruction: ReconstructionConfig {
                    grounding_strength: 0x3FA0_0000, // 1.25
                    emergence_strength: 0x3D4C_CCCD, // 0.05
                    grounding_floor: 0x3F73_3333, // 0.95
                    emergence_low_budget: 0x0000_0000, // 0.0
                    emergence_mid_budget: 0x3DCC_CCCD, // 0.10
                    loss_ground_coarse: 0x4040_0000, // 3.0
                    loss_ground_mid: 0x4000_0000, // 2.0
                    loss_ground_fine: 0x3FA0_0000, // 1.25
                    ..c.reconstruction
                },
                detail: DetailConfig {
                    probability: 0x3E80_0000, // 0.25
                    ..c.detail
                },
                ..c
            },
            ResearchPreset::ReconstructionPlus => RunConfig {
                research_preset: preset,
                objective: ObjectiveMode::ReconstructionPlus,
                conditioning: ConditioningMode::Reconstruct,
                reference_fidelity_max: 0x3F80_0000, // 1.0
                ..c
            },
            ResearchPreset::GroundedEmergent => RunConfig {
                research_preset: preset,
                objective: ObjectiveMode::ReconstructionPlus,
                conditioning: ConditioningMode::Reconstruct,
                reference_fidelity_max: 0x3F80_0000, // 1.0
                reconstruction: ReconstructionConfig {
                    emergence_strength: 0x3F33_3333, // 0.70
                    emergence_start: 0x3E4C_CCCD, // 0.20
                    grounding_floor: 0x3F26_6666, // 0.65
                    loss_emergent_low: 0x3DA3_D70A, // 0.08
                    emergence_low_budget: 0x3E19_999A, // 0.15
                    emergence_mid_budget: 0x3F26_6666, // 0.65
                    ..c.reconstruction
                },
                morph_growth: MorphGrowthConfig {
                    mode: MorphDepthMode::Adaptive,
                    ..c.morph_growth
                },
                ..c
            },
            ResearchPreset::FreeMorph => RunConfig {
                research_preset: preset,
                objective: ObjectiveMode::ReconstructionPlus,
                conditioning: ConditioningMode::Hybrid,
                reference_fidelity_min: 0x0000_0000, // 0.0
                reference_fidelity_max: 0x3EE6_6666, // 0.45
                reference_dropout: 0x3EB3_3333, // 0.35
                reconstruction: ReconstructionConfig {
                    emergence_strength: 0x3F80_0000, // 1.0
                    emergence_start: 0x3DCC_CCCD, // 0.10
                    grounding_floor: 0x3E80_0000, // 0.25
                    loss_emergent_low: 0x3CA3_D70A, // 0.02
                    emergence_low_budget: 0x3F00_0000, // 0.50
                    emergence_mid_budget: 0x3F80_0000, // 1.0
                    ..c.reconstruction
                },
                morph_growth: MorphGrowthConfig {
                    mode: MorphDepthMode::Adaptive,
                    ..c.morph_growth
                },
                ..c
            },
            ResearchPreset::FlowReconstruct => RunConfig {
                research_preset: preset,
                objective: ObjectiveMode::HybridFlow,
                conditioning: ConditioningMode::Reconstruct,
                reference_fidelity_max: 0x3F80_0000, // 1.0
                reconstruction: ReconstructionConfig {
                    emergence_strength: 0x3E4C_CCCD, // 0.20
                    ..c.reconstruction
                },
                flow: FlowConfig {
                    weight: 0x3DCC_CCCD, // 0.10
                    endpoint_weight: 0x3F80_0000, // 1.0
                    ..c.flow
                },
                ..c
            },
        }
    }
    /// Applies a phone profile: sizes, cadences and resolutions for that device.
    pub fn apply_profile(&mut self, profile: PhoneProfile)
        ensures
            *final(self) == with_profile(*old(self), profile),
    {
        let mut current = RunConfig::default_for(None);
        std::mem::swap(self, &mut current);
        *self = current.into_profile(profile);
    }

    /// Applies a style preset: the physical operator gains.
    pub fn apply_style(&mut self, style: StylePreset)
        ensures
            *final(self) == with_style(*old(self), style),
    {
        let mut current = RunConfig::default_for(None);
        std::mem::swap(self, &mut current);
        *self = current.into_style(style);
    }

    /// Applies a research preset: the objective and its reconstruction schedule.
    pub fn apply_research_preset(&mut self, preset: ResearchPreset)
        ensures
            *final(self) == with_research_preset(*old(self), preset),
    {
        let mut current = RunConfig::default_for(None);
        std::mem::swap(self, &mut current);
        *self = current.into_research_preset(preset);
    }
}

/// What each profile sets: the settings it names take its values, and every
/// other setting keeps the value it had.
pub proof fn lemma_with_profile_settings(c: RunConfig)
    ensures
        with_profile(c, PhoneProfile::S25Fast) == (RunConfig {
            profile: PhoneProfile::S25Fast,
            micro_size: 48,
            macro_size: 24,
            channels: 16,
            genome_dim: 6,
            ca_hidden: 96,
            interface_grid: 4,
            interface_width: 96,
            interface_loops: 2,
            morph_layers: 4,
            morph_depth: 2,
            render_hidden: 80,
            render_blocks: 3,
            coord_bands: 3,
            train_resolution: 128,
            output_resolution: 512,
            snapshot_resolution: 256,
            bptt: 4,
            core_update_every: 2,
            episode_steps: 48,
            snapshot_every: 50,
            checkpoint_every: 480,
            gallery_steps: 48,
            morph_growth: MorphGrowthConfig {
                min_depth: 2,
                max_depth: 4,
                ..c.morph_growth
            },
            detail: DetailConfig {
                resolution: 96,
                probability: 0x3E19_999A, // 0.15
                ..c.detail
            },
            ..c
        }),
        with_profile(c, PhoneProfile::S25Balanced) == (RunConfig {
            profile: PhoneProfile::S25Balanced,
            micro_size: 64,
            macro_size: 32,
            channels: 24,
            genome_dim: 8,
            ca_hidden: 128,
            render_hidden: 128,
            interface_grid: 8,
            interface_width: 128,
            interface_loops: 3,
            morph_layers: 6,
            morph_depth: 3,
            render_blocks: 4,
            coord_bands: 4,
            train_resolution: 192,
            output_resolution: 768,
            snapshot_resolution: 384,
            bptt: 4,
            core_update_every: 2,
            episode_steps: 64,
            snapshot_every: 50,
            checkpoint_every: 400,
            gallery_steps: 64,
            morph_growth: MorphGrowthConfig {
                min_depth: 3,
                max_depth: 6,
                ..c.morph_growth
            },
            detail: DetailConfig {
                resolution: 128,
                probability: 0x3E4C_CCCD, // 0.20
                ..c.detail
            },
            ..c
        }),
        with_profile(c, PhoneProfile::S25Quality) == (RunConfig {
            profile: PhoneProfile::S25Quality,
            micro_size: 80,
            macro_size: 40,
            channels: 32,
            genome_dim: 12,
            ca_hidden: 192,
            render_hidden: 160,
            interface_grid: 8,
            interface_width: 160,
            interface_loops: 4,
            morph_layers: 8,
            morph_depth: 4,
            render_blocks: 5,
            coord_bands: 5,
            train_resolution: 256,
            output_resolution: 1024,
            snapshot_resolution: 512,
            bptt: 4,
            core_update_every: 1,
            episode_steps: 80,
            snapshot_every: 50,
            checkpoint_every: 400,
            gallery_steps: 80,
            morph_growth: MorphGrowthConfig {
                min_depth: 4,
                max_depth: 8,
                ..c.morph_growth
            },
            detail: DetailConfig {
                resolution: 192,
                probability: 0x3E80_0000, // 0.25
                ..c.detail
            },
            ..c
        }),
{
}

/// What each style sets: the settings it names take its values, and every
/// other setting keeps the value it had.
pub proof fn lemma_with_style_settings(c: RunConfig)
    ensures
        with_style(c, StylePreset::AlienFluid) == (RunConfig {
            style: StylePreset::AlienFluid,
            reaction_gain: 0x3EB3_3333, // 0.35
            phase_gain: 0x3F59_999A, // 0.85
            fractal_gain: 0x3DA3_D70A, // 0.08
            quasiperiodic_gain: 0x3DF5_C28F, // 0.12
            cyclic_gain: 0x3E61_47AE, // 0.22
            coord_gain: 0x3DF5_C28F, // 0.12
            state_skip: 0x3F40_0000, // 0.75
            chroma: 0x3E4C_CCCD, // 0.20
            ..c
        }),
        with_style(c, StylePreset::FractalFlame) == (RunConfig {
            style: StylePreset::FractalFlame,
            reaction_gain: 0x3E61_47AE, // 0.22
            phase_gain: 0x3ED7_0A3D, // 0.42
            fractal_gain: 0x3EAE_147B, // 0.34
            quasiperiodic_gain: 0x3E19_999A, // 0.15
            cyclic_gain: 0x3E23_D70A, // 0.16
            coord_gain: 0x3E38_51EC, // 0.18
            state_skip: 0x3F73_3333, // 0.95
            chroma: 0x3E61_47AE, // 0.22
            ..c
        }),
        with_style(c, StylePreset::ReactionGarden) == (RunConfig {
            style: StylePreset::ReactionGarden,
            reaction_gain: 0x3F73_3333, // 0.95
            phase_gain: 0x3E38_51EC, // 0.18
            fractal_gain: 0x3D0F_5C29, // 0.035
            quasiperiodic_gain: 0x3D4C_CCCD, // 0.05
            cyclic_gain: 0x3E8F_5C29, // 0.28
            coord_gain: 0x3DA3_D70A, // 0.08
            state_skip: 0x3F51_EB85, // 0.82
            chroma: 0x3E38_51EC, // 0.18
            ..c
        }),
        with_style(c, StylePreset::Quasicrystal) == (RunConfig {
            style: StylePreset::Quasicrystal,
            reaction_gain: 0x3E23_D70A, // 0.16
            phase_gain: 0x3F05_1EB8, // 0.52
            fractal_gain: 0x3D8F_5C29, // 0.07
            quasiperiodic_gain: 0x3EAE_147B, // 0.34
            cyclic_gain: 0x3E4C_CCCD, // 0.20
            coord_gain: 0x3E8F_5C29, // 0.28
            state_skip: 0x3F38_51EC, // 0.72
            chroma: 0x3E57_0A3D, // 0.21
            ..c
        }),
        with_style(c, StylePreset::PureNca) == (RunConfig {
            style: StylePreset::PureNca,
            reaction_gain: 0x0000_0000, // 0.0
            phase_gain: 0x0000_0000, // 0.0
            fractal_gain: 0x0000_0000, // 0.0
            quasiperiodic_gain: 0x0000_0000, // 0.0
            cyclic_gain: 0x0000_0000, // 0.0
            coord_gain: 0x3DA3_D70A, // 0.08
            state_skip: 0x3F19_999A, // 0.60
            chroma: 0x3E38_51EC, // 0.18
            ..c
        }),
{
}

/// What each research preset sets: the settings it names take its values, and every
/// other setting keeps the value it had.
pub proof fn lemma_with_research_preset_settings(c: RunConfig)
    ensures
        with_research_preset(c, ResearchPreset::StrictReconstruct) == (RunConfig {
            research_preset: ResearchPreset::StrictReconstruct,
            objective: ObjectiveMode::ReconstructionPlus,
            conditioning: ConditioningMode::Reconstruct,
            reference_fidelity_max: 0x3F80_0000, // 1.0
            reconstruction: ReconstructionConfig {
                grounding_strength: 0x3FA0_0000, // 1.25
                emergence_strength: 0x3D4C_CCCD, // 0.05
                grounding_floor: 0x3F73_3333, // 0.95
                emergence_low_budget: 0x0000_0000, // 0.0
                emergence_mid_budget: 0x3DCC_CCCD, // 0.10
                loss_ground_coarse: 0x4040_0000, // 3.0
                loss_ground_mid: 0x4000_0000, // 2.0
                loss_ground_fine: 0x3FA0_0000, // 1.25
                ..c.reconstruction
            },
            detail: DetailConfig {
                probability: 0x3E80_0000, // 0.25
                ..c.detail
            },
            ..c
        }),
        with_research_preset(c, ResearchPreset::ReconstructionPlus) == (RunConfig {
            research_preset: ResearchPreset::ReconstructionPlus,
            objective: ObjectiveMode::ReconstructionPlus,
            conditioning: ConditioningMode::Reconstruct,
            reference_fidelity_max: 0x3F80_0000, // 1.0
            ..c
        }),
        with_research_preset(c, ResearchPreset::GroundedEmergent) == (RunConfig {
            research_preset: ResearchPreset::GroundedEmergent,
            objective: ObjectiveMode::ReconstructionPlus,
            conditioning: ConditioningMode::Reconstruct,
            reference_fidelity_max: 0x3F80_0000, // 1.0
            reconstruction: ReconstructionConfig {
                emergence_strength: 0x3F33_3333, // 0.70
                emergence_start: 0x3E4C_CCCD, // 0.20
                grounding_floor: 0x3F26_6666, // 0.65
                loss_emergent_low: 0x3DA3_D70A, // 0.08
                emergence_low_budget: 0x3E19_999A, // 0.15
                emergence_mid_budget: 0x3F26_6666, // 0.65
                ..c.reconstruction
            },
            morph_growth: MorphGrowthConfig {
                mode: MorphDepthMode::Adaptive,
                ..c.morph_growth
            },
            ..c
        }),
        with_research_preset(c, ResearchPreset::FreeMorph) == (RunConfig {
            research_preset: ResearchPreset::FreeMorph,
            objective: ObjectiveMode::ReconstructionPlus,
            conditioning: ConditioningMode::Hybrid,
            reference_fidelity_min: 0x0000_0000, // 0.0
            reference_fidelity_max: 0x3EE6_6666, // 0.45
            reference_dropout: 0x3EB3_3333, // 0.35
            reconstruction: ReconstructionConfig {
                emergence_strength: 0x3F80_0000, // 1.0
                emergence_start: 0x3DCC_CCCD, // 0.10
                grounding_floor: 0x3E80_0000, // 0.25
                loss_emergent_low: 0x3CA3_D70A, // 0.02
                emergence_low_budget: 0x3F00_0000, // 0.50
                emergence_mid_budget: 0x3F80_0000, // 1.0
                ..c.reconstruction
            },
            morph_growth: MorphGrowthConfig {
                mode: MorphDepthMode::Adaptive,
                ..c.morph_growth
            },
            ..c
        }),
        with_research_preset(c, ResearchPreset::FlowReconstruct) == (RunConfig {
            research_preset: ResearchPreset::FlowReconstruct,
            objective: ObjectiveMode::HybridFlow,
            conditioning: ConditioningMode::Reconstruct,
            reference_fidelity_max: 0x3F80_0000, // 1.0
            reconstruction: ReconstructionConfig {
                emergence_strength: 0x3E4C_CCCD, // 0.20
                ..c.reconstruction
            },
            flow: FlowConfig {
                weight: 0x3DCC_CCCD, // 0.10
                endpoint_weight: 0x3F80_0000, // 1.0
                ..c.flow
            },
            ..c
        }),
{
}

/// The values of the resolved defaults, setting by setting.
pub proof fn lemma_default_values(c: RunConfig, threads: usize)
    requires
        is_default_config(c, threads),
    ensures
        c.corpus_dir@ == "/sdcard/Download/titan_image_sources"@,
        c.output_dir@ == "/sdcard/Download/titan_image_v9"@,
        c.run_tag is None,
        c.mode == TrainingMode::Family,
        c.profile == PhoneProfile::S25Balanced,
        c.style == StylePreset::AlienFluid,
        c.research_preset == ResearchPreset::ReconstructionPlus,
        c.objective == ObjectiveMode::ReconstructionPlus,
        c.reconstruction.grounding_strength == 0x3F80_0000, // 1.0
        c.reconstruction.emergence_strength == 0x3EB3_3333, // 0.35
        c.reconstruction.emergence_start == 0x3E80_0000, // 0.25
        c.reconstruction.emergence_ramp == 0x3F00_0000, // 0.50
        c.reconstruction.grounding_floor == 0x3F33_3333, // 0.70
        c.reconstruction.emergent_limit == 0x3E99_999A, // 0.30
        c.reconstruction.emergence_low_budget == 0x3D4C_CCCD, // 0.05
        c.reconstruction.emergence_mid_budget == 0x3EB3_3333, // 0.35
        c.reconstruction.local_reference_gain == 0x3DF5_C28F, // 0.12
        c.reconstruction.loss_composite == 0x3F80_0000, // 1.0
        c.reconstruction.loss_ground_coarse == 0x4020_0000, // 2.5
        c.reconstruction.loss_ground_mid == 0x3FC0_0000, // 1.5
        c.reconstruction.loss_ground_fine == 0x3F40_0000, // 0.75
        c.reconstruction.loss_emergent_low == 0x3E4C_CCCD, // 0.20
        c.reconstruction.loss_emergent_tv == 0x3C75_C28F, // 0.015
        c.reconstruction.loss_emergent_fit == 0x3E80_0000, // 0.25
        c.reconstruction.loss_head_redundancy == 0x3C23_D70A, // 0.01
        c.reconstruction.loss_cross_resolution == 0x3D4C_CCCD, // 0.05
        c.detail.probability == 0x3E4C_CCCD, // 0.20
        c.detail.resolution == 128,
        c.detail.min_zoom == 0x4000_0000, // 2.0
        c.detail.max_zoom == 0x4100_0000, // 8.0
        c.detail.curriculum_start == 0x3EB3_3333, // 0.35
        c.detail.cache_max_level == 1536,
        c.detail.cache_dir is None,
        c.detail.boundary == BoundaryMode::Natural,
        c.morph_growth.mode == MorphDepthMode::Fixed,
        c.morph_growth.min_depth == 3,
        c.morph_growth.max_depth == 6,
        c.morph_growth.interval == 512,
        c.morph_growth.plateau_window == 128,
        c.morph_growth.plateau_epsilon == 0x3B03_126F, // 0.002
        c.morph_growth.seam_threshold == 0x3D4C_CCCD, // 0.05
        c.flow.weight == 0x3DCC_CCCD, // 0.10
        c.flow.endpoint_weight == 0x3F80_0000, // 1.0
        c.flow.resolution == 64,
        c.flow.cadence == 4,
        c.flow.min_time == 0x0000_0000, // 0.0
        c.flow.max_time == 0x3F80_0000, // 1.0
        c.flow.hidden == 64,
        c.flow.sample_steps == 16,
        c.analysis.only == false,
        c.analysis.render_attribution == false,
        c.analysis.model_stats == false,
        c.analysis.autonomous_horizon == 0,
        c.analysis.perturbation_horizon == 0,
        c.analysis.dynamics_horizon == 0,
        c.analysis.stride == 32,
        c.analysis.emergence_gallery == true,
        c.analysis.benchmark == false,
        c.analysis.compare_v8_dir is None,
        c.analysis.probe_dir is None,
        c.analysis.probe_ages@ == seq![1usize, 8usize, 16usize, 32usize, 64usize],
        c.analysis.probe_reference_fidelities@ == seq![0x3F80_0000u32, 0x3F00_0000u32, 0x3E80_0000u32, 0x3DCC_CCCDu32, 0x0000_0000u32],
        c.steps == 1600,
        c.threads == threads,
        c.seed == 42,
        c.micro_size == 64,
        c.macro_size == 32,
        c.channels == 24,
        c.genome_dim == 8,
        c.ca_hidden == 128,
        c.interface_grid == 8,
        c.interface_width == 128,
        c.interface_loops == 3,
        c.morph_layers == 6,
        c.morph_depth == 3,
        c.morph_residual_gain == 0x3CA3_D70A, // 0.02
        c.memory_limit == 0x4040_0000, // 3.0
        c.interface_gain == 0x3E38_51EC, // 0.18
        c.conditioning == ConditioningMode::Reconstruct,
        c.reference_fidelity_min == 0x3E19_999A, // 0.15
        c.reference_fidelity_max == 0x3F80_0000, // 1.0
        c.reference_dropout == 0x3E19_999A, // 0.15
        c.render_hidden == 128,
        c.render_blocks == 4,
        c.coord_bands == 4,
        c.coord_gain == 0x3DF5_C28F, // 0.12
        c.state_skip == 0x3F40_0000, // 0.75
        c.chroma == 0x3E4C_CCCD, // 0.20
        c.gamma == 0x400C_CCCD, // 2.2
        c.train_resolution == 192,
        c.output_resolution == 768,
        c.snapshot_resolution == 384,
        c.episode_steps == 64,
        c.episode_reset == 0x3F59_999A, // 0.85
        c.memory_reset == 0x3F80_0000, // 1.0
        c.bptt == 4,
        c.core_update_every == 2,
        c.macro_update_every == 4,
        c.snapshot_every == 50,
        c.checkpoint_every == 400,
        c.log_every == 10,
        c.terminal == TerminalMode::Compact,
        c.image_cache == 32,
        c.recursive_corpus == false,
        c.learning_rate == 0x3F43_A92A_3055_3261, // 6e-4
        c.weight_decay == 0x3F50_624D_D2F1_A9FC, // 1e-3
        c.beta1 == 0x3FEC_CCCC_CCCC_CCCD, // 0.9
        c.beta2 == 0x3FEF_F7CE_D916_872B, // 0.999
        c.adam_epsilon == 0x3E45_798E_E230_8C3A, // 1e-8
        c.grad_clip == 0x3FF0_0000_0000_0000, // 1.0
        c.warmup_updates == 48,
        c.optimizer == OptimizerKind::AdamW,
        c.muon_momentum == 0x3FEE_6666_6666_6666, // 0.95
        c.muon_ns_steps == 5,
        c.integrator == Integrator::Euler,
        c.dt == 0x3DF5_C28F, // 0.12
        c.state_limit == 0x4060_0000, // 3.5
        c.state_soft_limit == 0x3FC0_0000, // 1.5
        c.clock_probability == 0x3F38_51EC, // 0.72
        c.nca_gain == 0x3E80_0000, // 0.25
        c.reaction_gain == 0x3EB3_3333, // 0.35
        c.state_leak == 0x3DCC_CCCD, // 0.10
        c.phase_gain == 0x3F59_999A, // 0.85
        c.fractal_gain == 0x3DA3_D70A, // 0.08
        c.quasiperiodic_gain == 0x3DF5_C28F, // 0.12
        c.cyclic_gain == 0x3E61_47AE, // 0.22
        c.rd_diffusion_u == 0x3E23_D70A, // 0.16
        c.rd_diffusion_v == 0x3DA3_D70A, // 0.08
        c.rd_feed == 0x3D0F_5C29, // 0.035
        c.rd_kill == 0x3D79_DB23, // 0.061
        c.phase_growth == 0x3E8F_5C29, // 0.28
        c.phase_saturation == 0x3ED7_0A3D, // 0.42
        c.phase_frequency == 0x3F38_51EC, // 0.72
        c.phase_diffusion == 0x3DF5_C28F, // 0.12
        c.phase_dispersion == 0x3D0F_5C29, // 0.035
        c.loss_content == 0x3F80_0000, // 1.0
        c.loss_palette == 0x3F8C_CCCD, // 1.1
        c.loss_structure == 0x3F40_0000, // 0.75
        c.loss_seam == 0x3DA3_D70A, // 0.08
        c.loss_gamut == 0x3E38_51EC, // 0.18
        c.loss_state == 0x3CA3_D70A, // 0.02
        c.loss_memory == 0x3B03_126F, // 0.002
        c.max_saturation_fraction == 0x3E80_0000, // 0.25
        c.stability_patience == 8,
        c.mastering_strength == 0x3F40_0000, // 0.75
        c.save_state_atlas == true,
        c.gallery == 4,
        c.gallery_steps == 64,
        c.gallery_stride == 16,
        c.gallery_seed == 0x5eed_5eed,
        c.fresh == false,
        c.render_only == false,
        is_default_experiment(c.experiment),
{
}

/// The default worker count: what the machine offers, at most 8, or 4 where it
/// offers nothing.
pub proof fn lemma_default_threads(available: Option<usize>)
    ensures
        available is None ==> default_threads(available) == 4,
        available matches Some(n) ==> default_threads(available) == (if n < 8 { n } else { 8 }),
{
}

} // verus!
