//! Configuration fingerprints that decide checkpoint compatibility.
use vstd::prelude::*;
use crate::fnv::{fnv_fold, fnv_fold_words, FNV_OFFSET_BASIS};
use crate::run_config::{DetailConfig, MorphGrowthConfig, RunConfig, SCHEMA_VERSION};
use crate::experiment::{
    experiment_signature, lemma_legacy_settings_keep_signature,
    lemma_signature_ignores_diagnostics_and_panel, TrainingExperiment,
};

verus! {

/// Every setting that changes learned evolution or gradients, in signature
/// order: schema, categorical modes, then each scalar (IEEE bits widened to 64
/// bits) or size. Paths, output-only sizes, analysis requests, gallery
/// controls and morph capacity are not among them.
pub open spec fn checkpoint_words(c: RunConfig) -> Seq<u64> {
    seq![
        SCHEMA_VERSION as u64,
        c.mode.ordinal(),
        c.integrator.ordinal(),
        c.style.ordinal(),
        c.objective.ordinal(),
        c.reconstruction.grounding_strength as u64,
        c.reconstruction.emergence_strength as u64,
        c.reconstruction.emergence_start as u64,
        c.reconstruction.emergence_ramp as u64,
        c.reconstruction.grounding_floor as u64,
        c.reconstruction.emergent_limit as u64,
        c.reconstruction.emergence_low_budget as u64,
        c.reconstruction.emergence_mid_budget as u64,
        c.reconstruction.local_reference_gain as u64,
        c.reconstruction.loss_composite as u64,
        c.reconstruction.loss_ground_coarse as u64,
        c.reconstruction.loss_ground_mid as u64,
        c.reconstruction.loss_ground_fine as u64,
        c.reconstruction.loss_emergent_low as u64,
        c.reconstruction.loss_emergent_tv as u64,
        c.reconstruction.loss_emergent_fit as u64,
        c.reconstruction.loss_head_redundancy as u64,
        c.reconstruction.loss_cross_resolution as u64,
        c.detail.probability as u64,
        c.detail.resolution as u64,
        c.detail.min_zoom as u64,
        c.detail.max_zoom as u64,
        c.detail.curriculum_start as u64,
        c.detail.cache_max_level as u64,
        c.detail.boundary.ordinal(),
        c.morph_growth.mode.ordinal(),
        c.morph_growth.interval as u64,
        c.morph_growth.plateau_window as u64,
        c.morph_growth.plateau_epsilon as u64,
        c.morph_growth.seam_threshold as u64,
        c.flow.weight as u64,
        c.flow.endpoint_weight as u64,
        c.flow.min_time as u64,
        c.flow.max_time as u64,
        c.flow.hidden as u64,
        c.flow.sample_steps as u64,
        c.flow.resolution as u64,
        c.flow.cadence as u64,
        c.seed,
        c.micro_size as u64,
        c.macro_size as u64,
        c.channels as u64,
        c.genome_dim as u64,
        c.ca_hidden as u64,
        c.interface_grid as u64,
        c.interface_width as u64,
        c.interface_loops as u64,
        c.morph_residual_gain as u64,
        c.memory_limit as u64,
        c.interface_gain as u64,
        c.conditioning.ordinal(),
        c.reference_fidelity_min as u64,
        c.reference_fidelity_max as u64,
        c.reference_dropout as u64,
        c.render_hidden as u64,
        c.render_blocks as u64,
        c.coord_bands as u64,
        c.coord_gain as u64,
        c.state_skip as u64,
        c.chroma as u64,
        c.gamma as u64,
        c.train_resolution as u64,
        c.episode_steps as u64,
        c.episode_reset as u64,
        c.bptt as u64,
        c.memory_reset as u64,
        c.core_update_every as u64,
        c.macro_update_every as u64,
        c.learning_rate as u64,
        c.weight_decay as u64,
        c.beta1 as u64,
        c.beta2 as u64,
        c.adam_epsilon as u64,
        c.grad_clip as u64,
        c.warmup_updates as u64,
        c.optimizer.ordinal(),
        c.muon_momentum as u64,
        c.muon_ns_steps as u64,
        c.dt as u64,
        c.state_limit as u64,
        c.clock_probability as u64,
        c.state_soft_limit as u64,
        c.nca_gain as u64,
        c.state_leak as u64,
        c.reaction_gain as u64,
        c.phase_gain as u64,
        c.fractal_gain as u64,
        c.quasiperiodic_gain as u64,
        c.cyclic_gain as u64,
        c.rd_diffusion_u as u64,
        c.rd_diffusion_v as u64,
        c.rd_feed as u64,
        c.rd_kill as u64,
        c.phase_growth as u64,
        c.phase_saturation as u64,
        c.phase_frequency as u64,
        c.phase_diffusion as u64,
        c.phase_dispersion as u64,
        c.loss_content as u64,
        c.loss_palette as u64,
        c.loss_structure as u64,
        c.loss_seam as u64,
        c.loss_gamut as u64,
        c.loss_state as u64,
        c.loss_memory as u64,
        c.max_saturation_fraction as u64,
        c.stability_patience as u64,
    ]
}

/// The checkpoint signature of `c`: its checkpoint words folded from the FNV
/// basis, then the run's opt-in training settings folded in over that value,
/// with `settings` and `penalty` the encodings that the experiment folds.
pub open spec fn checkpoint_signature_of(c: RunConfig, settings: Seq<u8>, penalty: Seq<u8>) -> u64 {
    experiment_signature(c.experiment, fnv_fold(FNV_OFFSET_BASIS, checkpoint_words(c)), settings, penalty)
}

/// The checkpoint signature followed by the morph capacity and research preset.
pub open spec fn resolved_words(c: RunConfig, settings: Seq<u8>, penalty: Seq<u8>) -> Seq<u64> {
    seq![
        checkpoint_signature_of(c, settings, penalty),
        c.morph_layers as u64,
        c.morph_depth as u64,
        c.morph_growth.min_depth as u64,
        c.morph_growth.max_depth as u64,
        c.research_preset.ordinal(),
    ]
}

/// `c` with every setting outside the checkpoint signature taken from `other`:
/// paths and run tag, the profile and research-preset labels, morph capacity,
/// step budget, threads, output and preview sizes, cadences of snapshots,
/// checkpoints and logs, console and cache controls, mastering, atlas and
/// gallery controls, lifecycle flags, every analysis request, and the
/// experiment's output-only diagnostics and evaluation panel.
pub open spec fn with_untracked_settings_of(c: RunConfig, other: RunConfig) -> RunConfig {
    RunConfig {
        experiment: TrainingExperiment {
            optimizer_diagnostics: other.experiment.optimizer_diagnostics,
            panel: other.experiment.panel,
            ..c.experiment
        },
        corpus_dir: other.corpus_dir,
        output_dir: other.output_dir,
        run_tag: other.run_tag,
        profile: other.profile,
        research_preset: other.research_preset,
        detail: DetailConfig { cache_dir: other.detail.cache_dir, ..c.detail },
        morph_growth: MorphGrowthConfig {
            min_depth: other.morph_growth.min_depth,
            max_depth: other.morph_growth.max_depth,
            ..c.morph_growth
        },
        analysis: other.analysis,
        steps: other.steps,
        threads: other.threads,
        morph_layers: other.morph_layers,
        morph_depth: other.morph_depth,
        output_resolution: other.output_resolution,
        snapshot_resolution: other.snapshot_resolution,
        snapshot_every: other.snapshot_every,
        checkpoint_every: other.checkpoint_every,
        log_every: other.log_every,
        terminal: other.terminal,
        image_cache: other.image_cache,
        recursive_corpus: other.recursive_corpus,
        mastering_strength: other.mastering_strength,
        save_state_atlas: other.save_state_atlas,
        gallery: other.gallery,
        gallery_steps: other.gallery_steps,
        gallery_stride: other.gallery_stride,
        gallery_seed: other.gallery_seed,
        fresh: other.fresh,
        render_only: other.render_only,
        ..c
    }
}

/// A checkpoint stays compatible across changes of output-only settings: the
/// checkpoint signature ignores everything `with_untracked_settings_of` replaces.
pub proof fn lemma_checkpoint_signature_ignores_untracked(
    c: RunConfig,
    other: RunConfig,
    settings: Seq<u8>,
    penalty: Seq<u8>,
)
    ensures
        checkpoint_words(with_untracked_settings_of(c, other)) == checkpoint_words(c),
        checkpoint_signature_of(with_untracked_settings_of(c, other), settings, penalty)
            == checkpoint_signature_of(c, settings, penalty),
{
    let legacy = fnv_fold(FNV_OFFSET_BASIS, checkpoint_words(c));
    lemma_signature_ignores_diagnostics_and_panel(
        c.experiment,
        other.experiment.optimizer_diagnostics,
        other.experiment.panel,
        legacy,
        settings,
        penalty,
    );
}

/// While the experiment keeps legacy normalization, withdraws nothing and puts
/// no penalty in effect, the checkpoint signature is the fold of the checkpoint
/// words alone, whatever the encodings.
pub proof fn lemma_inactive_experiment_keeps_checkpoint_signature(
    c: RunConfig,
    settings: Seq<u8>,
    penalty: Seq<u8>,
)
    requires
        c.experiment.keeps_legacy_base(),
        c.experiment.spec_active_penalty() is None,
    ensures
        checkpoint_signature_of(c, settings, penalty) == fnv_fold(FNV_OFFSET_BASIS, checkpoint_words(c)),
{
    lemma_legacy_settings_keep_signature(
        c.experiment,
        fnv_fold(FNV_OFFSET_BASIS, checkpoint_words(c)),
        settings,
        penalty,
    );
}

/// The resolved signature differs from the checkpoint signature only by the
/// morph capacity and research preset: two configurations that agree on those
/// and on the checkpoint words have the same resolved signature.
pub proof fn lemma_resolved_signature_extends_checkpoint(
    c: RunConfig,
    d: RunConfig,
    settings: Seq<u8>,
    penalty: Seq<u8>,
)
    requires
        checkpoint_signature_of(c, settings, penalty) == checkpoint_signature_of(d, settings, penalty),
        c.morph_layers == d.morph_layers,
        c.morph_depth == d.morph_depth,
        c.morph_growth.min_depth == d.morph_growth.min_depth,
        c.morph_growth.max_depth == d.morph_growth.max_depth,
        c.research_preset == d.research_preset,
    ensures
        resolved_words(c, settings, penalty) == resolved_words(d, settings, penalty),
{
}

impl RunConfig {
    /// Fingerprint of every setting that changes learned evolution or gradients.
    /// Corpus identity is stored separately; paths and output-only controls are excluded.
    /// `experiment_settings` and `saturation_penalty` are the encodings that
    /// `TrainingExperiment::signature` folds; the default experiment folds neither.
    pub fn checkpoint_signature(&self, experiment_settings: &[u8], saturation_penalty: &[u8]) -> (r: u64)
        ensures
            r == checkpoint_signature_of(*self, experiment_settings@, saturation_penalty@),
    {
        let values: Vec<u64> = vec![
            SCHEMA_VERSION as u64,
            self.mode.code(),
            self.integrator.code(),
            self.style.code(),
            self.objective.code(),
            self.reconstruction.grounding_strength as u64,
            self.reconstruction.emergence_strength as u64,
            self.reconstruction.emergence_start as u64,
            self.reconstruction.emergence_ramp as u64,
            self.reconstruction.grounding_floor as u64,
            self.reconstruction.emergent_limit as u64,
            self.reconstruction.emergence_low_budget as u64,
            self.reconstruction.emergence_mid_budget as u64,
            self.reconstruction.local_reference_gain as u64,
            self.reconstruction.loss_composite as u64,
            self.reconstruction.loss_ground_coarse as u64,
            self.reconstruction.loss_ground_mid as u64,
            self.reconstruction.loss_ground_fine as u64,
            self.reconstruction.loss_emergent_low as u64,
            self.reconstruction.loss_emergent_tv as u64,
            self.reconstruction.loss_emergent_fit as u64,
            self.reconstruction.loss_head_redundancy as u64,
            self.reconstruction.loss_cross_resolution as u64,
            self.detail.probability as u64,
            self.detail.resolution as u64,
            self.detail.min_zoom as u64,
            self.detail.max_zoom as u64,
            self.detail.curriculum_start as u64,
            self.detail.cache_max_level as u64,
            self.detail.boundary.code(),
            self.morph_growth.mode.code(),
            self.morph_growth.interval as u64,
            self.morph_growth.plateau_window as u64,
            self.morph_growth.plateau_epsilon as u64,
            self.morph_growth.seam_threshold as u64,
            self.flow.weight as u64,
            self.flow.endpoint_weight as u64,
            self.flow.min_time as u64,
            self.flow.max_time as u64,
            self.flow.hidden as u64,
            self.flow.sample_steps as u64,
            self.flow.resolution as u64,
            self.flow.cadence as u64,
            self.seed,
            self.micro_size as u64,
            self.macro_size as u64,
            self.channels as u64,
            self.genome_dim as u64,
            self.ca_hidden as u64,
            self.interface_grid as u64,
            self.interface_width as u64,
            self.interface_loops as u64,
            self.morph_residual_gain as u64,
            self.memory_limit as u64,
            self.interface_gain as u64,
            self.conditioning.code(),
            self.reference_fidelity_min as u64,
            self.reference_fidelity_max as u64,
            self.reference_dropout as u64,
            self.render_hidden as u64,
            self.render_blocks as u64,
            self.coord_bands as u64,
            self.coord_gain as u64,
            self.state_skip as u64,
            self.chroma as u64,
            self.gamma as u64,
            self.train_resolution as u64,
            self.episode_steps as u64,
            self.episode_reset as u64,
            self.bptt as u64,
            self.memory_reset as u64,
            self.core_update_every as u64,
            self.macro_update_every as u64,
            self.learning_rate as u64,
            self.weight_decay as u64,
            self.beta1 as u64,
            self.beta2 as u64,
            self.adam_epsilon as u64,
            self.grad_clip as u64,
            self.warmup_updates as u64,
            self.optimizer.code(),
            self.muon_momentum as u64,
            self.muon_ns_steps as u64,
            self.dt as u64,
            self.state_limit as u64,
            self.clock_probability as u64,
            self.state_soft_limit as u64,
            self.nca_gain as u64,
            self.state_leak as u64,
            self.reaction_gain as u64,
            self.phase_gain as u64,
            self.fractal_gain as u64,
            self.quasiperiodic_gain as u64,
            self.cyclic_gain as u64,
            self.rd_diffusion_u as u64,
            self.rd_diffusion_v as u64,
            self.rd_feed as u64,
            self.rd_kill as u64,
            self.phase_growth as u64,
            self.phase_saturation as u64,
            self.phase_frequency as u64,
            self.phase_diffusion as u64,
            self.phase_dispersion as u64,
            self.loss_content as u64,
            self.loss_palette as u64,
            self.loss_structure as u64,
            self.loss_seam as u64,
            self.loss_gamut as u64,
            self.loss_state as u64,
            self.loss_memory as u64,
            self.max_saturation_fraction as u64,
            self.stability_patience as u64,
        ];
        assert(values@ =~= checkpoint_words(*self));
        let legacy = fnv_fold_words(FNV_OFFSET_BASIS, values.as_slice());
        self.experiment.signature(legacy, experiment_settings, saturation_penalty)
    }

    /// The checkpoint signature extended by the resolved morph capacity and preset.
    pub fn resolved_config_signature(&self, experiment_settings: &[u8], saturation_penalty: &[u8]) -> (r: u64)
        ensures
            r == fnv_fold(
                FNV_OFFSET_BASIS,
                resolved_words(*self, experiment_settings@, saturation_penalty@),
            ),
    {
        let values: Vec<u64> = vec![
            self.checkpoint_signature(experiment_settings, saturation_penalty),
            self.morph_layers as u64,
            self.morph_depth as u64,
            self.morph_growth.min_depth as u64,
            self.morph_growth.max_depth as u64,
            self.research_preset.code(),
        ];
        assert(values@ =~= resolved_words(*self, experiment_settings@, saturation_penalty@));
        fnv_fold_words(FNV_OFFSET_BASIS, values.as_slice())
    }
}

/// The checkpoint words determine every setting they track: two
/// configurations with the same words agree on each tracked mode, scalar and
/// size, so changing any one of them (an architecture size such as
/// `channels`, a loss weight, a cadence) changes the words the signature folds.
pub proof fn lemma_checkpoint_words_track_settings(c: RunConfig, d: RunConfig)
    ensures
        checkpoint_words(c) == checkpoint_words(d) ==> {
            &&& c.mode == d.mode
            &&& c.integrator == d.integrator
            &&& c.style == d.style
            &&& c.objective == d.objective
            &&& c.reconstruction.grounding_strength == d.reconstruction.grounding_strength
            &&& c.reconstruction.emergence_strength == d.reconstruction.emergence_strength
            &&& c.reconstruction.emergence_start == d.reconstruction.emergence_start
            &&& c.reconstruction.emergence_ramp == d.reconstruction.emergence_ramp
            &&& c.reconstruction.grounding_floor == d.reconstruction.grounding_floor
            &&& c.reconstruction.emergent_limit == d.reconstruction.emergent_limit
            &&& c.reconstruction.emergence_low_budget == d.reconstruction.emergence_low_budget
            &&& c.reconstruction.emergence_mid_budget == d.reconstruction.emergence_mid_budget
            &&& c.reconstruction.local_reference_gain == d.reconstruction.local_reference_gain
            &&& c.reconstruction.loss_composite == d.reconstruction.loss_composite
            &&& c.reconstruction.loss_ground_coarse == d.reconstruction.loss_ground_coarse
            &&& c.reconstruction.loss_ground_mid == d.reconstruction.loss_ground_mid
            &&& c.reconstruction.loss_ground_fine == d.reconstruction.loss_ground_fine
            &&& c.reconstruction.loss_emergent_low == d.reconstruction.loss_emergent_low
            &&& c.reconstruction.loss_emergent_tv == d.reconstruction.loss_emergent_tv
            &&& c.reconstruction.loss_emergent_fit == d.reconstruction.loss_emergent_fit
            &&& c.reconstruction.loss_head_redundancy == d.reconstruction.loss_head_redundancy
            &&& c.reconstruction.loss_cross_resolution == d.reconstruction.loss_cross_resolution
            &&& c.detail.probability == d.detail.probability
            &&& c.detail.resolution == d.detail.resolution
            &&& c.detail.min_zoom == d.detail.min_zoom
            &&& c.detail.max_zoom == d.detail.max_zoom
            &&& c.detail.curriculum_start == d.detail.curriculum_start
            &&& c.detail.cache_max_level == d.detail.cache_max_level
            &&& c.detail.boundary == d.detail.boundary
            &&& c.morph_growth.mode == d.morph_growth.mode
            &&& c.morph_growth.interval == d.morph_growth.interval
            &&& c.morph_growth.plateau_window == d.morph_growth.plateau_window
            &&& c.morph_growth.plateau_epsilon == d.morph_growth.plateau_epsilon
            &&& c.morph_growth.seam_threshold == d.morph_growth.seam_threshold
            &&& c.flow.weight == d.flow.weight
            &&& c.flow.endpoint_weight == d.flow.endpoint_weight
            &&& c.flow.min_time == d.flow.min_time
            &&& c.flow.max_time == d.flow.max_time
            &&& c.flow.hidden == d.flow.hidden
            &&& c.flow.sample_steps == d.flow.sample_steps
            &&& c.flow.resolution == d.flow.resolution
            &&& c.flow.cadence == d.flow.cadence
            &&& c.micro_size == d.micro_size
            &&& c.macro_size == d.macro_size
            &&& c.channels == d.channels
            &&& c.genome_dim == d.genome_dim
            &&& c.ca_hidden == d.ca_hidden
            &&& c.interface_grid == d.interface_grid
            &&& c.interface_width == d.interface_width
            &&& c.interface_loops == d.interface_loops
            &&& c.morph_residual_gain == d.morph_residual_gain
            &&& c.memory_limit == d.memory_limit
            &&& c.interface_gain == d.interface_gain
            &&& c.conditioning == d.conditioning
            &&& c.reference_fidelity_min == d.reference_fidelity_min
            &&& c.reference_fidelity_max == d.reference_fidelity_max
            &&& c.reference_dropout == d.reference_dropout
            &&& c.render_hidden == d.render_hidden
            &&& c.render_blocks == d.render_blocks
            &&& c.coord_bands == d.coord_bands
            &&& c.coord_gain == d.coord_gain
            &&& c.state_skip == d.state_skip
            &&& c.chroma == d.chroma
            &&& c.gamma == d.gamma
            &&& c.train_resolution == d.train_resolution
            &&& c.episode_steps == d.episode_steps
            &&& c.episode_reset == d.episode_reset
            &&& c.bptt == d.bptt
            &&& c.memory_reset == d.memory_reset
            &&& c.core_update_every == d.core_update_every
            &&& c.macro_update_every == d.macro_update_every
            &&& c.learning_rate == d.learning_rate
            &&& c.weight_decay == d.weight_decay
            &&& c.adam_epsilon == d.adam_epsilon
            &&& c.grad_clip == d.grad_clip
            &&& c.warmup_updates == d.warmup_updates
            &&& c.optimizer == d.optimizer
            &&& c.muon_momentum == d.muon_momentum
            &&& c.muon_ns_steps == d.muon_ns_steps
            &&& c.dt == d.dt
            &&& c.state_limit == d.state_limit
            &&& c.clock_probability == d.clock_probability
            &&& c.state_soft_limit == d.state_soft_limit
            &&& c.nca_gain == d.nca_gain
            &&& c.state_leak == d.state_leak
            &&& c.reaction_gain == d.reaction_gain
            &&& c.phase_gain == d.phase_gain
            &&& c.fractal_gain == d.fractal_gain
            &&& c.quasiperiodic_gain == d.quasiperiodic_gain
            &&& c.cyclic_gain == d.cyclic_gain
            &&& c.rd_diffusion_u == d.rd_diffusion_u
            &&& c.rd_diffusion_v == d.rd_diffusion_v
            &&& c.rd_feed == d.rd_feed
            &&& c.rd_kill == d.rd_kill
            &&& c.phase_growth == d.phase_growth
            &&& c.phase_saturation == d.phase_saturation
            &&& c.phase_frequency == d.phase_frequency
            &&& c.phase_diffusion == d.phase_diffusion
            &&& c.phase_dispersion == d.phase_dispersion
            &&& c.loss_content == d.loss_content
            &&& c.loss_palette == d.loss_palette
            &&& c.loss_structure == d.loss_structure
            &&& c.loss_seam == d.loss_seam
            &&& c.loss_gamut == d.loss_gamut
            &&& c.loss_state == d.loss_state
            &&& c.loss_memory == d.loss_memory
            &&& c.max_saturation_fraction == d.max_saturation_fraction
            &&& c.stability_patience == d.stability_patience
        },
{
    if checkpoint_words(c) == checkpoint_words(d) {
    assert(checkpoint_words(c)[1] == checkpoint_words(d)[1]);
    assert(checkpoint_words(c)[2] == checkpoint_words(d)[2]);
    assert(checkpoint_words(c)[3] == checkpoint_words(d)[3]);
    assert(checkpoint_words(c)[4] == checkpoint_words(d)[4]);
    assert(checkpoint_words(c)[5] == checkpoint_words(d)[5]);
    assert(checkpoint_words(c)[6] == checkpoint_words(d)[6]);
    assert(checkpoint_words(c)[7] == checkpoint_words(d)[7]);
    assert(checkpoint_words(c)[8] == checkpoint_words(d)[8]);
    assert(checkpoint_words(c)[9] == checkpoint_words(d)[9]);
    assert(checkpoint_words(c)[10] == checkpoint_words(d)[10]);
    assert(checkpoint_words(c)[11] == checkpoint_words(d)[11]);
    assert(checkpoint_words(c)[12] == checkpoint_words(d)[12]);
    assert(checkpoint_words(c)[13] == checkpoint_words(d)[13]);
    assert(checkpoint_words(c)[14] == checkpoint_words(d)[14]);
    assert(checkpoint_words(c)[15] == checkpoint_words(d)[15]);
    assert(checkpoint_words(c)[16] == checkpoint_words(d)[16]);
    assert(checkpoint_words(c)[17] == checkpoint_words(d)[17]);
    assert(checkpoint_words(c)[18] == checkpoint_words(d)[18]);
    assert(checkpoint_words(c)[19] == checkpoint_words(d)[19]);
    assert(checkpoint_words(c)[20] == checkpoint_words(d)[20]);
    assert(checkpoint_words(c)[21] == checkpoint_words(d)[21]);
    assert(checkpoint_words(c)[22] == checkpoint_words(d)[22]);
    assert(checkpoint_words(c)[23] == checkpoint_words(d)[23]);
    assert(checkpoint_words(c)[24] == checkpoint_words(d)[24]);
    assert(checkpoint_words(c)[25] == checkpoint_words(d)[25]);
    assert(checkpoint_words(c)[26] == checkpoint_words(d)[26]);
    assert(checkpoint_words(c)[27] == checkpoint_words(d)[27]);
    assert(checkpoint_words(c)[28] == checkpoint_words(d)[28]);
    assert(checkpoint_words(c)[29] == checkpoint_words(d)[29]);
    assert(checkpoint_words(c)[30] == checkpoint_words(d)[30]);
    assert(checkpoint_words(c)[31] == checkpoint_words(d)[31]);
    assert(checkpoint_words(c)[32] == checkpoint_words(d)[32]);
    assert(checkpoint_words(c)[33] == checkpoint_words(d)[33]);
    assert(checkpoint_words(c)[34] == checkpoint_words(d)[34]);
    assert(checkpoint_words(c)[35] == checkpoint_words(d)[35]);
    assert(checkpoint_words(c)[36] == checkpoint_words(d)[36]);
    assert(checkpoint_words(c)[37] == checkpoint_words(d)[37]);
    assert(checkpoint_words(c)[38] == checkpoint_words(d)[38]);
    assert(checkpoint_words(c)[39] == checkpoint_words(d)[39]);
    assert(checkpoint_words(c)[40] == checkpoint_words(d)[40]);
    assert(checkpoint_words(c)[41] == checkpoint_words(d)[41]);
    assert(checkpoint_words(c)[42] == checkpoint_words(d)[42]);
    assert(checkpoint_words(c)[44] == checkpoint_words(d)[44]);
    assert(checkpoint_words(c)[45] == checkpoint_words(d)[45]);
    assert(checkpoint_words(c)[46] == checkpoint_words(d)[46]);
    assert(checkpoint_words(c)[47] == checkpoint_words(d)[47]);
    assert(checkpoint_words(c)[48] == checkpoint_words(d)[48]);
    assert(checkpoint_words(c)[49] == checkpoint_words(d)[49]);
    assert(checkpoint_words(c)[50] == checkpoint_words(d)[50]);
    assert(checkpoint_words(c)[51] == checkpoint_words(d)[51]);
    assert(checkpoint_words(c)[52] == checkpoint_words(d)[52]);
    assert(checkpoint_words(c)[53] == checkpoint_words(d)[53]);
    assert(checkpoint_words(c)[54] == checkpoint_words(d)[54]);
    assert(checkpoint_words(c)[55] == checkpoint_words(d)[55]);
    assert(checkpoint_words(c)[56] == checkpoint_words(d)[56]);
    assert(checkpoint_words(c)[57] == checkpoint_words(d)[57]);
    assert(checkpoint_words(c)[58] == checkpoint_words(d)[58]);
    assert(checkpoint_words(c)[59] == checkpoint_words(d)[59]);
    assert(checkpoint_words(c)[60] == checkpoint_words(d)[60]);
    assert(checkpoint_words(c)[61] == checkpoint_words(d)[61]);
    assert(checkpoint_words(c)[62] == checkpoint_words(d)[62]);
    assert(checkpoint_words(c)[63] == checkpoint_words(d)[63]);
    assert(checkpoint_words(c)[64] == checkpoint_words(d)[64]);
    assert(checkpoint_words(c)[65] == checkpoint_words(d)[65]);
    assert(checkpoint_words(c)[66] == checkpoint_words(d)[66]);
    assert(checkpoint_words(c)[67] == checkpoint_words(d)[67]);
    assert(checkpoint_words(c)[68] == checkpoint_words(d)[68]);
    assert(checkpoint_words(c)[69] == checkpoint_words(d)[69]);
    assert(checkpoint_words(c)[70] == checkpoint_words(d)[70]);
    assert(checkpoint_words(c)[71] == checkpoint_words(d)[71]);
    assert(checkpoint_words(c)[72] == checkpoint_words(d)[72]);
    assert(checkpoint_words(c)[73] == checkpoint_words(d)[73]);
    assert(checkpoint_words(c)[74] == checkpoint_words(d)[74]);
    assert(checkpoint_words(c)[77] == checkpoint_words(d)[77]);
    assert(checkpoint_words(c)[78] == checkpoint_words(d)[78]);
    assert(checkpoint_words(c)[79] == checkpoint_words(d)[79]);
    assert(checkpoint_words(c)[80] == checkpoint_words(d)[80]);
    assert(checkpoint_words(c)[81] == checkpoint_words(d)[81]);
    assert(checkpoint_words(c)[82] == checkpoint_words(d)[82]);
    assert(checkpoint_words(c)[83] == checkpoint_words(d)[83]);
    assert(checkpoint_words(c)[84] == checkpoint_words(d)[84]);
    assert(checkpoint_words(c)[85] == checkpoint_words(d)[85]);
    assert(checkpoint_words(c)[86] == checkpoint_words(d)[86]);
    assert(checkpoint_words(c)[87] == checkpoint_words(d)[87]);
    assert(checkpoint_words(c)[88] == checkpoint_words(d)[88]);
    assert(checkpoint_words(c)[89] == checkpoint_words(d)[89]);
    assert(checkpoint_words(c)[90] == checkpoint_words(d)[90]);
    assert(checkpoint_words(c)[91] == checkpoint_words(d)[91]);
    assert(checkpoint_words(c)[92] == checkpoint_words(d)[92]);
    assert(checkpoint_words(c)[93] == checkpoint_words(d)[93]);
    assert(checkpoint_words(c)[94] == checkpoint_words(d)[94]);
    assert(checkpoint_words(c)[95] == checkpoint_words(d)[95]);
    assert(checkpoint_words(c)[96] == checkpoint_words(d)[96]);
    assert(checkpoint_words(c)[97] == checkpoint_words(d)[97]);
    assert(checkpoint_words(c)[98] == checkpoint_words(d)[98]);
    assert(checkpoint_words(c)[99] == checkpoint_words(d)[99]);
    assert(checkpoint_words(c)[100] == checkpoint_words(d)[100]);
    assert(checkpoint_words(c)[101] == checkpoint_words(d)[101]);
    assert(checkpoint_words(c)[102] == checkpoint_words(d)[102]);
    assert(checkpoint_words(c)[103] == checkpoint_words(d)[103]);
    assert(checkpoint_words(c)[104] == checkpoint_words(d)[104]);
    assert(checkpoint_words(c)[105] == checkpoint_words(d)[105]);
    assert(checkpoint_words(c)[106] == checkpoint_words(d)[106]);
    assert(checkpoint_words(c)[107] == checkpoint_words(d)[107]);
    assert(checkpoint_words(c)[108] == checkpoint_words(d)[108]);
    assert(checkpoint_words(c)[109] == checkpoint_words(d)[109]);
    assert(checkpoint_words(c)[110] == checkpoint_words(d)[110]);
    assert(checkpoint_words(c)[111] == checkpoint_words(d)[111]);
    }
}

/// The checkpoint words are the schema version and then each tracked setting
/// at a fixed position: modes by their declaration index, binary32 and
/// binary64 scalars by their bits, sizes by their value.
pub proof fn lemma_checkpoint_word_positions(c: RunConfig)
    ensures
        checkpoint_words(c).len() == 112,
        checkpoint_words(c)[0] == SCHEMA_VERSION as u64,
        checkpoint_words(c)[1] == c.mode.ordinal(),
        checkpoint_words(c)[2] == c.integrator.ordinal(),
        checkpoint_words(c)[3] == c.style.ordinal(),
        checkpoint_words(c)[4] == c.objective.ordinal(),
        checkpoint_words(c)[5] == c.reconstruction.grounding_strength as u64,
        checkpoint_words(c)[6] == c.reconstruction.emergence_strength as u64,
        checkpoint_words(c)[7] == c.reconstruction.emergence_start as u64,
        checkpoint_words(c)[8] == c.reconstruction.emergence_ramp as u64,
        checkpoint_words(c)[9] == c.reconstruction.grounding_floor as u64,
        checkpoint_words(c)[10] == c.reconstruction.emergent_limit as u64,
        checkpoint_words(c)[11] == c.reconstruction.emergence_low_budget as u64,
        checkpoint_words(c)[12] == c.reconstruction.emergence_mid_budget as u64,
        checkpoint_words(c)[13] == c.reconstruction.local_reference_gain as u64,
        checkpoint_words(c)[14] == c.reconstruction.loss_composite as u64,
        checkpoint_words(c)[15] == c.reconstruction.loss_ground_coarse as u64,
        checkpoint_words(c)[16] == c.reconstruction.loss_ground_mid as u64,
        checkpoint_words(c)[17] == c.reconstruction.loss_ground_fine as u64,
        checkpoint_words(c)[18] == c.reconstruction.loss_emergent_low as u64,
        checkpoint_words(c)[19] == c.reconstruction.loss_emergent_tv as u64,
        checkpoint_words(c)[20] == c.reconstruction.loss_emergent_fit as u64,
        checkpoint_words(c)[21] == c.reconstruction.loss_head_redundancy as u64,
        checkpoint_words(c)[22] == c.reconstruction.loss_cross_resolution as u64,
        checkpoint_words(c)[23] == c.detail.probability as u64,
        checkpoint_words(c)[24] == c.detail.resolution as u64,
        checkpoint_words(c)[25] == c.detail.min_zoom as u64,
        checkpoint_words(c)[26] == c.detail.max_zoom as u64,
        checkpoint_words(c)[27] == c.detail.curriculum_start as u64,
        checkpoint_words(c)[28] == c.detail.cache_max_level as u64,
        checkpoint_words(c)[29] == c.detail.boundary.ordinal(),
        checkpoint_words(c)[30] == c.morph_growth.mode.ordinal(),
        checkpoint_words(c)[31] == c.morph_growth.interval as u64,
        checkpoint_words(c)[32] == c.morph_growth.plateau_window as u64,
        checkpoint_words(c)[33] == c.morph_growth.plateau_epsilon as u64,
        checkpoint_words(c)[34] == c.morph_growth.seam_threshold as u64,
        checkpoint_words(c)[35] == c.flow.weight as u64,
        checkpoint_words(c)[36] == c.flow.endpoint_weight as u64,
        checkpoint_words(c)[37] == c.flow.min_time as u64,
        checkpoint_words(c)[38] == c.flow.max_time as u64,
        checkpoint_words(c)[39] == c.flow.hidden as u64,
        checkpoint_words(c)[40] == c.flow.sample_steps as u64,
        checkpoint_words(c)[41] == c.flow.resolution as u64,
        checkpoint_words(c)[42] == c.flow.cadence as u64,
        checkpoint_words(c)[43] == c.seed,
        checkpoint_words(c)[44] == c.micro_size as u64,
        checkpoint_words(c)[45] == c.macro_size as u64,
        checkpoint_words(c)[46] == c.channels as u64,
        checkpoint_words(c)[47] == c.genome_dim as u64,
        checkpoint_words(c)[48] == c.ca_hidden as u64,
        checkpoint_words(c)[49] == c.interface_grid as u64,
        checkpoint_words(c)[50] == c.interface_width as u64,
        checkpoint_words(c)[51] == c.interface_loops as u64,
        checkpoint_words(c)[52] == c.morph_residual_gain as u64,
        checkpoint_words(c)[53] == c.memory_limit as u64,
        checkpoint_words(c)[54] == c.interface_gain as u64,
        checkpoint_words(c)[55] == c.conditioning.ordinal(),
        checkpoint_words(c)[56] == c.reference_fidelity_min as u64,
        checkpoint_words(c)[57] == c.reference_fidelity_max as u64,
        checkpoint_words(c)[58] == c.reference_dropout as u64,
        checkpoint_words(c)[59] == c.render_hidden as u64,
        checkpoint_words(c)[60] == c.render_blocks as u64,
        checkpoint_words(c)[61] == c.coord_bands as u64,
        checkpoint_words(c)[62] == c.coord_gain as u64,
        checkpoint_words(c)[63] == c.state_skip as u64,
        checkpoint_words(c)[64] == c.chroma as u64,
        checkpoint_words(c)[65] == c.gamma as u64,
        checkpoint_words(c)[66] == c.train_resolution as u64,
        checkpoint_words(c)[67] == c.episode_steps as u64,
        checkpoint_words(c)[68] == c.episode_reset as u64,
        checkpoint_words(c)[69] == c.bptt as u64,
        checkpoint_words(c)[70] == c.memory_reset as u64,
        checkpoint_words(c)[71] == c.core_update_every as u64,
        checkpoint_words(c)[72] == c.macro_update_every as u64,
        checkpoint_words(c)[73] == c.learning_rate as u64,
        checkpoint_words(c)[74] == c.weight_decay as u64,
        checkpoint_words(c)[75] == c.beta1 as u64,
        checkpoint_words(c)[76] == c.beta2 as u64,
        checkpoint_words(c)[77] == c.adam_epsilon as u64,
        checkpoint_words(c)[78] == c.grad_clip as u64,
        checkpoint_words(c)[79] == c.warmup_updates as u64,
        checkpoint_words(c)[80] == c.optimizer.ordinal(),
        checkpoint_words(c)[81] == c.muon_momentum as u64,
        checkpoint_words(c)[82] == c.muon_ns_steps as u64,
        checkpoint_words(c)[83] == c.dt as u64,
        checkpoint_words(c)[84] == c.state_limit as u64,
        checkpoint_words(c)[85] == c.clock_probability as u64,
        checkpoint_words(c)[86] == c.state_soft_limit as u64,
        checkpoint_words(c)[87] == c.nca_gain as u64,
        checkpoint_words(c)[88] == c.state_leak as u64,
        checkpoint_words(c)[89] == c.reaction_gain as u64,
        checkpoint_words(c)[90] == c.phase_gain as u64,
        checkpoint_words(c)[91] == c.fractal_gain as u64,
        checkpoint_words(c)[92] == c.quasiperiodic_gain as u64,
        checkpoint_words(c)[93] == c.cyclic_gain as u64,
        checkpoint_words(c)[94] == c.rd_diffusion_u as u64,
        checkpoint_words(c)[95] == c.rd_diffusion_v as u64,
        checkpoint_words(c)[96] == c.rd_feed as u64,
        checkpoint_words(c)[97] == c.rd_kill as u64,
        checkpoint_words(c)[98] == c.phase_growth as u64,
        checkpoint_words(c)[99] == c.phase_saturation as u64,
        checkpoint_words(c)[100] == c.phase_frequency as u64,
        checkpoint_words(c)[101] == c.phase_diffusion as u64,
        checkpoint_words(c)[102] == c.phase_dispersion as u64,
        checkpoint_words(c)[103] == c.loss_content as u64,
        checkpoint_words(c)[104] == c.loss_palette as u64,
        checkpoint_words(c)[105] == c.loss_structure as u64,
        checkpoint_words(c)[106] == c.loss_seam as u64,
        checkpoint_words(c)[107] == c.loss_gamut as u64,
        checkpoint_words(c)[108] == c.loss_state as u64,
        checkpoint_words(c)[109] == c.loss_memory as u64,
        checkpoint_words(c)[110] == c.max_saturation_fraction as u64,
        checkpoint_words(c)[111] == c.stability_patience as u64,
{
}

} // verus!
