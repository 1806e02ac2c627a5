//! Settings derived from a resolved run configuration.
use vstd::prelude::*;
use crate::config::MorphDepthMode;
use crate::paths::{join_path, path_join};
use crate::run_config::RunConfig;

verus! {

/// The active morphic depth at the start of a run: the fixed depth, the full
/// capacity or the adaptive minimum, never more than the layers that exist.
pub open spec fn spec_initial_morph_depth(c: RunConfig) -> usize {
    let depth = match c.morph_growth.mode {
        MorphDepthMode::Fixed => c.morph_depth,
        MorphDepthMode::Capacity => c.morph_growth.max_depth,
        MorphDepthMode::Adaptive => c.morph_growth.min_depth,
    };
    if depth < c.morph_layers {
        depth
    } else {
        c.morph_layers
    }
}

/// Whether any frozen-checkpoint analysis was asked for.
pub open spec fn spec_analysis_requested(c: RunConfig) -> bool {
    ||| c.analysis.only
    ||| c.analysis.render_attribution
    ||| c.analysis.model_stats
    ||| c.analysis.autonomous_horizon > 0
    ||| c.analysis.perturbation_horizon > 0
    ||| c.analysis.benchmark
    ||| c.analysis.probe_dir is Some
    ||| c.analysis.compare_v8_dir is Some
    ||| c.analysis.dynamics_horizon > 0
}

/// The name suffix of a run: `_` and the tag, or nothing without a tag.
pub open spec fn spec_suffix(c: RunConfig) -> Seq<char> {
    match c.run_tag {
        Some(tag) => seq!['_'] + tag@,
        None => Seq::empty(),
    }
}

/// Where the image pyramids are cached: the chosen directory, else
/// `pyramid_cache_v9` inside the output directory.
pub open spec fn spec_pyramid_cache_root(c: RunConfig) -> Seq<char> {
    match c.detail.cache_dir {
        Some(dir) => dir@,
        None => path_join(c.output_dir@, "pyramid_cache_v9"@),
    }
}

impl RunConfig {
    pub fn initial_morph_depth(&self) -> (r: usize)
        ensures
            r == spec_initial_morph_depth(*self),
    {
        let depth = match self.morph_growth.mode {
            MorphDepthMode::Fixed => self.morph_depth,
            MorphDepthMode::Capacity => self.morph_growth.max_depth,
            MorphDepthMode::Adaptive => self.morph_growth.min_depth,
        };
        if depth < self.morph_layers {
            depth
        } else {
            self.morph_layers
        }
    }

    pub fn analysis_requested(&self) -> (r: bool)
        ensures
            r == spec_analysis_requested(*self),
    {
        self.analysis.only || self.analysis.render_attribution || self.analysis.model_stats
            || self.analysis.autonomous_horizon > 0 || self.analysis.perturbation_horizon > 0
            || self.analysis.benchmark || self.analysis.probe_dir.is_some()
            || self.analysis.compare_v8_dir.is_some() || self.analysis.dynamics_horizon > 0
    }

    pub fn suffix(&self) -> (r: String)
        ensures
            r@ == spec_suffix(*self),
    {
        match &self.run_tag {
            Some(tag) => {
                proof {
                    reveal_strlit("_");
                }
                String::from_str("_").concat(tag.as_str())
            },
            None => String::new(),
        }
    }

    pub fn pyramid_cache_root(&self) -> (r: String)
        ensures
            r@ == spec_pyramid_cache_root(*self),
    {
        match &self.detail.cache_dir {
            Some(dir) => dir.clone(),
            None => join_path(self.output_dir.as_str(), "pyramid_cache_v9"),
        }
    }
}

/// A run starts at the depth its mode chooses (the fixed depth, the full
/// capacity or the adaptive minimum), capped at the layers that exist.
pub proof fn lemma_initial_morph_depth(c: RunConfig)
    ensures
        spec_initial_morph_depth(c) <= c.morph_layers,
        c.morph_growth.mode == MorphDepthMode::Fixed ==> spec_initial_morph_depth(c) == if c.morph_depth
            < c.morph_layers {
            c.morph_depth
        } else {
            c.morph_layers
        },
        c.morph_growth.mode == MorphDepthMode::Capacity ==> spec_initial_morph_depth(c) == if c.morph_growth.max_depth
            < c.morph_layers {
            c.morph_growth.max_depth
        } else {
            c.morph_layers
        },
        c.morph_growth.mode == MorphDepthMode::Adaptive ==> spec_initial_morph_depth(c) == if c.morph_growth.min_depth
            < c.morph_layers {
            c.morph_growth.min_depth
        } else {
            c.morph_layers
        },
{
}

/// Analysis is requested exactly when frozen analysis, attribution, model
/// statistics, the benchmark, a probe or a comparison is asked for, or one of
/// the rollout, perturbation and ablation horizons is positive.
pub proof fn lemma_analysis_requested(c: RunConfig)
    ensures
        spec_analysis_requested(c) <==> (c.analysis.only || c.analysis.render_attribution
            || c.analysis.model_stats || c.analysis.benchmark || c.analysis.probe_dir is Some
            || c.analysis.compare_v8_dir is Some || c.analysis.autonomous_horizon > 0
            || c.analysis.perturbation_horizon > 0 || c.analysis.dynamics_horizon > 0),
{
}

/// An untagged run has no suffix; a tagged one `_` and its tag.
pub proof fn lemma_suffix(c: RunConfig)
    ensures
        c.run_tag is None ==> spec_suffix(c).len() == 0,
        c.run_tag matches Some(tag) ==> spec_suffix(c).len() == tag@.len() + 1 && spec_suffix(c)[0] == '_'
            && spec_suffix(c).subrange(1, spec_suffix(c).len() as int) == tag@,
{
    if let Some(tag) = c.run_tag {
        assert(spec_suffix(c).subrange(1, spec_suffix(c).len() as int) =~= tag@);
    }
}

/// The pyramid cache is the chosen directory, or `pyramid_cache_v9` inside
/// the output directory.
pub proof fn lemma_pyramid_cache_root(c: RunConfig)
    ensures
        c.detail.cache_dir matches Some(dir) ==> spec_pyramid_cache_root(c) == dir@,
        c.detail.cache_dir is None ==> spec_pyramid_cache_root(c) == path_join(
            c.output_dir@,
            "pyramid_cache_v9"@,
        ),
{
}

} // verus!
