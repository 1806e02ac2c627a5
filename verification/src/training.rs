//! Rules of the training loop that need no tensor: cadences, and how each
//! named parameter is seeded and initialized.
use vstd::prelude::*;
use crate::fnv::{fnv_fold, fnv_fold_bytes, widen_bytes, FNV_OFFSET_BASIS};
use crate::derived::spec_suffix;
use crate::digits::{padded_decimal, padded_decimal_text};
use crate::paths::{join_path, path_join};
use crate::run_config::RunConfig;
use crate::text::{chars_of, contains, ends_with, has_infix, has_suffix};
use vstd::string::StringSliceAdditionalSpecFns;

verus! {

/// A cadence of `cadence` steps is due when the step count crosses a multiple
/// of it between the previous and the current step; a zero cadence never is.
pub open spec fn spec_cadence_due(previous_step: u64, current_step: u64, cadence: usize) -> bool {
    cadence > 0 && previous_step / (cadence as u64) < current_step / (cadence as u64)
}

pub fn cadence_due(previous_step: u64, current_step: u64, cadence: usize) -> (r: bool)
    ensures
        r == spec_cadence_due(previous_step, current_step, cadence),
{
    cadence > 0 && previous_step / (cadence as u64) < current_step / (cadence as u64)
}

/// The seed of a named parameter: the FNV-1a fold of the name's UTF-8 bytes,
/// starting from the run seed mixed into the offset basis.
pub open spec fn spec_parameter_seed(seed: u64, name: Seq<u8>) -> u64 {
    fnv_fold(seed ^ FNV_OFFSET_BASIS, widen_bytes(name))
}

pub fn parameter_seed(seed: u64, name: &str) -> (r: u64)
    ensures
        r == spec_parameter_seed(seed, name.spec_bytes()),
{
    fnv_fold_bytes(seed ^ FNV_OFFSET_BASIS, name.as_bytes())
}

/// Parameters that start at zero: biases, the output and write heads, and the
/// contractions of the attention, feed-forward and morphic blocks.
pub open spec fn spec_zero_initialized(name: Seq<char>) -> bool {
    ||| has_suffix(name, ".bias"@)
    ||| has_infix(name, "micro_ca.output"@)
    ||| has_infix(name, "renderer.emergent.weight"@)
    ||| has_infix(name, "macro_ca.output"@)
    ||| has_infix(name, "micro_write.weight"@)
    ||| has_infix(name, "macro_write.weight"@)
    ||| has_infix(name, "attention_output.weight"@)
    ||| has_infix(name, "feedforward_contract.weight"@)
    ||| (has_infix(name, ".morphic_"@) && has_infix(name, ".contract.weight"@))
}

pub fn zero_initialized_parameter(name: &str) -> (r: bool)
    ensures
        r == spec_zero_initialized(name@),
{
    let text = chars_of(name);
    ends_with(&text, ".bias") || contains(&text, "micro_ca.output") || contains(
        &text,
        "renderer.emergent.weight",
    ) || contains(&text, "macro_ca.output") || contains(&text, "micro_write.weight") || contains(
        &text,
        "macro_write.weight",
    ) || contains(&text, "attention_output.weight") || contains(
        &text,
        "feedforward_contract.weight",
    ) || (contains(&text, ".morphic_") && contains(&text, ".contract.weight"))
}

/// Parameters that start at one: the normalization scales.
pub open spec fn spec_unit_initialized(name: Seq<char>) -> bool {
    has_infix(name, "norm.weight"@)
}

pub fn unit_initialized_parameter(name: &str) -> (r: bool)
    ensures
        r == spec_unit_initialized(name@),
{
    contains(&chars_of(name), "norm.weight")
}

/// A cadence is due exactly when a multiple of it lies in the window
/// `(previous_step, current_step]`, so no boundary is missed or seen twice
/// by consecutive windows.
pub proof fn lemma_cadence_due_at_multiples(previous_step: u64, current_step: u64, cadence: usize)
    ensures
        spec_cadence_due(previous_step, current_step, cadence) <==> (cadence > 0 && exists|m: int|
            previous_step < #[trigger] (m * cadence) <= current_step),
{
    if cadence > 0 {
        let k = cadence as int;
        let p = previous_step as int;
        let c = current_step as int;
        assert((cadence as u64) as int == k);
        let qp = p / k;
        let qc = c / k;
        assert(qp * k <= p < qp * k + k) by (nonlinear_arith)
            requires
                k > 0,
                qp == p / k,
        ;
        assert(qc * k <= c < qc * k + k) by (nonlinear_arith)
            requires
                k > 0,
                qc == c / k,
        ;
        if qp < qc {
            assert(qp * k + k <= qc * k) by (nonlinear_arith)
                requires
                    qp < qc,
                    k > 0,
            ;
            assert(p < qc * k <= c);
        }
        assert forall|m: int| p < #[trigger] (m * k) <= c implies qp < qc by {
            assert(qp < m) by (nonlinear_arith)
                requires
                    qp * k <= p,
                    p < m * k,
                    k > 0,
            ;
            assert(m <= qc) by (nonlinear_arith)
                requires
                    m * k <= c,
                    c < qc * k + k,
                    k > 0,
            ;
        }
    }
}

/// The snapshot image of a step: in the output directory, named by the run
/// suffix, the zero-padded step, episode, age and target index.
pub open spec fn spec_snapshot_path(c: RunConfig, step: u64, episode: u64, age: u64, target_index: usize) -> Seq<char> {
    path_join(
        c.output_dir@,
        "titan_image_snapshot_v9"@ + spec_suffix(c) + "_"@ + padded_decimal(step as nat, 9) + "_ep"@
            + padded_decimal(episode as nat, 5) + "_age"@ + padded_decimal(age as nat, 4) + "_target"@
            + padded_decimal(target_index as nat, 4) + ".png"@,
    )
}

pub fn snapshot_path(config: &RunConfig, step: u64, episode: u64, age: u64, target_index: usize) -> (r: String)
    ensures
        r@ == spec_snapshot_path(*config, step, episode, age, target_index),
{
    let name = String::from_str("titan_image_snapshot_v9").concat(config.suffix().as_str()).concat("_").concat(
        padded_decimal_text(step, 9).as_str(),
    ).concat("_ep").concat(padded_decimal_text(episode, 5).as_str()).concat("_age").concat(
        padded_decimal_text(age, 4).as_str(),
    ).concat("_target").concat(padded_decimal_text(target_index as u64, 4).as_str()).concat(".png");
    join_path(config.output_dir.as_str(), name.as_str())
}

/// A gallery variant image: in the output directory, named by the run suffix,
/// the one-based variant number and whether it was mastered.
pub open spec fn spec_gallery_path(c: RunConfig, variant: usize, mastered: bool) -> Seq<char> {
    path_join(
        c.output_dir@,
        "titan_image_variant_v9"@ + spec_suffix(c) + "_"@ + padded_decimal((variant + 1) as nat, 3) + "_"@
            + (if mastered { "mastered"@ } else { "raw"@ }) + ".png"@,
    )
}

pub fn gallery_path(config: &RunConfig, variant: usize, mastered: bool) -> (r: String)
    requires
        variant < usize::MAX,
    ensures
        r@ == spec_gallery_path(*config, variant, mastered),
{
    let kind = if mastered {
        "mastered"
    } else {
        "raw"
    };
    let name = String::from_str("titan_image_variant_v9").concat(config.suffix().as_str()).concat("_").concat(
        padded_decimal_text(variant as u64 + 1, 3).as_str(),
    ).concat("_").concat(kind).concat(".png");
    join_path(config.output_dir.as_str(), name.as_str())
}

/// Parameters start at zero exactly when they are biases, output or write
/// heads, or contractions of attention, feed-forward or morphic blocks.
pub proof fn lemma_zero_initialized_parameters(name: Seq<char>)
    ensures
        spec_zero_initialized(name) <==> (has_suffix(name, ".bias"@) || has_infix(name, "micro_ca.output"@)
            || has_infix(name, "renderer.emergent.weight"@) || has_infix(name, "macro_ca.output"@)
            || has_infix(name, "micro_write.weight"@) || has_infix(name, "macro_write.weight"@)
            || has_infix(name, "attention_output.weight"@) || has_infix(name, "feedforward_contract.weight"@)
            || (has_infix(name, ".morphic_"@) && has_infix(name, ".contract.weight"@))),
        spec_unit_initialized(name) <==> has_infix(name, "norm.weight"@),
{
}

/// Snapshot and gallery images lie in the output directory, named by the run
/// suffix and their zero-padded numbers: step to nine digits, episode to
/// five, age and target to four, the one-based variant to three.
pub proof fn lemma_image_names(c: RunConfig, step: u64, episode: u64, age: u64, target_index: usize, variant: usize, mastered: bool)
    ensures
        spec_snapshot_path(c, step, episode, age, target_index) == path_join(
            c.output_dir@,
            "titan_image_snapshot_v9"@ + spec_suffix(c) + "_"@ + padded_decimal(step as nat, 9) + "_ep"@
                + padded_decimal(episode as nat, 5) + "_age"@ + padded_decimal(age as nat, 4) + "_target"@
                + padded_decimal(target_index as nat, 4) + ".png"@,
        ),
        spec_gallery_path(c, variant, mastered) == path_join(
            c.output_dir@,
            "titan_image_variant_v9"@ + spec_suffix(c) + "_"@ + padded_decimal((variant + 1) as nat, 3)
                + "_"@ + (if mastered { "mastered"@ } else { "raw"@ }) + ".png"@,
        ),
{
}

/// A parameter's seed is the FNV-1a fold of its name's UTF-8 bytes, started
/// from the run seed xor the FNV offset basis: one more byte of name is one
/// more round.
pub proof fn lemma_parameter_seed(seed: u64, name: Seq<u8>, byte: u8)
    ensures
        spec_parameter_seed(seed, name) == fnv_fold(seed ^ 0xcbf2_9ce4_8422_2325u64, name.map_values(|b: u8| b as u64)),
        spec_parameter_seed(seed, name.push(byte)) == crate::fnv::fnv_step(spec_parameter_seed(seed, name), byte as u64),
{
    assert(widen_bytes(name.push(byte)).drop_last() =~= widen_bytes(name));
    assert(widen_bytes(name) =~= name.map_values(|b: u8| b as u64));
}

} // verus!
