//! Which diagnostic group a named parameter's gradient is reported under.
use vstd::prelude::*;
use crate::text::{chars_of, contains, has_infix, has_prefix, starts_with};

verus! {

/// The group of a parameter, decided by the first rule that its name meets.
pub open spec fn spec_group(name: Seq<char>) -> Seq<char> {
    if has_infix(name, "norm.weight"@) {
        "normalization_scales"@
    } else if has_infix(name, ".micro_ca."@) {
        "micro_nca"@
    } else if has_infix(name, ".macro_ca."@) {
        "macro_nca"@
    } else if has_infix(name, "reference_"@) && has_infix(name, "_drive"@) {
        "reference_drives"@
    } else if has_infix(name, ".morphic_"@) {
        "morphic_blocks"@
    } else if has_infix(name, ".gru."@) {
        "interface_gru"@
    } else if has_prefix(name, "dynamics.interface."@) {
        "interface_attention_feedforward_projections"@
    } else if has_prefix(name, "renderer.grounded."@) {
        "grounded_head"@
    } else if has_prefix(name, "renderer.emergent."@) {
        "emergent_head"@
    } else if has_prefix(name, "renderer."@) {
        "renderer_shared"@
    } else {
        "flow_or_other"@
    }
}

pub fn group(name: &str) -> (r: &'static str)
    ensures
        r@ == spec_group(name@),
{
    let text = chars_of(name);
    if contains(&text, "norm.weight") {
        "normalization_scales"
    } else if contains(&text, ".micro_ca.") {
        "micro_nca"
    } else if contains(&text, ".macro_ca.") {
        "macro_nca"
    } else if contains(&text, "reference_") && contains(&text, "_drive") {
        "reference_drives"
    } else if contains(&text, ".morphic_") {
        "morphic_blocks"
    } else if contains(&text, ".gru.") {
        "interface_gru"
    } else if starts_with(&text, "dynamics.interface.") {
        "interface_attention_feedforward_projections"
    } else if starts_with(&text, "renderer.grounded.") {
        "grounded_head"
    } else if starts_with(&text, "renderer.emergent.") {
        "emergent_head"
    } else if starts_with(&text, "renderer.") {
        "renderer_shared"
    } else {
        "flow_or_other"
    }
}

/// A parameter is reported under the group of the first rule its name meets,
/// and under `flow_or_other` when it meets none.
pub proof fn lemma_group_rules(name: Seq<char>)
    ensures
        !((has_infix(name, "norm.weight"@)) || (has_infix(name, ".micro_ca."@)) || (has_infix(name, ".macro_ca."@)) || (has_infix(name, "reference_"@) && has_infix(name, "_drive"@)) || (has_infix(name, ".morphic_"@)) || (has_infix(name, ".gru."@)) || (has_prefix(name, "dynamics.interface."@)) || (has_prefix(name, "renderer.grounded."@)) || (has_prefix(name, "renderer.emergent."@)) || (has_prefix(name, "renderer."@))) ==> spec_group(name) == "flow_or_other"@,
        (has_infix(name, "norm.weight"@)) ==> spec_group(name) == "normalization_scales"@,
        !(has_infix(name, "norm.weight"@)) && (has_infix(name, ".micro_ca."@)) ==> spec_group(name) == "micro_nca"@,
        !(has_infix(name, "norm.weight"@)) && !(has_infix(name, ".micro_ca."@)) && (has_infix(name, ".macro_ca."@)) ==> spec_group(name) == "macro_nca"@,
        !(has_infix(name, "norm.weight"@)) && !(has_infix(name, ".micro_ca."@)) && !(has_infix(name, ".macro_ca."@)) && (has_infix(name, "reference_"@) && has_infix(name, "_drive"@)) ==> spec_group(name) == "reference_drives"@,
        !(has_infix(name, "norm.weight"@)) && !(has_infix(name, ".micro_ca."@)) && !(has_infix(name, ".macro_ca."@)) && !(has_infix(name, "reference_"@) && has_infix(name, "_drive"@)) && (has_infix(name, ".morphic_"@)) ==> spec_group(name) == "morphic_blocks"@,
        !(has_infix(name, "norm.weight"@)) && !(has_infix(name, ".micro_ca."@)) && !(has_infix(name, ".macro_ca."@)) && !(has_infix(name, "reference_"@) && has_infix(name, "_drive"@)) && !(has_infix(name, ".morphic_"@)) && (has_infix(name, ".gru."@)) ==> spec_group(name) == "interface_gru"@,
        !(has_infix(name, "norm.weight"@)) && !(has_infix(name, ".micro_ca."@)) && !(has_infix(name, ".macro_ca."@)) && !(has_infix(name, "reference_"@) && has_infix(name, "_drive"@)) && !(has_infix(name, ".morphic_"@)) && !(has_infix(name, ".gru."@)) && (has_prefix(name, "dynamics.interface."@)) ==> spec_group(name) == "interface_attention_feedforward_projections"@,
        !(has_infix(name, "norm.weight"@)) && !(has_infix(name, ".micro_ca."@)) && !(has_infix(name, ".macro_ca."@)) && !(has_infix(name, "reference_"@) && has_infix(name, "_drive"@)) && !(has_infix(name, ".morphic_"@)) && !(has_infix(name, ".gru."@)) && !(has_prefix(name, "dynamics.interface."@)) && (has_prefix(name, "renderer.grounded."@)) ==> spec_group(name) == "grounded_head"@,
        !(has_infix(name, "norm.weight"@)) && !(has_infix(name, ".micro_ca."@)) && !(has_infix(name, ".macro_ca."@)) && !(has_infix(name, "reference_"@) && has_infix(name, "_drive"@)) && !(has_infix(name, ".morphic_"@)) && !(has_infix(name, ".gru."@)) && !(has_prefix(name, "dynamics.interface."@)) && !(has_prefix(name, "renderer.grounded."@)) && (has_prefix(name, "renderer.emergent."@)) ==> spec_group(name) == "emergent_head"@,
        !(has_infix(name, "norm.weight"@)) && !(has_infix(name, ".micro_ca."@)) && !(has_infix(name, ".macro_ca."@)) && !(has_infix(name, "reference_"@) && has_infix(name, "_drive"@)) && !(has_infix(name, ".morphic_"@)) && !(has_infix(name, ".gru."@)) && !(has_prefix(name, "dynamics.interface."@)) && !(has_prefix(name, "renderer.grounded."@)) && !(has_prefix(name, "renderer.emergent."@)) && (has_prefix(name, "renderer."@)) ==> spec_group(name) == "renderer_shared"@,
{
}

} // verus!
