//! Switches of the multirate dynamics that analysis and ablation use.
use vstd::prelude::*;

verus! {

/// Which parts of one dynamics step an ablation disables or freezes.
#[derive(Clone, Copy, Debug, PartialEq, Eq, Structural)]
pub struct DynamicsAblation {
    pub disable_interface: bool,
    pub freeze_micro: bool,
    pub freeze_macro: bool,
    pub disable_nca: bool,
    pub disable_reaction: bool,
    pub disable_phase: bool,
    pub disable_cyclic: bool,
    pub disable_forcing: bool,
}

impl Default for DynamicsAblation {
    /// No part disabled: the full dynamics.
    fn default() -> (r: DynamicsAblation)
        ensures
            !r.disable_interface && !r.freeze_micro && !r.freeze_macro && !r.disable_nca
                && !r.disable_reaction && !r.disable_phase && !r.disable_cyclic
                && !r.disable_forcing,
    {
        DynamicsAblation {
            disable_interface: false,
            freeze_micro: false,
            freeze_macro: false,
            disable_nca: false,
            disable_reaction: false,
            disable_phase: false,
            disable_cyclic: false,
            disable_forcing: false,
        }
    }
}

/// Which fields a developmental diffusion operator acts on.
#[derive(Clone, Copy, Debug, PartialEq, Eq, Structural)]
pub enum DiffusionScope {
    Both,
    Micro,
    Macro,
}

impl Default for DiffusionScope {
    fn default() -> (r: DiffusionScope)
        ensures
            r == DiffusionScope::Both,
    {
        DiffusionScope::Both
    }
}

} // verus!
