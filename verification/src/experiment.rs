//! Opt-in training semantics: the normalization training mode, the guidance
//! withdrawal schedule, the write-saturation penalty and the frozen evaluation
//! panel with its recovery cases. The default settings leave the checkpoint
//! signature of a run exactly as it was before any of them existed.
use vstd::prelude::*;
use crate::float_bits::{f32_finite, f32_is_finite, f32_le, f32_less, f32_less_equal, f32_lt, F32_ONE};
use crate::fnv::{fnv_fold, fnv_fold_bytes, widen_bytes};
use crate::run_config::RunConfig;

verus! {

/// How normalization scales are trained.
#[derive(Clone, Copy, Debug, PartialEq, Eq, Structural)]
pub enum NormTraining {
    Legacy,
    Differentiable,
}

impl Default for NormTraining {
    fn default() -> (r: NormTraining)
        ensures
            r == NormTraining::Legacy,
    {
        NormTraining::Legacy
    }
}

/// A perturbation the recovery panel applies to a developed state.
#[derive(Clone, Copy, Debug, PartialEq, Eq, Structural)]
pub enum RecoveryCase {
    MicroNoise,
    MacroNoise,
    MicroPatch,
    MacroPatch,
    MemoryNoise,
    Combined,
}

impl RecoveryCase {
    pub open spec fn spec_as_str(self) -> Seq<char> {
        match self {
            RecoveryCase::MicroNoise => "micro_noise"@,
            RecoveryCase::MacroNoise => "macro_noise"@,
            RecoveryCase::MicroPatch => "micro_patch"@,
            RecoveryCase::MacroPatch => "macro_patch"@,
            RecoveryCase::MemoryNoise => "memory_noise"@,
            RecoveryCase::Combined => "combined"@,
        }
    }

    /// The case's name in reports.
    pub fn as_str(self) -> (r: &'static str)
        ensures
            r@ == self.spec_as_str(),
    {
        match self {
            RecoveryCase::MicroNoise => "micro_noise",
            RecoveryCase::MacroNoise => "macro_noise",
            RecoveryCase::MicroPatch => "micro_patch",
            RecoveryCase::MacroPatch => "macro_patch",
            RecoveryCase::MemoryNoise => "memory_noise",
            RecoveryCase::Combined => "combined",
        }
    }
}

/// Every recovery case, in report order.
pub open spec fn spec_default_recovery_cases() -> Seq<RecoveryCase> {
    seq![
        RecoveryCase::MicroNoise,
        RecoveryCase::MacroNoise,
        RecoveryCase::MicroPatch,
        RecoveryCase::MacroPatch,
        RecoveryCase::MemoryNoise,
        RecoveryCase::Combined,
    ]
}

pub fn default_recovery_cases() -> (r: Vec<RecoveryCase>)
    ensures
        r@ == spec_default_recovery_cases(),
{
    let mut v: Vec<RecoveryCase> = Vec::new();
    v.push(RecoveryCase::MicroNoise);
    v.push(RecoveryCase::MacroNoise);
    v.push(RecoveryCase::MicroPatch);
    v.push(RecoveryCase::MacroPatch);
    v.push(RecoveryCase::MemoryNoise);
    v.push(RecoveryCase::Combined);
    assert(v@ =~= spec_default_recovery_cases());
    v
}

/// Frozen evaluation controls, excluded from training compatibility signatures.
#[derive(Clone, Debug)]
pub struct PanelConfig {
    pub targets: Vec<usize>,
    pub seeds: Vec<u64>,
    pub burn_in: usize,
    pub diagnostic_ages: Vec<usize>,
    pub horizons: Vec<usize>,
    pub stride: usize,
    pub recovery_horizon: usize,
    pub recovery_cases: Vec<RecoveryCase>,
    pub history_capacity: usize,
    pub clock_robustness: bool,
}

/// The first guard that a panel fails.
#[derive(Clone, Copy, Debug, PartialEq, Eq, Structural)]
pub enum PanelViolation {
    /// The recovery horizon exceeds 2048 steps.
    RecoveryHorizon,
    /// A recovery case is listed twice.
    DuplicateRecoveryCase,
    /// Targets, seeds, a stride and a true burn-in are all needed.
    MissingSelection,
    /// Horizons must be given and lie in 1..=2048.
    Horizons,
    /// History over 1..=32, more than 16 targets or more than 8 seeds.
    Capacity,
    /// A diagnostic age exceeds the burn-in.
    DiagnosticAges,
}

pub open spec fn has_duplicate_case(cases: Seq<RecoveryCase>) -> bool {
    exists|i: int, j: int| 0 <= j < i < cases.len() && cases[i] == cases[j]
}

pub open spec fn spec_panel_violation(p: PanelConfig) -> Option<PanelViolation> {
    if p.recovery_horizon > 2048 {
        Some(PanelViolation::RecoveryHorizon)
    } else if has_duplicate_case(p.recovery_cases@) {
        Some(PanelViolation::DuplicateRecoveryCase)
    } else if p.targets@.len() == 0 || p.seeds@.len() == 0 || p.stride == 0 || p.burn_in == 0 {
        Some(PanelViolation::MissingSelection)
    } else if p.horizons@.len() == 0 || !(forall|i: int|
        0 <= i < p.horizons@.len() ==> 0 < #[trigger] p.horizons@[i] <= 2048) {
        Some(PanelViolation::Horizons)
    } else if !(p.history_capacity > 0 && p.history_capacity <= 32 && p.targets@.len() <= 16
        && p.seeds@.len() <= 8) {
        Some(PanelViolation::Capacity)
    } else if !(forall|i: int|
        0 <= i < p.diagnostic_ages@.len() ==> #[trigger] p.diagnostic_ages@[i] <= p.burn_in) {
        Some(PanelViolation::DiagnosticAges)
    } else {
        None
    }
}

fn duplicate_case(cases: &Vec<RecoveryCase>) -> (r: bool)
    ensures
        r == has_duplicate_case(cases@),
{
    let mut i: usize = 0;
    while i < cases.len()
        invariant
            i <= cases@.len(),
            forall|a: int, b: int| 0 <= b < a < i ==> cases@[a] != cases@[b],
        decreases cases@.len() - i,
    {
        let mut j: usize = 0;
        while j < i
            invariant
                i < cases@.len(),
                j <= i,
                forall|b: int| 0 <= b < j ==> cases@[i as int] != cases@[b],
            decreases i - j,
        {
            if cases[i] == cases[j] {
                return true;
            }
            j = j + 1;
        }
        i = i + 1;
    }
    false
}

fn horizons_in_range(horizons: &Vec<usize>) -> (r: bool)
    ensures
        r == forall|i: int| 0 <= i < horizons@.len() ==> 0 < #[trigger] horizons@[i] <= 2048,
{
    let mut i: usize = 0;
    while i < horizons.len()
        invariant
            i <= horizons@.len(),
            forall|t: int| 0 <= t < i ==> 0 < #[trigger] horizons@[t] <= 2048,
        decreases horizons@.len() - i,
    {
        if horizons[i] == 0 || horizons[i] > 2048 {
            return false;
        }
        i = i + 1;
    }
    true
}

fn all_at_most(values: &Vec<usize>, limit: usize) -> (r: bool)
    ensures
        r == forall|i: int| 0 <= i < values@.len() ==> #[trigger] values@[i] <= limit,
{
    let mut i: usize = 0;
    while i < values.len()
        invariant
            i <= values@.len(),
            forall|t: int| 0 <= t < i ==> #[trigger] values@[t] <= limit,
        decreases values@.len() - i,
    {
        if values[i] > limit {
            return false;
        }
        i = i + 1;
    }
    true
}

impl PanelConfig {
    /// Checks the panel's guards in order.
    pub fn validate(&self) -> (r: Result<(), PanelViolation>)
        ensures
            r == match spec_panel_violation(*self) {
                None => Ok::<(), PanelViolation>(()),
                Some(v) => Err(v),
            },
    {
        if self.recovery_horizon > 2048 {
            return Err(PanelViolation::RecoveryHorizon);
        }
        if duplicate_case(&self.recovery_cases) {
            return Err(PanelViolation::DuplicateRecoveryCase);
        }
        if self.targets.len() == 0 || self.seeds.len() == 0 || self.stride == 0 || self.burn_in == 0 {
            return Err(PanelViolation::MissingSelection);
        }
        if self.horizons.len() == 0 || !horizons_in_range(&self.horizons) {
            return Err(PanelViolation::Horizons);
        }
        if !(self.history_capacity > 0 && self.history_capacity <= 32 && self.targets.len() <= 16
            && self.seeds.len() <= 8) {
            return Err(PanelViolation::Capacity);
        }
        if !all_at_most(&self.diagnostic_ages, self.burn_in) {
            return Err(PanelViolation::DiagnosticAges);
        }
        Ok(())
    }
}

/// The schedule by which reference guidance is withdrawn over an episode:
/// full guidance while observing, a taper, then an autonomous tail without
/// guidance. Fidelities and the anchor probability are binary32 bit patterns.
#[derive(Clone, Copy, Debug)]
pub struct Withdrawal {
    pub observe: usize,
    pub taper: usize,
    pub autonomous_tail: usize,
    pub min_fidelity: u32,
    pub max_fidelity: u32,
    pub guided_anchor_probability: u32,
}

/// A penalty on saturated writes of both heads; binary32 bit patterns.
#[derive(Clone, Copy, Debug)]
pub struct SaturationPenalty {
    pub weight: u32,
    pub threshold: u32,
}

/// The opt-in training settings of a run.
#[derive(Clone, Debug)]
pub struct TrainingExperiment {
    pub norm: NormTraining,
    pub withdrawal: Option<Withdrawal>,
    pub saturation_penalty: Option<SaturationPenalty>,
    /// Output-only diagnostics; excluded from the learned-evolution signature.
    pub optimizer_diagnostics: bool,
    pub panel: Option<PanelConfig>,
}

/// Legacy normalization, no withdrawal, no penalty, no diagnostics, no panel.
pub open spec fn is_default_experiment(e: TrainingExperiment) -> bool {
    &&& e.norm == NormTraining::Legacy
    &&& e.withdrawal is None
    &&& e.saturation_penalty is None
    &&& !e.optimizer_diagnostics
    &&& e.panel is None
}

impl Default for TrainingExperiment {
    fn default() -> (r: TrainingExperiment)
        ensures
            is_default_experiment(r),
    {
        TrainingExperiment {
            norm: NormTraining::Legacy,
            withdrawal: None,
            saturation_penalty: None,
            optimizer_diagnostics: false,
            panel: None,
        }
    }
}

/// A penalty takes effect only with a weight above zero.
pub open spec fn penalty_in_effect(p: SaturationPenalty) -> bool {
    f32_lt(0, p.weight)
}

impl TrainingExperiment {
    /// The saturation penalty, where one is set with a weight above zero.
    pub open spec fn spec_active_penalty(self) -> Option<SaturationPenalty> {
        match self.saturation_penalty {
            Some(p) => if penalty_in_effect(p) {
                Some(p)
            } else {
                None
            },
            None => None,
        }
    }

    /// Whether the experiment leaves the legacy signature as its base.
    pub open spec fn keeps_legacy_base(self) -> bool {
        self.norm == NormTraining::Legacy && self.withdrawal is None
    }
}

/// The experiment's signature over `legacy`: the legacy value itself as the
/// base where normalization is legacy and nothing is withdrawn, else `legacy`
/// folded with `settings`; then, where a penalty is in effect, that base
/// folded with `penalty`.
pub open spec fn experiment_signature(
    e: TrainingExperiment,
    legacy: u64,
    settings: Seq<u8>,
    penalty: Seq<u8>,
) -> u64 {
    let base = if e.keeps_legacy_base() {
        legacy
    } else {
        fnv_fold(legacy, widen_bytes(settings))
    };
    if e.spec_active_penalty() is Some {
        fnv_fold(base, widen_bytes(penalty))
    } else {
        base
    }
}

/// The first guard that the experiment settings fail.
#[derive(Clone, Copy, Debug, PartialEq, Eq, Structural)]
pub enum ExperimentViolation {
    /// The saturation penalty needs a finite nonnegative weight and a positive threshold.
    SaturationPenalty,
    /// The evaluation panel fails one of its own guards.
    Panel(PanelViolation),
    /// Withdrawal needs fixed episodes whose age resets.
    WithdrawalEpisodes,
    /// The withdrawal phases must sum to the episode length.
    WithdrawalDurations,
    /// Withdrawal needs a nonempty autonomous tail.
    WithdrawalTail,
    /// Fidelities must satisfy 0 <= min <= max <= 1, the anchor probability 0..=1.
    WithdrawalFidelity,
}

/// `low <= value <= high` in the IEEE order.
pub open spec fn f32_between(value: u32, low: u32, high: u32) -> bool {
    f32_le(low, value) && f32_le(value, high)
}

pub open spec fn penalty_violation(p: SaturationPenalty) -> bool {
    !(f32_is_finite(p.weight) && f32_le(0, p.weight) && f32_is_finite(p.threshold) && f32_lt(
        0,
        p.threshold,
    ))
}

/// The first withdrawal guard that fails for `c`, where `variable_age` says
/// whether the run varies the age of its episodes.
pub open spec fn withdrawal_violation(w: Withdrawal, c: RunConfig, variable_age: bool) -> Option<
    ExperimentViolation,
> {
    if !(f32_lt(0, c.episode_reset) && !variable_age) {
        Some(ExperimentViolation::WithdrawalEpisodes)
    } else if w.observe + w.taper + w.autonomous_tail != c.episode_steps {
        Some(ExperimentViolation::WithdrawalDurations)
    } else if w.autonomous_tail == 0 {
        Some(ExperimentViolation::WithdrawalTail)
    } else if !(f32_between(w.min_fidelity, 0, F32_ONE) && f32_between(
        w.max_fidelity,
        w.min_fidelity,
        F32_ONE,
    ) && f32_between(w.guided_anchor_probability, 0, F32_ONE)) {
        Some(ExperimentViolation::WithdrawalFidelity)
    } else {
        None
    }
}

/// The first guard that `e` fails for `c`: the penalty, then the panel, then
/// the withdrawal schedule.
pub open spec fn experiment_violation(e: TrainingExperiment, c: RunConfig, variable_age: bool) -> Option<
    ExperimentViolation,
> {
    if e.saturation_penalty is Some && penalty_violation(e.saturation_penalty->0) {
        Some(ExperimentViolation::SaturationPenalty)
    } else if e.panel is Some && spec_panel_violation(e.panel->0) is Some {
        Some(ExperimentViolation::Panel(spec_panel_violation(e.panel->0)->0))
    } else if e.withdrawal is Some {
        withdrawal_violation(e.withdrawal->0, c, variable_age)
    } else {
        None
    }
}

fn check_withdrawal(w: &Withdrawal, config: &RunConfig, variable_age: bool) -> (r: Option<
    ExperimentViolation,
>)
    ensures
        r == withdrawal_violation(*w, *config, variable_age),
{
    if !(f32_less(0, config.episode_reset) && !variable_age) {
        return Some(ExperimentViolation::WithdrawalEpisodes);
    }
    let total = match w.observe.checked_add(w.taper) {
        Some(n) => n.checked_add(w.autonomous_tail),
        None => None,
    };
    let sums = match total {
        Some(n) => n == config.episode_steps,
        None => false,
    };
    if !sums {
        return Some(ExperimentViolation::WithdrawalDurations);
    }
    if w.autonomous_tail == 0 {
        return Some(ExperimentViolation::WithdrawalTail);
    }
    let min_ok = f32_less_equal(0, w.min_fidelity) && f32_less_equal(w.min_fidelity, F32_ONE);
    let max_ok = f32_less_equal(w.min_fidelity, w.max_fidelity) && f32_less_equal(
        w.max_fidelity,
        F32_ONE,
    );
    let anchor_ok = f32_less_equal(0, w.guided_anchor_probability) && f32_less_equal(
        w.guided_anchor_probability,
        F32_ONE,
    );
    if !(min_ok && max_ok && anchor_ok) {
        return Some(ExperimentViolation::WithdrawalFidelity);
    }
    None
}

impl TrainingExperiment {
    /// The saturation penalty, where one is set with a weight above zero.
    pub fn active_saturation_penalty(&self) -> (r: Option<&SaturationPenalty>)
        ensures
            match r {
                Some(p) => self.spec_active_penalty() == Some(*p),
                None => self.spec_active_penalty() is None,
            },
    {
        match &self.saturation_penalty {
            Some(p) => if f32_less(0, p.weight) {
                Some(p)
            } else {
                None
            },
            None => None,
        }
    }

    /// The signature of a run under these settings, from its `legacy` signature.
    /// `settings` is the JSON encoding of the tag "training-experiment-v1", the
    /// normalization mode and the withdrawal schedule; `penalty` that of the tag
    /// "write-saturation-v1" and the active penalty. Each is folded in only
    /// where it matters, so the default settings give `legacy` back.
    pub fn signature(&self, legacy: u64, settings: &[u8], penalty: &[u8]) -> (r: u64)
        ensures
            r == experiment_signature(*self, legacy, settings@, penalty@),
    {
        let base = if matches!(self.norm, NormTraining::Legacy) && self.withdrawal.is_none() {
            legacy
        } else {
            fnv_fold_bytes(legacy, settings)
        };
        match self.active_saturation_penalty() {
            Some(_) => fnv_fold_bytes(base, penalty),
            None => base,
        }
    }

    /// Checks the settings against the run: the penalty, the panel, then the
    /// withdrawal schedule. `variable_age` says whether the run varies the age
    /// of its episodes.
    pub fn validate(&self, config: &RunConfig, variable_age: bool) -> (r: Result<(), ExperimentViolation>)
        ensures
            r == match experiment_violation(*self, *config, variable_age) {
                None => Ok::<(), ExperimentViolation>(()),
                Some(v) => Err(v),
            },
    {
        if let Some(p) = &self.saturation_penalty {
            if !(f32_finite(p.weight) && f32_less_equal(0, p.weight) && f32_finite(p.threshold)
                && f32_less(0, p.threshold)) {
                return Err(ExperimentViolation::SaturationPenalty);
            }
        }
        if let Some(p) = &self.panel {
            match p.validate() {
                Ok(()) => {},
                Err(v) => {
                    return Err(ExperimentViolation::Panel(v));
                },
            }
        }
        if let Some(w) = &self.withdrawal {
            match check_withdrawal(w, config, variable_age) {
                Some(v) => {
                    return Err(v);
                },
                None => {},
            }
        }
        Ok(())
    }
}

/// Settings that keep legacy normalization, withdraw nothing and put no
/// penalty in effect give every run its legacy signature back, whatever the
/// encodings.
pub proof fn lemma_legacy_settings_keep_signature(
    e: TrainingExperiment,
    legacy: u64,
    settings: Seq<u8>,
    penalty: Seq<u8>,
)
    requires
        e.keeps_legacy_base(),
        e.spec_active_penalty() is None,
    ensures
        experiment_signature(e, legacy, settings, penalty) == legacy,
{
}

/// The default settings preserve the legacy signature.
pub proof fn lemma_default_experiment_keeps_signature(
    e: TrainingExperiment,
    legacy: u64,
    settings: Seq<u8>,
    penalty: Seq<u8>,
)
    requires
        is_default_experiment(e),
    ensures
        experiment_signature(e, legacy, settings, penalty) == legacy,
{
    lemma_legacy_settings_keep_signature(e, legacy, settings, penalty);
}

/// Output-only diagnostics and the evaluation panel never change the signature.
pub proof fn lemma_signature_ignores_diagnostics_and_panel(
    e: TrainingExperiment,
    diagnostics: bool,
    panel: Option<PanelConfig>,
    legacy: u64,
    settings: Seq<u8>,
    penalty: Seq<u8>,
)
    ensures
        experiment_signature(
            (TrainingExperiment { optimizer_diagnostics: diagnostics, panel: panel, ..e }),
            legacy,
            settings,
            penalty,
        ) == experiment_signature(e, legacy, settings, penalty),
{
}

/// The guards pass exactly when every one of their conditions holds.
pub proof fn lemma_spec_panel_violation_none_exactly_when_guards_hold(p: PanelConfig)
    ensures
        spec_panel_violation(p) is None <==> {
            &&& !(p.recovery_horizon > 2048)
            &&& !(has_duplicate_case(p.recovery_cases@))
            &&& !(p.targets@.len() == 0 || p.seeds@.len() == 0 || p.stride == 0 || p.burn_in == 0)
            &&& !(p.horizons@.len() == 0 || !(forall|i: int|
        0 <= i < p.horizons@.len() ==> 0 < #[trigger] p.horizons@[i] <= 2048))
            &&& !(!(p.history_capacity > 0 && p.history_capacity <= 32 && p.targets@.len() <= 16
        && p.seeds@.len() <= 8))
            &&& !(!(forall|i: int|
        0 <= i < p.diagnostic_ages@.len() ==> #[trigger] p.diagnostic_ages@[i] <= p.burn_in))
        },
{
}

/// Each violation reported names a guard whose condition fails.
pub proof fn lemma_spec_panel_violation_reports_a_failing_guard(p: PanelConfig)
    ensures
        spec_panel_violation(p) == Some(PanelViolation::RecoveryHorizon) ==> (p.recovery_horizon > 2048),
        spec_panel_violation(p) == Some(PanelViolation::DuplicateRecoveryCase) ==> (has_duplicate_case(p.recovery_cases@)),
        spec_panel_violation(p) == Some(PanelViolation::MissingSelection) ==> (p.targets@.len() == 0 || p.seeds@.len() == 0 || p.stride == 0 || p.burn_in == 0),
        spec_panel_violation(p) == Some(PanelViolation::Horizons) ==> (p.horizons@.len() == 0 || !(forall|i: int|
        0 <= i < p.horizons@.len() ==> 0 < #[trigger] p.horizons@[i] <= 2048)),
        spec_panel_violation(p) == Some(PanelViolation::Capacity) ==> (!(p.history_capacity > 0 && p.history_capacity <= 32 && p.targets@.len() <= 16
        && p.seeds@.len() <= 8)),
        spec_panel_violation(p) == Some(PanelViolation::DiagnosticAges) ==> (!(forall|i: int|
        0 <= i < p.diagnostic_ages@.len() ==> #[trigger] p.diagnostic_ages@[i] <= p.burn_in)),
{
}

/// The guards pass exactly when every one of their conditions holds.
pub proof fn lemma_withdrawal_violation_none_exactly_when_guards_hold(w: Withdrawal, c: RunConfig, variable_age: bool)
    ensures
        withdrawal_violation(w, c, variable_age) is None <==> {
            &&& !(!(f32_lt(0, c.episode_reset) && !variable_age))
            &&& !(w.observe + w.taper + w.autonomous_tail != c.episode_steps)
            &&& !(w.autonomous_tail == 0)
            &&& !(!(f32_between(w.min_fidelity, 0, F32_ONE) && f32_between(
        w.max_fidelity,
        w.min_fidelity,
        F32_ONE,
    ) && f32_between(w.guided_anchor_probability, 0, F32_ONE)))
        },
{
}

/// Each violation reported names a guard whose condition fails.
pub proof fn lemma_withdrawal_violation_reports_a_failing_guard(w: Withdrawal, c: RunConfig, variable_age: bool)
    ensures
        withdrawal_violation(w, c, variable_age) == Some(ExperimentViolation::WithdrawalEpisodes) ==> (!(f32_lt(0, c.episode_reset) && !variable_age)),
        withdrawal_violation(w, c, variable_age) == Some(ExperimentViolation::WithdrawalDurations) ==> (w.observe + w.taper + w.autonomous_tail != c.episode_steps),
        withdrawal_violation(w, c, variable_age) == Some(ExperimentViolation::WithdrawalTail) ==> (w.autonomous_tail == 0),
        withdrawal_violation(w, c, variable_age) == Some(ExperimentViolation::WithdrawalFidelity) ==> (!(f32_between(w.min_fidelity, 0, F32_ONE) && f32_between(
        w.max_fidelity,
        w.min_fidelity,
        F32_ONE,
    ) && f32_between(w.guided_anchor_probability, 0, F32_ONE))),
{
}

/// The opt-in settings pass exactly when a set penalty has a finite
/// nonnegative weight and a positive finite threshold, a set panel passes its
/// guards, and a set withdrawal schedule passes its guards.
pub proof fn lemma_experiment_violation_none_exactly_when_guards_hold(
    e: TrainingExperiment,
    c: RunConfig,
    variable_age: bool,
)
    ensures
        experiment_violation(e, c, variable_age) is None <==> {
            &&& (e.saturation_penalty matches Some(p) ==> f32_is_finite(p.weight) && f32_le(0, p.weight)
                && f32_is_finite(p.threshold) && f32_lt(0, p.threshold))
            &&& (e.panel matches Some(p) ==> spec_panel_violation(p) is None)
            &&& (e.withdrawal matches Some(w) ==> withdrawal_violation(w, c, variable_age) is None)
        },
{
}

/// The default settings: legacy normalization, and no withdrawal, penalty,
/// diagnostics or panel.
pub proof fn lemma_default_experiment_settings(e: TrainingExperiment)
    ensures
        is_default_experiment(e) <==> (e.norm == NormTraining::Legacy && e.withdrawal is None
            && e.saturation_penalty is None && !e.optimizer_diagnostics && e.panel is None),
{
}

/// A penalty is in effect exactly when it is set with a weight above zero in
/// the IEEE order.
pub proof fn lemma_active_penalty(e: TrainingExperiment)
    ensures
        e.spec_active_penalty() is Some <==> (e.saturation_penalty matches Some(p) && f32_lt(0, p.weight)),
        e.spec_active_penalty() matches Some(p) ==> e.saturation_penalty == Some(p),
{
}

/// The first guard, in checking order, whose condition fails decides the violation.
pub proof fn lemma_spec_panel_violation_checked_in_order(p: PanelConfig)
    ensures
        (p.recovery_horizon > 2048) ==> spec_panel_violation(p) == Some(PanelViolation::RecoveryHorizon),
        !(p.recovery_horizon > 2048) && (has_duplicate_case(p.recovery_cases@)) ==> spec_panel_violation(p) == Some(PanelViolation::DuplicateRecoveryCase),
        !(p.recovery_horizon > 2048) && !(has_duplicate_case(p.recovery_cases@)) && (p.targets@.len() == 0 || p.seeds@.len() == 0 || p.stride == 0 || p.burn_in == 0) ==> spec_panel_violation(p) == Some(PanelViolation::MissingSelection),
        !(p.recovery_horizon > 2048) && !(has_duplicate_case(p.recovery_cases@)) && !(p.targets@.len() == 0 || p.seeds@.len() == 0 || p.stride == 0 || p.burn_in == 0) && (p.horizons@.len() == 0 || !(forall|i: int|
        0 <= i < p.horizons@.len() ==> 0 < #[trigger] p.horizons@[i] <= 2048)) ==> spec_panel_violation(p) == Some(PanelViolation::Horizons),
        !(p.recovery_horizon > 2048) && !(has_duplicate_case(p.recovery_cases@)) && !(p.targets@.len() == 0 || p.seeds@.len() == 0 || p.stride == 0 || p.burn_in == 0) && !(p.horizons@.len() == 0 || !(forall|i: int|
        0 <= i < p.horizons@.len() ==> 0 < #[trigger] p.horizons@[i] <= 2048)) && (!(p.history_capacity > 0 && p.history_capacity <= 32 && p.targets@.len() <= 16
        && p.seeds@.len() <= 8)) ==> spec_panel_violation(p) == Some(PanelViolation::Capacity),
        !(p.recovery_horizon > 2048) && !(has_duplicate_case(p.recovery_cases@)) && !(p.targets@.len() == 0 || p.seeds@.len() == 0 || p.stride == 0 || p.burn_in == 0) && !(p.horizons@.len() == 0 || !(forall|i: int|
        0 <= i < p.horizons@.len() ==> 0 < #[trigger] p.horizons@[i] <= 2048)) && !(!(p.history_capacity > 0 && p.history_capacity <= 32 && p.targets@.len() <= 16
        && p.seeds@.len() <= 8)) && (!(forall|i: int|
        0 <= i < p.diagnostic_ages@.len() ==> #[trigger] p.diagnostic_ages@[i] <= p.burn_in)) ==> spec_panel_violation(p) == Some(PanelViolation::DiagnosticAges),
{
}

/// The first guard, in checking order, whose condition fails decides the violation.
pub proof fn lemma_withdrawal_violation_checked_in_order(w: Withdrawal, c: RunConfig, variable_age: bool)
    ensures
        (!(f32_lt(0, c.episode_reset) && !variable_age)) ==> withdrawal_violation(w, c, variable_age) == Some(ExperimentViolation::WithdrawalEpisodes),
        !(!(f32_lt(0, c.episode_reset) && !variable_age)) && (w.observe + w.taper + w.autonomous_tail != c.episode_steps) ==> withdrawal_violation(w, c, variable_age) == Some(ExperimentViolation::WithdrawalDurations),
        !(!(f32_lt(0, c.episode_reset) && !variable_age)) && !(w.observe + w.taper + w.autonomous_tail != c.episode_steps) && (w.autonomous_tail == 0) ==> withdrawal_violation(w, c, variable_age) == Some(ExperimentViolation::WithdrawalTail),
        !(!(f32_lt(0, c.episode_reset) && !variable_age)) && !(w.observe + w.taper + w.autonomous_tail != c.episode_steps) && !(w.autonomous_tail == 0) && (!(f32_between(w.min_fidelity, 0, F32_ONE) && f32_between(
        w.max_fidelity,
        w.min_fidelity,
        F32_ONE,
    ) && f32_between(w.guided_anchor_probability, 0, F32_ONE))) ==> withdrawal_violation(w, c, variable_age) == Some(ExperimentViolation::WithdrawalFidelity),
{
}

} // verus!
