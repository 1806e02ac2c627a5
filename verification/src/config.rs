//! Command-line choices and the errors that configuration parsing reports.
use vstd::prelude::*;
use crate::text::str_eq;
use crate::validation::Violation;

verus! {

/// The option whose value names one of a fixed set of choices.
#[derive(Clone, Copy, Debug, PartialEq, Eq, Structural)]
pub enum ChoiceOption {
    Mode,
    Profile,
    Style,
    Integrator,
    Conditioning,
    Optimizer,
    Objective,
    MorphDepthMode,
    TargetBoundary,
    Terminal,
    ResearchPreset,
}

/// Why a command line or a configuration was refused.
#[derive(Clone, Debug)]
pub enum CliError {
    /// The value is not one of the spellings that the option accepts.
    InvalidChoice { option: ChoiceOption, value: String },
    /// The option is the last argument and has no value.
    MissingValue { flag: String },
    /// The value does not parse as the option's number type.
    InvalidNumber { flag: String, value: String },
    /// A comma-separated list option was given an empty value.
    EmptyList { flag: String },
    /// The run tag is not 1..=64 ASCII letters, digits, '-' or '_'.
    InvalidRunTag,
    /// The argument is not a known option.
    UnknownOption { flag: String },
    /// `--corpus-dir` was never given.
    MissingCorpusDir,
    /// The resolved configuration fails a guard.
    Invalid(Violation),
}

/// `r` is the outcome of parsing `value` into the choice `parsed` names.
pub open spec fn choice_outcome<T>(
    r: Result<T, CliError>,
    parsed: Option<T>,
    option: ChoiceOption,
    value: Seq<char>,
) -> bool {
    match parsed {
        Some(choice) => r == Ok::<T, CliError>(choice),
        None => match r {
            Err(CliError::InvalidChoice { option: o, value: v }) => o == option && v@ == value,
            _ => false,
        },
    }
}

/// How the corpus is scheduled into training episodes.
#[derive(Clone, Copy, Debug, PartialEq, Eq, Structural)]
pub enum TrainingMode {
    Single,
    Family,
    Texture,
}

impl TrainingMode {
    /// The variant that a command-line spelling names, if any.
    pub open spec fn spec_parse(value: Seq<char>) -> Option<TrainingMode> {
        if value == "single"@ {
            Some(TrainingMode::Single)
        } else if value == "family"@ {
            Some(TrainingMode::Family)
        } else if value == "texture"@ {
            Some(TrainingMode::Texture)
        } else {
            None
        }
    }

    pub fn parse(value: &str) -> (r: Result<TrainingMode, CliError>)
        ensures
            choice_outcome(r, TrainingMode::spec_parse(value@), ChoiceOption::Mode, value@),
    {
        if str_eq(value, "single") {
            Ok(TrainingMode::Single)
        } else if str_eq(value, "family") {
            Ok(TrainingMode::Family)
        } else if str_eq(value, "texture") {
            Ok(TrainingMode::Texture)
        } else {
            Err(CliError::InvalidChoice { option: ChoiceOption::Mode, value: value.to_owned() })
        }
    }
}

/// Compute profile that sizes the fields and model.
#[derive(Clone, Copy, Debug, PartialEq, Eq, Structural)]
pub enum PhoneProfile {
    S25Fast,
    S25Balanced,
    S25Quality,
}

impl PhoneProfile {
    /// The variant that a command-line spelling names, if any.
    pub open spec fn spec_parse(value: Seq<char>) -> Option<PhoneProfile> {
        if value == "s25-fast"@ {
            Some(PhoneProfile::S25Fast)
        } else if value == "s25-balanced"@ || value == "balanced"@ {
            Some(PhoneProfile::S25Balanced)
        } else if value == "s25-quality"@ || value == "quality"@ {
            Some(PhoneProfile::S25Quality)
        } else {
            None
        }
    }

    pub fn parse(value: &str) -> (r: Result<PhoneProfile, CliError>)
        ensures
            choice_outcome(r, PhoneProfile::spec_parse(value@), ChoiceOption::Profile, value@),
    {
        if str_eq(value, "s25-fast") {
            Ok(PhoneProfile::S25Fast)
        } else if str_eq(value, "s25-balanced") || str_eq(value, "balanced") {
            Ok(PhoneProfile::S25Balanced)
        } else if str_eq(value, "s25-quality") || str_eq(value, "quality") {
            Ok(PhoneProfile::S25Quality)
        } else {
            Err(CliError::InvalidChoice { option: ChoiceOption::Profile, value: value.to_owned() })
        }
    }
}

/// Base gains of the physical operators.
#[derive(Clone, Copy, Debug, PartialEq, Eq, Structural)]
pub enum StylePreset {
    AlienFluid,
    FractalFlame,
    ReactionGarden,
    Quasicrystal,
    PureNca,
}

impl StylePreset {
    /// The variant that a command-line spelling names, if any.
    pub open spec fn spec_parse(value: Seq<char>) -> Option<StylePreset> {
        if value == "alien-fluid"@ || value == "alien"@ {
            Some(StylePreset::AlienFluid)
        } else if value == "fractal-flame"@ || value == "fractal"@ {
            Some(StylePreset::FractalFlame)
        } else if value == "reaction-garden"@ || value == "reaction"@ {
            Some(StylePreset::ReactionGarden)
        } else if value == "quasicrystal"@ || value == "quasi"@ {
            Some(StylePreset::Quasicrystal)
        } else if value == "pure-nca"@ {
            Some(StylePreset::PureNca)
        } else {
            None
        }
    }

    pub fn parse(value: &str) -> (r: Result<StylePreset, CliError>)
        ensures
            choice_outcome(r, StylePreset::spec_parse(value@), ChoiceOption::Style, value@),
    {
        if str_eq(value, "alien-fluid") || str_eq(value, "alien") {
            Ok(StylePreset::AlienFluid)
        } else if str_eq(value, "fractal-flame") || str_eq(value, "fractal") {
            Ok(StylePreset::FractalFlame)
        } else if str_eq(value, "reaction-garden") || str_eq(value, "reaction") {
            Ok(StylePreset::ReactionGarden)
        } else if str_eq(value, "quasicrystal") || str_eq(value, "quasi") {
            Ok(StylePreset::Quasicrystal)
        } else if str_eq(value, "pure-nca") {
            Ok(StylePreset::PureNca)
        } else {
            Err(CliError::InvalidChoice { option: ChoiceOption::Style, value: value.to_owned() })
        }
    }
}

/// Development integration scheme.
#[derive(Clone, Copy, Debug, PartialEq, Eq, Structural)]
pub enum Integrator {
    Euler,
    Midpoint,
}

impl Integrator {
    /// The variant that a command-line spelling names, if any.
    pub open spec fn spec_parse(value: Seq<char>) -> Option<Integrator> {
        if value == "euler"@ {
            Some(Integrator::Euler)
        } else if value == "midpoint"@ || value == "rk2"@ {
            Some(Integrator::Midpoint)
        } else {
            None
        }
    }

    pub fn parse(value: &str) -> (r: Result<Integrator, CliError>)
        ensures
            choice_outcome(r, Integrator::spec_parse(value@), ChoiceOption::Integrator, value@),
    {
        if str_eq(value, "euler") {
            Ok(Integrator::Euler)
        } else if str_eq(value, "midpoint") || str_eq(value, "rk2") {
            Ok(Integrator::Midpoint)
        } else {
            Err(CliError::InvalidChoice { option: ChoiceOption::Integrator, value: value.to_owned() })
        }
    }
}

/// How strongly the reference image conditions development.
#[derive(Clone, Copy, Debug, PartialEq, Eq, Structural)]
pub enum ConditioningMode {
    Generate,
    Hybrid,
    Reconstruct,
}

impl ConditioningMode {
    /// The variant that a command-line spelling names, if any.
    pub open spec fn spec_parse(value: Seq<char>) -> Option<ConditioningMode> {
        if value == "generate"@ || value == "unconditioned"@ {
            Some(ConditioningMode::Generate)
        } else if value == "hybrid"@ {
            Some(ConditioningMode::Hybrid)
        } else if value == "reconstruct"@ || value == "reconstruction"@ {
            Some(ConditioningMode::Reconstruct)
        } else {
            None
        }
    }

    pub fn parse(value: &str) -> (r: Result<ConditioningMode, CliError>)
        ensures
            choice_outcome(r, ConditioningMode::spec_parse(value@), ChoiceOption::Conditioning, value@),
    {
        if str_eq(value, "generate") || str_eq(value, "unconditioned") {
            Ok(ConditioningMode::Generate)
        } else if str_eq(value, "hybrid") {
            Ok(ConditioningMode::Hybrid)
        } else if str_eq(value, "reconstruct") || str_eq(value, "reconstruction") {
            Ok(ConditioningMode::Reconstruct)
        } else {
            Err(CliError::InvalidChoice { option: ChoiceOption::Conditioning, value: value.to_owned() })
        }
    }
}

/// Parameter update rule.
#[derive(Clone, Copy, Debug, PartialEq, Eq, Structural)]
pub enum OptimizerKind {
    AdamW,
    HybridMuon,
}

impl OptimizerKind {
    /// The variant that a command-line spelling names, if any.
    pub open spec fn spec_parse(value: Seq<char>) -> Option<OptimizerKind> {
        if value == "adamw"@ {
            Some(OptimizerKind::AdamW)
        } else if value == "hybrid-muon"@ || value == "muon"@ {
            Some(OptimizerKind::HybridMuon)
        } else {
            None
        }
    }

    pub fn parse(value: &str) -> (r: Result<OptimizerKind, CliError>)
        ensures
            choice_outcome(r, OptimizerKind::spec_parse(value@), ChoiceOption::Optimizer, value@),
    {
        if str_eq(value, "adamw") {
            Ok(OptimizerKind::AdamW)
        } else if str_eq(value, "hybrid-muon") || str_eq(value, "muon") {
            Ok(OptimizerKind::HybridMuon)
        } else {
            Err(CliError::InvalidChoice { option: ChoiceOption::Optimizer, value: value.to_owned() })
        }
    }
}

/// Training objective.
#[derive(Clone, Copy, Debug, PartialEq, Eq, Structural)]
pub enum ObjectiveMode {
    Endpoint,
    ReconstructionPlus,
    Flow,
    HybridFlow,
}

impl ObjectiveMode {
    /// The variant that a command-line spelling names, if any.
    pub open spec fn spec_parse(value: Seq<char>) -> Option<ObjectiveMode> {
        if value == "endpoint"@ {
            Some(ObjectiveMode::Endpoint)
        } else if value == "reconstruction-plus"@ || value == "reconstruction++"@ || value == "reconstruction"@ {
            Some(ObjectiveMode::ReconstructionPlus)
        } else if value == "flow"@ || value == "flow-matching"@ {
            Some(ObjectiveMode::Flow)
        } else if value == "hybrid-flow"@ || value == "endpoint-flow"@ {
            Some(ObjectiveMode::HybridFlow)
        } else {
            None
        }
    }

    pub fn parse(value: &str) -> (r: Result<ObjectiveMode, CliError>)
        ensures
            choice_outcome(r, ObjectiveMode::spec_parse(value@), ChoiceOption::Objective, value@),
    {
        if str_eq(value, "endpoint") {
            Ok(ObjectiveMode::Endpoint)
        } else if str_eq(value, "reconstruction-plus") || str_eq(value, "reconstruction++") || str_eq(value, "reconstruction") {
            Ok(ObjectiveMode::ReconstructionPlus)
        } else if str_eq(value, "flow") || str_eq(value, "flow-matching") {
            Ok(ObjectiveMode::Flow)
        } else if str_eq(value, "hybrid-flow") || str_eq(value, "endpoint-flow") {
            Ok(ObjectiveMode::HybridFlow)
        } else {
            Err(CliError::InvalidChoice { option: ChoiceOption::Objective, value: value.to_owned() })
        }
    }
}

/// How many morphic blocks start active.
#[derive(Clone, Copy, Debug, PartialEq, Eq, Structural)]
pub enum MorphDepthMode {
    Fixed,
    Capacity,
    Adaptive,
}

impl MorphDepthMode {
    /// The variant that a command-line spelling names, if any.
    pub open spec fn spec_parse(value: Seq<char>) -> Option<MorphDepthMode> {
        if value == "fixed"@ {
            Some(MorphDepthMode::Fixed)
        } else if value == "capacity"@ {
            Some(MorphDepthMode::Capacity)
        } else if value == "adaptive"@ {
            Some(MorphDepthMode::Adaptive)
        } else {
            None
        }
    }

    pub fn parse(value: &str) -> (r: Result<MorphDepthMode, CliError>)
        ensures
            choice_outcome(r, MorphDepthMode::spec_parse(value@), ChoiceOption::MorphDepthMode, value@),
    {
        if str_eq(value, "fixed") {
            Ok(MorphDepthMode::Fixed)
        } else if str_eq(value, "capacity") {
            Ok(MorphDepthMode::Capacity)
        } else if str_eq(value, "adaptive") {
            Ok(MorphDepthMode::Adaptive)
        } else {
            Err(CliError::InvalidChoice { option: ChoiceOption::MorphDepthMode, value: value.to_owned() })
        }
    }
}

/// Boundary treatment of the supervision target.
#[derive(Clone, Copy, Debug, PartialEq, Eq, Structural)]
pub enum BoundaryMode {
    Natural,
    Periodic,
    Crop,
}

impl BoundaryMode {
    /// The variant that a command-line spelling names, if any.
    pub open spec fn spec_parse(value: Seq<char>) -> Option<BoundaryMode> {
        if value == "natural"@ {
            Some(BoundaryMode::Natural)
        } else if value == "periodic"@ || value == "texture"@ {
            Some(BoundaryMode::Periodic)
        } else if value == "crop"@ || value == "interior"@ {
            Some(BoundaryMode::Crop)
        } else {
            None
        }
    }

    pub fn parse(value: &str) -> (r: Result<BoundaryMode, CliError>)
        ensures
            choice_outcome(r, BoundaryMode::spec_parse(value@), ChoiceOption::TargetBoundary, value@),
    {
        if str_eq(value, "natural") {
            Ok(BoundaryMode::Natural)
        } else if str_eq(value, "periodic") || str_eq(value, "texture") {
            Ok(BoundaryMode::Periodic)
        } else if str_eq(value, "crop") || str_eq(value, "interior") {
            Ok(BoundaryMode::Crop)
        } else {
            Err(CliError::InvalidChoice { option: ChoiceOption::TargetBoundary, value: value.to_owned() })
        }
    }
}

/// Console reporting style.
#[derive(Clone, Copy, Debug, PartialEq, Eq, Structural)]
pub enum TerminalMode {
    Compact,
    Rich,
    Quiet,
}

impl TerminalMode {
    /// The variant that a command-line spelling names, if any.
    pub open spec fn spec_parse(value: Seq<char>) -> Option<TerminalMode> {
        if value == "compact"@ {
            Some(TerminalMode::Compact)
        } else if value == "rich"@ {
            Some(TerminalMode::Rich)
        } else if value == "quiet"@ {
            Some(TerminalMode::Quiet)
        } else {
            None
        }
    }

    pub fn parse(value: &str) -> (r: Result<TerminalMode, CliError>)
        ensures
            choice_outcome(r, TerminalMode::spec_parse(value@), ChoiceOption::Terminal, value@),
    {
        if str_eq(value, "compact") {
            Ok(TerminalMode::Compact)
        } else if str_eq(value, "rich") {
            Ok(TerminalMode::Rich)
        } else if str_eq(value, "quiet") {
            Ok(TerminalMode::Quiet)
        } else {
            Err(CliError::InvalidChoice { option: ChoiceOption::Terminal, value: value.to_owned() })
        }
    }
}

/// Grounding/emergence operating regime.
#[derive(Clone, Copy, Debug, PartialEq, Eq, Structural)]
pub enum ResearchPreset {
    StrictReconstruct,
    ReconstructionPlus,
    GroundedEmergent,
    FreeMorph,
    FlowReconstruct,
}

impl ResearchPreset {
    /// The variant that a command-line spelling names, if any.
    pub open spec fn spec_parse(value: Seq<char>) -> Option<ResearchPreset> {
        if value == "strict-reconstruct"@ {
            Some(ResearchPreset::StrictReconstruct)
        } else if value == "reconstruction-plus"@ || value == "default"@ {
            Some(ResearchPreset::ReconstructionPlus)
        } else if value == "grounded-emergent"@ {
            Some(ResearchPreset::GroundedEmergent)
        } else if value == "free-morph"@ {
            Some(ResearchPreset::FreeMorph)
        } else if value == "flow-reconstruct"@ {
            Some(ResearchPreset::FlowReconstruct)
        } else {
            None
        }
    }

    pub fn parse(value: &str) -> (r: Result<ResearchPreset, CliError>)
        ensures
            choice_outcome(r, ResearchPreset::spec_parse(value@), ChoiceOption::ResearchPreset, value@),
    {
        if str_eq(value, "strict-reconstruct") {
            Ok(ResearchPreset::StrictReconstruct)
        } else if str_eq(value, "reconstruction-plus") || str_eq(value, "default") {
            Ok(ResearchPreset::ReconstructionPlus)
        } else if str_eq(value, "grounded-emergent") {
            Ok(ResearchPreset::GroundedEmergent)
        } else if str_eq(value, "free-morph") {
            Ok(ResearchPreset::FreeMorph)
        } else if str_eq(value, "flow-reconstruct") {
            Ok(ResearchPreset::FlowReconstruct)
        } else {
            Err(CliError::InvalidChoice { option: ChoiceOption::ResearchPreset, value: value.to_owned() })
        }
    }
}
impl ObjectiveMode {
    /// Every objective but pure flow trains the endpoint reconstruction.
    pub fn uses_endpoint(self) -> (r: bool)
        ensures
            r == (self != ObjectiveMode::Flow),
    {
        !matches!(self, ObjectiveMode::Flow)
    }

    /// Flow and hybrid-flow train the conditional rectified flow.
    pub fn uses_flow(self) -> (r: bool)
        ensures
            r == (self == ObjectiveMode::Flow || self == ObjectiveMode::HybridFlow),
    {
        matches!(self, ObjectiveMode::Flow | ObjectiveMode::HybridFlow)
    }
}

impl TrainingMode {
    /// Declaration index, as folded into configuration signatures.
    pub open spec fn ordinal(self) -> u64 {
        match self {
            TrainingMode::Single => 0,
            TrainingMode::Family => 1,
            TrainingMode::Texture => 2,
        }
    }

    pub fn code(self) -> (r: u64)
        ensures
            r == self.ordinal(),
    {
        match self {
            TrainingMode::Single => 0,
            TrainingMode::Family => 1,
            TrainingMode::Texture => 2,
        }
    }
}

impl StylePreset {
    /// Declaration index, as folded into configuration signatures.
    pub open spec fn ordinal(self) -> u64 {
        match self {
            StylePreset::AlienFluid => 0,
            StylePreset::FractalFlame => 1,
            StylePreset::ReactionGarden => 2,
            StylePreset::Quasicrystal => 3,
            StylePreset::PureNca => 4,
        }
    }

    pub fn code(self) -> (r: u64)
        ensures
            r == self.ordinal(),
    {
        match self {
            StylePreset::AlienFluid => 0,
            StylePreset::FractalFlame => 1,
            StylePreset::ReactionGarden => 2,
            StylePreset::Quasicrystal => 3,
            StylePreset::PureNca => 4,
        }
    }
}

impl Integrator {
    /// Declaration index, as folded into configuration signatures.
    pub open spec fn ordinal(self) -> u64 {
        match self {
            Integrator::Euler => 0,
            Integrator::Midpoint => 1,
        }
    }

    pub fn code(self) -> (r: u64)
        ensures
            r == self.ordinal(),
    {
        match self {
            Integrator::Euler => 0,
            Integrator::Midpoint => 1,
        }
    }
}

impl ConditioningMode {
    /// Declaration index, as folded into configuration signatures.
    pub open spec fn ordinal(self) -> u64 {
        match self {
            ConditioningMode::Generate => 0,
            ConditioningMode::Hybrid => 1,
            ConditioningMode::Reconstruct => 2,
        }
    }

    pub fn code(self) -> (r: u64)
        ensures
            r == self.ordinal(),
    {
        match self {
            ConditioningMode::Generate => 0,
            ConditioningMode::Hybrid => 1,
            ConditioningMode::Reconstruct => 2,
        }
    }
}

impl OptimizerKind {
    /// Declaration index, as folded into configuration signatures.
    pub open spec fn ordinal(self) -> u64 {
        match self {
            OptimizerKind::AdamW => 0,
            OptimizerKind::HybridMuon => 1,
        }
    }

    pub fn code(self) -> (r: u64)
        ensures
            r == self.ordinal(),
    {
        match self {
            OptimizerKind::AdamW => 0,
            OptimizerKind::HybridMuon => 1,
        }
    }
}

impl ObjectiveMode {
    /// Declaration index, as folded into configuration signatures.
    pub open spec fn ordinal(self) -> u64 {
        match self {
            ObjectiveMode::Endpoint => 0,
            ObjectiveMode::ReconstructionPlus => 1,
            ObjectiveMode::Flow => 2,
            ObjectiveMode::HybridFlow => 3,
        }
    }

    pub fn code(self) -> (r: u64)
        ensures
            r == self.ordinal(),
    {
        match self {
            ObjectiveMode::Endpoint => 0,
            ObjectiveMode::ReconstructionPlus => 1,
            ObjectiveMode::Flow => 2,
            ObjectiveMode::HybridFlow => 3,
        }
    }
}

impl MorphDepthMode {
    /// Declaration index, as folded into configuration signatures.
    pub open spec fn ordinal(self) -> u64 {
        match self {
            MorphDepthMode::Fixed => 0,
            MorphDepthMode::Capacity => 1,
            MorphDepthMode::Adaptive => 2,
        }
    }

    pub fn code(self) -> (r: u64)
        ensures
            r == self.ordinal(),
    {
        match self {
            MorphDepthMode::Fixed => 0,
            MorphDepthMode::Capacity => 1,
            MorphDepthMode::Adaptive => 2,
        }
    }
}

impl BoundaryMode {
    /// Declaration index, as folded into configuration signatures.
    pub open spec fn ordinal(self) -> u64 {
        match self {
            BoundaryMode::Natural => 0,
            BoundaryMode::Periodic => 1,
            BoundaryMode::Crop => 2,
        }
    }

    pub fn code(self) -> (r: u64)
        ensures
            r == self.ordinal(),
    {
        match self {
            BoundaryMode::Natural => 0,
            BoundaryMode::Periodic => 1,
            BoundaryMode::Crop => 2,
        }
    }
}

impl ResearchPreset {
    /// Declaration index, as folded into configuration signatures.
    pub open spec fn ordinal(self) -> u64 {
        match self {
            ResearchPreset::StrictReconstruct => 0,
            ResearchPreset::ReconstructionPlus => 1,
            ResearchPreset::GroundedEmergent => 2,
            ResearchPreset::FreeMorph => 3,
            ResearchPreset::FlowReconstruct => 4,
        }
    }

    pub fn code(self) -> (r: u64)
        ensures
            r == self.ordinal(),
    {
        match self {
            ResearchPreset::StrictReconstruct => 0,
            ResearchPreset::ReconstructionPlus => 1,
            ResearchPreset::GroundedEmergent => 2,
            ResearchPreset::FreeMorph => 3,
            ResearchPreset::FlowReconstruct => 4,
        }
    }
}

/// The spellings of each training mode choice, and no others.
pub proof fn lemma_training_mode_spellings(value: Seq<char>)
    ensures
        TrainingMode::spec_parse(value) == Some(TrainingMode::Single) ==> (value == "single"@),
        TrainingMode::spec_parse(value) == Some(TrainingMode::Family) ==> (value == "family"@),
        TrainingMode::spec_parse(value) == Some(TrainingMode::Texture) ==> (value == "texture"@),
        TrainingMode::spec_parse(value) is None <==> !((value == "single"@) || (value == "family"@) || (value == "texture"@)),
{
}

/// The spellings of each phone profile choice, and no others.
pub proof fn lemma_phone_profile_spellings(value: Seq<char>)
    ensures
        PhoneProfile::spec_parse(value) == Some(PhoneProfile::S25Fast) ==> (value == "s25-fast"@),
        PhoneProfile::spec_parse(value) == Some(PhoneProfile::S25Balanced) ==> (value == "s25-balanced"@ || value == "balanced"@),
        PhoneProfile::spec_parse(value) == Some(PhoneProfile::S25Quality) ==> (value == "s25-quality"@ || value == "quality"@),
        PhoneProfile::spec_parse(value) is None <==> !((value == "s25-fast"@) || (value == "s25-balanced"@ || value == "balanced"@) || (value == "s25-quality"@ || value == "quality"@)),
{
}

/// The spellings of each style preset choice, and no others.
pub proof fn lemma_style_preset_spellings(value: Seq<char>)
    ensures
        StylePreset::spec_parse(value) == Some(StylePreset::AlienFluid) ==> (value == "alien-fluid"@ || value == "alien"@),
        StylePreset::spec_parse(value) == Some(StylePreset::FractalFlame) ==> (value == "fractal-flame"@ || value == "fractal"@),
        StylePreset::spec_parse(value) == Some(StylePreset::ReactionGarden) ==> (value == "reaction-garden"@ || value == "reaction"@),
        StylePreset::spec_parse(value) == Some(StylePreset::Quasicrystal) ==> (value == "quasicrystal"@ || value == "quasi"@),
        StylePreset::spec_parse(value) == Some(StylePreset::PureNca) ==> (value == "pure-nca"@),
        StylePreset::spec_parse(value) is None <==> !((value == "alien-fluid"@ || value == "alien"@) || (value == "fractal-flame"@ || value == "fractal"@) || (value == "reaction-garden"@ || value == "reaction"@) || (value == "quasicrystal"@ || value == "quasi"@) || (value == "pure-nca"@)),
{
}

/// The spellings of each integrator choice, and no others.
pub proof fn lemma_integrator_spellings(value: Seq<char>)
    ensures
        Integrator::spec_parse(value) == Some(Integrator::Euler) ==> (value == "euler"@),
        Integrator::spec_parse(value) == Some(Integrator::Midpoint) ==> (value == "midpoint"@ || value == "rk2"@),
        Integrator::spec_parse(value) is None <==> !((value == "euler"@) || (value == "midpoint"@ || value == "rk2"@)),
{
}

/// The spellings of each conditioning mode choice, and no others.
pub proof fn lemma_conditioning_mode_spellings(value: Seq<char>)
    ensures
        ConditioningMode::spec_parse(value) == Some(ConditioningMode::Generate) ==> (value == "generate"@ || value == "unconditioned"@),
        ConditioningMode::spec_parse(value) == Some(ConditioningMode::Hybrid) ==> (value == "hybrid"@),
        ConditioningMode::spec_parse(value) == Some(ConditioningMode::Reconstruct) ==> (value == "reconstruct"@ || value == "reconstruction"@),
        ConditioningMode::spec_parse(value) is None <==> !((value == "generate"@ || value == "unconditioned"@) || (value == "hybrid"@) || (value == "reconstruct"@ || value == "reconstruction"@)),
{
}

/// The spellings of each optimizer kind choice, and no others.
pub proof fn lemma_optimizer_kind_spellings(value: Seq<char>)
    ensures
        OptimizerKind::spec_parse(value) == Some(OptimizerKind::AdamW) ==> (value == "adamw"@),
        OptimizerKind::spec_parse(value) == Some(OptimizerKind::HybridMuon) ==> (value == "hybrid-muon"@ || value == "muon"@),
        OptimizerKind::spec_parse(value) is None <==> !((value == "adamw"@) || (value == "hybrid-muon"@ || value == "muon"@)),
{
}

/// The spellings of each objective mode choice, and no others.
pub proof fn lemma_objective_mode_spellings(value: Seq<char>)
    ensures
        ObjectiveMode::spec_parse(value) == Some(ObjectiveMode::Endpoint) ==> (value == "endpoint"@),
        ObjectiveMode::spec_parse(value) == Some(ObjectiveMode::ReconstructionPlus) ==> (value == "reconstruction-plus"@ || value == "reconstruction++"@ || value == "reconstruction"@),
        ObjectiveMode::spec_parse(value) == Some(ObjectiveMode::Flow) ==> (value == "flow"@ || value == "flow-matching"@),
        ObjectiveMode::spec_parse(value) == Some(ObjectiveMode::HybridFlow) ==> (value == "hybrid-flow"@ || value == "endpoint-flow"@),
        ObjectiveMode::spec_parse(value) is None <==> !((value == "endpoint"@) || (value == "reconstruction-plus"@ || value == "reconstruction++"@ || value == "reconstruction"@) || (value == "flow"@ || value == "flow-matching"@) || (value == "hybrid-flow"@ || value == "endpoint-flow"@)),
{
}

/// The spellings of each morph depth mode choice, and no others.
pub proof fn lemma_morph_depth_mode_spellings(value: Seq<char>)
    ensures
        MorphDepthMode::spec_parse(value) == Some(MorphDepthMode::Fixed) ==> (value == "fixed"@),
        MorphDepthMode::spec_parse(value) == Some(MorphDepthMode::Capacity) ==> (value == "capacity"@),
        MorphDepthMode::spec_parse(value) == Some(MorphDepthMode::Adaptive) ==> (value == "adaptive"@),
        MorphDepthMode::spec_parse(value) is None <==> !((value == "fixed"@) || (value == "capacity"@) || (value == "adaptive"@)),
{
}

/// The spellings of each boundary mode choice, and no others.
pub proof fn lemma_boundary_mode_spellings(value: Seq<char>)
    ensures
        BoundaryMode::spec_parse(value) == Some(BoundaryMode::Natural) ==> (value == "natural"@),
        BoundaryMode::spec_parse(value) == Some(BoundaryMode::Periodic) ==> (value == "periodic"@ || value == "texture"@),
        BoundaryMode::spec_parse(value) == Some(BoundaryMode::Crop) ==> (value == "crop"@ || value == "interior"@),
        BoundaryMode::spec_parse(value) is None <==> !((value == "natural"@) || (value == "periodic"@ || value == "texture"@) || (value == "crop"@ || value == "interior"@)),
{
}

/// The spellings of each terminal mode choice, and no others.
pub proof fn lemma_terminal_mode_spellings(value: Seq<char>)
    ensures
        TerminalMode::spec_parse(value) == Some(TerminalMode::Compact) ==> (value == "compact"@),
        TerminalMode::spec_parse(value) == Some(TerminalMode::Rich) ==> (value == "rich"@),
        TerminalMode::spec_parse(value) == Some(TerminalMode::Quiet) ==> (value == "quiet"@),
        TerminalMode::spec_parse(value) is None <==> !((value == "compact"@) || (value == "rich"@) || (value == "quiet"@)),
{
}

/// The spellings of each research preset choice, and no others.
pub proof fn lemma_research_preset_spellings(value: Seq<char>)
    ensures
        ResearchPreset::spec_parse(value) == Some(ResearchPreset::StrictReconstruct) ==> (value == "strict-reconstruct"@),
        ResearchPreset::spec_parse(value) == Some(ResearchPreset::ReconstructionPlus) ==> (value == "reconstruction-plus"@ || value == "default"@),
        ResearchPreset::spec_parse(value) == Some(ResearchPreset::GroundedEmergent) ==> (value == "grounded-emergent"@),
        ResearchPreset::spec_parse(value) == Some(ResearchPreset::FreeMorph) ==> (value == "free-morph"@),
        ResearchPreset::spec_parse(value) == Some(ResearchPreset::FlowReconstruct) ==> (value == "flow-reconstruct"@),
        ResearchPreset::spec_parse(value) is None <==> !((value == "strict-reconstruct"@) || (value == "reconstruction-plus"@ || value == "default"@) || (value == "grounded-emergent"@) || (value == "free-morph"@) || (value == "flow-reconstruct"@)),
{
}

/// Each mode folds into signatures as its position in its declaration,
/// counted from zero.
pub proof fn lemma_ordinals_follow_declaration_order()
    ensures
        TrainingMode::Single.ordinal() == 0,
        TrainingMode::Family.ordinal() == 1,
        TrainingMode::Texture.ordinal() == 2,
        StylePreset::AlienFluid.ordinal() == 0,
        StylePreset::FractalFlame.ordinal() == 1,
        StylePreset::ReactionGarden.ordinal() == 2,
        StylePreset::Quasicrystal.ordinal() == 3,
        StylePreset::PureNca.ordinal() == 4,
        Integrator::Euler.ordinal() == 0,
        Integrator::Midpoint.ordinal() == 1,
        ConditioningMode::Generate.ordinal() == 0,
        ConditioningMode::Hybrid.ordinal() == 1,
        ConditioningMode::Reconstruct.ordinal() == 2,
        OptimizerKind::AdamW.ordinal() == 0,
        OptimizerKind::HybridMuon.ordinal() == 1,
        ObjectiveMode::Endpoint.ordinal() == 0,
        ObjectiveMode::ReconstructionPlus.ordinal() == 1,
        ObjectiveMode::Flow.ordinal() == 2,
        ObjectiveMode::HybridFlow.ordinal() == 3,
        MorphDepthMode::Fixed.ordinal() == 0,
        MorphDepthMode::Capacity.ordinal() == 1,
        MorphDepthMode::Adaptive.ordinal() == 2,
        BoundaryMode::Natural.ordinal() == 0,
        BoundaryMode::Periodic.ordinal() == 1,
        BoundaryMode::Crop.ordinal() == 2,
        ResearchPreset::StrictReconstruct.ordinal() == 0,
        ResearchPreset::ReconstructionPlus.ordinal() == 1,
        ResearchPreset::GroundedEmergent.ordinal() == 2,
        ResearchPreset::FreeMorph.ordinal() == 3,
        ResearchPreset::FlowReconstruct.ordinal() == 4,
{
}

} // verus!
