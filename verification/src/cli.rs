//! Resolving a run configuration from the command line.
//!
//! The arguments are scanned once, left to right. Integer, choice, switch and
//! text options are stored as they are met; binary32 and binary64 values are
//! handed out as text with the position they came from, read by the caller,
//! and applied afterwards in command-line order.
use vstd::prelude::*;
use crate::cli_table::{
    cli_option, cli_option_part0, lookup_option, with_f32, with_f64, with_seed, with_size, with_switch, CliOption,
    F32Field, F64Field, SeedField, SizeField, SwitchField,
};
use crate::config::{
    BoundaryMode, ChoiceOption, CliError, ConditioningMode, Integrator, MorphDepthMode,
    ObjectiveMode, OptimizerKind, PhoneProfile, ResearchPreset, StylePreset, TerminalMode,
    TrainingMode,
};
use crate::numbers::{list_items, parse_decimal, parse_unsigned, split_commas, trim_chars, trimmed};
use crate::presets::{
    arg_texts, is_preset_flag, lemma_preset_choice_position_irrelevant, no_presets, option_pair,
    preapply_presets, preset_error_at, preset_scan, preset_scan_end, preset_value_parses,
    with_choice,
};
use crate::run_config::{AnalysisConfig, DetailConfig, MorphGrowthConfig, RunConfig};
use crate::text::{chars_of, str_eq, string_from_chars};
use crate::validation::{first_violation, lemma_guards_read_fidelity_values};

verus! {

/// A run tag character: an ASCII letter or digit, `-` or `_`.
pub open spec fn is_tag_char(c: char) -> bool {
    ('a' <= c && c <= 'z') || ('A' <= c && c <= 'Z') || ('0' <= c && c <= '9') || c == '-' || c
        == '_'
}

/// A run tag is 1..=64 tag characters, so it can never leave the output directory.
pub open spec fn valid_tag(text: Seq<char>) -> bool {
    1 <= text.len() <= 64 && forall|i: int| 0 <= i < text.len() ==> is_tag_char(#[trigger] text[i])
}

/// A valid run tag is one plain path component: it holds no `/`, no `\\` and
/// no `.`, so a name built from it never leaves the output directory.
pub proof fn lemma_valid_tag_is_plain_component(tag: Seq<char>)
    requires
        valid_tag(tag),
    ensures
        forall|i: int| 0 <= i < tag.len() ==> tag[i] != '/' && tag[i] != '\\' && tag[i] != '.',
{
    assert forall|i: int| 0 <= i < tag.len() implies tag[i] != '/' && tag[i] != '\\' && tag[i] != '.' by {
        assert(is_tag_char(tag[i]));
    }
}

/// The choice family whose spelling an option reads.
pub open spec fn choice_option(o: CliOption) -> Option<ChoiceOption> {
    match o {
        CliOption::Mode => Some(ChoiceOption::Mode),
        CliOption::Profile => Some(ChoiceOption::Profile),
        CliOption::Style => Some(ChoiceOption::Style),
        CliOption::ResearchPreset => Some(ChoiceOption::ResearchPreset),
        CliOption::Objective => Some(ChoiceOption::Objective),
        CliOption::TargetBoundary => Some(ChoiceOption::TargetBoundary),
        CliOption::MorphDepthMode => Some(ChoiceOption::MorphDepthMode),
        CliOption::Terminal => Some(ChoiceOption::Terminal),
        CliOption::Conditioning => Some(ChoiceOption::Conditioning),
        CliOption::Optimizer => Some(ChoiceOption::Optimizer),
        CliOption::Integrator => Some(ChoiceOption::Integrator),
        _ => None,
    }
}

/// Whether `value` spells a choice of the family.
pub open spec fn choice_parses(family: ChoiceOption, value: Seq<char>) -> bool {
    match family {
        ChoiceOption::Mode => TrainingMode::spec_parse(value) is Some,
        ChoiceOption::Profile => PhoneProfile::spec_parse(value) is Some,
        ChoiceOption::Style => StylePreset::spec_parse(value) is Some,
        ChoiceOption::Integrator => Integrator::spec_parse(value) is Some,
        ChoiceOption::Conditioning => ConditioningMode::spec_parse(value) is Some,
        ChoiceOption::Optimizer => OptimizerKind::spec_parse(value) is Some,
        ChoiceOption::Objective => ObjectiveMode::spec_parse(value) is Some,
        ChoiceOption::MorphDepthMode => MorphDepthMode::spec_parse(value) is Some,
        ChoiceOption::TargetBoundary => BoundaryMode::spec_parse(value) is Some,
        ChoiceOption::Terminal => TerminalMode::spec_parse(value) is Some,
        ChoiceOption::ResearchPreset => ResearchPreset::spec_parse(value) is Some,
    }
}

/// The first item at or after `k` that is not a decimal `usize`.
pub open spec fn first_bad_item(items: Seq<Seq<char>>, k: int) -> int
    decreases items.len() - k,
{
    if k < 0 || k >= items.len() {
        items.len() as int
    } else if parse_unsigned(items[k], usize::MAX as nat) is None {
        k
    } else {
        first_bad_item(items, k + 1)
    }
}

/// Whether every item of a comma list reads as a `usize`.
pub open spec fn ages_parse(value: Seq<char>) -> bool {
    first_bad_item(list_items(value), 0) == list_items(value).len()
}

/// The values of a comma list of `usize` items.
pub open spec fn age_values(value: Seq<char>) -> Seq<usize> {
    list_items(value).map_values(|item: Seq<char>| parse_unsigned(item, usize::MAX as nat)->0 as usize)
}

/// Whether an option reads the argument after it.
pub open spec fn takes_value(o: CliOption) -> bool {
    !(o is Switch || o is Disable)
}

/// Whether `value` is refused by the option that reads it.
pub open spec fn value_fault(o: CliOption, value: Seq<char>) -> bool {
    match o {
        CliOption::RunTag => !valid_tag(value),
        CliOption::Size(_) => parse_unsigned(value, usize::MAX as nat) is None,
        CliOption::Seed(_) => parse_unsigned(value, u64::MAX as nat) is None,
        CliOption::ProbeAges => trimmed(value).len() == 0 || !ages_parse(value),
        CliOption::ProbeReferenceFidelities => trimmed(value).len() == 0,
        _ => match choice_option(o) {
            Some(family) => !choice_parses(family, value),
            None => false,
        },
    }
}

/// Whether the scan stops at the argument `i`: it names no option, or its
/// option lacks a value or refuses it.
pub open spec fn arg_fails(texts: Seq<Seq<char>>, i: int) -> bool {
    match cli_option(texts[i]) {
        None => true,
        Some(o) => takes_value(o) && (i + 1 >= texts.len() || value_fault(o, texts[i + 1])),
    }
}

/// The argument after `i`, or nothing at the end of the list.
pub open spec fn arg_value(texts: Seq<Seq<char>>, i: int) -> Seq<char> {
    if i + 1 < texts.len() {
        texts[i + 1]
    } else {
        Seq::empty()
    }
}

/// Where the next option starts after the one at `i`.
pub open spec fn next_arg(texts: Seq<Seq<char>>, i: int) -> int {
    match cli_option(texts[i]) {
        Some(o) => if takes_value(o) {
            i + 2
        } else {
            i + 1
        },
        None => i + 1,
    }
}

/// Where the scan from `i` stops: the first argument that fails, or the end.
pub open spec fn scan_end(texts: Seq<Seq<char>>, i: int) -> int
    decreases texts.len() - i,
{
    if i < 0 || i >= texts.len() {
        texts.len() as int
    } else if arg_fails(texts, i) {
        i
    } else {
        scan_end(texts, next_arg(texts, i))
    }
}

/// The error reported for `value` by the option `o` given as `flag`.
pub open spec fn value_error(o: CliOption, flag: Seq<char>, value: Seq<char>, e: CliError) -> bool {
    match o {
        CliOption::RunTag => e is InvalidRunTag,
        CliOption::Size(_) | CliOption::Seed(_) => e matches CliError::InvalidNumber { flag: f, value: v }
            && f@ == flag && v@ == value,
        CliOption::ProbeAges => if trimmed(value).len() == 0 {
            e matches CliError::EmptyList { flag: f } && f@ == flag
        } else {
            e matches CliError::InvalidNumber { flag: f, value: v } && f@ == flag && v@
                == list_items(value)[first_bad_item(list_items(value), 0)]
        },
        CliOption::ProbeReferenceFidelities => e matches CliError::EmptyList { flag: f } && f@ == flag,
        _ => match choice_option(o) {
            Some(family) => e matches CliError::InvalidChoice { option, value: v } && option == family
                && v@ == value,
            None => false,
        },
    }
}

/// `e` is the error that the argument at `i` raises.
pub open spec fn error_at(texts: Seq<Seq<char>>, i: int, e: CliError) -> bool {
    match cli_option(texts[i]) {
        None => e matches CliError::UnknownOption { flag } && flag@ == texts[i],
        Some(o) => if i + 1 >= texts.len() {
            e matches CliError::MissingValue { flag } && flag@ == texts[i]
        } else {
            value_error(o, texts[i], texts[i + 1], e)
        },
    }
}

/// What an option stores directly into the configuration. Text settings,
/// binary32 and binary64 values and presets leave it unchanged here.
pub open spec fn apply_option(c: RunConfig, o: CliOption, value: Seq<char>) -> RunConfig {
    match o {
        CliOption::Mode => RunConfig { mode: TrainingMode::spec_parse(value)->0, ..c },
        CliOption::Objective => RunConfig { objective: ObjectiveMode::spec_parse(value)->0, ..c },
        CliOption::TargetBoundary => RunConfig {
            detail: DetailConfig { boundary: BoundaryMode::spec_parse(value)->0, ..c.detail },
            ..c
        },
        CliOption::MorphDepthMode => RunConfig {
            morph_growth: MorphGrowthConfig {
                mode: MorphDepthMode::spec_parse(value)->0,
                ..c.morph_growth
            },
            ..c
        },
        CliOption::Terminal => RunConfig { terminal: TerminalMode::spec_parse(value)->0, ..c },
        CliOption::Conditioning => RunConfig {
            conditioning: ConditioningMode::spec_parse(value)->0,
            ..c
        },
        CliOption::Optimizer => RunConfig { optimizer: OptimizerKind::spec_parse(value)->0, ..c },
        CliOption::Integrator => RunConfig { integrator: Integrator::spec_parse(value)->0, ..c },
        CliOption::Size(f) => with_size(c, f, parse_unsigned(value, usize::MAX as nat)->0 as usize),
        CliOption::Seed(f) => with_seed(c, f, parse_unsigned(value, u64::MAX as nat)->0 as u64),
        CliOption::Switch(f) => with_switch(c, f),
        _ => c,
    }
}

/// The configuration that the scan from `i` stores onto `c`.
pub open spec fn scan_config(texts: Seq<Seq<char>>, i: int, c: RunConfig) -> RunConfig
    decreases texts.len() - i,
{
    if i < 0 || i >= texts.len() || arg_fails(texts, i) {
        c
    } else {
        scan_config(
            texts,
            next_arg(texts, i),
            apply_option(c, cli_option(texts[i])->0, arg_value(texts, i)),
        )
    }
}

/// For each text setting, the position of the argument that last set it.
#[derive(Clone, Copy, Debug, PartialEq, Eq, Structural)]
pub struct TextSlots {
    pub corpus_dir: Option<usize>,
    pub output_dir: Option<usize>,
    pub run_tag: Option<usize>,
    pub cache_dir: Option<usize>,
    pub probe_dir: Option<usize>,
    pub compare_v8_dir: Option<usize>,
    pub probe_ages: Option<usize>,
}

pub open spec fn no_slots() -> TextSlots {
    TextSlots {
        corpus_dir: None,
        output_dir: None,
        run_tag: None,
        cache_dir: None,
        probe_dir: None,
        compare_v8_dir: None,
        probe_ages: None,
    }
}

/// Records that the option `o` took its value from the argument at `at`.
pub open spec fn record_slot(s: TextSlots, o: CliOption, at: int) -> TextSlots {
    match o {
        CliOption::CorpusDir => TextSlots { corpus_dir: Some(at as usize), ..s },
        CliOption::OutputDir => TextSlots { output_dir: Some(at as usize), ..s },
        CliOption::RunTag => TextSlots { run_tag: Some(at as usize), ..s },
        CliOption::PyramidCacheDir => TextSlots { cache_dir: Some(at as usize), ..s },
        CliOption::ProbeDir => TextSlots { probe_dir: Some(at as usize), ..s },
        CliOption::CompareV8Dir => TextSlots { compare_v8_dir: Some(at as usize), ..s },
        CliOption::ProbeAges => TextSlots { probe_ages: Some(at as usize), ..s },
        _ => s,
    }
}

/// The text slots that the scan from `i` records onto `s`.
pub open spec fn scan_slots(texts: Seq<Seq<char>>, i: int, s: TextSlots) -> TextSlots
    decreases texts.len() - i,
{
    if i < 0 || i >= texts.len() || arg_fails(texts, i) {
        s
    } else {
        scan_slots(texts, next_arg(texts, i), record_slot(s, cli_option(texts[i])->0, i + 1))
    }
}

/// `c` carries the text settings of `base`, except where a slot names the
/// argument that replaced one.
pub open spec fn texts_hold(c: RunConfig, base: RunConfig, texts: Seq<Seq<char>>, s: TextSlots) -> bool {
    &&& match s.corpus_dir {
        Some(k) => c.corpus_dir@ == texts[k as int],
        None => c.corpus_dir == base.corpus_dir,
    }
    &&& match s.output_dir {
        Some(k) => c.output_dir@ == texts[k as int],
        None => c.output_dir == base.output_dir,
    }
    &&& match s.run_tag {
        Some(k) => c.run_tag is Some && c.run_tag->0@ == texts[k as int],
        None => c.run_tag == base.run_tag,
    }
    &&& match s.cache_dir {
        Some(k) => c.detail.cache_dir is Some && c.detail.cache_dir->0@ == texts[k as int],
        None => c.detail.cache_dir == base.detail.cache_dir,
    }
    &&& match s.probe_dir {
        Some(k) => c.analysis.probe_dir is Some && c.analysis.probe_dir->0@ == texts[k as int],
        None => c.analysis.probe_dir == base.analysis.probe_dir,
    }
    &&& match s.compare_v8_dir {
        Some(k) => c.analysis.compare_v8_dir is Some && c.analysis.compare_v8_dir->0@
            == texts[k as int],
        None => c.analysis.compare_v8_dir == base.analysis.compare_v8_dir,
    }
    &&& match s.probe_ages {
        Some(k) => c.analysis.probe_ages@ == age_values(texts[k as int]),
        None => c.analysis.probe_ages == base.analysis.probe_ages,
    }
}

/// `c` with its text settings replaced by those of `base`.
pub open spec fn with_texts_of(c: RunConfig, base: RunConfig) -> RunConfig {
    RunConfig {
        corpus_dir: base.corpus_dir,
        output_dir: base.output_dir,
        run_tag: base.run_tag,
        detail: DetailConfig { cache_dir: base.detail.cache_dir, ..c.detail },
        analysis: AnalysisConfig {
            probe_dir: base.analysis.probe_dir,
            compare_v8_dir: base.analysis.compare_v8_dir,
            probe_ages: base.analysis.probe_ages,
            ..c.analysis
        },
        ..c
    }
}

/// Where a binary32 or binary64 value goes once it has been read.
#[derive(Clone, Copy, Debug, PartialEq, Eq, Structural)]
pub enum ScalarTarget {
    /// A binary32 setting.
    Narrow(F32Field),
    /// A binary64 setting.
    Wide(F64Field),
    /// The list of probe reference fidelities.
    Fidelities,
    /// A binary32 gain that a switch sets to zero.
    Zero(F32Field),
}

/// The value that the option at `i` leaves to be read, and the position of
/// the argument that holds it (the option itself for a switch).
pub open spec fn pending_of(o: CliOption, i: int) -> Seq<(ScalarTarget, int)> {
    match o {
        CliOption::Scalar(f) => seq![(ScalarTarget::Narrow(f), i + 1)],
        CliOption::Wide(f) => seq![(ScalarTarget::Wide(f), i + 1)],
        CliOption::ProbeReferenceFidelities => seq![(ScalarTarget::Fidelities, i + 1)],
        CliOption::Disable(f) => seq![(ScalarTarget::Zero(f), i)],
        _ => Seq::empty(),
    }
}

/// The values that the scan from `i` leaves to be read, in command-line order.
pub open spec fn scan_pending(texts: Seq<Seq<char>>, i: int) -> Seq<(ScalarTarget, int)>
    decreases texts.len() - i,
{
    if i < 0 || i >= texts.len() || arg_fails(texts, i) {
        Seq::empty()
    } else {
        pending_of(cli_option(texts[i])->0, i) + scan_pending(texts, next_arg(texts, i))
    }
}

/// A value left to be read: where it goes, the argument it came from, the
/// option that named it and the texts to read (one per list item).
#[derive(Clone, Debug)]
pub struct PendingScalar {
    pub target: ScalarTarget,
    pub at: usize,
    pub flag: String,
    pub texts: Vec<String>,
}

/// The texts to read for a target from the argument `value`.
pub open spec fn expected_texts(target: ScalarTarget, value: Seq<char>) -> Seq<Seq<char>> {
    match target {
        ScalarTarget::Narrow(_) | ScalarTarget::Wide(_) => seq![value],
        ScalarTarget::Fidelities => list_items(value),
        ScalarTarget::Zero(_) => Seq::empty(),
    }
}

pub open spec fn string_views(strings: Seq<String>) -> Seq<Seq<char>> {
    strings.map_values(|s: String| s@)
}

/// `p` is the pending value that the scan recorded as `r`.
pub open spec fn entry_holds(p: PendingScalar, r: (ScalarTarget, int), texts: Seq<Seq<char>>) -> bool {
    &&& p.target == r.0
    &&& p.at == r.1
    &&& 0 <= r.1 < texts.len()
    &&& p.flag@ == (if r.0 is Zero {
        texts[r.1]
    } else {
        texts[r.1 - 1]
    })
    &&& string_views(p.texts@) == expected_texts(r.0, texts[r.1])
}

pub open spec fn pending_holds(
    p: Seq<PendingScalar>,
    refs: Seq<(ScalarTarget, int)>,
    texts: Seq<Seq<char>>,
) -> bool {
    &&& p.len() == refs.len()
    &&& forall|k: int| 0 <= k < p.len() ==> entry_holds(#[trigger] p[k], refs[k], texts)
}

/// Accepts a run tag of 1..=64 ASCII letters, digits, `-` or `_`.
pub fn validate_tag(value: &str) -> (r: Result<String, CliError>)
    ensures
        valid_tag(value@) ==> (r matches Ok(s) && s@ == value@),
        !valid_tag(value@) ==> r matches Err(CliError::InvalidRunTag),
{
    let chars = chars_of(value);
    let n = chars.len();
    if n == 0 || n > 64 {
        return Err(CliError::InvalidRunTag);
    }
    let mut i: usize = 0;
    while i < n
        invariant
            n == chars@.len(),
            chars@ == value@,
            i <= n,
            forall|k: int| 0 <= k < i ==> is_tag_char(#[trigger] chars@[k]),
        decreases n - i,
    {
        let c = chars[i];
        let accepted = ('a' <= c && c <= 'z') || ('A' <= c && c <= 'Z') || ('0' <= c && c <= '9')
            || c == '-' || c == '_';
        if !accepted {
            assert(!is_tag_char(value@[i as int]));
            return Err(CliError::InvalidRunTag);
        }
        i = i + 1;
    }
    Ok(value.to_owned())
}

/// Reads a comma list of `usize` values, as `--probe-ages` takes it.
fn parse_age_list(value: &str, flag: &str) -> (r: Result<Vec<usize>, CliError>)
    ensures
        match r {
            Ok(v) => !value_fault(CliOption::ProbeAges, value@) && v@ == age_values(value@),
            Err(e) => value_fault(CliOption::ProbeAges, value@) && value_error(
                CliOption::ProbeAges,
                flag@,
                value@,
                e,
            ),
        },
{
    let chars = chars_of(value);
    let whole = trim_chars(&chars);
    if whole.len() == 0 {
        return Err(CliError::EmptyList { flag: flag.to_owned() });
    }
    let pieces = split_commas(&chars);
    let ghost items = list_items(value@);
    let mut out: Vec<usize> = Vec::new();
    let mut k: usize = 0;
    while k < pieces.len()
        invariant
            items == list_items(value@),
            items.len() == pieces@.len(),
            forall|j: int| 0 <= j < items.len() ==> items[j] == trimmed((#[trigger] pieces@[j])@),
            k <= pieces@.len(),
            first_bad_item(items, 0) == first_bad_item(items, k as int),
            trimmed(value@).len() > 0,
            out@ == items.take(k as int).map_values(
                |item: Seq<char>| parse_unsigned(item, usize::MAX as nat)->0 as usize,
            ),
        decreases pieces@.len() - k,
    {
        let item = trim_chars(&pieces[k]);
        match parse_decimal(&item, usize::MAX as u64) {
            Some(v) => {
                assert(item@ == items[k as int]);
                out.push(v as usize);
                assert(items.take(k as int + 1).map_values(
                    |item: Seq<char>| parse_unsigned(item, usize::MAX as nat)->0 as usize,
                ) =~= out@);
            },
            None => {
                assert(item@ == items[k as int]);
                assert(first_bad_item(items, k as int) == k);
                assert(trimmed(value@).len() > 0);
                return Err(
                    CliError::InvalidNumber { flag: flag.to_owned(), value: string_from_chars(item) },
                );
            },
        }
        k = k + 1;
    }
    assert(items.take(k as int) =~= items);
    Ok(out)
}

/// The trimmed items of a comma list of binary32 values, left to be read.
fn fidelity_texts(value: &str, flag: &str) -> (r: Result<Vec<String>, CliError>)
    ensures
        match r {
            Ok(v) => !value_fault(CliOption::ProbeReferenceFidelities, value@) && string_views(v@)
                == list_items(value@),
            Err(e) => value_fault(CliOption::ProbeReferenceFidelities, value@) && value_error(
                CliOption::ProbeReferenceFidelities,
                flag@,
                value@,
                e,
            ),
        },
{
    let chars = chars_of(value);
    let whole = trim_chars(&chars);
    if whole.len() == 0 {
        return Err(CliError::EmptyList { flag: flag.to_owned() });
    }
    let pieces = split_commas(&chars);
    let ghost items = list_items(value@);
    let mut out: Vec<String> = Vec::new();
    let mut k: usize = 0;
    while k < pieces.len()
        invariant
            items == list_items(value@),
            items.len() == pieces@.len(),
            forall|j: int| 0 <= j < items.len() ==> items[j] == trimmed((#[trigger] pieces@[j])@),
            k <= pieces@.len(),
            string_views(out@) == items.take(k as int),
        decreases pieces@.len() - k,
    {
        let item = trim_chars(&pieces[k]);
        assert(item@ == items[k as int]);
        let text = string_from_chars(item);
        let ghost before = out@;
        out.push(text);
        assert(string_views(out@) =~= string_views(before).push(item@));
        assert(items.take(k as int + 1) =~= items.take(k as int).push(items[k as int]));
        assert(string_views(out@) =~= items.take(k as int + 1));
        k = k + 1;
    }
    assert(items.take(k as int) =~= items);
    Ok(out)
}

/// Whether an option reads the argument after it.
pub fn option_takes_value(o: CliOption) -> (r: bool)
    ensures
        r == takes_value(o),
{
    match o {
        CliOption::Switch(_) | CliOption::Disable(_) => false,
        _ => true,
    }
}

/// The text settings of `a` and `b` agree.
pub open spec fn same_texts(a: RunConfig, b: RunConfig) -> bool {
    &&& a.corpus_dir == b.corpus_dir
    &&& a.output_dir == b.output_dir
    &&& a.run_tag == b.run_tag
    &&& a.detail.cache_dir == b.detail.cache_dir
    &&& a.analysis.probe_dir == b.analysis.probe_dir
    &&& a.analysis.compare_v8_dir == b.analysis.compare_v8_dir
    &&& a.analysis.probe_ages == b.analysis.probe_ages
}

proof fn lemma_size_keeps_texts(c: RunConfig, f: SizeField, v: usize)
    ensures
        same_texts(with_size(c, f, v), c),
{
    reveal(with_size);
}

proof fn lemma_seed_keeps_texts(c: RunConfig, f: SeedField, v: u64)
    ensures
        same_texts(with_seed(c, f, v), c),
{
    reveal(with_seed);
}

proof fn lemma_switch_keeps_texts(c: RunConfig, f: SwitchField)
    ensures
        same_texts(with_switch(c, f), c),
{
    reveal(with_switch);
}

/// What an option stores directly never touches a text setting.
proof fn lemma_option_keeps_texts(c: RunConfig, o: CliOption, value: Seq<char>)
    ensures
        same_texts(apply_option(c, o, value), c),
{
    match o {
        CliOption::Size(f) => lemma_size_keeps_texts(c, f, parse_unsigned(value, usize::MAX as nat)->0 as usize),
        CliOption::Seed(f) => lemma_seed_keeps_texts(c, f, parse_unsigned(value, u64::MAX as nat)->0 as u64),
        CliOption::Switch(f) => lemma_switch_keeps_texts(c, f),
        _ => {},
    }
}

/// Stores the value of a choice option.
fn store_choice(o: CliOption, value: &str, cfg: &mut RunConfig) -> (r: Result<(), CliError>)
    requires
        choice_option(o) is Some,
    ensures
        match r {
            Ok(()) => !value_fault(o, value@) && *final(cfg) == apply_option(*old(cfg), o, value@),
            Err(e) => value_fault(o, value@) && value_error(o, Seq::empty(), value@, e) && *final(cfg)
                == *old(cfg),
        },
{
    match o {
        CliOption::Mode => match TrainingMode::parse(value) {
            Ok(m) => cfg.mode = m,
            Err(e) => return Err(e),
        },
        CliOption::Profile => match PhoneProfile::parse(value) {
            Ok(_) => {},
            Err(e) => return Err(e),
        },
        CliOption::Style => match StylePreset::parse(value) {
            Ok(_) => {},
            Err(e) => return Err(e),
        },
        CliOption::ResearchPreset => match ResearchPreset::parse(value) {
            Ok(_) => {},
            Err(e) => return Err(e),
        },
        CliOption::Objective => match ObjectiveMode::parse(value) {
            Ok(m) => cfg.objective = m,
            Err(e) => return Err(e),
        },
        CliOption::TargetBoundary => match BoundaryMode::parse(value) {
            Ok(m) => cfg.detail.boundary = m,
            Err(e) => return Err(e),
        },
        CliOption::MorphDepthMode => match MorphDepthMode::parse(value) {
            Ok(m) => cfg.morph_growth.mode = m,
            Err(e) => return Err(e),
        },
        CliOption::Terminal => match TerminalMode::parse(value) {
            Ok(m) => cfg.terminal = m,
            Err(e) => return Err(e),
        },
        CliOption::Conditioning => match ConditioningMode::parse(value) {
            Ok(m) => cfg.conditioning = m,
            Err(e) => return Err(e),
        },
        CliOption::Optimizer => match OptimizerKind::parse(value) {
            Ok(m) => cfg.optimizer = m,
            Err(e) => return Err(e),
        },
        CliOption::Integrator => match Integrator::parse(value) {
            Ok(m) => cfg.integrator = m,
            Err(e) => return Err(e),
        },
        _ => {},
    }
    Ok(())
}

/// Stores the value of a size or seed option.
fn store_number(o: CliOption, value: &str, flag: &str, cfg: &mut RunConfig) -> (r: Result<
    (),
    CliError,
>)
    requires
        o is Size || o is Seed,
    ensures
        match r {
            Ok(()) => !value_fault(o, value@) && *final(cfg) == apply_option(*old(cfg), o, value@),
            Err(e) => value_fault(o, value@) && value_error(o, flag@, value@, e) && *final(cfg)
                == *old(cfg),
        },
{
    let max: u64 = match o {
        CliOption::Size(_) => usize::MAX as u64,
        _ => u64::MAX,
    };
    match parse_decimal(&chars_of(value), max) {
        Some(v) => {
            match o {
                CliOption::Size(f) => cfg.set_size(f, v as usize),
                CliOption::Seed(f) => cfg.set_seed(f, v),
                _ => {},
            }
            Ok(())
        },
        None => Err(CliError::InvalidNumber { flag: flag.to_owned(), value: value.to_owned() }),
    }
}

/// Appends a value left to be read.
fn queue_pending(
    pending: &mut Vec<PendingScalar>,
    entry: PendingScalar,
    Ghost(texts): Ghost<Seq<Seq<char>>>,
    Ghost(refs): Ghost<Seq<(ScalarTarget, int)>>,
    Ghost(r): Ghost<(ScalarTarget, int)>,
)
    requires
        pending_holds(old(pending)@, refs, texts),
        entry_holds(entry, r, texts),
    ensures
        pending_holds(final(pending)@, refs + seq![r], texts),
{
    let ghost before = pending@;
    pending.push(entry);
    assert forall|k: int| 0 <= k < pending@.len() implies entry_holds(
        #[trigger] pending@[k],
        (refs + seq![r])[k],
        texts,
    ) by {
        if k < before.len() {
            assert(pending@[k] == before[k]);
        }
    }
}

/// Stores the option at `i` and returns where the next option starts, or the
/// error that the argument raises. A text setting is only recorded in `slots`
/// (a probe-age list also in `ages`); texts are stored once the scan ends.
fn scan_step(
    args: &Vec<String>,
    i: usize,
    cfg: &mut RunConfig,
    slots: &mut TextSlots,
    ages: &mut Option<Vec<usize>>,
    pending: &mut Vec<PendingScalar>,
    Ghost(refs): Ghost<Seq<(ScalarTarget, int)>>,
) -> (r: Result<usize, CliError>)
    requires
        i < args@.len(),
        pending_holds(old(pending)@, refs, arg_texts(args@)),
    ensures
        match r {
            Ok(next) => {
                let texts = arg_texts(args@);
                let o = cli_option(texts[i as int])->0;
                &&& !arg_fails(texts, i as int)
                &&& next == next_arg(texts, i as int)
                &&& *final(cfg) == apply_option(*old(cfg), o, arg_value(texts, i as int))
                &&& *final(slots) == record_slot(*old(slots), o, i + 1)
                &&& if o is ProbeAges {
                    *final(ages) matches Some(list) && list@ == age_values(texts[i + 1])
                } else {
                    *final(ages) == *old(ages)
                }
                &&& pending_holds(final(pending)@, refs + pending_of(o, i as int), texts)
            },
            Err(e) => {
                &&& arg_fails(arg_texts(args@), i as int)
                &&& error_at(arg_texts(args@), i as int, e)
                &&& *final(cfg) == *old(cfg)
                &&& *final(slots) == *old(slots)
                &&& *final(ages) == *old(ages)
                &&& final(pending)@ == old(pending)@
            },
        },
{
    let ghost texts = arg_texts(args@);
    let n = args.len();
    let flag = args[i].as_str();
    assert(flag@ == texts[i as int]);
    let o = match lookup_option(flag) {
        Some(o) => o,
        None => {
            return Err(CliError::UnknownOption { flag: flag.to_owned() });
        },
    };
    if !option_takes_value(o) {
        match o {
            CliOption::Switch(f) => {
                cfg.set_switch(f);
                assert(refs + pending_of(o, i as int) =~= refs);
            },
            CliOption::Disable(f) => {
                let entry = PendingScalar {
                    target: ScalarTarget::Zero(f),
                    at: i,
                    flag: flag.to_owned(),
                    texts: Vec::new(),
                };
                assert(string_views(entry.texts@) =~= Seq::<Seq<char>>::empty());
                queue_pending(pending, entry, Ghost(texts), Ghost(refs), Ghost((ScalarTarget::Zero(f), i as int)));
            },
            _ => {},
        }
        return Ok(i + 1);
    }
    if i + 1 >= n {
        return Err(CliError::MissingValue { flag: flag.to_owned() });
    }
    let value = args[i + 1].as_str();
    assert(value@ == texts[i + 1]);
    let at = i + 1;
    match o {
        CliOption::CorpusDir => slots.corpus_dir = Some(at),
        CliOption::OutputDir => slots.output_dir = Some(at),
        CliOption::PyramidCacheDir => slots.cache_dir = Some(at),
        CliOption::ProbeDir => slots.probe_dir = Some(at),
        CliOption::CompareV8Dir => slots.compare_v8_dir = Some(at),
        CliOption::RunTag => match validate_tag(value) {
            Ok(_) => slots.run_tag = Some(at),
            Err(e) => return Err(e),
        },
        CliOption::ProbeAges => match parse_age_list(value, flag) {
            Ok(list) => {
                *ages = Some(list);
                slots.probe_ages = Some(at);
            },
            Err(e) => return Err(e),
        },
        CliOption::Size(_) | CliOption::Seed(_) => match store_number(o, value, flag, cfg) {
            Ok(()) => {},
            Err(e) => return Err(e),
        },
        CliOption::ProbeReferenceFidelities => match fidelity_texts(value, flag) {
            Ok(items) => {
                let entry = PendingScalar {
                    target: ScalarTarget::Fidelities,
                    at,
                    flag: flag.to_owned(),
                    texts: items,
                };
                queue_pending(pending, entry, Ghost(texts), Ghost(refs), Ghost((ScalarTarget::Fidelities, at as int)));
            },
            Err(e) => return Err(e),
        },
        CliOption::Scalar(_) | CliOption::Wide(_) => {
            let mut texts_to_read: Vec<String> = Vec::new();
            texts_to_read.push(value.to_owned());
            assert(string_views(texts_to_read@) =~= seq![value@]);
            let target = match o {
                CliOption::Scalar(f) => ScalarTarget::Narrow(f),
                CliOption::Wide(f) => ScalarTarget::Wide(f),
                _ => ScalarTarget::Fidelities,
            };
            let entry = PendingScalar { target, at, flag: flag.to_owned(), texts: texts_to_read };
            queue_pending(pending, entry, Ghost(texts), Ghost(refs), Ghost((target, at as int)));
        },
        _ => match store_choice(o, value, cfg) {
            Ok(()) => {},
            Err(e) => return Err(e),
        },
    }
    proof {
        if pending_of(o, i as int).len() == 0 {
            assert(refs + pending_of(o, i as int) =~= refs);
        }
    }
    Ok(at + 1)
}

pub open spec fn slot_in_range(slot: Option<usize>, n: int) -> bool {
    slot matches Some(k) ==> k < n
}

/// Every slot names an argument of the list.
pub open spec fn slots_in_range(s: TextSlots, n: int) -> bool {
    &&& slot_in_range(s.corpus_dir, n)
    &&& slot_in_range(s.output_dir, n)
    &&& slot_in_range(s.run_tag, n)
    &&& slot_in_range(s.cache_dir, n)
    &&& slot_in_range(s.probe_dir, n)
    &&& slot_in_range(s.compare_v8_dir, n)
    &&& slot_in_range(s.probe_ages, n)
}

/// `ages` holds the list read from the argument that the slot names.
pub open spec fn ages_hold(ages: Option<Vec<usize>>, slot: Option<usize>, texts: Seq<Seq<char>>) -> bool {
    match slot {
        Some(k) => ages matches Some(list) && list@ == age_values(texts[k as int]),
        None => ages is None,
    }
}

/// The argument that a slot names, or `old` when it names none.
fn pick_text(old: String, args: &Vec<String>, slot: Option<usize>) -> (r: String)
    requires
        slot_in_range(slot, args@.len() as int),
    ensures
        match slot {
            Some(k) => r@ == args@[k as int]@,
            None => r == old,
        },
{
    match slot {
        Some(k) => args[k].clone(),
        None => old,
    }
}

/// The argument that a slot names, or `old` when it names none.
fn pick_optional_text(old: Option<String>, args: &Vec<String>, slot: Option<usize>) -> (r: Option<
    String,
>)
    requires
        slot_in_range(slot, args@.len() as int),
    ensures
        match slot {
            Some(k) => r matches Some(t) && t@ == args@[k as int]@,
            None => r == old,
        },
{
    match slot {
        Some(k) => Some(args[k].clone()),
        None => old,
    }
}

/// Stores the text settings that the slots name.
fn store_texts(
    cfg: RunConfig,
    args: &Vec<String>,
    slots: TextSlots,
    ages: Option<Vec<usize>>,
    Ghost(base): Ghost<RunConfig>,
) -> (r: RunConfig)
    requires
        same_texts(cfg, base),
        slots_in_range(slots, args@.len() as int),
        ages_hold(ages, slots.probe_ages, arg_texts(args@)),
    ensures
        texts_hold(r, base, arg_texts(args@), slots),
        with_texts_of(r, base) == cfg,
{
    let ghost texts = arg_texts(args@);
    let corpus_dir = pick_text(cfg.corpus_dir, args, slots.corpus_dir);
    let output_dir = pick_text(cfg.output_dir, args, slots.output_dir);
    let run_tag = pick_optional_text(cfg.run_tag, args, slots.run_tag);
    let detail = DetailConfig {
        cache_dir: pick_optional_text(cfg.detail.cache_dir, args, slots.cache_dir),
        ..cfg.detail
    };
    let probe_ages = match ages {
        Some(list) => list,
        None => cfg.analysis.probe_ages,
    };
    let analysis = AnalysisConfig {
        probe_dir: pick_optional_text(cfg.analysis.probe_dir, args, slots.probe_dir),
        compare_v8_dir: pick_optional_text(cfg.analysis.compare_v8_dir, args, slots.compare_v8_dir),
        probe_ages,
        ..cfg.analysis
    };
    RunConfig { corpus_dir, output_dir, run_tag, detail, analysis, ..cfg }
}

/// A command line after the scan: every setting stored except the binary32
/// and binary64 values left to be read, and the first error met, if any.
#[derive(Clone, Debug)]
pub struct ParsedArgs {
    pub config: RunConfig,
    pub corpus_explicit: bool,
    pub pending: Vec<PendingScalar>,
    pub failure: Option<CliError>,
}

/// `p` is the scan of `texts` onto `base`.
pub open spec fn scanned(p: ParsedArgs, texts: Seq<Seq<char>>, base: RunConfig) -> bool {
    let slots = scan_slots(texts, 0, no_slots());
    let end = scan_end(texts, 0);
    &&& with_texts_of(p.config, base) == scan_config(texts, 0, base)
    &&& texts_hold(p.config, base, texts, slots)
    &&& p.corpus_explicit == slots.corpus_dir is Some
    &&& pending_holds(p.pending@, scan_pending(texts, 0), texts)
    &&& if end < texts.len() {
        p.failure matches Some(e) && error_at(texts, end, e)
    } else {
        p.failure is None
    }
}

impl ParsedArgs {
    /// Scans `args` onto `defaults`: first the preset categories, in the order
    /// profile, style, research preset, then every option left to right.
    pub fn parse(args: &Vec<String>, defaults: RunConfig) -> (r: Result<ParsedArgs, CliError>)
        ensures
            match r {
                Ok(p) => preset_scan_end(arg_texts(args@), 0) == args@.len() && scanned(
                    p,
                    arg_texts(args@),
                    with_choice(defaults, preset_scan(arg_texts(args@), 0, no_presets())),
                ),
                Err(e) => preset_scan_end(arg_texts(args@), 0) < args@.len() && preset_error_at(
                    arg_texts(args@),
                    preset_scan_end(arg_texts(args@), 0),
                    e,
                ),
            },
    {
        let mut cfg = defaults;
        match preapply_presets(args, &mut cfg) {
            Ok(()) => {},
            Err(e) => return Err(e),
        }
        let ghost base = cfg;
        let ghost texts = arg_texts(args@);
        let mut slots = TextSlots {
            corpus_dir: None,
            output_dir: None,
            run_tag: None,
            cache_dir: None,
            probe_dir: None,
            compare_v8_dir: None,
            probe_ages: None,
        };
        let mut ages: Option<Vec<usize>> = None;
        let mut pending: Vec<PendingScalar> = Vec::new();
        let ghost mut refs: Seq<(ScalarTarget, int)> = Seq::empty();
        let n = args.len();
        let mut i: usize = 0;
        while i < n
            invariant
                n == args@.len(),
                texts == arg_texts(args@),
                preset_scan_end(texts, 0) == n,
                base == with_choice(defaults, preset_scan(texts, 0, no_presets())),
                i <= n,
                scan_end(texts, 0) == scan_end(texts, i as int),
                scan_config(texts, 0, base) == scan_config(texts, i as int, cfg),
                scan_slots(texts, 0, no_slots()) == scan_slots(texts, i as int, slots),
                scan_pending(texts, 0) == refs + scan_pending(texts, i as int),
                pending_holds(pending@, refs, texts),
                same_texts(cfg, base),
                slots_in_range(slots, n as int),
                ages_hold(ages, slots.probe_ages, texts),
            decreases n - i,
        {
            let ghost before = cfg;
            match scan_step(args, i, &mut cfg, &mut slots, &mut ages, &mut pending, Ghost(refs)) {
                Ok(next) => {
                    proof {
                        let o = cli_option(texts[i as int])->0;
                        lemma_option_keeps_texts(before, o, arg_value(texts, i as int));
                        assert(refs + scan_pending(texts, i as int) =~= (refs + pending_of(
                            o,
                            i as int,
                        )) + scan_pending(texts, next as int));
                        refs = refs + pending_of(o, i as int);
                    }
                    i = next;
                },
                Err(e) => {
                    assert(refs + scan_pending(texts, i as int) =~= refs);
                    let config = store_texts(cfg, args, slots, ages, Ghost(base));
                    let corpus_explicit = slots.corpus_dir.is_some();
                    return Ok(ParsedArgs { config, corpus_explicit, pending, failure: Some(e) });
                },
            }
        }
        assert(refs + scan_pending(texts, i as int) =~= refs);
        let config = store_texts(cfg, args, slots, ages, Ghost(base));
        let corpus_explicit = slots.corpus_dir.is_some();
        Ok(ParsedArgs { config, corpus_explicit, pending, failure: None })
    }
}

pub open spec fn reading_views(readings: Seq<Vec<Option<u64>>>) -> Seq<Seq<Option<u64>>> {
    readings.map_values(|row: Vec<Option<u64>>| row@)
}

/// Whether every item of an entry was read.
pub open spec fn all_read(row: Seq<Option<u64>>) -> bool {
    forall|j: int| 0 <= j < row.len() ==> (#[trigger] row[j]) is Some
}

/// The first entry at or after `k` with an item that did not read.
pub open spec fn first_unread(rd: Seq<Seq<Option<u64>>>, k: int) -> int
    decreases rd.len() - k,
{
    if k < 0 || k >= rd.len() {
        rd.len() as int
    } else if !all_read(rd[k]) {
        k
    } else {
        first_unread(rd, k + 1)
    }
}

/// The first item at or after `j` that did not read.
pub open spec fn first_missing(row: Seq<Option<u64>>, j: int) -> int
    decreases row.len() - j,
{
    if j < 0 || j >= row.len() {
        row.len() as int
    } else if row[j] is None {
        j
    } else {
        first_missing(row, j + 1)
    }
}

pub open spec fn pending_targets(p: Seq<PendingScalar>) -> Seq<ScalarTarget> {
    p.map_values(|e: PendingScalar| e.target)
}

/// The configuration once the values read for the first `k` entries are
/// stored, in command-line order (a fidelity list is stored apart).
pub open spec fn apply_readings(
    c: RunConfig,
    targets: Seq<ScalarTarget>,
    rd: Seq<Seq<Option<u64>>>,
    k: int,
) -> RunConfig
    decreases k,
{
    if k <= 0 {
        c
    } else {
        let prior = apply_readings(c, targets, rd, k - 1);
        match targets[k - 1] {
            ScalarTarget::Narrow(f) => with_f32(prior, f, rd[k - 1][0]->0 as u32),
            ScalarTarget::Wide(f) => with_f64(prior, f, rd[k - 1][0]->0),
            ScalarTarget::Zero(f) => with_f32(prior, f, 0),
            ScalarTarget::Fidelities => prior,
        }
    }
}

/// The fidelities of the last list among the first `k` entries, if any.
pub open spec fn read_fidelities(targets: Seq<ScalarTarget>, rd: Seq<Seq<Option<u64>>>, k: int) -> Option<
    Seq<u32>,
>
    decreases k,
{
    if k <= 0 {
        None
    } else if targets[k - 1] is Fidelities {
        Some(rd[k - 1].map_values(|o: Option<u64>| o->0 as u32))
    } else {
        read_fidelities(targets, rd, k - 1)
    }
}

/// `x` is what `p` resolves to once its values read as `rd`.
pub open spec fn resolves_to(p: ParsedArgs, rd: Seq<Seq<Option<u64>>>, x: RunConfig) -> bool {
    let targets = pending_targets(p.pending@);
    let c = apply_readings(p.config, targets, rd, targets.len() as int);
    &&& x == (RunConfig {
        analysis: AnalysisConfig {
            probe_reference_fidelities: x.analysis.probe_reference_fidelities,
            ..c.analysis
        },
        ..c
    })
    &&& x.analysis.probe_reference_fidelities@ == match read_fidelities(
        targets,
        rd,
        targets.len() as int,
    ) {
        Some(f) => f,
        None => c.analysis.probe_reference_fidelities@,
    }
}

/// One row of readings per entry, one reading per text.
pub open spec fn readings_fit(p: Seq<PendingScalar>, rd: Seq<Seq<Option<u64>>>) -> bool {
    &&& rd.len() == p.len()
    &&& forall|k: int|
        0 <= k < p.len() ==> (#[trigger] rd[k]).len() == p[k].texts@.len() && ((p[k].target is Narrow
            || p[k].target is Wide) ==> rd[k].len() == 1)
}

pub(crate) proof fn lemma_all_read_after(rd: Seq<Seq<Option<u64>>>, k: int)
    requires
        0 <= k < rd.len(),
        first_unread(rd, k) == rd.len(),
    ensures
        all_read(rd[k]),
        first_unread(rd, k + 1) == rd.len(),
{
}

/// Reports the first item that did not read, in command-line order.
fn check_readings(pending: &Vec<PendingScalar>, readings: &Vec<Vec<Option<u64>>>) -> (r: Result<
    (),
    CliError,
>)
    requires
        readings_fit(pending@, reading_views(readings@)),
    ensures
        ({
            let rd = reading_views(readings@);
            let bad = first_unread(rd, 0);
            match r {
                Ok(()) => bad == rd.len(),
                Err(e) => bad < rd.len() && (e matches CliError::InvalidNumber { flag, value } && flag
                    == pending@[bad].flag && value == pending@[bad].texts@[first_missing(rd[bad], 0)]),
            }
        }),
{
    let ghost rd = reading_views(readings@);
    let n = pending.len();
    assert(rd.len() == n);
    let mut k: usize = 0;
    while k < n
        invariant
            n == pending@.len(),
            rd == reading_views(readings@),
            readings_fit(pending@, rd),
            k <= n,
            first_unread(rd, 0) == first_unread(rd, k as int),
        decreases n - k,
    {
        let row = &readings[k];
        assert(row@ == rd[k as int]);
        let mut j: usize = 0;
        while j < row.len()
            invariant
                k < n,
                n == pending@.len(),
                rd == reading_views(readings@),
                readings_fit(pending@, rd),
                first_unread(rd, 0) == first_unread(rd, k as int),
                row@ == rd[k as int],
                j <= row@.len(),
                forall|t: int| 0 <= t < j ==> (#[trigger] row@[t]) is Some,
                first_missing(rd[k as int], 0) == first_missing(rd[k as int], j as int),
            decreases row@.len() - j,
        {
            if row[j].is_none() {
                assert(!all_read(rd[k as int]));
                assert(j < pending@[k as int].texts@.len());
                return Err(
                    CliError::InvalidNumber {
                        flag: pending[k].flag.clone(),
                        value: pending[k].texts[j].clone(),
                    },
                );
            }
            j = j + 1;
        }
        assert(all_read(rd[k as int]));
        k = k + 1;
    }
    Ok(())
}

/// Stores every value read, in command-line order; the last fidelity list
/// read is returned apart.
fn apply_values(
    config: RunConfig,
    pending: &Vec<PendingScalar>,
    readings: &Vec<Vec<Option<u64>>>,
) -> (r: (RunConfig, Option<Vec<u32>>))
    requires
        readings_fit(pending@, reading_views(readings@)),
        first_unread(reading_views(readings@), 0) == pending@.len(),
    ensures
        ({
            let rd = reading_views(readings@);
            let targets = pending_targets(pending@);
            &&& r.0 == apply_readings(config, targets, rd, targets.len() as int)
            &&& match read_fidelities(targets, rd, targets.len() as int) {
                Some(f) => r.1 matches Some(v) && v@ == f,
                None => r.1 is None,
            }
        }),
{
    let ghost rd = reading_views(readings@);
    let ghost targets = pending_targets(pending@);
    let n = pending.len();
    let mut cfg = config;
    let mut fidelities: Option<Vec<u32>> = None;
    let mut k: usize = 0;
    while k < n
        invariant
            n == pending@.len(),
            targets == pending_targets(pending@),
            rd == reading_views(readings@),
            readings_fit(pending@, rd),
            first_unread(rd, k as int) == n,
            k <= n,
            cfg == apply_readings(config, targets, rd, k as int),
            match read_fidelities(targets, rd, k as int) {
                Some(f) => fidelities matches Some(v) && v@ == f,
                None => fidelities is None,
            },
        decreases n - k,
    {
        proof {
            lemma_all_read_after(rd, k as int);
        }
        let row = &readings[k];
        assert(row@ == rd[k as int]);
        assert(targets[k as int] == pending@[k as int].target);
        match pending[k].target {
            ScalarTarget::Narrow(f) => {
                assert(row@[0] is Some);
                cfg.set_f32(f, row[0].unwrap() as u32);
            },
            ScalarTarget::Wide(f) => {
                assert(row@[0] is Some);
                cfg.set_f64(f, row[0].unwrap());
            },
            ScalarTarget::Zero(f) => cfg.set_f32(f, 0),
            ScalarTarget::Fidelities => {
                let mut values: Vec<u32> = Vec::new();
                let mut j: usize = 0;
                while j < row.len()
                    invariant
                        row@ == rd[k as int],
                        all_read(rd[k as int]),
                        j <= row@.len(),
                        values@ == row@.take(j as int).map_values(|o: Option<u64>| o->0 as u32),
                    decreases row@.len() - j,
                {
                    assert(row@[j as int] is Some);
                    values.push(row[j].unwrap() as u32);
                    assert(values@ =~= row@.take(j as int + 1).map_values(
                        |o: Option<u64>| o->0 as u32,
                    ));
                    j = j + 1;
                }
                assert(row@.take(j as int) =~= row@);
                fidelities = Some(values);
            },
        }
        k = k + 1;
    }
    (cfg, fidelities)
}

impl ParsedArgs {
    /// Resolves the configuration once the caller has read each pending text
    /// (`readings[k][j]` holds the IEEE-754 bits of `pending[k].texts[j]`, or
    /// nothing if it did not parse), then checks every guard. Errors come in
    /// command-line order: an unreadable value, then the scan's error, then a
    /// missing `--corpus-dir`, then the first guard that fails.
    pub fn finish(self, readings: &Vec<Vec<Option<u64>>>) -> (r: Result<RunConfig, CliError>)
        requires
            readings_fit(self.pending@, reading_views(readings@)),
        ensures
            ({
                let rd = reading_views(readings@);
                let bad = first_unread(rd, 0);
                if bad < rd.len() {
                    r matches Err(CliError::InvalidNumber { flag, value }) && flag == self.pending@[bad].flag
                        && value == self.pending@[bad].texts@[first_missing(rd[bad], 0)]
                } else if self.failure is Some {
                    r == Err::<RunConfig, CliError>(self.failure->0)
                } else if !self.corpus_explicit {
                    r matches Err(CliError::MissingCorpusDir)
                } else {
                    match r {
                        Ok(x) => resolves_to(self, rd, x) && first_violation(x) is None,
                        Err(CliError::Invalid(v)) => forall|x: RunConfig|
                            resolves_to(self, rd, x) ==> first_violation(x) == Some(v),
                        _ => false,
                    }
                }
            }),
    {
        let ghost rd = reading_views(readings@);
        match check_readings(&self.pending, readings) {
            Ok(()) => {},
            Err(e) => return Err(e),
        }
        let ghost parsed = self;
        let ParsedArgs { config, corpus_explicit, pending, failure } = self;
        if let Some(e) = failure {
            return Err(e);
        }
        if !corpus_explicit {
            return Err(CliError::MissingCorpusDir);
        }
        let (mut cfg, fidelities) = apply_values(config, &pending, readings);
        if let Some(values) = fidelities {
            cfg.analysis.probe_reference_fidelities = values;
        }
        assert(resolves_to(parsed, rd, cfg));
        match cfg.validate() {
            Ok(()) => Ok(cfg),
            Err(v) => {
                assert forall|x: RunConfig| resolves_to(parsed, rd, x) implies first_violation(x)
                    == Some(v) by {
                    lemma_guards_read_fidelity_values(x, cfg);
                }
                Err(CliError::Invalid(v))
            },
        }
    }
}

/// What the command line asks for before any configuration is resolved.
#[derive(Clone, Copy, Debug, PartialEq, Eq, Structural)]
pub enum CliAction {
    /// Print the usage text.
    Help,
    /// Print the program and schema version.
    Version,
    /// Print the profile, style and research presets.
    ListPresets,
    /// Resolve a configuration and run.
    Run,
}

/// Whether some argument is exactly `text`.
pub open spec fn names_arg(texts: Seq<Seq<char>>, text: Seq<char>) -> bool {
    exists|i: int| 0 <= i < texts.len() && texts[i] == text
}

/// The action of a command line: help wins over version, version over the
/// preset list, wherever they stand.
pub open spec fn action_of(texts: Seq<Seq<char>>) -> CliAction {
    if names_arg(texts, "--help"@) || names_arg(texts, "-h"@) {
        CliAction::Help
    } else if names_arg(texts, "--version"@) || names_arg(texts, "-V"@) {
        CliAction::Version
    } else if names_arg(texts, "--list-presets"@) {
        CliAction::ListPresets
    } else {
        CliAction::Run
    }
}

pub(crate) fn any_arg_is(args: &Vec<String>, text: &str) -> (r: bool)
    ensures
        r == names_arg(arg_texts(args@), text@),
{
    let ghost texts = arg_texts(args@);
    let mut i: usize = 0;
    while i < args.len()
        invariant
            texts == arg_texts(args@),
            i <= args@.len(),
            forall|t: int| 0 <= t < i ==> texts[t] != text@,
        decreases args@.len() - i,
    {
        if str_eq(args[i].as_str(), text) {
            assert(texts[i as int] == text@);
            return true;
        }
        i = i + 1;
    }
    false
}

/// Decides whether the command line asks for help, the version or the preset
/// list instead of a run.
pub fn cli_action(args: &Vec<String>) -> (r: CliAction)
    ensures
        r == action_of(arg_texts(args@)),
{
    if any_arg_is(args, "--help") || any_arg_is(args, "-h") {
        CliAction::Help
    } else if any_arg_is(args, "--version") || any_arg_is(args, "-V") {
        CliAction::Version
    } else if any_arg_is(args, "--list-presets") {
        CliAction::ListPresets
    } else {
        CliAction::Run
    }
}

proof fn lemma_profile_flag_in_table()
    ensures
        cli_option("--profile"@) == Some(CliOption::Profile),
{
    reveal(cli_option);
    reveal(cli_option_part0);
    reveal_strlit("--corpus-dir");
    reveal_strlit("--output-dir");
    reveal_strlit("--run-tag");
    reveal_strlit("--mode");
    reveal_strlit("--profile");
    assert("--profile"@.len() != "--corpus-dir"@.len());
    assert("--profile"@.len() != "--output-dir"@.len());
    assert("--profile"@[2] != "--run-tag"@[2]);
    assert("--profile"@.len() != "--mode"@.len());
}

proof fn lemma_style_flag_in_table()
    ensures
        cli_option("--style"@) == Some(CliOption::Style),
{
    reveal(cli_option);
    reveal(cli_option_part0);
    reveal_strlit("--corpus-dir");
    reveal_strlit("--output-dir");
    reveal_strlit("--run-tag");
    reveal_strlit("--mode");
    reveal_strlit("--profile");
    reveal_strlit("--style");
    assert("--style"@.len() != "--corpus-dir"@.len());
    assert("--style"@.len() != "--output-dir"@.len());
    assert("--style"@.len() != "--run-tag"@.len());
    assert("--style"@[2] != "--mode"@[2]);
    assert("--style"@.len() != "--profile"@.len());
}

proof fn lemma_research_flag_in_table()
    ensures
        cli_option("--research-preset"@) == Some(CliOption::ResearchPreset),
{
    reveal(cli_option);
    reveal(cli_option_part0);
    reveal_strlit("--corpus-dir");
    reveal_strlit("--output-dir");
    reveal_strlit("--run-tag");
    reveal_strlit("--mode");
    reveal_strlit("--profile");
    reveal_strlit("--style");
    reveal_strlit("--research-preset");
    assert("--research-preset"@.len() != "--corpus-dir"@.len());
    assert("--research-preset"@.len() != "--output-dir"@.len());
    assert("--research-preset"@.len() != "--run-tag"@.len());
    assert("--research-preset"@.len() != "--mode"@.len());
    assert("--research-preset"@.len() != "--profile"@.len());
    assert("--research-preset"@.len() != "--style"@.len());
}

/// Whether an option is one of the three preset categories.
pub open spec fn is_preset_option(o: CliOption) -> bool {
    o is Profile || o is Style || o is ResearchPreset
}

/// Explicit settings outrank presets wherever either stands: a preset
/// `pflag pvalue` and an explicit `flag value` given in either order select
/// the same presets, are both scanned to the end, and store the same
/// configuration onto any base, namely what the explicit option stores.
pub proof fn lemma_explicit_option_outranks_preset(
    pflag: Seq<char>,
    pvalue: Seq<char>,
    flag: Seq<char>,
    value: Seq<char>,
    base: RunConfig,
)
    requires
        is_preset_flag(pflag),
        preset_value_parses(pflag, pvalue),
        cli_option(flag) matches Some(o) && takes_value(o) && !is_preset_option(o) && !value_fault(o, value),
        !is_preset_flag(value),
    ensures
        ({
            let before = seq![pflag, pvalue, flag, value];
            let after = seq![flag, value, pflag, pvalue];
            let o = cli_option(flag)->0;
            &&& preset_scan_end(before, 0) == 4 && preset_scan_end(after, 0) == 4
            &&& preset_scan(before, 0, no_presets()) == preset_scan(after, 0, no_presets())
            &&& scan_end(before, 0) == 4 && scan_end(after, 0) == 4
            &&& scan_config(before, 0, base) == apply_option(base, o, value)
            &&& scan_config(after, 0, base) == apply_option(base, o, value)
        }),
{
    lemma_profile_flag_in_table();
    lemma_style_flag_in_table();
    lemma_research_flag_in_table();
    let before = seq![pflag, pvalue, flag, value];
    let after = seq![flag, value, pflag, pvalue];
    let o = cli_option(flag)->0;
    let p = cli_option(pflag)->0;
    assert(is_preset_option(p));
    assert(!is_preset_flag(flag));
    assert(choice_option(p) is Some);
    assert(choice_parses(choice_option(p)->0, pvalue));
    assert(!value_fault(p, pvalue));
    reveal_with_fuel(preset_scan, 4);
    reveal_with_fuel(preset_scan_end, 4);
    reveal_with_fuel(scan_end, 3);
    reveal_with_fuel(scan_config, 3);
    assert(before[0] == pflag && before[1] == pvalue && before[2] == flag && before[3] == value);
    assert(after[0] == flag && after[1] == value && after[2] == pflag && after[3] == pvalue);
    assert(!arg_fails(before, 0) && next_arg(before, 0) == 2);
    assert(!arg_fails(before, 2) && next_arg(before, 2) == 4);
    assert(!arg_fails(after, 0) && next_arg(after, 0) == 2);
    assert(!arg_fails(after, 2) && next_arg(after, 2) == 4);
    assert(apply_option(base, p, pvalue) == base);
    assert(apply_option(apply_option(base, o, value), p, pvalue) == apply_option(base, o, value));
}


/// Scanning `a + b` from a position inside `b` is scanning `b` alone.
proof fn lemma_scan_suffix(a: Seq<Seq<char>>, b: Seq<Seq<char>>, i: int, c: RunConfig)
    requires
        a.len() <= i,
    ensures
        scan_config(a + b, i, c) == scan_config(b, i - a.len(), c),
        scan_end(a + b, i) == a.len() + scan_end(b, i - a.len()),
    decreases (a + b).len() - i,
{
    let s = a + b;
    let j = i - a.len();
    if i < s.len() {
        assert(s[i] == b[j]);
        if i + 1 < s.len() {
            assert(s[i + 1] == b[j + 1]);
        }
        assert(arg_fails(s, i) == arg_fails(b, j));
        assert(next_arg(s, i) == a.len() + next_arg(b, j));
        assert(arg_value(s, i) == arg_value(b, j));
        if !arg_fails(s, i) {
            lemma_scan_suffix(a, b, next_arg(s, i), apply_option(c, cli_option(s[i])->0, arg_value(s, i)));
        }
    }
}

/// Where the scan of `a` from `i` runs cleanly to its end, scanning `a + b`
/// from `i` first stores what `a` stores, then goes on at the start of `b`.
proof fn lemma_scan_prefix(a: Seq<Seq<char>>, b: Seq<Seq<char>>, i: int, c: RunConfig)
    requires
        0 <= i <= a.len(),
        scan_end(a, i) == a.len(),
    ensures
        scan_config(a + b, i, c) == scan_config(a + b, a.len() as int, scan_config(a, i, c)),
        scan_end(a + b, i) == scan_end(a + b, a.len() as int),
    decreases a.len() - i,
{
    let s = a + b;
    if i < a.len() {
        assert(!arg_fails(a, i));
        assert(s[i] == a[i]);
        if i + 1 < a.len() {
            assert(s[i + 1] == a[i + 1]);
        }
        assert(!arg_fails(s, i));
        assert(next_arg(s, i) == next_arg(a, i));
        assert(next_arg(a, i) <= a.len());
        assert(apply_option(c, cli_option(a[i])->0, arg_value(s, i)) == apply_option(
            c,
            cli_option(a[i])->0,
            arg_value(a, i),
        ));
        lemma_scan_prefix(a, b, next_arg(a, i), apply_option(c, cli_option(a[i])->0, arg_value(a, i)));
    }
}

/// Scanning `a + r`, where `a` scans cleanly to its end, stores what `a`
/// stores and then what `r` stores, and stops where `r` stops.
proof fn lemma_scan_concat(a: Seq<Seq<char>>, r: Seq<Seq<char>>, c: RunConfig)
    requires
        scan_end(a, 0) == a.len(),
    ensures
        scan_config(a + r, 0, c) == scan_config(r, 0, scan_config(a, 0, c)),
        scan_end(a + r, 0) == a.len() + scan_end(r, 0),
{
    lemma_scan_prefix(a, r, 0, c);
    lemma_scan_suffix(a, r, a.len() as int, scan_config(a, 0, c));
}

/// A valid preset flag with its value scans cleanly and stores nothing.
proof fn lemma_preset_pair_scan(pflag: Seq<char>, pvalue: Seq<char>, c: RunConfig)
    requires
        is_preset_flag(pflag),
        preset_value_parses(pflag, pvalue),
    ensures
        scan_end(seq![pflag, pvalue], 0) == 2,
        scan_config(seq![pflag, pvalue], 0, c) == c,
{
    lemma_profile_flag_in_table();
    lemma_style_flag_in_table();
    lemma_research_flag_in_table();
    let pair = seq![pflag, pvalue];
    let p = cli_option(pflag)->0;
    assert(is_preset_option(p));
    assert(choice_option(p) is Some);
    assert(choice_parses(choice_option(p)->0, pvalue));
    assert(!value_fault(p, pvalue));
    reveal_with_fuel(scan_end, 2);
    reveal_with_fuel(scan_config, 2);
    assert(pair[0] == pflag && pair[1] == pvalue);
    assert(!arg_fails(pair, 0) && next_arg(pair, 0) == 2);
    assert(apply_option(c, p, pvalue) == c);
}

/// A preset flag and its value may stand anywhere among the options: moved
/// from before a run of options `mid` that scans cleanly to after it, the
/// scan stores the same configuration onto any base and stops at the same
/// place, for any options that precede and follow. The preset itself is
/// resolved before every explicit option, whatever its position.
pub proof fn lemma_preset_position_irrelevant(
    pre: Seq<Seq<char>>,
    pflag: Seq<char>,
    pvalue: Seq<char>,
    mid: Seq<Seq<char>>,
    post: Seq<Seq<char>>,
    base: RunConfig,
)
    requires
        is_preset_flag(pflag),
        preset_value_parses(pflag, pvalue),
        scan_end(pre, 0) == pre.len(),
        scan_end(mid, 0) == mid.len(),
    ensures
        ({
            let pair = seq![pflag, pvalue];
            let first = pre + pair + mid + post;
            let second = pre + mid + pair + post;
            &&& scan_config(first, 0, base) == scan_config(second, 0, base)
            &&& scan_end(first, 0) == scan_end(second, 0)
        }),
{
    let pair = seq![pflag, pvalue];
    let c1 = scan_config(pre, 0, base);
    let c2 = scan_config(mid, 0, c1);
    lemma_preset_pair_scan(pflag, pvalue, c1);
    lemma_preset_pair_scan(pflag, pvalue, c2);
    assert(pre + pair + mid + post =~= pre + (pair + (mid + post)));
    lemma_scan_concat(pre, pair + (mid + post), base);
    lemma_scan_concat(pair, mid + post, c1);
    lemma_scan_concat(mid, post, c1);
    assert(pre + mid + pair + post =~= pre + (mid + (pair + post)));
    lemma_scan_concat(pre, mid + (pair + post), base);
    lemma_scan_concat(mid, pair + post, c1);
    lemma_scan_concat(pair, post, c2);
}

/// Presets are applied before explicit options wherever they stand: moving a
/// preset flag and its value past options that scan cleanly and hold no
/// preset flag changes neither the presets chosen, nor the configuration that
/// the options then store onto the preset defaults, nor where either scan stops.
pub proof fn lemma_preset_flag_position_irrelevant(
    pre: Seq<Seq<char>>,
    pflag: Seq<char>,
    pvalue: Seq<char>,
    mid: Seq<Seq<char>>,
    post: Seq<Seq<char>>,
    defaults: RunConfig,
)
    requires
        is_preset_flag(pflag),
        preset_value_parses(pflag, pvalue),
        scan_end(pre, 0) == pre.len(),
        preset_scan_end(pre, 0) == pre.len(),
        scan_end(mid, 0) == mid.len(),
        forall|k: int| 0 <= k < mid.len() ==> !is_preset_flag(#[trigger] mid[k]),
    ensures
        ({
            let pair = option_pair(pflag, pvalue);
            let first = pre + pair + mid + post;
            let second = pre + mid + pair + post;
            &&& preset_scan(first, 0, no_presets()) == preset_scan(second, 0, no_presets())
            &&& preset_scan_end(first, 0) == preset_scan_end(second, 0)
            &&& scan_config(first, 0, with_choice(defaults, preset_scan(first, 0, no_presets())))
                == scan_config(second, 0, with_choice(defaults, preset_scan(second, 0, no_presets())))
            &&& scan_end(first, 0) == scan_end(second, 0)
        }),
{
    lemma_preset_choice_position_irrelevant(pre, pflag, pvalue, mid, post);
    let first = pre + option_pair(pflag, pvalue) + mid + post;
    let chosen = with_choice(defaults, preset_scan(first, 0, no_presets()));
    lemma_preset_position_irrelevant(pre, pflag, pvalue, mid, post, chosen);
}


/// A run tag is one to sixty-four characters, each an ASCII letter, an ASCII
/// digit, `-` or `_`, and nothing else.
pub proof fn lemma_tag_characters(text: Seq<char>)
    ensures
        valid_tag(text) <==> (1 <= text.len() <= 64 && forall|i: int|
            0 <= i < text.len() ==> {
                let c = #[trigger] text[i];
                ||| 'a' <= c <= 'z'
                ||| 'A' <= c <= 'Z'
                ||| '0' <= c <= '9'
                ||| c == '-'
                ||| c == '_'
            }),
{
}

/// Only switches and zeroing switches stand alone; every other option reads
/// the argument after it.
pub proof fn lemma_options_taking_values(o: CliOption)
    ensures
        !takes_value(o) <==> (o is Switch || o is Disable),
{
}

/// What each option stores directly: a choice option its parsed choice, a
/// size or seed option its number, a switch its setting; text settings,
/// binary32 and binary64 values, zeroing switches and presets store nothing
/// here.
pub proof fn lemma_apply_option_stores(c: RunConfig, value: Seq<char>)
    ensures
        apply_option(c, CliOption::Mode, value) == (RunConfig { mode: TrainingMode::spec_parse(value)->0, ..c }),
        apply_option(c, CliOption::Objective, value) == (RunConfig { objective: ObjectiveMode::spec_parse(value)->0, ..c }),
        apply_option(c, CliOption::TargetBoundary, value) == (RunConfig {
            detail: DetailConfig { boundary: BoundaryMode::spec_parse(value)->0, ..c.detail },
            ..c
        }),
        apply_option(c, CliOption::MorphDepthMode, value) == (RunConfig {
            morph_growth: MorphGrowthConfig { mode: MorphDepthMode::spec_parse(value)->0, ..c.morph_growth },
            ..c
        }),
        apply_option(c, CliOption::Terminal, value) == (RunConfig { terminal: TerminalMode::spec_parse(value)->0, ..c }),
        apply_option(c, CliOption::Conditioning, value) == (RunConfig { conditioning: ConditioningMode::spec_parse(value)->0, ..c }),
        apply_option(c, CliOption::Optimizer, value) == (RunConfig { optimizer: OptimizerKind::spec_parse(value)->0, ..c }),
        apply_option(c, CliOption::Integrator, value) == (RunConfig { integrator: Integrator::spec_parse(value)->0, ..c }),
        forall|f: SizeField| #[trigger] apply_option(c, CliOption::Size(f), value) == with_size(
            c,
            f,
            parse_unsigned(value, usize::MAX as nat)->0 as usize,
        ),
        forall|f: SeedField| #[trigger] apply_option(c, CliOption::Seed(f), value) == with_seed(
            c,
            f,
            parse_unsigned(value, u64::MAX as nat)->0 as u64,
        ),
        forall|f: SwitchField| #[trigger] apply_option(c, CliOption::Switch(f), value) == with_switch(c, f),
        forall|f: F32Field| #[trigger] apply_option(c, CliOption::Scalar(f), value) == c,
        forall|f: F64Field| #[trigger] apply_option(c, CliOption::Wide(f), value) == c,
        forall|f: F32Field| #[trigger] apply_option(c, CliOption::Disable(f), value) == c,
        apply_option(c, CliOption::CorpusDir, value) == c,
        apply_option(c, CliOption::OutputDir, value) == c,
        apply_option(c, CliOption::RunTag, value) == c,
        apply_option(c, CliOption::PyramidCacheDir, value) == c,
        apply_option(c, CliOption::ProbeDir, value) == c,
        apply_option(c, CliOption::CompareV8Dir, value) == c,
        apply_option(c, CliOption::ProbeAges, value) == c,
        apply_option(c, CliOption::ProbeReferenceFidelities, value) == c,
        apply_option(c, CliOption::Profile, value) == c,
        apply_option(c, CliOption::Style, value) == c,
        apply_option(c, CliOption::ResearchPreset, value) == c,
{
}

proof fn lemma_names_arg_concat(a: Seq<Seq<char>>, b: Seq<Seq<char>>, x: Seq<char>)
    ensures
        names_arg(a + b, x) <==> names_arg(a, x) || names_arg(b, x),
{
    if names_arg(a + b, x) {
        let i = choose|i: int| 0 <= i < (a + b).len() && (a + b)[i] == x;
        if i < a.len() {
            assert(a[i] == x);
        } else {
            assert(b[i - a.len()] == x);
        }
    }
    if names_arg(a, x) {
        let i = choose|i: int| 0 <= i < a.len() && a[i] == x;
        assert((a + b)[i] == x);
    }
    if names_arg(b, x) {
        let i = choose|i: int| 0 <= i < b.len() && b[i] == x;
        assert((a + b)[a.len() + i] == x);
    }
}

/// `--help` or `-h` anywhere asks for help; otherwise `--version` or `-V`
/// anywhere for the version; otherwise `--list-presets` for the preset list;
/// else the run. Where the flags stand does not matter.
pub proof fn lemma_action_of(a: Seq<Seq<char>>, b: Seq<Seq<char>>)
    ensures
        names_arg(a, "--help"@) || names_arg(a, "-h"@) ==> action_of(a) == CliAction::Help,
        !(names_arg(a, "--help"@) || names_arg(a, "-h"@)) && (names_arg(a, "--version"@) || names_arg(
            a,
            "-V"@,
        )) ==> action_of(a) == CliAction::Version,
        !(names_arg(a, "--help"@) || names_arg(a, "-h"@)) && !(names_arg(a, "--version"@) || names_arg(
            a,
            "-V"@,
        )) && names_arg(a, "--list-presets"@) ==> action_of(a) == CliAction::ListPresets,
        !(names_arg(a, "--help"@) || names_arg(a, "-h"@) || names_arg(a, "--version"@) || names_arg(
            a,
            "-V"@,
        ) || names_arg(a, "--list-presets"@)) ==> action_of(a) == CliAction::Run,
        action_of(a + b) == action_of(b + a),
{
    lemma_names_arg_concat(a, b, "--help"@);
    lemma_names_arg_concat(b, a, "--help"@);
    lemma_names_arg_concat(a, b, "-h"@);
    lemma_names_arg_concat(b, a, "-h"@);
    lemma_names_arg_concat(a, b, "--version"@);
    lemma_names_arg_concat(b, a, "--version"@);
    lemma_names_arg_concat(a, b, "-V"@);
    lemma_names_arg_concat(b, a, "-V"@);
    lemma_names_arg_concat(a, b, "--list-presets"@);
    lemma_names_arg_concat(b, a, "--list-presets"@);
}

} // verus!
