//! Category presets named on the command line, applied in a fixed order.
use vstd::prelude::*;
use crate::config::{ChoiceOption, CliError, PhoneProfile, ResearchPreset, StylePreset};
use crate::run_config::{with_profile, with_research_preset, with_style, RunConfig};
use crate::text::str_eq;

verus! {

/// The last profile, style and research preset that an argument list names.
#[derive(Clone, Copy, Debug, PartialEq, Eq, Structural)]
pub struct PresetChoice {
    pub profile: Option<PhoneProfile>,
    pub style: Option<StylePreset>,
    pub research: Option<ResearchPreset>,
}

/// The text of each argument.
pub open spec fn arg_texts(args: Seq<String>) -> Seq<Seq<char>> {
    args.map_values(|a: String| a@)
}

pub open spec fn is_preset_flag(text: Seq<char>) -> bool {
    text == "--profile"@ || text == "--style"@ || text == "--research-preset"@
}

/// Whether the value after a preset flag names a preset of its category.
pub open spec fn preset_value_parses(flag: Seq<char>, value: Seq<char>) -> bool {
    if flag == "--profile"@ {
        PhoneProfile::spec_parse(value) is Some
    } else if flag == "--style"@ {
        StylePreset::spec_parse(value) is Some
    } else {
        ResearchPreset::spec_parse(value) is Some
    }
}

/// Where the scan from `i` stops: the position of the first preset flag that
/// lacks a value or names no preset, or the end of the list.
pub open spec fn preset_scan_end(texts: Seq<Seq<char>>, i: int) -> int
    decreases texts.len() - i,
{
    if i < 0 || i >= texts.len() {
        texts.len() as int
    } else if is_preset_flag(texts[i]) {
        if i + 1 >= texts.len() || !preset_value_parses(texts[i], texts[i + 1]) {
            i
        } else {
            preset_scan_end(texts, i + 2)
        }
    } else {
        preset_scan_end(texts, i + 1)
    }
}

/// The choice that scanning from `i` accumulates onto `acc`: each preset flag
/// and its value replace the earlier choice of that category, and the scan
/// resumes after the value.
pub open spec fn preset_scan(texts: Seq<Seq<char>>, i: int, acc: PresetChoice) -> PresetChoice
    decreases texts.len() - i,
{
    if i < 0 || i >= texts.len() {
        acc
    } else if is_preset_flag(texts[i]) {
        if i + 1 >= texts.len() || !preset_value_parses(texts[i], texts[i + 1]) {
            acc
        } else if texts[i] == "--profile"@ {
            preset_scan(texts, i + 2, PresetChoice { profile: PhoneProfile::spec_parse(texts[i + 1]), ..acc })
        } else if texts[i] == "--style"@ {
            preset_scan(texts, i + 2, PresetChoice { style: StylePreset::spec_parse(texts[i + 1]), ..acc })
        } else {
            preset_scan(texts, i + 2, PresetChoice { research: ResearchPreset::spec_parse(texts[i + 1]), ..acc })
        }
    } else {
        preset_scan(texts, i + 1, acc)
    }
}

pub open spec fn no_presets() -> PresetChoice {
    PresetChoice { profile: None, style: None, research: None }
}

pub open spec fn choice_option_of(flag: Seq<char>) -> ChoiceOption {
    if flag == "--profile"@ {
        ChoiceOption::Profile
    } else if flag == "--style"@ {
        ChoiceOption::Style
    } else {
        ChoiceOption::ResearchPreset
    }
}

/// `e` reports the preset flag at `at`: a missing value when it is the last
/// argument, otherwise the value that names no preset.
pub open spec fn preset_error_at(texts: Seq<Seq<char>>, at: int, e: CliError) -> bool {
    if at + 1 >= texts.len() {
        e matches CliError::MissingValue { flag } && flag@ == texts[at]
    } else {
        e matches CliError::InvalidChoice { option, value } && option == choice_option_of(texts[at])
            && value@ == texts[at + 1]
    }
}

/// Applies the chosen categories in the order profile, style, research preset.
pub open spec fn with_choice(c: RunConfig, choice: PresetChoice) -> RunConfig {
    let a = match choice.profile {
        Some(p) => with_profile(c, p),
        None => c,
    };
    let b = match choice.style {
        Some(s) => with_style(a, s),
        None => a,
    };
    match choice.research {
        Some(r) => with_research_preset(b, r),
        None => b,
    }
}

/// The two arguments `flag value`.
pub open spec fn option_pair(flag: Seq<char>, value: Seq<char>) -> Seq<Seq<char>> {
    seq![flag, value]
}

/// Command-line order never changes which presets resolve: a profile, a style
/// and a research preset given in any of the six orders select the same choice,
/// and the scan accepts all six.
pub proof fn lemma_preset_order_irrelevant(profile: Seq<char>, style: Seq<char>, research: Seq<char>)
    requires
        PhoneProfile::spec_parse(profile) is Some,
        StylePreset::spec_parse(style) is Some,
        ResearchPreset::spec_parse(research) is Some,
    ensures
        ({
            let p = option_pair("--profile"@, profile);
            let s = option_pair("--style"@, style);
            let r = option_pair("--research-preset"@, research);
            let chosen = PresetChoice {
                profile: PhoneProfile::spec_parse(profile),
                style: StylePreset::spec_parse(style),
                research: ResearchPreset::spec_parse(research),
            };
            &&& preset_scan(p + s + r, 0, no_presets()) == chosen
            &&& preset_scan(p + r + s, 0, no_presets()) == chosen
            &&& preset_scan(s + p + r, 0, no_presets()) == chosen
            &&& preset_scan(s + r + p, 0, no_presets()) == chosen
            &&& preset_scan(r + p + s, 0, no_presets()) == chosen
            &&& preset_scan(r + s + p, 0, no_presets()) == chosen
            &&& preset_scan_end(p + s + r, 0) == 6
            &&& preset_scan_end(p + r + s, 0) == 6
            &&& preset_scan_end(s + p + r, 0) == 6
            &&& preset_scan_end(s + r + p, 0) == 6
            &&& preset_scan_end(r + p + s, 0) == 6
            &&& preset_scan_end(r + s + p, 0) == 6
        }),
{
    reveal_strlit("--profile");
    reveal_strlit("--style");
    reveal_strlit("--research-preset");
    reveal_with_fuel(preset_scan, 4);
    reveal_with_fuel(preset_scan_end, 4);
    let p = option_pair("--profile"@, profile);
    let s = option_pair("--style"@, style);
    let r = option_pair("--research-preset"@, research);
    assert("--profile"@.len() == 9 && "--style"@.len() == 7 && "--research-preset"@.len() == 17);
    assert("--profile"@ != "--style"@);
    assert("--profile"@ != "--research-preset"@);
    assert("--style"@ != "--research-preset"@);
    assert((p + s + r) =~= seq!["--profile"@, profile, "--style"@, style, "--research-preset"@, research]);
    assert((p + r + s) =~= seq!["--profile"@, profile, "--research-preset"@, research, "--style"@, style]);
    assert((s + p + r) =~= seq!["--style"@, style, "--profile"@, profile, "--research-preset"@, research]);
    assert((s + r + p) =~= seq!["--style"@, style, "--research-preset"@, research, "--profile"@, profile]);
    assert((r + p + s) =~= seq!["--research-preset"@, research, "--profile"@, profile, "--style"@, style]);
    assert((r + s + p) =~= seq!["--research-preset"@, research, "--style"@, style, "--profile"@, profile]);
}

/// Scans `args` for `--profile`, `--style` and `--research-preset`.
pub fn select_presets(args: &Vec<String>) -> (r: Result<PresetChoice, CliError>)
    ensures
        match r {
            Ok(choice) => preset_scan_end(arg_texts(args@), 0) == args@.len()
                && choice == preset_scan(arg_texts(args@), 0, no_presets()),
            Err(e) => preset_scan_end(arg_texts(args@), 0) < args@.len()
                && preset_error_at(arg_texts(args@), preset_scan_end(arg_texts(args@), 0), e),
        },
{
    let ghost texts = arg_texts(args@);
    let mut choice = PresetChoice { profile: None, style: None, research: None };
    let mut i: usize = 0;
    while i < args.len()
        invariant
            texts == arg_texts(args@),
            i <= args@.len() + 1,
            preset_scan_end(texts, 0) == preset_scan_end(texts, i as int),
            preset_scan(texts, 0, no_presets()) == preset_scan(texts, i as int, choice),
        decreases args@.len() + 1 - i,
    {
        let flag = args[i].as_str();
        assert(flag@ == texts[i as int]);
        let is_profile = str_eq(flag, "--profile");
        let is_style = str_eq(flag, "--style");
        let is_research = str_eq(flag, "--research-preset");
        if is_profile || is_style || is_research {
            if i + 1 >= args.len() {
                return Err(CliError::MissingValue { flag: flag.to_owned() });
            }
            let value = args[i + 1].as_str();
            assert(value@ == texts[i + 1]);
            if is_profile {
                match PhoneProfile::parse(value) {
                    Ok(p) => choice = PresetChoice { profile: Some(p), ..choice },
                    Err(e) => return Err(e),
                }
            } else if is_style {
                match StylePreset::parse(value) {
                    Ok(s) => choice = PresetChoice { style: Some(s), ..choice },
                    Err(e) => return Err(e),
                }
            } else {
                match ResearchPreset::parse(value) {
                    Ok(p) => choice = PresetChoice { research: Some(p), ..choice },
                    Err(e) => return Err(e),
                }
            }
            i = i + 2;
        } else {
            i = i + 1;
        }
    }
    Ok(choice)
}

impl RunConfig {
    fn apply_choice(self, choice: PresetChoice) -> (r: RunConfig)
        ensures
            r == with_choice(self, choice),
    {
        let a = match choice.profile {
            Some(p) => self.into_profile(p),
            None => self,
        };
        let b = match choice.style {
            Some(s) => a.into_style(s),
            None => a,
        };
        match choice.research {
            Some(p) => b.into_research_preset(p),
            None => b,
        }
    }
}

/// Applies the preset categories that `args` names onto `config` before any
/// explicit setting: profile, then style, then research preset, whatever
/// their order on the command line. On an error `config` is unchanged.
pub fn preapply_presets(args: &Vec<String>, config: &mut RunConfig) -> (r: Result<(), CliError>)
    ensures
        match r {
            Ok(()) => preset_scan_end(arg_texts(args@), 0) == args@.len() && *final(config)
                == with_choice(*old(config), preset_scan(arg_texts(args@), 0, no_presets())),
            Err(e) => preset_scan_end(arg_texts(args@), 0) < args@.len()
                && preset_error_at(arg_texts(args@), preset_scan_end(arg_texts(args@), 0), e)
                && *final(config) == *old(config),
        },
{
    match select_presets(args) {
        Ok(choice) => {
            let mut current = RunConfig::default_for(None);
            std::mem::swap(config, &mut current);
            *config = current.apply_choice(choice);
            Ok(())
        },
        Err(e) => Err(e),
    }
}

/// Scanning `a + b` for presets from a position inside `b` is scanning `b` alone.
proof fn lemma_preset_scan_suffix(a: Seq<Seq<char>>, b: Seq<Seq<char>>, i: int, acc: PresetChoice)
    requires
        a.len() <= i,
    ensures
        preset_scan(a + b, i, acc) == preset_scan(b, i - a.len(), acc),
        preset_scan_end(a + b, i) == a.len() + preset_scan_end(b, i - a.len()),
    decreases (a + b).len() - i,
{
    let s = a + b;
    let j = i - a.len();
    if i < s.len() {
        assert(s[i] == b[j]);
        if i + 1 < s.len() {
            assert(s[i + 1] == b[j + 1]);
        }
        if is_preset_flag(s[i]) {
            if i + 1 < s.len() && preset_value_parses(s[i], s[i + 1]) {
                let next = if s[i] == "--profile"@ {
                    PresetChoice { profile: PhoneProfile::spec_parse(s[i + 1]), ..acc }
                } else if s[i] == "--style"@ {
                    PresetChoice { style: StylePreset::spec_parse(s[i + 1]), ..acc }
                } else {
                    PresetChoice { research: ResearchPreset::spec_parse(s[i + 1]), ..acc }
                };
                lemma_preset_scan_suffix(a, b, i + 2, next);
            }
        } else {
            lemma_preset_scan_suffix(a, b, i + 1, acc);
        }
    }
}

/// Where the preset scan of `a` from `i` runs cleanly to its end, scanning
/// `a + b` from `i` first chooses what `a` chooses, then goes on at `b`.
proof fn lemma_preset_scan_prefix(a: Seq<Seq<char>>, b: Seq<Seq<char>>, i: int, acc: PresetChoice)
    requires
        0 <= i <= a.len(),
        preset_scan_end(a, i) == a.len(),
    ensures
        preset_scan(a + b, i, acc) == preset_scan(a + b, a.len() as int, preset_scan(a, i, acc)),
        preset_scan_end(a + b, i) == preset_scan_end(a + b, a.len() as int),
    decreases a.len() - i,
{
    let s = a + b;
    if i < a.len() {
        assert(s[i] == a[i]);
        if i + 1 < a.len() {
            assert(s[i + 1] == a[i + 1]);
        }
        if is_preset_flag(a[i]) {
            assert(i + 1 < a.len() && preset_value_parses(a[i], a[i + 1]));
            let next = if a[i] == "--profile"@ {
                PresetChoice { profile: PhoneProfile::spec_parse(a[i + 1]), ..acc }
            } else if a[i] == "--style"@ {
                PresetChoice { style: StylePreset::spec_parse(a[i + 1]), ..acc }
            } else {
                PresetChoice { research: ResearchPreset::spec_parse(a[i + 1]), ..acc }
            };
            lemma_preset_scan_prefix(a, b, i + 2, next);
        } else {
            lemma_preset_scan_prefix(a, b, i + 1, acc);
        }
    }
}

proof fn lemma_preset_scan_concat(a: Seq<Seq<char>>, r: Seq<Seq<char>>, acc: PresetChoice)
    requires
        preset_scan_end(a, 0) == a.len(),
    ensures
        preset_scan(a + r, 0, acc) == preset_scan(r, 0, preset_scan(a, 0, acc)),
        preset_scan_end(a + r, 0) == a.len() + preset_scan_end(r, 0),
{
    lemma_preset_scan_prefix(a, r, 0, acc);
    lemma_preset_scan_suffix(a, r, a.len() as int, preset_scan(a, 0, acc));
}

/// Arguments that are no preset flags leave the preset choice alone.
proof fn lemma_preset_scan_skips_others(mid: Seq<Seq<char>>, i: int, acc: PresetChoice)
    requires
        0 <= i <= mid.len(),
        forall|k: int| 0 <= k < mid.len() ==> !is_preset_flag(#[trigger] mid[k]),
    ensures
        preset_scan(mid, i, acc) == acc,
        preset_scan_end(mid, i) == mid.len(),
    decreases mid.len() - i,
{
    if i < mid.len() {
        assert(!is_preset_flag(mid[i]));
        lemma_preset_scan_skips_others(mid, i + 1, acc);
    }
}

/// A preset flag and its value may move past any arguments that are no
/// preset flags: the same presets are chosen and the scan stops at the same
/// place, whatever precedes and follows.
pub proof fn lemma_preset_choice_position_irrelevant(
    pre: Seq<Seq<char>>,
    pflag: Seq<char>,
    pvalue: Seq<char>,
    mid: Seq<Seq<char>>,
    post: Seq<Seq<char>>,
)
    requires
        is_preset_flag(pflag),
        preset_value_parses(pflag, pvalue),
        preset_scan_end(pre, 0) == pre.len(),
        forall|k: int| 0 <= k < mid.len() ==> !is_preset_flag(#[trigger] mid[k]),
    ensures
        ({
            let pair = option_pair(pflag, pvalue);
            let first = pre + pair + mid + post;
            let second = pre + mid + pair + post;
            &&& preset_scan(first, 0, no_presets()) == preset_scan(second, 0, no_presets())
            &&& preset_scan_end(first, 0) == preset_scan_end(second, 0)
        }),
{
    let pair = option_pair(pflag, pvalue);
    reveal_with_fuel(preset_scan, 2);
    reveal_with_fuel(preset_scan_end, 2);
    assert(pair[0] == pflag && pair[1] == pvalue);
    assert(preset_scan_end(pair, 0) == 2);
    let c1 = preset_scan(pre, 0, no_presets());
    lemma_preset_scan_skips_others(mid, 0, c1);
    let c2 = preset_scan(pair, 0, c1);
    lemma_preset_scan_skips_others(mid, 0, c2);
    assert(pre + pair + mid + post =~= pre + (pair + (mid + post)));
    lemma_preset_scan_concat(pre, pair + (mid + post), no_presets());
    lemma_preset_scan_concat(pair, mid + post, c1);
    lemma_preset_scan_concat(mid, post, c2);
    assert(pre + mid + pair + post =~= pre + (mid + (pair + post)));
    lemma_preset_scan_concat(pre, mid + (pair + post), no_presets());
    lemma_preset_scan_concat(mid, pair + post, c1);
    lemma_preset_scan_concat(pair, post, c1);
}

} // verus!
