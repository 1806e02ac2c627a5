//! The command line of the frozen developmental analysis.
//!
//! Arguments come in `--option value` pairs. Integer, band and path values are
//! stored as they are met (the last occurrence wins); binary64 values are
//! handed out as text, read by the caller, and stored afterwards.
use vstd::prelude::*;
use crate::float_bits::{f64_finite, f64_is_finite, f64_le, f64_less, f64_less_equal, f64_lt};
use crate::numbers::{comma_pieces, parse_decimal, parse_unsigned, split_commas};
use crate::presets::arg_texts;
use crate::cli::{any_arg_is, names_arg, all_read, first_missing, first_unread, lemma_all_read_after, reading_views, string_views};
use crate::text::{chars_of, str_eq, string_from_chars};

verus! {

/// A radial frequency band of a spectrum.
#[derive(Clone, Copy, Debug, PartialEq, Eq, Structural)]
pub enum Band {
    Low,
    Mid,
    High,
}

pub open spec fn spec_band(text: Seq<char>) -> Option<Band> {
    if text == "low"@ {
        Some(Band::Low)
    } else if text == "mid"@ {
        Some(Band::Mid)
    } else if text == "high"@ {
        Some(Band::High)
    } else {
        None
    }
}

/// Why the analysis command line was refused.
#[derive(Clone, Debug)]
pub enum DevelopError {
    /// The arguments do not come in `--option value` pairs.
    UnpairedArguments,
    /// The argument is not a known option.
    UnknownOption { flag: String },
    /// The value does not parse as the option's number type.
    InvalidNumber { flag: String, value: String },
    /// The value names no band.
    InvalidBand { value: String },
    /// `--config` or `--output` is missing.
    MissingPaths,
    /// Steps outside 1..=100000, a zero stride or a capacity outside 2..=512.
    StepLimits,
    /// The saved states would not fit the recurrence capacity.
    RecurrenceCapacity,
    /// The cutoffs are not finite with 0 < low < mid < 0.5.
    CutoffOrder,
    /// A perturbation amplitude is not finite and positive.
    Epsilons,
    /// The response panel is too large or probes beyond the horizon.
    ResponsePanel,
    /// The fixed-point threshold is not finite and nonnegative, or the window is zero.
    FixedPoint,
}

/// Reads a band name.
pub fn band(s: &str) -> (r: Result<Band, DevelopError>)
    ensures
        match spec_band(s@) {
            Some(b) => r matches Ok(x) && x == b,
            None => r matches Err(DevelopError::InvalidBand { value }) && value@ == s@,
        },
{
    if str_eq(s, "low") {
        Ok(Band::Low)
    } else if str_eq(s, "mid") {
        Ok(Band::Mid)
    } else if str_eq(s, "high") {
        Ok(Band::High)
    } else {
        Err(DevelopError::InvalidBand { value: s.to_owned() })
    }
}

/// What an option of the analysis command line sets.
#[derive(Clone, Copy, Debug, PartialEq, Eq, Structural)]
pub enum DevelopOption {
    Config,
    Output,
    Steps,
    Seed,
    LowCutoff,
    MidCutoff,
    RecurrenceStride,
    RecurrenceMax,
    PerturbEpsilon,
    PerturbBand,
    ResponseAges,
    ResponseEpsilons,
    ResponseBands,
    FixedRms,
    FixedWindow,
}

pub open spec fn develop_option(flag: Seq<char>) -> Option<DevelopOption> {
    if flag == "--config"@ {
        Some(DevelopOption::Config)
    } else if flag == "--output"@ {
        Some(DevelopOption::Output)
    } else if flag == "--steps"@ {
        Some(DevelopOption::Steps)
    } else if flag == "--seed"@ {
        Some(DevelopOption::Seed)
    } else if flag == "--low-cutoff"@ {
        Some(DevelopOption::LowCutoff)
    } else if flag == "--mid-cutoff"@ {
        Some(DevelopOption::MidCutoff)
    } else if flag == "--recurrence-stride"@ {
        Some(DevelopOption::RecurrenceStride)
    } else if flag == "--recurrence-max"@ {
        Some(DevelopOption::RecurrenceMax)
    } else if flag == "--perturb-epsilon"@ {
        Some(DevelopOption::PerturbEpsilon)
    } else if flag == "--perturb-band"@ {
        Some(DevelopOption::PerturbBand)
    } else if flag == "--response-ages"@ {
        Some(DevelopOption::ResponseAges)
    } else if flag == "--response-epsilons"@ {
        Some(DevelopOption::ResponseEpsilons)
    } else if flag == "--response-bands"@ {
        Some(DevelopOption::ResponseBands)
    } else if flag == "--fixed-rms"@ {
        Some(DevelopOption::FixedRms)
    } else if flag == "--fixed-window"@ {
        Some(DevelopOption::FixedWindow)
    } else {
        None
    }
}

fn lookup_develop_option(flag: &str) -> (r: Option<DevelopOption>)
    ensures
        r == develop_option(flag@),
{
    if str_eq(flag, "--config") {
        Some(DevelopOption::Config)
    } else if str_eq(flag, "--output") {
        Some(DevelopOption::Output)
    } else if str_eq(flag, "--steps") {
        Some(DevelopOption::Steps)
    } else if str_eq(flag, "--seed") {
        Some(DevelopOption::Seed)
    } else if str_eq(flag, "--low-cutoff") {
        Some(DevelopOption::LowCutoff)
    } else if str_eq(flag, "--mid-cutoff") {
        Some(DevelopOption::MidCutoff)
    } else if str_eq(flag, "--recurrence-stride") {
        Some(DevelopOption::RecurrenceStride)
    } else if str_eq(flag, "--recurrence-max") {
        Some(DevelopOption::RecurrenceMax)
    } else if str_eq(flag, "--perturb-epsilon") {
        Some(DevelopOption::PerturbEpsilon)
    } else if str_eq(flag, "--perturb-band") {
        Some(DevelopOption::PerturbBand)
    } else if str_eq(flag, "--response-ages") {
        Some(DevelopOption::ResponseAges)
    } else if str_eq(flag, "--response-epsilons") {
        Some(DevelopOption::ResponseEpsilons)
    } else if str_eq(flag, "--response-bands") {
        Some(DevelopOption::ResponseBands)
    } else if str_eq(flag, "--fixed-rms") {
        Some(DevelopOption::FixedRms)
    } else if str_eq(flag, "--fixed-window") {
        Some(DevelopOption::FixedWindow)
    } else {
        None
    }
}

/// Whether the option takes a binary64 value (or a list of them).
pub open spec fn is_float_option(o: DevelopOption) -> bool {
    ||| o is LowCutoff
    ||| o is MidCutoff
    ||| o is PerturbEpsilon
    ||| o is ResponseEpsilons
    ||| o is FixedRms
}

/// The first piece at or after `k` that is not a decimal `usize`.
pub open spec fn first_bad_age(pieces: Seq<Seq<char>>, k: int) -> int
    decreases pieces.len() - k,
{
    if k < 0 || k >= pieces.len() {
        pieces.len() as int
    } else if parse_unsigned(pieces[k], usize::MAX as nat) is None {
        k
    } else {
        first_bad_age(pieces, k + 1)
    }
}

/// The first piece at or after `k` that names no band.
pub open spec fn first_bad_band(pieces: Seq<Seq<char>>, k: int) -> int
    decreases pieces.len() - k,
{
    if k < 0 || k >= pieces.len() {
        pieces.len() as int
    } else if spec_band(pieces[k]) is None {
        k
    } else {
        first_bad_band(pieces, k + 1)
    }
}

/// Whether the option refuses the value.
pub open spec fn develop_value_fault(o: DevelopOption, v: Seq<char>) -> bool {
    match o {
        DevelopOption::Steps | DevelopOption::RecurrenceStride | DevelopOption::RecurrenceMax
        | DevelopOption::FixedWindow => parse_unsigned(v, usize::MAX as nat) is None,
        DevelopOption::Seed => parse_unsigned(v, u64::MAX as nat) is None,
        DevelopOption::PerturbBand => spec_band(v) is None,
        DevelopOption::ResponseAges => first_bad_age(comma_pieces(v), 0) < comma_pieces(v).len(),
        DevelopOption::ResponseBands => first_bad_band(comma_pieces(v), 0) < comma_pieces(v).len(),
        _ => false,
    }
}

/// `e` is the error that the option raises for the value.
pub open spec fn develop_value_error(o: DevelopOption, flag: Seq<char>, v: Seq<char>, e: DevelopError) -> bool {
    match o {
        DevelopOption::Steps | DevelopOption::RecurrenceStride | DevelopOption::RecurrenceMax
        | DevelopOption::FixedWindow | DevelopOption::Seed => e matches DevelopError::InvalidNumber {
            flag: f,
            value,
        } && f@ == flag && value@ == v,
        DevelopOption::PerturbBand => e matches DevelopError::InvalidBand { value } && value@ == v,
        DevelopOption::ResponseAges => e matches DevelopError::InvalidNumber { flag: f, value } && f@
            == flag && value@ == comma_pieces(v)[first_bad_age(comma_pieces(v), 0)],
        DevelopOption::ResponseBands => e matches DevelopError::InvalidBand { value } && value@
            == comma_pieces(v)[first_bad_band(comma_pieces(v), 0)],
        _ => false,
    }
}

/// Whether the pair `k` (arguments `2k` and `2k + 1`) stops the scan.
pub open spec fn pair_fails(texts: Seq<Seq<char>>, k: int) -> bool {
    match develop_option(texts[2 * k]) {
        None => true,
        Some(o) => develop_value_fault(o, texts[2 * k + 1]),
    }
}

/// `e` is the error that the pair `k` raises.
pub open spec fn pair_error(texts: Seq<Seq<char>>, k: int, e: DevelopError) -> bool {
    match develop_option(texts[2 * k]) {
        None => e matches DevelopError::UnknownOption { flag } && flag@ == texts[2 * k],
        Some(o) => develop_value_error(o, texts[2 * k], texts[2 * k + 1], e),
    }
}

/// The first pair at or after `k` that stops the scan, or the number of pairs.
pub open spec fn develop_scan_end(texts: Seq<Seq<char>>, k: int) -> int
    decreases texts.len() - 2 * k,
{
    if k < 0 || 2 * k + 1 >= texts.len() {
        texts.len() as int / 2
    } else if pair_fails(texts, k) {
        k
    } else {
        develop_scan_end(texts, k + 1)
    }
}

/// The value of the last pair before pair `k` that sets `o`.
pub open spec fn last_value(texts: Seq<Seq<char>>, o: DevelopOption, k: int) -> Option<Seq<char>>
    decreases k,
{
    if k <= 0 {
        None
    } else if develop_option(texts[2 * (k - 1)]) == Some(o) {
        Some(texts[2 * (k - 1) + 1])
    } else {
        last_value(texts, o, k - 1)
    }
}

/// The binary64 options among the first `k` pairs, with their pair index.
pub open spec fn float_pairs(texts: Seq<Seq<char>>, k: int) -> Seq<(DevelopOption, int)>
    decreases k,
{
    if k <= 0 {
        Seq::empty()
    } else {
        let prior = float_pairs(texts, k - 1);
        match develop_option(texts[2 * (k - 1)]) {
            Some(o) => if is_float_option(o) {
                prior.push((o, k - 1))
            } else {
                prior
            },
            None => prior,
        }
    }
}

pub open spec fn usize_value(text: Seq<char>) -> usize {
    parse_unsigned(text, usize::MAX as nat)->0 as usize
}

pub open spec fn age_list(text: Seq<char>) -> Seq<usize> {
    comma_pieces(text).map_values(|piece: Seq<char>| usize_value(piece))
}

pub open spec fn band_list(text: Seq<char>) -> Seq<Band> {
    comma_pieces(text).map_values(|piece: Seq<char>| spec_band(piece)->0)
}

/// Options of the developmental analysis. Binary64 values are held as their
/// IEEE-754 bits.
#[derive(Clone, Debug)]
pub struct DevelopOptions {
    pub config: String,
    pub output: String,
    pub steps: usize,
    pub seed: u64,
    pub low_cutoff: u64,
    pub mid_cutoff: u64,
    pub recurrence_stride: usize,
    pub recurrence_max: usize,
    pub perturb_epsilon: Option<u64>,
    pub perturb_band: Band,
    pub response_ages: Vec<usize>,
    pub response_epsilons: Vec<u64>,
    pub response_bands: Vec<Band>,
    pub fixed_rms: u64,
    pub fixed_window: usize,
}

/// 0.125, 0.25, 0.01, 0.02, 1e-6 and 0.5 as binary64 bits.
pub const LOW_CUTOFF_DEFAULT: u64 = 0x3FC0_0000_0000_0000;
pub const MID_CUTOFF_DEFAULT: u64 = 0x3FD0_0000_0000_0000;
pub const EPSILON_SMALL: u64 = 0x3F84_7AE1_47AE_147B;
pub const EPSILON_LARGE: u64 = 0x3F94_7AE1_47AE_147B;
pub const FIXED_RMS_DEFAULT: u64 = 0x3EB0_C6F7_A0B5_ED8D;
pub const HALF: u64 = 0x3FE0_0000_0000_0000;

/// `o` holds what the scan of the first `k` pairs stores: each setting from
/// its last pair, else its default; binary64 settings keep their defaults.
pub open spec fn scanned_options(o: DevelopOptions, texts: Seq<Seq<char>>, k: int) -> bool {
    &&& o.config@ == match last_value(texts, DevelopOption::Config, k) {
        Some(v) => v,
        None => Seq::empty(),
    }
    &&& o.output@ == match last_value(texts, DevelopOption::Output, k) {
        Some(v) => v,
        None => Seq::empty(),
    }
    &&& o.steps == match last_value(texts, DevelopOption::Steps, k) {
        Some(v) => usize_value(v),
        None => 16,
    }
    &&& o.seed == match last_value(texts, DevelopOption::Seed, k) {
        Some(v) => parse_unsigned(v, u64::MAX as nat)->0 as u64,
        None => 42,
    }
    &&& o.recurrence_stride == match last_value(texts, DevelopOption::RecurrenceStride, k) {
        Some(v) => usize_value(v),
        None => 1,
    }
    &&& o.recurrence_max == match last_value(texts, DevelopOption::RecurrenceMax, k) {
        Some(v) => usize_value(v),
        None => 256,
    }
    &&& o.perturb_band == match last_value(texts, DevelopOption::PerturbBand, k) {
        Some(v) => spec_band(v)->0,
        None => Band::High,
    }
    &&& o.response_ages@ == match last_value(texts, DevelopOption::ResponseAges, k) {
        Some(v) => age_list(v),
        None => Seq::empty(),
    }
    &&& o.response_bands@ == match last_value(texts, DevelopOption::ResponseBands, k) {
        Some(v) => band_list(v),
        None => seq![Band::Low, Band::Mid, Band::High],
    }
    &&& o.fixed_window == match last_value(texts, DevelopOption::FixedWindow, k) {
        Some(v) => usize_value(v),
        None => 8,
    }
    &&& o.low_cutoff == LOW_CUTOFF_DEFAULT
    &&& o.mid_cutoff == MID_CUTOFF_DEFAULT
    &&& o.perturb_epsilon is None
    &&& o.response_epsilons@ == seq![EPSILON_SMALL, EPSILON_LARGE]
    &&& o.fixed_rms == FIXED_RMS_DEFAULT
}

/// The texts to read for a binary64 option: the value, or its list items.
pub open spec fn float_texts(o: DevelopOption, v: Seq<char>) -> Seq<Seq<char>> {
    if o is ResponseEpsilons {
        comma_pieces(v)
    } else {
        seq![v]
    }
}

/// A binary64 value left to be read: the option, the pair it came from, the
/// flag and the texts to read.
#[derive(Clone, Debug)]
pub struct PendingFloat {
    pub option: DevelopOption,
    pub pair: usize,
    pub flag: String,
    pub texts: Vec<String>,
}

pub open spec fn float_entry_holds(p: PendingFloat, r: (DevelopOption, int), texts: Seq<Seq<char>>) -> bool {
    &&& p.option == r.0
    &&& p.pair == r.1
    &&& 0 <= r.1
    &&& 2 * r.1 + 1 < texts.len()
    &&& p.flag@ == texts[2 * r.1]
    &&& string_views(p.texts@) == float_texts(r.0, texts[2 * r.1 + 1])
}

pub open spec fn floats_hold(p: Seq<PendingFloat>, refs: Seq<(DevelopOption, int)>, texts: Seq<Seq<char>>) -> bool {
    &&& p.len() == refs.len()
    &&& forall|k: int| 0 <= k < p.len() ==> float_entry_holds(#[trigger] p[k], refs[k], texts)
}

/// Reads a comma list of `usize` ages (items are not trimmed).
fn parse_age_pieces(value: &str, flag: &str) -> (r: Result<Vec<usize>, DevelopError>)
    ensures
        match r {
            Ok(v) => !develop_value_fault(DevelopOption::ResponseAges, value@) && v@ == age_list(
                value@,
            ),
            Err(e) => develop_value_fault(DevelopOption::ResponseAges, value@)
                && develop_value_error(DevelopOption::ResponseAges, flag@, value@, e),
        },
{
    let pieces = split_commas(&chars_of(value));
    let ghost all = comma_pieces(value@);
    let mut out: Vec<usize> = Vec::new();
    let mut k: usize = 0;
    while k < pieces.len()
        invariant
            all == comma_pieces(value@),
            all.len() == pieces@.len(),
            forall|j: int| 0 <= j < all.len() ==> all[j] == (#[trigger] pieces@[j])@,
            k <= pieces@.len(),
            first_bad_age(all, 0) == first_bad_age(all, k as int),
            out@ == all.take(k as int).map_values(|piece: Seq<char>| usize_value(piece)),
        decreases pieces@.len() - k,
    {
        assert(pieces@[k as int]@ == all[k as int]);
        match parse_decimal(&pieces[k], usize::MAX as u64) {
            Some(v) => {
                out.push(v as usize);
                assert(all.take(k as int + 1).map_values(|piece: Seq<char>| usize_value(piece))
                    =~= out@);
            },
            None => {
                assert(first_bad_age(all, k as int) == k);
                let piece = pieces[k].clone();
                return Err(
                    DevelopError::InvalidNumber { flag: flag.to_owned(), value: string_from_chars(piece) },
                );
            },
        }
        k = k + 1;
    }
    assert(all.take(k as int) =~= all);
    Ok(out)
}

/// Reads a comma list of band names.
fn parse_band_pieces(value: &str) -> (r: Result<Vec<Band>, DevelopError>)
    ensures
        match r {
            Ok(v) => !develop_value_fault(DevelopOption::ResponseBands, value@) && v@ == band_list(
                value@,
            ),
            Err(e) => develop_value_fault(DevelopOption::ResponseBands, value@)
                && develop_value_error(DevelopOption::ResponseBands, Seq::empty(), value@, e),
        },
{
    let pieces = split_commas(&chars_of(value));
    let ghost all = comma_pieces(value@);
    let mut out: Vec<Band> = Vec::new();
    let mut k: usize = 0;
    while k < pieces.len()
        invariant
            all == comma_pieces(value@),
            all.len() == pieces@.len(),
            forall|j: int| 0 <= j < all.len() ==> all[j] == (#[trigger] pieces@[j])@,
            k <= pieces@.len(),
            first_bad_band(all, 0) == first_bad_band(all, k as int),
            out@ == all.take(k as int).map_values(|piece: Seq<char>| spec_band(piece)->0),
        decreases pieces@.len() - k,
    {
        assert(pieces@[k as int]@ == all[k as int]);
        let piece = string_from_chars(pieces[k].clone());
        match band(piece.as_str()) {
            Ok(b) => {
                out.push(b);
                assert(all.take(k as int + 1).map_values(|piece: Seq<char>| spec_band(piece)->0)
                    =~= out@);
            },
            Err(e) => {
                assert(first_bad_band(all, k as int) == k);
                return Err(e);
            },
        }
        k = k + 1;
    }
    assert(all.take(k as int) =~= all);
    Ok(out)
}

/// The texts of a binary64 option, to be read by the caller.
fn float_value_texts(o: DevelopOption, value: &str) -> (r: Vec<String>)
    ensures
        string_views(r@) == float_texts(o, value@),
{
    let mut out: Vec<String> = Vec::new();
    match o {
        DevelopOption::ResponseEpsilons => {
            let pieces = split_commas(&chars_of(value));
            let ghost all = comma_pieces(value@);
            let mut k: usize = 0;
            while k < pieces.len()
                invariant
                    all == comma_pieces(value@),
                    all.len() == pieces@.len(),
                    forall|j: int| 0 <= j < all.len() ==> all[j] == (#[trigger] pieces@[j])@,
                    k <= pieces@.len(),
                    string_views(out@) == all.take(k as int),
                decreases pieces@.len() - k,
            {
                assert(pieces@[k as int]@ == all[k as int]);
                let ghost before = out@;
                out.push(string_from_chars(pieces[k].clone()));
                assert(string_views(out@) =~= string_views(before).push(all[k as int]));
                assert(all.take(k as int + 1) =~= all.take(k as int).push(all[k as int]));
                k = k + 1;
            }
            assert(all.take(k as int) =~= all);
        },
        _ => {
            out.push(value.to_owned());
            assert(string_views(out@) =~= seq![value@]);
        },
    }
    out
}

/// Stores the pair `k`, or returns the error it raises.
fn store_pair(
    args: &Vec<String>,
    k: usize,
    options: &mut DevelopOptions,
    pending: &mut Vec<PendingFloat>,
    Ghost(refs): Ghost<Seq<(DevelopOption, int)>>,
) -> (r: Result<(), DevelopError>)
    requires
        2 * k + 1 < args@.len(),
        scanned_options(*old(options), arg_texts(args@), k as int),
        floats_hold(old(pending)@, refs, arg_texts(args@)),
        refs == float_pairs(arg_texts(args@), k as int),
    ensures
        match r {
            Ok(()) => {
                &&& !pair_fails(arg_texts(args@), k as int)
                &&& scanned_options(*final(options), arg_texts(args@), k + 1)
                &&& floats_hold(final(pending)@, float_pairs(arg_texts(args@), k + 1), arg_texts(args@))
            },
            Err(e) => {
                &&& pair_fails(arg_texts(args@), k as int)
                &&& pair_error(arg_texts(args@), k as int, e)
                &&& *final(options) == *old(options)
                &&& final(pending)@ == old(pending)@
            },
        },
{
    let ghost texts = arg_texts(args@);
    let n = args.len();
    assert(2 * k + 1 < n);
    let flag = args[2 * k].as_str();
    let value = args[2 * k + 1].as_str();
    assert(flag@ == texts[2 * k]);
    assert(value@ == texts[2 * k + 1]);
    let o = match lookup_develop_option(flag) {
        Some(o) => o,
        None => return Err(DevelopError::UnknownOption { flag: flag.to_owned() }),
    };
    let ghost before = pending@;
    match o {
        DevelopOption::Config => options.config = value.to_owned(),
        DevelopOption::Output => options.output = value.to_owned(),
        DevelopOption::Steps | DevelopOption::RecurrenceStride | DevelopOption::RecurrenceMax
        | DevelopOption::FixedWindow => match parse_decimal(&chars_of(value), usize::MAX as u64) {
            Some(v) => {
                let v = v as usize;
                match o {
                    DevelopOption::Steps => options.steps = v,
                    DevelopOption::RecurrenceStride => options.recurrence_stride = v,
                    DevelopOption::RecurrenceMax => options.recurrence_max = v,
                    _ => options.fixed_window = v,
                }
            },
            None => {
                return Err(
                    DevelopError::InvalidNumber { flag: flag.to_owned(), value: value.to_owned() },
                )
            },
        },
        DevelopOption::Seed => match parse_decimal(&chars_of(value), u64::MAX) {
            Some(v) => options.seed = v,
            None => {
                return Err(
                    DevelopError::InvalidNumber { flag: flag.to_owned(), value: value.to_owned() },
                )
            },
        },
        DevelopOption::PerturbBand => match band(value) {
            Ok(b) => options.perturb_band = b,
            Err(e) => return Err(e),
        },
        DevelopOption::ResponseAges => match parse_age_pieces(value, flag) {
            Ok(ages) => options.response_ages = ages,
            Err(e) => return Err(e),
        },
        DevelopOption::ResponseBands => match parse_band_pieces(value) {
            Ok(bands) => options.response_bands = bands,
            Err(e) => return Err(e),
        },
        _ => {
            let entry = PendingFloat {
                option: o,
                pair: k,
                flag: flag.to_owned(),
                texts: float_value_texts(o, value),
            };
            pending.push(entry);
            assert forall|j: int| 0 <= j < pending@.len() implies float_entry_holds(
                #[trigger] pending@[j],
                float_pairs(texts, k + 1)[j],
                texts,
            ) by {
                if j < before.len() {
                    assert(pending@[j] == before[j]);
                }
            }
        },
    }
    Ok(())
}

/// The scan of an analysis command line: every setting stored except the
/// binary64 values left to be read, and the first error met, if any.
#[derive(Clone, Debug)]
pub struct DevelopScan {
    pub options: DevelopOptions,
    pub pending: Vec<PendingFloat>,
    pub failure: Option<DevelopError>,
}

fn default_options() -> (r: DevelopOptions)
    ensures
        scanned_options(r, Seq::empty(), 0),
{
    let mut epsilons: Vec<u64> = Vec::new();
    epsilons.push(EPSILON_SMALL);
    epsilons.push(EPSILON_LARGE);
    let mut bands: Vec<Band> = Vec::new();
    bands.push(Band::Low);
    bands.push(Band::Mid);
    bands.push(Band::High);
    assert(epsilons@ =~= seq![EPSILON_SMALL, EPSILON_LARGE]);
    assert(bands@ =~= seq![Band::Low, Band::Mid, Band::High]);
    DevelopOptions {
        config: String::new(),
        output: String::new(),
        steps: 16,
        seed: 42,
        low_cutoff: LOW_CUTOFF_DEFAULT,
        mid_cutoff: MID_CUTOFF_DEFAULT,
        recurrence_stride: 1,
        recurrence_max: 256,
        perturb_epsilon: None,
        perturb_band: Band::High,
        response_ages: Vec::new(),
        response_epsilons: epsilons,
        response_bands: bands,
        fixed_rms: FIXED_RMS_DEFAULT,
        fixed_window: 8,
    }
}

proof fn lemma_no_pairs_scanned(o: DevelopOptions, texts: Seq<Seq<char>>)
    requires
        scanned_options(o, Seq::empty(), 0),
    ensures
        scanned_options(o, texts, 0),
{
}

impl DevelopScan {
    /// Scans `--option value` pairs left to right, stopping at the first pair
    /// that names no option or whose value the option refuses.
    pub fn parse(args: &Vec<String>) -> (r: Result<DevelopScan, DevelopError>)
        ensures
            match r {
                Err(e) => args@.len() % 2 == 1 && e is UnpairedArguments,
                Ok(s) => {
                    let texts = arg_texts(args@);
                    let end = develop_scan_end(texts, 0);
                    &&& args@.len() % 2 == 0
                    &&& scanned_options(s.options, texts, end)
                    &&& floats_hold(s.pending@, float_pairs(texts, end), texts)
                    &&& if end < texts.len() / 2 {
                        s.failure matches Some(e) && pair_error(texts, end, e)
                    } else {
                        s.failure is None
                    }
                },
            },
    {
        let n = args.len();
        if n % 2 != 0 {
            return Err(DevelopError::UnpairedArguments);
        }
        let ghost texts = arg_texts(args@);
        let mut options = default_options();
        proof {
            lemma_no_pairs_scanned(options, texts);
        }
        let mut pending: Vec<PendingFloat> = Vec::new();
        let pairs = n / 2;
        let mut k: usize = 0;
        while k < pairs
            invariant
                n == args@.len(),
                texts == arg_texts(args@),
                n % 2 == 0,
                pairs == n / 2,
                k <= pairs,
                develop_scan_end(texts, 0) == develop_scan_end(texts, k as int),
                scanned_options(options, texts, k as int),
                floats_hold(pending@, float_pairs(texts, k as int), texts),
            decreases pairs - k,
        {
            match store_pair(args, k, &mut options, &mut pending, Ghost(float_pairs(texts, k as int))) {
                Ok(()) => {},
                Err(e) => {
                    assert(develop_scan_end(texts, k as int) == k);
                    assert(texts.len() == n);
                    assert(k < texts.len() / 2);
                    return Ok(DevelopScan { options, pending, failure: Some(e) });
                },
            }
            k = k + 1;
        }
        assert(develop_scan_end(texts, k as int) == pairs);
        Ok(DevelopScan { options, pending, failure: None })
    }
}

/// Whether a binary64 amplitude is finite and positive.
pub open spec fn positive_amplitude(bits: u64) -> bool {
    f64_is_finite(bits) && f64_lt(0, bits)
}

/// The first guard that the analysis options fail, in the order they are checked.
pub open spec fn develop_violation(o: DevelopOptions) -> Option<DevelopError> {
    if o.config@.len() == 0 || o.output@.len() == 0 {
        Some(DevelopError::MissingPaths)
    } else if !(1 <= o.steps <= 100000 && o.recurrence_stride > 0 && 2 <= o.recurrence_max <= 512) {
        Some(DevelopError::StepLimits)
    } else if !(o.steps / o.recurrence_stride + (if o.steps % o.recurrence_stride == 0 {
        0int
    } else {
        1int
    }) < o.recurrence_max) {
        Some(DevelopError::RecurrenceCapacity)
    } else if !(f64_is_finite(o.low_cutoff) && f64_is_finite(o.mid_cutoff) && f64_lt(0, o.low_cutoff)
        && f64_lt(o.low_cutoff, o.mid_cutoff) && f64_lt(o.mid_cutoff, HALF)) {
        Some(DevelopError::CutoffOrder)
    } else if !((o.perturb_epsilon matches Some(e) ==> positive_amplitude(e)) && forall|j: int|
        0 <= j < o.response_epsilons@.len() ==> positive_amplitude(
            #[trigger] o.response_epsilons@[j],
        )) {
        Some(DevelopError::Epsilons)
    } else if !((forall|j: int|
        0 <= j < o.response_ages@.len() ==> #[trigger] o.response_ages@[j] <= o.steps)
        && o.response_ages@.len() <= 64 && o.response_epsilons@.len() <= 8
        && o.response_bands@.len() <= 3) {
        Some(DevelopError::ResponsePanel)
    } else if !(f64_is_finite(o.fixed_rms) && f64_le(0, o.fixed_rms) && o.fixed_window > 0) {
        Some(DevelopError::FixedPoint)
    } else {
        None
    }
}

fn all_positive(values: &Vec<u64>) -> (r: bool)
    ensures
        r == forall|j: int| 0 <= j < values@.len() ==> positive_amplitude(#[trigger] values@[j]),
{
    let mut j: usize = 0;
    while j < values.len()
        invariant
            j <= values@.len(),
            forall|t: int| 0 <= t < j ==> positive_amplitude(#[trigger] values@[t]),
        decreases values@.len() - j,
    {
        if !(f64_finite(values[j]) && f64_less(0, values[j])) {
            return false;
        }
        j = j + 1;
    }
    true
}

fn all_within(values: &Vec<usize>, limit: usize) -> (r: bool)
    ensures
        r == forall|j: int| 0 <= j < values@.len() ==> #[trigger] values@[j] <= limit,
{
    let mut j: usize = 0;
    while j < values.len()
        invariant
            j <= values@.len(),
            forall|t: int| 0 <= t < j ==> #[trigger] values@[t] <= limit,
        decreases values@.len() - j,
    {
        if values[j] > limit {
            return false;
        }
        j = j + 1;
    }
    true
}

impl DevelopOptions {
    /// Checks every guard of the analysis options.
    pub fn check(&self) -> (r: Result<(), DevelopError>)
        ensures
            r == match develop_violation(*self) {
                None => Ok::<(), DevelopError>(()),
                Some(e) => Err(e),
            },
    {
        if chars_of(self.config.as_str()).len() == 0 || chars_of(self.output.as_str()).len() == 0 {
            return Err(DevelopError::MissingPaths);
        }
        if !(1 <= self.steps && self.steps <= 100000 && self.recurrence_stride > 0 && 2
            <= self.recurrence_max && self.recurrence_max <= 512) {
            return Err(DevelopError::StepLimits);
        }
        let saved = self.steps / self.recurrence_stride + if self.steps % self.recurrence_stride == 0 {
            0
        } else {
            1
        };
        if !(saved < self.recurrence_max) {
            return Err(DevelopError::RecurrenceCapacity);
        }
        if !(f64_finite(self.low_cutoff) && f64_finite(self.mid_cutoff) && f64_less(0, self.low_cutoff)
            && f64_less(self.low_cutoff, self.mid_cutoff) && f64_less(self.mid_cutoff, HALF)) {
            return Err(DevelopError::CutoffOrder);
        }
        let perturb_ok = match self.perturb_epsilon {
            Some(e) => f64_finite(e) && f64_less(0, e),
            None => true,
        };
        if !(perturb_ok && all_positive(&self.response_epsilons)) {
            return Err(DevelopError::Epsilons);
        }
        if !(all_within(&self.response_ages, self.steps) && self.response_ages.len() <= 64
            && self.response_epsilons.len() <= 8 && self.response_bands.len() <= 3) {
            return Err(DevelopError::ResponsePanel);
        }
        if !(f64_finite(self.fixed_rms) && f64_less_equal(0, self.fixed_rms) && self.fixed_window
            > 0) {
            return Err(DevelopError::FixedPoint);
        }
        Ok(())
    }
}

pub open spec fn float_options(p: Seq<PendingFloat>) -> Seq<DevelopOption> {
    p.map_values(|e: PendingFloat| e.option)
}

/// The row read for the last of the first `k` entries that sets `o`.
pub open spec fn last_row(
    opts: Seq<DevelopOption>,
    rd: Seq<Seq<Option<u64>>>,
    o: DevelopOption,
    k: int,
) -> Option<Seq<Option<u64>>>
    decreases k,
{
    if k <= 0 {
        None
    } else if opts[k - 1] == o {
        Some(rd[k - 1])
    } else {
        last_row(opts, rd, o, k - 1)
    }
}

pub open spec fn single_reading(row: Option<Seq<Option<u64>>>, default: u64) -> u64 {
    match row {
        Some(r) => r[0]->0,
        None => default,
    }
}

pub open spec fn optional_reading(row: Option<Seq<Option<u64>>>, default: Option<u64>) -> Option<u64> {
    match row {
        Some(r) => Some(r[0]->0),
        None => default,
    }
}

/// `x` is what `s` resolves to once its values read as `rd`: each binary64
/// setting from its last occurrence, the rest as scanned.
pub open spec fn develop_resolves_to(s: DevelopScan, rd: Seq<Seq<Option<u64>>>, x: DevelopOptions) -> bool {
    let opts = float_options(s.pending@);
    let n = opts.len() as int;
    &&& x == (DevelopOptions {
        low_cutoff: single_reading(last_row(opts, rd, DevelopOption::LowCutoff, n), s.options.low_cutoff),
        mid_cutoff: single_reading(last_row(opts, rd, DevelopOption::MidCutoff, n), s.options.mid_cutoff),
        fixed_rms: single_reading(last_row(opts, rd, DevelopOption::FixedRms, n), s.options.fixed_rms),
        perturb_epsilon: optional_reading(
            last_row(opts, rd, DevelopOption::PerturbEpsilon, n),
            s.options.perturb_epsilon,
        ),
        response_epsilons: x.response_epsilons,
        ..s.options
    })
    &&& x.response_epsilons@ == match last_row(opts, rd, DevelopOption::ResponseEpsilons, n) {
        Some(row) => row.map_values(|o: Option<u64>| o->0),
        None => s.options.response_epsilons@,
    }
}

/// One row of readings per entry, one reading per text.
pub open spec fn float_readings_fit(p: Seq<PendingFloat>, rd: Seq<Seq<Option<u64>>>) -> bool {
    &&& rd.len() == p.len()
    &&& forall|k: int|
        0 <= k < p.len() ==> (#[trigger] rd[k]).len() == p[k].texts@.len() && (!(p[k].option is ResponseEpsilons)
            ==> rd[k].len() == 1)
}

proof fn lemma_guards_read_epsilon_values(x: DevelopOptions, y: DevelopOptions)
    requires
        x == (DevelopOptions { response_epsilons: x.response_epsilons, ..y }),
        x.response_epsilons@ == y.response_epsilons@,
    ensures
        develop_violation(x) == develop_violation(y),
{
}

fn check_float_readings(pending: &Vec<PendingFloat>, readings: &Vec<Vec<Option<u64>>>) -> (r: Result<
    (),
    DevelopError,
>)
    requires
        float_readings_fit(pending@, reading_views(readings@)),
    ensures
        ({
            let rd = reading_views(readings@);
            let bad = first_unread(rd, 0);
            match r {
                Ok(()) => bad == rd.len(),
                Err(e) => bad < rd.len() && (e matches DevelopError::InvalidNumber { flag, value }
                    && flag == pending@[bad].flag && value
                    == pending@[bad].texts@[first_missing(rd[bad], 0)]),
            }
        }),
{
    let ghost rd = reading_views(readings@);
    let n = pending.len();
    assert(rd.len() == n);
    let mut k: usize = 0;
    while k < n
        invariant
            n == pending@.len(),
            rd == reading_views(readings@),
            float_readings_fit(pending@, rd),
            k <= n,
            first_unread(rd, 0) == first_unread(rd, k as int),
        decreases n - k,
    {
        let row = &readings[k];
        assert(row@ == rd[k as int]);
        let mut j: usize = 0;
        while j < row.len()
            invariant
                k < n,
                n == pending@.len(),
                rd == reading_views(readings@),
                float_readings_fit(pending@, rd),
                first_unread(rd, 0) == first_unread(rd, k as int),
                row@ == rd[k as int],
                j <= row@.len(),
                forall|t: int| 0 <= t < j ==> (#[trigger] row@[t]) is Some,
                first_missing(rd[k as int], 0) == first_missing(rd[k as int], j as int),
            decreases row@.len() - j,
        {
            if row[j].is_none() {
                assert(!all_read(rd[k as int]));
                assert(j < pending@[k as int].texts@.len());
                return Err(
                    DevelopError::InvalidNumber {
                        flag: pending[k].flag.clone(),
                        value: pending[k].texts[j].clone(),
                    },
                );
            }
            j = j + 1;
        }
        assert(all_read(rd[k as int]));
        k = k + 1;
    }
    Ok(())
}

/// Stores every binary64 value read; the last epsilon list read is returned apart.
fn store_floats(
    options: DevelopOptions,
    pending: &Vec<PendingFloat>,
    readings: &Vec<Vec<Option<u64>>>,
) -> (r: (DevelopOptions, Option<Vec<u64>>))
    requires
        float_readings_fit(pending@, reading_views(readings@)),
        first_unread(reading_views(readings@), 0) == pending@.len(),
    ensures
        ({
            let rd = reading_views(readings@);
            let opts = float_options(pending@);
            let n = opts.len() as int;
            &&& r.0 == (DevelopOptions {
                low_cutoff: single_reading(last_row(opts, rd, DevelopOption::LowCutoff, n), options.low_cutoff),
                mid_cutoff: single_reading(last_row(opts, rd, DevelopOption::MidCutoff, n), options.mid_cutoff),
                fixed_rms: single_reading(last_row(opts, rd, DevelopOption::FixedRms, n), options.fixed_rms),
                perturb_epsilon: optional_reading(
                    last_row(opts, rd, DevelopOption::PerturbEpsilon, n),
                    options.perturb_epsilon,
                ),
                ..options
            })
            &&& match last_row(opts, rd, DevelopOption::ResponseEpsilons, n) {
                Some(row) => r.1 matches Some(v) && v@ == row.map_values(|o: Option<u64>| o->0),
                None => r.1 is None,
            }
        }),
{
    let ghost rd = reading_views(readings@);
    let ghost opts = float_options(pending@);
    let ghost start = options;
    let n = pending.len();
    let mut current = options;
    let mut epsilons: Option<Vec<u64>> = None;
    let mut k: usize = 0;
    while k < n
        invariant
            n == pending@.len(),
            opts == float_options(pending@),
            rd == reading_views(readings@),
            float_readings_fit(pending@, rd),
            first_unread(rd, k as int) == n,
            k <= n,
            current == (DevelopOptions {
                low_cutoff: single_reading(last_row(opts, rd, DevelopOption::LowCutoff, k as int), start.low_cutoff),
                mid_cutoff: single_reading(last_row(opts, rd, DevelopOption::MidCutoff, k as int), start.mid_cutoff),
                fixed_rms: single_reading(last_row(opts, rd, DevelopOption::FixedRms, k as int), start.fixed_rms),
                perturb_epsilon: optional_reading(
                    last_row(opts, rd, DevelopOption::PerturbEpsilon, k as int),
                    start.perturb_epsilon,
                ),
                ..start
            }),
            match last_row(opts, rd, DevelopOption::ResponseEpsilons, k as int) {
                Some(row) => epsilons matches Some(v) && v@ == row.map_values(|o: Option<u64>| o->0),
                None => epsilons is None,
            },
        decreases n - k,
    {
        proof {
            lemma_all_read_after(rd, k as int);
        }
        let row = &readings[k];
        assert(row@ == rd[k as int]);
        assert(opts[k as int] == pending@[k as int].option);
        match pending[k].option {
            DevelopOption::ResponseEpsilons => {
                let mut values: Vec<u64> = Vec::new();
                let mut j: usize = 0;
                while j < row.len()
                    invariant
                        row@ == rd[k as int],
                        all_read(rd[k as int]),
                        j <= row@.len(),
                        values@ == row@.take(j as int).map_values(|o: Option<u64>| o->0),
                    decreases row@.len() - j,
                {
                    assert(row@[j as int] is Some);
                    values.push(row[j].unwrap());
                    assert(values@ =~= row@.take(j as int + 1).map_values(|o: Option<u64>| o->0));
                    j = j + 1;
                }
                assert(row@.take(j as int) =~= row@);
                epsilons = Some(values);
            },
            DevelopOption::LowCutoff => {
                assert(row@[0] is Some);
                current.low_cutoff = row[0].unwrap();
            },
            DevelopOption::MidCutoff => {
                assert(row@[0] is Some);
                current.mid_cutoff = row[0].unwrap();
            },
            DevelopOption::FixedRms => {
                assert(row@[0] is Some);
                current.fixed_rms = row[0].unwrap();
            },
            DevelopOption::PerturbEpsilon => {
                assert(row@[0] is Some);
                current.perturb_epsilon = Some(row[0].unwrap());
            },
            _ => {},
        }
        k = k + 1;
    }
    (current, epsilons)
}

impl DevelopScan {
    /// Resolves the options once the caller has read each pending text
    /// (`readings[k][j]` holds the binary64 bits of `pending[k].texts[j]`, or
    /// nothing if it did not parse), then checks every guard. Errors come in
    /// command-line order: an unreadable value, then the scan's error, then
    /// the first guard that fails.
    pub fn finish(self, readings: &Vec<Vec<Option<u64>>>) -> (r: Result<DevelopOptions, DevelopError>)
        requires
            float_readings_fit(self.pending@, reading_views(readings@)),
        ensures
            ({
                let rd = reading_views(readings@);
                let bad = first_unread(rd, 0);
                if bad < rd.len() {
                    r matches Err(DevelopError::InvalidNumber { flag, value }) && flag
                        == self.pending@[bad].flag && value
                        == self.pending@[bad].texts@[first_missing(rd[bad], 0)]
                } else if self.failure is Some {
                    r == Err::<DevelopOptions, DevelopError>(self.failure->0)
                } else {
                    match r {
                        Ok(x) => develop_resolves_to(self, rd, x) && develop_violation(x) is None,
                        Err(e) => forall|x: DevelopOptions|
                            develop_resolves_to(self, rd, x) ==> develop_violation(x) == Some(e),
                    }
                }
            }),
    {
        let ghost rd = reading_views(readings@);
        match check_float_readings(&self.pending, readings) {
            Ok(()) => {},
            Err(e) => return Err(e),
        }
        let ghost scan = self;
        let DevelopScan { options, pending, failure } = self;
        if let Some(e) = failure {
            return Err(e);
        }
        let (mut resolved, epsilons) = store_floats(options, &pending, readings);
        if let Some(values) = epsilons {
            resolved.response_epsilons = values;
        }
        assert(develop_resolves_to(scan, rd, resolved));
        match resolved.check() {
            Ok(()) => Ok(resolved),
            Err(e) => {
                assert forall|x: DevelopOptions| develop_resolves_to(scan, rd, x) implies develop_violation(
                    x,
                ) == Some(e) by {
                    lemma_guards_read_epsilon_values(x, resolved);
                }
                Err(e)
            },
        }
    }
}

/// Whether the analysis command line asks for its usage: no argument at all,
/// or `--help` anywhere.
pub fn wants_help(args: &Vec<String>) -> (r: bool)
    ensures
        r == (args@.len() == 0 || names_arg(arg_texts(args@), "--help"@)),
{
    args.len() == 0 || any_arg_is(args, "--help")
}

/// Options pass their guards only with finite cutoffs ordered
/// 0 < low < mid < 0.5 in the IEEE order; cutoffs out of that order are
/// always refused.
pub proof fn lemma_cutoffs_are_ordered_below_half(o: DevelopOptions)
    ensures
        develop_violation(o) is None ==> f64_is_finite(o.low_cutoff) && f64_is_finite(o.mid_cutoff)
            && f64_lt(0, o.low_cutoff) && f64_lt(o.low_cutoff, o.mid_cutoff) && f64_lt(
            o.mid_cutoff,
            0x3FE0_0000_0000_0000,
        ),
        !f64_lt(o.mid_cutoff, 0x3FE0_0000_0000_0000) ==> develop_violation(o) is Some,
{
}

/// The guards pass exactly when every one of their conditions holds.
pub proof fn lemma_develop_violation_none_exactly_when_guards_hold(o: DevelopOptions)
    ensures
        develop_violation(o) is None <==> {
            &&& !(o.config@.len() == 0 || o.output@.len() == 0)
            &&& !(!(1 <= o.steps <= 100000 && o.recurrence_stride > 0 && 2 <= o.recurrence_max <= 512))
            &&& !(!(o.steps / o.recurrence_stride + (if o.steps % o.recurrence_stride == 0 {
        0int
    } else {
        1int
    }) < o.recurrence_max))
            &&& !(!(f64_is_finite(o.low_cutoff) && f64_is_finite(o.mid_cutoff) && f64_lt(0, o.low_cutoff)
        && f64_lt(o.low_cutoff, o.mid_cutoff) && f64_lt(o.mid_cutoff, HALF)))
            &&& !(!((o.perturb_epsilon matches Some(e) ==> positive_amplitude(e)) && forall|j: int|
        0 <= j < o.response_epsilons@.len() ==> positive_amplitude(
            #[trigger] o.response_epsilons@[j],
        )))
            &&& !(!((forall|j: int|
        0 <= j < o.response_ages@.len() ==> #[trigger] o.response_ages@[j] <= o.steps)
        && o.response_ages@.len() <= 64 && o.response_epsilons@.len() <= 8
        && o.response_bands@.len() <= 3))
            &&& !(!(f64_is_finite(o.fixed_rms) && f64_le(0, o.fixed_rms) && o.fixed_window > 0))
        },
{
}

/// Each violation reported names a guard whose condition fails.
pub proof fn lemma_develop_violation_reports_a_failing_guard(o: DevelopOptions)
    ensures
        develop_violation(o) == Some(DevelopError::MissingPaths) ==> (o.config@.len() == 0 || o.output@.len() == 0),
        develop_violation(o) == Some(DevelopError::StepLimits) ==> (!(1 <= o.steps <= 100000 && o.recurrence_stride > 0 && 2 <= o.recurrence_max <= 512)),
        develop_violation(o) == Some(DevelopError::RecurrenceCapacity) ==> (!(o.steps / o.recurrence_stride + (if o.steps % o.recurrence_stride == 0 {
        0int
    } else {
        1int
    }) < o.recurrence_max)),
        develop_violation(o) == Some(DevelopError::CutoffOrder) ==> (!(f64_is_finite(o.low_cutoff) && f64_is_finite(o.mid_cutoff) && f64_lt(0, o.low_cutoff)
        && f64_lt(o.low_cutoff, o.mid_cutoff) && f64_lt(o.mid_cutoff, HALF))),
        develop_violation(o) == Some(DevelopError::Epsilons) ==> (!((o.perturb_epsilon matches Some(e) ==> positive_amplitude(e)) && forall|j: int|
        0 <= j < o.response_epsilons@.len() ==> positive_amplitude(
            #[trigger] o.response_epsilons@[j],
        ))),
        develop_violation(o) == Some(DevelopError::ResponsePanel) ==> (!((forall|j: int|
        0 <= j < o.response_ages@.len() ==> #[trigger] o.response_ages@[j] <= o.steps)
        && o.response_ages@.len() <= 64 && o.response_epsilons@.len() <= 8
        && o.response_bands@.len() <= 3)),
        develop_violation(o) == Some(DevelopError::FixedPoint) ==> (!(f64_is_finite(o.fixed_rms) && f64_le(0, o.fixed_rms) && o.fixed_window > 0)),
{
}

/// The spellings that each choice accepts, and no others.
pub proof fn lemma_spec_band_spellings(text: Seq<char>)
    ensures
        spec_band(text) == Some(Band::Low) ==> (text == "low"@),
        spec_band(text) == Some(Band::Mid) ==> (text == "mid"@),
        spec_band(text) == Some(Band::High) ==> (text == "high"@),
        spec_band(text) is None <==> !((text == "low"@) || (text == "mid"@) || (text == "high"@)),
{
}

/// The spellings that each choice accepts, and no others.
pub proof fn lemma_develop_option_spellings(flag: Seq<char>)
    ensures
        develop_option(flag) == Some(DevelopOption::Config) ==> (flag == "--config"@),
        develop_option(flag) == Some(DevelopOption::Output) ==> (flag == "--output"@),
        develop_option(flag) == Some(DevelopOption::Steps) ==> (flag == "--steps"@),
        develop_option(flag) == Some(DevelopOption::Seed) ==> (flag == "--seed"@),
        develop_option(flag) == Some(DevelopOption::LowCutoff) ==> (flag == "--low-cutoff"@),
        develop_option(flag) == Some(DevelopOption::MidCutoff) ==> (flag == "--mid-cutoff"@),
        develop_option(flag) == Some(DevelopOption::RecurrenceStride) ==> (flag == "--recurrence-stride"@),
        develop_option(flag) == Some(DevelopOption::RecurrenceMax) ==> (flag == "--recurrence-max"@),
        develop_option(flag) == Some(DevelopOption::PerturbEpsilon) ==> (flag == "--perturb-epsilon"@),
        develop_option(flag) == Some(DevelopOption::PerturbBand) ==> (flag == "--perturb-band"@),
        develop_option(flag) == Some(DevelopOption::ResponseAges) ==> (flag == "--response-ages"@),
        develop_option(flag) == Some(DevelopOption::ResponseEpsilons) ==> (flag == "--response-epsilons"@),
        develop_option(flag) == Some(DevelopOption::ResponseBands) ==> (flag == "--response-bands"@),
        develop_option(flag) == Some(DevelopOption::FixedRms) ==> (flag == "--fixed-rms"@),
        develop_option(flag) == Some(DevelopOption::FixedWindow) ==> (flag == "--fixed-window"@),
        develop_option(flag) is None <==> !((flag == "--config"@) || (flag == "--output"@) || (flag == "--steps"@) || (flag == "--seed"@) || (flag == "--low-cutoff"@) || (flag == "--mid-cutoff"@) || (flag == "--recurrence-stride"@) || (flag == "--recurrence-max"@) || (flag == "--perturb-epsilon"@) || (flag == "--perturb-band"@) || (flag == "--response-ages"@) || (flag == "--response-epsilons"@) || (flag == "--response-bands"@) || (flag == "--fixed-rms"@) || (flag == "--fixed-window"@)),
{
}

/// With no options given, the analysis runs 16 steps from seed 42, checks
/// recurrence every step up to 256 states, perturbs the high band, probes all
/// three bands at amplitudes 0.01 and 0.02, splits bands at 0.125 and 0.25,
/// and calls a state fixed below an RMS change of 1e-6 for 8 steps.
pub proof fn lemma_develop_defaults(o: DevelopOptions, texts: Seq<Seq<char>>)
    requires
        scanned_options(o, texts, 0),
    ensures
        o.config@.len() == 0,
        o.output@.len() == 0,
        o.steps == 16,
        o.seed == 42,
        o.recurrence_stride == 1,
        o.recurrence_max == 256,
        o.perturb_band == Band::High,
        o.response_ages@.len() == 0,
        o.response_bands@ == seq![Band::Low, Band::Mid, Band::High],
        o.fixed_window == 8,
        o.low_cutoff == 0x3FC0_0000_0000_0000,
        o.mid_cutoff == 0x3FD0_0000_0000_0000,
        o.perturb_epsilon is None,
        o.response_epsilons@ == seq![0x3F84_7AE1_47AE_147Bu64, 0x3F94_7AE1_47AE_147Bu64],
        o.fixed_rms == 0x3EB0_C6F7_A0B5_ED8D,
{
}

/// A later pair for the same option overrides an earlier one: the value an
/// option ends with is the one its last pair gives.
pub proof fn lemma_last_pair_wins(texts: Seq<Seq<char>>, o: DevelopOption, k: int)
    requires
        k > 0,
        develop_option(texts[2 * (k - 1)]) == Some(o),
    ensures
        last_value(texts, o, k) == Some(texts[2 * (k - 1) + 1]),
{
}

/// The first guard, in checking order, whose condition fails decides the violation.
pub proof fn lemma_develop_violation_checked_in_order(o: DevelopOptions)
    ensures
        (o.config@.len() == 0 || o.output@.len() == 0) ==> develop_violation(o) == Some(DevelopError::MissingPaths),
        !(o.config@.len() == 0 || o.output@.len() == 0) && (!(1 <= o.steps <= 100000 && o.recurrence_stride > 0 && 2 <= o.recurrence_max <= 512)) ==> develop_violation(o) == Some(DevelopError::StepLimits),
        !(o.config@.len() == 0 || o.output@.len() == 0) && !(!(1 <= o.steps <= 100000 && o.recurrence_stride > 0 && 2 <= o.recurrence_max <= 512)) && (!(o.steps / o.recurrence_stride + (if o.steps % o.recurrence_stride == 0 {
        0int
    } else {
        1int
    }) < o.recurrence_max)) ==> develop_violation(o) == Some(DevelopError::RecurrenceCapacity),
        !(o.config@.len() == 0 || o.output@.len() == 0) && !(!(1 <= o.steps <= 100000 && o.recurrence_stride > 0 && 2 <= o.recurrence_max <= 512)) && !(!(o.steps / o.recurrence_stride + (if o.steps % o.recurrence_stride == 0 {
        0int
    } else {
        1int
    }) < o.recurrence_max)) && (!(f64_is_finite(o.low_cutoff) && f64_is_finite(o.mid_cutoff) && f64_lt(0, o.low_cutoff)
        && f64_lt(o.low_cutoff, o.mid_cutoff) && f64_lt(o.mid_cutoff, HALF))) ==> develop_violation(o) == Some(DevelopError::CutoffOrder),
        !(o.config@.len() == 0 || o.output@.len() == 0) && !(!(1 <= o.steps <= 100000 && o.recurrence_stride > 0 && 2 <= o.recurrence_max <= 512)) && !(!(o.steps / o.recurrence_stride + (if o.steps % o.recurrence_stride == 0 {
        0int
    } else {
        1int
    }) < o.recurrence_max)) && !(!(f64_is_finite(o.low_cutoff) && f64_is_finite(o.mid_cutoff) && f64_lt(0, o.low_cutoff)
        && f64_lt(o.low_cutoff, o.mid_cutoff) && f64_lt(o.mid_cutoff, HALF))) && (!((o.perturb_epsilon matches Some(e) ==> positive_amplitude(e)) && forall|j: int|
        0 <= j < o.response_epsilons@.len() ==> positive_amplitude(
            #[trigger] o.response_epsilons@[j],
        ))) ==> develop_violation(o) == Some(DevelopError::Epsilons),
        !(o.config@.len() == 0 || o.output@.len() == 0) && !(!(1 <= o.steps <= 100000 && o.recurrence_stride > 0 && 2 <= o.recurrence_max <= 512)) && !(!(o.steps / o.recurrence_stride + (if o.steps % o.recurrence_stride == 0 {
        0int
    } else {
        1int
    }) < o.recurrence_max)) && !(!(f64_is_finite(o.low_cutoff) && f64_is_finite(o.mid_cutoff) && f64_lt(0, o.low_cutoff)
        && f64_lt(o.low_cutoff, o.mid_cutoff) && f64_lt(o.mid_cutoff, HALF))) && !(!((o.perturb_epsilon matches Some(e) ==> positive_amplitude(e)) && forall|j: int|
        0 <= j < o.response_epsilons@.len() ==> positive_amplitude(
            #[trigger] o.response_epsilons@[j],
        ))) && (!((forall|j: int|
        0 <= j < o.response_ages@.len() ==> #[trigger] o.response_ages@[j] <= o.steps)
        && o.response_ages@.len() <= 64 && o.response_epsilons@.len() <= 8
        && o.response_bands@.len() <= 3)) ==> develop_violation(o) == Some(DevelopError::ResponsePanel),
        !(o.config@.len() == 0 || o.output@.len() == 0) && !(!(1 <= o.steps <= 100000 && o.recurrence_stride > 0 && 2 <= o.recurrence_max <= 512)) && !(!(o.steps / o.recurrence_stride + (if o.steps % o.recurrence_stride == 0 {
        0int
    } else {
        1int
    }) < o.recurrence_max)) && !(!(f64_is_finite(o.low_cutoff) && f64_is_finite(o.mid_cutoff) && f64_lt(0, o.low_cutoff)
        && f64_lt(o.low_cutoff, o.mid_cutoff) && f64_lt(o.mid_cutoff, HALF))) && !(!((o.perturb_epsilon matches Some(e) ==> positive_amplitude(e)) && forall|j: int|
        0 <= j < o.response_epsilons@.len() ==> positive_amplitude(
            #[trigger] o.response_epsilons@[j],
        ))) && !(!((forall|j: int|
        0 <= j < o.response_ages@.len() ==> #[trigger] o.response_ages@[j] <= o.steps)
        && o.response_ages@.len() <= 64 && o.response_epsilons@.len() <= 8
        && o.response_bands@.len() <= 3)) && (!(f64_is_finite(o.fixed_rms) && f64_le(0, o.fixed_rms) && o.fixed_window > 0)) ==> develop_violation(o) == Some(DevelopError::FixedPoint),
{
}

} // verus!
