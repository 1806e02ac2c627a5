//! Which files a corpus takes, the pyramid levels cached for a source, and
//! the content fingerprints of sources and corpora.
use vstd::prelude::*;
use crate::paths::{
    extension_of, file_name_of, path_less, path_starts_with, std_extension, std_file_name,
    std_path_eq, std_path_lt, std_path_starts_with,
};
use crate::config::TrainingMode;
use crate::fnv::{fnv_fold, fnv_fold_bytes, fnv_fold_words, lemma_fnv_fold_append, widen_bytes, FNV_OFFSET_BASIS};
use crate::text::{ascii_lowercase, chars_of, has_prefix, starts_with, str_eq, to_ascii_lowercase};

verus! {

/// An image format the corpus decodes, by extension in any letter case.
pub open spec fn spec_supported(path: Seq<char>) -> bool {
    match std_extension(path) {
        Some(e) => {
            let lower = ascii_lowercase(e);
            lower == "png"@ || lower == "jpg"@ || lower == "jpeg"@ || lower == "webp"@
        },
        None => false,
    }
}

pub fn supported(path: &str) -> (r: bool)
    ensures
        r == spec_supported(path@),
{
    match extension_of(path) {
        Some(e) => {
            let lower = to_ascii_lowercase(&chars_of(e.as_str()));
            let text = crate::text::string_from_chars(lower);
            let t = text.as_str();
            str_eq(t, "png") || str_eq(t, "jpg") || str_eq(t, "jpeg") || str_eq(t, "webp")
        },
        None => false,
    }
}

/// A file this program wrote itself: its name starts with `titan_image_` in
/// any letter case. Such files never enter a corpus.
pub open spec fn spec_generated_name(path: Seq<char>) -> bool {
    match std_file_name(path) {
        Some(n) => has_prefix(ascii_lowercase(n), "titan_image_"@),
        None => false,
    }
}

pub fn generated_name(path: &str) -> (r: bool)
    ensures
        r == spec_generated_name(path@),
{
    match file_name_of(path) {
        Some(n) => {
            let lower = to_ascii_lowercase(&chars_of(n.as_str()));
            starts_with(&lower, "titan_image_")
        },
        None => false,
    }
}

/// `level`, if it fits both the source and the cache limit.
pub open spec fn level_if_fits(level: usize, native_max: usize, cache_max: usize) -> Seq<usize> {
    if level <= native_max && level <= cache_max {
        seq![level]
    } else {
        Seq::empty()
    }
}

/// The standard pyramid levels 192, 384, 768 and 1536 that fit both the
/// source and the cache limit, ascending.
pub open spec fn fitting_levels(native_max: usize, cache_max: usize) -> Seq<usize> {
    level_if_fits(192, native_max, cache_max) + level_if_fits(384, native_max, cache_max)
        + level_if_fits(768, native_max, cache_max) + level_if_fits(1536, native_max, cache_max)
}

/// The top level: the smaller of the two limits, at least one.
pub open spec fn top_level(native_max: usize, cache_max: usize) -> usize {
    let m = if native_max < cache_max { native_max } else { cache_max };
    if m < 1 { 1 } else { m }
}

/// The levels cached for a source: the fitting standard levels and the top
/// level, ascending and without repeats.
pub open spec fn spec_pyramid_levels(native_max: usize, cache_max: usize) -> Seq<usize> {
    let fit = fitting_levels(native_max, cache_max);
    let top = top_level(native_max, cache_max);
    if fit.len() > 0 && fit.last() == top {
        fit
    } else {
        fit.push(top)
    }
}

pub fn available_pyramid_levels(native_max: usize, cache_max: usize) -> (r: Vec<usize>)
    ensures
        r@ == spec_pyramid_levels(native_max, cache_max),
        forall|i: int, j: int| 0 <= i < j < r@.len() ==> r@[i] < r@[j],
{
    let mut levels: Vec<usize> = Vec::new();
    if 192 <= native_max && 192 <= cache_max {
        levels.push(192);
    }
    if 384 <= native_max && 384 <= cache_max {
        levels.push(384);
    }
    if 768 <= native_max && 768 <= cache_max {
        levels.push(768);
    }
    if 1536 <= native_max && 1536 <= cache_max {
        levels.push(1536);
    }
    assert(levels@ =~= fitting_levels(native_max, cache_max));
    let m = if native_max < cache_max { native_max } else { cache_max };
    let top = if m < 1 { 1 } else { m };
    let n = levels.len();
    if n > 0 && levels[n - 1] == top {
        levels
    } else {
        levels.push(top);
        levels
    }
}

/// The fingerprint of a corpus: the FNV-1a fold of its sources' fingerprints,
/// in order, from the offset basis mixed with the number of sources.
pub open spec fn spec_corpus_fingerprint(fingerprints: Seq<u64>) -> u64 {
    fnv_fold(FNV_OFFSET_BASIS ^ (fingerprints.len() as u64), fingerprints)
}

pub fn corpus_fingerprint(fingerprints: &[u64]) -> (r: u64)
    ensures
        r == spec_corpus_fingerprint(fingerprints@),
{
    fnv_fold_words(FNV_OFFSET_BASIS ^ (fingerprints.len() as u64), fingerprints)
}

/// The FNV-1a fingerprint of a file's bytes, fed in chunks as they are read.
pub struct ContentHasher {
    hash: u64,
    bytes: u64,
    ghost_seen: Ghost<Seq<u8>>,
}

impl ContentHasher {
    /// The bytes fed so far.
    pub closed spec fn seen(self) -> Seq<u8> {
        self.ghost_seen@
    }

    pub closed spec fn well_formed(self) -> bool {
        &&& self.hash == fnv_fold(FNV_OFFSET_BASIS, widen_bytes(self.ghost_seen@))
        &&& self.bytes == self.ghost_seen@.len()
    }

    pub fn new() -> (r: ContentHasher)
        ensures
            r.well_formed(),
            r.seen() == Seq::<u8>::empty(),
    {
        let r = ContentHasher { hash: FNV_OFFSET_BASIS, bytes: 0, ghost_seen: Ghost(Seq::empty()) };
        assert(widen_bytes(Seq::<u8>::empty()) =~= Seq::<u64>::empty());
        r
    }

    /// Feeds the next chunk of the file.
    pub fn update(&mut self, chunk: &[u8])
        requires
            old(self).well_formed(),
            old(self).seen().len() + chunk@.len() <= u64::MAX,
        ensures
            final(self).well_formed(),
            final(self).seen() == old(self).seen() + chunk@,
    {
        let ghost before = self.ghost_seen@;
        self.hash = fnv_fold_bytes(self.hash, chunk);
        self.bytes = self.bytes + chunk.len() as u64;
        proof {
            lemma_fnv_fold_append(FNV_OFFSET_BASIS, widen_bytes(before), widen_bytes(chunk@));
            assert(widen_bytes(before + chunk@) =~= widen_bytes(before) + widen_bytes(chunk@));
        }
        self.ghost_seen = Ghost(before + chunk@);
    }

    /// The fingerprint of everything fed.
    pub fn value(&self) -> (r: u64)
        requires
            self.well_formed(),
        ensures
            r == fnv_fold(FNV_OFFSET_BASIS, widen_bytes(self.seen())),
    {
        self.hash
    }

    /// How many bytes were fed.
    pub fn len(&self) -> (r: u64)
        requires
            self.well_formed(),
        ensures
            r == self.seen().len(),
    {
        self.bytes
    }
}

/// Whether a file found while walking the corpus enters it: it lies outside
/// the output directory, is not one this program wrote, and has a decoded
/// image format.
pub open spec fn spec_accepts_source(path: Seq<char>, output_dir: Seq<char>) -> bool {
    !std_path_starts_with(path, output_dir) && !spec_generated_name(path) && spec_supported(path)
}

pub fn accepts_source(path: &str, output_dir: &str) -> (r: bool)
    ensures
        r == spec_accepts_source(path@, output_dir@),
{
    !path_starts_with(path, output_dir) && !generated_name(path) && supported(path)
}

/// Whether the walk descends into a directory: only a recursive walk does,
/// and never into the output directory.
pub fn descends_into(dir: &str, output_dir: &str, recursive: bool) -> (r: bool)
    ensures
        r == (recursive && !std_path_starts_with(dir@, output_dir@)),
{
    recursive && !path_starts_with(dir, output_dir)
}

/// A corpus source: its path and content fingerprint.
#[derive(Clone, Debug)]
pub struct SourceEntry {
    pub path: String,
    pub fingerprint: u64,
}

pub open spec fn entry_view(e: SourceEntry) -> (Seq<char>, u64) {
    (e.path@, e.fingerprint)
}

pub open spec fn entry_views(s: Seq<SourceEntry>) -> Seq<(Seq<char>, u64)> {
    s.map_values(|e: SourceEntry| entry_view(e))
}

/// Content first, then path: whether `a` orders before `b`.
pub open spec fn source_before(a: (Seq<char>, u64), b: (Seq<char>, u64)) -> bool {
    a.1 < b.1 || (a.1 == b.1 && std_path_lt(a.0, b.0))
}

/// Each source is followed by one it orders before, or by one with the same
/// content and an equal path; never by one that orders before it.
pub open spec fn sources_ordered(s: Seq<(Seq<char>, u64)>) -> bool {
    forall|k: int|
        0 <= k < s.len() - 1 ==> {
            &&& !source_before(#[trigger] s[k + 1], s[k])
            &&& (source_before(s[k], s[k + 1]) || (s[k].1 == s[k + 1].1 && std_path_eq(s[k].0, s[k + 1].0)))
        }
}

/// Neither source orders before the other.
pub open spec fn same_place(a: (Seq<char>, u64), b: (Seq<char>, u64)) -> bool {
    !source_before(a, b) && !source_before(b, a)
}

/// `r` holds the first `n` entries of `s`, each once, at the positions `m`
/// gives them, and entries in the same place keep their order in `s`.
pub open spec fn stable_prefix(r: Seq<(Seq<char>, u64)>, s: Seq<(Seq<char>, u64)>, m: Seq<int>, n: int) -> bool {
    &&& 0 <= n <= s.len()
    &&& r.len() == n && m.len() == n
    &&& forall|k: int| 0 <= k < n ==> 0 <= #[trigger] m[k] < n && r[k] == s[m[k]]
    &&& forall|a: int, b: int|
        0 <= a < b < n ==> #[trigger] m[a] != #[trigger] m[b] && (same_place(r[a], r[b]) ==> m[a] < m[b])
}

/// `r` is `s` rearranged, each entry once, with entries in the same place
/// kept in their order in `s`: a stable rearrangement.
pub open spec fn stable_rearrangement(r: Seq<(Seq<char>, u64)>, s: Seq<(Seq<char>, u64)>) -> bool {
    exists|m: Seq<int>| stable_prefix(r, s, m, s.len() as int)
}

fn before(a: &SourceEntry, b: &SourceEntry) -> (r: bool)
    ensures
        r == source_before(entry_view(*a), entry_view(*b)),
        r ==> !source_before(entry_view(*b), entry_view(*a)),
        !r ==> source_before(entry_view(*b), entry_view(*a)) || (a.fingerprint == b.fingerprint
            && std_path_eq(a.path@, b.path@) && std_path_eq(b.path@, a.path@)),
{
    if a.fingerprint < b.fingerprint {
        true
    } else if a.fingerprint == b.fingerprint {
        path_less(a.path.as_str(), b.path.as_str())
    } else {
        false
    }
}

/// The sources ordered by content fingerprint, then path, so target
/// identities survive harmless renames; the order is stable.
pub fn order_sources(sources: &Vec<SourceEntry>) -> (r: Vec<SourceEntry>)
    ensures
        entry_views(r@).to_multiset() == entry_views(sources@).to_multiset(),
        sources_ordered(entry_views(r@)),
        stable_rearrangement(entry_views(r@), entry_views(sources@)),
{
    broadcast use vstd::seq_lib::to_multiset_insert, vstd::seq_lib::to_multiset_build;

    let ghost s = entry_views(sources@);
    let mut out: Vec<SourceEntry> = Vec::new();
    let ghost mut m: Seq<int> = Seq::empty();
    let mut i: usize = 0;
    assert(entry_views(out@) =~= Seq::<(Seq<char>, u64)>::empty());
    assert(s.take(0) =~= Seq::<(Seq<char>, u64)>::empty());
    while i < sources.len()
        invariant
            s == entry_views(sources@),
            i <= sources@.len(),
            entry_views(out@).to_multiset() == s.take(i as int).to_multiset(),
            sources_ordered(entry_views(out@)),
            stable_prefix(entry_views(out@), s, m, i as int),
        decreases sources@.len() - i,
    {
        let x = SourceEntry { path: sources[i].path.clone(), fingerprint: sources[i].fingerprint };
        let ghost xv = entry_view(x);
        assert(xv == s[i as int]);
        let ghost old_views = entry_views(out@);
        let mut p: usize = out.len();
        let mut moving: bool = p > 0 && before(&x, &out[p - 1]);
        while moving
            invariant
                old_views == entry_views(out@),
                xv == entry_view(x),
                p <= out@.len(),
                moving ==> p > 0 && source_before(xv, old_views[p - 1]) && !source_before(
                    old_views[p - 1],
                    xv,
                ),
                !moving ==> p == 0 || (!source_before(xv, old_views[p - 1]) && (source_before(
                    old_views[p - 1],
                    xv,
                ) || (xv.1 == old_views[p - 1].1 && std_path_eq(old_views[p - 1].0, xv.0)))),
                forall|q: int|
                    p <= q < out@.len() ==> source_before(xv, #[trigger] old_views[q]) && !source_before(
                        old_views[q],
                        xv,
                    ),
            decreases p,
        {
            p = p - 1;
            moving = p > 0 && before(&x, &out[p - 1]);
        }
        proof {
            if p < out@.len() {
                assert(source_before(xv, old_views[p as int]));
                assert(!source_before(old_views[p as int], xv));
            }
        }
        out.insert(p, x);
        let ghost new_views = entry_views(out@);
        let ghost new_m = m.insert(p as int, i as int);
        assert(new_views =~= old_views.insert(p as int, xv));
        assert(s.take(i + 1) =~= s.take(i as int).push(xv));
        proof {
            vstd::seq_lib::to_multiset_insert(old_views, p as int, xv);
            vstd::seq_lib::to_multiset_build(s.take(i as int), xv);
        }
        assert forall|k: int| 0 <= k < new_views.len() - 1 implies {
            &&& !source_before(#[trigger] new_views[k + 1], new_views[k])
            &&& (source_before(new_views[k], new_views[k + 1]) || (new_views[k].1 == new_views[k + 1].1
                && std_path_eq(new_views[k].0, new_views[k + 1].0)))
        } by {
            assert(sources_ordered(old_views));
            if k + 1 < p {
                assert(new_views[k + 1] == old_views[k + 1] && new_views[k] == old_views[k]);
            } else if k + 1 == p {
                assert(new_views[k] == old_views[k]);
                assert(new_views[k + 1] == xv);
            } else if k == p {
                assert(new_views[k] == xv);
                assert(new_views[k + 1] == old_views[k]);
            } else {
                assert(new_views[k + 1] == old_views[k] && new_views[k] == old_views[k - 1]);
                let j = k - 1;
                assert(!source_before(old_views[j + 1], old_views[j]));
            }
        }
        assert forall|k: int| 0 <= k < i + 1 implies 0 <= #[trigger] new_m[k] < i + 1 && new_views[k]
            == s[new_m[k]] by {
            if k < p {
                assert(new_m[k] == m[k] && new_views[k] == old_views[k]);
            } else if k > p {
                assert(new_m[k] == m[k - 1] && new_views[k] == old_views[k - 1]);
            }
        }
        assert forall|a: int, b: int| 0 <= a < b < i + 1 implies #[trigger] new_m[a] != #[trigger] new_m[b]
            && (same_place(new_views[a], new_views[b]) ==> new_m[a] < new_m[b]) by {
            if a < p && b < p {
                assert(new_m[a] == m[a] && new_m[b] == m[b]);
                assert(new_views[a] == old_views[a] && new_views[b] == old_views[b]);
            } else if a < p && b == p {
                assert(new_m[a] == m[a] && new_m[b] == i);
            } else if a < p {
                assert(new_m[a] == m[a] && new_m[b] == m[b - 1]);
                assert(new_views[a] == old_views[a] && new_views[b] == old_views[b - 1]);
            } else if a == p {
                assert(new_m[a] == i && new_m[b] == m[b - 1]);
                assert(new_views[a] == xv && new_views[b] == old_views[b - 1]);
                assert(source_before(xv, old_views[b - 1]));
            } else {
                assert(new_m[a] == m[a - 1] && new_m[b] == m[b - 1]);
                assert(new_views[a] == old_views[a - 1] && new_views[b] == old_views[b - 1]);
            }
        }
        proof {
            m = new_m;
        }
        i = i + 1;
    }
    assert(s.take(i as int) =~= s);
    out
}

/// Why a corpus cannot be used.
#[derive(Clone, Copy, Debug, PartialEq, Eq, Structural)]
pub enum CorpusError {
    /// No PNG, JPEG or WebP source was found.
    NoSources,
    /// Single mode needs exactly one source; `found` were found.
    SingleNeedsOne { found: usize },
}

/// Orders the sources found for a run and checks that the mode can use them:
/// a corpus needs a source, and single mode exactly one.
pub fn arrange_sources(mode: TrainingMode, sources: &Vec<SourceEntry>) -> (r: Result<
    Vec<SourceEntry>,
    CorpusError,
>)
    ensures
        sources@.len() == 0 ==> r == Err::<Vec<SourceEntry>, CorpusError>(CorpusError::NoSources),
        sources@.len() > 0 && mode == TrainingMode::Single && sources@.len() != 1 ==> r == Err::<
            Vec<SourceEntry>,
            CorpusError,
        >(CorpusError::SingleNeedsOne { found: sources@.len() as usize }),
        sources@.len() > 0 && !(mode == TrainingMode::Single && sources@.len() != 1) ==> (r matches Ok(
            ordered,
        ) && entry_views(ordered@).to_multiset() == entry_views(sources@).to_multiset()
            && sources_ordered(entry_views(ordered@)) && stable_rearrangement(
            entry_views(ordered@),
            entry_views(sources@),
        )),
{
    if sources.len() == 0 {
        return Err(CorpusError::NoSources);
    }
    let ordered = order_sources(sources);
    proof {
        vstd::seq_lib::to_multiset_len(entry_views(ordered@));
        vstd::seq_lib::to_multiset_len(entry_views(sources@));
    }
    if matches!(mode, TrainingMode::Single) && ordered.len() != 1 {
        return Err(CorpusError::SingleNeedsOne { found: ordered.len() });
    }
    Ok(ordered)
}

/// How many ordered sources repeat the content of the one before them.
pub open spec fn duplicate_content(s: Seq<(Seq<char>, u64)>) -> nat
    decreases s.len(),
{
    if s.len() < 2 {
        0
    } else {
        duplicate_content(s.drop_last()) + if s[s.len() - 1].1 == s[s.len() - 2].1 {
            1nat
        } else {
            0nat
        }
    }
}

/// Counts the sources that repeat the content of their predecessor.
pub fn count_duplicate_content(sources: &Vec<SourceEntry>) -> (r: usize)
    ensures
        r == duplicate_content(entry_views(sources@)),
{
    let ghost v = entry_views(sources@);
    let mut count: usize = 0;
    let mut k: usize = 1;
    if sources.len() < 2 {
        return 0;
    }
    assert(v.take(1).len() < 2);
    while k < sources.len()
        invariant
            v == entry_views(sources@),
            1 <= k <= sources@.len(),
            count == duplicate_content(v.take(k as int)),
            count <= k,
        decreases sources@.len() - k,
    {
        assert(v.take(k + 1).drop_last() =~= v.take(k as int));
        assert(v[k as int].1 == sources@[k as int].fingerprint);
        assert(v[k - 1].1 == sources@[k - 1].fingerprint);
        if sources[k].fingerprint == sources[k - 1].fingerprint {
            count = count + 1;
        }
        k = k + 1;
    }
    assert(v.take(k as int) =~= v);
    count
}

/// The centred square crop of a `width` x `height` image: its left and top
/// offsets and its side, the smaller dimension.
pub fn square_crop(width: u32, height: u32) -> (r: (u32, u32, u32))
    ensures
        r.2 == (if width < height { width } else { height }),
        r.0 == (width - r.2) / 2,
        r.1 == (height - r.2) / 2,
{
    let size = if width < height { width } else { height };
    ((width - size) / 2, (height - size) / 2, size)
}

/// The corpus decodes exactly PNG, JPEG and WebP images, named by their
/// extension in any letter case.
pub proof fn lemma_supported_formats(path: Seq<char>)
    ensures
        spec_supported(path) <==> (std_extension(path) matches Some(e) && (ascii_lowercase(e)
            == "png"@ || ascii_lowercase(e) == "jpg"@ || ascii_lowercase(e) == "jpeg"@
            || ascii_lowercase(e) == "webp"@)),
{
}

/// A file is taken as one this program wrote exactly when its name, in lower
/// case, begins with `titan_image_`.
pub proof fn lemma_generated_names(path: Seq<char>)
    ensures
        spec_generated_name(path) <==> (std_file_name(path) matches Some(n) && n.len() >= 12
            && ascii_lowercase(n).subrange(0, 12) == "titan_image_"@),
{
    reveal_strlit("titan_image_");
}

/// A walked file enters the corpus exactly when it has a decoded image
/// format, is not one this program wrote, and lies outside the output
/// directory.
pub proof fn lemma_accepted_sources(path: Seq<char>, output_dir: Seq<char>)
    ensures
        spec_accepts_source(path, output_dir) <==> (spec_supported(path) && !spec_generated_name(path)
            && !std_path_starts_with(path, output_dir)),
{
}

/// The cached levels ascend strictly and end at the top level, the smaller
/// of the source size and the cache limit (at least one); below it they are
/// exactly the standard levels 192, 384, 768 and 1536 that fit both limits.
pub proof fn lemma_pyramid_levels(native_max: usize, cache_max: usize)
    ensures
        ({
            let s = spec_pyramid_levels(native_max, cache_max);
            let m = if native_max < cache_max { native_max } else { cache_max };
            let top = if m < 1 { 1 } else { m };
            &&& s.len() >= 1
            &&& s.last() == top
            &&& forall|i: int, j: int| 0 <= i < j < s.len() ==> s[i] < s[j]
            &&& forall|i: int| 0 <= i < s.len() - 1 ==> (#[trigger] s[i] == 192 || s[i] == 384
                || s[i] == 768 || s[i] == 1536)
            &&& (192 <= native_max && 192 <= cache_max <==> s.contains(192))
            &&& (384 <= native_max && 384 <= cache_max <==> s.contains(384))
            &&& (768 <= native_max && 768 <= cache_max <==> s.contains(768))
            &&& (1536 <= native_max && 1536 <= cache_max <==> s.contains(1536))
        }),
{
    let s = spec_pyramid_levels(native_max, cache_max);
    let f = fitting_levels(native_max, cache_max);
    let m = if native_max < cache_max { native_max } else { cache_max };
    let top = if m < 1 { 1usize } else { m };
    let expected: Seq<usize> = if m < 192 {
        Seq::empty()
    } else if m < 384 {
        seq![192usize]
    } else if m < 768 {
        seq![192usize, 384]
    } else if m < 1536 {
        seq![192usize, 384, 768]
    } else {
        seq![192usize, 384, 768, 1536]
    };
    assert(f =~= expected);
    let es: Seq<usize> = if f.len() > 0 && f.last() == top { f } else { f.push(top) };
    assert(s == es);
    assert(top <= m || m == 0);
    assert forall|l: usize| #![trigger s.contains(l)]
        (l == 192 || l == 384 || l == 768 || l == 1536) implies (l <= native_max && l <= cache_max
        <==> s.contains(l)) by {
        if l <= m {
            assert(f.contains(l));
            let k = f.index_of(l);
            assert(s[k] == l);
        } else {
            if s.contains(l) {
                let k = s.index_of(l);
                assert(s[k] == l);
            }
        }
    }
    assert(s.contains(192usize) == (192 <= native_max && 192 <= cache_max));
    assert(s.contains(384usize) == (384 <= native_max && 384 <= cache_max));
    assert(s.contains(768usize) == (768 <= native_max && 768 <= cache_max));
    assert(s.contains(1536usize) == (1536 <= native_max && 1536 <= cache_max));
}

/// A corpus fingerprint folds the sources' fingerprints in order from the
/// FNV offset basis xor the source count; an empty corpus has the basis.
pub proof fn lemma_corpus_fingerprint(fingerprints: Seq<u64>)
    ensures
        spec_corpus_fingerprint(fingerprints) == fnv_fold(
            0xcbf2_9ce4_8422_2325u64 ^ (fingerprints.len() as u64),
            fingerprints,
        ),
        spec_corpus_fingerprint(Seq::<u64>::empty()) == 0xcbf2_9ce4_8422_2325u64,
{
    assert(0xcbf2_9ce4_8422_2325u64 ^ 0u64 == 0xcbf2_9ce4_8422_2325u64) by (bit_vector);
}

} // verus!
