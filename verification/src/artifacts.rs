//! Write-once evaluation outputs. Existence alone never establishes
//! ownership: only a write that this evaluation reserved and completed does.
//!
//! The writer decides; the caller does the file work. `begin_write` reserves a
//! destination, the caller creates it exclusively and generates it, and
//! `complete_write` records its identity. Any failure in between leaves the
//! writer failed, and a failed writer accepts no further write.
use vstd::prelude::*;
use crate::derived::spec_suffix;
use crate::paths::{
    file_name_of, file_stem_of, join_path, path_join, paths_equal, std_file_name, std_file_stem,
    std_path_eq, std_with_file_name, with_file_name_of,
};
use crate::digits::{decimal, decimal_text};
use crate::run_config::RunConfig;
use crate::text::{chars_of, string_from_chars};

verus! {

/// The name of a labelled image beside `base`: its stem (or the analysis
/// default), `_`, the label and `.png`.
pub open spec fn sibling_name(base: Seq<char>, label: Seq<char>) -> Seq<char> {
    let stem = match std_file_stem(base) {
        Some(s) => s,
        None => "titan_image_analysis_v9"@,
    };
    stem + "_"@ + label + ".png"@
}

/// The labelled image beside `base`.
pub fn sibling_png(base: &str, label: &str) -> (r: String)
    ensures
        r@ == std_with_file_name(base@, sibling_name(base@, label@)),
{
    let stem = match file_stem_of(base) {
        Some(s) => s,
        None => String::from_str("titan_image_analysis_v9"),
    };
    let name = stem.concat("_").concat(label).concat(".png");
    with_file_name_of(base, name.as_str())
}

/// Where the evaluations of a run are kept, and the directory of one of them:
/// `analysis_history_v9` and the run suffix inside the output directory, and
/// `step_<step>_<id>` inside that.
pub open spec fn spec_evaluation_dirs(c: RunConfig, step: u64, evaluation_id: Seq<char>) -> (Seq<char>, Seq<char>) {
    let history = path_join(c.output_dir@, "analysis_history_v9"@ + spec_suffix(c));
    (history, path_join(history, "step_"@ + decimal(step as nat) + "_"@ + evaluation_id))
}

pub fn evaluation_dirs(config: &RunConfig, step: u64, evaluation_id: &str) -> (r: (String, String))
    ensures
        (r.0@, r.1@) == spec_evaluation_dirs(*config, step, evaluation_id@),
{
    let suffix = config.suffix();
    let history_name = String::from_str("analysis_history_v9").concat(suffix.as_str());
    let history = join_path(config.output_dir.as_str(), history_name.as_str());
    let root_name = String::from_str("step_").concat(decimal_text(step).as_str()).concat("_").concat(
        evaluation_id,
    );
    let root = join_path(history.as_str(), root_name.as_str());
    (history, root)
}

/// The identity of an artifact's bytes.
#[derive(Clone, Debug)]
pub struct ArtifactIdentity {
    pub path: String,
    pub bytes: u64,
    /// Identity and error detection only, not a cryptographic guarantee.
    pub fnv1a64: String,
    pub sha256: String,
}

pub open spec fn same_identity(a: ArtifactIdentity, b: ArtifactIdentity) -> bool {
    &&& a.path@ == b.path@
    &&& a.bytes == b.bytes
    &&& a.fnv1a64@ == b.fnv1a64@
    &&& a.sha256@ == b.sha256@
}

fn copy_identity(a: &ArtifactIdentity) -> (r: ArtifactIdentity)
    ensures
        r == *a,
{
    ArtifactIdentity {
        path: a.path.clone(),
        bytes: a.bytes,
        fnv1a64: a.fnv1a64.clone(),
        sha256: a.sha256.clone(),
    }
}

fn copy_record(r: &(String, ArtifactIdentity)) -> (c: (String, ArtifactIdentity))
    ensures
        c == *r,
{
    (r.0.clone(), copy_identity(&r.1))
}

pub fn identities_match(a: &ArtifactIdentity, b: &ArtifactIdentity) -> (r: bool)
    ensures
        r == same_identity(*a, *b),
{
    a.path == b.path && a.bytes == b.bytes && a.fnv1a64 == b.fnv1a64 && a.sha256 == b.sha256
}

/// Strict lexicographic order of texts by character, which is the byte
/// order of their UTF-8 encodings.
pub open spec fn text_less(a: Seq<char>, b: Seq<char>) -> bool
    decreases a.len(),
{
    if a.len() == 0 {
        b.len() > 0
    } else if b.len() == 0 {
        false
    } else if a[0] != b[0] {
        a[0] < b[0]
    } else {
        text_less(a.drop_first(), b.drop_first())
    }
}

pub proof fn lemma_text_less_transitive(a: Seq<char>, b: Seq<char>, c: Seq<char>)
    requires
        text_less(a, b),
        text_less(b, c),
    ensures
        text_less(a, c),
    decreases a.len(),
{
    if a.len() > 0 && b.len() > 0 && c.len() > 0 && a[0] == b[0] && b[0] == c[0] {
        lemma_text_less_transitive(a.drop_first(), b.drop_first(), c.drop_first());
    }
}

pub proof fn lemma_text_less_total(a: Seq<char>, b: Seq<char>)
    ensures
        a == b || text_less(a, b) || text_less(b, a),
        !(text_less(a, b) && text_less(b, a)),
        !text_less(a, a),
    decreases a.len(),
{
    if a.len() > 0 && b.len() > 0 {
        lemma_text_less_total(a.drop_first(), b.drop_first());
        if a[0] == b[0] && a.drop_first() == b.drop_first() {
            assert(a =~= seq![a[0]] + a.drop_first());
            assert(b =~= seq![b[0]] + b.drop_first());
        }
    }
    if a.len() > 0 {
        lemma_text_less_total(a.drop_first(), a.drop_first());
    }
}

/// Compares two texts: negative, zero or positive as `a` sorts before, equal
/// to, or after `b`.
fn text_order(a: &Vec<char>, b: &Vec<char>) -> (r: i8)
    ensures
        (r < 0) == text_less(a@, b@),
        (r == 0) == (a@ == b@),
        (r > 0) == text_less(b@, a@),
{
    proof {
        lemma_text_less_total(a@, b@);
    }
    let n = a.len();
    let m = b.len();
    let mut i: usize = 0;
    assert(a@.subrange(0, n as int) =~= a@);
    assert(b@.subrange(0, m as int) =~= b@);
    while i < n && i < m
        invariant
            i <= n == a@.len(),
            i <= m == b@.len(),
            a@.subrange(0, i as int) == b@.subrange(0, i as int),
            text_less(a@, b@) == text_less(a@.subrange(i as int, n as int), b@.subrange(i as int, m as int)),
            text_less(b@, a@) == text_less(b@.subrange(i as int, m as int), a@.subrange(i as int, n as int)),
        decreases n - i,
    {
        let x = a[i];
        let y = b[i];
        let ghost ra = a@.subrange(i as int, n as int);
        let ghost rb = b@.subrange(i as int, m as int);
        assert(ra[0] == x && rb[0] == y);
        if x < y {
            return -1;
        }
        if y < x {
            return 1;
        }
        assert(ra.drop_first() =~= a@.subrange(i + 1, n as int));
        assert(rb.drop_first() =~= b@.subrange(i + 1, m as int));
        assert(a@.subrange(0, i + 1) =~= a@.subrange(0, i as int).push(x));
        assert(b@.subrange(0, i + 1) =~= b@.subrange(0, i as int).push(y));
        i = i + 1;
    }
    if n == m {
        assert(a@ =~= a@.subrange(0, i as int));
        assert(b@ =~= b@.subrange(0, i as int));
        0
    } else if i == n {
        assert(a@.subrange(i as int, n as int).len() == 0);
        -1
    } else {
        assert(b@.subrange(i as int, m as int).len() == 0);
        1
    }
}

/// The paths of the records, sorted strictly.
pub open spec fn sorted_keys(keys: Seq<Seq<char>>) -> bool {
    forall|i: int, j: int| 0 <= i < j < keys.len() ==> text_less(#[trigger] keys[i], #[trigger] keys[j])
}

/// `path` names a file directly inside `root`, the file name of some path,
/// and is not the archive `evaluation.json` of `root`.
pub open spec fn in_evaluation_dir(root: Seq<char>, path: Seq<char>) -> bool {
    &&& exists|canonical: Seq<char>|
        #[trigger] std_file_name(canonical) is Some && path == path_join(root, std_file_name(canonical)->0)
    &&& path != path_join(root, "evaluation.json"@)
}

/// Why the writer refused.
#[derive(Clone, Debug)]
pub enum ArtifactError {
    /// An earlier write of this evaluation failed.
    FailedWrite,
    /// The canonical path has no file name.
    NoFileName,
    /// `evaluation.json` is reserved for publication.
    ReservedArchive,
    /// No destination is reserved.
    NoWriteInProgress,
    /// The generated artifact holds no bytes.
    EmptyArtifact { path: String },
    /// A montage needs at least one input.
    EmptyMontage,
    /// A montage input was not written by this evaluation.
    NotEmitted { path: String },
    /// A montage input changed since it was written.
    Changed { path: String },
}

/// The outputs of one evaluation.
pub struct EvaluationArtifacts {
    evaluation_id: String,
    root: String,
    records: Vec<(String, ArtifactIdentity)>,
    failed: bool,
    reserved: Option<String>,
}

impl EvaluationArtifacts {
    /// The records are sorted by path, and every recorded or reserved path
    /// lies directly in the evaluation directory and is not its archive.
    #[verifier::type_invariant]
    spec fn well_formed(self) -> bool {
        &&& sorted_keys(self.record_keys())
        &&& forall|i: int|
            0 <= i < self.record_keys().len() ==> in_evaluation_dir(self.root@, #[trigger] self.record_keys()[i])
        &&& (self.reserved matches Some(p) ==> in_evaluation_dir(self.root@, p@))
    }

    /// The paths recorded, in their sorted order.
    pub closed spec fn record_keys(self) -> Seq<Seq<char>> {
        self.records@.map_values(|r: (String, ArtifactIdentity)| r.0@)
    }

    /// The identity recorded for each path, in the same order.
    pub closed spec fn record_identities(self) -> Seq<ArtifactIdentity> {
        self.records@.map_values(|r: (String, ArtifactIdentity)| r.1)
    }

    pub closed spec fn spec_root(self) -> Seq<char> {
        self.root@
    }

    pub closed spec fn spec_evaluation_id(self) -> Seq<char> {
        self.evaluation_id@
    }

    pub closed spec fn is_failed(self) -> bool {
        self.failed
    }

    /// The destination reserved by the write in progress, if any.
    pub closed spec fn spec_reserved(self) -> Option<Seq<char>> {
        match self.reserved {
            Some(p) => Some(p@),
            None => None,
        }
    }

    /// Whether `path` was written and recorded by this evaluation.
    pub open spec fn spec_owns(self, path: Seq<char>) -> bool {
        self.record_keys().contains(path)
    }

    /// A writer for the evaluation directory `root`, with nothing written.
    pub fn open(evaluation_id: String, root: String) -> (r: EvaluationArtifacts)
        ensures
            r.spec_evaluation_id() == evaluation_id@,
            r.spec_root() == root@,
            r.record_keys() == Seq::<Seq<char>>::empty(),
            !r.is_failed(),
            r.spec_reserved() is None,
    {
        let r = EvaluationArtifacts {
            evaluation_id,
            root,
            records: Vec::new(),
            failed: false,
            reserved: None,
        };
        assert(r.record_keys() =~= Seq::<Seq<char>>::empty());
        r
    }

    pub fn evaluation_id(&self) -> (r: &String)
        ensures
            r@ == self.spec_evaluation_id(),
    {
        &self.evaluation_id
    }

    /// Every path written, in sorted order.
    pub fn emitted_paths(&self) -> (r: Vec<String>)
        ensures
            r@.map_values(|s: String| s@) == self.record_keys(),
            sorted_keys(self.record_keys()),
            forall|i: int| 0 <= i < r@.len() ==> in_evaluation_dir(self.spec_root(), #[trigger] r@[i]@),
    {
        proof {
            use_type_invariant(self);
        }
        let mut out: Vec<String> = Vec::new();
        let mut i: usize = 0;
        while i < self.records.len()
            invariant
                i <= self.records@.len(),
                out@.map_values(|s: String| s@) == self.record_keys().take(i as int),
            decreases self.records@.len() - i,
        {
            let ghost before = out@;
            let key = self.records[i].0.clone();
            assert(key@ == self.record_keys()[i as int]);
            out.push(key);
            assert(out@.map_values(|s: String| s@) =~= before.map_values(|s: String| s@).push(key@));
            assert(self.record_keys().take(i + 1) =~= self.record_keys().take(i as int).push(
                self.record_keys()[i as int],
            ));
            i = i + 1;
        }
        assert(self.record_keys().take(i as int) =~= self.record_keys());
        assert forall|t: int| 0 <= t < out@.len() implies in_evaluation_dir(self.spec_root(), #[trigger] out@[t]@) by {
            assert(out@[t]@ == out@.map_values(|s: String| s@)[t]);
            assert(out@[t]@ == self.record_keys()[t]);
        }
        out
    }

    /// The archive published for the evaluation: `evaluation.json` in its directory.
    pub fn archive(&self) -> (r: String)
        ensures
            r@ == path_join(self.spec_root(), "evaluation.json"@),
            !self.record_keys().contains(r@),
    {
        proof {
            use_type_invariant(self);
        }
        join_path(self.root.as_str(), "evaluation.json")
    }

    /// The destination for an artifact named like `canonical`.
    pub fn output_path(&self, canonical: &str) -> (r: String)
        requires
            std_file_name(canonical@) is Some,
        ensures
            r@ == path_join(self.spec_root(), std_file_name(canonical@)->0),
    {
        let name = file_name_of(canonical);
        match name {
            Some(n) => join_path(self.root.as_str(), n.as_str()),
            None => String::new(),
        }
    }

    /// Whether `path` was written and recorded by this evaluation.
    pub fn owns(&self, path: &str) -> (r: bool)
        ensures
            r == self.spec_owns(path@),
    {
        let text = chars_of(path);
        let mut i: usize = 0;
        while i < self.records.len()
            invariant
                text@ == path@,
                i <= self.records@.len(),
                forall|j: int| 0 <= j < i ==> self.record_keys()[j] != path@,
            decreases self.records@.len() - i,
        {
            if self.records[i].0 == String::from_str(path) {
                assert(self.record_keys()[i as int] == path@);
                return true;
            }
            i = i + 1;
        }
        false
    }

    /// Records `identity` under `path`, keeping the paths sorted; a path
    /// recorded before gets the new identity.
    fn insert_record(&mut self, path: String, identity: ArtifactIdentity)
        requires
            in_evaluation_dir(old(self).spec_root(), path@),
        ensures
            final(self).spec_evaluation_id() == old(self).spec_evaluation_id(),
            final(self).spec_root() == old(self).spec_root(),
            final(self).is_failed() == old(self).is_failed(),
            final(self).spec_reserved() == old(self).spec_reserved(),
            final(self).record_keys().to_set() == old(self).record_keys().to_set().insert(path@),
            forall|i: int|
                0 <= i < final(self).record_keys().len() && final(self).record_keys()[i] == path@
                    ==> #[trigger] final(self).record_identities()[i] == identity,
            forall|i: int, j: int|
                0 <= i < final(self).record_keys().len() && 0 <= j < old(self).record_keys().len()
                    && #[trigger] final(self).record_keys()[i] == #[trigger] old(self).record_keys()[j]
                    && old(self).record_keys()[j] != path@ ==> final(self).record_identities()[i]
                    == old(self).record_identities()[j],
    {
        proof {
            use_type_invariant(&*self);
        }
        let ghost recs = self.records@;
        let ghost keys = self.record_keys();
        let ghost ids = self.record_identities();
        let key = chars_of(path.as_str());
        let n = self.records.len();
        let mut pos: usize = 0;
        while pos < n && text_order(&chars_of(self.records[pos].0.as_str()), &key) < 0
            invariant
                n == self.records@.len(),
                keys == self.record_keys(),
                key@ == path@,
                pos <= n,
                forall|j: int| 0 <= j < pos ==> text_less(#[trigger] keys[j], key@),
            decreases n - pos,
        {
            pos = pos + 1;
        }
        let same = pos < n && text_order(&chars_of(self.records[pos].0.as_str()), &key) == 0;
        let skip: usize = if same {
            1
        } else {
            0
        };
        proof {
            if pos < n {
                lemma_text_less_total(keys[pos as int], key@);
            }
            lemma_text_less_total(key@, key@);
        }
        let mut out: Vec<(String, ArtifactIdentity)> = Vec::new();
        let mut i: usize = 0;
        while i < pos
            invariant
                recs == self.records@,
                n == recs.len(),
                pos <= n,
                i <= pos,
                out@.len() == i,
                forall|t: int| 0 <= t < i ==> #[trigger] out@[t] == recs[t],
            decreases pos - i,
        {
            out.push(copy_record(&self.records[i]));
            i = i + 1;
        }
        let ghost entry = (path, identity);
        out.push((path, identity));
        let mut k: usize = pos + skip;
        while k < n
            invariant
                recs == self.records@,
                n == recs.len(),
                pos + skip <= k <= n,
                skip <= 1,
                out@.len() == k + 1 - skip,
                forall|t: int| 0 <= t < pos ==> #[trigger] out@[t] == recs[t],
                out@[pos as int] == entry,
                forall|t: int| pos + 1 <= t < out@.len() ==> #[trigger] out@[t] == recs[t + skip - 1],
            decreases n - k,
        {
            out.push(copy_record(&self.records[k]));
            k = k + 1;
        }
        let ghost fresh = out@;
        let ghost new_keys = fresh.map_values(|r: (String, ArtifactIdentity)| r.0@);
        let ghost new_ids = fresh.map_values(|r: (String, ArtifactIdentity)| r.1);
        proof {
            // Every key after the inserted one is greater than it.
            assert forall|t: int| pos + 1 <= t < fresh.len() implies text_less(key@, #[trigger] new_keys[t]) by {
                let j = t + skip - 1;
                assert(new_keys[t] == keys[j]);
                if same {
                    assert(keys[pos as int] == key@);
                    assert(text_less(keys[pos as int], keys[j]));
                } else if j > pos {
                    lemma_text_less_transitive(key@, keys[pos as int], keys[j]);
                }
            }
            assert forall|a: int, b: int| 0 <= a < b < new_keys.len() implies text_less(
                #[trigger] new_keys[a],
                #[trigger] new_keys[b],
            ) by {
                if a < pos && b < pos {
                    assert(new_keys[a] == keys[a] && new_keys[b] == keys[b]);
                } else if a < pos && b == pos {
                    assert(new_keys[a] == keys[a]);
                } else if a < pos {
                    assert(new_keys[a] == keys[a]);
                    lemma_text_less_transitive(keys[a], key@, new_keys[b]);
                } else if a > pos {
                    assert(new_keys[a] == keys[a + skip - 1] && new_keys[b] == keys[b + skip - 1]);
                }
            }
            // Identities follow their keys.
            assert forall|t: int| 0 <= t < fresh.len() && new_keys[t] == path@ implies new_ids[t] == identity by {
                if t < pos {
                    assert(new_keys[t] == keys[t]);
                } else if t > pos {
                    assert(text_less(key@, new_keys[t]));
                }
            }
            assert forall|t: int, j: int|
                0 <= t < fresh.len() && 0 <= j < keys.len() && new_keys[t] == keys[j] && keys[j] != path@
                    implies new_ids[t] == ids[j] by {
                let src = if t < pos { t } else { t + skip - 1 };
                assert(t != pos);
                assert(new_keys[t] == keys[src] && new_ids[t] == ids[src]);
                if src < j {
                    assert(text_less(keys[src], keys[j]));
                    lemma_text_less_total(keys[j], keys[j]);
                } else if j < src {
                    assert(text_less(keys[j], keys[src]));
                    lemma_text_less_total(keys[j], keys[j]);
                }
            }
            assert forall|q: Seq<char>| new_keys.to_set().contains(q) <==> keys.to_set().insert(
                path@,
            ).contains(q) by {
                if new_keys.to_set().contains(q) {
                    let a = new_keys.index_of(q);
                    if a < pos {
                        assert(keys[a] == q);
                    } else if a > pos {
                        assert(keys[a + skip - 1] == q);
                    }
                }
                if keys.to_set().contains(q) && q != path@ {
                    let j = keys.index_of(q);
                    if j < pos {
                        assert(new_keys[j] == q);
                    } else if j == pos {
                        assert(new_keys[j + 1] == q);
                    } else {
                        assert(new_keys[j - skip + 1] == q);
                    }
                }
                if q == path@ {
                    assert(new_keys[pos as int] == q);
                }
            }
            assert(new_keys.to_set() =~= keys.to_set().insert(path@));
            assert forall|t: int| 0 <= t < new_keys.len() implies in_evaluation_dir(
                self.root@,
                #[trigger] new_keys[t],
            ) by {
                assert(new_keys.to_set().contains(new_keys[t]));
                if new_keys[t] != path@ {
                    assert(keys.to_set().contains(new_keys[t]));
                    let j = keys.index_of(new_keys[t]);
                    assert(keys[j] == new_keys[t]);
                }
            }
        }
        self.records = out;
        assert(self.record_keys() == new_keys);
        assert(self.record_identities() == new_ids);
    }

    /// The identity recorded for `path`, if it was written.
    pub open spec fn recorded(self, path: Seq<char>) -> Option<ArtifactIdentity> {
        if self.record_keys().contains(path) {
            Some(self.record_identities()[self.record_keys().index_of(path)])
        } else {
            None
        }
    }

    /// Whether a montage input was written by this evaluation and is unchanged.
    pub open spec fn input_unchanged(self, path: Seq<char>, current: ArtifactIdentity) -> bool {
        self.recorded(path) matches Some(id) && same_identity(current, id)
    }

    /// The first montage input at or after `k` that fails, or the count.
    pub open spec fn first_bad_input(self, paths: Seq<Seq<char>>, current: Seq<ArtifactIdentity>, k: int) -> int
        decreases paths.len() - k,
    {
        if k < 0 || k >= paths.len() {
            paths.len() as int
        } else if !self.input_unchanged(paths[k], current[k]) {
            k
        } else {
            self.first_bad_input(paths, current, k + 1)
        }
    }

    /// Finds the record of `path`.
    fn find_record(&self, path: &str) -> (r: Option<usize>)
        ensures
            match r {
                Some(i) => i < self.record_keys().len() && self.record_keys().contains(path@)
                    && i == self.record_keys().index_of(path@),
                None => !self.record_keys().contains(path@),
            },
    {
        proof {
            use_type_invariant(self);
        }
        let ghost keys = self.record_keys();
        assert(sorted_keys(keys));
        let target = String::from_str(path);
        let mut i: usize = 0;
        while i < self.records.len()
            invariant
                keys == self.record_keys(),
                sorted_keys(keys),
                target@ == path@,
                i <= keys.len(),
                forall|j: int| 0 <= j < i ==> keys[j] != path@,
            decreases keys.len() - i,
        {
            if self.records[i].0 == target {
                assert(keys[i as int] == path@);
                proof {
                    assert(keys.contains(path@));
                    assert(sorted_keys(keys));
                    let w = keys.index_of(path@);
                    assert(0 <= w < keys.len() && keys[w] == path@);
                    if w != i {
                        lemma_text_less_total(keys[w], keys[w]);
                        if w < i {
                            assert(text_less(keys[w], keys[i as int]));
                        } else {
                            assert(text_less(keys[i as int], keys[w]));
                        }
                    }
                }
                return Some(i);
            }
            i = i + 1;
        }
        None
    }

    /// Records the identity of the artifact generated at the reserved
    /// destination and clears the failure; an empty artifact leaves the
    /// writer failed.
    pub fn complete_write(&mut self, identity: ArtifactIdentity) -> (r: Result<String, ArtifactError>)
        ensures
            final(self).spec_evaluation_id() == old(self).spec_evaluation_id(),
            final(self).spec_root() == old(self).spec_root(),
            final(self).spec_reserved() is None,
            match old(self).spec_reserved() {
                None => {
                    &&& r matches Err(ArtifactError::NoWriteInProgress)
                    &&& final(self).is_failed() == old(self).is_failed()
                    &&& final(self).record_keys() == old(self).record_keys()
                    &&& final(self).record_identities() == old(self).record_identities()
                },
                Some(path) => if identity.bytes == 0 {
                    &&& r matches Err(ArtifactError::EmptyArtifact { path: p }) && p@ == path
                    &&& final(self).is_failed() == old(self).is_failed()
                    &&& final(self).record_keys() == old(self).record_keys()
                    &&& final(self).record_identities() == old(self).record_identities()
                } else {
                    &&& r matches Ok(p) && p@ == path
                    &&& !final(self).is_failed()
                    &&& final(self).record_keys().to_set() == old(self).record_keys().to_set().insert(path)
                    &&& final(self).recorded(path) == Some(identity)
                    &&& forall|q: Seq<char>| q != path ==> #[trigger] final(self).recorded(q) == old(self).recorded(q)
                },
            },
    {
        proof {
            use_type_invariant(&*self);
        }
        let reserved = match &self.reserved {
            Some(p) => Some(p.clone()),
            None => None,
        };
        self.reserved = None;
        let path = match reserved {
            Some(p) => p,
            None => return Err(ArtifactError::NoWriteInProgress),
        };
        if identity.bytes == 0 {
            return Err(ArtifactError::EmptyArtifact { path });
        }
        let result = path.clone();
        let ghost before = *self;
        self.insert_record(path, identity);
        proof {
            use_type_invariant(&*self);
            let keys = self.record_keys();
            let old_keys = before.record_keys();
            assert(keys.to_set().contains(result@));
            assert(keys.contains(result@));
            let w = keys.index_of(result@);
            assert(keys[w] == result@);
            assert(self.record_identities()[w] == identity);
            assert(self.recorded(result@) == Some(identity));
            assert forall|q: Seq<char>| q != result@ implies #[trigger] self.recorded(q) == before.recorded(q) by {
                assert(keys.to_set().contains(q) == old_keys.to_set().contains(q));
                if old_keys.contains(q) {
                    assert(old_keys.to_set().contains(q));
                    assert(keys.to_set().contains(q));
                    let i = keys.index_of(q);
                    let j = old_keys.index_of(q);
                    assert(keys[i] == old_keys[j]);
                } else {
                    if keys.contains(q) {
                        assert(keys.to_set().contains(q));
                    }
                }
            }
        }
        let ghost mid = *self;
        self.failed = false;
        assert(self.record_keys() == mid.record_keys());
        assert(self.record_identities() == mid.record_identities());
        assert(forall|q: Seq<char>| #[trigger] self.recorded(q) == mid.recorded(q));
        Ok(result)
    }

    /// Checks the inputs of a montage and reserves its destination. Each input
    /// must have been written by this evaluation and be unchanged since:
    /// `current[k]` is the identity of `images[k]` now.
    pub fn montage(
        &mut self,
        images: &Vec<String>,
        current: &Vec<ArtifactIdentity>,
        canonical: &str,
    ) -> (r: Result<String, ArtifactError>)
        requires
            current@.len() == images@.len(),
        ensures
            ({
                let paths = images@.map_values(|s: String| s@);
                let bad = old(self).first_bad_input(paths, current@, 0);
                if images@.len() == 0 {
                    r matches Err(ArtifactError::EmptyMontage) && *final(self) == *old(self)
                } else if bad < paths.len() {
                    &&& *final(self) == *old(self)
                    &&& if old(self).recorded(paths[bad]) is None {
                        r matches Err(ArtifactError::NotEmitted { path }) && path@ == paths[bad]
                    } else {
                        r matches Err(ArtifactError::Changed { path }) && path@ == paths[bad]
                    }
                } else {
                    &&& final(self).spec_evaluation_id() == old(self).spec_evaluation_id()
                    &&& final(self).spec_root() == old(self).spec_root()
                    &&& final(self).record_keys() == old(self).record_keys()
                    &&& final(self).record_identities() == old(self).record_identities()
                    &&& final(self).is_failed()
                    &&& old(self).is_failed() ==> (r matches Err(ArtifactError::FailedWrite))
                    &&& !old(self).is_failed() ==> match std_file_name(canonical@) {
                        None => r matches Err(ArtifactError::NoFileName),
                        Some(name) => {
                            let path = path_join(old(self).spec_root(), name);
                            if path == path_join(old(self).spec_root(), "evaluation.json"@) {
                                r matches Err(ArtifactError::ReservedArchive)
                            } else {
                                (r matches Ok(p) && p@ == path && final(self).spec_reserved() == Some(path))
                            }
                        },
                    }
                }
            }),
    {
        let ghost paths = images@.map_values(|s: String| s@);
        if images.len() == 0 {
            return Err(ArtifactError::EmptyMontage);
        }
        let mut k: usize = 0;
        while k < images.len()
            invariant
                paths == images@.map_values(|s: String| s@),
                current@.len() == images@.len(),
                k <= images@.len(),
                self.first_bad_input(paths, current@, 0) == self.first_bad_input(paths, current@, k as int),
            decreases images@.len() - k,
        {
            let path = images[k].as_str();
            assert(path@ == paths[k as int]);
            match self.find_record(path) {
                None => {
                    return Err(ArtifactError::NotEmitted { path: images[k].clone() });
                },
                Some(i) => {
                    if !identities_match(&current[k], &self.records[i].1) {
                        return Err(ArtifactError::Changed { path: images[k].clone() });
                    }
                },
            }
            k = k + 1;
        }
        self.begin_write(canonical)
    }

    /// Reserves the destination for an artifact named like `canonical`. The
    /// writer is failed from here until `complete_write` succeeds.
    pub fn begin_write(&mut self, canonical: &str) -> (r: Result<String, ArtifactError>)
        ensures
            final(self).spec_evaluation_id() == old(self).spec_evaluation_id(),
            final(self).spec_root() == old(self).spec_root(),
            final(self).record_keys() == old(self).record_keys(),
            final(self).record_identities() == old(self).record_identities(),
            final(self).is_failed(),
            old(self).is_failed() ==> (r matches Err(ArtifactError::FailedWrite)
                && final(self).spec_reserved() == old(self).spec_reserved()),
            !old(self).is_failed() ==> match std_file_name(canonical@) {
                None => (r matches Err(ArtifactError::NoFileName) && final(self).spec_reserved()
                    == old(self).spec_reserved()),
                Some(name) => {
                    let path = path_join(old(self).spec_root(), name);
                    if path == path_join(old(self).spec_root(), "evaluation.json"@) {
                        (r matches Err(ArtifactError::ReservedArchive) && final(self).spec_reserved()
                            == old(self).spec_reserved())
                    } else {
                        (r matches Ok(p) && p@ == path && final(self).spec_reserved() == Some(path))
                    }
                },
            },
    {
        proof {
            use_type_invariant(&*self);
        }
        if self.failed {
            return Err(ArtifactError::FailedWrite);
        }
        self.failed = true;
        let has_name = file_name_of(canonical).is_some();
        if !has_name {
            return Err(ArtifactError::NoFileName);
        }
        let path = self.output_path(canonical);
        let archive = self.archive();
        if path == archive {
            return Err(ArtifactError::ReservedArchive);
        }
        self.reserved = Some(path.clone());
        Ok(path)
    }
}

/// Why an evaluation may not be published.
#[derive(Clone, Debug)]
pub enum PublishError {
    /// The summary belongs to another evaluation.
    OwnershipMismatch,
    /// The summary names another archive.
    ArchiveMismatch,
    /// A recorded artifact changed after it was written.
    Changed { path: String },
    /// A write of this evaluation failed.
    FailedWrite,
    /// The summary refers to an output this evaluation did not write.
    Unowned { path: String },
    /// A reference in the summary is malformed: a decomposition label without
    /// `:`, or a panel entry without its raw frame.
    MalformedReference,
}

/// A reference as text, or nothing where the summary's entry is malformed.
pub open spec fn opt_text(o: Option<String>) -> Option<Seq<char>> {
    match o {
        Some(s) => Some(s@),
        None => None,
    }
}

pub open spec fn ref_views(v: Seq<Option<String>>) -> Seq<Option<Seq<char>>> {
    v.map_values(|o: Option<String>| opt_text(o))
}

/// The first `:` in `s` at or after `k`, or -1.
pub open spec fn colon_at(s: Seq<char>, k: int) -> int
    decreases s.len() - k,
{
    if k < 0 || k >= s.len() {
        -1
    } else if s[k] == ':' {
        k
    } else {
        colon_at(s, k + 1)
    }
}

/// The output a decomposition label names: what follows its first `:`.
pub open spec fn spec_label_output(label: Seq<char>) -> Option<Seq<char>> {
    let c = colon_at(label, 0);
    if c < 0 {
        None
    } else {
        Some(label.subrange(c + 1, label.len() as int))
    }
}

/// The output a decomposition label `name:path` names, or nothing without `:`.
pub fn label_output(label: &str) -> (r: Option<String>)
    ensures
        opt_text(r) == spec_label_output(label@),
{
    let chars = chars_of(label);
    let n = chars.len();
    let mut k: usize = 0;
    while k < n && chars[k] != ':'
        invariant
            chars@ == label@,
            n == chars@.len(),
            k <= n,
            colon_at(label@, 0) == colon_at(label@, k as int),
        decreases n - k,
    {
        k = k + 1;
    }
    if k == n {
        return None;
    }
    let mut rest: Vec<char> = Vec::new();
    let mut j: usize = k + 1;
    while j < n
        invariant
            chars@ == label@,
            n == chars@.len(),
            k < j <= n,
            rest@ == label@.subrange(k + 1, j as int),
        decreases n - j,
    {
        rest.push(chars[j]);
        assert(rest@ =~= label@.subrange(k + 1, j + 1));
        j = j + 1;
    }
    Some(string_from_chars(rest))
}

/// The outputs of a natural-image probe: its report, its montage and each
/// point's output.
#[derive(Clone, Debug)]
pub struct ProbeReferences {
    pub report: String,
    pub montage: String,
    pub points: Vec<String>,
}

pub open spec fn some_ref(o: Option<String>) -> Seq<Option<Seq<char>>> {
    match o {
        Some(s) => seq![Some(s@)],
        None => Seq::empty(),
    }
}

pub open spec fn probe_refs(p: Option<ProbeReferences>) -> Seq<Option<Seq<char>>> {
    match p {
        Some(p) => seq![Some(p.report@), Some(p.montage@)] + p.points@.map_values(
            |s: String| Some(s@),
        ),
        None => Seq::empty(),
    }
}

/// Every output a summary refers to, in the order they are checked: the
/// decomposition montage and flow sample where present, the output of each
/// decomposition label, the probe's report, montage and point outputs, then
/// each panel frame (nothing where the panel entry has no raw frame).
pub open spec fn spec_publication_references(
    montage: Option<String>,
    flow_sample: Option<String>,
    labels: Seq<String>,
    probe: Option<ProbeReferences>,
    panel_frames: Seq<Option<String>>,
) -> Seq<Option<Seq<char>>> {
    some_ref(montage) + some_ref(flow_sample) + labels.map_values(|l: String| spec_label_output(l@))
        + probe_refs(probe) + ref_views(panel_frames)
}

fn copy_text(s: &String) -> (r: String)
    ensures
        r@ == s@,
{
    string_from_chars(chars_of(s.as_str()))
}

fn push_ref(out: &mut Vec<Option<String>>, s: &String)
    ensures
        ref_views(final(out)@) == ref_views(old(out)@).push(Some(s@)),
{
    out.push(Some(copy_text(s)));
    assert(ref_views(out@) =~= ref_views(old(out)@).push(Some(s@)));
}

/// Collects the outputs a summary refers to, in checking order.
pub fn publication_references(
    montage: &Option<String>,
    flow_sample: &Option<String>,
    labels: &Vec<String>,
    probe: &Option<ProbeReferences>,
    panel_frames: &Vec<Option<String>>,
) -> (r: Vec<Option<String>>)
    ensures
        ref_views(r@) == spec_publication_references(
            *montage,
            *flow_sample,
            labels@,
            *probe,
            panel_frames@,
        ),
{
    let mut out: Vec<Option<String>> = Vec::new();
    assert(ref_views(out@) =~= Seq::<Option<Seq<char>>>::empty());
    if let Some(m) = montage {
        push_ref(&mut out, m);
    }
    assert(ref_views(out@) =~= some_ref(*montage));
    if let Some(f) = flow_sample {
        push_ref(&mut out, f);
    }
    let ghost head = some_ref(*montage) + some_ref(*flow_sample);
    assert(ref_views(out@) =~= head);
    let ghost label_refs = labels@.map_values(|l: String| spec_label_output(l@));
    let mut i: usize = 0;
    while i < labels.len()
        invariant
            i <= labels@.len(),
            label_refs == labels@.map_values(|l: String| spec_label_output(l@)),
            ref_views(out@) == head + label_refs.take(i as int),
        decreases labels@.len() - i,
    {
        let ghost before = out@;
        out.push(label_output(labels[i].as_str()));
        assert(ref_views(out@) =~= ref_views(before).push(label_refs[i as int]));
        assert(label_refs.take(i + 1) =~= label_refs.take(i as int).push(label_refs[i as int]));
        i = i + 1;
    }
    assert(label_refs.take(i as int) =~= label_refs);
    let ghost mid = head + label_refs;
    assert(ref_views(out@) == mid);
    if let Some(p) = probe {
        push_ref(&mut out, &p.report);
        push_ref(&mut out, &p.montage);
        let ghost point_refs = p.points@.map_values(|s: String| Some(s@));
        let mut k: usize = 0;
        while k < p.points.len()
            invariant
                k <= p.points@.len(),
                point_refs == p.points@.map_values(|s: String| Some(s@)),
                ref_views(out@) == mid.push(Some(p.report@)).push(Some(p.montage@)) + point_refs.take(
                    k as int,
                ),
            decreases p.points@.len() - k,
        {
            let ghost before = out@;
            push_ref(&mut out, &p.points[k]);
            assert(point_refs.take(k + 1) =~= point_refs.take(k as int).push(point_refs[k as int]));
            k = k + 1;
        }
        assert(point_refs.take(k as int) =~= point_refs);
        assert(ref_views(out@) =~= mid + probe_refs(*probe));
    } else {
        assert(ref_views(out@) =~= mid + probe_refs(*probe));
    }
    let ghost upto = mid + probe_refs(*probe);
    let mut j: usize = 0;
    while j < panel_frames.len()
        invariant
            j <= panel_frames@.len(),
            ref_views(out@) == upto + ref_views(panel_frames@).take(j as int),
        decreases panel_frames@.len() - j,
    {
        let ghost before = out@;
        match &panel_frames[j] {
            Some(s) => {
                push_ref(&mut out, s);
            },
            None => {
                out.push(None);
                assert(ref_views(out@) =~= ref_views(before).push(None));
            },
        }
        assert(ref_views(panel_frames@)[j as int] == opt_text(panel_frames@[j as int]));
        assert(ref_views(panel_frames@).take(j + 1) =~= ref_views(panel_frames@).take(j as int).push(
            ref_views(panel_frames@)[j as int],
        ));
        j = j + 1;
    }
    assert(ref_views(panel_frames@).take(j as int) =~= ref_views(panel_frames@));
    out
}

impl EvaluationArtifacts {
    /// The first record at or after `k` whose current identity differs.
    pub open spec fn first_changed(self, current: Seq<ArtifactIdentity>, k: int) -> int
        decreases self.record_identities().len() - k,
    {
        if k < 0 || k >= self.record_identities().len() {
            self.record_identities().len() as int
        } else if !same_identity(current[k], self.record_identities()[k]) {
            k
        } else {
            self.first_changed(current, k + 1)
        }
    }

    /// The first reference at or after `k` that is malformed or names an
    /// output this evaluation did not write.
    pub open spec fn first_unowned(self, referenced: Seq<Option<Seq<char>>>, k: int) -> int
        decreases referenced.len() - k,
    {
        if k < 0 || k >= referenced.len() {
            referenced.len() as int
        } else if !(referenced[k] matches Some(p) && self.spec_owns(p)) {
            k
        } else {
            self.first_unowned(referenced, k + 1)
        }
    }

    /// The records as they stand, sorted by path.
    pub fn records(&self) -> (r: Vec<(String, ArtifactIdentity)>)
        ensures
            r@.map_values(|p: (String, ArtifactIdentity)| p.0@) == self.record_keys(),
            r@.map_values(|p: (String, ArtifactIdentity)| p.1) == self.record_identities(),
    {
        let mut out: Vec<(String, ArtifactIdentity)> = Vec::new();
        let mut i: usize = 0;
        while i < self.records.len()
            invariant
                i <= self.records@.len(),
                out@ == self.records@.take(i as int),
            decreases self.records@.len() - i,
        {
            out.push(copy_record(&self.records[i]));
            assert(out@ =~= self.records@.take(i + 1));
            i = i + 1;
        }
        assert(self.records@.take(i as int) =~= self.records@);
        out
    }

    /// Decides whether a summary may be published as this evaluation: it must
    /// be this evaluation's and name its archive, every recorded artifact must
    /// be unchanged (`current[k]` is the identity of the `k`-th record now),
    /// no write may have failed, and every output the summary refers to must
    /// have been written by this evaluation. Existence alone never counts.
    pub fn check_publication(
        &self,
        evaluation_id: &str,
        archive: &str,
        current: &Vec<ArtifactIdentity>,
        referenced: &Vec<Option<String>>,
    ) -> (r: Result<(), PublishError>)
        requires
            current@.len() == self.record_keys().len(),
        ensures
            ({
                let changed = self.first_changed(current@, 0);
                let paths = ref_views(referenced@);
                let unowned = self.first_unowned(paths, 0);
                if evaluation_id@ != self.spec_evaluation_id() {
                    r matches Err(PublishError::OwnershipMismatch)
                } else if !std_path_eq(archive@, path_join(self.spec_root(), "evaluation.json"@)) {
                    r matches Err(PublishError::ArchiveMismatch)
                } else if changed < current@.len() {
                    r matches Err(PublishError::Changed { path }) && path@ == self.record_keys()[changed]
                } else if self.is_failed() {
                    r matches Err(PublishError::FailedWrite)
                } else if unowned < paths.len() {
                    match paths[unowned] {
                        None => r matches Err(PublishError::MalformedReference),
                        Some(text) => r matches Err(PublishError::Unowned { path }) && path@ == text,
                    }
                } else {
                    r is Ok
                }
            }),
            archive@ == path_join(self.spec_root(), "evaluation.json"@) ==> !(r matches Err(
                PublishError::ArchiveMismatch,
            )),
    {
        if !(String::from_str(evaluation_id) == self.evaluation_id) {
            return Err(PublishError::OwnershipMismatch);
        }
        let own_archive = self.archive();
        if !paths_equal(archive, own_archive.as_str()) {
            return Err(PublishError::ArchiveMismatch);
        }
        let mut k: usize = 0;
        while k < self.records.len()
            invariant
                evaluation_id@ == self.spec_evaluation_id(),
                std_path_eq(archive@, path_join(self.spec_root(), "evaluation.json"@)),
                current@.len() == self.record_keys().len() == self.records@.len(),
                k <= self.records@.len(),
                self.first_changed(current@, 0) == self.first_changed(current@, k as int),
            decreases self.records@.len() - k,
        {
            assert(self.record_identities()[k as int] == self.records@[k as int].1);
            if !identities_match(&current[k], &self.records[k].1) {
                assert(self.record_keys()[k as int] == self.records@[k as int].0@);
                return Err(PublishError::Changed { path: self.records[k].0.clone() });
            }
            k = k + 1;
        }
        if self.failed {
            return Err(PublishError::FailedWrite);
        }
        let ghost paths = ref_views(referenced@);
        let mut j: usize = 0;
        while j < referenced.len()
            invariant
                evaluation_id@ == self.spec_evaluation_id(),
                std_path_eq(archive@, path_join(self.spec_root(), "evaluation.json"@)),
                current@.len() == self.record_keys().len(),
                self.first_changed(current@, 0) == current@.len(),
                !self.is_failed(),
                paths == ref_views(referenced@),
                j <= referenced@.len(),
                self.first_unowned(paths, 0) == self.first_unowned(paths, j as int),
            decreases referenced@.len() - j,
        {
            assert(opt_text(referenced@[j as int]) == paths[j as int]);
            match &referenced[j] {
                None => {
                    return Err(PublishError::MalformedReference);
                },
                Some(path) => {
                    if !self.owns(path.as_str()) {
                        return Err(PublishError::Unowned { path: copy_text(path) });
                    }
                },
            }
            j = j + 1;
        }
        Ok(())
    }
}

/// A labelled image sits beside its base, named by the base's stem (or the
/// analysis default without one), `_`, the label and `.png`.
pub proof fn lemma_sibling_name(base: Seq<char>, label: Seq<char>)
    ensures
        std_file_stem(base) matches Some(s) ==> sibling_name(base, label) == s + "_"@ + label + ".png"@,
        std_file_stem(base) is None ==> sibling_name(base, label) == "titan_image_analysis_v9"@ + "_"@
            + label + ".png"@,
{
}

/// Evaluations of a run are kept in `analysis_history_v9` and the run suffix
/// inside the output directory, each in `step_<step>_<id>` inside that.
pub proof fn lemma_evaluation_dirs(c: RunConfig, step: u64, evaluation_id: Seq<char>)
    ensures
        spec_evaluation_dirs(c, step, evaluation_id).0 == path_join(c.output_dir@, "analysis_history_v9"@
            + spec_suffix(c)),
        spec_evaluation_dirs(c, step, evaluation_id).1 == path_join(
            spec_evaluation_dirs(c, step, evaluation_id).0,
            "step_"@ + decimal(step as nat) + "_"@ + evaluation_id,
        ),
{
}

} // verus!
