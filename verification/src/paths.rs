//! Paths as text: joining a relative name onto a directory, and the parts of
//! a path that std's `Path` reports.
use vstd::prelude::*;
use crate::text::chars_of;

verus! {

/// `child` appended to `base` as `Path::join` does on Unix for a relative
/// child: with one `/` between them unless `base` is empty or already ends
/// with one.
pub open spec fn path_join(base: Seq<char>, child: Seq<char>) -> Seq<char> {
    if base.len() == 0 || base.last() == '/' {
        base + child
    } else {
        base + seq!['/'] + child
    }
}

/// Joins a relative `child` onto `base`.
pub fn join_path(base: &str, child: &str) -> (r: String)
    ensures
        r@ == path_join(base@, child@),
{
    let base_chars = chars_of(base);
    let n = base_chars.len();
    let joined = String::from_str(base);
    if n == 0 || base_chars[n - 1] == '/' {
        joined.concat(child)
    } else {
        proof {
            reveal_strlit("/");
        }
        joined.concat("/").concat(child)
    }
}

/// `Path::file_name` of a path.
pub uninterp spec fn std_file_name(path: Seq<char>) -> Option<Seq<char>>;

/// Index of the last `.` in `name`, or -1 where it has none.
pub open spec fn last_dot(name: Seq<char>) -> int
    decreases name.len(),
{
    if name.len() == 0 {
        -1
    } else if name.last() == '.' {
        name.len() - 1
    } else {
        last_dot(name.drop_last())
    }
}

/// `Path::file_stem` of a path, as std documents it: nothing without a file
/// name; the whole name where it has no `.` but possibly a leading one;
/// otherwise the part of the name before its last `.`.
pub open spec fn std_file_stem(path: Seq<char>) -> Option<Seq<char>> {
    match std_file_name(path) {
        Some(name) => if last_dot(name) <= 0 {
            Some(name)
        } else {
            Some(name.subrange(0, last_dot(name)))
        },
        None => None,
    }
}

/// `Path::extension` of a path, as std documents it: nothing without a file
/// name, nor where the name has no `.` but possibly a leading one; otherwise
/// the part of the name after its last `.`.
pub open spec fn std_extension(path: Seq<char>) -> Option<Seq<char>> {
    match std_file_name(path) {
        Some(name) => if last_dot(name) <= 0 {
            None
        } else {
            Some(name.subrange(last_dot(name) + 1, name.len() as int))
        },
        None => None,
    }
}

/// `Path::with_file_name` of a path and a name.
pub uninterp spec fn std_with_file_name(path: Seq<char>, name: Seq<char>) -> Seq<char>;

/// The last component of `path` (std's `Path::file_name`), as text. A path
/// given as `&str` is valid UTF-8, and so is each of its components.
#[verifier::external_body]
pub(crate) fn file_name_of(path: &str) -> (r: Option<String>)
    ensures
        match r {
            Some(name) => std_file_name(path@) == Some(name@),
            None => std_file_name(path@) is None,
        },
{
    std::path::Path::new(path).file_name().map(|name| name.to_string_lossy().into_owned())
}

/// The file name of `path` without its extension (std's `Path::file_stem`).
#[verifier::external_body]
pub(crate) fn file_stem_of(path: &str) -> (r: Option<String>)
    ensures
        match r {
            Some(stem) => std_file_stem(path@) == Some(stem@),
            None => std_file_stem(path@) is None,
        },
{
    std::path::Path::new(path).file_stem().map(|stem| stem.to_string_lossy().into_owned())
}

/// The extension of `path` (std's `Path::extension`), as text.
#[verifier::external_body]
pub(crate) fn extension_of(path: &str) -> (r: Option<String>)
    ensures
        match r {
            Some(e) => std_extension(path@) == Some(e@),
            None => std_extension(path@) is None,
        },
{
    std::path::Path::new(path).extension().map(|e| e.to_string_lossy().into_owned())
}

/// `path` with its last component replaced by `name` (std's `Path::with_file_name`).
#[verifier::external_body]
pub(crate) fn with_file_name_of(path: &str, name: &str) -> (r: String)
    ensures
        r@ == std_with_file_name(path@, name@),
{
    std::path::Path::new(path).with_file_name(name).to_string_lossy().into_owned()
}

/// Whether two paths are equal as std's `Path` compares them (component by
/// component).
pub uninterp spec fn std_path_eq(a: Seq<char>, b: Seq<char>) -> bool;

/// Compares two paths with std's `Path` equality; equal texts have equal
/// components, so they compare equal.
#[verifier::external_body]
pub(crate) fn paths_equal(a: &str, b: &str) -> (r: bool)
    ensures
        r == std_path_eq(a@, b@),
        a@ == b@ ==> r,
{
    std::path::Path::new(a) == std::path::Path::new(b)
}

/// Whether `path` lies under `base` as std's `Path::starts_with` decides it
/// (whole components only).
pub uninterp spec fn std_path_starts_with(path: Seq<char>, base: Seq<char>) -> bool;

/// std's `Path::starts_with`: whether `base` is a prefix of `path` by components.
#[verifier::external_body]
pub(crate) fn path_starts_with(path: &str, base: &str) -> (r: bool)
    ensures
        r == std_path_starts_with(path@, base@),
{
    std::path::Path::new(path).starts_with(base)
}

/// Whether `a` orders before `b` as std's `Path` ordering decides it
/// (component by component).
pub uninterp spec fn std_path_lt(a: Seq<char>, b: Seq<char>) -> bool;

/// std's `<` on `Path`, a total order consistent with `Path` equality: a path
/// that orders before another never also orders after it, and of two paths
/// neither before the other, each equals the other.
#[verifier::external_body]
pub(crate) fn path_less(a: &str, b: &str) -> (r: bool)
    ensures
        r == std_path_lt(a@, b@),
        r ==> !std_path_lt(b@, a@),
        !r ==> std_path_lt(b@, a@) || (std_path_eq(a@, b@) && std_path_eq(b@, a@)),
{
    std::path::Path::new(a) < std::path::Path::new(b)
}

/// Joining keeps the directory and the name whole, in that order, with
/// exactly one `/` between them when the directory does not already end in
/// one, and nothing else added.
pub proof fn lemma_path_join(base: Seq<char>, child: Seq<char>)
    ensures
        ({
            let p = path_join(base, child);
            let sep: int = if base.len() == 0 || base.last() == '/' { 0 } else { 1 };
            &&& p.len() == base.len() + sep + child.len()
            &&& p.subrange(0, base.len() as int) == base
            &&& p.subrange(p.len() - child.len(), p.len() as int) == child
            &&& sep == 1 ==> p[base.len() as int] == '/'
        }),
{
    let p = path_join(base, child);
    assert(p.subrange(0, base.len() as int) =~= base);
    assert(p.subrange(p.len() - child.len(), p.len() as int) =~= child);
}

} // verus!
