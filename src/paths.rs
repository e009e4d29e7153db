//! Paths as the supervisor sees them: text, joined and compared the way the
//! platform's path type does it.

use vstd::prelude::*;
use vstd::string::*;

verus! {

/// Whether two paths are equal component by component.
pub uninterp spec fn path_eq(a: Seq<char>, b: Seq<char>) -> bool;

/// The path `rel` appended to `base`.
pub uninterp spec fn path_join(base: Seq<char>, rel: Seq<char>) -> Seq<char>;

/// The path without its final component, if it has one.
pub uninterp spec fn parent_of(p: Seq<char>) -> Option<Seq<char>>;

/// Two paths are equal when they are the same text or have the same components.
pub open spec fn equal_paths(a: Seq<char>, b: Seq<char>) -> bool {
    a == b || path_eq(a, b)
}

/// A path is relative when it does not start at the root.
pub open spec fn is_relative_spec(p: Seq<char>) -> bool {
    p.len() == 0 || p[0] != '/'
}

/// Relies on `<std::path::Path as PartialEq>::eq`: paths compare by their
/// components, and (being an `Eq`) every path equals itself.
#[verifier::external_body]
pub(crate) fn same_path(a: &str, b: &str) -> (r: bool)
    ensures
        r == path_eq(a@, b@),
        a@ == b@ ==> r,
{
    std::path::Path::new(a) == std::path::Path::new(b)
}

/// Relies on `std::path::Path::join`: `rel` appended to `base` as a new path.
/// Both are valid UTF-8, so the joined path converts back without loss.
#[verifier::external_body]
pub(crate) fn join_path(base: &str, rel: &str) -> (r: String)
    ensures
        r@ == path_join(base@, rel@),
{
    std::path::Path::new(base).join(rel).to_string_lossy().into_owned()
}

/// Relies on `camino::Utf8Path::parent` (as re-exported by cargo_metadata):
/// the path without its final component, or nothing for a root or empty path.
#[verifier::external_body]
pub(crate) fn parent_path(p: &str) -> (r: Option<String>)
    ensures
        match r {
            Some(d) => parent_of(p@) == Some(d@),
            None => parent_of(p@) is None,
        },
{
    cargo_metadata::camino::Utf8Path::new(p).parent().map(|d| d.as_str().to_string())
}

/// Whether `p` is a relative path (on Unix: it does not begin with `/`).
pub fn is_relative(p: &str) -> (r: bool)
    ensures
        r == is_relative_spec(p@),
{
    let n = p.unicode_len();
    if n == 0 {
        true
    } else {
        p.get_char(0) != '/'
    }
}

/// A watch path as given, made absolute against the working directory when it
/// is relative.
pub open spec fn resolved_watch(cwd: Seq<char>, watch: Seq<char>) -> Seq<char> {
    if is_relative_spec(watch) {
        path_join(cwd, watch)
    } else {
        watch
    }
}

/// Resolves a configured watch path against the working directory.
pub fn resolve_watch(cwd: &str, watch: &str) -> (r: String)
    ensures
        r@ == resolved_watch(cwd@, watch@),
{
    if is_relative(watch) {
        join_path(cwd, watch)
    } else {
        watch.to_string()
    }
}

} // verus!
