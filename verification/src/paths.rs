//! File-name parts of paths given as text (`std::path::Path`).
use vstd::prelude::*;

verus! {

/// What `Path::extension` returns for a path with the given characters.
pub uninterp spec fn extension_of(path: Seq<char>) -> Option<Seq<char>>;

/// What `Path::file_stem` returns for a path with the given characters.
pub uninterp spec fn file_stem_of(path: Seq<char>) -> Option<Seq<char>>;

/// What `Path::file_name` returns for a path with the given characters.
pub uninterp spec fn file_name_of(path: Seq<char>) -> Option<Seq<char>>;

/// What `Path::parent` returns for a path with the given characters.
pub uninterp spec fn parent_of(path: Seq<char>) -> Option<Seq<char>>;

/// What `Path::join` followed by `to_string_lossy` returns for a base path
/// and a relative name given as text.
pub uninterp spec fn joined(base: Seq<char>, name: Seq<char>) -> Seq<char>;

/// `Path::new(path).parent()`, as text.
///
/// Trusted: the result is named `parent_of`; a parent of a path given as
/// `&str` always converts back to text.
#[verifier::external_body]
pub(crate) fn path_parent(path: &str) -> (r: Option<String>)
    ensures
        match parent_of(path@) {
            Some(e) => r matches Some(x) && x@ == e,
            None => r is None,
        },
{
    match std::path::Path::new(path).parent() {
        Some(e) => match e.to_str() {
            Some(x) => Some(x.to_owned()),
            None => None,
        },
        None => None,
    }
}

/// `Path::new(base).join(name)`, as text.
///
/// Trusted: the result is named `joined`; how separators are inserted is
/// left unsaid.
#[verifier::external_body]
pub(crate) fn path_join(base: &str, name: &str) -> (r: String)
    ensures
        r@ == joined(base@, name@),
{
    std::path::Path::new(base).join(name).to_string_lossy().to_string()
}

/// `Path::new(path).extension()`, as text.
///
/// Trusted: the result is named `extension_of`; how the last component is
/// found and split is left unsaid.  A path given as `&str` is valid UTF-8, so
/// its extension always converts back to text.
#[verifier::external_body]
pub(crate) fn path_extension(path: &str) -> (r: Option<String>)
    ensures
        match extension_of(path@) {
            Some(e) => r matches Some(x) && x@ == e,
            None => r is None,
        },
{
    match std::path::Path::new(path).extension() {
        Some(e) => match e.to_str() {
            Some(x) => Some(x.to_owned()),
            None => None,
        },
        None => None,
    }
}

/// `Path::new(path).file_stem()`, as text.
///
/// Trusted: the result is named `file_stem_of`.
#[verifier::external_body]
pub(crate) fn path_file_stem(path: &str) -> (r: Option<String>)
    ensures
        match file_stem_of(path@) {
            Some(e) => r matches Some(x) && x@ == e,
            None => r is None,
        },
{
    match std::path::Path::new(path).file_stem() {
        Some(e) => match e.to_str() {
            Some(x) => Some(x.to_owned()),
            None => None,
        },
        None => None,
    }
}

/// `Path::new(path).file_name()`, as text.
///
/// Trusted: the result is named `file_name_of`.
#[verifier::external_body]
pub(crate) fn path_file_name(path: &str) -> (r: Option<String>)
    ensures
        match file_name_of(path@) {
            Some(e) => r matches Some(x) && x@ == e,
            None => r is None,
        },
{
    match std::path::Path::new(path).file_name() {
        Some(e) => match e.to_str() {
            Some(x) => Some(x.to_owned()),
            None => None,
        },
        None => None,
    }
}

} // verus!
