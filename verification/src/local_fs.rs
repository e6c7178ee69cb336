//! The local file system as a media source: which directory entries are
//! media files to scan.
use vstd::prelude::*;

use crate::domain::MediaSourceKind;
use crate::paths::{extension_of, path_extension};
use crate::text::{chars_eq, chars_of, lowercase_of, string_of, to_lowercase};

verus! {

/// Media found on a local (or mounted) file system.
pub struct LocalFileSystemSource;

/// `s` without its leading dots (`str::trim_start_matches('.')`).
pub open spec fn trim_leading_dots(s: Seq<char>) -> Seq<char>
    decreases s.len(),
{
    if s.len() > 0 && s[0] == '.' {
        trim_leading_dots(s.drop_first())
    } else {
        s
    }
}

/// The form in which a supported extension is compared: without leading
/// dots, lowercased.
pub open spec fn normalized_extension(ext: Seq<char>) -> Seq<char> {
    lowercase_of(trim_leading_dots(ext))
}

/// The lowercased extension of a directory entry when the entry is a media
/// file to scan: not a directory, not hidden (its name does not start with
/// a dot), with an extension among the normalized `extensions`.
pub open spec fn candidate_extension_of(
    is_dir: bool,
    file_name: Seq<char>,
    path: Seq<char>,
    extensions: Seq<Seq<char>>,
) -> Option<Seq<char>> {
    if is_dir || (file_name.len() > 0 && file_name[0] == '.') {
        None
    } else {
        match extension_of(path) {
            Some(e) => if extensions.contains(lowercase_of(e)) {
                Some(lowercase_of(e))
            } else {
                None
            },
            None => None,
        }
    }
}

proof fn lemma_trim_leading_dots_skip(s: Seq<char>, i: int)
    requires
        0 <= i <= s.len(),
        forall|j: int| 0 <= j < i ==> s[j] == '.',
    ensures
        trim_leading_dots(s) == trim_leading_dots(s.skip(i)),
    decreases i,
{
    if i > 0 {
        assert(s.skip(1) =~= s.drop_first());
        lemma_trim_leading_dots_skip(s.drop_first(), i - 1);
        assert(s.drop_first().skip(i - 1) =~= s.skip(i));
    } else {
        assert(s.skip(0) =~= s);
    }
}

/// `s` without its leading dots.
fn trim_dots(s: &str) -> (r: String)
    ensures
        r@ == trim_leading_dots(s@),
{
    let v = chars_of(s);
    let mut i: usize = 0;
    while i < v.len() && v[i] == '.'
        invariant
            0 <= i <= v.len(),
            v@ == s@,
            forall|j: int| 0 <= j < i ==> v@[j] == '.',
        decreases v.len() - i,
    {
        i = i + 1;
    }
    proof {
        lemma_trim_leading_dots_skip(v@, i as int);
    }
    let rest = vstd::slice::slice_subrange(v.as_slice(), i, v.len());
    assert(rest@ =~= v@.skip(i as int));
    string_of(rest)
}

impl LocalFileSystemSource {
    /// The local file system source.
    pub fn new() -> (r: LocalFileSystemSource) {
        LocalFileSystemSource
    }

    /// The kind of this source.
    pub fn kind(&self) -> (r: MediaSourceKind)
        ensures
            r == MediaSourceKind::Local,
    {
        MediaSourceKind::Local
    }

    /// The supported extensions in the form in which entries are compared
    /// with them.
    pub fn normalize_extensions(supported: &[&str]) -> (r: Vec<String>)
        ensures
            r.len() == supported.len(),
            forall|i: int| 0 <= i < r.len() ==> #[trigger] r@[i]@ == normalized_extension(
                supported@[i]@,
            ),
    {
        let mut out: Vec<String> = Vec::new();
        let mut i: usize = 0;
        while i < supported.len()
            invariant
                0 <= i <= supported.len(),
                out.len() == i,
                forall|k: int| 0 <= k < i ==> #[trigger] out@[k]@ == normalized_extension(
                    supported@[k]@,
                ),
            decreases supported.len() - i,
        {
            let trimmed = trim_dots(supported[i]);
            out.push(to_lowercase(trimmed.as_str()));
            i = i + 1;
        }
        out
    }

    /// Decides whether a directory entry is a media file to scan, given
    /// whether it is a directory, its file name, its path and the normalized
    /// supported extensions; returns its lowercased extension when it is.
    pub fn candidate_extension(
        &self,
        is_dir: bool,
        file_name: &str,
        path: &str,
        extensions: &[String],
    ) -> (r: Option<String>)
        ensures
            match candidate_extension_of(
                is_dir,
                file_name@,
                path@,
                extensions@.map_values(|e: String| e@),
            ) {
                Some(e) => r matches Some(x) && x@ == e,
                None => r is None,
            },
    {
        let ghost exts = extensions@.map_values(|e: String| e@);
        if is_dir {
            return None;
        }
        let name = chars_of(file_name);
        if name.len() > 0 && name[0] == '.' {
            return None;
        }
        let ext = match path_extension(path) {
            Some(e) => e,
            None => {
                return None;
            },
        };
        let lower = to_lowercase(ext.as_str());
        let l = chars_of(lower.as_str());
        let mut i: usize = 0;
        while i < extensions.len()
            invariant
                0 <= i <= extensions.len(),
                l@ == lower@,
                lower@ == lowercase_of(ext@),
                extension_of(path@) == Some(ext@),
                !is_dir,
                !(file_name@.len() > 0 && file_name@[0] == '.'),
                exts == extensions@.map_values(|e: String| e@),
                forall|k: int| 0 <= k < i ==> exts[k] != l@,
            decreases extensions.len() - i,
        {
            let e = chars_of(extensions[i].as_str());
            if chars_eq(e.as_slice(), l.as_slice()) {
                assert(exts[i as int] == l@);
                assert(exts.contains(l@));
                return Some(lower);
            }
            i = i + 1;
        }
        assert(!exts.contains(l@));
        None
    }
}

} // verus!
