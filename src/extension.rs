//! Telling image files by their extension, ignoring ASCII case.
use vstd::prelude::*;

verus! {

/// The extension that `std::path::Path::extension` finds in a path: the part
/// of its file name after the last dot, if there is one that does not start it.
pub uninterp spec fn path_extension(path: Seq<char>) -> Option<Seq<char>>;

/// A character with ASCII upper case letters made lower case.
pub open spec fn ascii_lower(c: char) -> int {
    if 'A' <= c <= 'Z' {
        (c as int) + 32
    } else {
        c as int
    }
}

/// Whether `a` and `b` are equal up to ASCII case.
pub open spec fn ascii_eq_ignore_case(a: Seq<char>, b: Seq<char>) -> bool {
    &&& a.len() == b.len()
    &&& forall|i: int| 0 <= i < a.len() ==> #[trigger] ascii_lower(a[i]) == ascii_lower(b[i])
}

/// Whether extension `ext` is present and equal, up to ASCII case, to one of `list`.
pub open spec fn extension_listed(ext: Option<Seq<char>>, list: Seq<&str>) -> bool {
    match ext {
        Some(e) => exists|i: int| 0 <= i < list.len() && ascii_eq_ignore_case(#[trigger] list[i]@, e),
        None => false,
    }
}

/// Relies on `std::path::Path::extension`: the extension of `path`, when it is
/// valid UTF-8.
#[verifier::external_body]
fn extension_of(path: &str) -> (r: Option<&str>)
    ensures
        match r {
            Some(e) => path_extension(path@) == Some(e@),
            None => path_extension(path@) is None,
        },
{
    std::path::Path::new(path).extension().and_then(|e| e.to_str())
}

/// Relies on `str::eq_ignore_ascii_case`, which compares the two strings with
/// ASCII letters made lower case.
#[verifier::external_body]
fn same_ignoring_case(a: &str, b: &str) -> (r: bool)
    ensures
        r == ascii_eq_ignore_case(a@, b@),
{
    a.eq_ignore_ascii_case(b)
}

/// Paths whose file extension can be checked against a list.
pub trait FileExtension {
    /// The path as text.
    spec fn path_text(&self) -> Seq<char>;

    /// Whether the path has one of `extensions`, ignoring ASCII case.
    fn has_extension(&self, extensions: &[&str]) -> (r: bool)
        ensures
            r == extension_listed(path_extension(self.path_text()), extensions@),
    ;
}

impl FileExtension for str {
    open spec fn path_text(&self) -> Seq<char> {
        self@
    }

    fn has_extension(&self, extensions: &[&str]) -> (r: bool) {
        let ext = match extension_of(self) {
            Some(e) => e,
            None => return false,
        };
        let mut i: usize = 0;
        while i < extensions.len()
            invariant
                i <= extensions@.len(),
                path_extension(self@) == Some(ext@),
                forall|j: int| 0 <= j < i ==> !ascii_eq_ignore_case(#[trigger] extensions@[j]@, ext@),
            decreases extensions@.len() - i,
        {
            if same_ignoring_case(extensions[i], ext) {
                return true;
            }
            i = i + 1;
        }
        false
    }
}

} // verus!
