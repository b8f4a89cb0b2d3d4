//! Path text: joining a relative segment onto a directory, the fixed
//! screenshot layout under the document directory, and the parent of a path.
use vstd::prelude::*;
use vstd::string::StrSliceExecFns;
use vstd::string::StringExecFns;

verus! {

/// The separator placed between a directory and a segment joined onto it.
pub const SEPARATOR: char = '/';

/// `part` appended to `base` as one more path segment: a separator goes in
/// between unless `base` is empty or already ends in one.
pub open spec fn joined(base: Seq<char>, part: Seq<char>) -> Seq<char> {
    if base.len() == 0 || base.last() == SEPARATOR {
        base + part
    } else {
        base.push(SEPARATOR) + part
    }
}

/// Joins the relative segment `part` onto `base`.
pub fn join_segment(base: &str, part: &str) -> (r: String)
    ensures
        r@ == joined(base@, part@),
{
    let n = base.unicode_len();
    let mut r = String::from_str(base);
    if n > 0 && base.get_char(n - 1) != SEPARATOR {
        r.append("/");
        proof {
            reveal_strlit("/");
        }
    }
    r.append(part);
    proof {
        assert(joined(base@, part@) =~= r@);
    }
    r
}

/// The directory, under the document directory `doc`, that holds the
/// documentation screenshots: `<doc>/PI-Installer/docs/screenshots`.
pub open spec fn screenshots_dir_of(doc: Seq<char>) -> Seq<char> {
    joined(joined(joined(doc, "PI-Installer"@), "docs"@), "screenshots"@)
}

/// The screenshot directory under the document directory `document_dir`.
pub fn screenshots_dir(document_dir: &str) -> (r: String)
    ensures
        r@ == screenshots_dir_of(document_dir@),
{
    let app = join_segment(document_dir, "PI-Installer");
    let docs = join_segment(app.as_str(), "docs");
    join_segment(docs.as_str(), "screenshots")
}

/// The parent of a path as `std::path::Path::parent` computes it on this
/// platform: the path without its final component, where it has one.
pub uninterp spec fn parent_of(path: Seq<char>) -> Option<Seq<char>>;

/// The text of an optional string.
pub open spec fn opt_text(o: Option<String>) -> Option<Seq<char>> {
    match o {
        Some(s) => Some(s@),
        None => None,
    }
}

/// Relies on `std::path::Path::parent`: the result depends on the path text
/// alone, and an empty path has no parent. A parent of a `&str` path is a
/// prefix of it, so it is valid UTF-8 and the conversion loses nothing.
#[verifier::external_body]
pub(crate) fn parent_dir(path: &str) -> (r: Option<String>)
    ensures
        opt_text(r) == parent_of(path@),
        path@.len() == 0 ==> r is None,
{
    std::path::Path::new(path).parent().map(|p| p.to_string_lossy().into_owned())
}

} // verus!
