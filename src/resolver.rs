//! Resolving the screenshot output directory. The caller asks the host for
//! the document directory, hands the outcome to [`plan_screenshots_dir`],
//! creates the directory that comes back, and hands that outcome to
//! [`finish_screenshots_dir`] for the reply.
use vstd::prelude::*;

use crate::paths::screenshots_dir;
use crate::paths::screenshots_dir_of;

verus! {

/// The text of a string result.
pub open spec fn text_result(r: Result<String, String>) -> Result<Seq<char>, Seq<char>> {
    match r {
        Ok(s) => Ok(s@),
        Err(e) => Err(e@),
    }
}

/// The text of a result that carries nothing on success.
pub open spec fn unit_result(r: Result<(), String>) -> Result<(), Seq<char>> {
    match r {
        Ok(_) => Ok(()),
        Err(e) => Err(e@),
    }
}

/// The directory to create for a document-directory lookup that gave `doc`;
/// where the lookup failed, its message is the reply.
pub open spec fn dir_plan(doc: Result<Seq<char>, Seq<char>>) -> Result<Seq<char>, Seq<char>> {
    match doc {
        Ok(d) => Ok(screenshots_dir_of(d)),
        Err(e) => Err(e),
    }
}

/// The reply once the creation of `dir` came out as `created`: the directory
/// itself, or the creation's message.
pub open spec fn dir_reply(dir: Seq<char>, created: Result<(), Seq<char>>) -> Result<Seq<char>, Seq<char>> {
    match created {
        Ok(_) => Ok(dir),
        Err(e) => Err(e),
    }
}

/// First step of the resolution: `Ok(dir)` is the directory to create (with
/// all missing ancestors), `Err(message)` is the final reply where the
/// document directory could not be determined.
pub fn plan_screenshots_dir(document_dir: Result<String, String>) -> (r: Result<String, String>)
    ensures
        text_result(r) == dir_plan(text_result(document_dir)),
{
    match document_dir {
        Ok(doc) => Ok(screenshots_dir(doc.as_str())),
        Err(e) => Err(e),
    }
}

/// Last step of the resolution: the reply once the creation of `dir` came
/// out as `created`.
pub fn finish_screenshots_dir(dir: String, created: Result<(), String>) -> (r: Result<String, String>)
    ensures
        text_result(r) == dir_reply(dir@, unit_result(created)),
{
    match created {
        Ok(()) => Ok(dir),
        Err(e) => Err(e),
    }
}

/// Resolving twice under one document directory: each time the same
/// directory is created, and each successful reply is that directory, so
/// both replies agree and name a directory whose creation succeeded.
pub proof fn lemma_resolution_is_idempotent(
    doc: Seq<char>,
    first: Result<(), Seq<char>>,
    second: Result<(), Seq<char>>,
)
    ensures
        dir_plan(Ok(doc)) == Ok::<Seq<char>, Seq<char>>(screenshots_dir_of(doc)),
        first is Ok ==> dir_reply(screenshots_dir_of(doc), first) == Ok::<Seq<char>, Seq<char>>(
            screenshots_dir_of(doc),
        ),
        first is Ok && second is Ok ==> dir_reply(screenshots_dir_of(doc), first) == dir_reply(
            screenshots_dir_of(doc),
            second,
        ),
        dir_reply(screenshots_dir_of(doc), first) is Ok ==> first is Ok,
{
}

} // verus!
