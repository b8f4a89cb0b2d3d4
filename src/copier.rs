//! Copying a screenshot to a target path. The caller checks whether the
//! source exists and hands the answer to [`plan_copy`]; on a go-ahead it
//! creates the directory named there (best effort, its outcome is not
//! reported), copies the file, and hands the copy's outcome to
//! [`finish_copy`] for the reply.
use vstd::prelude::*;
use vstd::string::StringExecFns;

use crate::paths::opt_text;
use crate::paths::parent_dir;
use crate::paths::parent_of;
use crate::resolver::text_result;
use crate::resolver::unit_result;

verus! {

/// What to do with a copy request once it is known whether the source exists.
#[derive(Debug, Clone, PartialEq, Eq)]
pub enum CopyPlan {
    /// Do nothing and reply with this message.
    Reject(String),
    /// Create `make_dir` if there is one, ignoring the outcome, then copy
    /// `source` onto `target`, replacing what is there.
    Copy { make_dir: Option<String>, source: String, target: String },
}

/// The reply to a request whose source file does not exist.
pub open spec fn missing_source_message(source: Seq<char>) -> Seq<char> {
    "Quelldatei nicht gefunden: "@ + source
}

/// The reply to a request whose copy failed with the message `err`.
pub open spec fn copy_failed_message(err: Seq<char>) -> Seq<char> {
    "Kopieren fehlgeschlagen: "@ + err
}

/// The plan for copying `source` onto `target`, given whether the source exists.
pub open spec fn copy_plan_is(plan: CopyPlan, source: Seq<char>, target: Seq<char>, source_exists: bool) -> bool {
    if source_exists {
        plan matches CopyPlan::Copy { make_dir, source: s, target: t } && opt_text(make_dir)
            == parent_of(target) && s@ == source && t@ == target
    } else {
        plan matches CopyPlan::Reject(m) && m@ == missing_source_message(source)
    }
}

/// The reply to a copy onto `target` that came out as `copied`: the target
/// path exactly as given, or the copy's message behind a fixed prefix.
pub open spec fn copy_reply(target: Seq<char>, copied: Result<(), Seq<char>>) -> Result<Seq<char>, Seq<char>> {
    match copied {
        Ok(_) => Ok(target),
        Err(e) => Err(copy_failed_message(e)),
    }
}

/// First step of a copy: reject a request whose source is missing, naming
/// the source; otherwise copy after making the target's parent directory.
pub fn plan_copy(source: String, target: String, source_exists: bool) -> (r: CopyPlan)
    ensures
        copy_plan_is(r, source@, target@, source_exists),
{
    if !source_exists {
        let m = String::from_str("Quelldatei nicht gefunden: ").concat(source.as_str());
        CopyPlan::Reject(m)
    } else {
        let make_dir = parent_dir(target.as_str());
        CopyPlan::Copy { make_dir, source, target }
    }
}

/// Last step of a copy: the reply once the copy onto `target` came out as
/// `copied`.
pub fn finish_copy(target: String, copied: Result<(), String>) -> (r: Result<String, String>)
    ensures
        text_result(r) == copy_reply(target@, unit_result(copied)),
{
    match copied {
        Ok(()) => Ok(target),
        Err(e) => Err(String::from_str("Kopieren fehlgeschlagen: ").concat(e.as_str())),
    }
}

/// A request whose source is missing is rejected with a message that holds
/// the source path, character for character, as one stretch.
pub proof fn lemma_missing_source_is_named(source: Seq<char>, target: Seq<char>, plan: CopyPlan)
    requires
        copy_plan_is(plan, source, target, false),
    ensures
        plan matches CopyPlan::Reject(m) && exists|i: int|
            0 <= i && i + source.len() <= m@.len() && #[trigger] m@.subrange(i, i + source.len())
                == source,
{
    let prefix = "Quelldatei nicht gefunden: "@;
    let m = missing_source_message(source);
    assert(m.subrange(prefix.len() as int, prefix.len() + source.len() as int) =~= source);
}

/// A request whose source exists makes the target's parent directory
/// before it copies, copies the source onto the target itself, and a copy
/// that succeeds is answered with the target path as given.
pub proof fn lemma_copy_creates_parent(
    source: Seq<char>,
    target: Seq<char>,
    plan: CopyPlan,
    copied: Result<(), Seq<char>>,
)
    requires
        copy_plan_is(plan, source, target, true),
    ensures
        plan matches CopyPlan::Copy { make_dir, source: s, target: t } && opt_text(make_dir)
            == parent_of(target) && s@ == source && t@ == target,
        copied is Ok ==> copy_reply(target, copied) == Ok::<Seq<char>, Seq<char>>(target),
        copied is Err ==> copy_reply(target, copied) is Err,
{
}

} // verus!
