//! Expansion of directory targets into a file search pattern.

use vstd::prelude::*;
use vstd::string::*;
use crate::resolve::FatalError;

verus! {

/// Whether glob accepts `s` as a pattern.
pub uninterp spec fn glob_pattern_accepted(s: Seq<char>) -> bool;

/// Relies on glob::Pattern::new: whether a pattern compiles depends on its
/// text alone; a refusal is kept as the error's text.
#[verifier::external_body]
fn compile_pattern(p: &str) -> (r: Result<(), String>)
    ensures
        r is Ok <==> glob_pattern_accepted(p@),
{
    match glob::Pattern::new(p) {
        Ok(_) => Ok(()),
        Err(e) => Err(e.to_string()),
    }
}

/// The pattern searched under directory `dir`: the directory, a slash, and
/// the configured file pattern.
pub open spec fn joined_pattern(dir: Seq<char>, pattern: Seq<char>) -> Seq<char> {
    dir + "/"@ + pattern
}

/// The search result for `joined` once glob has judged it: the pattern when
/// it compiled, otherwise a fatal error carrying glob's reason.
pub fn pattern_outcome(joined: String, compiled: Result<(), String>) -> (r: Result<String, FatalError>)
    ensures
        compiled is Ok ==> r == Ok::<String, FatalError>(joined),
        compiled matches Err(m) ==> r == Err::<String, FatalError>(FatalError::InvalidPattern(m)),
{
    match compiled {
        Ok(()) => Ok(joined),
        Err(m) => Err(FatalError::InvalidPattern(m)),
    }
}

/// The glob pattern that finds the files of directory target `dir`. A
/// pattern glob refuses is fatal to the whole run.
pub fn search_pattern(dir: &str, pattern: &str) -> (r: Result<String, FatalError>)
    ensures
        r is Ok <==> glob_pattern_accepted(joined_pattern(dir@, pattern@)),
        r matches Ok(s) ==> s@ == joined_pattern(dir@, pattern@),
        r matches Err(e) ==> e is InvalidPattern,
{
    let joined = String::from_str(dir).concat("/").concat(pattern);
    let compiled = compile_pattern(joined.as_str());
    pattern_outcome(joined, compiled)
}

/// How the file system classified a target.
#[derive(Clone, Copy, Debug, PartialEq, Eq, Structural)]
pub enum TargetKind {
    File,
    Directory,
}

/// The work one target gives.
#[derive(Clone, Debug, PartialEq, Eq)]
pub enum TargetPlan {
    /// Lint this one file.
    LintFile(String),
    /// Lint every file matching this glob pattern.
    Search(String),
}

/// Decides what a target of the given kind turns into: a file is linted as it
/// is, a directory is searched with `pattern` below it.
pub fn plan_target(target: &str, kind: TargetKind, pattern: &str) -> (r: Result<TargetPlan, FatalError>)
    ensures
        kind is File ==> (r matches Ok(TargetPlan::LintFile(f)) && f@ == target@),
        kind is Directory ==> (r is Ok <==> glob_pattern_accepted(joined_pattern(target@, pattern@))),
        kind is Directory ==> (r matches Ok(p) ==> (p matches TargetPlan::Search(g) && g@ == joined_pattern(target@, pattern@))),
        r matches Err(e) ==> e is InvalidPattern,
{
    match kind {
        TargetKind::File => Ok(TargetPlan::LintFile(String::from_str(target))),
        TargetKind::Directory => match search_pattern(target, pattern) {
            Ok(g) => Ok(TargetPlan::Search(g)),
            Err(e) => Err(e),
        },
    }
}

} // verus!
