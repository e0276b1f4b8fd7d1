//! macOS: every operation is one run of the `open` launcher.
use vstd::prelude::*;
use crate::command::{Cascade, Invocation, call, run};
use crate::error::{join, join4, open_rejected, open_with_rejected, reveal_rejected};

verus! {

/// Opens `path` with `open <path>`.
pub fn open(path: &str) -> (r: Cascade)
    ensures
        r.wf(),
        r.state() == run(1, seq![]),
        r.attempts() == seq![call("open"@, seq![path@])],
        r.subject() == path@,
        r.rejected() == open_rejected(path@),
{
    let mut attempts: Vec<Invocation> = Vec::new();
    attempts.push(Invocation::with1("open", path));
    let r = Cascade::new(attempts, path, join("Failed to open path: ", path));
    assert(r.attempts() =~= seq![call("open"@, seq![path@])]);
    r
}

/// Reveals `path` in Finder with `open -R <path>`.
pub fn reveal_path(path: &str) -> (r: Cascade)
    ensures
        r.wf(),
        r.state() == run(1, seq![]),
        r.attempts() == seq![call("open"@, seq!["-R"@, path@])],
        r.subject() == path@,
        r.rejected() == reveal_rejected(path@),
{
    let mut attempts: Vec<Invocation> = Vec::new();
    attempts.push(Invocation::with2("open", "-R", path));
    let r = Cascade::new(attempts, path, join("Failed to reveal path: ", path));
    assert(r.attempts() =~= seq![call("open"@, seq!["-R"@, path@])]);
    r
}

/// Opens `path` with the application `app` (a display name or a bundle
/// identifier) through `open -a <app> <path>`.
pub fn open_with(path: &str, app: &str) -> (r: Cascade)
    ensures
        r.wf(),
        r.state() == run(1, seq![]),
        r.attempts() == seq![call("open"@, seq!["-a"@, app@, path@])],
        r.subject() == path@,
        r.rejected() == open_with_rejected(path@, app@),
{
    let mut attempts: Vec<Invocation> = Vec::new();
    attempts.push(Invocation::with3("open", "-a", app, path));
    let r = Cascade::new(attempts, path, join4("Failed to open ", path, " with ", app));
    assert(r.attempts() =~= seq![call("open"@, seq!["-a"@, app@, path@])]);
    r
}

} // verus!
