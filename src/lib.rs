//! Open a path with the desktop's default handler, reveal it in the file
//! manager, or open it with a named application, on Windows, macOS and Linux.
//!
//! The library decides what to ask of the platform and what the answers mean;
//! the caller performs each request (spawning a process, calling the shell)
//! and reports its outcome back.
use vstd::prelude::*;

pub mod command;
pub mod error;
pub mod linux_impl;
pub mod macos_impl;
pub mod windows_impl;

use crate::command::{Cascade, call, run};
use crate::error::{
    ErrorKind, OpenError, open_rejected, open_with_rejected, path_missing, path_missing_message, reveal_rejected,
};
use crate::linux_impl::{file_uri_of, reveal_plan, text_of};
use crate::windows_impl::{ComReveal, SW_SHOW, ShellCall, reveal_run, utf16_of};

verus! {

/// The desktop whose shell the operations address, fixed when the program
/// is built.
#[derive(Clone, Copy, Debug, PartialEq, Eq, Structural)]
pub enum Platform {
    Windows,
    MacOs,
    Linux,
}

/// What the caller has to perform for an operation that passed validation.
pub enum Launch {
    /// Programs to run in turn until one succeeds (macOS, Linux).
    Commands(Cascade),
    /// One call of the shell's execute function (Windows).
    Shell(ShellCall),
    /// The COM-bracketed select-items sequence (Windows).
    Explorer(ComReveal),
}

/// A fresh cascade of the given attempts and rejection message.
pub open spec fn fresh(
    c: Cascade,
    attempts: Seq<command::InvocationView>,
    subject: Seq<char>,
    rejected: Seq<char>,
) -> bool {
    &&& c.wf()
    &&& c.subject() == subject
    &&& c.state() == run(attempts.len(), seq![])
    &&& c.attempts() == attempts
    &&& c.rejected() == rejected
}

/// A shell call of the `open` verb on `file` with `parameters`.
pub open spec fn shell_open(
    s: ShellCall,
    file: Seq<char>,
    parameters: Option<Seq<char>>,
    rejected: Seq<char>,
) -> bool {
    &&& s.verb@ == utf16_of("open"@).push(0u16)
    &&& s.file@ == utf16_of(file).push(0u16)
    &&& match parameters {
        Some(p) => s.parameters matches Some(q) && q@ == utf16_of(p).push(0u16),
        None => s.parameters is None,
    }
    &&& s.show == SW_SHOW
    &&& s.rejected@ == rejected
}

/// The launch that opens `path` on `platform`.
pub open spec fn opens(platform: Platform, path: Seq<char>, l: Launch) -> bool {
    match (platform, l) {
        (Platform::Linux, Launch::Commands(c)) => fresh(c, seq![call("xdg-open"@, seq![path])], path, open_rejected(path)),
        (Platform::MacOs, Launch::Commands(c)) => fresh(c, seq![call("open"@, seq![path])], path, open_rejected(path)),
        (Platform::Windows, Launch::Shell(s)) => shell_open(s, path, None, open_rejected(path)),
        _ => false,
    }
}

/// The launch that reveals `path` on `platform`.
pub open spec fn reveals(platform: Platform, path: Seq<char>, canonical: Option<Seq<char>>, l: Launch) -> bool {
    match (platform, l) {
        (Platform::Linux, Launch::Commands(c)) => exists|folder: Seq<char>|
            fresh(c, reveal_plan(path, file_uri_of(path, canonical), folder), path, reveal_rejected(path)),
        (Platform::MacOs, Launch::Commands(c)) => fresh(
            c,
            seq![call("open"@, seq!["-R"@, path])],
            path,
            reveal_rejected(path),
        ),
        (Platform::Windows, Launch::Explorer(x)) => {
            &&& x.stage() == reveal_run(seq![])
            &&& x.name() == utf16_of(path).push(0u16)
            &&& x.path() == path
        },
        _ => false,
    }
}

/// The launch that opens `path` with `app` on `platform`.
pub open spec fn opens_with(platform: Platform, path: Seq<char>, app: Seq<char>, l: Launch) -> bool {
    match (platform, l) {
        (Platform::Linux, Launch::Commands(c)) => fresh(
            c,
            seq![call(app, seq![path])],
            path,
            open_with_rejected(path, app),
        ),
        (Platform::MacOs, Launch::Commands(c)) => fresh(
            c,
            seq![call("open"@, seq!["-a"@, app, path])],
            path,
            open_with_rejected(path, app),
        ),
        (Platform::Windows, Launch::Shell(s)) => shell_open(s, app, Some(path), open_with_rejected(path, app)),
        _ => false,
    }
}

/// Opens `path` with the desktop's default handler, or a folder in the file
/// manager. `exists` tells whether the path exists now; when it does not,
/// the error comes before anything is asked of the platform.
pub fn open(platform: Platform, path: &str, exists: bool) -> (r: Result<Launch, OpenError>)
    ensures
        r is Err <==> !exists,
        r matches Err(e) ==> e.kind == ErrorKind::PathMissing && e.message@ == path_missing_message(path@),
        r matches Ok(l) ==> opens(platform, path@, l),
{
    if !exists {
        return Err(path_missing(path));
    }
    match platform {
        Platform::Windows => Ok(Launch::Shell(windows_impl::open(path))),
        Platform::MacOs => Ok(Launch::Commands(macos_impl::open(path))),
        Platform::Linux => Ok(Launch::Commands(linux_impl::open(path))),
    }
}

/// Shows the folder that holds `path` in the file manager, with `path`
/// selected. `canonical` is the path made absolute with links resolved,
/// where that could be done; only the Linux D-Bus request reads it.
pub fn reveal_path(platform: Platform, path: &str, exists: bool, canonical: Option<String>) -> (r: Result<
    Launch,
    OpenError,
>)
    ensures
        r is Err <==> !exists,
        r matches Err(e) ==> e.kind == ErrorKind::PathMissing && e.message@ == path_missing_message(path@),
        r matches Ok(l) ==> reveals(platform, path@, text_of(canonical), l),
{
    if !exists {
        return Err(path_missing(path));
    }
    match platform {
        Platform::Windows => Ok(Launch::Explorer(windows_impl::reveal_path(path))),
        Platform::MacOs => Ok(Launch::Commands(macos_impl::reveal_path(path))),
        Platform::Linux => Ok(Launch::Commands(linux_impl::reveal_path(path, canonical))),
    }
}

/// Opens `path` with the application `app`.
pub fn open_with(platform: Platform, path: &str, app: &str, exists: bool) -> (r: Result<Launch, OpenError>)
    ensures
        r is Err <==> !exists,
        r matches Err(e) ==> e.kind == ErrorKind::PathMissing && e.message@ == path_missing_message(path@),
        r matches Ok(l) ==> opens_with(platform, path@, app@, l),
{
    if !exists {
        return Err(path_missing(path));
    }
    match platform {
        Platform::Windows => Ok(Launch::Shell(windows_impl::open_with(path, app))),
        Platform::MacOs => Ok(Launch::Commands(macos_impl::open_with(path, app))),
        Platform::Linux => Ok(Launch::Commands(linux_impl::open_with(path, app))),
    }
}

} // verus!
