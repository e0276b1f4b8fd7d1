//! Linux: `xdg-open`, a named program, and a reveal that falls back from the
//! D-Bus file-manager interface through known file managers to opening the
//! parent folder.
use vstd::prelude::*;
use vstd::string::{StrSliceExecFns, StringExecFns};
use crate::command::{lemma_all_fail, Cascade, Invocation, InvocationView, Outcome, CascadeState, Status, call, run};
use crate::error::{ErrorKind, join, join4, open_rejected, open_with_rejected, reveal_rejected};

verus! {

pub open spec fn has_file_scheme(path: Seq<char>) -> bool {
    path.len() >= 7 && path.subrange(0, 7) == "file://"@
}

/// The URI sent over D-Bus: the path itself when it already is a `file://`
/// URI, else `file://` before the canonical path, or before the path as
/// given when it could not be made canonical.
pub open spec fn file_uri_of(path: Seq<char>, canonical: Option<Seq<char>>) -> Seq<char> {
    if has_file_scheme(path) {
        path
    } else {
        match canonical {
            Some(c) => "file://"@ + c,
            None => "file://"@ + path,
        }
    }
}

/// The text held by an optional string.
pub open spec fn text_of(s: Option<String>) -> Option<Seq<char>> {
    match s {
        Some(t) => Some(t@),
        None => None,
    }
}

pub open spec fn show_items_call(uri: Seq<char>) -> InvocationView {
    call(
        "dbus-send"@,
        seq![
            "--session"@,
            "--dest=org.freedesktop.FileManager1"@,
            "--type=method_call"@,
            "/org/freedesktop/FileManager1"@,
            "org.freedesktop.FileManager1.ShowItems"@,
            "array:string:"@ + uri,
            "string:"@,
        ],
    )
}

/// The reveal attempts in order: D-Bus, Nautilus, Dolphin, Nemo, and
/// `xdg-open` on the folder.
pub open spec fn reveal_plan(path: Seq<char>, uri: Seq<char>, folder: Seq<char>) -> Seq<InvocationView> {
    seq![
        show_items_call(uri),
        call("nautilus"@, seq!["--select"@, path]),
        call("dolphin"@, seq!["--select"@, path]),
        call("nemo"@, seq![path]),
        call("xdg-open"@, seq![folder]),
    ]
}

/// Whether `path` starts with `file://`.
pub fn is_file_uri(path: &str) -> (r: bool)
    ensures
        r == has_file_scheme(path@),
{
    if path.unicode_len() < 7 {
        return false;
    }
    let head = String::from_str(path.substring_char(0, 7));
    let scheme = String::from_str("file://");
    head == scheme
}

/// Builds the `file://` URI for `path`; `canonical` is the path made
/// absolute with symbolic links resolved, where that could be done.
pub fn file_uri(path: &str, canonical: Option<String>) -> (r: String)
    ensures
        r@ == file_uri_of(path@, text_of(canonical)),
{
    if is_file_uri(path) {
        String::from_str(path)
    } else {
        match canonical {
            Some(c) => join("file://", c.as_str()),
            None => join("file://", path),
        }
    }
}

/// Relies on std::path::Path::parent: the path without its final
/// component, or `None` for a root, a prefix or the empty string.
#[verifier::external_body]
fn parent_dir(path: &str) -> (r: Option<String>)
    ensures
        path@.len() == 0 ==> r is None,
{
    std::path::Path::new(path).parent().map(|p| p.to_string_lossy().into_owned())
}

/// Opens `path` with `xdg-open`.
pub fn open(path: &str) -> (r: Cascade)
    ensures
        r.wf(),
        r.state() == run(1, seq![]),
        r.attempts() == seq![call("xdg-open"@, seq![path@])],
        r.subject() == path@,
        r.rejected() == open_rejected(path@),
{
    let mut attempts: Vec<Invocation> = Vec::new();
    attempts.push(Invocation::with1("xdg-open", path));
    let r = Cascade::new(attempts, path, join("Failed to open path: ", path));
    assert(r.attempts() =~= seq![call("xdg-open"@, seq![path@])]);
    r
}

/// Reveals `path` given the folder to open when every file manager failed.
pub fn reveal_in(path: &str, canonical: Option<String>, folder: &str) -> (r: Cascade)
    ensures
        r.wf(),
        r.state() == run(5, seq![]),
        r.attempts() == reveal_plan(path@, file_uri_of(path@, text_of(canonical)), folder@),
        r.subject() == path@,
        r.rejected() == reveal_rejected(path@),
{
    let uri = file_uri(path, canonical);
    let mut dbus = Invocation::with3(
        "dbus-send",
        "--session",
        "--dest=org.freedesktop.FileManager1",
        "--type=method_call",
    );
    dbus.push_arg("/org/freedesktop/FileManager1");
    dbus.push_arg("org.freedesktop.FileManager1.ShowItems");
    let items = join("array:string:", uri.as_str());
    dbus.push_arg(items.as_str());
    dbus.push_arg("string:");
    assert(dbus.view().args =~= show_items_call(uri@).args);
    let mut attempts: Vec<Invocation> = Vec::new();
    attempts.push(dbus);
    attempts.push(Invocation::with2("nautilus", "--select", path));
    attempts.push(Invocation::with2("dolphin", "--select", path));
    attempts.push(Invocation::with1("nemo", path));
    attempts.push(Invocation::with1("xdg-open", folder));
    let r = Cascade::new(attempts, path, join("Failed to reveal path: ", path));
    assert(r.attempts() =~= reveal_plan(path@, uri@, folder@));
    r
}

/// Reveals `path` in the file manager. `canonical` is the path made
/// absolute with symbolic links resolved, where that could be done; the
/// last resort opens the parent folder, or the path itself when it has no
/// parent.
pub fn reveal_path(path: &str, canonical: Option<String>) -> (r: Cascade)
    ensures
        r.wf(),
        r.state() == run(5, seq![]),
        exists|folder: Seq<char>|
            r.attempts() == reveal_plan(path@, file_uri_of(path@, text_of(canonical)), folder),
        path@.len() == 0 ==> r.attempts() == reveal_plan(path@, file_uri_of(path@, text_of(canonical)), path@),
        r.subject() == path@,
        r.rejected() == reveal_rejected(path@),
{
    let r = match parent_dir(path) {
        Some(p) => reveal_in(path, canonical, p.as_str()),
        None => reveal_in(path, canonical, path),
    };
    r
}

/// Opens `path` with the program `app`, found on the search path or given
/// as an absolute path.
pub fn open_with(path: &str, app: &str) -> (r: Cascade)
    ensures
        r.wf(),
        r.state() == run(1, seq![]),
        r.attempts() == seq![call(app@, seq![path@])],
        r.subject() == path@,
        r.rejected() == open_with_rejected(path@, app@),
{
    let mut attempts: Vec<Invocation> = Vec::new();
    attempts.push(Invocation::with1(app, path));
    let r = Cascade::new(attempts, path, join4("Failed to open ", path, " with ", app));
    assert(r.attempts() =~= seq![call(app@, seq![path@])]);
    r
}

/// Opening with a program that cannot be started fails with a spawn
/// failure after that single attempt: the cascade of `open_with` holds the
/// program alone, so no other program, `xdg-open` included, is tried.
pub proof fn lemma_missing_app_spawn_failure(path: Seq<char>, app: Seq<char>, c: Cascade)
    requires
        c.attempts() == seq![call(app, seq![path])],
    ensures
        run(c.attempts().len(), seq![Outcome::NotStarted]) == (CascadeState {
            len: 1,
            current: 0,
            status: Status::Failed(ErrorKind::SpawnFailure),
        }),
{
    lemma_all_fail(1, seq![Outcome::NotStarted]);
}

} // verus!
