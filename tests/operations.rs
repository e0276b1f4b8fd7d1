use open_native::command::{Cascade, Outcome};
use open_native::error::ErrorKind;
use open_native::linux_impl::{file_uri, is_file_uri};
use open_native::windows_impl::{to_wide_string, ShellStep, SW_SHOW};
use open_native::{open, open_with, reveal_path, Launch, Platform};

fn wide(s: &str) -> Vec<u16> {
    let mut v: Vec<u16> = s.encode_utf16().collect();
    v.push(0);
    v
}

fn commands(l: Launch) -> Cascade {
    match l {
        Launch::Commands(c) => c,
        _ => panic!("expected programs to run"),
    }
}

/// Runs the cascade with the given outcomes and returns every program line
/// that it asked for, in order.
fn drive(c: &mut Cascade, outcomes: &[Outcome]) -> Vec<Vec<String>> {
    let mut seen = Vec::new();
    for o in outcomes {
        let inv = match c.pending() {
            Some(inv) => inv,
            None => break,
        };
        let mut line = vec![inv.program.clone()];
        line.extend(inv.args.iter().cloned());
        seen.push(line);
        c.record(*o);
    }
    seen
}

fn strs(v: &[&str]) -> Vec<String> {
    v.iter().map(|s| s.to_string()).collect()
}

const OK: Outcome = Outcome::Exited { success: true };
const FAIL: Outcome = Outcome::Exited { success: false };

#[test]
fn linux_open_runs_xdg_open_once() {
    let mut c = commands(open(Platform::Linux, "/tmp/exists.txt", true).unwrap());
    let seen = drive(&mut c, &[OK, OK]);
    assert_eq!(seen, vec![strs(&["xdg-open", "/tmp/exists.txt"])]);
    assert!(c.result().unwrap().is_ok());
}

#[test]
fn linux_reveal_dbus_success_stops_there() {
    let l = reveal_path(Platform::Linux, "/home/u/doc.pdf", true, None).unwrap();
    let mut c = commands(l);
    let seen = drive(&mut c, &[OK, OK, OK]);
    assert_eq!(
        seen,
        vec![strs(&[
            "dbus-send",
            "--session",
            "--dest=org.freedesktop.FileManager1",
            "--type=method_call",
            "/org/freedesktop/FileManager1",
            "org.freedesktop.FileManager1.ShowItems",
            "array:string:file:///home/u/doc.pdf",
            "string:",
        ])]
    );
    assert!(c.result().unwrap().is_ok());
}

#[test]
fn linux_reveal_falls_through_to_dolphin() {
    let l = reveal_path(Platform::Linux, "/home/u/doc.pdf", true, None).unwrap();
    let mut c = commands(l);
    let seen = drive(&mut c, &[FAIL, Outcome::NotStarted, OK, OK, OK]);
    assert_eq!(seen.len(), 3);
    assert_eq!(seen[0][0], "dbus-send");
    assert_eq!(seen[1], strs(&["nautilus", "--select", "/home/u/doc.pdf"]));
    assert_eq!(seen[2], strs(&["dolphin", "--select", "/home/u/doc.pdf"]));
    assert!(c.result().unwrap().is_ok());
}

#[test]
fn linux_reveal_all_fail_opens_parent_then_fails() {
    let l = reveal_path(Platform::Linux, "/home/u/doc.pdf", true, None).unwrap();
    let mut c = commands(l);
    let seen = drive(&mut c, &[FAIL, FAIL, Outcome::NotStarted, FAIL, FAIL, OK]);
    assert_eq!(seen.len(), 5);
    assert_eq!(seen[3], strs(&["nemo", "/home/u/doc.pdf"]));
    assert_eq!(seen[4], strs(&["xdg-open", "/home/u"]));
    let e = c.result().unwrap().unwrap_err();
    assert_eq!(e.kind(), ErrorKind::LaunchRejected);
    assert_eq!(e.message(), "Failed to reveal path: /home/u/doc.pdf");
}

#[test]
fn linux_reveal_xdg_missing_is_spawn_failure() {
    let mut c = commands(reveal_path(Platform::Linux, "/a/b", true, None).unwrap());
    drive(&mut c, &[FAIL, FAIL, FAIL, FAIL, Outcome::NotStarted]);
    let e = c.result().unwrap().unwrap_err();
    assert_eq!(e.kind(), ErrorKind::SpawnFailure);
    assert_eq!(e.message(), "Failed to execute xdg-open for /a/b");
}

#[test]
fn linux_reveal_root_opens_itself() {
    let mut c = commands(reveal_path(Platform::Linux, "/", true, None).unwrap());
    let seen = drive(&mut c, &[FAIL, FAIL, FAIL, FAIL, OK]);
    assert_eq!(seen[4], strs(&["xdg-open", "/"]));
}

#[test]
fn linux_reveal_uses_canonical_path_in_uri() {
    let l = reveal_path(Platform::Linux, "/home/u/link", true, Some("/data/real".to_string())).unwrap();
    let mut c = commands(l);
    let seen = drive(&mut c, &[OK]);
    assert_eq!(seen[0][6], "array:string:file:///data/real");
}

#[test]
fn file_uri_cases() {
    assert_eq!(file_uri("/x y", None), "file:///x y");
    assert_eq!(file_uri("/x", Some("/real/x".to_string())), "file:///real/x");
    assert_eq!(file_uri("file:///already", Some("/other".to_string())), "file:///already");
    assert!(is_file_uri("file://"));
    assert!(!is_file_uri("file:/"));
    assert!(!is_file_uri(""));
}

#[test]
fn missing_path_is_rejected_everywhere() {
    for p in [Platform::Linux, Platform::MacOs, Platform::Windows] {
        let e = reveal_path(p, "/nope", false, None).err().unwrap();
        assert_eq!(e.kind(), ErrorKind::PathMissing);
        assert_eq!(e.message(), "Path does not exist: /nope");
        let e = open(p, "/nope", false).err().unwrap();
        assert_eq!(e.kind(), ErrorKind::PathMissing);
        let e = open_with(p, "/nope", "gedit", false).err().unwrap();
        assert_eq!(e.kind(), ErrorKind::PathMissing);
    }
}

#[test]
fn windows_open_with_shell_call() {
    let s = match open_with(Platform::Windows, "C:\\a.txt", "notepad", true).unwrap() {
        Launch::Shell(s) => s,
        _ => panic!("expected a shell call"),
    };
    assert_eq!(s.verb, wide("open"));
    assert_eq!(s.file, wide("notepad"));
    assert_eq!(s.parameters, Some(wide("C:\\a.txt")));
    assert_eq!(s.show, SW_SHOW);
    assert!(s.result(42).is_ok());
    let e = s.result(0).unwrap_err();
    assert_eq!(e.kind(), ErrorKind::LaunchRejected);
    assert_eq!(e.message(), "Failed to open C:\\a.txt with notepad");
}

#[test]
fn windows_shell_threshold() {
    let s = match open(Platform::Windows, "C:\\b c.txt", true).unwrap() {
        Launch::Shell(s) => s,
        _ => panic!("expected a shell call"),
    };
    assert_eq!(s.file, wide("C:\\b c.txt"));
    assert_eq!(s.parameters, None);
    assert!(s.result(33).is_ok());
    assert!(s.result(32).is_err());
    assert!(s.result(-1).is_err());
}

#[test]
fn wide_string_is_utf16_with_terminator() {
    assert_eq!(to_wide_string(""), vec![0u16]);
    assert_eq!(to_wide_string("a\u{e9}"), vec![0x61u16, 0xe9, 0]);
    assert_eq!(to_wide_string("\u{1F600}"), vec![0xD83Du16, 0xDE00, 0]);
}

fn explorer(path: &str) -> open_native::windows_impl::ComReveal {
    match reveal_path(Platform::Windows, path, true, None).unwrap() {
        Launch::Explorer(x) => x,
        _ => panic!("expected the explorer sequence"),
    }
}

fn run_steps(x: &mut open_native::windows_impl::ComReveal, oks: &[bool]) -> Vec<ShellStep> {
    let mut seen = Vec::new();
    for ok in oks {
        match x.pending() {
            Some(s) => seen.push(s),
            None => break,
        }
        x.record(*ok);
    }
    seen
}

#[test]
fn windows_reveal_success_sequence() {
    let mut x = explorer("C:\\dir\\f.txt");
    assert_eq!(x.wide_name(), &wide("C:\\dir\\f.txt"));
    let seen = run_steps(&mut x, &[true; 8]);
    assert_eq!(
        seen,
        vec![
            ShellStep::Initialize,
            ShellStep::ParseName,
            ShellStep::OpenAndSelect,
            ShellStep::FreeIdList,
            ShellStep::Uninitialize,
        ]
    );
    assert!(x.result().unwrap().is_ok());
}

#[test]
fn windows_reveal_parse_failure_still_uninitializes() {
    let mut x = explorer("C:\\x");
    let seen = run_steps(&mut x, &[true, false, true, true, true]);
    assert_eq!(seen, vec![ShellStep::Initialize, ShellStep::ParseName, ShellStep::Uninitialize]);
    let e = x.result().unwrap().unwrap_err();
    assert_eq!(e.kind(), ErrorKind::PlatformApiFailure);
    assert_eq!(e.message(), "Failed to parse path: C:\\x");
}

#[test]
fn windows_reveal_select_failure_releases_all() {
    let mut x = explorer("C:\\x");
    let seen = run_steps(&mut x, &[true, true, false, true, true, true]);
    assert_eq!(seen.len(), 5);
    assert_eq!(seen[3], ShellStep::FreeIdList);
    assert_eq!(seen[4], ShellStep::Uninitialize);
    let e = x.result().unwrap().unwrap_err();
    assert_eq!(e.kind(), ErrorKind::LaunchRejected);
    assert_eq!(e.message(), "Failed to reveal path: C:\\x");
}

#[test]
fn windows_reveal_com_init_failure() {
    let mut x = explorer("C:\\x");
    assert!(x.result().is_none());
    let seen = run_steps(&mut x, &[false, true]);
    assert_eq!(seen, vec![ShellStep::Initialize]);
    let e = x.result().unwrap().unwrap_err();
    assert_eq!(e.kind(), ErrorKind::PlatformApiFailure);
}

#[test]
fn macos_reveal_open_r() {
    let mut c = commands(reveal_path(Platform::MacOs, "/Users/u/f.png", true, None).unwrap());
    let seen = drive(&mut c, &[OK]);
    assert_eq!(seen, vec![strs(&["open", "-R", "/Users/u/f.png"])]);
    assert!(c.result().unwrap().is_ok());
    let mut c = commands(reveal_path(Platform::MacOs, "/Users/u/f.png", true, None).unwrap());
    drive(&mut c, &[FAIL]);
    assert_eq!(c.result().unwrap().unwrap_err().kind(), ErrorKind::LaunchRejected);
}

#[test]
fn macos_open_and_open_with() {
    let mut c = commands(open(Platform::MacOs, "/a b/c", true).unwrap());
    assert_eq!(drive(&mut c, &[OK]), vec![strs(&["open", "/a b/c"])]);
    let mut c = commands(open_with(Platform::MacOs, "/a b/c", "TextEdit", true).unwrap());
    assert_eq!(drive(&mut c, &[Outcome::NotStarted]), vec![strs(&["open", "-a", "TextEdit", "/a b/c"])]);
    let e = c.result().unwrap().unwrap_err();
    assert_eq!(e.kind(), ErrorKind::SpawnFailure);
    assert_eq!(e.message(), "Failed to execute open for /a b/c");
}

#[test]
fn linux_open_with_missing_app_spawn_failure_only() {
    let mut c = commands(open_with(Platform::Linux, "/tmp/f", "no-such-app", true).unwrap());
    let seen = drive(&mut c, &[Outcome::NotStarted, OK, OK]);
    assert_eq!(seen, vec![strs(&["no-such-app", "/tmp/f"])]);
    assert_eq!(c.result().unwrap().unwrap_err().kind(), ErrorKind::SpawnFailure);
}

#[test]
fn linux_open_with_rejected_message() {
    let mut c = commands(open_with(Platform::Linux, "/tmp/f", "gedit", true).unwrap());
    drive(&mut c, &[FAIL]);
    let e = c.result().unwrap().unwrap_err();
    assert_eq!(e.kind(), ErrorKind::LaunchRejected);
    assert_eq!(e.message(), "Failed to open /tmp/f with gedit");
}

#[test]
fn paths_reach_the_launcher_unchanged() {
    let p = "/h\u{f6}me/it's \"q\"/mixed\\sep/file name.txt";
    let mut c = commands(open(Platform::Linux, p, true).unwrap());
    assert_eq!(drive(&mut c, &[OK]), vec![strs(&["xdg-open", p])]);
    let mut c = commands(reveal_path(Platform::Linux, p, true, None).unwrap());
    let seen = drive(&mut c, &[FAIL, OK]);
    assert_eq!(seen[1], strs(&["nautilus", "--select", p]));
    match open(Platform::Windows, p, true).unwrap() {
        Launch::Shell(s) => assert_eq!(s.file, wide(p)),
        _ => panic!("expected a shell call"),
    }
}
