//! Windows: the shell's `open` verb for opening, and the shell's
//! select-items API, bracketed by COM initialisation, for revealing.
use vstd::prelude::*;
use vstd::string::StringExecFns;
use crate::error::{ErrorKind, OpenError, join, join4, open_rejected, open_with_rejected, reveal_rejected};

verus! {

/// The UTF-16 code units of a string.
pub uninterp spec fn utf16_of(s: Seq<char>) -> Seq<u16>;

/// Relies on str::encode_utf16: the string encoded as UTF-16.
#[verifier::external_body]
fn utf16_units(s: &str) -> (r: Vec<u16>)
    ensures
        r@ == utf16_of(s@),
{
    s.encode_utf16().collect()
}

/// The null-terminated wide string that the shell's wide-character calls
/// take: the UTF-16 code units of `s` as they are, then a zero.
pub fn to_wide_string(s: &str) -> (r: Vec<u16>)
    ensures
        r@ == utf16_of(s@).push(0u16),
{
    let mut r = utf16_units(s);
    r.push(0u16);
    r
}

/// The show flag that displays the window in its current size and position.
pub const SW_SHOW: i32 = 5;

/// One call of the shell's execute function.
pub struct ShellCall {
    pub verb: Vec<u16>,
    pub file: Vec<u16>,
    pub parameters: Option<Vec<u16>>,
    pub show: i32,
    pub rejected: String,
}

/// A result above this threshold is a success; the rest are error codes.
pub const SHELL_SUCCESS_ABOVE: isize = 32;

impl ShellCall {
    /// What the shell's result `code` means for this call.
    pub fn result(&self, code: isize) -> (r: Result<(), OpenError>)
        ensures
            r is Ok <==> code > 32,
            r matches Err(e) ==> e.kind == ErrorKind::LaunchRejected && e.message@ == self.rejected@,
    {
        if code > SHELL_SUCCESS_ABOVE {
            Ok(())
        } else {
            Err(OpenError::new(ErrorKind::LaunchRejected, self.rejected.clone()))
        }
    }
}

/// Opens `path` with the shell's `open` verb.
pub fn open(path: &str) -> (r: ShellCall)
    ensures
        r.verb@ == utf16_of("open"@).push(0u16),
        r.file@ == utf16_of(path@).push(0u16),
        r.parameters is None,
        r.show == SW_SHOW,
        r.rejected@ == open_rejected(path@),
{
    ShellCall {
        verb: to_wide_string("open"),
        file: to_wide_string(path),
        parameters: None,
        show: SW_SHOW,
        rejected: join("Failed to open path: ", path),
    }
}

/// Opens `path` with the program `app` (a name or a full path): the `open`
/// verb runs `app` with `path` as its parameters.
pub fn open_with(path: &str, app: &str) -> (r: ShellCall)
    ensures
        r.verb@ == utf16_of("open"@).push(0u16),
        r.file@ == utf16_of(app@).push(0u16),
        r.parameters matches Some(p) && p@ == utf16_of(path@).push(0u16),
        r.show == SW_SHOW,
        r.rejected@ == open_with_rejected(path@, app@),
{
    ShellCall {
        verb: to_wide_string("open"),
        file: to_wide_string(app),
        parameters: Some(to_wide_string(path)),
        show: SW_SHOW,
        rejected: join4("Failed to open ", path, " with ", app),
    }
}

/// A request made of the shell while revealing a path.
#[derive(Clone, Copy, Debug, PartialEq, Eq, Structural)]
pub enum ShellStep {
    /// Initialise COM on this thread, apartment-threaded.
    Initialize,
    /// Parse the path into an item-identifier list.
    ParseName,
    /// Open the folder and select the parsed item.
    OpenAndSelect,
    /// Release the item-identifier list.
    FreeIdList,
    /// Uninitialise COM, paired with the initialisation.
    Uninitialize,
}

/// Which step of a reveal failed.
#[derive(Clone, Copy, Debug, PartialEq, Eq, Structural)]
pub enum RevealFailure {
    /// COM could not be initialised on this thread.
    ComInit,
    /// The path could not be parsed into an item-identifier list.
    Parse,
    /// The shell refused to open the folder and select the item.
    Select,
}

/// The error kind of each failure.
pub open spec fn failure_kind(f: RevealFailure) -> ErrorKind {
    match f {
        RevealFailure::Select => ErrorKind::LaunchRejected,
        _ => ErrorKind::PlatformApiFailure,
    }
}

/// The message of each failure, naming the path.
pub open spec fn failure_message(f: RevealFailure, path: Seq<char>) -> Seq<char> {
    match f {
        RevealFailure::ComInit => "Failed to initialize COM for path: "@ + path,
        RevealFailure::Parse => "Failed to parse path: "@ + path,
        RevealFailure::Select => reveal_rejected(path),
    }
}

/// Where a reveal stands: each stage but the last waits for one step.
#[derive(Clone, Copy, Debug, PartialEq, Eq, Structural)]
pub enum RevealStage {
    Initializing,
    Parsing,
    Selecting,
    Freeing { selected: bool },
    Uninitializing { failure: Option<RevealFailure> },
    Finished { failure: Option<RevealFailure> },
}

/// The step a stage waits for.
pub open spec fn step_of(s: RevealStage) -> Option<ShellStep> {
    match s {
        RevealStage::Initializing => Some(ShellStep::Initialize),
        RevealStage::Parsing => Some(ShellStep::ParseName),
        RevealStage::Selecting => Some(ShellStep::OpenAndSelect),
        RevealStage::Freeing { .. } => Some(ShellStep::FreeIdList),
        RevealStage::Uninitializing { .. } => Some(ShellStep::Uninitialize),
        RevealStage::Finished { .. } => None,
    }
}

/// The stage after the pending step reported `ok`. Initialisation, parsing
/// and selection can fail; releasing and uninitialising always go on.
pub open spec fn advance(s: RevealStage, ok: bool) -> RevealStage {
    match s {
        RevealStage::Initializing => if ok {
            RevealStage::Parsing
        } else {
            RevealStage::Finished { failure: Some(RevealFailure::ComInit) }
        },
        RevealStage::Parsing => if ok {
            RevealStage::Selecting
        } else {
            RevealStage::Uninitializing { failure: Some(RevealFailure::Parse) }
        },
        RevealStage::Selecting => RevealStage::Freeing { selected: ok },
        RevealStage::Freeing { selected } => RevealStage::Uninitializing {
            failure: if selected { None } else { Some(RevealFailure::Select) },
        },
        RevealStage::Uninitializing { failure } => RevealStage::Finished { failure },
        RevealStage::Finished { .. } => s,
    }
}

/// A reveal from its start after the step results `oks`, in order.
pub open spec fn reveal_run(oks: Seq<bool>) -> RevealStage
    decreases oks.len(),
{
    if oks.len() == 0 {
        RevealStage::Initializing
    } else {
        advance(reveal_run(oks.drop_last()), oks.last())
    }
}

/// Whether COM stands initialised by this reveal in stage `s`.
pub open spec fn com_held(s: RevealStage) -> int {
    match s {
        RevealStage::Initializing | RevealStage::Finished { .. } => 0,
        _ => 1,
    }
}

/// Whether this reveal holds an item-identifier list in stage `s`.
pub open spec fn lists_held(s: RevealStage) -> int {
    match s {
        RevealStage::Selecting | RevealStage::Freeing { .. } => 1,
        _ => 0,
    }
}

/// What the step pending in `s`, with result `ok`, does to the COM count:
/// a successful initialisation adds one, an uninitialisation takes one.
pub open spec fn com_change(s: RevealStage, ok: bool) -> int {
    match s {
        RevealStage::Initializing => if ok { 1 } else { 0 },
        RevealStage::Uninitializing { .. } => -1,
        _ => 0,
    }
}

/// What the step pending in `s`, with result `ok`, does to the lists held:
/// a successful parse allocates one, a release frees one.
pub open spec fn list_change(s: RevealStage, ok: bool) -> int {
    match s {
        RevealStage::Parsing => if ok { 1 } else { 0 },
        RevealStage::Freeing { .. } => -1,
        _ => 0,
    }
}

/// The net change to the COM count over a reveal with step results `oks`.
pub open spec fn com_net(oks: Seq<bool>) -> int
    decreases oks.len(),
{
    if oks.len() == 0 {
        0
    } else {
        com_net(oks.drop_last()) + com_change(reveal_run(oks.drop_last()), oks.last())
    }
}

/// The net number of item-identifier lists allocated and not released over
/// a reveal with step results `oks`.
pub open spec fn list_net(oks: Seq<bool>) -> int
    decreases oks.len(),
{
    if oks.len() == 0 {
        0
    } else {
        list_net(oks.drop_last()) + list_change(reveal_run(oks.drop_last()), oks.last())
    }
}

/// How many steps at most remain from stage `s`.
pub open spec fn steps_left(s: RevealStage) -> int {
    match s {
        RevealStage::Initializing => 5,
        RevealStage::Parsing => 4,
        RevealStage::Selecting => 3,
        RevealStage::Freeing { .. } => 2,
        RevealStage::Uninitializing { .. } => 1,
        RevealStage::Finished { .. } => 0,
    }
}

proof fn lemma_counts_track_stage(oks: Seq<bool>)
    ensures
        com_net(oks) == com_held(reveal_run(oks)),
        list_net(oks) == lists_held(reveal_run(oks)),
        steps_left(reveal_run(oks)) <= if oks.len() >= 5 { 0 } else { 5 - oks.len() },
    decreases oks.len(),
{
    if oks.len() > 0 {
        lemma_counts_track_stage(oks.drop_last());
    }
}

/// A reveal leaves COM and the shell's item lists as it found them: for
/// any results of its steps, once it has finished, every successful COM
/// initialisation has been paired with one uninitialisation and every
/// allocated item-identifier list released once; at no point does it hold
/// more than one of either. It finishes within five steps.
pub proof fn lemma_com_balanced(oks: Seq<bool>)
    ensures
        0 <= com_net(oks) <= 1,
        0 <= list_net(oks) <= 1,
        reveal_run(oks) is Finished ==> com_net(oks) == 0 && list_net(oks) == 0,
        oks.len() >= 5 ==> reveal_run(oks) is Finished,
{
    lemma_counts_track_stage(oks);
}

/// Reveals a path in Explorer: initialise COM, parse the path, open the
/// folder with the item selected, release the item list, uninitialise COM.
/// The caller performs each pending step and records whether it succeeded.
pub struct ComReveal {
    name: Vec<u16>,
    path: String,
    stage: RevealStage,
}

impl ComReveal {
    pub closed spec fn stage(&self) -> RevealStage {
        self.stage
    }

    pub closed spec fn name(&self) -> Seq<u16> {
        self.name@
    }

    pub closed spec fn path(&self) -> Seq<char> {
        self.path@
    }

    /// The wide path that the parse step reads.
    pub fn wide_name(&self) -> (r: &Vec<u16>)
        ensures
            r@ == self.name(),
    {
        &self.name
    }

    /// The step to perform now; `None` once finished.
    pub fn pending(&self) -> (r: Option<ShellStep>)
        ensures
            r == step_of(self.stage()),
    {
        match self.stage {
            RevealStage::Initializing => Some(ShellStep::Initialize),
            RevealStage::Parsing => Some(ShellStep::ParseName),
            RevealStage::Selecting => Some(ShellStep::OpenAndSelect),
            RevealStage::Freeing { .. } => Some(ShellStep::FreeIdList),
            RevealStage::Uninitializing { .. } => Some(ShellStep::Uninitialize),
            RevealStage::Finished { .. } => None,
        }
    }

    /// Records whether the pending step succeeded.
    pub fn record(&mut self, ok: bool)
        ensures
            final(self).stage() == advance(old(self).stage(), ok),
            final(self).name() == old(self).name(),
            final(self).path() == old(self).path(),
    {
        self.stage = match self.stage {
            RevealStage::Initializing => if ok {
                RevealStage::Parsing
            } else {
                RevealStage::Finished { failure: Some(RevealFailure::ComInit) }
            },
            RevealStage::Parsing => if ok {
                RevealStage::Selecting
            } else {
                RevealStage::Uninitializing { failure: Some(RevealFailure::Parse) }
            },
            RevealStage::Selecting => RevealStage::Freeing { selected: ok },
            RevealStage::Freeing { selected } => RevealStage::Uninitializing {
                failure: if selected { None } else { Some(RevealFailure::Select) },
            },
            RevealStage::Uninitializing { failure } => RevealStage::Finished { failure },
            RevealStage::Finished { failure } => RevealStage::Finished { failure },
        };
    }

    /// How the reveal ended: `None` until it has finished.
    pub fn result(&self) -> (r: Option<Result<(), OpenError>>)
        ensures
            !(self.stage() is Finished) <==> r is None,
            self.stage() == (RevealStage::Finished { failure: None }) <==> r == Some(
                Ok::<(), OpenError>(()),
            ),
            forall|f: RevealFailure| self.stage() == (RevealStage::Finished { failure: Some(f) }) ==> (
                r matches Some(Err(e)) && e.kind == failure_kind(f) && e.message@ == failure_message(f, self.path())),
    {
        match self.stage {
            RevealStage::Finished { failure: None } => Some(Ok(())),
            RevealStage::Finished { failure: Some(k) } => {
                let p = self.path.as_str();
                let e = match k {
                    RevealFailure::ComInit => OpenError::new(
                        ErrorKind::PlatformApiFailure,
                        join("Failed to initialize COM for path: ", p),
                    ),
                    RevealFailure::Parse => OpenError::new(
                        ErrorKind::PlatformApiFailure,
                        join("Failed to parse path: ", p),
                    ),
                    RevealFailure::Select => OpenError::new(
                        ErrorKind::LaunchRejected,
                        join("Failed to reveal path: ", p),
                    ),
                };
                Some(Err(e))
            },
            _ => None,
        }
    }
}

/// Reveals `path` in Explorer with the item selected.
pub fn reveal_path(path: &str) -> (r: ComReveal)
    ensures
        r.stage() == reveal_run(seq![]),
        r.name() == utf16_of(path@).push(0u16),
        r.path() == path@,
{
    ComReveal { name: to_wide_string(path), path: String::from_str(path), stage: RevealStage::Initializing }
}

} // verus!
