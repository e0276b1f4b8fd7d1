//! Programs to run, and the cascade that tries them in order until one
//! succeeds.
use vstd::prelude::*;
use vstd::string::StringExecFns;
use crate::error::{ErrorKind, OpenError, join4};

verus! {

/// A program and its argument list, handed to the process launcher as they
/// are: no shell, no quoting.
#[derive(Clone, Debug)]
pub struct Invocation {
    pub program: String,
    pub args: Vec<String>,
}

/// What an invocation is, as plain text.
pub struct InvocationView {
    pub program: Seq<char>,
    pub args: Seq<Seq<char>>,
}

pub open spec fn call(program: Seq<char>, args: Seq<Seq<char>>) -> InvocationView {
    InvocationView { program, args }
}

impl Invocation {
    pub open spec fn view(&self) -> InvocationView {
        InvocationView { program: self.program@, args: self.args@.map_values(|a: String| a@) }
    }

    /// `program` with no arguments yet.
    pub fn new(program: &str) -> (r: Invocation)
        ensures
            r.view() == call(program@, seq![]),
    {
        let r = Invocation { program: String::from_str(program), args: Vec::new() };
        assert(r.view().args =~= seq![]);
        r
    }

    /// Appends one argument.
    pub fn push_arg(&mut self, arg: &str)
        ensures
            final(self).view() == call(old(self).view().program, old(self).view().args.push(arg@)),
    {
        self.args.push(String::from_str(arg));
        assert(self.view().args =~= old(self).view().args.push(arg@));
    }

    /// `program` with the single argument `a`.
    pub fn with1(program: &str, a: &str) -> (r: Invocation)
        ensures
            r.view() == call(program@, seq![a@]),
    {
        let mut r = Invocation::new(program);
        r.push_arg(a);
        assert(r.view().args =~= seq![a@]);
        r
    }

    /// `program` with the arguments `a`, `b`.
    pub fn with2(program: &str, a: &str, b: &str) -> (r: Invocation)
        ensures
            r.view() == call(program@, seq![a@, b@]),
    {
        let mut r = Invocation::with1(program, a);
        r.push_arg(b);
        assert(r.view().args =~= seq![a@, b@]);
        r
    }

    /// `program` with the arguments `a`, `b`, `c`.
    pub fn with3(program: &str, a: &str, b: &str, c: &str) -> (r: Invocation)
        ensures
            r.view() == call(program@, seq![a@, b@, c@]),
    {
        let mut r = Invocation::with2(program, a, b);
        r.push_arg(c);
        assert(r.view().args =~= seq![a@, b@, c@]);
        r
    }
}

/// What became of one invocation.
#[derive(Clone, Copy, Debug, PartialEq, Eq, Structural)]
pub enum Outcome {
    /// The program could not be started (not installed, not executable).
    NotStarted,
    /// The program ran and exited; `success` is a zero exit status.
    Exited { success: bool },
}

/// Where a cascade stands.
#[derive(Clone, Copy, Debug, PartialEq, Eq, Structural)]
pub enum Status {
    /// The attempt at the current index is waiting to be run.
    Running,
    /// An attempt succeeded.
    Succeeded,
    /// Every attempt failed; the kind comes from the last one.
    Failed(ErrorKind),
}

/// An ordered list of attempts, run one at a time until the first success.
/// A program that cannot be started counts as one that failed. When all
/// fail, the last attempt's outcome decides the error.
pub struct Cascade {
    attempts: Vec<Invocation>,
    current: usize,
    status: Status,
    subject: String,
    rejected: String,
}

/// A cascade of `len` attempts with the next one to run at `current`.
pub struct CascadeState {
    pub len: nat,
    pub current: nat,
    pub status: Status,
}

pub open spec fn failure_kind(o: Outcome) -> ErrorKind {
    match o {
        Outcome::NotStarted => ErrorKind::SpawnFailure,
        Outcome::Exited { .. } => ErrorKind::LaunchRejected,
    }
}

pub open spec fn succeeded(o: Outcome) -> bool {
    o == (Outcome::Exited { success: true })
}

/// The cascade after the outcome `o` of its current attempt; one that has
/// finished stays as it is.
pub open spec fn step(s: CascadeState, o: Outcome) -> CascadeState {
    if s.status != Status::Running {
        s
    } else if succeeded(o) {
        CascadeState { status: Status::Succeeded, ..s }
    } else if s.current + 1 < s.len {
        CascadeState { current: s.current + 1, ..s }
    } else {
        CascadeState { status: Status::Failed(failure_kind(o)), ..s }
    }
}

/// A fresh cascade of `len` attempts after the outcomes `os`, in order.
pub open spec fn run(len: nat, os: Seq<Outcome>) -> CascadeState
    decreases os.len(),
{
    if os.len() == 0 {
        CascadeState { len, current: 0, status: Status::Running }
    } else {
        step(run(len, os.drop_last()), os.last())
    }
}

pub open spec fn cascade_failure_message(program: Seq<char>, subject: Seq<char>) -> Seq<char> {
    "Failed to execute "@ + program + " for "@ + subject
}

/// Until an attempt succeeds, the `k` outcomes so far move the cascade to
/// its attempt at index `k`.
proof fn lemma_running_prefix(len: nat, os: Seq<Outcome>, k: nat)
    requires
        k <= os.len(),
        k < len,
        forall|j: int| 0 <= j < k ==> !succeeded(#[trigger] os[j]),
    ensures
        run(len, os.take(k as int)) == (CascadeState { len, current: k, status: Status::Running }),
    decreases k,
{
    if k > 0 {
        lemma_running_prefix(len, os, (k - 1) as nat);
        assert(os.take(k as int).drop_last() =~= os.take(k - 1));
        assert(os.take(k as int).last() == os[k - 1]);
    }
}

/// Once the cascade has finished, further outcomes change nothing.
proof fn lemma_finished_stays(len: nat, os: Seq<Outcome>, k: nat, m: nat)
    requires
        k <= m <= os.len(),
        run(len, os.take(k as int)).status != Status::Running,
    ensures
        run(len, os.take(m as int)) == run(len, os.take(k as int)),
    decreases m - k,
{
    if m > k {
        lemma_finished_stays(len, os, k, (m - 1) as nat);
        assert(os.take(m as int).drop_last() =~= os.take(m - 1));
    }
}

/// A cascade stops at its first success: when the attempt at index `i`
/// succeeds after every earlier one failed, the cascade ends there with
/// success, and no later attempt runs whatever outcomes follow.
pub proof fn lemma_stops_at_first_success(len: nat, os: Seq<Outcome>, i: nat)
    requires
        i < os.len(),
        i < len,
        succeeded(os[i as int]),
        forall|j: int| 0 <= j < i ==> !succeeded(#[trigger] os[j]),
    ensures
        run(len, os) == (CascadeState { len, current: i, status: Status::Succeeded }),
{
    lemma_running_prefix(len, os, i);
    assert(os.take(i as int + 1).drop_last() =~= os.take(i as int));
    assert(os.take(i as int + 1).last() == os[i as int]);
    lemma_finished_stays(len, os, (i + 1) as nat, os.len());
    assert(os.take(os.len() as int) =~= os);
}

/// When every attempt but the last has failed, the last one is run.
pub proof fn lemma_last_attempt_runs(len: nat, os: Seq<Outcome>)
    requires
        len > 0,
        os.len() == len - 1,
        forall|j: int| 0 <= j < os.len() ==> !succeeded(#[trigger] os[j]),
    ensures
        run(len, os) == (CascadeState { len, current: (len - 1) as nat, status: Status::Running }),
{
    lemma_running_prefix(len, os, (len - 1) as nat);
    assert(os.take(os.len() as int) =~= os);
}

/// When every attempt fails, the cascade fails with the kind that the last
/// outcome gives: a program that could not be started, or one that ran and
/// failed.
pub proof fn lemma_all_fail(len: nat, os: Seq<Outcome>)
    requires
        len > 0,
        os.len() == len,
        forall|j: int| 0 <= j < os.len() ==> !succeeded(#[trigger] os[j]),
    ensures
        run(len, os) == (CascadeState {
            len,
            current: (len - 1) as nat,
            status: Status::Failed(failure_kind(os.last())),
        }),
{
    lemma_last_attempt_runs(len, os.drop_last());
}

impl Cascade {
    pub closed spec fn state(&self) -> CascadeState {
        CascadeState { len: self.attempts@.len(), current: self.current as nat, status: self.status }
    }

    pub closed spec fn attempts(&self) -> Seq<InvocationView> {
        self.attempts@.map_values(|i: Invocation| i.view())
    }

    pub closed spec fn subject(&self) -> Seq<char> {
        self.subject@
    }

    pub closed spec fn rejected(&self) -> Seq<char> {
        self.rejected@
    }

    pub closed spec fn wf(&self) -> bool {
        &&& self.attempts@.len() > 0
        &&& self.current < self.attempts@.len()
    }

    /// A cascade that has run nothing yet, on behalf of the path `subject`.
    /// `rejected` is the message used when the last attempt runs and fails.
    pub fn new(attempts: Vec<Invocation>, subject: &str, rejected: String) -> (r: Cascade)
        requires
            attempts@.len() > 0,
        ensures
            r.wf(),
            r.state() == run(attempts@.len(), seq![]),
            r.attempts() == attempts@.map_values(|i: Invocation| i.view()),
            r.subject() == subject@,
            r.rejected() == rejected@,
    {
        Cascade { attempts, current: 0, status: Status::Running, subject: String::from_str(subject), rejected }
    }

    /// The attempt to run now, while the cascade is running.
    pub fn pending(&self) -> (r: Option<&Invocation>)
        requires
            self.wf(),
        ensures
            self.state().status == Status::Running ==> r is Some && r->0.view() == self.attempts()[self.state().current as int],
            self.state().status != Status::Running ==> r is None,
    {
        if self.status == Status::Running {
            Some(&self.attempts[self.current])
        } else {
            None
        }
    }

    /// Records the outcome of the pending attempt.
    pub fn record(&mut self, outcome: Outcome)
        requires
            old(self).wf(),
        ensures
            final(self).wf(),
            final(self).state() == step(old(self).state(), outcome),
            final(self).attempts() == old(self).attempts(),
            final(self).subject() == old(self).subject(),
            final(self).rejected() == old(self).rejected(),
    {
        if self.status != Status::Running {
        } else if outcome == (Outcome::Exited { success: true }) {
            self.status = Status::Succeeded;
        } else if self.current < self.attempts.len() - 1 {
            self.current = self.current + 1;
        } else {
            self.status = match outcome {
                Outcome::NotStarted => Status::Failed(ErrorKind::SpawnFailure),
                Outcome::Exited { .. } => Status::Failed(ErrorKind::LaunchRejected),
            };
        }
    }

    /// How the cascade ended: `None` while it runs.
    pub fn result(&self) -> (r: Option<Result<(), OpenError>>)
        requires
            self.wf(),
        ensures
            self.state().status == Status::Running <==> r is None,
            self.state().status == Status::Succeeded <==> r == Some(Ok::<(), OpenError>(())),
            forall|k: ErrorKind| self.state().status == Status::Failed(k) ==> {
                &&& r matches Some(Err(e))
                &&& e.kind == k
                &&& k == ErrorKind::SpawnFailure ==> e.message@ == cascade_failure_message(
                    self.attempts()[self.state().current as int].program,
                    self.subject(),
                )
                &&& k != ErrorKind::SpawnFailure ==> e.message@ == self.rejected()
            },
    {
        match self.status {
            Status::Running => None,
            Status::Succeeded => Some(Ok(())),
            Status::Failed(k) => {
                if k == ErrorKind::SpawnFailure {
                    let program = self.attempts[self.current].program.as_str();
                    Some(Err(OpenError::new(k, join4("Failed to execute ", program, " for ", self.subject.as_str()))))
                } else {
                    Some(Err(OpenError::new(k, self.rejected.clone())))
                }
            },
        }
    }
}

} // verus!
