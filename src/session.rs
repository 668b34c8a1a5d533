use vstd::prelude::*;
use vstd::string::*;

use crate::catalog::Build;

verus! {

/// The live-session handle: which build the session runs and whether its
/// one-shot cancellation signal has been sent.
#[derive(PartialEq, Eq, Structural, Clone, Copy, Debug)]
pub struct RunnerInstance {
    pub build_id: u32,
    pub cancellation_sent: bool,
}

/// The three logical states of the supervisor.
#[derive(PartialEq, Eq, Structural, Clone, Copy, Debug)]
pub enum SessionState {
    Idle,
    Running,
    Terminating,
}

/// What `start` did.
#[derive(PartialEq, Eq, Structural, Clone, Copy, Debug)]
pub enum StartOutcome {
    /// A new session was created; the caller spawns its background task.
    Started,
    /// A session is already active; nothing changed.
    AlreadyRunning,
}

/// What `terminate` asks of the caller.
#[derive(PartialEq, Eq, Structural, Clone, Copy, Debug)]
pub enum TerminateOutcome {
    /// No session is active; nothing to do.
    NoSession,
    /// Send the cancellation signal, then await the background task.
    SendCancellation,
    /// The signal was already sent; only await the background task.
    AlreadyTerminating,
}

/// How a session's background task ended.
pub enum SessionEnd {
    /// The launch procedure returned normally (also after a cancellation).
    Completed,
    /// Fetching the build list failed with this message.
    FetchFailed(String),
    /// The requested build id is not in the fetched list. Like every other
    /// end, it clears the session and is followed by the finalization.
    BuildNotFound,
    /// The launch procedure failed with this message.
    LaunchFailed(String),
}

/// A callback the presentation layer receives when a session ends.
pub enum Notice {
    /// The error callback, with its message.
    Error(String),
    /// The finalization callback.
    Finalize,
}

/// The message reported when the requested build is absent.
pub const BUILD_NOT_FOUND: &'static str = "unable to find build";

pub open spec fn state_of(runner: Option<RunnerInstance>) -> SessionState {
    match runner {
        None => SessionState::Idle,
        Some(r) => if r.cancellation_sent {
            SessionState::Terminating
        } else {
            SessionState::Running
        },
    }
}

/// The slot after `start(build_id)`: filled only when it was empty.
pub open spec fn after_start(runner: Option<RunnerInstance>, build_id: u32) -> Option<RunnerInstance> {
    match runner {
        None => Some(RunnerInstance { build_id, cancellation_sent: false }),
        Some(r) => Some(r),
    }
}

pub open spec fn start_outcome(runner: Option<RunnerInstance>) -> StartOutcome {
    if runner is None {
        StartOutcome::Started
    } else {
        StartOutcome::AlreadyRunning
    }
}

/// The slot after `terminate()`: a running session is marked as signalled.
pub open spec fn after_terminate(runner: Option<RunnerInstance>) -> Option<RunnerInstance> {
    match runner {
        None => None,
        Some(r) => Some(RunnerInstance { build_id: r.build_id, cancellation_sent: true }),
    }
}

pub open spec fn terminate_outcome(runner: Option<RunnerInstance>) -> TerminateOutcome {
    match runner {
        None => TerminateOutcome::NoSession,
        Some(r) => if r.cancellation_sent {
            TerminateOutcome::AlreadyTerminating
        } else {
            TerminateOutcome::SendCancellation
        },
    }
}

/// The error message a session end reports, if any. A launch failure after
/// the cancellation signal was sent is the cancellation itself, which is no
/// error.
pub open spec fn end_error(end: SessionEnd, cancelled: bool) -> Option<Seq<char>> {
    match end {
        SessionEnd::Completed => None,
        SessionEnd::FetchFailed(m) => Some(m@),
        SessionEnd::BuildNotFound => Some(BUILD_NOT_FOUND@),
        SessionEnd::LaunchFailed(m) => if cancelled {
            None
        } else {
            Some(m@)
        },
    }
}

/// The slot after the background task has ended: always empty.
pub open spec fn after_finish(runner: Option<RunnerInstance>) -> Option<RunnerInstance> {
    None
}

/// Whether the slot holds a session whose cancellation was signalled.
pub open spec fn was_cancelled(runner: Option<RunnerInstance>) -> bool {
    runner matches Some(r) && r.cancellation_sent
}

/// The callbacks a session end fires, in order: the error callback when
/// there is an error to report, then the finalization callback exactly once.
pub open spec fn notices_match(notices: Seq<Notice>, error: Option<Seq<char>>) -> bool {
    match error {
        None => notices.len() == 1 && notices[0] is Finalize,
        Some(m) => {
            &&& notices.len() == 2
            &&& notices[0] matches Notice::Error(e) && e@ == m
            &&& notices[1] is Finalize
        },
    }
}

/// Supervises the single launch session: at most one runner exists at any
/// time, and every session that is created is cleared again when its task ends.
pub struct LaunchSupervisor {
    runner: Option<RunnerInstance>,
}

impl View for LaunchSupervisor {
    type V = Option<RunnerInstance>;

    closed spec fn view(&self) -> Option<RunnerInstance> {
        self.runner
    }
}

impl LaunchSupervisor {
    /// A supervisor with no session.
    pub fn new() -> (r: LaunchSupervisor)
        ensures
            r@ is None,
    {
        LaunchSupervisor { runner: None }
    }

    /// The current logical state.
    pub fn state(&self) -> (r: SessionState)
        ensures
            r == state_of(self@),
    {
        match self.runner {
            None => SessionState::Idle,
            Some(r) => if r.cancellation_sent {
                SessionState::Terminating
            } else {
                SessionState::Running
            },
        }
    }

    /// The active session's runner, if any.
    pub fn runner(&self) -> (r: Option<RunnerInstance>)
        ensures
            r == self@,
    {
        self.runner
    }

    /// Creates a session for `build_id` when none is active; otherwise
    /// changes nothing and reports that a session is already running.
    pub fn start(&mut self, build_id: u32) -> (r: StartOutcome)
        ensures
            final(self)@ == after_start(old(self)@, build_id),
            r == start_outcome(old(self)@),
    {
        match self.runner {
            Some(_) => StartOutcome::AlreadyRunning,
            None => {
                self.runner = Some(RunnerInstance { build_id, cancellation_sent: false });
                StartOutcome::Started
            },
        }
    }

    /// Requests cancellation of the active session. On an idle supervisor
    /// this does nothing; the signal is asked for at most once per session.
    pub fn terminate(&mut self) -> (r: TerminateOutcome)
        ensures
            final(self)@ == after_terminate(old(self)@),
            r == terminate_outcome(old(self)@),
    {
        match self.runner {
            None => TerminateOutcome::NoSession,
            Some(inst) => {
                if inst.cancellation_sent {
                    TerminateOutcome::AlreadyTerminating
                } else {
                    self.runner = Some(RunnerInstance { build_id: inst.build_id, cancellation_sent: true });
                    TerminateOutcome::SendCancellation
                }
            },
        }
    }

    /// Ends the session when its background task is done: the slot is
    /// cleared and the callbacks to fire are returned, an optional error
    /// followed by exactly one finalization.
    pub fn finish(&mut self, end: SessionEnd) -> (r: Vec<Notice>)
        ensures
            final(self)@ == after_finish(old(self)@),
            notices_match(r@, end_error(end, was_cancelled(old(self)@))),
    {
        let cancelled = match self.runner {
            Some(inst) => inst.cancellation_sent,
            None => false,
        };
        self.runner = None;
        let mut r: Vec<Notice> = Vec::new();
        match end {
            SessionEnd::Completed => {},
            SessionEnd::FetchFailed(m) => {
                r.push(Notice::Error(m));
            },
            SessionEnd::BuildNotFound => {
                r.push(Notice::Error(String::from_str(BUILD_NOT_FOUND)));
            },
            SessionEnd::LaunchFailed(m) => {
                if !cancelled {
                    r.push(Notice::Error(m));
                }
            },
        }
        r.push(Notice::Finalize);
        r
    }
}

/// `i` is the first position of `builds` holding a build with id `build_id`.
pub open spec fn is_first_match(builds: Seq<Build>, build_id: u32, i: int) -> bool {
    &&& 0 <= i < builds.len()
    &&& builds[i].build_id == build_id
    &&& forall|j: int| 0 <= j < i ==> builds[j].build_id != build_id
}

/// No build of `builds` has id `build_id`.
pub open spec fn no_match(builds: Seq<Build>, build_id: u32) -> bool {
    forall|j: int| 0 <= j < builds.len() ==> builds[j].build_id != build_id
}

/// Position of the first build with id `build_id`.
pub fn find_build(builds: &Vec<Build>, build_id: u32) -> (r: Option<usize>)
    ensures
        r matches Some(i) ==> is_first_match(builds@, build_id, i as int),
        r is None ==> no_match(builds@, build_id),
{
    let mut i: usize = 0;
    while i < builds.len()
        invariant
            i <= builds@.len(),
            forall|j: int| 0 <= j < i ==> builds@[j].build_id != build_id,
        decreases builds@.len() - i,
    {
        if builds[i].build_id == build_id {
            return Some(i);
        }
        i += 1;
    }
    None
}

/// Picks the build a session runs from the fetched build list: a failed
/// fetch ends the session with its message, an absent id ends it as not
/// found, otherwise the first build with that id is taken.
pub fn resolve_build(fetched: Result<Vec<Build>, String>, build_id: u32) -> (r: Result<Build, SessionEnd>)
    ensures
        match fetched {
            Err(m) => r matches Err(SessionEnd::FetchFailed(e)) && e == m,
            Ok(builds) => match r {
                Ok(b) => exists|i: int| is_first_match(builds@, build_id, i) && b == builds@[i],
                Err(e) => e is BuildNotFound && no_match(builds@, build_id),
            },
        },
{
    match fetched {
        Err(m) => Err(SessionEnd::FetchFailed(m)),
        Ok(builds) => {
            let ghost all = builds@;
            match find_build(&builds, build_id) {
                None => Err(SessionEnd::BuildNotFound),
                Some(i) => {
                    let mut builds = builds;
                    let b = builds.remove(i);
                    assert(is_first_match(all, build_id, i as int));
                    Ok(b)
                },
            }
        },
    }
}

/// Maps the result of the launch procedure to how the session ended.
pub fn launch_end(result: Result<(), String>) -> (r: SessionEnd)
    ensures
        match result {
            Ok(()) => r is Completed,
            Err(m) => r matches SessionEnd::LaunchFailed(e) && e == m,
        },
{
    match result {
        Ok(()) => SessionEnd::Completed,
        Err(m) => SessionEnd::LaunchFailed(m),
    }
}

/// Per-session identity and authorization context handed to the launch
/// procedure.
pub struct LaunchingParameter {
    pub auth_player_name: String,
    pub auth_uuid: String,
    pub auth_access_token: String,
    pub auth_xuid: String,
    pub clientid: String,
    pub user_type: String,
}

pub const FALLBACK_PLAYER_NAME: &'static str = "unexpected";

pub const FALLBACK_UUID: &'static str = "069a79f4-44e9-4726-a5be-fca90e38aaf5";

pub const FALLBACK_ACCESS_TOKEN: &'static str = "-";

pub const FALLBACK_USER_TYPE: &'static str = "legacy";

/// Placeholder for the secondary id and client id, which no account supplies.
pub const UNSET_ID: &'static str = "x";

/// The given value, or the fallback text when it is missing.
pub open spec fn or_fallback(value: Option<String>, fallback: Seq<char>) -> Seq<char> {
    match value {
        Some(v) => v@,
        None => fallback,
    }
}

fn value_or(value: Option<String>, fallback: &str) -> (r: String)
    ensures
        r@ == or_fallback(value, fallback@),
{
    match value {
        Some(v) => v,
        None => String::from_str(fallback),
    }
}

impl LaunchingParameter {
    /// Builds the launch identity from the account's fields; a missing field
    /// takes its fallback value and never fails the run.
    pub fn from_account(
        username: Option<String>,
        id: Option<String>,
        access_token: Option<String>,
        account_type: Option<String>,
    ) -> (r: LaunchingParameter)
        ensures
            r.auth_player_name@ == or_fallback(username, FALLBACK_PLAYER_NAME@),
            r.auth_uuid@ == or_fallback(id, FALLBACK_UUID@),
            r.auth_access_token@ == or_fallback(access_token, FALLBACK_ACCESS_TOKEN@),
            r.auth_xuid@ == UNSET_ID@,
            r.clientid@ == UNSET_ID@,
            r.user_type@ == or_fallback(account_type, FALLBACK_USER_TYPE@),
    {
        LaunchingParameter {
            auth_player_name: value_or(username, FALLBACK_PLAYER_NAME),
            auth_uuid: value_or(id, FALLBACK_UUID),
            auth_access_token: value_or(access_token, FALLBACK_ACCESS_TOKEN),
            auth_xuid: String::from_str(UNSET_ID),
            clientid: String::from_str(UNSET_ID),
            user_type: value_or(account_type, FALLBACK_USER_TYPE),
        }
    }
}

/// Which of a request's two callbacks receives its result.
pub enum Reply<T> {
    /// The response callback, with the value.
    Response(T),
    /// The error callback, with the message.
    Error(String),
}

/// Routes a request's result to exactly one callback: the value to the
/// response callback, the failure's text to the error callback.
pub fn reply_of<T>(result: Result<T, String>) -> (r: Reply<T>)
    ensures
        match result {
            Ok(v) => r matches Reply::Response(x) && x == v,
            Err(m) => r matches Reply::Error(e) && e == m,
        },
{
    match result {
        Ok(v) => Reply::Response(v),
        Err(m) => Reply::Error(m),
    }
}

/// The slot after calling `start` with each id of `ids` in turn.
pub open spec fn after_starts(runner: Option<RunnerInstance>, ids: Seq<u32>) -> Option<RunnerInstance>
    decreases ids.len(),
{
    if ids.len() == 0 {
        runner
    } else {
        after_starts(after_start(runner, ids[0]), ids.drop_first())
    }
}

/// While a session is active, any sequence of `start` calls leaves the slot
/// as it was and each call reports that a session is already running.
pub proof fn lemma_starts_while_active(runner: Option<RunnerInstance>, ids: Seq<u32>)
    requires
        runner is Some,
    ensures
        after_starts(runner, ids) == runner,
        forall|i: int|
            0 <= i < ids.len() ==> start_outcome(#[trigger] after_starts(runner, ids.take(i)))
                == StartOutcome::AlreadyRunning,
    decreases ids.len(),
{
    if ids.len() > 0 {
        lemma_starts_while_active(runner, ids.drop_first());
        assert forall|i: int| 0 <= i < ids.len() implies start_outcome(
            #[trigger] after_starts(runner, ids.take(i)),
        ) == StartOutcome::AlreadyRunning by {
            if i > 0 {
                assert(ids.take(i).drop_first() =~= ids.drop_first().take(i - 1));
                assert(ids.take(i)[0] == ids[0]);
                assert(after_start(runner, ids[0]) == runner);
                assert(after_starts(runner, ids.take(i)) == after_starts(
                    runner,
                    ids.drop_first().take(i - 1),
                ));
            } else {
                assert(ids.take(i).len() == 0);
            }
        }
    }
}

/// From an idle supervisor, only the first of a sequence of `start` calls
/// creates a runner: afterwards the slot holds the first call's session.
pub proof fn lemma_only_first_start_creates(first: u32, later: Seq<u32>)
    ensures
        start_outcome(None) == StartOutcome::Started,
        after_starts(None, seq![first] + later) == Some(
            RunnerInstance { build_id: first, cancellation_sent: false },
        ),
        forall|i: int|
            0 <= i < later.len() ==> start_outcome(
                #[trigger] after_starts(after_start(None, first), later.take(i)),
            ) == StartOutcome::AlreadyRunning,
{
    let s = after_start(None, first);
    lemma_starts_while_active(s, later);
    assert((seq![first] + later).drop_first() =~= later);
}

/// `terminate` on an idle supervisor changes nothing and asks for nothing.
pub proof fn lemma_terminate_idle_is_noop()
    ensures
        after_terminate(None) == None::<RunnerInstance>,
        terminate_outcome(None) == TerminateOutcome::NoSession,
{
}

/// Once `terminate` has returned (the background task has ended), the
/// supervisor is idle and the next `start` creates a new session.
pub proof fn lemma_terminate_then_start(runner: Option<RunnerInstance>, build_id: u32)
    ensures
        state_of(after_finish(after_terminate(runner))) == SessionState::Idle,
        start_outcome(after_finish(after_terminate(runner))) == StartOutcome::Started,
        after_start(after_finish(after_terminate(runner)), build_id) == Some(
            RunnerInstance { build_id, cancellation_sent: false },
        ),
{
}

/// A session started for an id that the fetched build list lacks reports
/// the not-found message, fires the finalization once, and leaves the
/// supervisor idle.
pub proof fn lemma_missing_build(builds: Seq<Build>, build_id: u32, notices: Seq<Notice>)
    requires
        no_match(builds, build_id),
        notices_match(
            notices,
            end_error(SessionEnd::BuildNotFound, was_cancelled(after_start(None, build_id))),
        ),
    ensures
        notices.len() == 2,
        notices[0] matches Notice::Error(m) && m@ == BUILD_NOT_FOUND@,
        notices[1] is Finalize,
        state_of(after_finish(after_start(None, build_id))) == SessionState::Idle,
{
}

/// Cancelling a running session asks for the signal exactly once, and the
/// end of the cancelled launch is reported without an error, followed by a
/// single finalization.
pub proof fn lemma_cancellation(runner: RunnerInstance, end: SessionEnd, notices: Seq<Notice>)
    requires
        !runner.cancellation_sent,
        end is Completed || end is LaunchFailed,
        notices_match(notices, end_error(end, was_cancelled(after_terminate(Some(runner))))),
    ensures
        terminate_outcome(Some(runner)) == TerminateOutcome::SendCancellation,
        state_of(after_terminate(Some(runner))) == SessionState::Terminating,
        terminate_outcome(after_terminate(Some(runner))) == TerminateOutcome::AlreadyTerminating,
        after_terminate(after_terminate(Some(runner))) == after_terminate(Some(runner)),
        notices.len() == 1 && notices[0] is Finalize,
        state_of(after_finish(after_terminate(Some(runner)))) == SessionState::Idle,
{
}

/// Every session end fires the finalization exactly once, as the last
/// callback, and the error callback at most once before it.
pub proof fn lemma_single_finalization(notices: Seq<Notice>, error: Option<Seq<char>>)
    requires
        notices_match(notices, error),
    ensures
        notices.len() >= 1,
        notices.last() is Finalize,
        forall|i: int| 0 <= i < notices.len() - 1 ==> notices[i] is Error,
        notices.len() <= 2,
{
}

} // verus!
