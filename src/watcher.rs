use vstd::prelude::*;

verus! {

/// Lifecycle of one supervised process.
#[derive(Clone, Copy, PartialEq, Eq, Structural, Debug)]
pub enum ProcessStatus {
    NotStarted,
    /// Spawned; its readiness marker has not been seen yet.
    Starting,
    Running,
    /// A stop was requested and the process has not exited yet.
    Stopping,
    /// Exited after a stop request, with this exit code.
    Stopped(i32),
    /// Exited on its own, with this exit code.
    Crashed(i32),
}

/// Failures of a start.
#[derive(Clone, Copy, PartialEq, Eq, Structural, Debug)]
pub enum WatcherError {
    AlreadyRunning,
    StartupTimeout,
    /// The process ended during startup, with this exit code.
    ExitCode(i32),
}

/// What a stop request asks of the caller.
#[derive(Clone, Copy, PartialEq, Eq, Structural, Debug)]
pub enum StopStep {
    /// Nothing runs: the stop is over, with this exit code.
    Done(i32),
    /// Send the graceful termination signal to this instance, then wait for
    /// its exit, killing it once the grace period is over.
    Terminate(u64),
    /// A stop of this instance is already under way: wait for its exit.
    AwaitExit(u64),
}

/// The whole state of a watcher: the status of the newest instance, the
/// number of instances spawned so far (the newest one's id), and whether
/// its crash has been reported.
#[derive(Clone, Copy, PartialEq, Eq, Structural, Debug)]
pub struct WatcherState {
    pub status: ProcessStatus,
    pub instance: u64,
    pub crash_reported: bool,
}

/// A process handle is held in these states.
pub open spec fn is_live(s: ProcessStatus) -> bool {
    s is Starting || s is Running || s is Stopping
}

pub open spec fn start_spec(w: WatcherState) -> (WatcherState, Result<u64, WatcherError>) {
    if is_live(w.status) {
        (w, Err(WatcherError::AlreadyRunning))
    } else {
        let id = (w.instance + 1) as u64;
        (WatcherState { status: ProcessStatus::Starting, instance: id, crash_reported: false }, Ok(id))
    }
}

pub open spec fn ready_spec(w: WatcherState, id: u64) -> WatcherState {
    if id == w.instance && w.status is Starting {
        WatcherState { status: ProcessStatus::Running, ..w }
    } else {
        w
    }
}

pub open spec fn exit_spec(w: WatcherState, id: u64, code: i32) -> WatcherState {
    if id != w.instance {
        w
    } else {
        match w.status {
            ProcessStatus::Stopping => WatcherState { status: ProcessStatus::Stopped(code), ..w },
            ProcessStatus::Starting | ProcessStatus::Running => WatcherState {
                status: ProcessStatus::Crashed(code),
                crash_reported: false,
                ..w
            },
            _ => w,
        }
    }
}

pub open spec fn timeout_spec(w: WatcherState, id: u64) -> (WatcherState, bool) {
    if id == w.instance && w.status is Starting {
        (WatcherState { status: ProcessStatus::Stopping, ..w }, true)
    } else {
        (w, false)
    }
}

pub open spec fn stop_spec(w: WatcherState) -> (WatcherState, StopStep) {
    match w.status {
        ProcessStatus::NotStarted => (w, StopStep::Done(0)),
        ProcessStatus::Stopped(c) => (w, StopStep::Done(c)),
        ProcessStatus::Crashed(c) => (w, StopStep::Done(c)),
        ProcessStatus::Stopping => (w, StopStep::AwaitExit(w.instance)),
        _ => (WatcherState { status: ProcessStatus::Stopping, ..w }, StopStep::Terminate(w.instance)),
    }
}

pub open spec fn take_crash_spec(w: WatcherState) -> (WatcherState, Option<i32>) {
    match w.status {
        ProcessStatus::Crashed(c) => if w.crash_reported {
            (w, None)
        } else {
            (WatcherState { crash_reported: true, ..w }, Some(c))
        },
        _ => (w, None),
    }
}

/// What a start that is waiting on the newest instance settles to: `None`
/// while the process is still starting.
pub open spec fn start_outcome_spec(w: WatcherState) -> Option<Result<(), WatcherError>> {
    match w.status {
        ProcessStatus::Running => Some(Ok(())),
        ProcessStatus::Crashed(c) => Some(Err(WatcherError::ExitCode(c))),
        ProcessStatus::Stopped(c) => Some(Err(WatcherError::ExitCode(c))),
        ProcessStatus::Stopping => Some(Err(WatcherError::StartupTimeout)),
        ProcessStatus::Starting => None,
        ProcessStatus::NotStarted => None,
    }
}

/// Supervises one process role: owns at most one live instance at a time and
/// turns what is observed of it (readiness marker, exit, timeouts) into
/// lifecycle transitions. Events carry the instance id they are about, so a
/// late event of an earlier instance never touches the newest one.
pub struct ProcessWatcher {
    state: WatcherState,
}

impl View for ProcessWatcher {
    type V = WatcherState;

    closed spec fn view(&self) -> WatcherState {
        self.state
    }
}

impl ProcessWatcher {
    pub fn new() -> (r: ProcessWatcher)
        ensures
            r@ == (WatcherState { status: ProcessStatus::NotStarted, instance: 0, crash_reported: false }),
    {
        ProcessWatcher {
            state: WatcherState { status: ProcessStatus::NotStarted, instance: 0, crash_reported: false },
        }
    }

    /// A snapshot of the lifecycle state.
    pub fn state(&self) -> (r: WatcherState)
        ensures
            r == self@,
    {
        self.state
    }

    /// A snapshot of the newest instance's status.
    pub fn status(&self) -> (r: ProcessStatus)
        ensures
            r == self@.status,
    {
        self.state.status
    }

    /// Begins a start: refused while an instance is live; otherwise a fresh
    /// instance id is handed out for the caller to spawn under.
    pub fn begin_start(&mut self) -> (r: Result<u64, WatcherError>)
        requires
            old(self)@.instance < u64::MAX,
        ensures
            (final(self)@, r) == start_spec(old(self)@),
    {
        match self.state.status {
            ProcessStatus::Starting | ProcessStatus::Running | ProcessStatus::Stopping => {
                Err(WatcherError::AlreadyRunning)
            }
            _ => {
                let id = self.state.instance + 1;
                self.state = WatcherState { status: ProcessStatus::Starting, instance: id, crash_reported: false };
                Ok(id)
            }
        }
    }

    /// The readiness marker of instance `id` was seen in its output.
    pub fn on_ready(&mut self, id: u64)
        ensures
            final(self)@ == ready_spec(old(self)@, id),
    {
        if id == self.state.instance {
            if let ProcessStatus::Starting = self.state.status {
                self.state.status = ProcessStatus::Running;
            }
        }
    }

    /// Instance `id` exited with `code`.
    pub fn on_exit(&mut self, id: u64, code: i32)
        ensures
            final(self)@ == exit_spec(old(self)@, id, code),
    {
        if id == self.state.instance {
            match self.state.status {
                ProcessStatus::Stopping => {
                    self.state.status = ProcessStatus::Stopped(code);
                }
                ProcessStatus::Starting | ProcessStatus::Running => {
                    self.state.status = ProcessStatus::Crashed(code);
                    self.state.crash_reported = false;
                }
                _ => {}
            }
        }
    }

    /// Instance `id` did not reach readiness in time. Returns whether the
    /// caller must now stop it (it is then `Stopping`).
    pub fn on_startup_timeout(&mut self, id: u64) -> (r: bool)
        ensures
            (final(self)@, r) == timeout_spec(old(self)@, id),
    {
        if id == self.state.instance {
            if let ProcessStatus::Starting = self.state.status {
                self.state.status = ProcessStatus::Stopping;
                return true;
            }
        }
        false
    }

    /// What the pending start returns, once it is settled.
    pub fn start_outcome(&self) -> (r: Option<Result<(), WatcherError>>)
        ensures
            r == start_outcome_spec(self@),
    {
        match self.state.status {
            ProcessStatus::Running => Some(Ok(())),
            ProcessStatus::Crashed(c) => Some(Err(WatcherError::ExitCode(c))),
            ProcessStatus::Stopped(c) => Some(Err(WatcherError::ExitCode(c))),
            ProcessStatus::Stopping => Some(Err(WatcherError::StartupTimeout)),
            _ => None,
        }
    }

    /// Begins a stop. Idempotent: with nothing live it is over at once,
    /// with the last known exit code, and nothing is signalled.
    pub fn begin_stop(&mut self) -> (r: StopStep)
        ensures
            (final(self)@, r) == stop_spec(old(self)@),
    {
        match self.state.status {
            ProcessStatus::NotStarted => StopStep::Done(0),
            ProcessStatus::Stopped(c) => StopStep::Done(c),
            ProcessStatus::Crashed(c) => StopStep::Done(c),
            ProcessStatus::Stopping => StopStep::AwaitExit(self.state.instance),
            _ => {
                self.state.status = ProcessStatus::Stopping;
                StopStep::Terminate(self.state.instance)
            }
        }
    }

    /// Whether instance `id` must be killed now that its grace period is over.
    pub fn needs_kill(&self, id: u64) -> (r: bool)
        ensures
            r == (id == self@.instance && self@.status is Stopping),
    {
        id == self.state.instance && matches!(self.state.status, ProcessStatus::Stopping)
    }

    /// Reports a crash of the newest instance, once.
    pub fn take_crash(&mut self) -> (r: Option<i32>)
        ensures
            (final(self)@, r) == take_crash_spec(old(self)@),
    {
        if let ProcessStatus::Crashed(c) = self.state.status {
            if !self.state.crash_reported {
                self.state.crash_reported = true;
                return Some(c);
            }
        }
        None
    }
}

/// Start, stop, start: the second start spawns a fresh instance, and what is
/// later observed of the first one (its exit, its readiness marker) leaves the
/// status of the newest one untouched.
pub proof fn lemma_restart_is_fresh_instance(w: WatcherState, code: i32, late_code: i32)
    requires
        !is_live(w.status),
        w.instance + 2 <= u64::MAX,
    ensures
        ({
            let (w1, r1) = start_spec(w);
            let (w2, s2) = stop_spec(w1);
            let w3 = exit_spec(w2, w1.instance, code);
            let (w4, r4) = start_spec(w3);
            &&& r1 == Ok::<u64, WatcherError>(w1.instance)
            &&& s2 == StopStep::Terminate(w1.instance)
            &&& w3.status == ProcessStatus::Stopped(code)
            &&& r4 == Ok::<u64, WatcherError>(w4.instance)
            &&& w4.instance == w1.instance + 1
            &&& w4.status == ProcessStatus::Starting
            &&& exit_spec(w4, w1.instance, late_code) == w4
            &&& ready_spec(w4, w1.instance) == w4
        }),
{
}

/// Stopping a watcher that never started, or whose process already ended, is
/// over at once: nothing is signalled and the state does not change.
pub proof fn lemma_stop_idempotent(w: WatcherState)
    requires
        w.status is NotStarted || w.status is Stopped || w.status is Crashed,
    ensures
        ({
            let (w1, s1) = stop_spec(w);
            let (w2, s2) = stop_spec(w1);
            &&& w1 == w
            &&& w2 == w
            &&& s1 is Done
            &&& s2 == s1
        }),
{
}

/// A process that exits while running, with no stop requested, is `Crashed`
/// with its exit code; the crash is reported exactly once, and nothing that
/// is observed later of that instance brings it back to `Running`.
pub proof fn lemma_crash_reported_once(w: WatcherState, code: i32)
    requires
        w.status is Running,
    ensures
        ({
            let w1 = exit_spec(w, w.instance, code);
            let (w2, first) = take_crash_spec(w1);
            let (w3, second) = take_crash_spec(w2);
            &&& w1.status == ProcessStatus::Crashed(code)
            &&& first == Some(code)
            &&& second is None
            &&& w3 == w2
            &&& ready_spec(w2, w.instance).status == ProcessStatus::Crashed(code)
            &&& exit_spec(w2, w.instance, code) == w2
            &&& timeout_spec(w2, w.instance).0 == w2
        }),
{
}

/// `needle` occurs in `hay` at position `i`.
pub open spec fn occurs_at(hay: Seq<char>, needle: Seq<char>, i: int) -> bool {
    0 <= i && i + needle.len() <= hay.len() && hay.subrange(i, i + needle.len()) == needle
}

pub open spec fn contains_spec(hay: Seq<char>, needle: Seq<char>) -> bool {
    exists|i: int| occurs_at(hay, needle, i)
}

fn occurs_at_exec(hay: &str, needle: &str, i: usize) -> (r: bool)
    requires
        i + needle@.len() <= hay@.len(),
    ensures
        r == occurs_at(hay@, needle@, i as int),
{
    let m = needle.unicode_len();
    let _n = hay.unicode_len();
    let mut j: usize = 0;
    while j < m
        invariant
            m == needle@.len(),
            hay@.len() <= usize::MAX,
            i + m <= hay@.len(),
            0 <= j <= m,
            forall|k: int| 0 <= k < j ==> hay@[i + k] == needle@[k],
        decreases m - j,
    {
        if hay.get_char(i + j) != needle.get_char(j) {
            assert(hay@.subrange(i as int, i + m)[j as int] != needle@[j as int]);
            return false;
        }
        j = j + 1;
    }
    assert(hay@.subrange(i as int, i + m) =~= needle@);
    true
}

/// Whether `needle` occurs anywhere in `hay`.
pub fn contains_text(hay: &str, needle: &str) -> (r: bool)
    ensures
        r == contains_spec(hay@, needle@),
{
    let n = hay.unicode_len();
    let m = needle.unicode_len();
    if m > n {
        return false;
    }
    let mut i: usize = 0;
    loop
        invariant
            n == hay@.len(),
            m == needle@.len(),
            m <= n,
            0 <= i <= n - m,
            forall|k: int| 0 <= k < i ==> !occurs_at(hay@, needle@, k),
        ensures
            i == n - m,
            forall|k: int| 0 <= k <= i ==> !occurs_at(hay@, needle@, k),
        decreases n - m - i,
    {
        if occurs_at_exec(hay, needle, i) {
            return true;
        }
        if i == n - m {
            break;
        }
        i = i + 1;
    }
    assert forall|k: int| !occurs_at(hay@, needle@, k) by {
        if 0 <= k && k + m <= n {
            assert(k <= i);
        }
    }
    false
}

/// What one line of a process's output means to its supervisor.
#[derive(Clone, Copy, PartialEq, Eq, Structural, Debug)]
pub enum LineClass {
    /// The line carries the readiness marker.
    Ready,
    /// The line carries the fatal-error pattern with this index.
    Fatal(usize),
    Plain,
}

/// The first fatal pattern found in `line`, by index.
pub open spec fn first_fatal(line: Seq<char>, patterns: Seq<Seq<char>>, from: nat) -> Option<usize>
    decreases patterns.len() - from,
{
    if from >= patterns.len() {
        None
    } else if contains_spec(line, patterns[from as int]) {
        Some(from as usize)
    } else {
        first_fatal(line, patterns, from + 1)
    }
}

pub open spec fn classify_spec(line: Seq<char>, ready_marker: Seq<char>, patterns: Seq<Seq<char>>) -> LineClass {
    match first_fatal(line, patterns, 0) {
        Some(k) => LineClass::Fatal(k),
        None => if contains_spec(line, ready_marker) { LineClass::Ready } else { LineClass::Plain },
    }
}

/// Classifies an output line: a known fatal-error pattern first (the first
/// one in `patterns` that occurs), then the readiness marker.
pub fn classify_line(line: &str, ready_marker: &str, patterns: &Vec<String>) -> (r: LineClass)
    ensures
        r == classify_spec(line@, ready_marker@, patterns@.map_values(|p: String| p@)),
{
    let ghost ps = patterns@.map_values(|p: String| p@);
    let mut k: usize = 0;
    while k < patterns.len()
        invariant
            ps == patterns@.map_values(|p: String| p@),
            0 <= k <= patterns@.len(),
            first_fatal(line@, ps, 0) == first_fatal(line@, ps, k as nat),
        decreases patterns@.len() - k,
    {
        if contains_text(line, patterns[k].as_str()) {
            return LineClass::Fatal(k);
        }
        k = k + 1;
    }
    if contains_text(line, ready_marker) {
        LineClass::Ready
    } else {
        LineClass::Plain
    }
}

} // verus!
