use crate::resolver::BinaryName;
use vstd::prelude::*;

verus! {

/// Exit code with which the node reports a corrupt local database.
pub const CORRUPT_DB_EXIT_CODE: i32 = 114;

/// How many times the node is started in all before a failure is fatal.
/// Only a corrupt-database failure earns another attempt.
pub const NODE_START_ATTEMPTS: u32 = 2;

/// The named stages reported to the observer while setting up.
#[derive(Clone, Copy, PartialEq, Eq, Structural, Debug)]
pub enum SetupStage {
    StartingUp,
    CheckingNode,
    CheckingMmProxy,
    CheckingWallet,
    CheckingGpuMiner,
    CheckingXmrig,
    CheckingShaP2pool,
    WaitingForWallet,
    PreparingForInitialSync,
    StartingP2pool,
    StartingMmProxy,
    ApplicationStarted,
}

impl SetupStage {
    /// The stage's symbolic name, as the observer knows it.
    pub fn title(&self) -> (r: &'static str)
        ensures
            r@ == stage_title(*self),
    {
        match self {
            SetupStage::StartingUp => "starting-up",
            SetupStage::CheckingNode => "checking-latest-version-node",
            SetupStage::CheckingMmProxy => "checking-latest-version-mmproxy",
            SetupStage::CheckingWallet => "checking-latest-version-wallet",
            SetupStage::CheckingGpuMiner => "checking-latest-version-gpuminer",
            SetupStage::CheckingXmrig => "checking-latest-version-xmrig",
            SetupStage::CheckingShaP2pool => "checking-latest-version-sha-p2pool",
            SetupStage::WaitingForWallet => "waiting-for-wallet",
            SetupStage::PreparingForInitialSync => "preparing-for-initial-sync",
            SetupStage::StartingP2pool => "starting-p2pool",
            SetupStage::StartingMmProxy => "starting-mmproxy",
            SetupStage::ApplicationStarted => "application-started",
        }
    }
}

pub open spec fn stage_title(s: SetupStage) -> Seq<char> {
    match s {
        SetupStage::StartingUp => "starting-up"@,
        SetupStage::CheckingNode => "checking-latest-version-node"@,
        SetupStage::CheckingMmProxy => "checking-latest-version-mmproxy"@,
        SetupStage::CheckingWallet => "checking-latest-version-wallet"@,
        SetupStage::CheckingGpuMiner => "checking-latest-version-gpuminer"@,
        SetupStage::CheckingXmrig => "checking-latest-version-xmrig"@,
        SetupStage::CheckingShaP2pool => "checking-latest-version-sha-p2pool"@,
        SetupStage::WaitingForWallet => "waiting-for-wallet"@,
        SetupStage::PreparingForInitialSync => "preparing-for-initial-sync"@,
        SetupStage::StartingP2pool => "starting-p2pool"@,
        SetupStage::StartingMmProxy => "starting-mmproxy"@,
        SetupStage::ApplicationStarted => "application-started"@,
    }
}

/// One piece of outside work of the setup sequence, performed by the caller.
#[derive(Clone, Copy, PartialEq, Eq, Structural, Debug)]
pub enum SetupAction {
    /// Tell the observer that setup begins.
    Announce,
    InitTelemetry,
    /// Resolve the highest known version of a binary (lookup only).
    ReadVersion(BinaryName),
    /// Store the time of this update check.
    RecordUpdateCheck,
    /// Bring a binary to its newest version.
    EnsureLatest(BinaryName),
    DetectGpu,
    StartNode,
    /// Delete the node's data directory.
    CleanNodeData,
    StartWallet,
    WaitNodeSync,
    StartP2pool,
    StartMmProxy,
    WaitMmProxyReady,
    /// Tell the observer that setup is complete.
    Complete,
}

/// What a failure of a step means for the sequence.
#[derive(Clone, Copy, PartialEq, Eq, Structural, Debug)]
pub enum FailurePolicy {
    /// Setup ends with an error.
    Fatal,
    /// Logged and passed over: the sequence goes on.
    Tolerated,
}

/// A progress report made before a step: the observer's total is set to
/// `max` and the stage is announced.
#[derive(Clone, Copy, PartialEq, Eq, Structural, Debug)]
pub struct ProgressMark {
    pub stage: SetupStage,
    pub max: u64,
}

#[derive(Clone, Copy, PartialEq, Eq, Structural, Debug)]
pub struct SetupStep {
    pub action: SetupAction,
    pub progress: Option<ProgressMark>,
}

pub open spec fn policy_of(a: SetupAction) -> FailurePolicy {
    match a {
        SetupAction::RecordUpdateCheck => FailurePolicy::Tolerated,
        SetupAction::EnsureLatest(_) => FailurePolicy::Tolerated,
        _ => FailurePolicy::Fatal,
    }
}

pub open spec fn plain(a: SetupAction) -> SetupStep {
    SetupStep { action: a, progress: None }
}

pub open spec fn marked(a: SetupAction, stage: SetupStage, max: u64) -> SetupStep {
    SetupStep { action: a, progress: Some(ProgressMark { stage, max }) }
}

/// Announce, telemetry, then the version lookups of the managed binaries.
pub open spec fn plan_head() -> Seq<SetupStep> {
    seq![
        plain(SetupAction::Announce),
        plain(SetupAction::InitTelemetry),
        plain(SetupAction::ReadVersion(BinaryName::MinotariNode)),
        plain(SetupAction::ReadVersion(BinaryName::MergeMiningProxy)),
        plain(SetupAction::ReadVersion(BinaryName::Wallet)),
        plain(SetupAction::ReadVersion(BinaryName::ShaP2pool)),
        plain(SetupAction::ReadVersion(BinaryName::GpuMiner)),
    ]
}

/// The periodic upgrade of every binary, in a fixed order, each with its
/// own share of progress.
pub open spec fn plan_updates() -> Seq<SetupStep> {
    seq![
        plain(SetupAction::RecordUpdateCheck),
        marked(SetupAction::EnsureLatest(BinaryName::MinotariNode), SetupStage::CheckingNode, 10),
        marked(SetupAction::EnsureLatest(BinaryName::MergeMiningProxy), SetupStage::CheckingMmProxy, 15),
        marked(SetupAction::EnsureLatest(BinaryName::Wallet), SetupStage::CheckingWallet, 20),
        marked(SetupAction::EnsureLatest(BinaryName::GpuMiner), SetupStage::CheckingGpuMiner, 25),
        plain(SetupAction::DetectGpu),
        marked(SetupAction::EnsureLatest(BinaryName::Xmrig), SetupStage::CheckingXmrig, 30),
        marked(SetupAction::EnsureLatest(BinaryName::ShaP2pool), SetupStage::CheckingShaP2pool, 35),
    ]
}

/// Services in dependency order: node, wallet and sync, pool when enabled,
/// then the proxy.
pub open spec fn plan_services(pool_enabled: bool) -> Seq<SetupStep> {
    let pool = if pool_enabled {
        seq![marked(SetupAction::StartP2pool, SetupStage::StartingP2pool, 85)]
    } else {
        Seq::<SetupStep>::empty()
    };
    seq![
        plain(SetupAction::StartNode),
        marked(SetupAction::StartWallet, SetupStage::WaitingForWallet, 40),
        marked(SetupAction::WaitNodeSync, SetupStage::PreparingForInitialSync, 75),
    ] + pool + seq![
        marked(SetupAction::StartMmProxy, SetupStage::StartingMmProxy, 100),
        plain(SetupAction::WaitMmProxyReady),
        plain(SetupAction::Complete),
    ]
}

/// The whole setup sequence.
pub open spec fn plan_spec(pool_enabled: bool, update_due: bool) -> Seq<SetupStep> {
    let updates = if update_due { plan_updates() } else { Seq::<SetupStep>::empty() };
    plan_head() + updates + plan_services(pool_enabled)
}

/// Progress never goes back along a sequence of steps.
pub open spec fn progress_monotonic(s: Seq<SetupStep>) -> bool {
    forall|i: int, j: int|
        0 <= i < j < s.len() && (#[trigger] s[i]).progress is Some && (#[trigger] s[j]).progress is Some
            ==> s[i].progress.unwrap().max <= s[j].progress.unwrap().max
}

fn step_plain(a: SetupAction) -> (r: SetupStep)
    ensures
        r == plain(a),
{
    SetupStep { action: a, progress: None }
}

fn step_marked(a: SetupAction, stage: SetupStage, max: u64) -> (r: SetupStep)
    ensures
        r == marked(a, stage, max),
{
    SetupStep { action: a, progress: Some(ProgressMark { stage, max }) }
}

/// The setup sequence for this session: the upgrade steps only when an
/// update check is due, the pool only when pool mode is on. Its progress
/// marks never go back.
pub fn setup_plan(pool_enabled: bool, update_due: bool) -> (r: Vec<SetupStep>)
    ensures
        r@ == plan_spec(pool_enabled, update_due),
        progress_monotonic(r@),
{
    let mut v: Vec<SetupStep> = Vec::new();
    v.push(step_plain(SetupAction::Announce));
    v.push(step_plain(SetupAction::InitTelemetry));
    v.push(step_plain(SetupAction::ReadVersion(BinaryName::MinotariNode)));
    v.push(step_plain(SetupAction::ReadVersion(BinaryName::MergeMiningProxy)));
    v.push(step_plain(SetupAction::ReadVersion(BinaryName::Wallet)));
    v.push(step_plain(SetupAction::ReadVersion(BinaryName::ShaP2pool)));
    v.push(step_plain(SetupAction::ReadVersion(BinaryName::GpuMiner)));
    assert(v@ =~= plan_head());
    let ghost head = v@;
    if update_due {
        v.push(step_plain(SetupAction::RecordUpdateCheck));
        v.push(step_marked(SetupAction::EnsureLatest(BinaryName::MinotariNode), SetupStage::CheckingNode, 10));
        v.push(step_marked(SetupAction::EnsureLatest(BinaryName::MergeMiningProxy), SetupStage::CheckingMmProxy, 15));
        v.push(step_marked(SetupAction::EnsureLatest(BinaryName::Wallet), SetupStage::CheckingWallet, 20));
        v.push(step_marked(SetupAction::EnsureLatest(BinaryName::GpuMiner), SetupStage::CheckingGpuMiner, 25));
        v.push(step_plain(SetupAction::DetectGpu));
        v.push(step_marked(SetupAction::EnsureLatest(BinaryName::Xmrig), SetupStage::CheckingXmrig, 30));
        v.push(step_marked(SetupAction::EnsureLatest(BinaryName::ShaP2pool), SetupStage::CheckingShaP2pool, 35));
        assert(v@ =~= head + plan_updates());
    }
    let ghost upto = v@;
    v.push(step_plain(SetupAction::StartNode));
    v.push(step_marked(SetupAction::StartWallet, SetupStage::WaitingForWallet, 40));
    v.push(step_marked(SetupAction::WaitNodeSync, SetupStage::PreparingForInitialSync, 75));
    if pool_enabled {
        v.push(step_marked(SetupAction::StartP2pool, SetupStage::StartingP2pool, 85));
    }
    v.push(step_marked(SetupAction::StartMmProxy, SetupStage::StartingMmProxy, 100));
    v.push(step_plain(SetupAction::WaitMmProxyReady));
    v.push(step_plain(SetupAction::Complete));
    assert(v@ =~= upto + plan_services(pool_enabled));
    assert(v@ =~= plan_spec(pool_enabled, update_due));
    proof {
        lemma_plan_monotonic(pool_enabled, update_due);
    }
    v
}

/// Every setup sequence reports monotonically increasing progress.
pub proof fn lemma_plan_monotonic(pool_enabled: bool, update_due: bool)
    ensures
        progress_monotonic(plan_spec(pool_enabled, update_due)),
{
    let s = plan_spec(pool_enabled, update_due);
    let h = plan_head().len();
    let u: int = if update_due { 8 } else { 0 };
    assert forall|i: int, j: int|
        0 <= i < j < s.len() && (#[trigger] s[i]).progress is Some && (#[trigger] s[j]).progress is Some
            implies s[i].progress.unwrap().max <= s[j].progress.unwrap().max by {
        // Marks are ranked by position; spelling out each index lets the
        // solver see the concrete step at that position.
        assert(h == 7);
        if update_due {
            assert(plan_updates().len() == 8);
        }
        let sv = plan_services(pool_enabled);
        assert(s =~= plan_head() + (if update_due { plan_updates() } else { Seq::<SetupStep>::empty() }) + sv);
        if i < h {
            assert(s[i] == plan_head()[i]);
        } else if i < h + u {
            assert(s[i] == plan_updates()[i - h]);
            if j < h + u {
                assert(s[j] == plan_updates()[j - h]);
            } else {
                assert(s[j] == sv[j - h - u]);
            }
        } else {
            assert(s[i] == sv[i - h - u]);
            assert(s[j] == sv[j - h - u]);
        }
    }
}

/// How a step that the caller performed ended.
#[derive(Clone, Copy, PartialEq, Eq, Structural, Debug)]
pub enum StepOutcome {
    Succeeded,
    /// Failed; for a process start, with the exit code it ended with, if any.
    Failed(Option<i32>),
}

/// Where a setup run stands.
#[derive(Clone, Copy, PartialEq, Eq, Structural, Debug)]
pub enum RunPhase {
    InProgress,
    Finished,
    /// Setup ended with an error in the step with this action.
    Failed(SetupAction),
}

/// The state of a run besides its plan: the position in the plan, how many
/// node starts failed, and whether the node's data must be cleaned next.
#[derive(Clone, Copy, PartialEq, Eq, Structural, Debug)]
pub struct RunState {
    pub cursor: usize,
    pub node_failures: u32,
    pub cleaning: bool,
    pub phase: RunPhase,
}

/// The step the caller must perform now, if any.
pub open spec fn current_spec(plan: Seq<SetupStep>, s: RunState) -> Option<SetupStep> {
    if !(s.phase is InProgress) || s.cursor >= plan.len() {
        None
    } else if s.cleaning {
        Some(plain(SetupAction::CleanNodeData))
    } else {
        Some(plan[s.cursor as int])
    }
}

pub open spec fn advance(plan: Seq<SetupStep>, s: RunState) -> RunState {
    if s.cursor + 1 >= plan.len() {
        RunState { cursor: (s.cursor + 1) as usize, phase: RunPhase::Finished, ..s }
    } else {
        RunState { cursor: (s.cursor + 1) as usize, ..s }
    }
}

/// A node start failed with `code`: another attempt is owed after cleaning.
pub open spec fn node_retry_owed(s: RunState, code: Option<i32>) -> bool {
    code == Some(CORRUPT_DB_EXIT_CODE) && s.node_failures + 1 < NODE_START_ATTEMPTS
}

/// The state after the caller reports the outcome of the current step.
pub open spec fn report_spec(plan: Seq<SetupStep>, s: RunState, outcome: StepOutcome) -> RunState {
    match current_spec(plan, s) {
        None => s,
        Some(step) => if step.action is CleanNodeData {
            match outcome {
                StepOutcome::Succeeded => RunState { cleaning: false, ..s },
                StepOutcome::Failed(_) => RunState { phase: RunPhase::Failed(SetupAction::CleanNodeData), ..s },
            }
        } else if step.action is StartNode {
            match outcome {
                StepOutcome::Succeeded => advance(plan, s),
                StepOutcome::Failed(code) => if node_retry_owed(s, code) {
                    RunState { node_failures: (s.node_failures + 1) as u32, cleaning: true, ..s }
                } else {
                    RunState { phase: RunPhase::Failed(SetupAction::StartNode), ..s }
                },
            }
        } else {
            match outcome {
                StepOutcome::Succeeded => advance(plan, s),
                StepOutcome::Failed(_) => if policy_of(step.action) is Tolerated {
                    advance(plan, s)
                } else {
                    RunState { phase: RunPhase::Failed(step.action), ..s }
                },
            }
        }
    }
}

/// One run of the setup sequence: it hands out the step to perform and
/// moves on according to the reported outcome and each step's policy. A
/// node start that fails with the corrupt-database code is retried after
/// the node's data is cleaned, up to the attempt limit.
pub struct SetupRun {
    plan: Vec<SetupStep>,
    state: RunState,
}

impl View for SetupRun {
    type V = (Seq<SetupStep>, RunState);

    closed spec fn view(&self) -> (Seq<SetupStep>, RunState) {
        (self.plan@, self.state)
    }
}

impl SetupRun {
    pub fn new(pool_enabled: bool, update_due: bool) -> (r: SetupRun)
        ensures
            r@.0 == plan_spec(pool_enabled, update_due),
            r@.1 == (RunState { cursor: 0, node_failures: 0, cleaning: false, phase: RunPhase::InProgress }),
    {
        SetupRun {
            plan: setup_plan(pool_enabled, update_due),
            state: RunState { cursor: 0, node_failures: 0, cleaning: false, phase: RunPhase::InProgress },
        }
    }

    pub fn state(&self) -> (r: RunState)
        ensures
            r == self@.1,
    {
        self.state
    }

    /// The step to perform now; `None` once the run has finished or failed.
    pub fn current(&self) -> (r: Option<SetupStep>)
        ensures
            r == current_spec(self@.0, self@.1),
    {
        if !matches!(self.state.phase, RunPhase::InProgress) || self.state.cursor >= self.plan.len() {
            None
        } else if self.state.cleaning {
            Some(SetupStep { action: SetupAction::CleanNodeData, progress: None })
        } else {
            Some(self.plan[self.state.cursor])
        }
    }

    /// Records how the current step ended.
    pub fn report(&mut self, outcome: StepOutcome)
        ensures
            final(self)@.0 == old(self)@.0,
            final(self)@.1 == report_spec(old(self)@.0, old(self)@.1, outcome),
    {
        let step = match self.current() {
            None => return,
            Some(step) => step,
        };
        match step.action {
            SetupAction::CleanNodeData => match outcome {
                StepOutcome::Succeeded => {
                    self.state.cleaning = false;
                }
                StepOutcome::Failed(_) => {
                    self.state.phase = RunPhase::Failed(SetupAction::CleanNodeData);
                }
            },
            SetupAction::StartNode => match outcome {
                StepOutcome::Succeeded => self.advance(),
                StepOutcome::Failed(code) => {
                    let corrupt = match code {
                        Some(c) => c == CORRUPT_DB_EXIT_CODE,
                        None => false,
                    };
                    if corrupt && self.state.node_failures < NODE_START_ATTEMPTS - 1 {
                        self.state.node_failures = self.state.node_failures + 1;
                        self.state.cleaning = true;
                    } else {
                        self.state.phase = RunPhase::Failed(SetupAction::StartNode);
                    }
                }
            },
            _ => match outcome {
                StepOutcome::Succeeded => self.advance(),
                StepOutcome::Failed(_) => {
                    let tolerated = match step.action {
                        SetupAction::RecordUpdateCheck => true,
                        SetupAction::EnsureLatest(_) => true,
                        _ => false,
                    };
                    if tolerated {
                        self.advance();
                    } else {
                        self.state.phase = RunPhase::Failed(step.action);
                    }
                }
            },
        }
    }

    fn advance(&mut self)
        requires
            old(self)@.1.cursor < old(self)@.0.len(),
        ensures
            final(self)@.0 == old(self)@.0,
            final(self)@.1 == advance(old(self)@.0, old(self)@.1),
    {
        let n = self.plan.len();
        self.state.cursor = self.state.cursor + 1;
        if self.state.cursor >= n {
            self.state.phase = RunPhase::Finished;
        }
    }
}

/// The node-start policy: a start that fails with the corrupt-database code
/// gets the node's data cleaned once and is retried; when the retry fails
/// too, with any code, setup fails at the node start and never goes on to
/// the wallet. Any other first failure is fatal at once.
pub proof fn lemma_node_retry_once(plan: Seq<SetupStep>, s: RunState, code: Option<i32>, other: Option<i32>)
    requires
        s.cursor < plan.len(),
        plan[s.cursor as int].action is StartNode,
        s.phase is InProgress,
        !s.cleaning,
        s.node_failures == 0,
    ensures
        ({
            let s1 = report_spec(plan, s, StepOutcome::Failed(Some(CORRUPT_DB_EXIT_CODE)));
            let s2 = report_spec(plan, s1, StepOutcome::Succeeded);
            let s3 = report_spec(plan, s2, StepOutcome::Failed(code));
            &&& current_spec(plan, s1) == Some(plain(SetupAction::CleanNodeData))
            &&& current_spec(plan, s2) == Some(plan[s.cursor as int])
            &&& s3.phase == RunPhase::Failed(SetupAction::StartNode)
            &&& s3.cursor == s.cursor
            &&& current_spec(plan, s3) is None
        }),
        other != Some(CORRUPT_DB_EXIT_CODE) ==> report_spec(plan, s, StepOutcome::Failed(other)).phase
            == RunPhase::Failed(SetupAction::StartNode),
{
}

/// Whether a setup session may begin, and whether one has completed.
pub struct SetupSession {
    running: bool,
    finished: bool,
}

/// Why a setup request was turned away.
#[derive(Clone, Copy, PartialEq, Eq, Structural, Debug)]
pub enum SessionRefusal {
    AlreadyRunning,
    AlreadyFinished,
}

impl View for SetupSession {
    type V = (bool, bool);

    closed spec fn view(&self) -> (bool, bool) {
        (self.running, self.finished)
    }
}

impl SetupSession {
    pub fn new() -> (r: SetupSession)
        ensures
            r@ == (false, false),
    {
        SetupSession { running: false, finished: false }
    }

    /// Setup runs once per session: refused while one runs or after one finished.
    pub fn try_begin(&mut self) -> (r: Result<(), SessionRefusal>)
        ensures
            old(self)@.1 ==> r == Err::<(), SessionRefusal>(SessionRefusal::AlreadyFinished) && final(self)@ == old(self)@,
            !old(self)@.1 && old(self)@.0 ==> r == Err::<(), SessionRefusal>(SessionRefusal::AlreadyRunning)
                && final(self)@ == old(self)@,
            !old(self)@.1 && !old(self)@.0 ==> r is Ok && final(self)@ == (true, false),
    {
        if self.finished {
            Err(SessionRefusal::AlreadyFinished)
        } else if self.running {
            Err(SessionRefusal::AlreadyRunning)
        } else {
            self.running = true;
            Ok(())
        }
    }

    /// The running session ended; `succeeded` marks setup as finished.
    pub fn end(&mut self, succeeded: bool)
        ensures
            final(self)@ == (false, old(self)@.1 || succeeded),
    {
        self.running = false;
        self.finished = self.finished || succeeded;
    }

    pub fn is_finished(&self) -> (r: bool)
        ensures
            r == self@.1,
    {
        self.finished
    }
}

} // verus!
