use crate::watcher::{
    exit_spec, start_spec, stop_spec, ProcessStatus, ProcessWatcher, StopStep, WatcherError, WatcherState,
};
use vstd::prelude::*;

verus! {

/// Why a domain query against a managed service gave no answer. Both are
/// expected while services start or stop.
#[derive(Clone, Copy, PartialEq, Eq, Structural, Debug)]
pub enum QueryError {
    /// No instance was ever started.
    NotStarted,
    /// The service is starting, stopping, gone, or did not answer in time.
    NotReady,
}

/// How an RPC call against a running service failed.
#[derive(Clone, Copy, PartialEq, Eq, Structural, Debug)]
pub enum RpcFailure {
    Timeout,
    ConnectionRefused,
}

/// Whether a query can be sent to a service in state `w`, `answering`
/// telling whether its readiness probe passed.
pub open spec fn gate_spec(w: WatcherState, answering: bool) -> Result<(), QueryError> {
    match w.status {
        ProcessStatus::NotStarted => Err(QueryError::NotStarted),
        ProcessStatus::Running => if answering { Ok(()) } else { Err(QueryError::NotReady) },
        _ => Err(QueryError::NotReady),
    }
}

/// Turns the outcome of an RPC call into a query result: every transport
/// failure is the typed "not ready" condition.
pub fn rpc_result<T>(r: Result<T, RpcFailure>) -> (q: Result<T, QueryError>)
    ensures
        match r {
            Ok(v) => q == Ok::<T, QueryError>(v),
            Err(_) => q == Err::<T, QueryError>(QueryError::NotReady),
        },
{
    match r {
        Ok(v) => Ok(v),
        Err(_) => Err(QueryError::NotReady),
    }
}

/// A manager of one service role: its watcher plus whether the running
/// instance answered its readiness probe, so that "started" means
/// "answering requests".
pub struct ServiceManager {
    watcher: ProcessWatcher,
    answering: bool,
}

impl View for ServiceManager {
    type V = (WatcherState, bool);

    closed spec fn view(&self) -> (WatcherState, bool) {
        (self.watcher@, self.answering)
    }
}

impl ServiceManager {
    pub fn new() -> (r: ServiceManager)
        ensures
            r@.0.status == ProcessStatus::NotStarted,
            r@.0.instance == 0,
            !r@.1,
    {
        ServiceManager { watcher: ProcessWatcher::new(), answering: false }
    }

    pub fn status(&self) -> (r: ProcessStatus)
        ensures
            r == self@.0.status,
    {
        self.watcher.status()
    }

    pub fn watcher_state(&self) -> (r: WatcherState)
        ensures
            r == self@.0,
    {
        self.watcher.state()
    }

    /// Begins a start of the service; see `ProcessWatcher::begin_start`.
    pub fn begin_start(&mut self) -> (r: Result<u64, WatcherError>)
        requires
            old(self)@.0.instance < u64::MAX,
        ensures
            (final(self)@.0, r) == start_spec(old(self)@.0),
            final(self)@.1 == (old(self)@.1 && r is Err),
    {
        let r = self.watcher.begin_start();
        if r.is_ok() {
            self.answering = false;
        }
        r
    }

    pub fn on_ready(&mut self, id: u64)
        ensures
            final(self)@.0 == crate::watcher::ready_spec(old(self)@.0, id),
            final(self)@.1 == old(self)@.1,
    {
        self.watcher.on_ready(id);
    }

    /// Instance `id` exited: it answers no more.
    pub fn on_exit(&mut self, id: u64, code: i32)
        ensures
            final(self)@.0 == exit_spec(old(self)@.0, id, code),
            final(self)@.1 == (old(self)@.1 && final(self)@.0.status is Running),
    {
        self.watcher.on_exit(id, code);
        if !matches!(self.watcher.status(), ProcessStatus::Running) {
            self.answering = false;
        }
    }

    /// Records the readiness probe of the running instance.
    pub fn on_probe(&mut self, ok: bool)
        ensures
            final(self)@.0 == old(self)@.0,
            final(self)@.1 == (ok && old(self)@.0.status is Running),
    {
        self.answering = ok && matches!(self.watcher.status(), ProcessStatus::Running);
    }

    /// Whether a domain query may be sent now.
    pub fn query_gate(&self) -> (r: Result<(), QueryError>)
        ensures
            r == gate_spec(self@.0, self@.1),
    {
        match self.watcher.status() {
            ProcessStatus::NotStarted => Err(QueryError::NotStarted),
            ProcessStatus::Running => {
                if self.answering {
                    Ok(())
                } else {
                    Err(QueryError::NotReady)
                }
            }
            _ => Err(QueryError::NotReady),
        }
    }

    /// Begins a stop; see `ProcessWatcher::begin_stop`.
    pub fn begin_stop(&mut self) -> (r: StopStep)
        ensures
            (final(self)@.0, r) == stop_spec(old(self)@.0),
            final(self)@.1 == (old(self)@.1 && final(self)@.0.status is Running),
    {
        let r = self.watcher.begin_stop();
        if !matches!(self.watcher.status(), ProcessStatus::Running) {
            self.answering = false;
        }
        r
    }
}

/// Launch settings of the merge-mining proxy: where its upstream is (the
/// node directly, or the pool) and what it reports as.
pub struct ProxyConfig {
    pub tari_address: String,
    pub base_node_grpc_port: u16,
    pub p2pool_enabled: bool,
    pub p2pool_grpc_port: u16,
    pub telemetry_id: String,
}

pub ghost struct ProxyConfigView {
    pub tari_address: Seq<char>,
    pub base_node_grpc_port: u16,
    pub p2pool_enabled: bool,
    pub p2pool_grpc_port: u16,
    pub telemetry_id: Seq<char>,
}

impl View for ProxyConfig {
    type V = ProxyConfigView;

    open spec fn view(&self) -> ProxyConfigView {
        ProxyConfigView {
            tari_address: self.tari_address@,
            base_node_grpc_port: self.base_node_grpc_port,
            p2pool_enabled: self.p2pool_enabled,
            p2pool_grpc_port: self.p2pool_grpc_port,
            telemetry_id: self.telemetry_id@,
        }
    }
}

/// The port the proxy takes its block templates from.
pub open spec fn upstream_port_spec(c: ProxyConfigView) -> u16 {
    if c.p2pool_enabled { c.p2pool_grpc_port } else { c.base_node_grpc_port }
}

pub open spec fn opt_config_view(o: Option<ProxyConfig>) -> Option<ProxyConfigView> {
    match o {
        Some(c) => Some(c@),
        None => None,
    }
}

impl ProxyConfig {
    pub fn new(
        tari_address: String,
        base_node_grpc_port: u16,
        p2pool_enabled: bool,
        p2pool_grpc_port: u16,
        telemetry_id: String,
    ) -> (r: ProxyConfig)
        ensures
            r@ == (ProxyConfigView {
                tari_address: tari_address@,
                base_node_grpc_port,
                p2pool_enabled,
                p2pool_grpc_port,
                telemetry_id: telemetry_id@,
            }),
    {
        ProxyConfig { tari_address, base_node_grpc_port, p2pool_enabled, p2pool_grpc_port, telemetry_id }
    }

    pub fn copied(&self) -> (r: ProxyConfig)
        ensures
            r@ == self@,
    {
        ProxyConfig {
            tari_address: self.tari_address.clone(),
            base_node_grpc_port: self.base_node_grpc_port,
            p2pool_enabled: self.p2pool_enabled,
            p2pool_grpc_port: self.p2pool_grpc_port,
            telemetry_id: self.telemetry_id.clone(),
        }
    }

    /// Points the proxy at the pool listening on `port`.
    pub fn set_to_use_p2pool(&mut self, port: u16)
        ensures
            final(self)@ == (ProxyConfigView { p2pool_enabled: true, p2pool_grpc_port: port, ..old(self)@ }),
    {
        self.p2pool_enabled = true;
        self.p2pool_grpc_port = port;
    }

    /// Points the proxy at the node's gRPC port.
    pub fn set_to_use_base_node(&mut self, port: u16)
        ensures
            final(self)@ == (ProxyConfigView { p2pool_enabled: false, base_node_grpc_port: port, ..old(self)@ }),
    {
        self.p2pool_enabled = false;
        self.base_node_grpc_port = port;
    }

    pub fn upstream_port(&self) -> (r: u16)
        ensures
            r == upstream_port_spec(self@),
    {
        if self.p2pool_enabled {
            self.p2pool_grpc_port
        } else {
            self.base_node_grpc_port
        }
    }
}

/// What switching pool mode asks of the running proxy.
#[derive(Clone, Copy, PartialEq, Eq, Structural, Debug)]
pub enum PoolToggle {
    /// The proxy was never configured: only the setting changes.
    NotInitialized,
    /// The proxy already uses the requested upstream.
    Unchanged,
    /// Reconfigure the proxy to use the pool.
    SwitchToPool,
    /// Reconfigure the proxy to use the node; its gRPC port is needed.
    SwitchToNode,
}

pub open spec fn pool_toggle_spec(current: Option<ProxyConfigView>, enabled: bool) -> PoolToggle {
    match current {
        None => PoolToggle::NotInitialized,
        Some(c) => if c.p2pool_enabled == enabled {
            PoolToggle::Unchanged
        } else if enabled {
            PoolToggle::SwitchToPool
        } else {
            PoolToggle::SwitchToNode
        },
    }
}

/// Decides what setting pool mode to `enabled` does to the proxy whose
/// configuration is `current`.
pub fn plan_pool_toggle(current: &Option<ProxyConfig>, enabled: bool) -> (r: PoolToggle)
    ensures
        r == pool_toggle_spec(opt_config_view(*current), enabled),
{
    match current {
        None => PoolToggle::NotInitialized,
        Some(c) => {
            if c.p2pool_enabled == enabled {
                PoolToggle::Unchanged
            } else if enabled {
                PoolToggle::SwitchToPool
            } else {
                PoolToggle::SwitchToNode
            }
        }
    }
}

/// The configuration the proxy is restarted with when pool mode changes:
/// the current one, pointed at the pool (`pool_port`) or at the node
/// (`node_port`), as `toggle` says.
pub fn toggled_config(current: &ProxyConfig, toggle: PoolToggle, pool_port: u16, node_port: u16) -> (r: ProxyConfig)
    ensures
        toggle is SwitchToPool ==> r@ == (ProxyConfigView { p2pool_enabled: true, p2pool_grpc_port: pool_port, ..current@ }),
        toggle is SwitchToNode ==> r@ == (ProxyConfigView { p2pool_enabled: false, base_node_grpc_port: node_port, ..current@ }),
        !(toggle is SwitchToPool) && !(toggle is SwitchToNode) ==> r@ == current@,
{
    let mut c = current.copied();
    match toggle {
        PoolToggle::SwitchToPool => c.set_to_use_p2pool(pool_port),
        PoolToggle::SwitchToNode => c.set_to_use_base_node(node_port),
        _ => {}
    }
    c
}

pub ghost struct ProxyManagerView {
    pub watcher: WatcherState,
    pub config: Option<ProxyConfigView>,
    pub pending: Option<ProxyConfigView>,
}

/// The merge-mining proxy's manager: a watcher, the configuration of the
/// running instance, and the configuration waiting for a restart in place.
/// A status query reads the configuration as one value: during a change it
/// is the old one until the new instance is started, then the new one.
pub struct ProxyManager {
    watcher: ProcessWatcher,
    config: Option<ProxyConfig>,
    pending: Option<ProxyConfig>,
}

impl View for ProxyManager {
    type V = ProxyManagerView;

    closed spec fn view(&self) -> ProxyManagerView {
        ProxyManagerView {
            watcher: self.watcher@,
            config: opt_config_view(self.config),
            pending: opt_config_view(self.pending),
        }
    }
}

pub open spec fn proxy_start_spec(m: ProxyManagerView, c: ProxyConfigView) -> (ProxyManagerView, Result<u64, WatcherError>) {
    let (w, r) = start_spec(m.watcher);
    if r is Ok {
        (ProxyManagerView { watcher: w, config: Some(c), ..m }, r)
    } else {
        (m, r)
    }
}

pub open spec fn change_spec(m: ProxyManagerView, c: ProxyConfigView) -> (ProxyManagerView, StopStep) {
    let (w, s) = stop_spec(m.watcher);
    (ProxyManagerView { watcher: w, pending: Some(c), ..m }, s)
}

pub open spec fn proxy_exit_spec(m: ProxyManagerView, id: u64, code: i32) -> ProxyManagerView {
    ProxyManagerView { watcher: exit_spec(m.watcher, id, code), ..m }
}

pub open spec fn finish_change_spec(m: ProxyManagerView) -> (ProxyManagerView, Option<Result<u64, WatcherError>>) {
    match m.pending {
        None => (m, None),
        Some(c) => {
            let (w, r) = start_spec(m.watcher);
            if r is Ok {
                (ProxyManagerView { watcher: w, config: Some(c), pending: None }, Some(r))
            } else {
                (m, Some(r))
            }
        },
    }
}

impl ProxyManager {
    pub fn new() -> (r: ProxyManager)
        ensures
            r@.watcher.status == ProcessStatus::NotStarted,
            r@.watcher.instance == 0,
            r@.config is None,
            r@.pending is None,
    {
        ProxyManager { watcher: ProcessWatcher::new(), config: None, pending: None }
    }

    pub fn status(&self) -> (r: ProcessStatus)
        ensures
            r == self@.watcher.status,
    {
        self.watcher.status()
    }

    /// The configuration of the current instance, whole.
    pub fn config(&self) -> (r: Option<ProxyConfig>)
        ensures
            opt_config_view(r) == self@.config,
    {
        match &self.config {
            Some(c) => Some(c.copied()),
            None => None,
        }
    }

    /// Begins a start with `config`; it becomes the current configuration
    /// when the start is accepted.
    pub fn begin_start(&mut self, config: ProxyConfig) -> (r: Result<u64, WatcherError>)
        requires
            old(self)@.watcher.instance < u64::MAX,
        ensures
            (final(self)@, r) == proxy_start_spec(old(self)@, config@),
    {
        let r = self.watcher.begin_start();
        if r.is_ok() {
            self.config = Some(config);
        }
        r
    }

    pub fn on_ready(&mut self, id: u64)
        ensures
            final(self)@ == (ProxyManagerView { watcher: crate::watcher::ready_spec(old(self)@.watcher, id), ..old(self)@ }),
    {
        self.watcher.on_ready(id);
    }

    pub fn on_exit(&mut self, id: u64, code: i32)
        ensures
            final(self)@ == proxy_exit_spec(old(self)@, id, code),
    {
        self.watcher.on_exit(id, code);
    }

    /// Begins a restart in place with `config`: the running instance is
    /// stopped first; `finish_change` starts the new one once it is gone.
    pub fn change_config(&mut self, config: ProxyConfig) -> (r: StopStep)
        ensures
            (final(self)@, r) == change_spec(old(self)@, config@),
    {
        self.pending = Some(config);
        self.watcher.begin_stop()
    }

    /// Starts the instance with the pending configuration, if a change is
    /// pending; `None` where none is.
    pub fn finish_change(&mut self) -> (r: Option<Result<u64, WatcherError>>)
        requires
            old(self)@.watcher.instance < u64::MAX,
        ensures
            (final(self)@, r) == finish_change_spec(old(self)@),
    {
        if self.pending.is_none() {
            return None;
        }
        let r = self.watcher.begin_start();
        if r.is_ok() {
            let mut next: Option<ProxyConfig> = None;
            std::mem::swap(&mut next, &mut self.pending);
            self.config = next;
        }
        Some(r)
    }

    /// Begins a stop; see `ProcessWatcher::begin_stop`.
    pub fn begin_stop(&mut self) -> (r: StopStep)
        ensures
            (final(self)@.watcher, r) == stop_spec(old(self)@.watcher),
            final(self)@.config == old(self)@.config,
            final(self)@.pending == old(self)@.pending,
    {
        self.watcher.begin_stop()
    }
}

/// A pool-mode change of a running proxy stops it once and starts it once:
/// the new instance runs the new configuration, and at every point of the
/// change the configuration read is the old one or the new one, whole.
pub proof fn lemma_change_restarts_once(m: ProxyManagerView, old_c: ProxyConfigView, new_c: ProxyConfigView, code: i32)
    requires
        m.watcher.status is Running,
        m.config == Some(old_c),
        m.watcher.instance < u64::MAX,
    ensures
        ({
            let (m1, s1) = change_spec(m, new_c);
            let m2 = proxy_exit_spec(m1, m.watcher.instance, code);
            let (m3, r3) = finish_change_spec(m2);
            &&& s1 == StopStep::Terminate(m.watcher.instance)
            &&& m1.config == Some(old_c)
            &&& m2.config == Some(old_c)
            &&& m2.watcher.status == ProcessStatus::Stopped(code)
            &&& r3 == Some(Ok::<u64, WatcherError>((m.watcher.instance + 1) as u64))
            &&& m3.config == Some(new_c)
            &&& m3.pending is None
            &&& m3.watcher.status is Starting
            &&& m3.watcher.instance == m.watcher.instance + 1
            &&& finish_change_spec(m3).1 is None
        }),
{
}

/// What the node reports of its synchronisation.
#[derive(Clone, Copy, PartialEq, Eq, Structural, Debug)]
pub struct SyncReport {
    pub is_synced: bool,
    pub local_height: u64,
    pub tip_height: u64,
}

/// What waiting for the node's sync does after one poll.
#[derive(Clone, Copy, PartialEq, Eq, Structural, Debug)]
pub enum SyncDecision {
    Synced,
    /// Report this percentage and poll again after the interval.
    Continue(u64),
    /// The maximum wait is exceeded.
    GiveUp,
    /// The shutdown signal was seen: stop waiting at once.
    Cancelled,
}

/// Sync progress in whole percent, capped at 100; zero while the tip is unknown.
pub open spec fn sync_percent_spec(local: u64, tip: u64) -> u64 {
    if tip == 0 {
        0
    } else if local >= tip {
        100
    } else {
        (local as int * 100 / tip as int) as u64
    }
}

pub open spec fn sync_decision_spec(report: Option<SyncReport>, polls_done: u64, max_polls: u64, cancelled: bool) -> SyncDecision {
    if cancelled {
        SyncDecision::Cancelled
    } else if report is Some && report.unwrap().is_synced {
        SyncDecision::Synced
    } else if polls_done >= max_polls {
        SyncDecision::GiveUp
    } else {
        match report {
            Some(r) => SyncDecision::Continue(sync_percent_spec(r.local_height, r.tip_height)),
            None => SyncDecision::Continue(0),
        }
    }
}

/// Decides after one poll of the node (`None`: it did not answer), with
/// `polls_done` polls made of at most `max_polls`.
pub fn sync_decision(report: Option<SyncReport>, polls_done: u64, max_polls: u64, cancelled: bool) -> (r: SyncDecision)
    ensures
        r == sync_decision_spec(report, polls_done, max_polls, cancelled),
{
    if cancelled {
        return SyncDecision::Cancelled;
    }
    match report {
        Some(rep) => {
            if rep.is_synced {
                SyncDecision::Synced
            } else if polls_done >= max_polls {
                SyncDecision::GiveUp
            } else if rep.tip_height == 0 {
                SyncDecision::Continue(0)
            } else if rep.local_height >= rep.tip_height {
                SyncDecision::Continue(100)
            } else {
                let scaled: u128 = rep.local_height as u128 * 100;
                let pct: u128 = scaled / rep.tip_height as u128;
                assert(pct <= 100) by (nonlinear_arith)
                    requires
                        pct == scaled / rep.tip_height as u128,
                        scaled == rep.local_height as u128 * 100,
                        rep.local_height < rep.tip_height,
                ;
                SyncDecision::Continue(pct as u64)
            }
        }
        None => {
            if polls_done >= max_polls {
                SyncDecision::GiveUp
            } else {
                SyncDecision::Continue(0)
            }
        }
    }
}

} // verus!
