use vstd::prelude::*;

verus! {

/// The managed services, by role.
#[derive(Clone, Copy, PartialEq, Eq, Structural, Debug)]
pub enum ServiceRole {
    CpuMiner,
    GpuMiner,
    MmProxy,
    P2pool,
    Wallet,
    Node,
}

/// Where the GPU miner takes its work from.
#[derive(Clone, Copy, PartialEq, Eq, Structural, Debug)]
pub enum GpuNodeSource {
    BaseNode { port: u16 },
    P2Pool { port: u16 },
}

/// The GPU miner's upstream: the pool when pool mode is on, else the node.
pub fn gpu_node_source(p2pool_enabled: bool, p2pool_port: u16, node_port: u16) -> (r: GpuNodeSource)
    ensures
        r == (if p2pool_enabled { GpuNodeSource::P2Pool { port: p2pool_port } } else {
            GpuNodeSource::BaseNode { port: node_port }
        }),
{
    if p2pool_enabled {
        GpuNodeSource::P2Pool { port: p2pool_port }
    } else {
        GpuNodeSource::BaseNode { port: node_port }
    }
}

/// The telemetry id a service is launched with: the one given, or
/// `fallback` where it is empty.
pub fn telemetry_id_or(id: String, fallback: &str) -> (r: String)
    ensures
        r@ == (if id@.len() == 0 { fallback@ } else { id@ }),
{
    if id.as_str().unicode_len() == 0 {
        String::from_str(fallback)
    } else {
        id
    }
}

/// The telemetry id the proxy reports as when none is known.
pub fn proxy_telemetry_fallback() -> (r: &'static str)
    ensures
        r@ == "unknown_miner_tari_universe"@,
{
    "unknown_miner_tari_universe"
}

/// The telemetry id the GPU miner reports as when none is known.
pub fn miner_telemetry_fallback() -> (r: &'static str)
    ensures
        r@ == "tari-universe"@,
{
    "tari-universe"
}

/// One piece of outside work while mining starts.
#[derive(Clone, Copy, PartialEq, Eq, Structural, Debug)]
pub enum MiningStep {
    /// Ask the proxy for the port the CPU miner connects to.
    ReadProxyPort,
    StartCpu,
    /// Ask for the GPU miner's upstream port: the pool's when `true`, else the node's.
    ReadUpstreamPort(bool),
    StartGpu,
    /// Stop the CPU miner after a failure; its own failure is ignored.
    StopCpu,
    Done,
    Failed,
}

/// What the user asked for and what the machine offers.
#[derive(Clone, Copy, PartialEq, Eq, Structural, Debug)]
pub struct MiningRequest {
    pub cpu_enabled: bool,
    pub gpu_enabled: bool,
    pub gpu_available: bool,
    pub p2pool_enabled: bool,
}

pub open spec fn gpu_step(q: MiningRequest) -> MiningStep {
    if q.gpu_enabled && q.gpu_available { MiningStep::ReadUpstreamPort(q.p2pool_enabled) } else { MiningStep::Done }
}

pub open spec fn first_mining_step(q: MiningRequest) -> MiningStep {
    if q.cpu_enabled { MiningStep::ReadProxyPort } else { gpu_step(q) }
}

/// The step after `s` ended with `ok`. A failed miner start stops the CPU
/// miner before the whole start fails; a failed port lookup fails at once.
pub open spec fn next_mining_step(q: MiningRequest, s: MiningStep, ok: bool) -> MiningStep {
    match s {
        MiningStep::ReadProxyPort => if ok { MiningStep::StartCpu } else { MiningStep::Failed },
        MiningStep::StartCpu => if ok { gpu_step(q) } else { MiningStep::StopCpu },
        MiningStep::ReadUpstreamPort(_) => if ok { MiningStep::StartGpu } else { MiningStep::Failed },
        MiningStep::StartGpu => if ok { MiningStep::Done } else { MiningStep::StopCpu },
        MiningStep::StopCpu => MiningStep::Failed,
        MiningStep::Done => MiningStep::Done,
        MiningStep::Failed => MiningStep::Failed,
    }
}

fn after_cpu(q: MiningRequest) -> (r: MiningStep)
    ensures
        r == gpu_step(q),
{
    if q.gpu_enabled && q.gpu_available {
        MiningStep::ReadUpstreamPort(q.p2pool_enabled)
    } else {
        MiningStep::Done
    }
}

/// Starting the miners that are enabled: the CPU miner first, then the GPU
/// miner where one is available.
pub struct MiningStart {
    request: MiningRequest,
    step: MiningStep,
}

impl View for MiningStart {
    type V = (MiningRequest, MiningStep);

    closed spec fn view(&self) -> (MiningRequest, MiningStep) {
        (self.request, self.step)
    }
}

impl MiningStart {
    pub fn new(request: MiningRequest) -> (r: MiningStart)
        ensures
            r@ == (request, first_mining_step(request)),
    {
        let step = if request.cpu_enabled {
            MiningStep::ReadProxyPort
        } else {
            after_cpu(request)
        };
        MiningStart { request, step }
    }

    pub fn step(&self) -> (r: MiningStep)
        ensures
            r == self@.1,
    {
        self.step
    }

    /// Records how the current step ended and returns the next one.
    pub fn report(&mut self, ok: bool) -> (r: MiningStep)
        ensures
            final(self)@.0 == old(self)@.0,
            final(self)@.1 == next_mining_step(old(self)@.0, old(self)@.1, ok),
            r == final(self)@.1,
    {
        let next = match self.step {
            MiningStep::ReadProxyPort => if ok { MiningStep::StartCpu } else { MiningStep::Failed },
            MiningStep::StartCpu => if ok { after_cpu(self.request) } else { MiningStep::StopCpu },
            MiningStep::ReadUpstreamPort(_) => if ok { MiningStep::StartGpu } else { MiningStep::Failed },
            MiningStep::StartGpu => if ok { MiningStep::Done } else { MiningStep::StopCpu },
            MiningStep::StopCpu => MiningStep::Failed,
            MiningStep::Done => MiningStep::Done,
            MiningStep::Failed => MiningStep::Failed,
        };
        self.step = next;
        next
    }
}

/// Shutdown order: the reverse of the start order, so that nothing is
/// stopped while a service that depends on it still runs.
pub open spec fn shutdown_order() -> Seq<ServiceRole> {
    seq![
        ServiceRole::CpuMiner,
        ServiceRole::GpuMiner,
        ServiceRole::MmProxy,
        ServiceRole::P2pool,
        ServiceRole::Wallet,
        ServiceRole::Node,
    ]
}

pub open spec fn miners_order() -> Seq<ServiceRole> {
    seq![ServiceRole::CpuMiner, ServiceRole::GpuMiner]
}

/// What a stop sequence asks of the caller.
#[derive(Clone, Copy, PartialEq, Eq, Structural, Debug)]
pub enum StopTask {
    Stop(ServiceRole),
    /// Broadcast the shutdown signal to every supervisor.
    TriggerShutdown,
    Done,
    /// A stop failed; the sequence went no further.
    Failed(ServiceRole),
}

pub ghost struct StopView {
    pub order: Seq<ServiceRole>,
    pub next: nat,
    pub broadcast: bool,
    pub signalled: bool,
    pub failed: Option<ServiceRole>,
}

pub open spec fn stop_task_spec(s: StopView) -> StopTask {
    match s.failed {
        Some(r) => StopTask::Failed(r),
        None => if s.next < s.order.len() {
            StopTask::Stop(s.order[s.next as int])
        } else if s.broadcast && !s.signalled {
            StopTask::TriggerShutdown
        } else {
            StopTask::Done
        },
    }
}

pub open spec fn stop_report_spec(s: StopView, ok: bool) -> StopView {
    match stop_task_spec(s) {
        StopTask::Stop(r) => if ok {
            StopView { next: s.next + 1, ..s }
        } else {
            StopView { failed: Some(r), ..s }
        },
        StopTask::TriggerShutdown => StopView { signalled: true, ..s },
        _ => s,
    }
}

/// Stops services one at a time in a fixed order, going no further after
/// the first failure; a full shutdown then broadcasts the shutdown signal.
pub struct StopSequence {
    order: Vec<ServiceRole>,
    next: usize,
    broadcast: bool,
    signalled: bool,
    failed: Option<ServiceRole>,
}

impl View for StopSequence {
    type V = StopView;

    closed spec fn view(&self) -> StopView {
        StopView {
            order: self.order@,
            next: self.next as nat,
            broadcast: self.broadcast,
            signalled: self.signalled,
            failed: self.failed,
        }
    }
}

impl StopSequence {
    /// The application shutdown: every service, then the shutdown signal.
    pub fn shutdown() -> (r: StopSequence)
        ensures
            r@ == (StopView { order: shutdown_order(), next: 0, broadcast: true, signalled: false, failed: None }),
    {
        let mut order: Vec<ServiceRole> = Vec::new();
        order.push(ServiceRole::CpuMiner);
        order.push(ServiceRole::GpuMiner);
        order.push(ServiceRole::MmProxy);
        order.push(ServiceRole::P2pool);
        order.push(ServiceRole::Wallet);
        order.push(ServiceRole::Node);
        assert(order@ =~= shutdown_order());
        StopSequence { order, next: 0, broadcast: true, signalled: false, failed: None }
    }

    /// Stopping mining: the two miners only.
    pub fn miners() -> (r: StopSequence)
        ensures
            r@ == (StopView { order: miners_order(), next: 0, broadcast: false, signalled: false, failed: None }),
    {
        let mut order: Vec<ServiceRole> = Vec::new();
        order.push(ServiceRole::CpuMiner);
        order.push(ServiceRole::GpuMiner);
        assert(order@ =~= miners_order());
        StopSequence { order, next: 0, broadcast: false, signalled: false, failed: None }
    }

    pub fn task(&self) -> (r: StopTask)
        ensures
            r == stop_task_spec(self@),
    {
        match self.failed {
            Some(r) => StopTask::Failed(r),
            None => {
                if self.next < self.order.len() {
                    StopTask::Stop(self.order[self.next])
                } else if self.broadcast && !self.signalled {
                    StopTask::TriggerShutdown
                } else {
                    StopTask::Done
                }
            }
        }
    }

    /// Records how the current task ended.
    pub fn report(&mut self, ok: bool)
        ensures
            final(self)@ == stop_report_spec(old(self)@, ok),
    {
        let n = self.order.len();
        match self.task() {
            StopTask::Stop(r) => {
                assert(self.next < n);
                if ok {
                    self.next = self.next + 1;
                } else {
                    self.failed = Some(r);
                }
            }
            StopTask::TriggerShutdown => {
                self.signalled = true;
            }
            _ => {}
        }
    }
}

/// Forced update order: the CPU miner first, then the other binaries.
pub fn forced_update_order() -> (r: Vec<crate::resolver::BinaryName>)
    ensures
        r@ == seq![
            crate::resolver::BinaryName::Xmrig,
            crate::resolver::BinaryName::MinotariNode,
            crate::resolver::BinaryName::MergeMiningProxy,
            crate::resolver::BinaryName::Wallet,
            crate::resolver::BinaryName::GpuMiner,
        ],
{
    let mut v: Vec<crate::resolver::BinaryName> = Vec::new();
    v.push(crate::resolver::BinaryName::Xmrig);
    v.push(crate::resolver::BinaryName::MinotariNode);
    v.push(crate::resolver::BinaryName::MergeMiningProxy);
    v.push(crate::resolver::BinaryName::Wallet);
    v.push(crate::resolver::BinaryName::GpuMiner);
    assert(v@ =~= seq![
        crate::resolver::BinaryName::Xmrig,
        crate::resolver::BinaryName::MinotariNode,
        crate::resolver::BinaryName::MergeMiningProxy,
        crate::resolver::BinaryName::Wallet,
        crate::resolver::BinaryName::GpuMiner,
    ]);
    v
}

/// GPU availability, probed once before the GPU miner is first started and
/// independent of whether it runs.
pub struct GpuDetection {
    available: Option<bool>,
}

impl View for GpuDetection {
    type V = Option<bool>;

    closed spec fn view(&self) -> Option<bool> {
        self.available
    }
}

impl GpuDetection {
    pub fn new() -> (r: GpuDetection)
        ensures
            r@ is None,
    {
        GpuDetection { available: None }
    }

    /// Whether the probe has yet to run.
    pub fn needs_probe(&self) -> (r: bool)
        ensures
            r == (self@ is None),
    {
        self.available.is_none()
    }

    /// Records the probe's result; a later probe result is ignored.
    pub fn record(&mut self, available: bool)
        ensures
            final(self)@ == (match old(self)@ {
                Some(a) => Some(a),
                None => Some(available),
            }),
    {
        if self.available.is_none() {
            self.available = Some(available);
        }
    }

    /// GPU mining is possible: the probe ran and found a GPU.
    pub fn is_gpu_mining_available(&self) -> (r: bool)
        ensures
            r == (self@ == Some(true)),
    {
        match self.available {
            Some(a) => a,
            None => false,
        }
    }
}

} // verus!
