use universe_supervisor::guard::{AlreadyInProgress, BusyFlag};
use universe_supervisor::mining::{
    forced_update_order, gpu_node_source, GpuDetection, miner_telemetry_fallback, proxy_telemetry_fallback, telemetry_id_or,
    GpuNodeSource, MiningRequest, MiningStart, MiningStep, ServiceRole, StopSequence, StopTask,
};
use universe_supervisor::resolver::BinaryName;
use universe_supervisor::services::{
    plan_pool_toggle, rpc_result, sync_decision, toggled_config, PoolToggle, ProxyConfig, ProxyManager,
    QueryError, RpcFailure, ServiceManager, SyncDecision, SyncReport,
};
use universe_supervisor::watcher::{ProcessStatus, StopStep};

fn proxy_config(pool: bool) -> ProxyConfig {
    ProxyConfig::new("addr".to_string(), 18142, pool, 18145, "miner-1".to_string())
}

#[test]
fn pool_toggle_restarts_proxy_once() {
    let mut m = ProxyManager::new();
    let id = m.begin_start(proxy_config(true)).unwrap();
    m.on_ready(id);
    let current = m.config();
    let toggle = plan_pool_toggle(&current, false);
    assert_eq!(toggle, PoolToggle::SwitchToNode);
    let next = toggled_config(current.as_ref().unwrap(), toggle, 18145, 18150);
    assert_eq!(m.change_config(next), StopStep::Terminate(id));
    let during = m.config().unwrap();
    assert!(during.p2pool_enabled);
    assert_eq!(during.upstream_port(), 18145);
    m.on_exit(id, 0);
    assert_eq!(m.status(), ProcessStatus::Stopped(0));
    let second = m.finish_change().unwrap().unwrap();
    assert_eq!(second, id + 1);
    assert!(m.finish_change().is_none());
    let after = m.config().unwrap();
    assert!(!after.p2pool_enabled);
    assert_eq!(after.base_node_grpc_port, 18150);
    assert_eq!(after.upstream_port(), 18150);
    assert_eq!(after.telemetry_id, "miner-1");
}

#[test]
fn pool_toggle_decisions() {
    assert_eq!(plan_pool_toggle(&None, true), PoolToggle::NotInitialized);
    assert_eq!(plan_pool_toggle(&Some(proxy_config(true)), true), PoolToggle::Unchanged);
    assert_eq!(plan_pool_toggle(&Some(proxy_config(false)), true), PoolToggle::SwitchToPool);
    let c = toggled_config(&proxy_config(false), PoolToggle::SwitchToPool, 19000, 1);
    assert!(c.p2pool_enabled);
    assert_eq!(c.p2pool_grpc_port, 19000);
    assert_eq!(c.base_node_grpc_port, 18142);
}

#[test]
fn queries_gate_on_readiness() {
    let mut s = ServiceManager::new();
    assert_eq!(s.query_gate(), Err(QueryError::NotStarted));
    let id = s.begin_start().unwrap();
    assert_eq!(s.query_gate(), Err(QueryError::NotReady));
    s.on_ready(id);
    assert_eq!(s.query_gate(), Err(QueryError::NotReady));
    s.on_probe(true);
    assert_eq!(s.query_gate(), Ok(()));
    s.begin_stop();
    assert_eq!(s.query_gate(), Err(QueryError::NotReady));
    assert_eq!(rpc_result::<u32>(Err(RpcFailure::Timeout)), Err(QueryError::NotReady));
    assert_eq!(rpc_result::<u32>(Ok(7)), Ok(7));
}

#[test]
fn sync_decisions() {
    let behind = SyncReport { is_synced: false, local_height: 250, tip_height: 1000 };
    assert_eq!(sync_decision(Some(behind), 0, 10, false), SyncDecision::Continue(25));
    assert_eq!(sync_decision(Some(behind), 10, 10, false), SyncDecision::GiveUp);
    assert_eq!(sync_decision(Some(behind), 0, 10, true), SyncDecision::Cancelled);
    let done = SyncReport { is_synced: true, local_height: 1000, tip_height: 1000 };
    assert_eq!(sync_decision(Some(done), 99, 10, false), SyncDecision::Synced);
    assert_eq!(sync_decision(None, 0, 10, false), SyncDecision::Continue(0));
}

#[test]
fn busy_flag_rejects_second_call_and_clears() {
    let mut flag = BusyFlag::new();
    assert_eq!(flag.try_begin(), Ok(()));
    assert_eq!(flag.try_begin(), Err(AlreadyInProgress));
    flag.finish(false);
    assert!(!flag.is_busy());
    assert_eq!(flag.try_begin(), Ok(()));
    flag.finish(true);
    assert_eq!(flag.try_begin(), Ok(()));
}

#[test]
fn busy_flag_interleavings() {
    // Every interleaving of two callers, each arriving and, if admitted, finishing.
    for mask in 0u32..16 {
        let mut flag = BusyFlag::new();
        let mut holders = 0;
        for bit in 0..4 {
            if mask & (1 << bit) != 0 {
                match flag.try_begin() {
                    Ok(()) => {
                        holders += 1;
                        assert_eq!(holders, 1);
                    }
                    Err(AlreadyInProgress) => assert_eq!(holders, 1),
                }
            } else if holders == 1 {
                flag.finish(bit % 2 == 0);
                holders = 0;
                assert!(!flag.is_busy());
            }
        }
    }
}

#[test]
fn mining_start_cpu_then_gpu() {
    let req = MiningRequest { cpu_enabled: true, gpu_enabled: true, gpu_available: true, p2pool_enabled: false };
    let mut m = MiningStart::new(req);
    assert_eq!(m.step(), MiningStep::ReadProxyPort);
    assert_eq!(m.report(true), MiningStep::StartCpu);
    assert_eq!(m.report(true), MiningStep::ReadUpstreamPort(false));
    assert_eq!(m.report(true), MiningStep::StartGpu);
    assert_eq!(m.report(true), MiningStep::Done);
}

#[test]
fn mining_start_gpu_failure_stops_cpu() {
    let req = MiningRequest { cpu_enabled: true, gpu_enabled: true, gpu_available: true, p2pool_enabled: true };
    let mut m = MiningStart::new(req);
    m.report(true);
    m.report(true);
    m.report(true);
    assert_eq!(m.report(false), MiningStep::StopCpu);
    assert_eq!(m.report(false), MiningStep::Failed);
}

#[test]
fn mining_start_skips_unavailable_gpu() {
    let req = MiningRequest { cpu_enabled: false, gpu_enabled: true, gpu_available: false, p2pool_enabled: false };
    assert_eq!(MiningStart::new(req).step(), MiningStep::Done);
    let cpu_fail = MiningRequest { cpu_enabled: true, gpu_enabled: false, gpu_available: false, p2pool_enabled: false };
    let mut m = MiningStart::new(cpu_fail);
    assert_eq!(m.report(false), MiningStep::Failed);
}

#[test]
fn gpu_source_and_telemetry_fallbacks() {
    assert_eq!(gpu_node_source(true, 1, 2), GpuNodeSource::P2Pool { port: 1 });
    assert_eq!(gpu_node_source(false, 1, 2), GpuNodeSource::BaseNode { port: 2 });
    assert_eq!(telemetry_id_or(String::new(), miner_telemetry_fallback()), "tari-universe");
    assert_eq!(telemetry_id_or(String::new(), proxy_telemetry_fallback()), "unknown_miner_tari_universe");
    assert_eq!(telemetry_id_or("abc".to_string(), proxy_telemetry_fallback()), "abc");
}

#[test]
fn shutdown_stops_in_order_then_signals() {
    let mut seq = StopSequence::shutdown();
    let mut stopped = Vec::new();
    loop {
        match seq.task() {
            StopTask::Stop(role) => {
                stopped.push(role);
                seq.report(true);
            }
            StopTask::TriggerShutdown => {
                seq.report(true);
                break;
            }
            other => panic!("unexpected {:?}", other),
        }
    }
    assert_eq!(
        stopped,
        vec![
            ServiceRole::CpuMiner,
            ServiceRole::GpuMiner,
            ServiceRole::MmProxy,
            ServiceRole::P2pool,
            ServiceRole::Wallet,
            ServiceRole::Node,
        ]
    );
    assert_eq!(seq.task(), StopTask::Done);
}

#[test]
fn stop_sequence_halts_on_failure() {
    let mut seq = StopSequence::miners();
    assert_eq!(seq.task(), StopTask::Stop(ServiceRole::CpuMiner));
    seq.report(false);
    assert_eq!(seq.task(), StopTask::Failed(ServiceRole::CpuMiner));
    let mut ok = StopSequence::miners();
    ok.report(true);
    ok.report(true);
    assert_eq!(ok.task(), StopTask::Done);
}

#[test]
fn forced_update_covers_binaries_in_order() {
    assert_eq!(
        forced_update_order(),
        vec![
            BinaryName::Xmrig,
            BinaryName::MinotariNode,
            BinaryName::MergeMiningProxy,
            BinaryName::Wallet,
            BinaryName::GpuMiner,
        ]
    );
}

#[test]
fn gpu_detection_runs_once() {
    let mut d = GpuDetection::new();
    assert!(d.needs_probe());
    assert!(!d.is_gpu_mining_available());
    d.record(true);
    assert!(!d.needs_probe());
    d.record(false);
    assert!(d.is_gpu_mining_available());
}
