use universe_supervisor::metrics::{
    estimated_earnings, ApplicationsVersions, HardwareParameters, MinerMetrics, MinerReading, BaseNodeStatus, CpuMinerStatus, GpuMinerStatus, NetworkSnapshot,
    TariWalletDetails, WalletBalance, RANDOMX_BLOCKS_PER_DAY, SHA_BLOCKS_PER_DAY,
};
use universe_supervisor::reset::{missing_dirs, reset_action, same_text, ResetAction};
use universe_supervisor::services::QueryError;
use universe_supervisor::version::Version;

fn network() -> NetworkSnapshot {
    NetworkSnapshot {
        sha_hash_rate: 1_000_000,
        randomx_hash_rate: 2_000,
        block_reward: 10_000,
        block_height: 42,
        block_time: 120,
        is_synced: true,
    }
}

#[test]
fn earnings_formula() {
    assert_eq!(estimated_earnings(100, 1000, 10_000, 360), 360_000);
    assert_eq!(estimated_earnings(1, 3, 10, 1), 3);
    assert_eq!(estimated_earnings(5, 0, 10, 360), 0);
    assert_eq!(estimated_earnings(u64::MAX, 1, u64::MAX, 360), u64::MAX);
}

#[test]
fn miner_statuses_use_their_network_rate() {
    let cpu = CpuMinerStatus::new(true, 200, true, &network());
    assert_eq!(cpu.estimated_earnings, 10_000 * RANDOMX_BLOCKS_PER_DAY * 200 / 2_000);
    assert!(cpu.connection.is_connected);
    let gpu = GpuMinerStatus::new(true, 500_000, true, &network());
    assert_eq!(gpu.estimated_earnings, 10_000 * SHA_BLOCKS_PER_DAY / 2);
    let idle = GpuMinerStatus::new(false, 0, false, &NetworkSnapshot::unavailable());
    assert_eq!(idle.estimated_earnings, 0);
}

#[test]
fn base_node_connected_iff_peers() {
    let s = BaseNodeStatus::new(&network(), vec!["peer-a".to_string()]);
    assert!(s.is_connected);
    assert_eq!(s.block_height, 42);
    let none = BaseNodeStatus::new(&NetworkSnapshot::or_unavailable(Err(QueryError::NotStarted)), Vec::new());
    assert!(!none.is_connected);
    assert_eq!(none.block_height, 0);
    assert!(!none.is_synced);
}

#[test]
fn wallet_details_default_to_zero_balance() {
    let d = TariWalletDetails::new(Err(QueryError::NotReady), "b58".to_string(), "emoji".to_string());
    assert_eq!(d.wallet_balance, WalletBalance::zero());
    let b = WalletBalance {
        available_balance: 5,
        pending_incoming_balance: 1,
        pending_outgoing_balance: 2,
        timelocked_balance: 3,
    };
    let d2 = TariWalletDetails::new(Ok(b), "b".to_string(), "e".to_string());
    assert_eq!(d2.wallet_balance.available_balance, 5);
    assert_eq!(d2.tari_address_base58, "b");
}

#[test]
fn applications_versions_texts() {
    let node = Version::parse("1.0.0-pre.16").unwrap();
    let proxy = Version::new(1, 0, 1);
    let v = ApplicationsVersions::new("0.5.1".to_string(), None, &node, &proxy, &proxy, &node);
    assert_eq!(v.xmrig, "Failed to read version");
    assert_eq!(v.minotari_node, "1.0.0-pre.16");
    assert_eq!(v.mm_proxy, "1.0.1");
    let w = ApplicationsVersions::new("0.5.1".to_string(), Some("6.21.0".to_string()), &node, &proxy, &proxy, &node);
    assert_eq!(w.xmrig, "6.21.0");
}

#[test]
fn reset_keeps_blocked_dirs() {
    assert_eq!(reset_action("EBWebView", true, true), ResetAction::Keep);
    assert_eq!(reset_action("esmeralda", true, false), ResetAction::Keep);
    assert_eq!(reset_action("nextnet", true, false), ResetAction::Keep);
    assert_eq!(reset_action("esmeralda", true, true), ResetAction::RemoveDir);
    assert_eq!(reset_action("logs", true, false), ResetAction::RemoveDir);
    assert_eq!(reset_action("EBWebView", false, false), ResetAction::RemoveFile);
    assert!(same_text("abc", "abc"));
    assert!(!same_text("abc", "abd"));
}

#[test]
fn missing_dirs_named_in_order() {
    let dirs = vec![Some("/c".to_string()), None, Some("/d".to_string()), None];
    let names = vec!["config", "cache", "data", "local data"];
    assert_eq!(missing_dirs(&dirs, &names), vec!["cache".to_string(), "local data".to_string()]);
    let all = vec![Some("/c".to_string())];
    assert!(missing_dirs(&all, &vec!["config"]).is_empty());
}

#[test]
fn miner_metrics_assembled_with_fallback_network() {
    let cpu = MinerReading { is_mining: true, hash_rate: 200, flag: true };
    let gpu = MinerReading { is_mining: false, hash_rate: 0, flag: false };
    let hw = HardwareParameters { label: "cpu".to_string(), usage_percentage: 50, current_temperature: 60, max_temperature: 90 };
    let m = MinerMetrics::assemble(Ok(network()), cpu, gpu, Some(hw), None, vec!["p".to_string()]);
    assert_eq!(m.cpu.mining.estimated_earnings, 360_000);
    assert_eq!(m.cpu.hardware.as_ref().unwrap().usage_percentage, 50);
    assert!(m.gpu.hardware.is_none());
    assert!(m.base_node.is_connected);
    let down = MinerMetrics::assemble(Err(QueryError::NotStarted), cpu, gpu, None, None, Vec::new());
    assert_eq!(down.cpu.mining.estimated_earnings, 0);
    assert_eq!(down.base_node.block_height, 0);
    assert!(!down.base_node.is_connected);
}
