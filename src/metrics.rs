use crate::services::QueryError;
use crate::version::{version_display, Version};
use vstd::prelude::*;

verus! {

/// SHA3 blocks the network produces per day.
pub const SHA_BLOCKS_PER_DAY: u64 = 360;

/// RandomX blocks the network produces per day.
pub const RANDOMX_BLOCKS_PER_DAY: u64 = 360;

/// Estimated daily earnings of a miner contributing `hash_rate` to a network
/// of `network_hash_rate`: its share of the rewards of a day's blocks,
/// rounded down, saturating at `u64::MAX`; nothing where the network rate is
/// unknown (zero).
pub open spec fn earnings_spec(hash_rate: u64, network_hash_rate: u64, block_reward: u64, blocks_per_day: u64) -> u64 {
    if network_hash_rate == 0 {
        0
    } else {
        let e = (block_reward as int) * (blocks_per_day as int) * (hash_rate as int) / (network_hash_rate as int);
        if e > u64::MAX { u64::MAX } else { e as u64 }
    }
}

/// Computes the estimated daily earnings; pure arithmetic, no I/O.
pub fn estimated_earnings(hash_rate: u64, network_hash_rate: u64, block_reward: u64, blocks_per_day: u64) -> (r: u64)
    ensures
        r == earnings_spec(hash_rate, network_hash_rate, block_reward, blocks_per_day),
{
    if network_hash_rate == 0 {
        return 0;
    }
    assert((block_reward as int) * (blocks_per_day as int) <= u128::MAX) by (nonlinear_arith)
        requires block_reward <= u64::MAX, blocks_per_day <= u64::MAX;
    let a: u128 = block_reward as u128 * blocks_per_day as u128;
    assert(a == (block_reward as int) * (blocks_per_day as int));
    if hash_rate != 0 && a > u128::MAX / (hash_rate as u128) {
        proof {
            let h = hash_rate as int;
            let n = network_hash_rate as int;
            let m = u128::MAX as int;
            assert(a as int * h > m) by (nonlinear_arith)
                requires a as int > m / h, h > 0;
            assert((a as int) * h / n > u64::MAX) by (nonlinear_arith)
                requires a as int * h > m, 0 < n <= u64::MAX, m == 0xffff_ffff_ffff_ffff_ffff_ffff_ffff_ffffint;
        }
        return u64::MAX;
    }
    assert(a as int * hash_rate as int <= u128::MAX) by (nonlinear_arith)
        requires hash_rate == 0 || a <= u128::MAX / (hash_rate as u128);
    let b: u128 = a * hash_rate as u128;
    let e: u128 = b / network_hash_rate as u128;
    if e > u64::MAX as u128 {
        u64::MAX
    } else {
        e as u64
    }
}

/// Network parameters as the node reports them.
#[derive(Clone, Copy, PartialEq, Eq, Structural, Debug)]
pub struct NetworkSnapshot {
    pub sha_hash_rate: u64,
    pub randomx_hash_rate: u64,
    pub block_reward: u64,
    pub block_height: u64,
    pub block_time: u64,
    pub is_synced: bool,
}

impl NetworkSnapshot {
    /// What is shown while the node cannot be asked: all zero, not synced.
    pub fn unavailable() -> (r: NetworkSnapshot)
        ensures
            r == (NetworkSnapshot {
                sha_hash_rate: 0,
                randomx_hash_rate: 0,
                block_reward: 0,
                block_height: 0,
                block_time: 0,
                is_synced: false,
            }),
    {
        NetworkSnapshot { sha_hash_rate: 0, randomx_hash_rate: 0, block_reward: 0, block_height: 0, block_time: 0, is_synced: false }
    }

    /// The node's answer, or the unavailable snapshot when it gave none.
    pub fn or_unavailable(r: Result<NetworkSnapshot, QueryError>) -> (s: NetworkSnapshot)
        ensures
            match r {
                Ok(n) => s == n,
                Err(_) => s == NetworkSnapshot::unavailable_spec(),
            },
    {
        match r {
            Ok(n) => n,
            Err(_) => NetworkSnapshot::unavailable(),
        }
    }

    pub open spec fn unavailable_spec() -> NetworkSnapshot {
        NetworkSnapshot { sha_hash_rate: 0, randomx_hash_rate: 0, block_reward: 0, block_height: 0, block_time: 0, is_synced: false }
    }
}

/// Readings of one processor, in whole units (percent, degrees Celsius).
pub struct HardwareParameters {
    pub label: String,
    pub usage_percentage: u32,
    pub current_temperature: u32,
    pub max_temperature: u32,
}

#[derive(Clone, Copy, PartialEq, Eq, Structural, Debug)]
pub struct CpuMinerConnectionStatus {
    pub is_connected: bool,
}

/// Where the CPU miner connects.
#[derive(Clone, Copy, PartialEq, Eq, Structural, Debug)]
pub enum CpuMinerConnection {
    BuiltInProxy,
}

#[derive(Clone, Copy, PartialEq, Eq, Structural, Debug)]
pub struct CpuMinerStatus {
    pub is_mining: bool,
    /// Hashes per second.
    pub hash_rate: u64,
    pub estimated_earnings: u64,
    pub connection: CpuMinerConnectionStatus,
}

#[derive(Clone, Copy, PartialEq, Eq, Structural, Debug)]
pub struct GpuMinerStatus {
    pub is_mining: bool,
    /// Hashes per second.
    pub hash_rate: u64,
    pub estimated_earnings: u64,
    pub is_available: bool,
}

impl CpuMinerStatus {
    /// The CPU miner's status: its RandomX hash rate with the earnings it
    /// yields on the given network.
    pub fn new(is_mining: bool, hash_rate: u64, is_connected: bool, network: &NetworkSnapshot) -> (r: CpuMinerStatus)
        ensures
            r.is_mining == is_mining,
            r.hash_rate == hash_rate,
            r.connection.is_connected == is_connected,
            r.estimated_earnings == earnings_spec(
                hash_rate,
                network.randomx_hash_rate,
                network.block_reward,
                RANDOMX_BLOCKS_PER_DAY,
            ),
    {
        CpuMinerStatus {
            is_mining,
            hash_rate,
            estimated_earnings: estimated_earnings(
                hash_rate,
                network.randomx_hash_rate,
                network.block_reward,
                RANDOMX_BLOCKS_PER_DAY,
            ),
            connection: CpuMinerConnectionStatus { is_connected },
        }
    }
}

impl GpuMinerStatus {
    /// The GPU miner's status: its SHA3 hash rate with the earnings it yields
    /// on the given network.
    pub fn new(is_mining: bool, hash_rate: u64, is_available: bool, network: &NetworkSnapshot) -> (r: GpuMinerStatus)
        ensures
            r.is_mining == is_mining,
            r.hash_rate == hash_rate,
            r.is_available == is_available,
            r.estimated_earnings == earnings_spec(hash_rate, network.sha_hash_rate, network.block_reward, SHA_BLOCKS_PER_DAY),
    {
        GpuMinerStatus {
            is_mining,
            hash_rate,
            estimated_earnings: estimated_earnings(hash_rate, network.sha_hash_rate, network.block_reward, SHA_BLOCKS_PER_DAY),
            is_available,
        }
    }
}

pub struct CpuMinerMetrics {
    pub hardware: Option<HardwareParameters>,
    pub mining: CpuMinerStatus,
}

pub struct GpuMinerMetrics {
    pub hardware: Option<HardwareParameters>,
    pub mining: GpuMinerStatus,
}

pub struct BaseNodeStatus {
    pub block_height: u64,
    pub block_time: u64,
    pub is_synced: bool,
    pub is_connected: bool,
    pub connected_peers: Vec<String>,
}

impl BaseNodeStatus {
    /// The node's status: connected exactly when it has a peer.
    pub fn new(network: &NetworkSnapshot, connected_peers: Vec<String>) -> (r: BaseNodeStatus)
        ensures
            r.block_height == network.block_height,
            r.block_time == network.block_time,
            r.is_synced == network.is_synced,
            r.is_connected == (connected_peers@.len() > 0),
            r.connected_peers@ == connected_peers@,
    {
        let is_connected = connected_peers.len() > 0;
        BaseNodeStatus {
            block_height: network.block_height,
            block_time: network.block_time,
            is_synced: network.is_synced,
            is_connected,
            connected_peers,
        }
    }
}

pub struct MinerMetrics {
    pub cpu: CpuMinerMetrics,
    pub gpu: GpuMinerMetrics,
    pub base_node: BaseNodeStatus,
}

/// Balances of the wallet, in micro-units.
#[derive(Clone, Copy, PartialEq, Eq, Structural, Debug)]
pub struct WalletBalance {
    pub available_balance: u64,
    pub pending_incoming_balance: u64,
    pub pending_outgoing_balance: u64,
    pub timelocked_balance: u64,
}

impl WalletBalance {
    pub open spec fn zero_spec() -> WalletBalance {
        WalletBalance { available_balance: 0, pending_incoming_balance: 0, pending_outgoing_balance: 0, timelocked_balance: 0 }
    }

    pub fn zero() -> (r: WalletBalance)
        ensures
            r == WalletBalance::zero_spec(),
    {
        WalletBalance { available_balance: 0, pending_incoming_balance: 0, pending_outgoing_balance: 0, timelocked_balance: 0 }
    }

    /// The wallet's answer, or an all-zero balance where it gave none.
    pub fn or_zero(r: Result<WalletBalance, QueryError>) -> (b: WalletBalance)
        ensures
            match r {
                Ok(w) => b == w,
                Err(_) => b == WalletBalance::zero_spec(),
            },
    {
        match r {
            Ok(w) => w,
            Err(_) => WalletBalance::zero(),
        }
    }
}

pub struct TariWalletDetails {
    pub wallet_balance: WalletBalance,
    pub tari_address_base58: String,
    pub tari_address_emoji: String,
}

impl TariWalletDetails {
    /// The wallet details shown to the user: the balance (zero where the
    /// wallet did not answer) and the two renderings of its address.
    pub fn new(balance: Result<WalletBalance, QueryError>, tari_address_base58: String, tari_address_emoji: String) -> (r: TariWalletDetails)
        ensures
            match balance {
                Ok(w) => r.wallet_balance == w,
                Err(_) => r.wallet_balance == WalletBalance::zero_spec(),
            },
            r.tari_address_base58@ == tari_address_base58@,
            r.tari_address_emoji@ == tari_address_emoji@,
    {
        TariWalletDetails { wallet_balance: WalletBalance::or_zero(balance), tari_address_base58, tari_address_emoji }
    }
}

/// The versions of the application and of each managed binary, as text.
pub struct ApplicationsVersions {
    pub tari_universe: String,
    pub xmrig: String,
    pub minotari_node: String,
    pub mm_proxy: String,
    pub wallet: String,
    pub sha_p2pool: String,
}

/// Shown where a version could not be read.
pub open spec fn unreadable_version_text() -> Seq<char> {
    "Failed to read version"@
}

impl ApplicationsVersions {
    /// Gathers the version texts; the CPU miner's version is read from its
    /// install directory and may be missing.
    pub fn new(
        tari_universe: String,
        xmrig: Option<String>,
        minotari_node: &Version,
        mm_proxy: &Version,
        wallet: &Version,
        sha_p2pool: &Version,
    ) -> (r: ApplicationsVersions)
        ensures
            r.tari_universe@ == tari_universe@,
            r.xmrig@ == (match xmrig {
                Some(x) => x@,
                None => unreadable_version_text(),
            }),
            r.minotari_node@ == version_display(minotari_node@),
            r.mm_proxy@ == version_display(mm_proxy@),
            r.wallet@ == version_display(wallet@),
            r.sha_p2pool@ == version_display(sha_p2pool@),
    {
        let xmrig = match xmrig {
            Some(x) => x,
            None => String::from_str("Failed to read version"),
        };
        ApplicationsVersions {
            tari_universe,
            xmrig,
            minotari_node: minotari_node.to_text(),
            mm_proxy: mm_proxy.to_text(),
            wallet: wallet.to_text(),
            sha_p2pool: sha_p2pool.to_text(),
        }
    }
}

/// What a miner reports of itself when asked for its status.
#[derive(Clone, Copy, PartialEq, Eq, Structural, Debug)]
pub struct MinerReading {
    pub is_mining: bool,
    /// Hashes per second.
    pub hash_rate: u64,
    /// For the CPU miner: connected to its proxy. For the GPU miner: a GPU is available.
    pub flag: bool,
}

impl MinerMetrics {
    /// Assembles the metrics shown to the user from the node's network data
    /// (unavailable where the node gave none), the two miners' readings, the
    /// hardware readings and the node's peers.
    pub fn assemble(
        network: Result<NetworkSnapshot, QueryError>,
        cpu: MinerReading,
        gpu: MinerReading,
        cpu_hardware: Option<HardwareParameters>,
        gpu_hardware: Option<HardwareParameters>,
        connected_peers: Vec<String>,
    ) -> (r: MinerMetrics)
        ensures
            ({
                let n = match network {
                    Ok(n) => n,
                    Err(_) => NetworkSnapshot::unavailable_spec(),
                };
                &&& r.cpu.mining.is_mining == cpu.is_mining
                &&& r.cpu.mining.hash_rate == cpu.hash_rate
                &&& r.cpu.mining.connection.is_connected == cpu.flag
                &&& r.cpu.mining.estimated_earnings == earnings_spec(
                    cpu.hash_rate,
                    n.randomx_hash_rate,
                    n.block_reward,
                    RANDOMX_BLOCKS_PER_DAY,
                )
                &&& r.gpu.mining.is_mining == gpu.is_mining
                &&& r.gpu.mining.hash_rate == gpu.hash_rate
                &&& r.gpu.mining.is_available == gpu.flag
                &&& r.gpu.mining.estimated_earnings == earnings_spec(
                    gpu.hash_rate,
                    n.sha_hash_rate,
                    n.block_reward,
                    SHA_BLOCKS_PER_DAY,
                )
                &&& r.cpu.hardware == cpu_hardware
                &&& r.gpu.hardware == gpu_hardware
                &&& r.base_node.block_height == n.block_height
                &&& r.base_node.block_time == n.block_time
                &&& r.base_node.is_synced == n.is_synced
                &&& r.base_node.is_connected == (connected_peers@.len() > 0)
                &&& r.base_node.connected_peers@ == connected_peers@
            }),
    {
        let n = NetworkSnapshot::or_unavailable(network);
        MinerMetrics {
            cpu: CpuMinerMetrics {
                hardware: cpu_hardware,
                mining: CpuMinerStatus::new(cpu.is_mining, cpu.hash_rate, cpu.flag, &n),
            },
            gpu: GpuMinerMetrics {
                hardware: gpu_hardware,
                mining: GpuMinerStatus::new(gpu.is_mining, gpu.hash_rate, gpu.flag, &n),
            },
            base_node: BaseNodeStatus::new(&n, connected_peers),
        }
    }
}

} // verus!
