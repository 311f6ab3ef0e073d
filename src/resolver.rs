use crate::version::{version_older, SemVer, Version};
use vstd::prelude::*;

verus! {

/// The binaries the supervisor keeps installed.
#[derive(Clone, Copy, PartialEq, Eq, Structural, Debug)]
pub enum BinaryName {
    MinotariNode,
    MergeMiningProxy,
    Wallet,
    ShaP2pool,
    GpuMiner,
    Xmrig,
}

/// How long a looked-up release stays fresh, in seconds.
pub const VERSION_CACHE_TTL_SECS: u64 = 600;

/// The least time between two periodic update checks, in seconds.
pub const UPDATE_CHECK_INTERVAL_SECS: u64 = 600;

/// A release as the release index reports it: its version and the checksum
/// of its archive for this platform.
pub struct Release {
    pub version: Version,
    pub checksum: String,
}

pub ghost struct ReleaseView {
    pub version: SemVer,
    pub checksum: Seq<char>,
}

impl View for Release {
    type V = ReleaseView;

    open spec fn view(&self) -> ReleaseView {
        ReleaseView { version: self.version@, checksum: self.checksum@ }
    }
}

impl Release {
    pub fn copied(&self) -> (r: Release)
        ensures
            r@ == self@,
    {
        Release { version: self.version.copied(), checksum: self.checksum.clone() }
    }
}

/// Failures of the resolver. None of them is fatal to a caller that still
/// has an installed version to run.
#[derive(Clone, Copy, PartialEq, Eq, Structural, Debug)]
pub enum ResolverError {
    VersionLookup,
    Download,
    ChecksumMismatch,
    Install,
}

/// Whether a version lookup can be answered from the cache.
#[derive(Clone, Copy, PartialEq, Eq, Structural, Debug)]
pub enum LookupStep {
    UseCached,
    QueryRemote,
}

/// What an install check asks of the caller.
#[derive(Clone, Copy, PartialEq, Eq, Structural, Debug)]
pub enum InstallStep {
    /// The installed version is current: nothing to fetch.
    UpToDate,
    /// Download the staged release to a temporary place and report the outcome.
    Fetch,
}

/// The outcome of downloading a staged release.
pub enum FetchOutcome {
    NetworkFailed,
    /// The archive arrived; this is the checksum computed over it.
    Fetched(String),
}

pub ghost enum FetchView {
    NetworkFailed,
    Fetched(Seq<char>),
}

impl View for FetchOutcome {
    type V = FetchView;

    open spec fn view(&self) -> FetchView {
        match self {
            FetchOutcome::NetworkFailed => FetchView::NetworkFailed,
            FetchOutcome::Fetched(d) => FetchView::Fetched(d@),
        }
    }
}

/// Where an upgrade stands.
pub enum Stage {
    Idle,
    Downloading(Release),
    Verified(Release),
}

pub ghost enum StageView {
    Idle,
    Downloading(ReleaseView),
    Verified(ReleaseView),
}

pub open spec fn opt_version_view(o: Option<Version>) -> Option<SemVer> {
    match o {
        Some(v) => Some(v@),
        None => None,
    }
}

pub open spec fn opt_release_view(o: Option<Release>) -> Option<ReleaseView> {
    match o {
        Some(r) => Some(r@),
        None => None,
    }
}

pub open spec fn stage_view(s: Stage) -> StageView {
    match s {
        Stage::Idle => StageView::Idle,
        Stage::Downloading(r) => StageView::Downloading(r@),
        Stage::Verified(r) => StageView::Verified(r@),
    }
}

/// The resolver's state for one binary: the version installed on disk (the
/// one adapters run), the newest release known with the time it was looked
/// up, and the upgrade in progress, if any.
pub struct BinarySlot {
    installed: Option<Version>,
    latest: Option<Release>,
    checked_at: u64,
    stage: Stage,
}

pub ghost struct SlotView {
    pub installed: Option<SemVer>,
    pub latest: Option<ReleaseView>,
    pub checked_at: u64,
    pub stage: StageView,
}

impl View for BinarySlot {
    type V = SlotView;

    closed spec fn view(&self) -> SlotView {
        SlotView {
            installed: opt_version_view(self.installed),
            latest: opt_release_view(self.latest),
            checked_at: self.checked_at,
            stage: stage_view(self.stage),
        }
    }
}

/// The cache answers a lookup while its entry is no older than the TTL.
pub open spec fn cache_fresh(s: SlotView, now: u64) -> bool {
    &&& s.latest is Some
    &&& s.checked_at <= now
    &&& now - s.checked_at <= VERSION_CACHE_TTL_SECS
}

/// The installed version must be replaced by `latest`: none is installed, or
/// the installed one precedes it.
pub open spec fn install_needed(installed: Option<SemVer>, latest: SemVer) -> bool {
    match installed {
        None => true,
        Some(v) => version_older(v, latest),
    }
}

/// The state and answer after a remote lookup that returned `fetched`.
pub open spec fn after_lookup(s: SlotView, fetched: Option<ReleaseView>, now: u64) -> (SlotView, Result<SemVer, ResolverError>) {
    match fetched {
        Some(r) => (SlotView { latest: Some(r), checked_at: now, ..s }, Ok(r.version)),
        None => match s.latest {
            Some(l) => (s, Ok(l.version)),
            None => (s, Err(ResolverError::VersionLookup)),
        },
    }
}

/// The state and answer after an install check.
pub open spec fn after_begin_install(s: SlotView) -> (SlotView, Result<InstallStep, ResolverError>) {
    match s.latest {
        None => (SlotView { stage: StageView::Idle, ..s }, Err(ResolverError::VersionLookup)),
        Some(l) => if install_needed(s.installed, l.version) {
            (SlotView { stage: StageView::Downloading(l), ..s }, Ok(InstallStep::Fetch))
        } else {
            (SlotView { stage: StageView::Idle, ..s }, Ok(InstallStep::UpToDate))
        },
    }
}

/// The state and answer after the download of the staged release ended with
/// `outcome`. The installed version is never touched here.
pub open spec fn after_fetch(s: SlotView, outcome: FetchView) -> (SlotView, Result<(), ResolverError>) {
    match s.stage {
        StageView::Downloading(r) => match outcome {
            FetchView::NetworkFailed => (SlotView { stage: StageView::Idle, ..s }, Err(ResolverError::Download)),
            FetchView::Fetched(d) => if d == r.checksum {
                (SlotView { stage: StageView::Verified(r), ..s }, Ok(()))
            } else {
                (SlotView { stage: StageView::Idle, ..s }, Err(ResolverError::ChecksumMismatch))
            },
        },
        _ => (SlotView { stage: StageView::Idle, ..s }, Err(ResolverError::Install)),
    }
}

/// The state and answer once the caller tried to move a verified download
/// into the install directory; `swapped` tells whether the move succeeded.
pub open spec fn after_commit(s: SlotView, swapped: bool) -> (SlotView, Result<(), ResolverError>) {
    match s.stage {
        StageView::Verified(r) => if swapped {
            (SlotView { installed: Some(r.version), stage: StageView::Idle, ..s }, Ok(()))
        } else {
            (SlotView { stage: StageView::Idle, ..s }, Err(ResolverError::Install))
        },
        _ => (SlotView { stage: StageView::Idle, ..s }, Err(ResolverError::Install)),
    }
}

/// A periodic update check is due once more than the interval has passed
/// since the last one. A clock that went backwards counts as no time passed.
pub open spec fn update_check_due_spec(now: u64, last: u64) -> bool {
    now > last && now - last > UPDATE_CHECK_INTERVAL_SECS
}

/// Whether the periodic update check is due at `now`, the last one having
/// run at `last` (both in seconds).
pub fn update_check_due(now: u64, last: u64) -> (r: bool)
    ensures
        r == update_check_due_spec(now, last),
{
    now > last && now - last > UPDATE_CHECK_INTERVAL_SECS
}

/// Download progress in whole percent, when the total is known: capped at 100.
pub fn download_percent(downloaded: u64, content_length: Option<u64>) -> (r: Option<u64>)
    ensures
        match content_length {
            None => r is None,
            Some(total) => if total == 0 {
                r is None
            } else {
                r == Some(if downloaded >= total { 100 } else { (downloaded as int * 100 / total as int) as u64 })
            },
        },
{
    match content_length {
        None => None,
        Some(total) => {
            if total == 0 {
                None
            } else if downloaded >= total {
                Some(100)
            } else {
                let scaled: u128 = downloaded as u128 * 100;
                let pct: u128 = scaled / total as u128;
                assert(pct <= 100) by (nonlinear_arith)
                    requires pct == scaled / total as u128, scaled == downloaded as u128 * 100, downloaded < total, total > 0;
                Some(pct as u64)
            }
        }
    }
}

impl BinarySlot {
    /// A slot for a binary, with the version found installed on disk.
    pub fn new(installed: Option<Version>) -> (r: BinarySlot)
        ensures
            r@.installed == opt_version_view(installed),
            r@.latest is None,
            r@.checked_at == 0,
            r@.stage == StageView::Idle,
    {
        BinarySlot { installed, latest: None, checked_at: 0, stage: Stage::Idle }
    }

    /// The installed version, if any.
    pub fn installed_version(&self) -> (r: Option<Version>)
        ensures
            opt_version_view(r) == self@.installed,
    {
        match &self.installed {
            Some(v) => Some(v.copied()),
            None => None,
        }
    }

    /// The newest release known, from the cache only: never a lookup.
    pub fn latest_version(&self) -> (r: Option<Version>)
        ensures
            match self@.latest {
                Some(l) => r is Some && r.unwrap()@ == l.version,
                None => r is None,
            },
    {
        match &self.latest {
            Some(l) => Some(l.version.copied()),
            None => None,
        }
    }

    /// Whether a lookup at `now` may be answered from the cache.
    pub fn lookup_step(&self, now: u64) -> (r: LookupStep)
        ensures
            r == (if cache_fresh(self@, now) { LookupStep::UseCached } else { LookupStep::QueryRemote }),
    {
        if self.latest.is_some() && self.checked_at <= now && now - self.checked_at <= VERSION_CACHE_TTL_SECS {
            LookupStep::UseCached
        } else {
            LookupStep::QueryRemote
        }
    }

    /// Records the answer of the release index (`None`: unreachable) and
    /// returns the highest version known. An unreachable index is an error
    /// only when nothing was ever cached.
    pub fn record_lookup(&mut self, fetched: Option<Release>, now: u64) -> (r: Result<Version, ResolverError>)
        ensures
            ({
                let (s, res) = after_lookup(old(self)@, opt_release_view(fetched), now);
                &&& final(self)@ == s
                &&& match (r, res) {
                    (Ok(v), Ok(w)) => v@ == w,
                    (Err(e), Err(f)) => e == f,
                    _ => false,
                }
            }),
    {
        match fetched {
            Some(rel) => {
                let v = rel.version.copied();
                self.latest = Some(rel);
                self.checked_at = now;
                Ok(v)
            }
            None => match &self.latest {
                Some(l) => Ok(l.version.copied()),
                None => Err(ResolverError::VersionLookup),
            },
        }
    }

    /// Compares the installed version with the newest known one and, where an
    /// upgrade is needed, stages that release for download.
    pub fn begin_install(&mut self) -> (r: Result<InstallStep, ResolverError>)
        ensures
            (final(self)@, r) == after_begin_install(old(self)@),
    {
        match &self.latest {
            None => {
                self.stage = Stage::Idle;
                Err(ResolverError::VersionLookup)
            }
            Some(l) => {
                let needed = match &self.installed {
                    None => true,
                    Some(v) => v.is_older_than(&l.version),
                };
                if needed {
                    let staged = l.copied();
                    self.stage = Stage::Downloading(staged);
                    Ok(InstallStep::Fetch)
                } else {
                    self.stage = Stage::Idle;
                    Ok(InstallStep::UpToDate)
                }
            }
        }
    }

    /// Checks a finished download against the staged release's checksum. A
    /// failed or corrupt download abandons the upgrade; the installed version
    /// stays as it was.
    pub fn verify_download(&mut self, outcome: FetchOutcome) -> (r: Result<(), ResolverError>)
        ensures
            (final(self)@, r) == after_fetch(old(self)@, outcome@),
    {
        let mut stage = Stage::Idle;
        std::mem::swap(&mut stage, &mut self.stage);
        match stage {
            Stage::Downloading(rel) => match outcome {
                FetchOutcome::NetworkFailed => Err(ResolverError::Download),
                FetchOutcome::Fetched(digest) => {
                    if digest == rel.checksum {
                        self.stage = Stage::Verified(rel);
                        Ok(())
                    } else {
                        Err(ResolverError::ChecksumMismatch)
                    }
                }
            },
            _ => Err(ResolverError::Install),
        }
    }

    /// Completes an upgrade once the caller has tried to move the verified
    /// archive into place: only a successful move changes the installed version.
    pub fn commit_install(&mut self, swapped: bool) -> (r: Result<(), ResolverError>)
        ensures
            (final(self)@, r) == after_commit(old(self)@, swapped),
    {
        let mut stage = Stage::Idle;
        std::mem::swap(&mut stage, &mut self.stage);
        match stage {
            Stage::Verified(rel) => {
                if swapped {
                    self.installed = Some(rel.version);
                    Ok(())
                } else {
                    Err(ResolverError::Install)
                }
            }
            _ => Err(ResolverError::Install),
        }
    }
}

/// With the release index reachable and an older version (or none)
/// installed, looking up, downloading, verifying and moving the release into
/// place leaves exactly the index's version installed.
pub proof fn lemma_upgrade_installs_latest(s: SlotView, r: ReleaseView, now: u64)
    requires
        install_needed(s.installed, r.version),
    ensures
        ({
            let (s0, a0) = after_lookup(s, Some(r), now);
            let (s1, a1) = after_begin_install(s0);
            let (s2, a2) = after_fetch(s1, FetchView::Fetched(r.checksum));
            let (s3, a3) = after_commit(s2, true);
            &&& a0 == Ok::<SemVer, ResolverError>(r.version)
            &&& a1 == Ok::<InstallStep, ResolverError>(InstallStep::Fetch)
            &&& a2 == Ok::<(), ResolverError>(())
            &&& a3 == Ok::<(), ResolverError>(())
            &&& s3.installed == Some(r.version)
        }),
{
}

/// Whatever goes wrong with the download, its checksum or the final move, the
/// previously installed version stays installed.
pub proof fn lemma_failed_upgrade_keeps_installed(s: SlotView, outcome: FetchView, swapped: bool)
    ensures
        ({
            let (s1, _a1) = after_begin_install(s);
            let (s2, a2) = after_fetch(s1, outcome);
            let (s3, a3) = after_commit(s2, swapped);
            &&& s1.installed == s.installed
            &&& s2.installed == s.installed
            &&& (a2 is Err ==> s3.installed == s.installed)
            &&& (!swapped ==> s3.installed == s.installed)
        }),
{
}

} // verus!
