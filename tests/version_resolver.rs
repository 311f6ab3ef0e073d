use std::cmp::Ordering;
use universe_supervisor::resolver::{
    download_percent, update_check_due, BinarySlot, FetchOutcome, InstallStep, LookupStep, Release,
    ResolverError,
};
use universe_supervisor::version::Version;

fn v(text: &str) -> Version {
    Version::parse(text).expect("valid version")
}

fn release(text: &str, checksum: &str) -> Release {
    Release { version: v(text), checksum: checksum.to_string() }
}

#[test]
fn parse_reads_components_and_prerelease() {
    let x = v("1.2.3-pre.4+build.7");
    assert_eq!((x.major, x.minor, x.patch), (1, 2, 3));
    assert_eq!(x.pre, "pre.4");
    assert!(Version::parse("1.2").is_none());
    assert!(Version::parse("not a version").is_none());
}

#[test]
fn compare_orders_numbers_then_prerelease() {
    assert_eq!(v("1.0.0").compare(&v("1.0.1")), Some(Ordering::Less));
    assert_eq!(v("2.0.0").compare(&v("1.9.9")), Some(Ordering::Greater));
    assert_eq!(v("1.0.0-pre.1").compare(&v("1.0.0")), Some(Ordering::Less));
    assert_eq!(v("1.0.0-pre.2").compare(&v("1.0.0-pre.10")), Some(Ordering::Less));
    assert_eq!(v("1.0.0").compare(&v("1.0.0")), Some(Ordering::Equal));
    assert!(v("0.9.0").is_older_than(&v("1.0.0")));
    assert!(!v("1.0.0").is_older_than(&v("1.0.0")));
}

#[test]
fn to_text_renders_version() {
    assert_eq!(v("1.20.3").to_text(), "1.20.3");
    assert_eq!(v("0.0.10-pre.16").to_text(), "0.0.10-pre.16");
    assert_eq!(Version::new(4, 0, 0).to_text(), "4.0.0");
}

#[test]
fn lookup_uses_fresh_cache_only() {
    let mut slot = BinarySlot::new(None);
    assert_eq!(slot.lookup_step(100), LookupStep::QueryRemote);
    let got = slot.record_lookup(Some(release("1.0.0", "aa")), 100).unwrap();
    assert_eq!(got.to_text(), "1.0.0");
    assert_eq!(slot.lookup_step(700), LookupStep::UseCached);
    assert_eq!(slot.lookup_step(701), LookupStep::QueryRemote);
    assert_eq!(slot.lookup_step(50), LookupStep::QueryRemote);
}

#[test]
fn unreachable_index_falls_back_to_cache() {
    let mut slot = BinarySlot::new(None);
    assert_eq!(slot.record_lookup(None, 10).err(), Some(ResolverError::VersionLookup));
    slot.record_lookup(Some(release("2.1.0", "bb")), 10).unwrap();
    let again = slot.record_lookup(None, 5000).unwrap();
    assert_eq!(again.to_text(), "2.1.0");
    assert_eq!(slot.latest_version().unwrap().to_text(), "2.1.0");
}

#[test]
fn upgrade_installs_index_version() {
    let mut slot = BinarySlot::new(Some(v("1.0.0")));
    slot.record_lookup(Some(release("1.1.0", "c0ffee")), 0).unwrap();
    assert_eq!(slot.begin_install(), Ok(InstallStep::Fetch));
    assert_eq!(slot.verify_download(FetchOutcome::Fetched("c0ffee".to_string())), Ok(()));
    assert_eq!(slot.commit_install(true), Ok(()));
    assert_eq!(slot.installed_version().unwrap().to_text(), "1.1.0");
    assert_eq!(slot.begin_install(), Ok(InstallStep::UpToDate));
}

#[test]
fn checksum_mismatch_keeps_previous_binary() {
    let mut slot = BinarySlot::new(Some(v("1.0.0")));
    slot.record_lookup(Some(release("1.1.0", "c0ffee")), 0).unwrap();
    assert_eq!(slot.begin_install(), Ok(InstallStep::Fetch));
    assert_eq!(
        slot.verify_download(FetchOutcome::Fetched("deadbeef".to_string())),
        Err(ResolverError::ChecksumMismatch)
    );
    assert_eq!(slot.commit_install(true), Err(ResolverError::Install));
    assert_eq!(slot.installed_version().unwrap().to_text(), "1.0.0");
}

#[test]
fn download_and_move_failures_keep_previous_binary() {
    let mut slot = BinarySlot::new(Some(v("1.0.0")));
    slot.record_lookup(Some(release("1.1.0", "c0ffee")), 0).unwrap();
    slot.begin_install().unwrap();
    assert_eq!(slot.verify_download(FetchOutcome::NetworkFailed), Err(ResolverError::Download));
    assert_eq!(slot.installed_version().unwrap().to_text(), "1.0.0");
    slot.begin_install().unwrap();
    slot.verify_download(FetchOutcome::Fetched("c0ffee".to_string())).unwrap();
    assert_eq!(slot.commit_install(false), Err(ResolverError::Install));
    assert_eq!(slot.installed_version().unwrap().to_text(), "1.0.0");
}

#[test]
fn install_without_known_release_is_lookup_error() {
    let mut slot = BinarySlot::new(None);
    assert_eq!(slot.begin_install(), Err(ResolverError::VersionLookup));
}

#[test]
fn fresh_slot_installs_when_nothing_installed() {
    let mut slot = BinarySlot::new(None);
    slot.record_lookup(Some(release("0.5.0-pre.1", "11")), 0).unwrap();
    assert_eq!(slot.begin_install(), Ok(InstallStep::Fetch));
}

#[test]
fn update_check_after_ten_minutes() {
    assert!(!update_check_due(1000, 400));
    assert!(update_check_due(1001, 400));
    assert!(!update_check_due(100, 5000));
}

#[test]
fn download_percent_values() {
    assert_eq!(download_percent(50, Some(200)), Some(25));
    assert_eq!(download_percent(300, Some(200)), Some(100));
    assert_eq!(download_percent(1, Some(3)), Some(33));
    assert_eq!(download_percent(5, None), None);
    assert_eq!(download_percent(5, Some(0)), None);
}
