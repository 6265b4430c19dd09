use afirmflasher::engine::{flash_partition_if_newer, Action, Event, Outcome, Reconciler};
use afirmflasher::manifest::parse_partition_manifest;

const BOOT_MANIFEST: &str =
    r#"{"partitions":[{"partition":"/dev/boot","file":"boot.img","checksum":"abc123"}]}"#;

fn boot_reconciler(no_flash: bool) -> Reconciler {
    let m = parse_partition_manifest(BOOT_MANIFEST).unwrap();
    flash_partition_if_newer(m.entries, String::from("http://x/pine64"), no_flash)
}

fn expect_digest_of(r: &Reconciler, partition: &str) {
    match r.current_action() {
        Action::ComputeDigest(p) => assert_eq!(p, partition),
        _ => panic!("expected a digest read"),
    }
}

#[test]
fn matching_digest_is_up_to_date() {
    let mut r = boot_reconciler(false);
    expect_digest_of(&r, "/dev/boot");
    r.step(Event::DigestOk(String::from("abc123")));
    assert!(r.is_finished());
    assert_eq!(r.results().as_slice(), &[Outcome::UpToDate]);
    assert!(matches!(r.current_action(), Action::Done));
    assert!(r.need_update_list().is_empty());
}

#[test]
fn stale_entry_is_flashed_in_apply_mode() {
    let mut r = boot_reconciler(false);
    expect_digest_of(&r, "/dev/boot");
    r.step(Event::DigestOk(String::from("zzz999")));
    match r.current_action() {
        Action::Download(url, file) => {
            assert_eq!(url, "http://x/pine64/boot.img");
            assert_eq!(file, "boot.img");
        },
        _ => panic!("expected a download"),
    }
    r.step(Event::DownloadOk);
    match r.current_action() {
        Action::WriteImage(file, partition) => {
            assert_eq!(file, "boot.img");
            assert_eq!(partition, "/dev/boot");
        },
        _ => panic!("expected a write"),
    }
    r.step(Event::WriteOk);
    expect_digest_of(&r, "/dev/boot");
    r.step(Event::DigestOk(String::from("abc123")));
    assert!(r.is_finished());
    assert_eq!(r.results().as_slice(), &[Outcome::StaleFlashed]);
    assert!(r.verify_failures().is_empty());
}

#[test]
fn failed_reverification_is_reported() {
    let mut r = boot_reconciler(false);
    r.step(Event::DigestOk(String::from("zzz999")));
    r.step(Event::DownloadOk);
    r.step(Event::WriteOk);
    r.step(Event::DigestOk(String::from("zzz999")));
    assert!(r.is_finished());
    assert_eq!(r.results().as_slice(), &[Outcome::StaleFlashVerifyFailed]);
    let failures = r.verify_failures();
    assert_eq!(failures.len(), 1);
    assert_eq!(failures[0].partition, "/dev/boot");
    assert_eq!(failures[0].file, "boot.img");
}

#[test]
fn dry_run_only_records_staleness() {
    let mut r = boot_reconciler(true);
    expect_digest_of(&r, "/dev/boot");
    r.step(Event::DigestOk(String::from("zzz999")));
    assert!(r.is_finished());
    assert_eq!(r.results().as_slice(), &[Outcome::Stale]);
    assert!(matches!(r.current_action(), Action::Done));
    let stale = r.need_update_list();
    assert_eq!(stale.len(), 1);
    assert_eq!(stale[0].partition, "/dev/boot");
}

#[test]
fn dry_run_never_asks_for_download_or_write() {
    let manifest = r#"{"partitions":[
        {"partition":"/dev/a","file":"a.img","checksum":"aa"},
        {"partition":"/dev/b","file":"b.img","checksum":"bb"}
    ]}"#;
    let m = parse_partition_manifest(manifest).unwrap();
    let mut r = flash_partition_if_newer(m.entries, String::from("http://x"), true);
    let digests = ["wrong", "bb"];
    let mut i = 0;
    while !r.is_finished() {
        match r.current_action() {
            Action::ComputeDigest(_) => {},
            Action::Done => {},
            _ => panic!("dry run asked for a download or a write"),
        }
        r.step(Event::DigestOk(String::from(digests[i])));
        i += 1;
    }
    assert_eq!(r.results().as_slice(), &[Outcome::Stale, Outcome::UpToDate]);
}

#[test]
fn read_failure_skips_entry_and_continues() {
    let manifest = r#"{"partitions":[
        {"partition":"/dev/a","file":"a.img","checksum":"aa"},
        {"partition":"/dev/b","file":"b.img","checksum":"bb"}
    ]}"#;
    let m = parse_partition_manifest(manifest).unwrap();
    let mut r = flash_partition_if_newer(m.entries, String::from("http://x"), false);
    r.step(Event::DigestErr);
    expect_digest_of(&r, "/dev/b");
    r.step(Event::DigestOk(String::from("bb")));
    assert!(r.is_finished());
    assert_eq!(
        r.results().as_slice(),
        &[Outcome::ReadError, Outcome::UpToDate]
    );
}

#[test]
fn download_and_write_failures_are_recorded() {
    let manifest = r#"{"partitions":[
        {"partition":"/dev/a","file":"a.img","checksum":"aa"},
        {"partition":"/dev/b","file":"b.img","checksum":"bb"}
    ]}"#;
    let m = parse_partition_manifest(manifest).unwrap();
    let mut r = flash_partition_if_newer(m.entries, String::from("http://x"), false);
    r.step(Event::DigestOk(String::from("stale")));
    r.step(Event::DownloadErr);
    r.step(Event::DigestOk(String::from("stale")));
    r.step(Event::DownloadOk);
    r.step(Event::WriteErr);
    assert!(r.is_finished());
    assert_eq!(
        r.results().as_slice(),
        &[Outcome::DownloadError, Outcome::WriteError]
    );
    let attention = r.need_update_list();
    assert_eq!(attention.len(), 2);
}

#[test]
fn empty_manifest_finishes_immediately() {
    let r = flash_partition_if_newer(Vec::new(), String::from("http://x"), false);
    assert!(r.is_finished());
    assert!(matches!(r.current_action(), Action::Done));
    assert!(r.results().is_empty());
}

#[test]
fn engine_rejects_mismatched_events() {
    let r = boot_reconciler(false);
    assert!(r.accepts(&Event::DigestOk(String::from("x"))));
    assert!(r.accepts(&Event::DigestErr));
    assert!(!r.accepts(&Event::DownloadOk));
    assert!(!r.accepts(&Event::WriteOk));
}
