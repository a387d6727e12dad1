use cdn::errors::Error;
use cdn::files::{File, FileMetadata};
use cdn::reaper::{reapable, select_for_reaping, start_sweep, sweep_step, SweepEvent, SweepPhase};
use cdn::storage::{check_response, select_backend, Backend};

fn record(id: &str, store: &str, attached: bool, deleted: bool, flagged: bool) -> File {
    File {
        id: id.to_string(),
        store: store.to_string(),
        filename: "f.bin".to_string(),
        metadata: FileMetadata::File,
        content_type: "application/octet-stream".to_string(),
        size: 3,
        attached,
        deleted,
        flagged,
    }
}

#[test]
fn find_returns_visible_record() {
    let found = File::find(vec![record("a", "s", true, false, false)], "a", &"s".to_string()).unwrap();
    assert_eq!(found.id, "a");
}

#[test]
fn find_skips_unattached_record() {
    let r = File::find(vec![record("a", "s", false, false, false)], "a", &"s".to_string());
    assert!(matches!(r, Err(Error::NotFound)));
}

#[test]
fn find_skips_deleted_record() {
    let r = File::find(vec![record("a", "s", true, true, false)], "a", &"s".to_string());
    assert!(matches!(r, Err(Error::NotFound)));
}

#[test]
fn find_checks_store() {
    let r = File::find(vec![record("a", "other", true, false, false)], "a", &"s".to_string());
    assert!(matches!(r, Err(Error::NotFound)));
}

#[test]
fn reaper_selects_deleted_unflagged() {
    let records = vec![
        record("a", "s", true, true, false),
        record("b", "s", true, true, true),
        record("c", "s", true, false, false),
        record("d", "s", false, true, false),
    ];
    assert_eq!(select_for_reaping(&records), vec![0, 3]);
}

#[test]
fn unflagging_makes_record_reapable() {
    let mut r = record("a", "s", true, true, true);
    assert!(!reapable(&r));
    assert!(select_for_reaping(&vec![record("a", "s", true, true, true)]).is_empty());
    r.flagged = false;
    assert!(reapable(&r));
    assert_eq!(select_for_reaping(&vec![r]), vec![0]);
}

#[test]
fn sweep_deletes_row_after_bytes() {
    let p = start_sweep(2);
    assert_eq!(p, SweepPhase::Purging { index: 0 });
    let p = sweep_step(2, p, SweepEvent::Succeeded);
    assert_eq!(p, SweepPhase::Unlinking { index: 0 });
    let p = sweep_step(2, p, SweepEvent::Failed);
    assert_eq!(p, SweepPhase::Resting { index: 0 });
    let p = sweep_step(2, p, SweepEvent::Succeeded);
    assert_eq!(p, SweepPhase::Purging { index: 1 });
}

#[test]
fn sweep_keeps_row_when_bytes_fail_and_goes_on() {
    let p = sweep_step(2, SweepPhase::Purging { index: 0 }, SweepEvent::Failed);
    assert_eq!(p, SweepPhase::Resting { index: 0 });
    assert_eq!(sweep_step(2, p, SweepEvent::Succeeded), SweepPhase::Purging { index: 1 });
    assert_eq!(sweep_step(2, SweepPhase::Resting { index: 1 }, SweepEvent::Succeeded), SweepPhase::Finished);
    assert_eq!(start_sweep(0), SweepPhase::Finished);
}

#[test]
fn object_paths() {
    let local = select_backend(false, true, "./files".to_string());
    assert_eq!(local.object_path("01ABC"), "./files/01ABC");
    let remote = select_backend(true, true, "./files".to_string());
    assert!(matches!(remote, Backend::ObjectStore));
    assert_eq!(remote.object_path("01ABC"), "/01ABC");
}

#[test]
fn non_success_status_is_storage_error() {
    assert_eq!(check_response(true, 200), Ok(()));
    assert_eq!(check_response(true, 204), Ok(()));
    assert_eq!(check_response(true, 404), Err(Error::StorageError));
    assert_eq!(check_response(true, 302), Err(Error::StorageError));
    assert_eq!(check_response(false, 200), Err(Error::StorageError));
}

#[test]
fn status_codes() {
    assert_eq!(Error::FileTooLarge { max_size: 3 }.status_code(), 413);
    assert_eq!(Error::NotFound.status_code(), 404);
    assert_eq!(Error::StorageError.status_code(), 500);
    assert_eq!(Error::ValidationFailed.status_code(), 400);
    assert_eq!(Error::MetaParseFailed.status_code(), 500);
}
