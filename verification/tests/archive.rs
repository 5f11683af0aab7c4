use cookycardz::archive::{
    backup_start, backup_step, has_backup_extension, restore_start, restore_step, zip_entry,
    ArchiveEntry, BackupAction, BackupEvent, BackupStage, RestoreAction, RestoreEvent,
    RestoreStage, ZipEntry,
};
use cookycardz::text::decimal_string;

fn s(x: &str) -> String {
    x.to_string()
}

#[test]
fn decimal_formatting() {
    assert_eq!(decimal_string(0), "0");
    assert_eq!(decimal_string(7), "7");
    assert_eq!(decimal_string(10), "10");
    assert_eq!(decimal_string(407), "407");
    assert_eq!(decimal_string(u64::MAX), u64::MAX.to_string());
}

#[test]
fn archive_names_use_forward_slashes() {
    match zip_entry("recipes\\images\\cake.png", false) {
        ZipEntry::File { name } => assert_eq!(name, "recipes/images/cake.png"),
        _ => panic!(),
    }
    match zip_entry("db/main", true) {
        ZipEntry::Directory { name } => assert_eq!(name, "db/main"),
        _ => panic!(),
    }
}

#[test]
fn backup_extension() {
    assert!(has_backup_extension(Some("ccar")));
    assert!(!has_backup_extension(Some("CCAR")));
    assert!(!has_backup_extension(Some("zip")));
    assert!(!has_backup_extension(None));
}

#[test]
fn backup_scenario() {
    let (st, a) = backup_start();
    assert!(matches!(a, BackupAction::ResolveDataDir));
    let (st, a) = backup_step(st, BackupEvent::DataDirResolved(Ok(())));
    assert!(matches!(a, BackupAction::CheckDataDirExists));
    let (st, a) = backup_step(st, BackupEvent::DataDirExists(true));
    match a {
        BackupAction::PickDestination { title, filter_name, extension, file_name } => {
            assert_eq!(title, "Save backup");
            assert_eq!(filter_name, "App Archive");
            assert_eq!(extension, "ccar");
            assert_eq!(file_name, "cookycardzdata.ccar");
        },
        _ => panic!(),
    }
    let (st, a) = backup_step(st, BackupEvent::DestinationPicked(Some(Some(s("zip")))));
    match a {
        BackupAction::CreateArchive { extension } => assert_eq!(extension, Some(s("ccar"))),
        _ => panic!(),
    }
    let (st, a) = backup_step(st, BackupEvent::ArchiveCreated(Ok(())));
    assert!(matches!(a, BackupAction::ZipDataDir));
    let (st, a) = backup_step(st, BackupEvent::Zipped(Ok(())));
    assert!(matches!(a, BackupAction::FinaliseArchive));
    let (st, a) = backup_step(st, BackupEvent::Finalised(Ok(())));
    assert!(matches!(a, BackupAction::Complete));
    assert_eq!(st, BackupStage::Finished);
}

#[test]
fn backup_keeps_a_ccar_name_and_reports_failures() {
    let (_, a) = backup_step(BackupStage::AwaitDestination, BackupEvent::DestinationPicked(Some(Some(s("ccar")))));
    assert!(matches!(a, BackupAction::CreateArchive { extension: None }));
    let (_, a) = backup_step(BackupStage::AwaitDestination, BackupEvent::DestinationPicked(None));
    assert!(matches!(a, BackupAction::Complete));
    let (_, a) = backup_step(BackupStage::AwaitDataDirExists, BackupEvent::DataDirExists(false));
    match a {
        BackupAction::Fail { message } => assert_eq!(message, "App data directory does not exist."),
        _ => panic!(),
    }
    let (_, a) = backup_step(BackupStage::AwaitDataDir, BackupEvent::DataDirResolved(Err(s("no home"))));
    match a {
        BackupAction::Fail { message } => assert_eq!(message, "Could not resolve app data dir: no home"),
        _ => panic!(),
    }
    let (_, a) = backup_step(BackupStage::AwaitCreate, BackupEvent::ArchiveCreated(Err(s("denied"))));
    match a {
        BackupAction::Fail { message } => assert_eq!(message, "Could not create archive file: denied"),
        _ => panic!(),
    }
    let (_, a) = backup_step(BackupStage::AwaitZip, BackupEvent::Zipped(Err(s("io"))));
    match a {
        BackupAction::Fail { message } => assert_eq!(message, "Failed to zip app data: io"),
        _ => panic!(),
    }
    let (_, a) = backup_step(BackupStage::AwaitFinish, BackupEvent::Finalised(Err(s("disk full"))));
    match a {
        BackupAction::Fail { message } => assert_eq!(message, "Failed to finalise archive: disk full"),
        _ => panic!(),
    }
}

#[test]
fn restore_scenario() {
    let (st, a) = restore_start();
    assert!(matches!(a, RestoreAction::LogOut));
    let (st, a) = restore_step(st, RestoreEvent::LoggedOut(Ok(())));
    assert!(matches!(a, RestoreAction::ResolveDataDir));
    let (st, a) = restore_step(st, RestoreEvent::DataDirResolved(Ok(())));
    match a {
        RestoreAction::PickArchive { title, filter_name, extension } => {
            assert_eq!(title, "Restore backup");
            assert_eq!(filter_name, "App Archive");
            assert_eq!(extension, "ccar");
        },
        _ => panic!(),
    }
    let (st, a) = restore_step(st, RestoreEvent::Picked(true));
    assert!(matches!(a, RestoreAction::OpenArchive));
    let (st, a) = restore_step(st, RestoreEvent::Opened(Ok(())));
    assert!(matches!(a, RestoreAction::ReadArchive));
    let (st, a) = restore_step(st, RestoreEvent::ArchiveRead(Ok(2)));
    assert!(matches!(a, RestoreAction::CheckDataDirExists));
    let (st, a) = restore_step(st, RestoreEvent::DataDirExists(true));
    assert!(matches!(a, RestoreAction::ClearDataDir));
    let (st, a) = restore_step(st, RestoreEvent::Cleared(Ok(())));
    assert!(matches!(a, RestoreAction::RecreateDataDir));
    let (st, a) = restore_step(st, RestoreEvent::Recreated(Ok(())));
    assert!(matches!(a, RestoreAction::ReadEntry { index: 0 }));
    let entry = ArchiveEntry { enclosed_name: Some(s("images/")), is_dir: true };
    let (st, a) = restore_step(st, RestoreEvent::EntryRead(Ok(entry)));
    match a {
        RestoreAction::CreateDirectory { path } => assert_eq!(path, "images/"),
        _ => panic!(),
    }
    let (st, a) = restore_step(st, RestoreEvent::EntryWritten(Ok(())));
    assert!(matches!(a, RestoreAction::ReadEntry { index: 1 }));
    let entry = ArchiveEntry { enclosed_name: Some(s("images/cake.png")), is_dir: false };
    let (st, a) = restore_step(st, RestoreEvent::EntryRead(Ok(entry)));
    match a {
        RestoreAction::WriteFile { path } => assert_eq!(path, "images/cake.png"),
        _ => panic!(),
    }
    let (st, a) = restore_step(st, RestoreEvent::EntryWritten(Ok(())));
    match a {
        RestoreAction::Emit { event, payload } => {
            assert_eq!(event, "import_complete");
            assert_eq!(payload, "Import Complete");
        },
        _ => panic!(),
    }
    let (st, a) = restore_step(st, RestoreEvent::Emitted(Ok(())));
    assert!(matches!(a, RestoreAction::Restart));
    assert_eq!(st, RestoreStage::Finished);
}

#[test]
fn restore_refuses_unsafe_and_unreadable_entries() {
    let st = RestoreStage::AwaitEntry { index: 3, count: 5 };
    let entry = ArchiveEntry { enclosed_name: None, is_dir: false };
    let (st2, a) = restore_step(st, RestoreEvent::EntryRead(Ok(entry)));
    assert_eq!(st2, RestoreStage::Finished);
    match a {
        RestoreAction::Fail { message } => assert_eq!(message, "Unsafe path in archive entry 3"),
        _ => panic!(),
    }
    let (_, a) = restore_step(RestoreStage::AwaitEntry { index: 12, count: 20 }, RestoreEvent::EntryRead(Err(s("bad crc"))));
    match a {
        RestoreAction::Fail { message } => assert_eq!(message, "Failed to read archive entry 12: bad crc"),
        _ => panic!(),
    }
}

#[test]
fn restore_edge_cases() {
    let (_, a) = restore_step(RestoreStage::AwaitPick, RestoreEvent::Picked(false));
    assert!(matches!(a, RestoreAction::Complete));
    let (st, a) = restore_step(RestoreStage::AwaitRecreate { count: 0 }, RestoreEvent::Recreated(Ok(())));
    assert!(matches!(a, RestoreAction::Emit { .. }));
    assert_eq!(st, RestoreStage::AwaitEmit);
    let (st, a) = restore_step(RestoreStage::AwaitDataDirExists { count: 4 }, RestoreEvent::DataDirExists(false));
    assert!(matches!(a, RestoreAction::RecreateDataDir));
    assert_eq!(st, RestoreStage::AwaitRecreate { count: 4 });
    let (_, a) = restore_step(RestoreStage::AwaitArchive, RestoreEvent::ArchiveRead(Err(s("not a zip"))));
    match a {
        RestoreAction::Fail { message } => assert_eq!(message, "Invalid archive: not a zip"),
        _ => panic!(),
    }
    let (_, a) = restore_step(RestoreStage::AwaitOpen, RestoreEvent::Opened(Err(s("missing"))));
    match a {
        RestoreAction::Fail { message } => assert_eq!(message, "Could not open archive: missing"),
        _ => panic!(),
    }
    let (_, a) = restore_step(RestoreStage::AwaitClear { count: 1 }, RestoreEvent::Cleared(Err(s("busy"))));
    match a {
        RestoreAction::Fail { message } => assert_eq!(message, "Failed to clear app data dir: busy"),
        _ => panic!(),
    }
    let (_, a) = restore_step(RestoreStage::AwaitRecreate { count: 1 }, RestoreEvent::Recreated(Err(s("ro"))));
    match a {
        RestoreAction::Fail { message } => assert_eq!(message, "Failed to recreate app data dir: ro"),
        _ => panic!(),
    }
    let (_, a) = restore_step(RestoreStage::AwaitLogout, RestoreEvent::LoggedOut(Err(s("keyring"))));
    match a {
        RestoreAction::Fail { message } => assert_eq!(message, "keyring"),
        _ => panic!(),
    }
}
