//! Backing up the app-data directory into a `.ccar` archive and restoring it
//! from one.
//!
//! Both are state machines: the caller resolves the directory, shows the
//! file dialogs, reads and writes files and the archive, and reports each
//! outcome as the next event. Paths stay with the caller, apart from the
//! names that the archive holds.

use vstd::prelude::*;
use crate::lists::opt_view;
use crate::text::{decimal, decimal_string, replace_char, replace_char_with, str_equal};

verus! {

/// `prefix` followed by `detail`.
fn prefixed(prefix: &str, detail: &str) -> (r: String)
    ensures
        r@ == prefix@ + detail@,
{
    String::from_str(prefix).concat(detail)
}

// ---------------------------------------------------------------------------
// Backup
// ---------------------------------------------------------------------------

/// The name under which a file or directory is stored in the archive: its
/// path relative to the app-data directory, with every `\` turned into `/`
/// so that the archive reads the same on every system.
pub open spec fn archive_name(relative: Seq<char>) -> Seq<char> {
    replace_char(relative, '\\', "/"@)
}

/// How one file or directory below the app-data directory enters the archive.
pub enum ZipEntry {
    Directory { name: String },
    File { name: String },
}

/// The archive entry for the file or directory at `relative` (its path
/// relative to the app-data directory).
pub fn zip_entry(relative: &str, is_dir: bool) -> (r: ZipEntry)
    ensures
        is_dir ==> (r matches ZipEntry::Directory { name } && name@ == archive_name(relative@)),
        !is_dir ==> (r matches ZipEntry::File { name } && name@ == archive_name(relative@)),
{
    let name = replace_char_with(relative, '\\', "/");
    if is_dir {
        ZipEntry::Directory { name }
    } else {
        ZipEntry::File { name }
    }
}

/// Whether a file name extension is the backup extension `ccar`.
pub fn has_backup_extension(extension: Option<&str>) -> (r: bool)
    ensures
        r == (extension matches Some(e) && e@ == "ccar"@),
{
    match extension {
        Some(e) => str_equal(e, "ccar"),
        None => false,
    }
}

/// Where a backup stands.
#[derive(Clone, Copy, PartialEq, Eq, Structural, Debug)]
pub enum BackupStage {
    AwaitDataDir,
    AwaitDataDirExists,
    AwaitDestination,
    AwaitCreate,
    AwaitZip,
    AwaitFinish,
    Finished,
}

/// What the caller reports back to a backup.
pub enum BackupEvent {
    /// Whether the app-data directory could be resolved (and if not, why).
    DataDirResolved(Result<(), String>),
    /// Whether the app-data directory exists.
    DataDirExists(bool),
    /// The file chosen in the save dialog, by its extension (`Some(None)`:
    /// a file without a readable extension); `None` when the user cancelled.
    DestinationPicked(Option<Option<String>>),
    ArchiveCreated(Result<(), String>),
    Zipped(Result<(), String>),
    Finalised(Result<(), String>),
}

/// What a backup asks the caller to do next.
pub enum BackupAction {
    ResolveDataDir,
    CheckDataDirExists,
    /// Show the save dialog.
    PickDestination { title: String, filter_name: String, extension: String, file_name: String },
    /// Create the archive file at the chosen place, after giving it the
    /// extension `extension`, if there is one.
    CreateArchive { extension: Option<String> },
    /// Add the contents of the app-data directory to the archive.
    ZipDataDir,
    FinaliseArchive,
    /// The backup is over (done, or cancelled by the user).
    Complete,
    Fail { message: String },
    Ignore,
}

/// The mathematical form of [`BackupAction`].
pub enum BackupCommand {
    ResolveDataDir,
    CheckDataDirExists,
    PickDestination {
        title: Seq<char>,
        filter_name: Seq<char>,
        extension: Seq<char>,
        file_name: Seq<char>,
    },
    CreateArchive { extension: Option<Seq<char>> },
    ZipDataDir,
    FinaliseArchive,
    Complete,
    Fail { message: Seq<char> },
    Ignore,
}

impl View for BackupAction {
    type V = BackupCommand;

    open spec fn view(&self) -> BackupCommand {
        match self {
            BackupAction::ResolveDataDir => BackupCommand::ResolveDataDir,
            BackupAction::CheckDataDirExists => BackupCommand::CheckDataDirExists,
            BackupAction::PickDestination { title, filter_name, extension, file_name } =>
                BackupCommand::PickDestination {
                title: title@,
                filter_name: filter_name@,
                extension: extension@,
                file_name: file_name@,
            },
            BackupAction::CreateArchive { extension } => BackupCommand::CreateArchive {
                extension: opt_view(*extension),
            },
            BackupAction::ZipDataDir => BackupCommand::ZipDataDir,
            BackupAction::FinaliseArchive => BackupCommand::FinaliseArchive,
            BackupAction::Complete => BackupCommand::Complete,
            BackupAction::Fail { message } => BackupCommand::Fail { message: message@ },
            BackupAction::Ignore => BackupCommand::Ignore,
        }
    }
}

/// The backup, step by step: resolve the app-data directory ("Could not
/// resolve app data dir: ..."); it must exist ("App data directory does not
/// exist."); ask where to save (cancelling ends the backup without error);
/// give the file the extension `ccar` unless it has it; create the archive
/// ("Could not create archive file: ..."), add the directory ("Failed to zip
/// app data: ...") and finalise it ("Failed to finalise archive: ...").
pub open spec fn backup_next(stage: BackupStage, event: BackupEvent) -> (BackupStage, BackupCommand) {
    match (stage, event) {
        (BackupStage::AwaitDataDir, BackupEvent::DataDirResolved(Err(e))) => (
            BackupStage::Finished,
            BackupCommand::Fail { message: "Could not resolve app data dir: "@ + e@ },
        ),
        (BackupStage::AwaitDataDir, BackupEvent::DataDirResolved(Ok(()))) => (
            BackupStage::AwaitDataDirExists,
            BackupCommand::CheckDataDirExists,
        ),
        (BackupStage::AwaitDataDirExists, BackupEvent::DataDirExists(exists)) => {
            if exists {
                (
                    BackupStage::AwaitDestination,
                    BackupCommand::PickDestination {
                        title: "Save backup"@,
                        filter_name: "App Archive"@,
                        extension: "ccar"@,
                        file_name: "cookycardzdata.ccar"@,
                    },
                )
            } else {
                (
                    BackupStage::Finished,
                    BackupCommand::Fail { message: "App data directory does not exist."@ },
                )
            }
        },
        (BackupStage::AwaitDestination, BackupEvent::DestinationPicked(None)) => (
            BackupStage::Finished,
            BackupCommand::Complete,
        ),
        (BackupStage::AwaitDestination, BackupEvent::DestinationPicked(Some(ext))) => (
            BackupStage::AwaitCreate,
            BackupCommand::CreateArchive {
                extension: if opt_view(ext) == Some("ccar"@) {
                    None
                } else {
                    Some("ccar"@)
                },
            },
        ),
        (BackupStage::AwaitCreate, BackupEvent::ArchiveCreated(Err(e))) => (
            BackupStage::Finished,
            BackupCommand::Fail { message: "Could not create archive file: "@ + e@ },
        ),
        (BackupStage::AwaitCreate, BackupEvent::ArchiveCreated(Ok(()))) => (
            BackupStage::AwaitZip,
            BackupCommand::ZipDataDir,
        ),
        (BackupStage::AwaitZip, BackupEvent::Zipped(Err(e))) => (
            BackupStage::Finished,
            BackupCommand::Fail { message: "Failed to zip app data: "@ + e@ },
        ),
        (BackupStage::AwaitZip, BackupEvent::Zipped(Ok(()))) => (
            BackupStage::AwaitFinish,
            BackupCommand::FinaliseArchive,
        ),
        (BackupStage::AwaitFinish, BackupEvent::Finalised(Err(e))) => (
            BackupStage::Finished,
            BackupCommand::Fail { message: "Failed to finalise archive: "@ + e@ },
        ),
        (BackupStage::AwaitFinish, BackupEvent::Finalised(Ok(()))) => (
            BackupStage::Finished,
            BackupCommand::Complete,
        ),
        _ => (stage, BackupCommand::Ignore),
    }
}

/// Starts a backup: its first action is to resolve the app-data directory.
pub fn backup_start() -> (r: (BackupStage, BackupAction))
    ensures
        r.0 == BackupStage::AwaitDataDir,
        r.1@ == BackupCommand::ResolveDataDir,
{
    (BackupStage::AwaitDataDir, BackupAction::ResolveDataDir)
}

/// Advances a backup by one event.
pub fn backup_step(stage: BackupStage, event: BackupEvent) -> (r: (BackupStage, BackupAction))
    ensures
        (r.0, r.1@) == backup_next(stage, event),
{
    match (stage, event) {
        (BackupStage::AwaitDataDir, BackupEvent::DataDirResolved(Err(e))) => (
            BackupStage::Finished,
            BackupAction::Fail { message: prefixed("Could not resolve app data dir: ", e.as_str()) },
        ),
        (BackupStage::AwaitDataDir, BackupEvent::DataDirResolved(Ok(()))) => (
            BackupStage::AwaitDataDirExists,
            BackupAction::CheckDataDirExists,
        ),
        (BackupStage::AwaitDataDirExists, BackupEvent::DataDirExists(exists)) => {
            if exists {
                (
                    BackupStage::AwaitDestination,
                    BackupAction::PickDestination {
                        title: String::from_str("Save backup"),
                        filter_name: String::from_str("App Archive"),
                        extension: String::from_str("ccar"),
                        file_name: String::from_str("cookycardzdata.ccar"),
                    },
                )
            } else {
                (
                    BackupStage::Finished,
                    BackupAction::Fail {
                        message: String::from_str("App data directory does not exist."),
                    },
                )
            }
        },
        (BackupStage::AwaitDestination, BackupEvent::DestinationPicked(None)) => (
            BackupStage::Finished,
            BackupAction::Complete,
        ),
        (BackupStage::AwaitDestination, BackupEvent::DestinationPicked(Some(ext))) => {
            let has = match &ext {
                Some(e) => has_backup_extension(Some(e.as_str())),
                None => has_backup_extension(None),
            };
            let extension = if has {
                None
            } else {
                Some(String::from_str("ccar"))
            };
            (BackupStage::AwaitCreate, BackupAction::CreateArchive { extension })
        },
        (BackupStage::AwaitCreate, BackupEvent::ArchiveCreated(Err(e))) => (
            BackupStage::Finished,
            BackupAction::Fail { message: prefixed("Could not create archive file: ", e.as_str()) },
        ),
        (BackupStage::AwaitCreate, BackupEvent::ArchiveCreated(Ok(()))) => (
            BackupStage::AwaitZip,
            BackupAction::ZipDataDir,
        ),
        (BackupStage::AwaitZip, BackupEvent::Zipped(Err(e))) => (
            BackupStage::Finished,
            BackupAction::Fail { message: prefixed("Failed to zip app data: ", e.as_str()) },
        ),
        (BackupStage::AwaitZip, BackupEvent::Zipped(Ok(()))) => (
            BackupStage::AwaitFinish,
            BackupAction::FinaliseArchive,
        ),
        (BackupStage::AwaitFinish, BackupEvent::Finalised(Err(e))) => (
            BackupStage::Finished,
            BackupAction::Fail { message: prefixed("Failed to finalise archive: ", e.as_str()) },
        ),
        (BackupStage::AwaitFinish, BackupEvent::Finalised(Ok(()))) => (
            BackupStage::Finished,
            BackupAction::Complete,
        ),
        (stage, _) => (stage, BackupAction::Ignore),
    }
}

/// How far a backup is from its end.
pub open spec fn backup_rank(stage: BackupStage) -> nat {
    match stage {
        BackupStage::AwaitDataDir => 6,
        BackupStage::AwaitDataDirExists => 5,
        BackupStage::AwaitDestination => 4,
        BackupStage::AwaitCreate => 3,
        BackupStage::AwaitZip => 2,
        BackupStage::AwaitFinish => 1,
        BackupStage::Finished => 0,
    }
}

/// A backup ends, and it writes an archive only into a file that the user
/// chose, which always ends up with the extension `ccar`: that extension is
/// set exactly when the chosen file does not already have it, and no other
/// is ever set. Cancelling the dialog is no error.
pub proof fn lemma_backup_laws(stage: BackupStage, event: BackupEvent)
    ensures
        backup_next(stage, event).1 is Ignore ==> backup_next(stage, event).0 == stage,
        !(backup_next(stage, event).1 is Ignore) ==> backup_rank(backup_next(stage, event).0)
            < backup_rank(stage),
        backup_next(stage, event).1 matches BackupCommand::CreateArchive { extension } ==> (
        event matches BackupEvent::DestinationPicked(Some(ext)) && stage
            == BackupStage::AwaitDestination && (extension is Some <==> opt_view(ext) != Some(
            "ccar"@,
        )) && (extension is Some ==> extension == Some("ccar"@))),
        stage == BackupStage::AwaitDestination && event == BackupEvent::DestinationPicked(None)
            ==> backup_next(stage, event).1 is Complete,
{
}

/// A backup in which every step succeeds resolves the app-data directory,
/// checks that it exists, asks where to save, creates the archive in the
/// chosen file (adding the extension `ccar` unless the file has it), adds
/// the directory to it, finalises it and completes; a failure at any step
/// ends it with its message.
pub proof fn lemma_backup_success_run(ext: Option<String>, e: String)
    ensures
        ({
            let s1 = backup_next(BackupStage::AwaitDataDir, BackupEvent::DataDirResolved(Ok(())));
            let s2 = backup_next(s1.0, BackupEvent::DataDirExists(true));
            let s3 = backup_next(s2.0, BackupEvent::DestinationPicked(Some(ext)));
            let s4 = backup_next(s3.0, BackupEvent::ArchiveCreated(Ok(())));
            let s5 = backup_next(s4.0, BackupEvent::Zipped(Ok(())));
            let s6 = backup_next(s5.0, BackupEvent::Finalised(Ok(())));
            &&& s1.1 == BackupCommand::CheckDataDirExists
            &&& s2.1 == (BackupCommand::PickDestination {
                title: "Save backup"@,
                filter_name: "App Archive"@,
                extension: "ccar"@,
                file_name: "cookycardzdata.ccar"@,
            })
            &&& s3.1 == (BackupCommand::CreateArchive {
                extension: match ext {
                    Some(x) => if x@ == "ccar"@ {
                        None
                    } else {
                        Some("ccar"@)
                    },
                    None => Some("ccar"@),
                },
            })
            &&& s4.1 == BackupCommand::ZipDataDir
            &&& s5.1 == BackupCommand::FinaliseArchive
            &&& s6 == (BackupStage::Finished, BackupCommand::Complete)
        }),
        backup_next(BackupStage::AwaitDataDirExists, BackupEvent::DataDirExists(false)) == (
            BackupStage::Finished,
            BackupCommand::Fail { message: "App data directory does not exist."@ },
        ),
        backup_next(BackupStage::AwaitCreate, BackupEvent::ArchiveCreated(Err(e))) == (
            BackupStage::Finished,
            BackupCommand::Fail { message: "Could not create archive file: "@ + e@ },
        ),
        backup_next(BackupStage::AwaitZip, BackupEvent::Zipped(Err(e))) == (
            BackupStage::Finished,
            BackupCommand::Fail { message: "Failed to zip app data: "@ + e@ },
        ),
        backup_next(BackupStage::AwaitFinish, BackupEvent::Finalised(Err(e))) == (
            BackupStage::Finished,
            BackupCommand::Fail { message: "Failed to finalise archive: "@ + e@ },
        ),
{
}

// ---------------------------------------------------------------------------
// Restore
// ---------------------------------------------------------------------------

/// What the caller read about one archive entry: its name, if the name is
/// safe to extract (relative, and never leaving the target directory), and
/// whether it is a directory.
pub struct ArchiveEntry {
    pub enclosed_name: Option<String>,
    pub is_dir: bool,
}

/// Where a restore stands. `count` is the number of archive entries and
/// `index` the entry being extracted.
#[derive(Clone, Copy, PartialEq, Eq, Structural, Debug)]
pub enum RestoreStage {
    AwaitLogout,
    AwaitDataDir,
    AwaitPick,
    AwaitOpen,
    AwaitArchive,
    AwaitDataDirExists { count: u64 },
    AwaitClear { count: u64 },
    AwaitRecreate { count: u64 },
    AwaitEntry { index: u64, count: u64 },
    AwaitWrite { index: u64, count: u64 },
    AwaitEmit,
    Finished,
}

/// What the caller reports back to a restore.
pub enum RestoreEvent {
    /// The outcome of signing out (and why it failed).
    LoggedOut(Result<(), String>),
    DataDirResolved(Result<(), String>),
    /// Whether the user chose an archive in the open dialog.
    Picked(bool),
    /// The outcome of opening the chosen file.
    Opened(Result<(), String>),
    /// The number of entries of the archive, or why it is not a valid archive.
    ArchiveRead(Result<u64, String>),
    DataDirExists(bool),
    Cleared(Result<(), String>),
    Recreated(Result<(), String>),
    /// The entry asked for, or why it could not be read.
    EntryRead(Result<ArchiveEntry, String>),
    /// The outcome of extracting the entry, with the full message on failure.
    EntryWritten(Result<(), String>),
    /// The outcome of telling the interface that the import is complete.
    Emitted(Result<(), String>),
}

/// What a restore asks the caller to do next.
pub enum RestoreAction {
    /// Sign out, so that the restored data does not clash with the cloud.
    LogOut,
    ResolveDataDir,
    /// Show the open dialog.
    PickArchive { title: String, filter_name: String, extension: String },
    OpenArchive,
    ReadArchive,
    CheckDataDirExists,
    /// Delete the app-data directory and all it holds.
    ClearDataDir,
    /// Create the app-data directory (and its parents).
    RecreateDataDir,
    ReadEntry { index: u64 },
    /// Create this directory, relative to the app-data directory.
    CreateDirectory { path: String },
    /// Write the current entry into this file, relative to the app-data
    /// directory, creating its parent directories first.
    WriteFile { path: String },
    /// Tell the interface `event` with `payload`.
    Emit { event: String, payload: String },
    /// The restore succeeded: restart the application.
    Restart,
    /// The restore is over without change (the user cancelled).
    Complete,
    Fail { message: String },
    Ignore,
}

/// The mathematical form of [`RestoreAction`].
pub enum RestoreCommand {
    LogOut,
    ResolveDataDir,
    PickArchive { title: Seq<char>, filter_name: Seq<char>, extension: Seq<char> },
    OpenArchive,
    ReadArchive,
    CheckDataDirExists,
    ClearDataDir,
    RecreateDataDir,
    ReadEntry { index: u64 },
    CreateDirectory { path: Seq<char> },
    WriteFile { path: Seq<char> },
    Emit { event: Seq<char>, payload: Seq<char> },
    Restart,
    Complete,
    Fail { message: Seq<char> },
    Ignore,
}

impl View for RestoreAction {
    type V = RestoreCommand;

    open spec fn view(&self) -> RestoreCommand {
        match self {
            RestoreAction::LogOut => RestoreCommand::LogOut,
            RestoreAction::ResolveDataDir => RestoreCommand::ResolveDataDir,
            RestoreAction::PickArchive { title, filter_name, extension } =>
                RestoreCommand::PickArchive {
                title: title@,
                filter_name: filter_name@,
                extension: extension@,
            },
            RestoreAction::OpenArchive => RestoreCommand::OpenArchive,
            RestoreAction::ReadArchive => RestoreCommand::ReadArchive,
            RestoreAction::CheckDataDirExists => RestoreCommand::CheckDataDirExists,
            RestoreAction::ClearDataDir => RestoreCommand::ClearDataDir,
            RestoreAction::RecreateDataDir => RestoreCommand::RecreateDataDir,
            RestoreAction::ReadEntry { index } => RestoreCommand::ReadEntry { index: *index },
            RestoreAction::CreateDirectory { path } => RestoreCommand::CreateDirectory {
                path: path@,
            },
            RestoreAction::WriteFile { path } => RestoreCommand::WriteFile { path: path@ },
            RestoreAction::Emit { event, payload } => RestoreCommand::Emit {
                event: event@,
                payload: payload@,
            },
            RestoreAction::Restart => RestoreCommand::Restart,
            RestoreAction::Complete => RestoreCommand::Complete,
            RestoreAction::Fail { message } => RestoreCommand::Fail { message: message@ },
            RestoreAction::Ignore => RestoreCommand::Ignore,
        }
    }
}

/// The last step of extracting: read the next entry, or, after the last
/// one, tell the interface that the import is complete.
pub open spec fn after_entry(next: int, count: u64) -> (RestoreStage, RestoreCommand) {
    if next < count {
        (
            RestoreStage::AwaitEntry { index: next as u64, count },
            RestoreCommand::ReadEntry { index: next as u64 },
        )
    } else {
        (
            RestoreStage::AwaitEmit,
            RestoreCommand::Emit { event: "import_complete"@, payload: "Import Complete"@ },
        )
    }
}

/// A failed restore with `message`.
pub open spec fn restore_fails(message: Seq<char>) -> (RestoreStage, RestoreCommand) {
    (RestoreStage::Finished, RestoreCommand::Fail { message })
}

/// The restore, step by step: sign out; resolve the app-data directory;
/// ask for the archive (cancelling ends the restore without error); open and
/// read it before touching anything ("Could not open archive: ...",
/// "Invalid archive: ..."); delete the app-data directory if it exists and
/// create it again; extract the entries in order, stopping at an unreadable
/// entry ("Failed to read archive entry i: ...") or at one whose name is not
/// safe ("Unsafe path in archive entry i"); tell the interface, and restart.
pub open spec fn restore_next(stage: RestoreStage, event: RestoreEvent) -> (RestoreStage, RestoreCommand) {
    match (stage, event) {
        (RestoreStage::AwaitLogout, RestoreEvent::LoggedOut(Err(e))) => restore_fails(e@),
        (RestoreStage::AwaitLogout, RestoreEvent::LoggedOut(Ok(()))) => (
            RestoreStage::AwaitDataDir,
            RestoreCommand::ResolveDataDir,
        ),
        (RestoreStage::AwaitDataDir, RestoreEvent::DataDirResolved(Err(e))) => restore_fails(
            "Could not resolve app data dir: "@ + e@,
        ),
        (RestoreStage::AwaitDataDir, RestoreEvent::DataDirResolved(Ok(()))) => (
            RestoreStage::AwaitPick,
            RestoreCommand::PickArchive {
                title: "Restore backup"@,
                filter_name: "App Archive"@,
                extension: "ccar"@,
            },
        ),
        (RestoreStage::AwaitPick, RestoreEvent::Picked(chosen)) => {
            if chosen {
                (RestoreStage::AwaitOpen, RestoreCommand::OpenArchive)
            } else {
                (RestoreStage::Finished, RestoreCommand::Complete)
            }
        },
        (RestoreStage::AwaitOpen, RestoreEvent::Opened(Err(e))) => restore_fails(
            "Could not open archive: "@ + e@,
        ),
        (RestoreStage::AwaitOpen, RestoreEvent::Opened(Ok(()))) => (
            RestoreStage::AwaitArchive,
            RestoreCommand::ReadArchive,
        ),
        (RestoreStage::AwaitArchive, RestoreEvent::ArchiveRead(Err(e))) => restore_fails(
            "Invalid archive: "@ + e@,
        ),
        (RestoreStage::AwaitArchive, RestoreEvent::ArchiveRead(Ok(count))) => (
            RestoreStage::AwaitDataDirExists { count },
            RestoreCommand::CheckDataDirExists,
        ),
        (RestoreStage::AwaitDataDirExists { count }, RestoreEvent::DataDirExists(exists)) => {
            if exists {
                (RestoreStage::AwaitClear { count }, RestoreCommand::ClearDataDir)
            } else {
                (RestoreStage::AwaitRecreate { count }, RestoreCommand::RecreateDataDir)
            }
        },
        (RestoreStage::AwaitClear { .. }, RestoreEvent::Cleared(Err(e))) => restore_fails(
            "Failed to clear app data dir: "@ + e@,
        ),
        (RestoreStage::AwaitClear { count }, RestoreEvent::Cleared(Ok(()))) => (
            RestoreStage::AwaitRecreate { count },
            RestoreCommand::RecreateDataDir,
        ),
        (RestoreStage::AwaitRecreate { .. }, RestoreEvent::Recreated(Err(e))) => restore_fails(
            "Failed to recreate app data dir: "@ + e@,
        ),
        (RestoreStage::AwaitRecreate { count }, RestoreEvent::Recreated(Ok(()))) => after_entry(
            0,
            count,
        ),
        (RestoreStage::AwaitEntry { index, .. }, RestoreEvent::EntryRead(Err(e))) => restore_fails(
            "Failed to read archive entry "@ + decimal(index as nat) + ": "@ + e@,
        ),
        (RestoreStage::AwaitEntry { index, count }, RestoreEvent::EntryRead(Ok(entry))) => {
            match entry.enclosed_name {
                None => restore_fails("Unsafe path in archive entry "@ + decimal(index as nat)),
                Some(path) => if entry.is_dir {
                    (
                        RestoreStage::AwaitWrite { index, count },
                        RestoreCommand::CreateDirectory { path: path@ },
                    )
                } else {
                    (
                        RestoreStage::AwaitWrite { index, count },
                        RestoreCommand::WriteFile { path: path@ },
                    )
                },
            }
        },
        (RestoreStage::AwaitWrite { .. }, RestoreEvent::EntryWritten(Err(e))) => restore_fails(e@),
        (RestoreStage::AwaitWrite { index, count }, RestoreEvent::EntryWritten(Ok(()))) =>
            after_entry(index + 1, count),
        (RestoreStage::AwaitEmit, RestoreEvent::Emitted(Err(e))) => restore_fails(e@),
        (RestoreStage::AwaitEmit, RestoreEvent::Emitted(Ok(()))) => (
            RestoreStage::Finished,
            RestoreCommand::Restart,
        ),
        _ => (stage, RestoreCommand::Ignore),
    }
}

/// Starts a restore: its first action is to sign out.
pub fn restore_start() -> (r: (RestoreStage, RestoreAction))
    ensures
        r.0 == RestoreStage::AwaitLogout,
        r.1@ == RestoreCommand::LogOut,
{
    (RestoreStage::AwaitLogout, RestoreAction::LogOut)
}

fn restore_failure(message: String) -> (r: (RestoreStage, RestoreAction))
    ensures
        (r.0, r.1@) == restore_fails(message@),
{
    (RestoreStage::Finished, RestoreAction::Fail { message })
}

fn entry_after(next: u64, count: u64) -> (r: (RestoreStage, RestoreAction))
    ensures
        (r.0, r.1@) == after_entry(next as int, count),
{
    if next < count {
        (RestoreStage::AwaitEntry { index: next, count }, RestoreAction::ReadEntry { index: next })
    } else {
        (
            RestoreStage::AwaitEmit,
            RestoreAction::Emit {
                event: String::from_str("import_complete"),
                payload: String::from_str("Import Complete"),
            },
        )
    }
}

/// Advances a restore by one event.
pub fn restore_step(stage: RestoreStage, event: RestoreEvent) -> (r: (RestoreStage, RestoreAction))
    ensures
        (r.0, r.1@) == restore_next(stage, event),
{
    match (stage, event) {
        (RestoreStage::AwaitLogout, RestoreEvent::LoggedOut(Err(e))) => restore_failure(e),
        (RestoreStage::AwaitLogout, RestoreEvent::LoggedOut(Ok(()))) => (
            RestoreStage::AwaitDataDir,
            RestoreAction::ResolveDataDir,
        ),
        (RestoreStage::AwaitDataDir, RestoreEvent::DataDirResolved(Err(e))) => restore_failure(
            prefixed("Could not resolve app data dir: ", e.as_str()),
        ),
        (RestoreStage::AwaitDataDir, RestoreEvent::DataDirResolved(Ok(()))) => (
            RestoreStage::AwaitPick,
            RestoreAction::PickArchive {
                title: String::from_str("Restore backup"),
                filter_name: String::from_str("App Archive"),
                extension: String::from_str("ccar"),
            },
        ),
        (RestoreStage::AwaitPick, RestoreEvent::Picked(chosen)) => {
            if chosen {
                (RestoreStage::AwaitOpen, RestoreAction::OpenArchive)
            } else {
                (RestoreStage::Finished, RestoreAction::Complete)
            }
        },
        (RestoreStage::AwaitOpen, RestoreEvent::Opened(Err(e))) => restore_failure(
            prefixed("Could not open archive: ", e.as_str()),
        ),
        (RestoreStage::AwaitOpen, RestoreEvent::Opened(Ok(()))) => (
            RestoreStage::AwaitArchive,
            RestoreAction::ReadArchive,
        ),
        (RestoreStage::AwaitArchive, RestoreEvent::ArchiveRead(Err(e))) => restore_failure(
            prefixed("Invalid archive: ", e.as_str()),
        ),
        (RestoreStage::AwaitArchive, RestoreEvent::ArchiveRead(Ok(count))) => (
            RestoreStage::AwaitDataDirExists { count },
            RestoreAction::CheckDataDirExists,
        ),
        (RestoreStage::AwaitDataDirExists { count }, RestoreEvent::DataDirExists(exists)) => {
            if exists {
                (RestoreStage::AwaitClear { count }, RestoreAction::ClearDataDir)
            } else {
                (RestoreStage::AwaitRecreate { count }, RestoreAction::RecreateDataDir)
            }
        },
        (RestoreStage::AwaitClear { .. }, RestoreEvent::Cleared(Err(e))) => restore_failure(
            prefixed("Failed to clear app data dir: ", e.as_str()),
        ),
        (RestoreStage::AwaitClear { count }, RestoreEvent::Cleared(Ok(()))) => (
            RestoreStage::AwaitRecreate { count },
            RestoreAction::RecreateDataDir,
        ),
        (RestoreStage::AwaitRecreate { .. }, RestoreEvent::Recreated(Err(e))) => restore_failure(
            prefixed("Failed to recreate app data dir: ", e.as_str()),
        ),
        (RestoreStage::AwaitRecreate { count }, RestoreEvent::Recreated(Ok(()))) => entry_after(
            0,
            count,
        ),
        (RestoreStage::AwaitEntry { index, .. }, RestoreEvent::EntryRead(Err(e))) => {
            let message = String::from_str("Failed to read archive entry ").concat(
                decimal_string(index).as_str(),
            ).concat(": ").concat(e.as_str());
            restore_failure(message)
        },
        (RestoreStage::AwaitEntry { index, count }, RestoreEvent::EntryRead(Ok(entry))) => {
            let is_dir = entry.is_dir;
            match entry.enclosed_name {
                None => restore_failure(
                    prefixed("Unsafe path in archive entry ", decimal_string(index).as_str()),
                ),
                Some(path) => if is_dir {
                    (
                        RestoreStage::AwaitWrite { index, count },
                        RestoreAction::CreateDirectory { path },
                    )
                } else {
                    (RestoreStage::AwaitWrite { index, count }, RestoreAction::WriteFile { path })
                },
            }
        },
        (RestoreStage::AwaitWrite { .. }, RestoreEvent::EntryWritten(Err(e))) => restore_failure(e),
        (RestoreStage::AwaitWrite { index, count }, RestoreEvent::EntryWritten(Ok(()))) => {
            if index < count {
                entry_after(index + 1, count)
            } else {
                entry_after(count, count)
            }
        },
        (RestoreStage::AwaitEmit, RestoreEvent::Emitted(Err(e))) => restore_failure(e),
        (RestoreStage::AwaitEmit, RestoreEvent::Emitted(Ok(()))) => (
            RestoreStage::Finished,
            RestoreAction::Restart,
        ),
        (stage, _) => (stage, RestoreAction::Ignore),
    }
}

/// The phase of a restore, counted down to its end.
pub open spec fn restore_phase(stage: RestoreStage) -> nat {
    match stage {
        RestoreStage::AwaitLogout => 10,
        RestoreStage::AwaitDataDir => 9,
        RestoreStage::AwaitPick => 8,
        RestoreStage::AwaitOpen => 7,
        RestoreStage::AwaitArchive => 6,
        RestoreStage::AwaitDataDirExists { .. } => 5,
        RestoreStage::AwaitClear { .. } => 4,
        RestoreStage::AwaitRecreate { .. } => 3,
        RestoreStage::AwaitEntry { .. } => 2,
        RestoreStage::AwaitWrite { .. } => 2,
        RestoreStage::AwaitEmit => 1,
        RestoreStage::Finished => 0,
    }
}

/// Within the extraction phase, how many steps are left.
pub open spec fn restore_remaining(stage: RestoreStage) -> nat {
    match stage {
        RestoreStage::AwaitEntry { index, count } => if index < count {
            (2 * (count - index)) as nat
        } else {
            1
        },
        RestoreStage::AwaitWrite { index, count } => if index < count {
            (2 * (count - index) - 1) as nat
        } else {
            0
        },
        _ => 0,
    }
}

/// A restore ends: each event is either ignored, leaving the restore as it
/// was, or moves it to an earlier phase, or, while extracting, to fewer
/// remaining steps.
pub proof fn lemma_restore_progress(stage: RestoreStage, event: RestoreEvent)
    ensures
        restore_next(stage, event).1 is Ignore ==> restore_next(stage, event).0 == stage,
        !(restore_next(stage, event).1 is Ignore) ==> {
            ||| restore_phase(restore_next(stage, event).0) < restore_phase(stage)
            ||| (restore_phase(restore_next(stage, event).0) == restore_phase(stage)
                && restore_remaining(restore_next(stage, event).0) < restore_remaining(stage))
        },
{
}

/// The app-data directory is deleted only after the chosen archive was
/// opened and read as a valid archive; an entry is extracted only under its
/// safe name, as reported for the entry being extracted; the entries are
/// asked for in order, from the first.
pub proof fn lemma_restore_guards_data(stage: RestoreStage, event: RestoreEvent)
    ensures
        restore_next(stage, event).1 is ClearDataDir ==> stage is AwaitDataDirExists,
        restore_next(stage, event).0 is AwaitDataDirExists && !(stage is AwaitDataDirExists) ==> (
        event matches RestoreEvent::ArchiveRead(Ok(_)) && stage == RestoreStage::AwaitArchive),
        restore_next(stage, event).1 matches RestoreCommand::CreateDirectory { path } ==> (
        event matches RestoreEvent::EntryRead(Ok(entry)) && stage is AwaitEntry
            && opt_view(entry.enclosed_name) == Some(path) && entry.is_dir),
        restore_next(stage, event).1 matches RestoreCommand::WriteFile { path } ==> (
        event matches RestoreEvent::EntryRead(Ok(entry)) && stage is AwaitEntry
            && opt_view(entry.enclosed_name) == Some(path) && !entry.is_dir),
        restore_next(stage, event).1 matches RestoreCommand::ReadEntry { index } ==> {
            ||| (stage is AwaitRecreate && index == 0)
            ||| (stage matches RestoreStage::AwaitWrite { index: i, .. } && index == i + 1)
        },
{
}

/// Each step that leads to and goes through the extraction: the number of
/// entries read from the archive is carried unchanged through the check,
/// the clearing and the re-creation of the app-data directory; extraction
/// then starts at the first entry (or, with none, tells the interface at
/// once); a safe entry is extracted under its own name; and after entry `i`
/// was written comes entry `i + 1`, the interface being told only after the
/// last entry.
pub proof fn lemma_restore_extraction_steps(stage: RestoreStage, event: RestoreEvent)
    ensures
        stage == RestoreStage::AwaitArchive ==> (event matches RestoreEvent::ArchiveRead(Ok(count))
            ==> restore_next(stage, event) == (
            RestoreStage::AwaitDataDirExists { count },
            RestoreCommand::CheckDataDirExists,
        )),
        stage matches RestoreStage::AwaitDataDirExists { count } ==> (
        event matches RestoreEvent::DataDirExists(exists) ==> restore_next(stage, event) == if exists {
            (RestoreStage::AwaitClear { count }, RestoreCommand::ClearDataDir)
        } else {
            (RestoreStage::AwaitRecreate { count }, RestoreCommand::RecreateDataDir)
        }),
        stage matches RestoreStage::AwaitClear { count } ==> (event == RestoreEvent::Cleared(Ok(()))
            ==> restore_next(stage, event) == (
            RestoreStage::AwaitRecreate { count },
            RestoreCommand::RecreateDataDir,
        )),
        stage matches RestoreStage::AwaitRecreate { count } ==> (event == RestoreEvent::Recreated(
            Ok(()),
        ) ==> restore_next(stage, event) == if 0 < count {
            (RestoreStage::AwaitEntry { index: 0, count }, RestoreCommand::ReadEntry { index: 0 })
        } else {
            (
                RestoreStage::AwaitEmit,
                RestoreCommand::Emit { event: "import_complete"@, payload: "Import Complete"@ },
            )
        }),
        stage matches RestoreStage::AwaitEntry { index, count } ==> (
        event matches RestoreEvent::EntryRead(Ok(entry)) ==> (entry.enclosed_name matches Some(path)
            ==> restore_next(stage, event) == (
            RestoreStage::AwaitWrite { index, count },
            if entry.is_dir {
                RestoreCommand::CreateDirectory { path: path@ }
            } else {
                RestoreCommand::WriteFile { path: path@ }
            },
        ))),
        stage matches RestoreStage::AwaitWrite { index, count } ==> (event
            == RestoreEvent::EntryWritten(Ok(())) ==> restore_next(stage, event) == if index + 1
            < count {
            (
                RestoreStage::AwaitEntry { index: (index + 1) as u64, count },
                RestoreCommand::ReadEntry { index: (index + 1) as u64 },
            )
        } else {
            (
                RestoreStage::AwaitEmit,
                RestoreCommand::Emit { event: "import_complete"@, payload: "Import Complete"@ },
            )
        }),
{
}

/// A restore after the archive was read with `count` entries: the app-data
/// directory is found to exist (`exists`) or not, is cleared if it exists,
/// and is created again.
pub open spec fn restore_prepared(count: u64, exists: bool) -> (RestoreStage, RestoreCommand) {
    let a = restore_next(RestoreStage::AwaitArchive, RestoreEvent::ArchiveRead(Ok(count))).0;
    let b = restore_next(a, RestoreEvent::DataDirExists(exists)).0;
    let c = if exists {
        restore_next(b, RestoreEvent::Cleared(Ok(()))).0
    } else {
        b
    };
    restore_next(c, RestoreEvent::Recreated(Ok(())))
}

/// The restore after `k` entries, the `j`-th read as `entries[j]`, were each
/// extracted with success, following [`restore_prepared`].
pub open spec fn extraction_rounds(
    count: u64,
    exists: bool,
    entries: Seq<ArchiveEntry>,
    k: nat,
) -> (RestoreStage, RestoreCommand)
    decreases k,
{
    if k == 0 {
        restore_prepared(count, exists)
    } else {
        let s = extraction_rounds(count, exists, entries, (k - 1) as nat).0;
        let w = restore_next(s, RestoreEvent::EntryRead(Ok(entries[k - 1]))).0;
        restore_next(w, RestoreEvent::EntryWritten(Ok(())))
    }
}

/// Every entry of the archive is extracted, once each and in order: once an
/// archive of `count` entries was read, after `k < count` entries were
/// extracted with success the restore asks for entry `k`, and only after
/// all `count` entries does it tell the interface that the import is
/// complete.
pub proof fn lemma_restore_extracts_every_entry(
    count: u64,
    exists: bool,
    entries: Seq<ArchiveEntry>,
    k: nat,
)
    requires
        k <= count,
        k <= entries.len(),
        forall|j: int| 0 <= j < k ==> (#[trigger] entries[j]).enclosed_name is Some,
    ensures
        k < count ==> extraction_rounds(count, exists, entries, k) == (
            RestoreStage::AwaitEntry { index: k as u64, count },
            RestoreCommand::ReadEntry { index: k as u64 },
        ),
        k == count ==> extraction_rounds(count, exists, entries, k) == (
            RestoreStage::AwaitEmit,
            RestoreCommand::Emit { event: "import_complete"@, payload: "Import Complete"@ },
        ),
    decreases k,
{
    if k > 0 {
        lemma_restore_extracts_every_entry(count, exists, entries, (k - 1) as nat);
        let s = extraction_rounds(count, exists, entries, (k - 1) as nat).0;
        assert(entries[k - 1].enclosed_name is Some);
        lemma_restore_extraction_steps(s, RestoreEvent::EntryRead(Ok(entries[k - 1])));
        let w = restore_next(s, RestoreEvent::EntryRead(Ok(entries[k - 1]))).0;
        lemma_restore_extraction_steps(w, RestoreEvent::EntryWritten(Ok(())));
    }
}

/// A restore begins by signing out, resolving the app-data directory,
/// asking for the archive, opening it and reading it, in this order, before
/// anything is deleted; cancelling the dialog ends it without change; and
/// once the interface was told that the import is complete, the
/// application restarts.
pub proof fn lemma_restore_success_start()
    ensures
        ({
            let s1 = restore_next(RestoreStage::AwaitLogout, RestoreEvent::LoggedOut(Ok(())));
            let s2 = restore_next(s1.0, RestoreEvent::DataDirResolved(Ok(())));
            let s3 = restore_next(s2.0, RestoreEvent::Picked(true));
            let s4 = restore_next(s3.0, RestoreEvent::Opened(Ok(())));
            &&& s1.1 == RestoreCommand::ResolveDataDir
            &&& s2.1 == (RestoreCommand::PickArchive {
                title: "Restore backup"@,
                filter_name: "App Archive"@,
                extension: "ccar"@,
            })
            &&& s3.1 == RestoreCommand::OpenArchive
            &&& s4 == (RestoreStage::AwaitArchive, RestoreCommand::ReadArchive)
            &&& restore_next(s2.0, RestoreEvent::Picked(false)) == (
                RestoreStage::Finished,
                RestoreCommand::Complete,
            )
        }),
        restore_next(RestoreStage::AwaitEmit, RestoreEvent::Emitted(Ok(()))) == (
            RestoreStage::Finished,
            RestoreCommand::Restart,
        ),
{
}

} // verus!
