//! The whole synchronisation with the cloud: recipes, then tags, then
//! schedules, then the time of the synchronisation is recorded.
//!
//! The caller reads and writes the local database and talks to the API; the
//! functions here choose what to do next.

use vstd::prelude::*;

verus! {

// ---------------------------------------------------------------------------
// The whole synchronisation
// ---------------------------------------------------------------------------

/// Where a full synchronisation stands.
#[derive(Clone, Copy, PartialEq, Eq, Structural, Debug)]
pub enum SyncStage {
    AwaitUsername,
    AwaitRecipes,
    AwaitTags,
    AwaitSchedules,
    AwaitStamp,
    Finished,
}

/// A full synchronisation in progress.
pub struct SyncRun {
    pub stage: SyncStage,
    /// The signed-in account, once known.
    pub username: String,
}

/// What the caller reports back to a full synchronisation.
pub enum SyncEvent {
    /// The signed-in account, or why there is none.
    Username(Result<String, String>),
    /// The outcome of synchronising the recipes.
    RecipesSynced(Result<(), String>),
    /// The outcome of synchronising the tags.
    TagsSynced(Result<(), String>),
    /// The outcome of synchronising the schedules.
    SchedulesSynced(Result<(), String>),
    /// The outcome of recording the time of this synchronisation.
    Stamped(Result<(), String>),
}

/// What a full synchronisation asks the caller to do next.
pub enum SyncAction {
    /// Find the signed-in account.
    GetUsername,
    SyncRecipes,
    SyncTags,
    SyncSchedules,
    /// Record, for this account, that it has just been synchronised.
    Stamp { username: String },
    /// The synchronisation is over and succeeded (or had nothing to do).
    Complete,
    /// The synchronisation failed with `message`.
    Fail { message: String },
    /// The event does not belong to this stage; nothing to do.
    Ignore,
}

/// The mathematical form of [`SyncAction`].
pub enum SyncCommand {
    GetUsername,
    SyncRecipes,
    SyncTags,
    SyncSchedules,
    Stamp { username: Seq<char> },
    Complete,
    Fail { message: Seq<char> },
    Ignore,
}

impl View for SyncAction {
    type V = SyncCommand;

    open spec fn view(&self) -> SyncCommand {
        match self {
            SyncAction::GetUsername => SyncCommand::GetUsername,
            SyncAction::SyncRecipes => SyncCommand::SyncRecipes,
            SyncAction::SyncTags => SyncCommand::SyncTags,
            SyncAction::SyncSchedules => SyncCommand::SyncSchedules,
            SyncAction::Stamp { username } => SyncCommand::Stamp { username: username@ },
            SyncAction::Complete => SyncCommand::Complete,
            SyncAction::Fail { message } => SyncCommand::Fail { message: message@ },
            SyncAction::Ignore => SyncCommand::Ignore,
        }
    }
}

/// The full synchronisation, step by step: with nobody signed in it ends at
/// once and succeeds; otherwise it synchronises recipes, then tags, then
/// schedules, then records the time, and stops at the first failure with
/// that failure's message.
pub open spec fn sync_next(stage: SyncStage, username: Seq<char>, event: SyncEvent) -> (
    SyncStage,
    Seq<char>,
    SyncCommand,
) {
    match (stage, event) {
        (SyncStage::AwaitUsername, SyncEvent::Username(Err(_))) => (
            SyncStage::Finished,
            username,
            SyncCommand::Complete,
        ),
        (SyncStage::AwaitUsername, SyncEvent::Username(Ok(name))) => (
            SyncStage::AwaitRecipes,
            name@,
            SyncCommand::SyncRecipes,
        ),
        (SyncStage::AwaitRecipes, SyncEvent::RecipesSynced(Ok(()))) => (
            SyncStage::AwaitTags,
            username,
            SyncCommand::SyncTags,
        ),
        (SyncStage::AwaitTags, SyncEvent::TagsSynced(Ok(()))) => (
            SyncStage::AwaitSchedules,
            username,
            SyncCommand::SyncSchedules,
        ),
        (SyncStage::AwaitSchedules, SyncEvent::SchedulesSynced(Ok(()))) => (
            SyncStage::AwaitStamp,
            username,
            SyncCommand::Stamp { username },
        ),
        (SyncStage::AwaitStamp, SyncEvent::Stamped(Ok(()))) => (
            SyncStage::Finished,
            username,
            SyncCommand::Complete,
        ),
        (SyncStage::AwaitRecipes, SyncEvent::RecipesSynced(Err(e)))
        | (SyncStage::AwaitTags, SyncEvent::TagsSynced(Err(e)))
        | (SyncStage::AwaitSchedules, SyncEvent::SchedulesSynced(Err(e)))
        | (SyncStage::AwaitStamp, SyncEvent::Stamped(Err(e))) => (
            SyncStage::Finished,
            username,
            SyncCommand::Fail { message: e@ },
        ),
        _ => (stage, username, SyncCommand::Ignore),
    }
}

/// Starts a full synchronisation: its first action is to find the account.
pub fn sync_start() -> (r: (SyncRun, SyncAction))
    ensures
        r.0.stage == SyncStage::AwaitUsername,
        r.1@ == SyncCommand::GetUsername,
{
    (SyncRun { stage: SyncStage::AwaitUsername, username: String::new() }, SyncAction::GetUsername)
}

fn sync_failure(sync: SyncRun, message: String) -> (r: (SyncRun, SyncAction))
    ensures
        (r.0.stage, r.0.username@, r.1@) == (
            SyncStage::Finished,
            sync.username@,
            SyncCommand::Fail { message: message@ },
        ),
{
    (SyncRun { stage: SyncStage::Finished, ..sync }, SyncAction::Fail { message })
}

/// Advances a full synchronisation by one event.
pub fn sync_step(sync: SyncRun, event: SyncEvent) -> (r: (SyncRun, SyncAction))
    ensures
        (r.0.stage, r.0.username@, r.1@) == sync_next(sync.stage, sync.username@, event),
{
    match sync.stage {
        SyncStage::AwaitUsername => match event {
            SyncEvent::Username(Err(_)) => (
                SyncRun { stage: SyncStage::Finished, ..sync },
                SyncAction::Complete,
            ),
            SyncEvent::Username(Ok(name)) => (
                SyncRun { stage: SyncStage::AwaitRecipes, username: name },
                SyncAction::SyncRecipes,
            ),
            _ => (sync, SyncAction::Ignore),
        },
        SyncStage::AwaitRecipes => match event {
            SyncEvent::RecipesSynced(Ok(())) => (
                SyncRun { stage: SyncStage::AwaitTags, ..sync },
                SyncAction::SyncTags,
            ),
            SyncEvent::RecipesSynced(Err(e)) => sync_failure(sync, e),
            _ => (sync, SyncAction::Ignore),
        },
        SyncStage::AwaitTags => match event {
            SyncEvent::TagsSynced(Ok(())) => (
                SyncRun { stage: SyncStage::AwaitSchedules, ..sync },
                SyncAction::SyncSchedules,
            ),
            SyncEvent::TagsSynced(Err(e)) => sync_failure(sync, e),
            _ => (sync, SyncAction::Ignore),
        },
        SyncStage::AwaitSchedules => match event {
            SyncEvent::SchedulesSynced(Ok(())) => {
                let action = SyncAction::Stamp { username: sync.username.clone() };
                (SyncRun { stage: SyncStage::AwaitStamp, ..sync }, action)
            },
            SyncEvent::SchedulesSynced(Err(e)) => sync_failure(sync, e),
            _ => (sync, SyncAction::Ignore),
        },
        SyncStage::AwaitStamp => match event {
            SyncEvent::Stamped(Ok(())) => (
                SyncRun { stage: SyncStage::Finished, ..sync },
                SyncAction::Complete,
            ),
            SyncEvent::Stamped(Err(e)) => sync_failure(sync, e),
            _ => (sync, SyncAction::Ignore),
        },
        SyncStage::Finished => (sync, SyncAction::Ignore),
    }
}

/// How far a full synchronisation is from its end.
pub open spec fn sync_rank(stage: SyncStage) -> nat {
    match stage {
        SyncStage::AwaitUsername => 5,
        SyncStage::AwaitRecipes => 4,
        SyncStage::AwaitTags => 3,
        SyncStage::AwaitSchedules => 2,
        SyncStage::AwaitStamp => 1,
        SyncStage::Finished => 0,
    }
}

/// A full synchronisation ends: each event is either ignored, leaving it as
/// it was, or moves it strictly closer to its end.
pub proof fn lemma_sync_progress(stage: SyncStage, username: Seq<char>, event: SyncEvent)
    ensures
        sync_next(stage, username, event).2 is Ignore ==> sync_next(stage, username, event).0
            == stage && sync_next(stage, username, event).1 == username,
        !(sync_next(stage, username, event).2 is Ignore) ==> sync_rank(
            sync_next(stage, username, event).0,
        ) < sync_rank(stage),
{
}

/// The time of a synchronisation is recorded only once recipes, tags and
/// schedules all succeeded (the schedules being the last), and for the
/// account that was found at the start; with nobody signed in nothing is
/// synchronised.
pub proof fn lemma_sync_stamps_after_success(stage: SyncStage, username: Seq<char>, event: SyncEvent)
    ensures
        sync_next(stage, username, event).2 is Stamp ==> (event matches SyncEvent::SchedulesSynced(
            Ok(_),
        ) && stage == SyncStage::AwaitSchedules && sync_next(stage, username, event).2 == (
        SyncCommand::Stamp { username })),
        sync_next(stage, username, event).2 is SyncRecipes ==> (event matches SyncEvent::Username(
            Ok(_),
        ) && stage == SyncStage::AwaitUsername),
        sync_next(stage, username, event).2 is SyncTags ==> (event matches SyncEvent::RecipesSynced(
            Ok(_),
        ) && stage == SyncStage::AwaitRecipes),
        sync_next(stage, username, event).2 is SyncSchedules ==> (event matches SyncEvent::TagsSynced(
            Ok(_),
        ) && stage == SyncStage::AwaitTags),
{
}

/// A full synchronisation for a signed-in account in which every part
/// succeeds does, in this order, the recipes, the tags, the schedules and
/// the recording of the time for that account, and then completes; a
/// failure of any part ends it at once with that failure's message; with
/// nobody signed in it completes at once.
pub proof fn lemma_sync_success_run(username: Seq<char>, name: String, e: String)
    ensures
        ({
            let s1 = sync_next(SyncStage::AwaitUsername, username, SyncEvent::Username(Ok(name)));
            let s2 = sync_next(s1.0, s1.1, SyncEvent::RecipesSynced(Ok(())));
            let s3 = sync_next(s2.0, s2.1, SyncEvent::TagsSynced(Ok(())));
            let s4 = sync_next(s3.0, s3.1, SyncEvent::SchedulesSynced(Ok(())));
            let s5 = sync_next(s4.0, s4.1, SyncEvent::Stamped(Ok(())));
            &&& s1 == (SyncStage::AwaitRecipes, name@, SyncCommand::SyncRecipes)
            &&& s2 == (SyncStage::AwaitTags, name@, SyncCommand::SyncTags)
            &&& s3 == (SyncStage::AwaitSchedules, name@, SyncCommand::SyncSchedules)
            &&& s4 == (SyncStage::AwaitStamp, name@, SyncCommand::Stamp { username: name@ })
            &&& s5 == (SyncStage::Finished, name@, SyncCommand::Complete)
        }),
        sync_next(SyncStage::AwaitUsername, username, SyncEvent::Username(Err(e))) == (
            SyncStage::Finished,
            username,
            SyncCommand::Complete,
        ),
        sync_next(SyncStage::AwaitRecipes, username, SyncEvent::RecipesSynced(Err(e))) == (
            SyncStage::Finished,
            username,
            SyncCommand::Fail { message: e@ },
        ),
        sync_next(SyncStage::AwaitTags, username, SyncEvent::TagsSynced(Err(e))) == (
            SyncStage::Finished,
            username,
            SyncCommand::Fail { message: e@ },
        ),
        sync_next(SyncStage::AwaitSchedules, username, SyncEvent::SchedulesSynced(Err(e))) == (
            SyncStage::Finished,
            username,
            SyncCommand::Fail { message: e@ },
        ),
        sync_next(SyncStage::AwaitStamp, username, SyncEvent::Stamped(Err(e))) == (
            SyncStage::Finished,
            username,
            SyncCommand::Fail { message: e@ },
        ),
{
}

/// What the command that synchronises on demand answers: any failure is
/// reported as "Error syncing data".
pub fn sync_data_outcome(result: Result<(), String>) -> (r: Result<(), String>)
    ensures
        result is Ok ==> r is Ok,
        result is Err ==> (r matches Err(m) && m@ == "Error syncing data"@),
{
    match result {
        Ok(()) => Ok(()),
        Err(_) => Err(String::from_str("Error syncing data")),
    }
}

} // verus!
