//! Synchronisation of the local recipes with the cloud: which recipes to
//! download, delete, upload and update, and in which order.

use vstd::prelude::*;
use crate::lists::{
    as_ints, contains_string, lemma_matching_indices, lemma_matching_indices_len, matching_indices, opt_view, some_views, somes,
    views,
};

verus! {

// ---------------------------------------------------------------------------
// Recipes
// ---------------------------------------------------------------------------

/// What the synchronisation reads of a local recipe: its local id, if it has
/// been stored, and the id of the cloud recipe it was made from, if any.
pub struct RecipeRef {
    pub id: Option<i64>,
    pub cloud_parent_id: Option<String>,
}

/// The cloud parents of `recipes`, in order.
pub open spec fn cloud_parents(recipes: Seq<RecipeRef>) -> Seq<Option<String>> {
    recipes.map_values(|r: RecipeRef| r.cloud_parent_id)
}

/// The ids of the cloud recipes that local recipes were made from, in the
/// order of the local recipes: the cloud recipes not to download again.
pub fn cloud_parent_ids(recipes: &[RecipeRef]) -> (r: Vec<String>)
    ensures
        views(r@) == some_views(cloud_parents(recipes@)),
{
    let ghost mapped = cloud_parents(recipes@).map_values(|o: Option<String>| opt_view(o));
    let mut r: Vec<String> = Vec::new();
    let mut i: usize = 0;
    while i < recipes.len()
        invariant
            i <= recipes.len(),
            mapped == cloud_parents(recipes@).map_values(|o: Option<String>| opt_view(o)),
            views(r@) == somes(mapped.take(i as int)),
        decreases recipes.len() - i,
    {
        assert(mapped.take(i as int + 1).drop_last() == mapped.take(i as int));
        match &recipes[i].cloud_parent_id {
            Some(s) => {
                r.push(s.clone());
            },
            None => {},
        }
        assert(views(r@) =~= somes(mapped.take(i as int + 1)));
        i = i + 1;
    }
    assert(mapped.take(recipes.len() as int) == mapped);
    r
}

/// A stored local recipe whose cloud parent no longer exists on the server.
pub open spec fn has_dead_cloud_parent(r: RecipeRef, missing: Seq<Seq<char>>) -> bool {
    &&& r.id is Some
    &&& r.cloud_parent_id matches Some(c) && missing.contains(c@)
}

/// A stored local recipe that was never linked to a cloud recipe.
pub open spec fn is_unlinked(r: RecipeRef) -> bool {
    r.cloud_parent_id is None && r.id is Some
}

/// The positions of the stored recipes whose cloud parent is among `missing`.
pub open spec fn dead_parent_choice(recipes: Seq<RecipeRef>, missing: Seq<Seq<char>>) -> Seq<int> {
    matching_indices(recipes.len(), |i: int| has_dead_cloud_parent(recipes[i], missing))
}

/// The positions of the stored recipes that were never linked.
pub open spec fn unlinked_choice(recipes: Seq<RecipeRef>) -> Seq<int> {
    matching_indices(recipes.len(), |i: int| is_unlinked(recipes[i]))
}

/// The positions of the stored local recipes whose cloud parent is among
/// `missing`: the recipes to delete locally.
pub fn recipes_with_dead_cloud_parent(recipes: &[RecipeRef], missing: &[String]) -> (r: Vec<usize>)
    ensures
        as_ints(r@) == dead_parent_choice(recipes@, views(missing@)),
{
    let ghost p = |i: int| has_dead_cloud_parent(recipes@[i], views(missing@));
    let mut r: Vec<usize> = Vec::new();
    let mut i: usize = 0;
    while i < recipes.len()
        invariant
            i <= recipes.len(),
            p == (|i: int| has_dead_cloud_parent(recipes@[i], views(missing@))),
            as_ints(r@) == matching_indices(i as nat, p),
        decreases recipes.len() - i,
    {
        let recipe = &recipes[i];
        if recipe.id.is_some() {
            if let Some(c) = &recipe.cloud_parent_id {
                if contains_string(missing, c) {
                    r.push(i);
                }
            }
        }
        assert(as_ints(r@) =~= matching_indices(i as nat + 1, p));
        i = i + 1;
    }
    r
}

/// The positions of the stored local recipes that were never linked to a
/// cloud recipe: the recipes to upload.
pub fn recipes_without_cloud_parent(recipes: &[RecipeRef]) -> (r: Vec<usize>)
    ensures
        as_ints(r@) == unlinked_choice(recipes@),
{
    let ghost p = |i: int| is_unlinked(recipes@[i]);
    let mut r: Vec<usize> = Vec::new();
    let mut i: usize = 0;
    while i < recipes.len()
        invariant
            i <= recipes.len(),
            p == (|i: int| is_unlinked(recipes@[i])),
            as_ints(r@) == matching_indices(i as nat, p),
        decreases recipes.len() - i,
    {
        if recipes[i].cloud_parent_id.is_none() && recipes[i].id.is_some() {
            r.push(i);
        }
        assert(as_ints(r@) =~= matching_indices(i as nat + 1, p));
        i = i + 1;
    }
    r
}

/// The positions of the stored recipes (those with a local id).
pub open spec fn stored_choice(recipes: Seq<RecipeRef>) -> Seq<int> {
    matching_indices(recipes.len(), |i: int| recipes[i].id is Some)
}

/// The positions of the stored recipes among `recipes` (those with a local
/// id): the changed recipes whose new version is sent to the server.
pub fn stored_recipes(recipes: &[RecipeRef]) -> (r: Vec<usize>)
    ensures
        as_ints(r@) == stored_choice(recipes@),
{
    let ghost p = |i: int| recipes@[i].id is Some;
    let mut r: Vec<usize> = Vec::new();
    let mut i: usize = 0;
    while i < recipes.len()
        invariant
            i <= recipes.len(),
            p == (|i: int| recipes@[i].id is Some),
            as_ints(r@) == matching_indices(i as nat, p),
        decreases recipes.len() - i,
    {
        if recipes[i].id.is_some() {
            r.push(i);
        }
        assert(as_ints(r@) =~= matching_indices(i as nat + 1, p));
        i = i + 1;
    }
    r
}

/// No recipe is both deleted for a dead cloud parent and uploaded as
/// unlinked, and every recipe chosen by either list is a stored one.
pub proof fn lemma_recipe_choices_disjoint(recipes: Seq<RecipeRef>, missing: Seq<Seq<char>>)
    ensures
        forall|k1: int, k2: int|
            0 <= k1 < dead_parent_choice(recipes, missing).len() && 0 <= k2 < unlinked_choice(
                recipes,
            ).len() ==> #[trigger] dead_parent_choice(recipes, missing)[k1]
                != #[trigger] unlinked_choice(recipes)[k2],
        forall|k: int|
            0 <= k < dead_parent_choice(recipes, missing).len() ==> recipes[#[trigger] dead_parent_choice(
                recipes,
                missing,
            )[k]].id is Some,
        forall|k: int|
            0 <= k < unlinked_choice(recipes).len() ==> recipes[#[trigger] unlinked_choice(
                recipes,
            )[k]].id is Some,
{
    lemma_matching_indices(recipes.len(), |i: int| has_dead_cloud_parent(recipes[i], missing));
    lemma_matching_indices(recipes.len(), |i: int| is_unlinked(recipes[i]));
}

/// The id of the local copy of a cloud recipe, from the looked-up row (no
/// row, or a row without an id, means no local copy).
pub fn local_id_from_row(row: Option<Option<i64>>) -> (r: Option<i64>)
    ensures
        r == (match row {
            Some(Some(id)) => Some(id),
            _ => None,
        }),
{
    match row {
        Some(Some(id)) => Some(id),
        _ => None,
    }
}

/// What chrono's `NaiveDateTime::parse_from_str` gives for the text `s` in
/// the format `fmt`, counted in nanoseconds after 1970-01-01 00:00:00;
/// `None` when the text does not parse or the instant does not fit in an
/// `i64` count of nanoseconds.
pub uninterp spec fn parsed_datetime_nanos(s: Seq<char>, fmt: Seq<char>) -> Option<i64>;

/// Calls chrono's `NaiveDateTime::parse_from_str(s, fmt)` and counts the
/// result in nanoseconds after the epoch. Its contract claims only that the
/// result is the one named by `parsed_datetime_nanos` for these arguments.
#[verifier::external_body]
fn parse_datetime_nanos(s: &str, fmt: &str) -> (r: Option<i64>)
    ensures
        r == parsed_datetime_nanos(s@, fmt@),
{
    match chrono::NaiveDateTime::parse_from_str(s, fmt) {
        Ok(t) => t.and_utc().timestamp_nanos_opt(),
        Err(_) => None,
    }
}

/// The start of time for a synchronisation that never ran: the parse of
/// "1970-01-01 00:00:00", or chrono's default date and time (the epoch, 0)
/// if that does not parse.
pub open spec fn never_synced() -> i64 {
    match parsed_datetime_nanos("1970-01-01 00:00:00"@, "%Y-%m-%d %H:%M:%S"@) {
        Some(t) => t,
        None => 0,
    }
}

/// Since when local changes are sent to the server, given the recorded time
/// of the last synchronisation, if any.
pub open spec fn synced_since(record: Option<Option<i64>>) -> i64 {
    match record {
        Some(Some(t)) => t,
        _ => never_synced(),
    }
}

/// Since when local changes are sent to the server: the recorded time of
/// the last synchronisation, or the start of time when none is recorded.
/// Times are nanoseconds after 1970-01-01 00:00:00.
pub fn last_synced_since(record: Option<Option<i64>>) -> (r: i64)
    ensures
        r == synced_since(record),
{
    match record {
        Some(Some(t)) => t,
        _ => match parse_datetime_nanos("1970-01-01 00:00:00", "%Y-%m-%d %H:%M:%S") {
            Some(t) => t,
            None => 0,
        },
    }
}

// ---------------------------------------------------------------------------
// Updating one local recipe from its downloaded version
// ---------------------------------------------------------------------------

/// Where the update of a local recipe from the server stands.
#[derive(Clone, Copy, PartialEq, Eq, Structural, Debug)]
pub enum UpdateLocalStage {
    AwaitUsername,
    AwaitLocalId,
    AwaitImage { local_id: i64 },
    AwaitUpdate { local_id: i64 },
    Finished,
}

/// What the caller reports back to the update of a local recipe.
pub enum UpdateLocalEvent {
    /// The signed-in account, or why there is none.
    Username(Result<String, String>),
    /// The id of the local copy of the downloaded recipe, if there is one.
    LocalId(Result<Option<i64>, String>),
    /// The local path of the downloaded image, if any.
    ImageConverted(Result<Option<String>, String>),
    /// The outcome of replacing the local copy.
    Updated(Result<(), String>),
}

/// What the update of a local recipe asks the caller to do next.
pub enum UpdateLocalAction {
    GetUsername,
    /// Look up the local copy of the downloaded recipe for this account.
    FindLocalId { username: String },
    /// Store the downloaded image locally.
    ConvertImage,
    /// Replace the local recipe `local_id` by the downloaded one, with this
    /// image path.
    Update { local_id: i64, image_path: Option<String> },
    /// Done: the local recipe that was updated, if there was one.
    Finish { updated: Option<i64> },
    Fail { message: String },
    Ignore,
}

/// The mathematical form of [`UpdateLocalAction`].
pub enum UpdateLocalCommand {
    GetUsername,
    FindLocalId { username: Seq<char> },
    ConvertImage,
    Update { local_id: i64, image_path: Option<Seq<char>> },
    Finish { updated: Option<i64> },
    Fail { message: Seq<char> },
    Ignore,
}

impl View for UpdateLocalAction {
    type V = UpdateLocalCommand;

    open spec fn view(&self) -> UpdateLocalCommand {
        match self {
            UpdateLocalAction::GetUsername => UpdateLocalCommand::GetUsername,
            UpdateLocalAction::FindLocalId { username } => UpdateLocalCommand::FindLocalId {
                username: username@,
            },
            UpdateLocalAction::ConvertImage => UpdateLocalCommand::ConvertImage,
            UpdateLocalAction::Update { local_id, image_path } => UpdateLocalCommand::Update {
                local_id: *local_id,
                image_path: opt_view(*image_path),
            },
            UpdateLocalAction::Finish { updated } => UpdateLocalCommand::Finish {
                updated: *updated,
            },
            UpdateLocalAction::Fail { message } => UpdateLocalCommand::Fail { message: message@ },
            UpdateLocalAction::Ignore => UpdateLocalCommand::Ignore,
        }
    }
}

/// The update of a local recipe, step by step: find the account, find the
/// local copy (none: finish without updating), store the image, replace the
/// local copy and finish with its id. Any error ends it with its message.
pub open spec fn update_local_next(stage: UpdateLocalStage, event: UpdateLocalEvent) -> (
    UpdateLocalStage,
    UpdateLocalCommand,
) {
    match (stage, event) {
        (UpdateLocalStage::AwaitUsername, UpdateLocalEvent::Username(Ok(name))) => (
            UpdateLocalStage::AwaitLocalId,
            UpdateLocalCommand::FindLocalId { username: name@ },
        ),
        (UpdateLocalStage::AwaitLocalId, UpdateLocalEvent::LocalId(Ok(None))) => (
            UpdateLocalStage::Finished,
            UpdateLocalCommand::Finish { updated: None },
        ),
        (UpdateLocalStage::AwaitLocalId, UpdateLocalEvent::LocalId(Ok(Some(id)))) => (
            UpdateLocalStage::AwaitImage { local_id: id },
            UpdateLocalCommand::ConvertImage,
        ),
        (UpdateLocalStage::AwaitImage { local_id }, UpdateLocalEvent::ImageConverted(Ok(path))) => (
            UpdateLocalStage::AwaitUpdate { local_id },
            UpdateLocalCommand::Update { local_id, image_path: opt_view(path) },
        ),
        (UpdateLocalStage::AwaitUpdate { local_id }, UpdateLocalEvent::Updated(Ok(()))) => (
            UpdateLocalStage::Finished,
            UpdateLocalCommand::Finish { updated: Some(local_id) },
        ),
        (UpdateLocalStage::AwaitUsername, UpdateLocalEvent::Username(Err(e)))
        | (UpdateLocalStage::AwaitLocalId, UpdateLocalEvent::LocalId(Err(e)))
        | (UpdateLocalStage::AwaitImage { .. }, UpdateLocalEvent::ImageConverted(Err(e)))
        | (UpdateLocalStage::AwaitUpdate { .. }, UpdateLocalEvent::Updated(Err(e))) => (
            UpdateLocalStage::Finished,
            UpdateLocalCommand::Fail { message: e@ },
        ),
        _ => (stage, UpdateLocalCommand::Ignore),
    }
}

/// Starts the update of a local recipe from its downloaded version.
pub fn update_local_start() -> (r: (UpdateLocalStage, UpdateLocalAction))
    ensures
        r.0 == UpdateLocalStage::AwaitUsername,
        r.1@ == UpdateLocalCommand::GetUsername,
{
    (UpdateLocalStage::AwaitUsername, UpdateLocalAction::GetUsername)
}

/// Advances the update of a local recipe by one event.
pub fn update_local_step(stage: UpdateLocalStage, event: UpdateLocalEvent) -> (r: (
    UpdateLocalStage,
    UpdateLocalAction,
))
    ensures
        (r.0, r.1@) == update_local_next(stage, event),
{
    match (stage, event) {
        (UpdateLocalStage::AwaitUsername, UpdateLocalEvent::Username(Ok(name))) => (
            UpdateLocalStage::AwaitLocalId,
            UpdateLocalAction::FindLocalId { username: name },
        ),
        (UpdateLocalStage::AwaitLocalId, UpdateLocalEvent::LocalId(Ok(None))) => (
            UpdateLocalStage::Finished,
            UpdateLocalAction::Finish { updated: None },
        ),
        (UpdateLocalStage::AwaitLocalId, UpdateLocalEvent::LocalId(Ok(Some(id)))) => (
            UpdateLocalStage::AwaitImage { local_id: id },
            UpdateLocalAction::ConvertImage,
        ),
        (UpdateLocalStage::AwaitImage { local_id }, UpdateLocalEvent::ImageConverted(Ok(path))) => (
            UpdateLocalStage::AwaitUpdate { local_id },
            UpdateLocalAction::Update { local_id, image_path: path },
        ),
        (UpdateLocalStage::AwaitUpdate { local_id }, UpdateLocalEvent::Updated(Ok(()))) => (
            UpdateLocalStage::Finished,
            UpdateLocalAction::Finish { updated: Some(local_id) },
        ),
        (UpdateLocalStage::AwaitUsername, UpdateLocalEvent::Username(Err(e)))
        | (UpdateLocalStage::AwaitLocalId, UpdateLocalEvent::LocalId(Err(e)))
        | (UpdateLocalStage::AwaitImage { .. }, UpdateLocalEvent::ImageConverted(Err(e)))
        | (UpdateLocalStage::AwaitUpdate { .. }, UpdateLocalEvent::Updated(Err(e))) => (
            UpdateLocalStage::Finished,
            UpdateLocalAction::Fail { message: e },
        ),
        (stage, _) => (stage, UpdateLocalAction::Ignore),
    }
}

/// A local recipe is replaced only when its local copy was found, and then
/// it is the copy that was found that is replaced.
pub proof fn lemma_update_local_targets_found_copy(stage: UpdateLocalStage, event: UpdateLocalEvent)
    ensures
        update_local_next(stage, event).1 matches UpdateLocalCommand::Finish { updated: Some(id) }
            ==> stage == (UpdateLocalStage::AwaitUpdate { local_id: id }),
        update_local_next(stage, event).1 matches UpdateLocalCommand::Update { local_id: id, .. }
            ==> stage == (UpdateLocalStage::AwaitImage { local_id: id }),
        update_local_next(stage, event).0 matches UpdateLocalStage::AwaitImage { local_id: id } ==> (
        stage != update_local_next(stage, event).0 ==> event == UpdateLocalEvent::LocalId(
            Ok(Some(id)),
        )),
{
}

// ---------------------------------------------------------------------------
// The synchronisation of the recipes
// ---------------------------------------------------------------------------

/// Where the synchronisation of the recipes stands. `done` counts the
/// items of the current list already handled, `count` the items of a list
/// that only the caller holds.
#[derive(Clone, Copy, PartialEq, Eq, Structural, Debug)]
pub enum RecipeSyncStage {
    AwaitUsername,
    AwaitLocalRecipes,
    AwaitNewRecipes,
    AwaitImage { done: u64, count: u64 },
    AwaitInsert { done: u64, count: u64 },
    AwaitMissing,
    AwaitDelete { done: u64 },
    AwaitUpload { done: u64 },
    AwaitLastSynced,
    AwaitUpdated,
    AwaitRemoteUpdate { done: u64 },
    AwaitChanged,
    AwaitLocalUpdate { done: u64, count: u64 },
    Finished,
}

/// The synchronisation of the recipes in progress.
pub struct RecipeSync {
    pub stage: RecipeSyncStage,
    pub username: String,
    /// The local recipes, as read before downloading anything.
    pub local: Vec<RecipeRef>,
    /// The cloud parents of the local recipes.
    pub cloud_ids: Vec<String>,
    /// The cloud parents that the server no longer has.
    pub missing: Vec<String>,
    /// The positions of the local recipes to delete.
    pub dead: Vec<usize>,
    /// The positions of the local recipes to upload.
    pub unlinked: Vec<usize>,
    /// Since when local changes are sent, in nanoseconds after the epoch.
    pub since: i64,
    /// The local recipes changed since then.
    pub changed: Vec<RecipeRef>,
    /// The positions of the changed recipes to send.
    pub to_send: Vec<usize>,
}

/// The mathematical form of [`RecipeSync`].
pub struct RecipeSyncView {
    pub stage: RecipeSyncStage,
    pub username: Seq<char>,
    pub local: Seq<RecipeRef>,
    pub cloud_ids: Seq<Seq<char>>,
    pub missing: Seq<Seq<char>>,
    pub dead: Seq<int>,
    pub unlinked: Seq<int>,
    pub since: i64,
    pub changed: Seq<RecipeRef>,
    pub to_send: Seq<int>,
}

impl View for RecipeSync {
    type V = RecipeSyncView;

    open spec fn view(&self) -> RecipeSyncView {
        RecipeSyncView {
            stage: self.stage,
            username: self.username@,
            local: self.local@,
            cloud_ids: views(self.cloud_ids@),
            missing: views(self.missing@),
            dead: as_ints(self.dead@),
            unlinked: as_ints(self.unlinked@),
            since: self.since,
            changed: self.changed@,
            to_send: as_ints(self.to_send@),
        }
    }
}

/// What the caller reports back to the synchronisation of the recipes.
pub enum RecipeSyncEvent {
    Username(Result<String, String>),
    /// The local recipes of the account.
    LocalRecipes(Result<Vec<RecipeRef>, String>),
    /// How many recipes were downloaded that exist only on the server.
    NewRecipes(Result<u64, String>),
    /// The local path of the image of the current downloaded recipe.
    ImageConverted(Result<Option<String>, String>),
    Inserted(Result<(), String>),
    /// Which of the cloud parents the server no longer has.
    Missing(Result<Vec<String>, String>),
    Deleted(Result<(), String>),
    Uploaded(Result<(), String>),
    /// The recorded time of the last synchronisation, if any.
    LastSynced(Result<Option<Option<i64>>, String>),
    /// The local recipes changed since then.
    Changed(Result<Vec<RecipeRef>, String>),
    RemoteUpdated(Result<(), String>),
    /// How many recipes were downloaded that changed on the server since then.
    ChangedOnServer(Result<u64, String>),
    /// The outcome of updating the local copy of the current one of them.
    LocalUpdated(Result<(), String>),
}

/// What the synchronisation of the recipes asks the caller to do next.
pub enum RecipeSyncAction {
    GetUsername,
    LoadLocalRecipes { username: String },
    /// Download the recipes of the server, except those with these ids.
    DownloadNew { excluded: Vec<String> },
    /// Store locally the image of the `index`-th new recipe.
    ConvertImage { index: u64 },
    /// Insert the `index`-th new recipe for `username`, with this image
    /// path, linked to the cloud recipe it came from.
    InsertRecipe { index: u64, image_path: Option<String>, username: String },
    /// Ask the server which of these cloud recipes it no longer has.
    DownloadMissing { ids: Vec<String> },
    /// Delete the local recipe at this position of the local recipes.
    DeleteRecipe { position: usize },
    /// Upload the local recipe at this position of the local recipes.
    UploadRecipe { position: usize },
    LoadLastSynced { username: String },
    /// Read the local recipes of `username` changed after `since`.
    LoadChanged { username: String, since: i64 },
    /// Send the changed recipe at this position of the changed recipes.
    UpdateRemote { position: usize },
    /// Download the recipes changed on the server after `since`.
    DownloadChanged { since: i64 },
    /// Update the local copy of the `index`-th of them.
    UpdateLocal { index: u64 },
    Complete,
    Fail { message: String },
    Ignore,
}

/// The mathematical form of [`RecipeSyncAction`].
pub enum RecipeSyncCommand {
    GetUsername,
    LoadLocalRecipes { username: Seq<char> },
    DownloadNew { excluded: Seq<Seq<char>> },
    ConvertImage { index: u64 },
    InsertRecipe { index: u64, image_path: Option<Seq<char>>, username: Seq<char> },
    DownloadMissing { ids: Seq<Seq<char>> },
    DeleteRecipe { position: int },
    UploadRecipe { position: int },
    LoadLastSynced { username: Seq<char> },
    LoadChanged { username: Seq<char>, since: i64 },
    UpdateRemote { position: int },
    DownloadChanged { since: i64 },
    UpdateLocal { index: u64 },
    Complete,
    Fail { message: Seq<char> },
    Ignore,
}

impl View for RecipeSyncAction {
    type V = RecipeSyncCommand;

    open spec fn view(&self) -> RecipeSyncCommand {
        match self {
            RecipeSyncAction::GetUsername => RecipeSyncCommand::GetUsername,
            RecipeSyncAction::LoadLocalRecipes { username } => RecipeSyncCommand::LoadLocalRecipes {
                username: username@,
            },
            RecipeSyncAction::DownloadNew { excluded } => RecipeSyncCommand::DownloadNew {
                excluded: views(excluded@),
            },
            RecipeSyncAction::ConvertImage { index } => RecipeSyncCommand::ConvertImage {
                index: *index,
            },
            RecipeSyncAction::InsertRecipe { index, image_path, username } =>
                RecipeSyncCommand::InsertRecipe {
                index: *index,
                image_path: opt_view(*image_path),
                username: username@,
            },
            RecipeSyncAction::DownloadMissing { ids } => RecipeSyncCommand::DownloadMissing {
                ids: views(ids@),
            },
            RecipeSyncAction::DeleteRecipe { position } => RecipeSyncCommand::DeleteRecipe {
                position: *position as int,
            },
            RecipeSyncAction::UploadRecipe { position } => RecipeSyncCommand::UploadRecipe {
                position: *position as int,
            },
            RecipeSyncAction::LoadLastSynced { username } => RecipeSyncCommand::LoadLastSynced {
                username: username@,
            },
            RecipeSyncAction::LoadChanged { username, since } => RecipeSyncCommand::LoadChanged {
                username: username@,
                since: *since,
            },
            RecipeSyncAction::UpdateRemote { position } => RecipeSyncCommand::UpdateRemote {
                position: *position as int,
            },
            RecipeSyncAction::DownloadChanged { since } => RecipeSyncCommand::DownloadChanged {
                since: *since,
            },
            RecipeSyncAction::UpdateLocal { index } => RecipeSyncCommand::UpdateLocal {
                index: *index,
            },
            RecipeSyncAction::Complete => RecipeSyncCommand::Complete,
            RecipeSyncAction::Fail { message } => RecipeSyncCommand::Fail { message: message@ },
            RecipeSyncAction::Ignore => RecipeSyncCommand::Ignore,
        }
    }
}

/// Insert the `next`-th new recipe, or, after the last, ask which cloud
/// parents the server lost.
pub open spec fn inserts_after(v: RecipeSyncView, next: int, count: u64) -> (
    RecipeSyncView,
    RecipeSyncCommand,
) {
    if 0 <= next < count {
        (
            RecipeSyncView { stage: RecipeSyncStage::AwaitImage { done: next as u64, count }, ..v },
            RecipeSyncCommand::ConvertImage { index: next as u64 },
        )
    } else {
        (
            RecipeSyncView { stage: RecipeSyncStage::AwaitMissing, ..v },
            RecipeSyncCommand::DownloadMissing { ids: v.cloud_ids },
        )
    }
}

/// Upload the `next`-th unlinked recipe, or, after the last, read the time of
/// the last synchronisation.
pub open spec fn uploads_after(v: RecipeSyncView, next: int) -> (RecipeSyncView, RecipeSyncCommand) {
    if 0 <= next < v.unlinked.len() {
        (
            RecipeSyncView { stage: RecipeSyncStage::AwaitUpload { done: next as u64 }, ..v },
            RecipeSyncCommand::UploadRecipe { position: v.unlinked[next] },
        )
    } else {
        (
            RecipeSyncView { stage: RecipeSyncStage::AwaitLastSynced, ..v },
            RecipeSyncCommand::LoadLastSynced { username: v.username },
        )
    }
}

/// Delete the `next`-th recipe with a dead cloud parent, or, after the last,
/// start uploading.
pub open spec fn deletes_after(v: RecipeSyncView, next: int) -> (RecipeSyncView, RecipeSyncCommand) {
    if 0 <= next < v.dead.len() {
        (
            RecipeSyncView { stage: RecipeSyncStage::AwaitDelete { done: next as u64 }, ..v },
            RecipeSyncCommand::DeleteRecipe { position: v.dead[next] },
        )
    } else {
        uploads_after(v, 0)
    }
}

/// Send the `next`-th changed recipe, or, after the last, download the
/// recipes changed on the server.
pub open spec fn sends_after(v: RecipeSyncView, next: int) -> (RecipeSyncView, RecipeSyncCommand) {
    if 0 <= next < v.to_send.len() {
        (
            RecipeSyncView { stage: RecipeSyncStage::AwaitRemoteUpdate { done: next as u64 }, ..v },
            RecipeSyncCommand::UpdateRemote { position: v.to_send[next] },
        )
    } else {
        (
            RecipeSyncView { stage: RecipeSyncStage::AwaitChanged, ..v },
            RecipeSyncCommand::DownloadChanged { since: v.since },
        )
    }
}

/// Update the local copy of the `next`-th recipe changed on the server, or,
/// after the last, finish.
pub open spec fn local_updates_after(v: RecipeSyncView, next: int, count: u64) -> (
    RecipeSyncView,
    RecipeSyncCommand,
) {
    if 0 <= next < count {
        (
            RecipeSyncView {
                stage: RecipeSyncStage::AwaitLocalUpdate { done: next as u64, count },
                ..v
            },
            RecipeSyncCommand::UpdateLocal { index: next as u64 },
        )
    } else {
        (RecipeSyncView { stage: RecipeSyncStage::Finished, ..v }, RecipeSyncCommand::Complete)
    }
}

/// The synchronisation of the recipes, step by step: find the account; read
/// its local recipes; download the recipes of the server that no local
/// recipe came from and insert each, with its image stored locally; ask the
/// server which cloud parents it lost and delete the stored local recipes
/// made from them; upload the stored recipes that never had a cloud parent;
/// read the time of the last synchronisation (the start of time if none)
/// and send the stored recipes changed since; finally update the local
/// copies of the recipes changed on the server since. Any error ends it with
/// its message.
pub open spec fn recipe_sync_next(v: RecipeSyncView, event: RecipeSyncEvent) -> (
    RecipeSyncView,
    RecipeSyncCommand,
) {
    match (v.stage, event) {
        (RecipeSyncStage::AwaitUsername, RecipeSyncEvent::Username(Ok(name))) => (
            RecipeSyncView { stage: RecipeSyncStage::AwaitLocalRecipes, username: name@, ..v },
            RecipeSyncCommand::LoadLocalRecipes { username: name@ },
        ),
        (RecipeSyncStage::AwaitLocalRecipes, RecipeSyncEvent::LocalRecipes(Ok(recipes))) => {
            let ids = some_views(cloud_parents(recipes@));
            (
                RecipeSyncView {
                    stage: RecipeSyncStage::AwaitNewRecipes,
                    local: recipes@,
                    cloud_ids: ids,
                    ..v
                },
                RecipeSyncCommand::DownloadNew { excluded: ids },
            )
        },
        (RecipeSyncStage::AwaitNewRecipes, RecipeSyncEvent::NewRecipes(Ok(count))) => inserts_after(
            v,
            0,
            count,
        ),
        (RecipeSyncStage::AwaitImage { done, count }, RecipeSyncEvent::ImageConverted(Ok(path))) => (
            RecipeSyncView { stage: RecipeSyncStage::AwaitInsert { done, count }, ..v },
            RecipeSyncCommand::InsertRecipe {
                index: done,
                image_path: opt_view(path),
                username: v.username,
            },
        ),
        (RecipeSyncStage::AwaitInsert { done, count }, RecipeSyncEvent::Inserted(Ok(()))) =>
            inserts_after(v, done + 1, count),
        (RecipeSyncStage::AwaitMissing, RecipeSyncEvent::Missing(Ok(missing))) => deletes_after(
            RecipeSyncView {
                missing: views(missing@),
                dead: dead_parent_choice(v.local, views(missing@)),
                unlinked: unlinked_choice(v.local),
                ..v
            },
            0,
        ),
        (RecipeSyncStage::AwaitDelete { done }, RecipeSyncEvent::Deleted(Ok(()))) => deletes_after(
            v,
            done + 1,
        ),
        (RecipeSyncStage::AwaitUpload { done }, RecipeSyncEvent::Uploaded(Ok(()))) => uploads_after(
            v,
            done + 1,
        ),
        (RecipeSyncStage::AwaitLastSynced, RecipeSyncEvent::LastSynced(Ok(record))) => (
            RecipeSyncView {
                stage: RecipeSyncStage::AwaitUpdated,
                since: synced_since(record),
                ..v
            },
            RecipeSyncCommand::LoadChanged { username: v.username, since: synced_since(record) },
        ),
        (RecipeSyncStage::AwaitUpdated, RecipeSyncEvent::Changed(Ok(changed))) => sends_after(
            RecipeSyncView { changed: changed@, to_send: stored_choice(changed@), ..v },
            0,
        ),
        (RecipeSyncStage::AwaitRemoteUpdate { done }, RecipeSyncEvent::RemoteUpdated(Ok(()))) =>
            sends_after(v, done + 1),
        (RecipeSyncStage::AwaitChanged, RecipeSyncEvent::ChangedOnServer(Ok(count))) =>
            local_updates_after(v, 0, count),
        (
            RecipeSyncStage::AwaitLocalUpdate { done, count },
            RecipeSyncEvent::LocalUpdated(Ok(())),
        ) => local_updates_after(v, done + 1, count),
        (RecipeSyncStage::AwaitUsername, RecipeSyncEvent::Username(Err(e)))
        | (RecipeSyncStage::AwaitLocalRecipes, RecipeSyncEvent::LocalRecipes(Err(e)))
        | (RecipeSyncStage::AwaitNewRecipes, RecipeSyncEvent::NewRecipes(Err(e)))
        | (RecipeSyncStage::AwaitImage { .. }, RecipeSyncEvent::ImageConverted(Err(e)))
        | (RecipeSyncStage::AwaitInsert { .. }, RecipeSyncEvent::Inserted(Err(e)))
        | (RecipeSyncStage::AwaitMissing, RecipeSyncEvent::Missing(Err(e)))
        | (RecipeSyncStage::AwaitDelete { .. }, RecipeSyncEvent::Deleted(Err(e)))
        | (RecipeSyncStage::AwaitUpload { .. }, RecipeSyncEvent::Uploaded(Err(e)))
        | (RecipeSyncStage::AwaitLastSynced, RecipeSyncEvent::LastSynced(Err(e)))
        | (RecipeSyncStage::AwaitUpdated, RecipeSyncEvent::Changed(Err(e)))
        | (RecipeSyncStage::AwaitRemoteUpdate { .. }, RecipeSyncEvent::RemoteUpdated(Err(e)))
        | (RecipeSyncStage::AwaitChanged, RecipeSyncEvent::ChangedOnServer(Err(e)))
        | (RecipeSyncStage::AwaitLocalUpdate { .. }, RecipeSyncEvent::LocalUpdated(Err(e))) => (
            RecipeSyncView { stage: RecipeSyncStage::Finished, ..v },
            RecipeSyncCommand::Fail { message: e@ },
        ),
        _ => (v, RecipeSyncCommand::Ignore),
    }
}

/// A synchronisation of the recipes that has not begun: it waits for the
/// account and knows nothing yet (no recipes, lists or ids, time 0).
pub open spec fn recipe_sync_initial() -> RecipeSyncView {
    RecipeSyncView {
        stage: RecipeSyncStage::AwaitUsername,
        username: Seq::empty(),
        local: Seq::empty(),
        cloud_ids: Seq::empty(),
        missing: Seq::empty(),
        dead: Seq::empty(),
        unlinked: Seq::empty(),
        since: 0,
        changed: Seq::empty(),
        to_send: Seq::empty(),
    }
}

/// Starts the synchronisation of the recipes.
pub fn recipe_sync_start() -> (r: (RecipeSync, RecipeSyncAction))
    ensures
        r.0@ == recipe_sync_initial(),
        recipe_sync_inv(r.0@),
        r.1@ == RecipeSyncCommand::GetUsername,
{
    let v = RecipeSync {
        stage: RecipeSyncStage::AwaitUsername,
        username: String::new(),
        local: Vec::new(),
        cloud_ids: Vec::new(),
        missing: Vec::new(),
        dead: Vec::new(),
        unlinked: Vec::new(),
        since: 0,
        changed: Vec::new(),
        to_send: Vec::new(),
    };
    assert(v@.local =~= Seq::empty());
    assert(v@.cloud_ids =~= Seq::empty());
    assert(v@.missing =~= Seq::empty());
    assert(v@.dead =~= Seq::empty());
    assert(v@.unlinked =~= Seq::empty());
    assert(v@.changed =~= Seq::empty());
    assert(v@.to_send =~= Seq::empty());
    assert(v@ == recipe_sync_initial());
    (v, RecipeSyncAction::GetUsername)
}

fn exec_inserts_after(v: RecipeSync, next: u64, count: u64) -> (r: (RecipeSync, RecipeSyncAction))
    ensures
        (r.0@, r.1@) == inserts_after(v@, next as int, count),
{
    if next < count {
        (
            RecipeSync { stage: RecipeSyncStage::AwaitImage { done: next, count }, ..v },
            RecipeSyncAction::ConvertImage { index: next },
        )
    } else {
        let ids = v.cloud_ids.clone();
        proof {
            assert(views(ids@) =~= views(v.cloud_ids@));
        }
        (
            RecipeSync { stage: RecipeSyncStage::AwaitMissing, ..v },
            RecipeSyncAction::DownloadMissing { ids },
        )
    }
}

fn exec_uploads_after(v: RecipeSync, next: u64) -> (r: (RecipeSync, RecipeSyncAction))
    ensures
        (r.0@, r.1@) == uploads_after(v@, next as int),
{
    if next < v.unlinked.len() as u64 {
        let position = v.unlinked[next as usize];
        (
            RecipeSync { stage: RecipeSyncStage::AwaitUpload { done: next }, ..v },
            RecipeSyncAction::UploadRecipe { position },
        )
    } else {
        let username = v.username.clone();
        (
            RecipeSync { stage: RecipeSyncStage::AwaitLastSynced, ..v },
            RecipeSyncAction::LoadLastSynced { username },
        )
    }
}

fn exec_deletes_after(v: RecipeSync, next: u64) -> (r: (RecipeSync, RecipeSyncAction))
    ensures
        (r.0@, r.1@) == deletes_after(v@, next as int),
{
    if next < v.dead.len() as u64 {
        let position = v.dead[next as usize];
        (
            RecipeSync { stage: RecipeSyncStage::AwaitDelete { done: next }, ..v },
            RecipeSyncAction::DeleteRecipe { position },
        )
    } else {
        exec_uploads_after(v, 0)
    }
}

fn exec_sends_after(v: RecipeSync, next: u64) -> (r: (RecipeSync, RecipeSyncAction))
    ensures
        (r.0@, r.1@) == sends_after(v@, next as int),
{
    if next < v.to_send.len() as u64 {
        let position = v.to_send[next as usize];
        (
            RecipeSync { stage: RecipeSyncStage::AwaitRemoteUpdate { done: next }, ..v },
            RecipeSyncAction::UpdateRemote { position },
        )
    } else {
        let since = v.since;
        (
            RecipeSync { stage: RecipeSyncStage::AwaitChanged, ..v },
            RecipeSyncAction::DownloadChanged { since },
        )
    }
}

fn exec_local_updates_after(v: RecipeSync, next: u64, count: u64) -> (r: (
    RecipeSync,
    RecipeSyncAction,
))
    ensures
        (r.0@, r.1@) == local_updates_after(v@, next as int, count),
{
    if next < count {
        (
            RecipeSync { stage: RecipeSyncStage::AwaitLocalUpdate { done: next, count }, ..v },
            RecipeSyncAction::UpdateLocal { index: next },
        )
    } else {
        (RecipeSync { stage: RecipeSyncStage::Finished, ..v }, RecipeSyncAction::Complete)
    }
}

/// The position after `done`, or `limit` when `done` is already at or past
/// `limit` (both lie past the end of a list of `limit` items).
fn successor(done: u64, limit: u64) -> (r: u64)
    ensures
        done < limit ==> r == done + 1,
        done >= limit ==> r == limit,
{
    if done < limit {
        done + 1
    } else {
        limit
    }
}

/// Advances the synchronisation of the recipes by one event.
pub fn recipe_sync_step(v: RecipeSync, event: RecipeSyncEvent) -> (r: (RecipeSync, RecipeSyncAction))
    ensures
        (r.0@, r.1@) == recipe_sync_next(v@, event),
{
    match (v.stage, event) {
        (RecipeSyncStage::AwaitUsername, RecipeSyncEvent::Username(Ok(name))) => {
            let username = name.clone();
            (
                RecipeSync { stage: RecipeSyncStage::AwaitLocalRecipes, username, ..v },
                RecipeSyncAction::LoadLocalRecipes { username: name },
            )
        },
        (RecipeSyncStage::AwaitLocalRecipes, RecipeSyncEvent::LocalRecipes(Ok(recipes))) => {
            let cloud_ids = cloud_parent_ids(recipes.as_slice());
            let excluded = cloud_ids.clone();
            proof {
                assert(views(excluded@) =~= views(cloud_ids@));
            }
            (
                RecipeSync {
                    stage: RecipeSyncStage::AwaitNewRecipes,
                    local: recipes,
                    cloud_ids,
                    ..v
                },
                RecipeSyncAction::DownloadNew { excluded },
            )
        },
        (RecipeSyncStage::AwaitNewRecipes, RecipeSyncEvent::NewRecipes(Ok(count))) =>
            exec_inserts_after(v, 0, count),
        (RecipeSyncStage::AwaitImage { done, count }, RecipeSyncEvent::ImageConverted(Ok(path))) => {
            let username = v.username.clone();
            (
                RecipeSync { stage: RecipeSyncStage::AwaitInsert { done, count }, ..v },
                RecipeSyncAction::InsertRecipe { index: done, image_path: path, username },
            )
        },
        (RecipeSyncStage::AwaitInsert { done, count }, RecipeSyncEvent::Inserted(Ok(()))) =>
            exec_inserts_after(v, successor(done, count), count),
        (RecipeSyncStage::AwaitMissing, RecipeSyncEvent::Missing(Ok(missing))) => {
            let dead = recipes_with_dead_cloud_parent(v.local.as_slice(), missing.as_slice());
            let unlinked = recipes_without_cloud_parent(v.local.as_slice());
            exec_deletes_after(RecipeSync { missing, dead, unlinked, ..v }, 0)
        },
        (RecipeSyncStage::AwaitDelete { done }, RecipeSyncEvent::Deleted(Ok(()))) => {
            let next = successor(done, v.dead.len() as u64);
            exec_deletes_after(v, next)
        },
        (RecipeSyncStage::AwaitUpload { done }, RecipeSyncEvent::Uploaded(Ok(()))) => {
            let next = successor(done, v.unlinked.len() as u64);
            exec_uploads_after(v, next)
        },
        (RecipeSyncStage::AwaitLastSynced, RecipeSyncEvent::LastSynced(Ok(record))) => {
            let since = last_synced_since(record);
            let username = v.username.clone();
            (
                RecipeSync { stage: RecipeSyncStage::AwaitUpdated, since, ..v },
                RecipeSyncAction::LoadChanged { username, since },
            )
        },
        (RecipeSyncStage::AwaitUpdated, RecipeSyncEvent::Changed(Ok(changed))) => {
            let to_send = stored_recipes(changed.as_slice());
            exec_sends_after(RecipeSync { changed, to_send, ..v }, 0)
        },
        (RecipeSyncStage::AwaitRemoteUpdate { done }, RecipeSyncEvent::RemoteUpdated(Ok(()))) => {
            let next = successor(done, v.to_send.len() as u64);
            exec_sends_after(v, next)
        },
        (RecipeSyncStage::AwaitChanged, RecipeSyncEvent::ChangedOnServer(Ok(count))) =>
            exec_local_updates_after(v, 0, count),
        (
            RecipeSyncStage::AwaitLocalUpdate { done, count },
            RecipeSyncEvent::LocalUpdated(Ok(())),
        ) => exec_local_updates_after(v, successor(done, count), count),
        (RecipeSyncStage::AwaitUsername, RecipeSyncEvent::Username(Err(e)))
        | (RecipeSyncStage::AwaitLocalRecipes, RecipeSyncEvent::LocalRecipes(Err(e)))
        | (RecipeSyncStage::AwaitNewRecipes, RecipeSyncEvent::NewRecipes(Err(e)))
        | (RecipeSyncStage::AwaitImage { .. }, RecipeSyncEvent::ImageConverted(Err(e)))
        | (RecipeSyncStage::AwaitInsert { .. }, RecipeSyncEvent::Inserted(Err(e)))
        | (RecipeSyncStage::AwaitMissing, RecipeSyncEvent::Missing(Err(e)))
        | (RecipeSyncStage::AwaitDelete { .. }, RecipeSyncEvent::Deleted(Err(e)))
        | (RecipeSyncStage::AwaitUpload { .. }, RecipeSyncEvent::Uploaded(Err(e)))
        | (RecipeSyncStage::AwaitLastSynced, RecipeSyncEvent::LastSynced(Err(e)))
        | (RecipeSyncStage::AwaitUpdated, RecipeSyncEvent::Changed(Err(e)))
        | (RecipeSyncStage::AwaitRemoteUpdate { .. }, RecipeSyncEvent::RemoteUpdated(Err(e)))
        | (RecipeSyncStage::AwaitChanged, RecipeSyncEvent::ChangedOnServer(Err(e)))
        | (RecipeSyncStage::AwaitLocalUpdate { .. }, RecipeSyncEvent::LocalUpdated(Err(e))) => (
            RecipeSync { stage: RecipeSyncStage::Finished, ..v },
            RecipeSyncAction::Fail { message: e },
        ),
        (_, _) => (v, RecipeSyncAction::Ignore),
    }
}

/// What holds of every synchronisation of the recipes: while deleting or
/// uploading, the lists of recipes to delete and to upload are exactly the
/// stored recipes with a lost cloud parent and the stored recipes without a
/// cloud parent, and while sending, the list of recipes to send is exactly
/// the stored changed recipes; each cursor lies within its list.
pub open spec fn recipe_sync_inv(v: RecipeSyncView) -> bool {
    &&& v.local.len() <= usize::MAX
    &&& v.changed.len() <= usize::MAX
    &&& v.dead.len() <= usize::MAX
    &&& v.unlinked.len() <= usize::MAX
    &&& v.to_send.len() <= usize::MAX
    &&& v.stage matches RecipeSyncStage::AwaitLocalUpdate { done, count } ==> done < count
    &&& v.stage matches RecipeSyncStage::AwaitDelete { done } ==> {
        &&& v.dead == dead_parent_choice(v.local, v.missing)
        &&& v.unlinked == unlinked_choice(v.local)
        &&& done < v.dead.len()
    }
    &&& v.stage matches RecipeSyncStage::AwaitUpload { done } ==> {
        &&& v.dead == dead_parent_choice(v.local, v.missing)
        &&& v.unlinked == unlinked_choice(v.local)
        &&& done < v.unlinked.len()
    }
    &&& v.stage matches RecipeSyncStage::AwaitRemoteUpdate { done } ==> {
        &&& v.to_send == stored_choice(v.changed)
        &&& done < v.to_send.len()
    }
}

/// Every step keeps [`recipe_sync_inv`], and the synchronisation deletes
/// only stored local recipes whose cloud parent the server reported lost,
/// uploads only stored local recipes without a cloud parent, and sends only
/// stored changed recipes.
pub proof fn lemma_recipe_sync_targets(v: RecipeSyncView, event: RecipeSyncEvent)
    requires
        recipe_sync_inv(v),
    ensures
        recipe_sync_inv(recipe_sync_next(v, event).0),
        recipe_sync_next(v, event).1 matches RecipeSyncCommand::DeleteRecipe { position } ==> {
            let w = recipe_sync_next(v, event).0;
            &&& 0 <= position < w.local.len()
            &&& has_dead_cloud_parent(w.local[position], w.missing)
        },
        recipe_sync_next(v, event).1 matches RecipeSyncCommand::UploadRecipe { position } ==> {
            let w = recipe_sync_next(v, event).0;
            &&& 0 <= position < w.local.len()
            &&& is_unlinked(w.local[position])
        },
        recipe_sync_next(v, event).1 matches RecipeSyncCommand::UpdateRemote { position } ==> {
            let w = recipe_sync_next(v, event).0;
            &&& 0 <= position < w.changed.len()
            &&& w.changed[position].id is Some
        },
{
    let w = recipe_sync_next(v, event).0;
    if let RecipeSyncEvent::LocalRecipes(Ok(recipes)) = event {
        assert(recipes@.len() == recipes.len());
    }
    if let RecipeSyncEvent::Changed(Ok(changed)) = event {
        assert(changed@.len() == changed.len());
    }
    lemma_matching_indices_len(w.local.len(), |i: int| has_dead_cloud_parent(w.local[i], w.missing));
    lemma_matching_indices_len(w.local.len(), |i: int| is_unlinked(w.local[i]));
    lemma_matching_indices_len(w.changed.len(), |i: int| w.changed[i].id is Some);
    lemma_matching_indices(w.local.len(), |i: int| has_dead_cloud_parent(w.local[i], w.missing));
    lemma_matching_indices(w.local.len(), |i: int| is_unlinked(w.local[i]));
    lemma_matching_indices(w.changed.len(), |i: int| w.changed[i].id is Some);
}

/// The phase of a synchronisation of the recipes, counted down to its end.
pub open spec fn recipe_sync_phase(stage: RecipeSyncStage) -> nat {
    match stage {
        RecipeSyncStage::AwaitUsername => 12,
        RecipeSyncStage::AwaitLocalRecipes => 11,
        RecipeSyncStage::AwaitNewRecipes => 10,
        RecipeSyncStage::AwaitImage { .. } => 9,
        RecipeSyncStage::AwaitInsert { .. } => 9,
        RecipeSyncStage::AwaitMissing => 8,
        RecipeSyncStage::AwaitDelete { .. } => 7,
        RecipeSyncStage::AwaitUpload { .. } => 6,
        RecipeSyncStage::AwaitLastSynced => 5,
        RecipeSyncStage::AwaitUpdated => 4,
        RecipeSyncStage::AwaitRemoteUpdate { .. } => 3,
        RecipeSyncStage::AwaitChanged => 2,
        RecipeSyncStage::AwaitLocalUpdate { .. } => 1,
        RecipeSyncStage::Finished => 0,
    }
}

/// Within a phase that goes through a list, how many steps are left.
pub open spec fn recipe_sync_remaining(v: RecipeSyncView) -> int {
    match v.stage {
        RecipeSyncStage::AwaitImage { done, count } => if done < count {
            2 * (count - done)
        } else {
            1
        },
        RecipeSyncStage::AwaitInsert { done, count } => if done < count {
            2 * (count - done) - 1
        } else {
            0
        },
        RecipeSyncStage::AwaitDelete { done } => v.dead.len() - done,
        RecipeSyncStage::AwaitUpload { done } => v.unlinked.len() - done,
        RecipeSyncStage::AwaitRemoteUpdate { done } => v.to_send.len() - done,
        RecipeSyncStage::AwaitLocalUpdate { done, count } => count - done,
        _ => 0,
    }
}

/// A synchronisation of the recipes ends: each event is either ignored,
/// leaving it as it was, or moves it to an earlier phase, or leaves fewer
/// steps in the current one.
pub proof fn lemma_recipe_sync_progress(v: RecipeSyncView, event: RecipeSyncEvent)
    requires
        recipe_sync_inv(v),
    ensures
        recipe_sync_next(v, event).1 is Ignore ==> recipe_sync_next(v, event).0 == v,
        !(recipe_sync_next(v, event).1 is Ignore) ==> {
            let w = recipe_sync_next(v, event).0;
            ||| recipe_sync_phase(w.stage) < recipe_sync_phase(v.stage)
            ||| (recipe_sync_phase(w.stage) == recipe_sync_phase(v.stage) && 0
                <= recipe_sync_remaining(w) < recipe_sync_remaining(v))
        },
{
    lemma_recipe_sync_targets(v, event);
}

/// Updating a local recipe carries, unchanged, the local id that was found
/// and the path under which the downloaded image was stored: the copy found
/// is the copy replaced, with exactly that image path (or none when the
/// download has no image); a missing local copy ends the update without
/// replacing anything.
pub proof fn lemma_update_local_carries_found_values(
    local_id: i64,
    path: Option<String>,
    found: Option<i64>,
)
    ensures
        update_local_next(
            UpdateLocalStage::AwaitImage { local_id },
            UpdateLocalEvent::ImageConverted(Ok(path)),
        ) == (UpdateLocalStage::AwaitUpdate { local_id }, UpdateLocalCommand::Update {
            local_id,
            image_path: match path {
                Some(p) => Some(p@),
                None => None,
            },
        }),
        update_local_next(UpdateLocalStage::AwaitLocalId, UpdateLocalEvent::LocalId(Ok(found)))
            == (match found {
            Some(id) => (UpdateLocalStage::AwaitImage { local_id: id }, UpdateLocalCommand::ConvertImage),
            None => (UpdateLocalStage::Finished, UpdateLocalCommand::Finish { updated: None }),
        }),
        update_local_next(UpdateLocalStage::AwaitUpdate { local_id }, UpdateLocalEvent::Updated(Ok(())))
            == (UpdateLocalStage::Finished, UpdateLocalCommand::Finish { updated: Some(local_id) }),
{
}

/// The state after `rounds` new recipes were each given an image (none) and
/// inserted successfully, starting from `v`.
pub open spec fn insert_rounds(v: RecipeSyncView, rounds: nat) -> RecipeSyncView
    decreases rounds,
{
    if rounds == 0 {
        v
    } else {
        let w = insert_rounds(v, (rounds - 1) as nat);
        let x = recipe_sync_next(w, RecipeSyncEvent::ImageConverted(Ok(None))).0;
        recipe_sync_next(x, RecipeSyncEvent::Inserted(Ok(()))).0
    }
}

/// Each step of inserting the new recipes: the download of `count` new
/// recipes starts with the image of the first (or, with none, goes on to
/// the lost cloud parents); the image of recipe `i` is followed by inserting
/// recipe `i` with that image for the account; inserting recipe `i` is
/// followed by the image of recipe `i + 1`, or, after the last one, by the
/// question about the lost cloud parents. Nothing else of the state changes.
pub proof fn lemma_recipe_sync_insert_steps(v: RecipeSyncView, event: RecipeSyncEvent)
    ensures
        v.stage == RecipeSyncStage::AwaitNewRecipes ==> (event matches RecipeSyncEvent::NewRecipes(
            Ok(count),
        ) ==> recipe_sync_next(v, event) == if count > 0 {
            (
                RecipeSyncView { stage: RecipeSyncStage::AwaitImage { done: 0, count }, ..v },
                RecipeSyncCommand::ConvertImage { index: 0 },
            )
        } else {
            (
                RecipeSyncView { stage: RecipeSyncStage::AwaitMissing, ..v },
                RecipeSyncCommand::DownloadMissing { ids: v.cloud_ids },
            )
        }),
        v.stage matches RecipeSyncStage::AwaitImage { done, count } ==> (
        event matches RecipeSyncEvent::ImageConverted(Ok(path)) ==> recipe_sync_next(v, event) == (
            RecipeSyncView { stage: RecipeSyncStage::AwaitInsert { done, count }, ..v },
            RecipeSyncCommand::InsertRecipe {
                index: done,
                image_path: match path {
                    Some(p) => Some(p@),
                    None => None,
                },
                username: v.username,
            },
        )),
        v.stage matches RecipeSyncStage::AwaitInsert { done, count } ==> (event
            == RecipeSyncEvent::Inserted(Ok(())) ==> recipe_sync_next(v, event) == if done + 1
            < count {
            (
                RecipeSyncView {
                    stage: RecipeSyncStage::AwaitImage { done: (done + 1) as u64, count },
                    ..v
                },
                RecipeSyncCommand::ConvertImage { index: (done + 1) as u64 },
            )
        } else {
            (
                RecipeSyncView { stage: RecipeSyncStage::AwaitMissing, ..v },
                RecipeSyncCommand::DownloadMissing { ids: v.cloud_ids },
            )
        }),
{
}

/// Every new recipe is inserted, once each and in order: from the image of
/// the first of `count` new recipes, after `k < count` successful rounds the
/// synchronisation handles recipe `k` (and then inserts recipe `k`), and
/// after `count` rounds it goes on to the lost cloud parents, with the rest
/// of the state as it was.
pub proof fn lemma_recipe_sync_inserts_every_new_recipe(v: RecipeSyncView, count: u64, k: nat)
    requires
        v.stage == (RecipeSyncStage::AwaitImage { done: 0, count }),
        0 < count,
        k <= count,
    ensures
        k < count ==> insert_rounds(v, k) == (RecipeSyncView {
            stage: RecipeSyncStage::AwaitImage { done: k as u64, count },
            ..v
        }),
        k < count ==> recipe_sync_next(insert_rounds(v, k), RecipeSyncEvent::ImageConverted(Ok(None))).1
            == (RecipeSyncCommand::InsertRecipe {
            index: k as u64,
            image_path: None,
            username: v.username,
        }),
        k == count ==> insert_rounds(v, k) == (RecipeSyncView {
            stage: RecipeSyncStage::AwaitMissing,
            ..v
        }),
    decreases k,
{
    if k > 0 {
        lemma_recipe_sync_inserts_every_new_recipe(v, count, (k - 1) as nat);
    }
}

/// The lists that the synchronisation goes through hold exactly what they
/// should: after the server named the lost cloud parents, a local recipe is
/// to be deleted exactly when it is stored and its cloud parent is lost, and
/// to be uploaded exactly when it is stored and has no cloud parent; after
/// the changed recipes were read, one is sent exactly when it is stored.
pub proof fn lemma_recipe_sync_lists_complete(v: RecipeSyncView, event: RecipeSyncEvent)
    ensures
        v.stage == RecipeSyncStage::AwaitMissing ==> (event matches RecipeSyncEvent::Missing(
            Ok(missing),
        ) ==> {
            let w = recipe_sync_next(v, event).0;
            &&& forall|i: int|
                0 <= i < v.local.len() ==> (w.dead.contains(i) <==> (v.local[i].cloud_parent_id matches Some(
                    c,
                ) && v.local[i].id is Some && views(missing@).contains(c@)))
            &&& forall|i: int|
                0 <= i < v.local.len() ==> (w.unlinked.contains(i) <==> (v.local[i].id is Some
                    && v.local[i].cloud_parent_id is None))
            &&& forall|k: int| 0 <= k < w.dead.len() ==> 0 <= #[trigger] w.dead[k] < v.local.len()
            &&& forall|k: int|
                0 <= k < w.unlinked.len() ==> 0 <= #[trigger] w.unlinked[k] < v.local.len()
            &&& w.local == v.local
            &&& recipe_sync_next(v, event).1 == if 0 < w.dead.len() {
                RecipeSyncCommand::DeleteRecipe { position: w.dead[0] }
            } else if 0 < w.unlinked.len() {
                RecipeSyncCommand::UploadRecipe { position: w.unlinked[0] }
            } else {
                RecipeSyncCommand::LoadLastSynced { username: v.username }
            }
        }),
        v.stage == RecipeSyncStage::AwaitUpdated ==> (event matches RecipeSyncEvent::Changed(
            Ok(changed),
        ) ==> {
            let w = recipe_sync_next(v, event).0;
            &&& forall|i: int|
                0 <= i < changed@.len() ==> (w.to_send.contains(i) <==> changed@[i].id is Some)
            &&& forall|k: int|
                0 <= k < w.to_send.len() ==> 0 <= #[trigger] w.to_send[k] < changed@.len()
            &&& w.changed == changed@
            &&& recipe_sync_next(v, event).1 == if 0 < w.to_send.len() {
                RecipeSyncCommand::UpdateRemote { position: w.to_send[0] }
            } else {
                RecipeSyncCommand::DownloadChanged { since: v.since }
            }
        }),
{
    if let RecipeSyncEvent::Missing(Ok(missing)) = event {
        lemma_matching_indices(
            v.local.len(),
            |i: int| has_dead_cloud_parent(v.local[i], views(missing@)),
        );
        lemma_matching_indices(v.local.len(), |i: int| is_unlinked(v.local[i]));
    }
    if let RecipeSyncEvent::Changed(Ok(changed)) = event {
        lemma_matching_indices(changed@.len(), |i: int| changed@[i].id is Some);
    }
}

/// Each list is gone through item by item, in order, and each phase leads to
/// the next: after deleting the `d`-th recipe to delete comes the next one,
/// then the first one to upload, then the time of the last synchronisation;
/// after uploading the `d`-th comes the next one, then that time; after
/// sending the `d`-th changed recipe comes the next one, then the download
/// of the recipes changed on the server; after updating the local copy of
/// the `d`-th of those comes the next one, then the end. Nothing else of the
/// state changes.
pub proof fn lemma_recipe_sync_list_steps(v: RecipeSyncView, event: RecipeSyncEvent)
    ensures
        v.stage matches RecipeSyncStage::AwaitDelete { done } ==> (event
            == RecipeSyncEvent::Deleted(Ok(())) ==> recipe_sync_next(v, event) == if done + 1
            < v.dead.len() {
            (
                RecipeSyncView { stage: RecipeSyncStage::AwaitDelete { done: (done + 1) as u64 }, ..v },
                RecipeSyncCommand::DeleteRecipe { position: v.dead[done + 1] },
            )
        } else if 0 < v.unlinked.len() {
            (
                RecipeSyncView { stage: RecipeSyncStage::AwaitUpload { done: 0 }, ..v },
                RecipeSyncCommand::UploadRecipe { position: v.unlinked[0] },
            )
        } else {
            (
                RecipeSyncView { stage: RecipeSyncStage::AwaitLastSynced, ..v },
                RecipeSyncCommand::LoadLastSynced { username: v.username },
            )
        }),
        v.stage matches RecipeSyncStage::AwaitUpload { done } ==> (event
            == RecipeSyncEvent::Uploaded(Ok(())) ==> recipe_sync_next(v, event) == if done + 1
            < v.unlinked.len() {
            (
                RecipeSyncView { stage: RecipeSyncStage::AwaitUpload { done: (done + 1) as u64 }, ..v },
                RecipeSyncCommand::UploadRecipe { position: v.unlinked[done + 1] },
            )
        } else {
            (
                RecipeSyncView { stage: RecipeSyncStage::AwaitLastSynced, ..v },
                RecipeSyncCommand::LoadLastSynced { username: v.username },
            )
        }),
        v.stage matches RecipeSyncStage::AwaitRemoteUpdate { done } ==> (event
            == RecipeSyncEvent::RemoteUpdated(Ok(())) ==> recipe_sync_next(v, event) == if done + 1
            < v.to_send.len() {
            (
                RecipeSyncView {
                    stage: RecipeSyncStage::AwaitRemoteUpdate { done: (done + 1) as u64 },
                    ..v
                },
                RecipeSyncCommand::UpdateRemote { position: v.to_send[done + 1] },
            )
        } else {
            (
                RecipeSyncView { stage: RecipeSyncStage::AwaitChanged, ..v },
                RecipeSyncCommand::DownloadChanged { since: v.since },
            )
        }),
        v.stage matches RecipeSyncStage::AwaitLocalUpdate { done, count } ==> (event
            == RecipeSyncEvent::LocalUpdated(Ok(())) ==> recipe_sync_next(v, event) == if done + 1
            < count {
            (
                RecipeSyncView {
                    stage: RecipeSyncStage::AwaitLocalUpdate { done: (done + 1) as u64, count },
                    ..v
                },
                RecipeSyncCommand::UpdateLocal { index: (done + 1) as u64 },
            )
        } else {
            (RecipeSyncView { stage: RecipeSyncStage::Finished, ..v }, RecipeSyncCommand::Complete)
        }),
        v.stage == RecipeSyncStage::AwaitChanged ==> (event matches RecipeSyncEvent::ChangedOnServer(
            Ok(count),
        ) ==> recipe_sync_next(v, event).1 == if count > 0 {
            RecipeSyncCommand::UpdateLocal { index: 0 }
        } else {
            RecipeSyncCommand::Complete
        }),
        v.stage == RecipeSyncStage::AwaitLastSynced ==> (event matches RecipeSyncEvent::LastSynced(
            Ok(record),
        ) ==> recipe_sync_next(v, event).1 == (RecipeSyncCommand::LoadChanged {
            username: v.username,
            since: match record {
                Some(Some(t)) => t,
                _ => never_synced(),
            },
        })),
        v.stage == RecipeSyncStage::AwaitLocalRecipes ==> (event matches RecipeSyncEvent::LocalRecipes(
            Ok(recipes),
        ) ==> recipe_sync_next(v, event).1 == (RecipeSyncCommand::DownloadNew {
            excluded: some_views(cloud_parents(recipes@)),
        }) && recipe_sync_next(v, event).0.local == recipes@),
{
}

} // verus!
