//! Synchronisation of the recipe schedules with the cloud: downloaded
//! schedules are inserted per recipe and linked to their cloud copies, links
//! to schedules the server lost are deleted with their schedules, and local
//! schedules without a link are uploaded per recipe.

use vstd::prelude::*;
use crate::lists::{
    as_ints, contains_string, distinct_keys, group_by_key, lemma_distinct_keys,
    lemma_distinct_keys_len, lemma_matching_indices, lemma_matching_indices_len, matching_indices,
    members_with_key, views, KeyGroup,
};

verus! {

/// The link between a local schedule and the cloud schedule it copies.
pub struct ScheduleCloudId {
    pub local_id: Option<i64>,
    pub cloud_id: Option<String>,
    pub username: Option<String>,
}

/// The mathematical form of [`ScheduleCloudId`].
pub struct ScheduleLinkView {
    pub local_id: Option<i64>,
    pub cloud_id: Option<Seq<char>>,
    pub username: Option<Seq<char>>,
}

impl View for ScheduleCloudId {
    type V = ScheduleLinkView;

    open spec fn view(&self) -> ScheduleLinkView {
        ScheduleLinkView {
            local_id: self.local_id,
            cloud_id: match self.cloud_id {
                Some(c) => Some(c@),
                None => None,
            },
            username: match self.username {
                Some(u) => Some(u@),
                None => None,
            },
        }
    }
}

/// The views of a list of links.
pub open spec fn link_views(links: Seq<ScheduleCloudId>) -> Seq<ScheduleLinkView> {
    links.map_values(|l: ScheduleCloudId| l@)
}

/// The links that pair the `i`-th cloud id with the `i`-th inserted local id
/// for `username`, for as many pairs as both lists provide.
pub open spec fn link_records(cloud_ids: Seq<Seq<char>>, inserted: Seq<i64>, username: Seq<char>) -> Seq<
    ScheduleLinkView,
> {
    Seq::new(
        if cloud_ids.len() <= inserted.len() {
            cloud_ids.len()
        } else {
            inserted.len()
        },
        |i: int|
            ScheduleLinkView {
                local_id: Some(inserted[i]),
                cloud_id: Some(cloud_ids[i]),
                username: Some(username),
            },
    )
}

/// The links to record after inserting downloaded schedules: the `i`-th
/// cloud id with the `i`-th inserted local id, for as many pairs as both
/// lists provide.
pub fn schedule_links(cloud_ids: &[String], inserted_ids: &[i64], username: &String) -> (r: Vec<
    ScheduleCloudId,
>)
    ensures
        link_views(r@) == link_records(views(cloud_ids@), inserted_ids@, username@),
{
    let n = if cloud_ids.len() <= inserted_ids.len() {
        cloud_ids.len()
    } else {
        inserted_ids.len()
    };
    let mut r: Vec<ScheduleCloudId> = Vec::new();
    let mut i: usize = 0;
    while i < n
        invariant
            i <= n,
            n == link_records(views(cloud_ids@), inserted_ids@, username@).len(),
            n <= cloud_ids@.len(),
            n <= inserted_ids@.len(),
            r@.len() == i,
            link_views(r@) == link_records(views(cloud_ids@), inserted_ids@, username@).take(i as int),
        decreases n - i,
    {
        let link = ScheduleCloudId {
            local_id: Some(inserted_ids[i]),
            cloud_id: Some(cloud_ids[i].clone()),
            username: Some(username.clone()),
        };
        assert(link@ == link_records(views(cloud_ids@), inserted_ids@, username@)[i as int]);
        let ghost before = r@;
        r.push(link);
        assert(r@ == before.push(link));
        assert forall|j: int| 0 <= j < i implies link_views(r@)[j] == link_views(before)[j] by {
            assert(r@[j] == before[j]);
        }
        assert(link_views(r@) =~= link_records(views(cloud_ids@), inserted_ids@, username@).take(
            i as int + 1,
        ));
        i = i + 1;
    }
    assert(link_records(views(cloud_ids@), inserted_ids@, username@).take(n as int)
        =~= link_records(views(cloud_ids@), inserted_ids@, username@));
    r
}

/// A link to delete: it names a cloud schedule that the server no longer has.
pub open spec fn link_is_stale(link: ScheduleLinkView, in_cloud: Seq<Seq<char>>) -> bool {
    link.cloud_id matches Some(c) && !in_cloud.contains(c)
}

/// The positions of the links to delete.
pub open spec fn stale_choice(links: Seq<ScheduleLinkView>, in_cloud: Seq<Seq<char>>) -> Seq<int> {
    matching_indices(links.len(), |i: int| link_is_stale(links[i], in_cloud))
}

/// The positions of the links whose cloud schedule is not among
/// `ids_in_cloud`: these links, and their local schedules, are deleted.
pub fn stale_schedule_links(links: &[ScheduleCloudId], ids_in_cloud: &[String]) -> (r: Vec<usize>)
    ensures
        as_ints(r@) == stale_choice(link_views(links@), views(ids_in_cloud@)),
        forall|i: int|
            0 <= i < links@.len() ==> (as_ints(r@).contains(i) <==> (links@[i].cloud_id matches Some(
                c,
            ) && !views(ids_in_cloud@).contains(c@))),
{
    let ghost p = |i: int| link_is_stale(link_views(links@)[i], views(ids_in_cloud@));
    let mut r: Vec<usize> = Vec::new();
    let mut i: usize = 0;
    while i < links.len()
        invariant
            i <= links.len(),
            p == (|i: int| link_is_stale(link_views(links@)[i], views(ids_in_cloud@))),
            as_ints(r@) == matching_indices(i as nat, p),
        decreases links.len() - i,
    {
        if let Some(c) = &links[i].cloud_id {
            if !contains_string(ids_in_cloud, c) {
                r.push(i);
            }
        }
        assert(as_ints(r@) =~= matching_indices(i as nat + 1, p));
        i = i + 1;
    }
    proof {
        assert(as_ints(r@) == stale_choice(link_views(links@), views(ids_in_cloud@)));
        assert(link_views(links@).len() == links@.len());
        lemma_stale_choice_complete(link_views(links@), views(ids_in_cloud@));
        assert forall|i: int| 0 <= i < links@.len() implies (as_ints(r@).contains(i) <==> (
        links@[i].cloud_id matches Some(c) && !views(ids_in_cloud@).contains(c@))) by {
            assert(link_views(links@)[i] == links@[i]@);
        }
    }
    r
}

/// The stale links are exactly the links that name a cloud schedule the
/// server does not have, each once and in the order of the links.
pub proof fn lemma_stale_choice_complete(links: Seq<ScheduleLinkView>, in_cloud: Seq<Seq<char>>)
    ensures
        forall|i: int|
            0 <= i < links.len() ==> (stale_choice(links, in_cloud).contains(i) <==> (
            links[i].cloud_id matches Some(c) && !in_cloud.contains(c))),
        forall|k: int|
            0 <= k < stale_choice(links, in_cloud).len() ==> 0 <= #[trigger] stale_choice(
                links,
                in_cloud,
            )[k] < links.len(),
        forall|k1: int, k2: int|
            0 <= k1 < k2 < stale_choice(links, in_cloud).len() ==> stale_choice(links, in_cloud)[k1]
                < stale_choice(links, in_cloud)[k2],
{
    lemma_matching_indices(links.len(), |i: int| link_is_stale(links[i], in_cloud));
}

/// The repetition of a local schedule, "none" when it has none.
pub fn repeat_or_none(repeat: Option<String>) -> (r: String)
    ensures
        r@ == (match repeat {
            Some(s) => s@,
            None => "none"@,
        }),
{
    match repeat {
        Some(s) => s,
        None => String::from_str("none"),
    }
}

/// The grouping of the entries of `keys` by key: for each key, in the order
/// of first occurrence, the key and the indices of the entries that hold it.
pub open spec fn grouping(keys: Seq<Option<i64>>) -> Seq<(i64, Seq<int>)> {
    Seq::new(
        distinct_keys(keys).len(),
        |g: int| (distinct_keys(keys)[g], members_with_key(keys, distinct_keys(keys)[g])),
    )
}

/// The mathematical form of a list of groups.
pub open spec fn group_views(groups: Seq<KeyGroup>) -> Seq<(i64, Seq<int>)> {
    groups.map_values(|g: KeyGroup| (g.key, as_ints(g.members@)))
}

/// Groups the entries of `keys` by key (see [`grouping`]).
pub fn group_schedules(keys: &[Option<i64>]) -> (r: Vec<KeyGroup>)
    ensures
        group_views(r@) == grouping(keys@),
{
    let r = group_by_key(keys);
    assert(group_views(r@) =~= grouping(keys@));
    r
}

/// The cloud ids of the schedules at `members`.
pub open spec fn member_cloud_ids(cloud_ids: Seq<Seq<char>>, members: Seq<int>) -> Seq<Seq<char>> {
    members.map_values(|m: int| cloud_ids[m])
}

/// Grouping schedules by recipe loses and duplicates none: each schedule
/// that has a recipe lies in the group of its recipe, each group holds only
/// schedules of its recipe, and no two groups share a recipe (so no schedule
/// lies in two groups).
pub proof fn lemma_grouping_partitions(keys: Seq<Option<i64>>)
    ensures
        forall|i: int|
            0 <= i < keys.len() && (#[trigger] keys[i]) is Some ==> exists|g: int|
                0 <= g < distinct_keys(keys).len() && distinct_keys(keys)[g] == keys[i]->0
                    && #[trigger] members_with_key(keys, distinct_keys(keys)[g]).contains(i),
        forall|key: i64, k: int|
            0 <= k < members_with_key(keys, key).len() ==> keys[#[trigger] members_with_key(
                keys,
                key,
            )[k]] == Some(key),
        forall|a: int, b: int|
            0 <= a < b < distinct_keys(keys).len() ==> distinct_keys(keys)[a] != distinct_keys(keys)[b],
{
    lemma_distinct_keys(keys);
    assert forall|i: int| 0 <= i < keys.len() && (#[trigger] keys[i]) is Some implies exists|g: int|
        0 <= g < distinct_keys(keys).len() && distinct_keys(keys)[g] == keys[i]->0
            && #[trigger] members_with_key(keys, distinct_keys(keys)[g]).contains(i) by {
        let k = keys[i]->0;
        assert(distinct_keys(keys).contains(k));
        let g = choose|g: int| 0 <= g < distinct_keys(keys).len() && distinct_keys(keys)[g] == k;
        lemma_matching_indices(keys.len(), |j: int| keys[j] == Some(k));
        assert(members_with_key(keys, distinct_keys(keys)[g]).contains(i));
    }
    assert forall|key: i64, k: int| 0 <= k < members_with_key(keys, key).len() implies keys[
        #[trigger] members_with_key(keys, key)[k]] == Some(key) by {
        lemma_matching_indices(keys.len(), |j: int| keys[j] == Some(key));
    }
}

/// The grouping of schedules by recipe loses and duplicates none: each
/// schedule with a recipe lies in a group of that recipe, each group holds
/// only schedules of its recipe, and no two groups have the same recipe.
pub proof fn lemma_grouping_complete(keys: Seq<Option<i64>>)
    ensures
        forall|i: int|
            0 <= i < keys.len() && (#[trigger] keys[i]) is Some ==> exists|g: int|
                0 <= g < grouping(keys).len() && grouping(keys)[g].0 == keys[i]->0
                    && #[trigger] grouping(keys)[g].1.contains(i),
        forall|g: int, k: int|
            0 <= g < grouping(keys).len() && 0 <= k < grouping(keys)[g].1.len() ==> keys[
                #[trigger] grouping(keys)[g].1[k]] == Some(grouping(keys)[g].0),
        forall|a: int, b: int|
            0 <= a < b < grouping(keys).len() ==> grouping(keys)[a].0 != grouping(keys)[b].0,
{
    lemma_grouping_partitions(keys);
    assert forall|i: int| 0 <= i < keys.len() && (#[trigger] keys[i]) is Some implies exists|g: int|
        0 <= g < grouping(keys).len() && grouping(keys)[g].0 == keys[i]->0
            && #[trigger] grouping(keys)[g].1.contains(i) by {
        let g = choose|g: int|
            0 <= g < distinct_keys(keys).len() && distinct_keys(keys)[g] == keys[i]->0
                && #[trigger] members_with_key(keys, distinct_keys(keys)[g]).contains(i);
        assert(grouping(keys)[g].1 == members_with_key(keys, distinct_keys(keys)[g]));
    }
    assert forall|g: int, k: int|
        0 <= g < grouping(keys).len() && 0 <= k < grouping(keys)[g].1.len() implies keys[
        #[trigger] grouping(keys)[g].1[k]] == Some(grouping(keys)[g].0) by {
        assert(grouping(keys)[g].1 == members_with_key(keys, distinct_keys(keys)[g]));
    }
}

/// Every member of a group is the index of an entry of `keys`.
pub proof fn lemma_grouping_members_in_range(keys: Seq<Option<i64>>)
    ensures
        forall|g: int, k: int|
            0 <= g < grouping(keys).len() && 0 <= k < grouping(keys)[g].1.len() ==> 0
                <= #[trigger] grouping(keys)[g].1[k] < keys.len(),
{
    assert forall|g: int, k: int|
        0 <= g < grouping(keys).len() && 0 <= k < grouping(keys)[g].1.len() implies 0
            <= #[trigger] grouping(keys)[g].1[k] < keys.len() by {
        let key = distinct_keys(keys)[g];
        lemma_matching_indices(keys.len(), |j: int| keys[j] == Some(key));
    }
}

// ---------------------------------------------------------------------------
// The synchronisation of the schedules
// ---------------------------------------------------------------------------

/// Where the synchronisation of the schedules stands.
#[derive(Clone, Copy, PartialEq, Eq, Structural, Debug)]
pub enum ScheduleSyncStage {
    AwaitUsername,
    AwaitDownload,
    AwaitLinks,
    /// Looking up the local recipe of the `done`-th downloaded schedule.
    AwaitLocalId { done: u64 },
    /// Inserting the schedules of the `group`-th group.
    AwaitInsert { group: u64 },
    /// Recording the `done`-th link of the `group`-th group.
    AwaitLinkInsert { group: u64, done: u64 },
    /// Deleting the `done`-th stale link.
    AwaitLinkDelete { done: u64 },
    /// Deleting the local schedule of the `done`-th stale link.
    AwaitScheduleDelete { done: u64 },
    AwaitLocalOnly,
    /// Uploading the `group`-th group of local schedules.
    AwaitUpload { group: u64 },
    Finished,
}

/// The synchronisation of the schedules in progress.
pub struct ScheduleSync {
    pub stage: ScheduleSyncStage,
    pub username: String,
    /// The cloud ids of the downloaded schedules.
    pub cloud_ids: Vec<String>,
    /// The links of the account, as read before inserting anything.
    pub links: Vec<ScheduleCloudId>,
    /// The local recipe of each downloaded schedule looked up so far.
    pub local_ids: Vec<Option<i64>>,
    /// The downloaded schedules grouped by local recipe.
    pub groups: Vec<KeyGroup>,
    /// The links still to record for the current group.
    pub pending: Vec<ScheduleCloudId>,
    /// The positions of the stale links.
    pub stale: Vec<usize>,
    /// The recipe of each local schedule without a link.
    pub local_only: Vec<i64>,
    /// The local schedules without a link, grouped by recipe.
    pub local_groups: Vec<KeyGroup>,
}

/// The mathematical form of [`ScheduleSync`].
pub struct ScheduleSyncView {
    pub stage: ScheduleSyncStage,
    pub username: Seq<char>,
    pub cloud_ids: Seq<Seq<char>>,
    pub links: Seq<ScheduleLinkView>,
    pub local_ids: Seq<Option<i64>>,
    pub groups: Seq<(i64, Seq<int>)>,
    pub pending: Seq<ScheduleLinkView>,
    pub stale: Seq<int>,
    pub local_only: Seq<i64>,
    pub local_groups: Seq<(i64, Seq<int>)>,
}

impl View for ScheduleSync {
    type V = ScheduleSyncView;

    open spec fn view(&self) -> ScheduleSyncView {
        ScheduleSyncView {
            stage: self.stage,
            username: self.username@,
            cloud_ids: views(self.cloud_ids@),
            links: link_views(self.links@),
            local_ids: self.local_ids@,
            groups: group_views(self.groups@),
            pending: link_views(self.pending@),
            stale: as_ints(self.stale@),
            local_only: self.local_only@,
            local_groups: group_views(self.local_groups@),
        }
    }
}

/// What the caller reports back to the synchronisation of the schedules.
pub enum ScheduleSyncEvent {
    Username(Result<String, String>),
    /// The cloud ids of the schedules downloaded from the server.
    Downloaded(Result<Vec<String>, String>),
    /// The links of the account.
    Links(Result<Vec<ScheduleCloudId>, String>),
    /// The local recipe of the current downloaded schedule, if there is one.
    LocalIdFound(Result<Option<i64>, String>),
    /// The local ids given to the inserted schedules of the current group.
    Inserted(Result<Vec<i64>, String>),
    LinkInserted(Result<(), String>),
    LinkDeleted(Result<(), String>),
    ScheduleDeleted(Result<(), String>),
    /// The recipe of each local schedule without a link.
    LocalOnly(Result<Vec<i64>, String>),
    Uploaded(Result<(), String>),
}

/// What the synchronisation of the schedules asks the caller to do next.
pub enum ScheduleSyncAction {
    GetUsername,
    DownloadSchedules,
    LoadLinks { username: String },
    /// Look up the local recipe of the `index`-th downloaded schedule.
    FindLocalId { index: u64, username: String },
    /// Replace the schedules of the local recipe `recipe_id` by the
    /// downloaded schedules at `members`.
    InsertGroup { recipe_id: i64, members: Vec<usize> },
    InsertLink { link: ScheduleCloudId },
    /// Delete the link at this position of the links.
    DeleteLink { position: usize },
    /// Delete the local schedule `local_id` (a link without a local id has
    /// none to delete).
    DeleteSchedule { local_id: Option<i64> },
    LoadLocalOnly,
    /// Upload the local schedules at `members` as the schedules of `recipe_id`.
    UploadGroup { recipe_id: i64, members: Vec<usize> },
    Complete,
    Fail { message: String },
    Ignore,
}

/// The mathematical form of [`ScheduleSyncAction`].
pub enum ScheduleSyncCommand {
    GetUsername,
    DownloadSchedules,
    LoadLinks { username: Seq<char> },
    FindLocalId { index: u64, username: Seq<char> },
    InsertGroup { recipe_id: i64, members: Seq<int> },
    InsertLink { link: ScheduleLinkView },
    DeleteLink { position: int },
    DeleteSchedule { local_id: Option<i64> },
    LoadLocalOnly,
    UploadGroup { recipe_id: i64, members: Seq<int> },
    Complete,
    Fail { message: Seq<char> },
    Ignore,
}

impl View for ScheduleSyncAction {
    type V = ScheduleSyncCommand;

    open spec fn view(&self) -> ScheduleSyncCommand {
        match self {
            ScheduleSyncAction::GetUsername => ScheduleSyncCommand::GetUsername,
            ScheduleSyncAction::DownloadSchedules => ScheduleSyncCommand::DownloadSchedules,
            ScheduleSyncAction::LoadLinks { username } => ScheduleSyncCommand::LoadLinks {
                username: username@,
            },
            ScheduleSyncAction::FindLocalId { index, username } => ScheduleSyncCommand::FindLocalId {
                index: *index,
                username: username@,
            },
            ScheduleSyncAction::InsertGroup { recipe_id, members } =>
                ScheduleSyncCommand::InsertGroup { recipe_id: *recipe_id, members: as_ints(members@) },
            ScheduleSyncAction::InsertLink { link } => ScheduleSyncCommand::InsertLink {
                link: link@,
            },
            ScheduleSyncAction::DeleteLink { position } => ScheduleSyncCommand::DeleteLink {
                position: *position as int,
            },
            ScheduleSyncAction::DeleteSchedule { local_id } => ScheduleSyncCommand::DeleteSchedule {
                local_id: *local_id,
            },
            ScheduleSyncAction::LoadLocalOnly => ScheduleSyncCommand::LoadLocalOnly,
            ScheduleSyncAction::UploadGroup { recipe_id, members } =>
                ScheduleSyncCommand::UploadGroup { recipe_id: *recipe_id, members: as_ints(members@) },
            ScheduleSyncAction::Complete => ScheduleSyncCommand::Complete,
            ScheduleSyncAction::Fail { message } => ScheduleSyncCommand::Fail { message: message@ },
            ScheduleSyncAction::Ignore => ScheduleSyncCommand::Ignore,
        }
    }
}

/// Upload the `next`-th group of local schedules, or finish after the last.
pub open spec fn schedule_uploads_after(v: ScheduleSyncView, next: int) -> (
    ScheduleSyncView,
    ScheduleSyncCommand,
) {
    if 0 <= next < v.local_groups.len() {
        (
            ScheduleSyncView { stage: ScheduleSyncStage::AwaitUpload { group: next as u64 }, ..v },
            ScheduleSyncCommand::UploadGroup {
                recipe_id: v.local_groups[next].0,
                members: v.local_groups[next].1,
            },
        )
    } else {
        (ScheduleSyncView { stage: ScheduleSyncStage::Finished, ..v }, ScheduleSyncCommand::Complete)
    }
}

/// Delete the `next`-th stale link, or, after the last, read the local
/// schedules without a link.
pub open spec fn stale_after(v: ScheduleSyncView, next: int) -> (ScheduleSyncView, ScheduleSyncCommand) {
    if 0 <= next < v.stale.len() {
        (
            ScheduleSyncView { stage: ScheduleSyncStage::AwaitLinkDelete { done: next as u64 }, ..v },
            ScheduleSyncCommand::DeleteLink { position: v.stale[next] },
        )
    } else {
        (
            ScheduleSyncView { stage: ScheduleSyncStage::AwaitLocalOnly, ..v },
            ScheduleSyncCommand::LoadLocalOnly,
        )
    }
}

/// Insert the `next`-th group, or, after the last, delete the stale links.
pub open spec fn group_inserts_after(v: ScheduleSyncView, next: int) -> (
    ScheduleSyncView,
    ScheduleSyncCommand,
) {
    if 0 <= next < v.groups.len() {
        (
            ScheduleSyncView { stage: ScheduleSyncStage::AwaitInsert { group: next as u64 }, ..v },
            ScheduleSyncCommand::InsertGroup {
                recipe_id: v.groups[next].0,
                members: v.groups[next].1,
            },
        )
    } else {
        stale_after(ScheduleSyncView { stale: stale_choice(v.links, v.cloud_ids), ..v }, 0)
    }
}

/// Record the `next`-th pending link of the `group`-th group, or, after the
/// last, insert the next group.
pub open spec fn link_inserts_after(v: ScheduleSyncView, group: int, next: int) -> (
    ScheduleSyncView,
    ScheduleSyncCommand,
) {
    if 0 <= next < v.pending.len() {
        (
            ScheduleSyncView {
                stage: ScheduleSyncStage::AwaitLinkInsert { group: group as u64, done: next as u64 },
                ..v
            },
            ScheduleSyncCommand::InsertLink { link: v.pending[next] },
        )
    } else {
        group_inserts_after(v, group + 1)
    }
}

/// Look up the local recipe of the `next`-th downloaded schedule, or, after
/// the last, group the schedules by local recipe and insert the groups.
pub open spec fn lookups_after(v: ScheduleSyncView, next: int) -> (
    ScheduleSyncView,
    ScheduleSyncCommand,
) {
    if 0 <= next < v.cloud_ids.len() {
        (
            ScheduleSyncView { stage: ScheduleSyncStage::AwaitLocalId { done: next as u64 }, ..v },
            ScheduleSyncCommand::FindLocalId { index: next as u64, username: v.username },
        )
    } else {
        group_inserts_after(ScheduleSyncView { groups: grouping(v.local_ids), ..v }, 0)
    }
}

/// The keys of the local schedules without a link: each has its recipe.
pub open spec fn some_keys(recipe_ids: Seq<i64>) -> Seq<Option<i64>> {
    recipe_ids.map_values(|id: i64| Some(id))
}

/// The synchronisation of the schedules, step by step: find the account;
/// download the schedules of the server; read the links of the account; look
/// up the local recipe of each downloaded schedule; for each local recipe
/// (in the order in which they first occur), insert its downloaded schedules
/// and record a link for each inserted schedule; delete every link whose
/// cloud schedule was not downloaded, with its local schedule; finally
/// upload the local schedules without a link, grouped by recipe. Downloaded
/// schedules without a local recipe are passed over. Any error ends it with
/// its message.
pub open spec fn schedule_sync_next(v: ScheduleSyncView, event: ScheduleSyncEvent) -> (
    ScheduleSyncView,
    ScheduleSyncCommand,
) {
    match (v.stage, event) {
        (ScheduleSyncStage::AwaitUsername, ScheduleSyncEvent::Username(Ok(name))) => (
            ScheduleSyncView { stage: ScheduleSyncStage::AwaitDownload, username: name@, ..v },
            ScheduleSyncCommand::DownloadSchedules,
        ),
        (ScheduleSyncStage::AwaitDownload, ScheduleSyncEvent::Downloaded(Ok(ids))) => (
            ScheduleSyncView {
                stage: ScheduleSyncStage::AwaitLinks,
                cloud_ids: views(ids@),
                local_ids: Seq::empty(),
                ..v
            },
            ScheduleSyncCommand::LoadLinks { username: v.username },
        ),
        (ScheduleSyncStage::AwaitLinks, ScheduleSyncEvent::Links(Ok(links))) => lookups_after(
            ScheduleSyncView { links: link_views(links@), local_ids: Seq::empty(), ..v },
            0,
        ),
        (ScheduleSyncStage::AwaitLocalId { done }, ScheduleSyncEvent::LocalIdFound(Ok(id))) =>
            lookups_after(ScheduleSyncView { local_ids: v.local_ids.push(id), ..v }, done + 1),
        (ScheduleSyncStage::AwaitInsert { group }, ScheduleSyncEvent::Inserted(Ok(ids))) =>
            link_inserts_after(
                ScheduleSyncView {
                    pending: link_records(
                        member_cloud_ids(v.cloud_ids, v.groups[group as int].1),
                        ids@,
                        v.username,
                    ),
                    ..v
                },
                group as int,
                0,
            ),
        (
            ScheduleSyncStage::AwaitLinkInsert { group, done },
            ScheduleSyncEvent::LinkInserted(Ok(())),
        ) => link_inserts_after(v, group as int, done + 1),
        (ScheduleSyncStage::AwaitLinkDelete { done }, ScheduleSyncEvent::LinkDeleted(Ok(()))) => (
            ScheduleSyncView { stage: ScheduleSyncStage::AwaitScheduleDelete { done }, ..v },
            ScheduleSyncCommand::DeleteSchedule { local_id: v.links[v.stale[done as int]].local_id },
        ),
        (
            ScheduleSyncStage::AwaitScheduleDelete { done },
            ScheduleSyncEvent::ScheduleDeleted(Ok(())),
        ) => stale_after(v, done + 1),
        (ScheduleSyncStage::AwaitLocalOnly, ScheduleSyncEvent::LocalOnly(Ok(recipe_ids))) =>
            schedule_uploads_after(
                ScheduleSyncView {
                    local_only: recipe_ids@,
                    local_groups: grouping(some_keys(recipe_ids@)),
                    ..v
                },
                0,
            ),
        (ScheduleSyncStage::AwaitUpload { group }, ScheduleSyncEvent::Uploaded(Ok(()))) =>
            schedule_uploads_after(v, group + 1),
        (ScheduleSyncStage::AwaitUsername, ScheduleSyncEvent::Username(Err(e)))
        | (ScheduleSyncStage::AwaitDownload, ScheduleSyncEvent::Downloaded(Err(e)))
        | (ScheduleSyncStage::AwaitLinks, ScheduleSyncEvent::Links(Err(e)))
        | (ScheduleSyncStage::AwaitLocalId { .. }, ScheduleSyncEvent::LocalIdFound(Err(e)))
        | (ScheduleSyncStage::AwaitInsert { .. }, ScheduleSyncEvent::Inserted(Err(e)))
        | (ScheduleSyncStage::AwaitLinkInsert { .. }, ScheduleSyncEvent::LinkInserted(Err(e)))
        | (ScheduleSyncStage::AwaitLinkDelete { .. }, ScheduleSyncEvent::LinkDeleted(Err(e)))
        | (
            ScheduleSyncStage::AwaitScheduleDelete { .. },
            ScheduleSyncEvent::ScheduleDeleted(Err(e)),
        )
        | (ScheduleSyncStage::AwaitLocalOnly, ScheduleSyncEvent::LocalOnly(Err(e)))
        | (ScheduleSyncStage::AwaitUpload { .. }, ScheduleSyncEvent::Uploaded(Err(e))) => (
            ScheduleSyncView { stage: ScheduleSyncStage::Finished, ..v },
            ScheduleSyncCommand::Fail { message: e@ },
        ),
        _ => (v, ScheduleSyncCommand::Ignore),
    }
}

/// The stages after all local recipes were looked up.
pub open spec fn after_lookups(stage: ScheduleSyncStage) -> bool {
    ||| stage is AwaitInsert
    ||| stage is AwaitLinkInsert
    ||| stage is AwaitLinkDelete
    ||| stage is AwaitScheduleDelete
    ||| stage is AwaitLocalOnly
    ||| stage is AwaitUpload
}

/// The well-formedness of a synchronisation of the schedules: the lookups
/// follow the downloaded schedules one by one; once they are done the groups
/// are the grouping of the local recipes found, the pending links are those
/// of the current group, the stale links are exactly the links whose cloud
/// schedule was not downloaded, and every cursor lies within its list.
pub open spec fn schedule_sync_wf(v: ScheduleSyncView) -> bool {
    &&& v.cloud_ids.len() <= usize::MAX
    &&& v.links.len() <= usize::MAX
    &&& v.groups.len() <= usize::MAX
    &&& v.pending.len() <= usize::MAX
    &&& v.stale.len() <= usize::MAX
    &&& v.local_only.len() <= usize::MAX
    &&& v.local_groups.len() <= usize::MAX
    &&& v.local_ids.len() <= v.cloud_ids.len()
    &&& v.stage matches ScheduleSyncStage::AwaitLocalId { done } ==> done == v.local_ids.len()
        && done < v.cloud_ids.len()
    &&& after_lookups(v.stage) ==> {
        &&& v.local_ids.len() == v.cloud_ids.len()
        &&& v.groups == grouping(v.local_ids)
    }
    &&& v.stage matches ScheduleSyncStage::AwaitInsert { group } ==> group < v.groups.len()
    &&& v.stage matches ScheduleSyncStage::AwaitLinkInsert { group, done } ==> group
        < v.groups.len() && done < v.pending.len() && pending_ok(v)
    &&& (v.stage is AwaitLinkDelete || v.stage is AwaitScheduleDelete || v.stage is AwaitLocalOnly
        || v.stage is AwaitUpload) ==> v.stale == stale_choice(v.links, v.cloud_ids)
    &&& v.stage matches ScheduleSyncStage::AwaitLinkDelete { done } ==> done < v.stale.len()
    &&& v.stage matches ScheduleSyncStage::AwaitScheduleDelete { done } ==> done < v.stale.len()
    &&& v.stage matches ScheduleSyncStage::AwaitUpload { group } ==> group < v.local_groups.len()
        && v.local_groups == grouping(some_keys(v.local_only))
}

/// A synchronisation of the schedules that has not begun: it waits for the
/// account and knows nothing yet.
pub open spec fn schedule_sync_initial() -> ScheduleSyncView {
    ScheduleSyncView {
        stage: ScheduleSyncStage::AwaitUsername,
        username: Seq::empty(),
        cloud_ids: Seq::empty(),
        links: Seq::empty(),
        local_ids: Seq::empty(),
        groups: Seq::empty(),
        pending: Seq::empty(),
        stale: Seq::empty(),
        local_only: Seq::empty(),
        local_groups: Seq::empty(),
    }
}

/// Starts the synchronisation of the schedules.
pub fn schedule_sync_start() -> (r: (ScheduleSync, ScheduleSyncAction))
    ensures
        r.0@ == schedule_sync_initial(),
        schedule_sync_wf(r.0@),
        r.1@ == ScheduleSyncCommand::GetUsername,
{
    let v = ScheduleSync {
        stage: ScheduleSyncStage::AwaitUsername,
        username: String::new(),
        cloud_ids: Vec::new(),
        links: Vec::new(),
        local_ids: Vec::new(),
        groups: Vec::new(),
        pending: Vec::new(),
        stale: Vec::new(),
        local_only: Vec::new(),
        local_groups: Vec::new(),
    };
    assert(v@.cloud_ids =~= Seq::empty());
    assert(v@.links =~= Seq::empty());
    assert(v@.local_ids =~= Seq::empty());
    assert(v@.groups =~= Seq::empty());
    assert(v@.pending =~= Seq::empty());
    assert(v@.stale =~= Seq::empty());
    assert(v@.local_only =~= Seq::empty());
    assert(v@.local_groups =~= Seq::empty());
    assert(v@ == schedule_sync_initial());
    (v, ScheduleSyncAction::GetUsername)
}

fn copy_indices(v: &Vec<usize>) -> (r: Vec<usize>)
    ensures
        r@ == v@,
{
    let mut r: Vec<usize> = Vec::new();
    let mut i: usize = 0;
    while i < v.len()
        invariant
            i <= v.len(),
            r@ == v@.take(i as int),
        decreases v.len() - i,
    {
        r.push(v[i]);
        assert(r@ =~= v@.take(i as int + 1));
        i = i + 1;
    }
    assert(v@.take(v.len() as int) =~= v@);
    r
}

fn copy_link(l: &ScheduleCloudId) -> (r: ScheduleCloudId)
    ensures
        r@ == l@,
{
    ScheduleCloudId {
        local_id: l.local_id,
        cloud_id: match &l.cloud_id {
            Some(c) => Some(c.clone()),
            None => None,
        },
        username: match &l.username {
            Some(u) => Some(u.clone()),
            None => None,
        },
    }
}

fn cloud_ids_of(cloud_ids: &Vec<String>, members: &Vec<usize>) -> (r: Vec<String>)
    requires
        forall|k: int| 0 <= k < members@.len() ==> members@[k] < cloud_ids@.len(),
    ensures
        views(r@) == member_cloud_ids(views(cloud_ids@), as_ints(members@)),
{
    let mut r: Vec<String> = Vec::new();
    let mut i: usize = 0;
    while i < members.len()
        invariant
            i <= members.len(),
            forall|k: int| 0 <= k < members@.len() ==> members@[k] < cloud_ids@.len(),
            r@.len() == i,
            views(r@) == member_cloud_ids(views(cloud_ids@), as_ints(members@)).take(i as int),
        decreases members.len() - i,
    {
        let c = cloud_ids[members[i]].clone();
        let ghost before = r@;
        r.push(c);
        assert forall|j: int| 0 <= j < i implies views(r@)[j] == views(before)[j] by {
            assert(r@[j] == before[j]);
        }
        assert(views(r@) =~= member_cloud_ids(views(cloud_ids@), as_ints(members@)).take(
            i as int + 1,
        ));
        i = i + 1;
    }
    assert(member_cloud_ids(views(cloud_ids@), as_ints(members@)).take(members.len() as int)
        =~= member_cloud_ids(views(cloud_ids@), as_ints(members@)));
    r
}

fn exec_schedule_uploads_after(v: ScheduleSync, next: u64) -> (r: (ScheduleSync, ScheduleSyncAction))
    ensures
        (r.0@, r.1@) == schedule_uploads_after(v@, next as int),
{
    if next < v.local_groups.len() as u64 {
        let recipe_id = v.local_groups[next as usize].key;
        let members = copy_indices(&v.local_groups[next as usize].members);
        (
            ScheduleSync { stage: ScheduleSyncStage::AwaitUpload { group: next }, ..v },
            ScheduleSyncAction::UploadGroup { recipe_id, members },
        )
    } else {
        (ScheduleSync { stage: ScheduleSyncStage::Finished, ..v }, ScheduleSyncAction::Complete)
    }
}

fn exec_stale_after(v: ScheduleSync, next: u64) -> (r: (ScheduleSync, ScheduleSyncAction))
    ensures
        (r.0@, r.1@) == stale_after(v@, next as int),
{
    if next < v.stale.len() as u64 {
        let position = v.stale[next as usize];
        (
            ScheduleSync { stage: ScheduleSyncStage::AwaitLinkDelete { done: next }, ..v },
            ScheduleSyncAction::DeleteLink { position },
        )
    } else {
        (
            ScheduleSync { stage: ScheduleSyncStage::AwaitLocalOnly, ..v },
            ScheduleSyncAction::LoadLocalOnly,
        )
    }
}

fn exec_group_inserts_after(v: ScheduleSync, next: u64) -> (r: (ScheduleSync, ScheduleSyncAction))
    ensures
        (r.0@, r.1@) == group_inserts_after(v@, next as int),
{
    if next < v.groups.len() as u64 {
        let recipe_id = v.groups[next as usize].key;
        let members = copy_indices(&v.groups[next as usize].members);
        (
            ScheduleSync { stage: ScheduleSyncStage::AwaitInsert { group: next }, ..v },
            ScheduleSyncAction::InsertGroup { recipe_id, members },
        )
    } else {
        let stale = stale_schedule_links(v.links.as_slice(), v.cloud_ids.as_slice());
        exec_stale_after(ScheduleSync { stale, ..v }, 0)
    }
}

fn exec_link_inserts_after(v: ScheduleSync, group: u64, next: u64) -> (r: (
    ScheduleSync,
    ScheduleSyncAction,
))
    ensures
        (r.0@, r.1@) == link_inserts_after(v@, group as int, next as int),
{
    if next < v.pending.len() as u64 {
        let link = copy_link(&v.pending[next as usize]);
        (
            ScheduleSync { stage: ScheduleSyncStage::AwaitLinkInsert { group, done: next }, ..v },
            ScheduleSyncAction::InsertLink { link },
        )
    } else if group < u64::MAX {
        exec_group_inserts_after(v, group + 1)
    } else {
        assert(v@.groups.len() == v.groups.len());
        exec_group_inserts_after(v, group)
    }
}

fn exec_lookups_after(v: ScheduleSync, next: u64) -> (r: (ScheduleSync, ScheduleSyncAction))
    ensures
        (r.0@, r.1@) == lookups_after(v@, next as int),
{
    if next < v.cloud_ids.len() as u64 {
        let username = v.username.clone();
        (
            ScheduleSync { stage: ScheduleSyncStage::AwaitLocalId { done: next }, ..v },
            ScheduleSyncAction::FindLocalId { index: next, username },
        )
    } else {
        let groups = group_schedules(v.local_ids.as_slice());
        exec_group_inserts_after(ScheduleSync { groups, ..v }, 0)
    }
}

fn recipe_keys(recipe_ids: &Vec<i64>) -> (r: Vec<Option<i64>>)
    ensures
        r@ == some_keys(recipe_ids@),
{
    let mut r: Vec<Option<i64>> = Vec::new();
    let mut i: usize = 0;
    while i < recipe_ids.len()
        invariant
            i <= recipe_ids.len(),
            r@ == some_keys(recipe_ids@).take(i as int),
        decreases recipe_ids.len() - i,
    {
        r.push(Some(recipe_ids[i]));
        assert(r@ =~= some_keys(recipe_ids@).take(i as int + 1));
        i = i + 1;
    }
    assert(some_keys(recipe_ids@).take(recipe_ids.len() as int) =~= some_keys(recipe_ids@));
    r
}

/// Advances the synchronisation of the schedules by one event.
pub fn schedule_sync_step(v: ScheduleSync, event: ScheduleSyncEvent) -> (r: (
    ScheduleSync,
    ScheduleSyncAction,
))
    requires
        schedule_sync_wf(v@),
    ensures
        (r.0@, r.1@) == schedule_sync_next(v@, event),
        schedule_sync_wf(r.0@),
{
    proof {
        lemma_schedule_sync_keeps_wf(v@, event);
    }
    match (v.stage, event) {
        (ScheduleSyncStage::AwaitUsername, ScheduleSyncEvent::Username(Ok(name))) => (
            ScheduleSync { stage: ScheduleSyncStage::AwaitDownload, username: name, ..v },
            ScheduleSyncAction::DownloadSchedules,
        ),
        (ScheduleSyncStage::AwaitDownload, ScheduleSyncEvent::Downloaded(Ok(ids))) => {
            let username = v.username.clone();
            let local_ids: Vec<Option<i64>> = Vec::new();
            proof {
                assert(local_ids@ =~= Seq::<Option<i64>>::empty());
            }
            (
                ScheduleSync { stage: ScheduleSyncStage::AwaitLinks, cloud_ids: ids, local_ids, ..v },
                ScheduleSyncAction::LoadLinks { username },
            )
        },
        (ScheduleSyncStage::AwaitLinks, ScheduleSyncEvent::Links(Ok(links))) => {
            let local_ids: Vec<Option<i64>> = Vec::new();
            proof {
                assert(local_ids@ =~= Seq::<Option<i64>>::empty());
            }
            exec_lookups_after(ScheduleSync { links, local_ids, ..v }, 0)
        },
        (ScheduleSyncStage::AwaitLocalId { done }, ScheduleSyncEvent::LocalIdFound(Ok(id))) => {
            let n = v.cloud_ids.len();
            assert(v@.cloud_ids.len() == n);
            let mut local_ids = v.local_ids;
            local_ids.push(id);
            exec_lookups_after(ScheduleSync { local_ids, ..v }, done + 1)
        },
        (ScheduleSyncStage::AwaitInsert { group }, ScheduleSyncEvent::Inserted(Ok(ids))) => {
            let ng = v.groups.len();
            assert(v@.groups.len() == ng);
            let g = group as usize;
            proof {
                lemma_grouping_members_in_range(v@.local_ids);
                assert forall|k: int| 0 <= k < v.groups@[g as int].members@.len() implies v.groups@[
                    g as int].members@[k] < v.cloud_ids@.len() by {
                    assert(v@.groups[g as int].1[k] == v.groups@[g as int].members@[k]);
                }
            }
            let ids_of_group = cloud_ids_of(&v.cloud_ids, &v.groups[g].members);
            let pending = schedule_links(ids_of_group.as_slice(), ids.as_slice(), &v.username);
            exec_link_inserts_after(ScheduleSync { pending, ..v }, group, 0)
        },
        (
            ScheduleSyncStage::AwaitLinkInsert { group, done },
            ScheduleSyncEvent::LinkInserted(Ok(())),
        ) => {
            let n = v.pending.len();
            assert(v@.pending.len() == n);
            exec_link_inserts_after(v, group, done + 1)
        },
        (ScheduleSyncStage::AwaitLinkDelete { done }, ScheduleSyncEvent::LinkDeleted(Ok(()))) => {
            let n = v.stale.len();
            assert(v@.stale.len() == n);
            proof {
                lemma_matching_indices(
                    v@.links.len(),
                    |i: int| link_is_stale(v@.links[i], v@.cloud_ids),
                );
                assert(v@.stale[done as int] == v.stale@[done as int] as int);
            }
            let local_id = v.links[v.stale[done as usize]].local_id;
            (
                ScheduleSync { stage: ScheduleSyncStage::AwaitScheduleDelete { done }, ..v },
                ScheduleSyncAction::DeleteSchedule { local_id },
            )
        },
        (
            ScheduleSyncStage::AwaitScheduleDelete { done },
            ScheduleSyncEvent::ScheduleDeleted(Ok(())),
        ) => {
            let n = v.stale.len();
            assert(v@.stale.len() == n);
            exec_stale_after(v, done + 1)
        },
        (ScheduleSyncStage::AwaitLocalOnly, ScheduleSyncEvent::LocalOnly(Ok(recipe_ids))) => {
            let keys = recipe_keys(&recipe_ids);
            let local_groups = group_schedules(keys.as_slice());
            exec_schedule_uploads_after(ScheduleSync { local_only: recipe_ids, local_groups, ..v }, 0)
        },
        (ScheduleSyncStage::AwaitUpload { group }, ScheduleSyncEvent::Uploaded(Ok(()))) =>
        {
            let n = v.local_groups.len();
            assert(v@.local_groups.len() == n);
            exec_schedule_uploads_after(v, group + 1)
        },
        (ScheduleSyncStage::AwaitUsername, ScheduleSyncEvent::Username(Err(e)))
        | (ScheduleSyncStage::AwaitDownload, ScheduleSyncEvent::Downloaded(Err(e)))
        | (ScheduleSyncStage::AwaitLinks, ScheduleSyncEvent::Links(Err(e)))
        | (ScheduleSyncStage::AwaitLocalId { .. }, ScheduleSyncEvent::LocalIdFound(Err(e)))
        | (ScheduleSyncStage::AwaitInsert { .. }, ScheduleSyncEvent::Inserted(Err(e)))
        | (ScheduleSyncStage::AwaitLinkInsert { .. }, ScheduleSyncEvent::LinkInserted(Err(e)))
        | (ScheduleSyncStage::AwaitLinkDelete { .. }, ScheduleSyncEvent::LinkDeleted(Err(e)))
        | (
            ScheduleSyncStage::AwaitScheduleDelete { .. },
            ScheduleSyncEvent::ScheduleDeleted(Err(e)),
        )
        | (ScheduleSyncStage::AwaitLocalOnly, ScheduleSyncEvent::LocalOnly(Err(e)))
        | (ScheduleSyncStage::AwaitUpload { .. }, ScheduleSyncEvent::Uploaded(Err(e))) => (
            ScheduleSync { stage: ScheduleSyncStage::Finished, ..v },
            ScheduleSyncAction::Fail { message: e },
        ),
        (_, _) => (v, ScheduleSyncAction::Ignore),
    }
}

/// Every pending link ties a local schedule to a cloud schedule for the
/// account.
pub open spec fn pending_ok(v: ScheduleSyncView) -> bool {
    forall|k: int|
        0 <= k < v.pending.len() ==> {
            &&& (#[trigger] v.pending[k]).local_id is Some
            &&& v.pending[k].cloud_id is Some
            &&& v.pending[k].username == Some(v.username)
        }
}

/// The facts that hold once all local recipes were looked up.
pub open spec fn looked_up(v: ScheduleSyncView) -> bool {
    &&& v.cloud_ids.len() <= usize::MAX
    &&& v.links.len() <= usize::MAX
    &&& v.groups.len() <= usize::MAX
    &&& v.pending.len() <= usize::MAX
    &&& v.local_only.len() <= usize::MAX
    &&& v.local_groups.len() <= usize::MAX
    &&& v.stale.len() <= usize::MAX
    &&& v.local_ids.len() == v.cloud_ids.len()
    &&& v.groups == grouping(v.local_ids)
}

proof fn lemma_uploads_after_wf(v: ScheduleSyncView, next: int)
    requires
        looked_up(v),
        v.stale == stale_choice(v.links, v.cloud_ids),
        v.local_groups == grouping(some_keys(v.local_only)),
        0 <= next,
    ensures
        schedule_sync_wf(schedule_uploads_after(v, next).0),
{
}

proof fn lemma_stale_after_wf(v: ScheduleSyncView, next: int)
    requires
        looked_up(v),
        v.stale == stale_choice(v.links, v.cloud_ids),
        0 <= next,
    ensures
        schedule_sync_wf(stale_after(v, next).0),
{
}

proof fn lemma_group_inserts_after_wf(v: ScheduleSyncView, next: int)
    requires
        looked_up(v),
        0 <= next,
    ensures
        schedule_sync_wf(group_inserts_after(v, next).0),
{
    if next >= v.groups.len() {
        lemma_matching_indices_len(v.links.len(), |i: int| link_is_stale(v.links[i], v.cloud_ids));
        lemma_stale_after_wf(ScheduleSyncView { stale: stale_choice(v.links, v.cloud_ids), ..v }, 0);
    }
}

proof fn lemma_link_inserts_after_wf(v: ScheduleSyncView, group: int, next: int)
    requires
        looked_up(v),
        pending_ok(v),
        0 <= group < v.groups.len(),
        0 <= next,
    ensures
        schedule_sync_wf(link_inserts_after(v, group, next).0),
{
    if next >= v.pending.len() {
        lemma_group_inserts_after_wf(v, group + 1);
    }
}

proof fn lemma_lookups_after_wf(v: ScheduleSyncView, next: int)
    requires
        v.cloud_ids.len() <= usize::MAX,
        v.links.len() <= usize::MAX,
        v.pending.len() <= usize::MAX,
        v.local_only.len() <= usize::MAX,
        v.local_groups.len() <= usize::MAX,
        v.stale.len() <= usize::MAX,
        v.groups.len() <= usize::MAX,
        v.local_ids.len() == next <= v.cloud_ids.len(),
    ensures
        schedule_sync_wf(lookups_after(v, next).0),
{
    if next >= v.cloud_ids.len() {
        lemma_distinct_keys_len(v.local_ids);
        lemma_group_inserts_after_wf(ScheduleSyncView { groups: grouping(v.local_ids), ..v }, 0);
    }
}

/// Every step keeps [`schedule_sync_wf`].
pub proof fn lemma_schedule_sync_keeps_wf(v: ScheduleSyncView, event: ScheduleSyncEvent)
    requires
        schedule_sync_wf(v),
    ensures
        schedule_sync_wf(schedule_sync_next(v, event).0),
{
    match (v.stage, event) {
        (ScheduleSyncStage::AwaitDownload, ScheduleSyncEvent::Downloaded(Ok(ids))) => {
            assert(ids@.len() == ids.len());
        },
        (ScheduleSyncStage::AwaitLinks, ScheduleSyncEvent::Links(Ok(links))) => {
            assert(links@.len() == links.len());
            lemma_lookups_after_wf(
                ScheduleSyncView { links: link_views(links@), local_ids: Seq::empty(), ..v },
                0,
            );
        },
        (ScheduleSyncStage::AwaitLocalId { done }, ScheduleSyncEvent::LocalIdFound(Ok(id))) => {
            lemma_lookups_after_wf(
                ScheduleSyncView { local_ids: v.local_ids.push(id), ..v },
                done + 1,
            );
        },
        (ScheduleSyncStage::AwaitInsert { group }, ScheduleSyncEvent::Inserted(Ok(ids))) => {
            assert(ids@.len() == ids.len());
            lemma_link_inserts_after_wf(
                ScheduleSyncView {
                    pending: link_records(
                        member_cloud_ids(v.cloud_ids, v.groups[group as int].1),
                        ids@,
                        v.username,
                    ),
                    ..v
                },
                group as int,
                0,
            );
        },
        (
            ScheduleSyncStage::AwaitLinkInsert { group, done },
            ScheduleSyncEvent::LinkInserted(Ok(())),
        ) => {
            lemma_link_inserts_after_wf(v, group as int, done + 1);
        },
        (
            ScheduleSyncStage::AwaitScheduleDelete { done },
            ScheduleSyncEvent::ScheduleDeleted(Ok(())),
        ) => {
            lemma_stale_after_wf(v, done + 1);
        },
        (ScheduleSyncStage::AwaitLocalOnly, ScheduleSyncEvent::LocalOnly(Ok(recipe_ids))) => {
            assert(recipe_ids@.len() == recipe_ids.len());
            lemma_distinct_keys_len(some_keys(recipe_ids@));
            lemma_uploads_after_wf(
                ScheduleSyncView {
                    local_only: recipe_ids@,
                    local_groups: grouping(some_keys(recipe_ids@)),
                    ..v
                },
                0,
            );
        },
        (ScheduleSyncStage::AwaitUpload { group }, ScheduleSyncEvent::Uploaded(Ok(()))) => {
            lemma_uploads_after_wf(v, group + 1);
        },
        _ => {},
    }
}

/// What the synchronisation of the schedules changes is what it should: a
/// group of downloaded schedules is inserted only for the local recipe that
/// every one of them belongs to; each recorded link ties an inserted local
/// schedule to a downloaded cloud schedule for the account; a link is
/// deleted only if its cloud schedule was not downloaded, and the schedule
/// then deleted is the one of that link; an uploaded group holds only local
/// schedules of its recipe.
pub proof fn lemma_schedule_sync_targets(v: ScheduleSyncView, event: ScheduleSyncEvent)
    requires
        schedule_sync_wf(v),
    ensures
        schedule_sync_next(v, event).1 matches ScheduleSyncCommand::InsertGroup { recipe_id, members }
            ==> forall|k: int|
            0 <= k < members.len() ==> {
                let w = schedule_sync_next(v, event).0;
                &&& 0 <= #[trigger] members[k] < w.local_ids.len()
                &&& w.local_ids[members[k]] == Some(recipe_id)
            },
        schedule_sync_next(v, event).1 matches ScheduleSyncCommand::InsertLink { link } ==> {
            &&& link.local_id is Some
            &&& link.cloud_id is Some
            &&& link.username == Some(schedule_sync_next(v, event).0.username)
        },
        schedule_sync_next(v, event).1 matches ScheduleSyncCommand::DeleteLink { position } ==> {
            let w = schedule_sync_next(v, event).0;
            &&& 0 <= position < w.links.len()
            &&& link_is_stale(w.links[position], w.cloud_ids)
        },
        schedule_sync_next(v, event).1 matches ScheduleSyncCommand::DeleteSchedule { local_id } ==> (
        v.stage matches ScheduleSyncStage::AwaitLinkDelete { done } && local_id
            == v.links[v.stale[done as int]].local_id),
        schedule_sync_next(v, event).1 matches ScheduleSyncCommand::UploadGroup { recipe_id, members }
            ==> forall|k: int|
            0 <= k < members.len() ==> {
                let w = schedule_sync_next(v, event).0;
                &&& 0 <= #[trigger] members[k] < w.local_only.len()
                &&& w.local_only[members[k]] == recipe_id
            },
{
    let w = schedule_sync_next(v, event).0;
    lemma_schedule_sync_keeps_wf(v, event);
    lemma_matching_indices(w.links.len(), |i: int| link_is_stale(w.links[i], w.cloud_ids));
    if let ScheduleSyncCommand::InsertGroup { recipe_id, members } = schedule_sync_next(v, event).1 {
        let g = w.stage->AwaitInsert_group as int;
        let keys = w.local_ids;
        assert(w.groups == grouping(keys));
        lemma_matching_indices(keys.len(), |j: int| keys[j] == Some(distinct_keys(keys)[g]));
    }
    if let ScheduleSyncCommand::UploadGroup { recipe_id, members } = schedule_sync_next(v, event).1 {
        let g = w.stage->AwaitUpload_group as int;
        let keys = some_keys(w.local_only);
        assert(w.local_groups == grouping(keys));
        lemma_matching_indices(keys.len(), |j: int| keys[j] == Some(distinct_keys(keys)[g]));
    }
}

/// How far a synchronisation of the schedules is from its end: its phase,
/// then, within the phase, the groups or links still to handle.
pub open spec fn schedule_sync_measure(v: ScheduleSyncView) -> (int, int, int, int) {
    match v.stage {
        ScheduleSyncStage::AwaitUsername => (10, 0, 0, 0),
        ScheduleSyncStage::AwaitDownload => (9, 0, 0, 0),
        ScheduleSyncStage::AwaitLinks => (8, 0, 0, 0),
        ScheduleSyncStage::AwaitLocalId { done } => (7, v.cloud_ids.len() - done, 0, 0),
        ScheduleSyncStage::AwaitInsert { group } => (6, v.groups.len() - group, 1, 0),
        ScheduleSyncStage::AwaitLinkInsert { group, done } => (
            6,
            v.groups.len() - group,
            0,
            v.pending.len() - done,
        ),
        ScheduleSyncStage::AwaitLinkDelete { done } => (5, 2 * (v.stale.len() - done), 0, 0),
        ScheduleSyncStage::AwaitScheduleDelete { done } => (5, 2 * (v.stale.len() - done) - 1, 0, 0),
        ScheduleSyncStage::AwaitLocalOnly => (4, 0, 0, 0),
        ScheduleSyncStage::AwaitUpload { group } => (3, v.local_groups.len() - group, 0, 0),
        ScheduleSyncStage::Finished => (0, 0, 0, 0),
    }
}

/// The lexicographic order on measures.
pub open spec fn measure_below(x: (int, int, int, int), y: (int, int, int, int)) -> bool {
    ||| x.0 < y.0
    ||| (x.0 == y.0 && x.1 < y.1)
    ||| (x.0 == y.0 && x.1 == y.1 && x.2 < y.2)
    ||| (x.0 == y.0 && x.1 == y.1 && x.2 == y.2 && x.3 < y.3)
}

/// A synchronisation of the schedules ends: each event is either ignored,
/// leaving it as it was, or lowers its measure, which stays non-negative.
pub proof fn lemma_schedule_sync_progress(v: ScheduleSyncView, event: ScheduleSyncEvent)
    requires
        schedule_sync_wf(v),
    ensures
        schedule_sync_next(v, event).1 is Ignore ==> schedule_sync_next(v, event).0 == v,
        !(schedule_sync_next(v, event).1 is Ignore) ==> measure_below(
            schedule_sync_measure(schedule_sync_next(v, event).0),
            schedule_sync_measure(v),
        ),
        schedule_sync_measure(v).0 >= 0 && schedule_sync_measure(v).1 >= 0
            && schedule_sync_measure(v).2 >= 0 && schedule_sync_measure(v).3 >= 0,
{
    lemma_schedule_sync_keeps_wf(v, event);
}


/// How the clean-up of the stale links begins, once every group was
/// inserted: the links whose cloud schedule was not downloaded are the stale
/// ones; the first of them is deleted, or, with none, the local schedules
/// without a link are read.
pub open spec fn stale_cleanup_begins(v: ScheduleSyncView) -> (ScheduleSyncView, ScheduleSyncCommand) {
    let s = stale_choice(v.links, v.cloud_ids);
    if 0 < s.len() {
        (
            ScheduleSyncView { stage: ScheduleSyncStage::AwaitLinkDelete { done: 0 }, stale: s, ..v },
            ScheduleSyncCommand::DeleteLink { position: s[0] },
        )
    } else {
        (
            ScheduleSyncView { stage: ScheduleSyncStage::AwaitLocalOnly, stale: s, ..v },
            ScheduleSyncCommand::LoadLocalOnly,
        )
    }
}

/// Each step of inserting the downloaded schedules: after the local recipe
/// of the last downloaded schedule was found, the schedules are grouped by
/// recipe and the first group is inserted; after a group `g` was inserted,
/// the links of its inserted schedules are recorded one by one, in order,
/// and after the last of them (or at once when there is none) the group
/// `g + 1` is inserted, or, after the last group, the clean-up of the stale
/// links begins. Nothing else of the state changes.
pub proof fn lemma_schedule_sync_group_steps(v: ScheduleSyncView, event: ScheduleSyncEvent)
    ensures
        v.stage matches ScheduleSyncStage::AwaitLocalId { done } ==> (
        event matches ScheduleSyncEvent::LocalIdFound(Ok(id)) ==> {
            let ids = v.local_ids.push(id);
            let g = grouping(ids);
            schedule_sync_next(v, event) == if done + 1 < v.cloud_ids.len() {
                (
                    ScheduleSyncView {
                        stage: ScheduleSyncStage::AwaitLocalId { done: (done + 1) as u64 },
                        local_ids: ids,
                        ..v
                    },
                    ScheduleSyncCommand::FindLocalId {
                        index: (done + 1) as u64,
                        username: v.username,
                    },
                )
            } else if 0 < g.len() {
                (
                    ScheduleSyncView {
                        stage: ScheduleSyncStage::AwaitInsert { group: 0 },
                        local_ids: ids,
                        groups: g,
                        ..v
                    },
                    ScheduleSyncCommand::InsertGroup { recipe_id: g[0].0, members: g[0].1 },
                )
            } else {
                stale_cleanup_begins(ScheduleSyncView { local_ids: ids, groups: g, ..v })
            }
        }),
        v.stage matches ScheduleSyncStage::AwaitInsert { group } ==> (
        event matches ScheduleSyncEvent::Inserted(Ok(ids)) ==> {
            let p = link_records(
                member_cloud_ids(v.cloud_ids, v.groups[group as int].1),
                ids@,
                v.username,
            );
            schedule_sync_next(v, event) == if 0 < p.len() {
                (
                    ScheduleSyncView {
                        stage: ScheduleSyncStage::AwaitLinkInsert { group, done: 0 },
                        pending: p,
                        ..v
                    },
                    ScheduleSyncCommand::InsertLink { link: p[0] },
                )
            } else if group + 1 < v.groups.len() {
                (
                    ScheduleSyncView {
                        stage: ScheduleSyncStage::AwaitInsert { group: (group + 1) as u64 },
                        pending: p,
                        ..v
                    },
                    ScheduleSyncCommand::InsertGroup {
                        recipe_id: v.groups[group + 1].0,
                        members: v.groups[group + 1].1,
                    },
                )
            } else {
                stale_cleanup_begins(ScheduleSyncView { pending: p, ..v })
            }
        }),
        v.stage matches ScheduleSyncStage::AwaitLinkInsert { group, done } ==> (event
            == ScheduleSyncEvent::LinkInserted(Ok(())) ==> schedule_sync_next(v, event) == if done + 1
            < v.pending.len() {
            (
                ScheduleSyncView {
                    stage: ScheduleSyncStage::AwaitLinkInsert { group, done: (done + 1) as u64 },
                    ..v
                },
                ScheduleSyncCommand::InsertLink { link: v.pending[done + 1] },
            )
        } else if group + 1 < v.groups.len() {
            (
                ScheduleSyncView {
                    stage: ScheduleSyncStage::AwaitInsert { group: (group + 1) as u64 },
                    ..v
                },
                ScheduleSyncCommand::InsertGroup {
                    recipe_id: v.groups[group + 1].0,
                    members: v.groups[group + 1].1,
                },
            )
        } else {
            stale_cleanup_begins(v)
        }),
{
}

/// The state and the last command after `n` links were each recorded
/// successfully, starting from `s`.
pub open spec fn link_steps(s: (ScheduleSyncView, ScheduleSyncCommand), n: nat) -> (
    ScheduleSyncView,
    ScheduleSyncCommand,
)
    decreases n,
{
    if n == 0 {
        s
    } else {
        schedule_sync_next(link_steps(s, (n - 1) as nat).0, ScheduleSyncEvent::LinkInserted(Ok(())))
    }
}

/// One group handled with success: its schedules are inserted, receiving
/// the local ids `ids`, and each of its links is then recorded.
pub open spec fn group_round(v: ScheduleSyncView, ids: Vec<i64>) -> (
    ScheduleSyncView,
    ScheduleSyncCommand,
) {
    let s = schedule_sync_next(v, ScheduleSyncEvent::Inserted(Ok(ids)));
    link_steps(s, s.0.pending.len())
}

/// The state and the last command after `k` groups were each handled with
/// success, the `j`-th receiving the local ids `ids[j]`.
pub open spec fn group_rounds(v: ScheduleSyncView, ids: Seq<Vec<i64>>, k: nat) -> (
    ScheduleSyncView,
    ScheduleSyncCommand,
)
    decreases k,
{
    if k == 0 {
        (v, ScheduleSyncCommand::Ignore)
    } else {
        group_round(group_rounds(v, ids, (k - 1) as nat).0, ids[k - 1])
    }
}

proof fn lemma_link_steps(s: (ScheduleSyncView, ScheduleSyncCommand), group: u64, n: nat)
    requires
        schedule_sync_wf(s.0),
        s.0.stage == (ScheduleSyncStage::AwaitLinkInsert { group, done: 0 }),
        n <= s.0.pending.len(),
    ensures
        schedule_sync_wf(link_steps(s, n).0),
        0 < n < s.0.pending.len() ==> link_steps(s, n).0 == (ScheduleSyncView {
            stage: ScheduleSyncStage::AwaitLinkInsert { group, done: n as u64 },
            ..s.0
        }),
        n == 0 ==> link_steps(s, n) == s,
        n == s.0.pending.len() ==> link_steps(s, n) == if group + 1 < s.0.groups.len() {
            (
                ScheduleSyncView {
                    stage: ScheduleSyncStage::AwaitInsert { group: (group + 1) as u64 },
                    ..s.0
                },
                ScheduleSyncCommand::InsertGroup {
                    recipe_id: s.0.groups[group + 1].0,
                    members: s.0.groups[group + 1].1,
                },
            )
        } else {
            stale_cleanup_begins(s.0)
        },
    decreases n,
{
    if n > 0 {
        lemma_link_steps(s, group, (n - 1) as nat);
        let w = link_steps(s, (n - 1) as nat).0;
        lemma_schedule_sync_group_steps(w, ScheduleSyncEvent::LinkInserted(Ok(())));
        lemma_schedule_sync_keeps_wf(w, ScheduleSyncEvent::LinkInserted(Ok(())));
        if n == 1 {
            assert(w == s.0);
        }
    }
}

/// Handling one group with success: from the insertion of group `g`, once
/// its schedules are inserted and all of its links recorded, group `g + 1`
/// is inserted next, or, after the last group, the clean-up of the stale
/// links begins; the schedules, groups, links and account stay as they were.
pub proof fn lemma_schedule_sync_group_round(v: ScheduleSyncView, group: u64, ids: Vec<i64>)
    requires
        schedule_sync_wf(v),
        v.stage == (ScheduleSyncStage::AwaitInsert { group }),
    ensures
        schedule_sync_wf(group_round(v, ids).0),
        group_round(v, ids).0.groups == v.groups,
        group_round(v, ids).0.cloud_ids == v.cloud_ids,
        group_round(v, ids).0.local_ids == v.local_ids,
        group_round(v, ids).0.links == v.links,
        group_round(v, ids).0.username == v.username,
        group + 1 < v.groups.len() ==> group_round(v, ids).0.stage == (ScheduleSyncStage::AwaitInsert {
            group: (group + 1) as u64,
        }),
        group + 1 < v.groups.len() ==> group_round(v, ids).1 == (ScheduleSyncCommand::InsertGroup {
            recipe_id: v.groups[group + 1].0,
            members: v.groups[group + 1].1,
        }),
        group + 1 >= v.groups.len() ==> group_round(v, ids) == stale_cleanup_begins(
            ScheduleSyncView { pending: group_round(v, ids).0.pending, ..v },
        ),
{
    let e = ScheduleSyncEvent::Inserted(Ok(ids));
    let s = schedule_sync_next(v, e);
    lemma_schedule_sync_group_steps(v, e);
    lemma_schedule_sync_keeps_wf(v, e);
    if 0 < s.0.pending.len() {
        lemma_link_steps(s, group, s.0.pending.len());
    }
}

/// Every group of downloaded schedules is inserted, once each and in order:
/// from the insertion of the first group, after `k` groups were handled with
/// success the `k`-th group is inserted next (for `k` below the number of
/// groups), and after all of them the clean-up of the stale links begins.
pub proof fn lemma_schedule_sync_inserts_every_group(
    v: ScheduleSyncView,
    ids: Seq<Vec<i64>>,
    k: nat,
)
    requires
        schedule_sync_wf(v),
        v.stage == (ScheduleSyncStage::AwaitInsert { group: 0 }),
        k <= v.groups.len(),
        k <= ids.len(),
    ensures
        schedule_sync_wf(group_rounds(v, ids, k).0),
        group_rounds(v, ids, k).0.groups == v.groups,
        group_rounds(v, ids, k).0.cloud_ids == v.cloud_ids,
        group_rounds(v, ids, k).0.links == v.links,
        k < v.groups.len() ==> group_rounds(v, ids, k).0.stage == (ScheduleSyncStage::AwaitInsert {
            group: k as u64,
        }),
        0 < k < v.groups.len() ==> group_rounds(v, ids, k).1 == (ScheduleSyncCommand::InsertGroup {
            recipe_id: v.groups[k as int].0,
            members: v.groups[k as int].1,
        }),
        0 < k == v.groups.len() ==> group_rounds(v, ids, k).1 == (if 0 < stale_choice(
            v.links,
            v.cloud_ids,
        ).len() {
            ScheduleSyncCommand::DeleteLink { position: stale_choice(v.links, v.cloud_ids)[0] }
        } else {
            ScheduleSyncCommand::LoadLocalOnly
        }),
    decreases k,
{
    if k > 0 {
        lemma_schedule_sync_inserts_every_group(v, ids, (k - 1) as nat);
        let w = group_rounds(v, ids, (k - 1) as nat).0;
        lemma_schedule_sync_group_round(w, (k - 1) as u64, ids[k - 1]);
    }
}

/// Each step of the clean-up and of the uploads: after the link at the
/// `d`-th stale position was deleted, the local schedule of that link is
/// deleted; after that schedule, the next stale link is deleted, or, after
/// the last one, the local schedules without a link are read; these are
/// grouped by recipe and the first group is uploaded (or, with none, the
/// synchronisation completes); after uploading group `g` comes group `g + 1`,
/// and after the last group the synchronisation completes.
pub proof fn lemma_schedule_sync_cleanup_steps(v: ScheduleSyncView, event: ScheduleSyncEvent)
    ensures
        v.stage matches ScheduleSyncStage::AwaitLinkDelete { done } ==> (event
            == ScheduleSyncEvent::LinkDeleted(Ok(())) ==> schedule_sync_next(v, event) == (
            ScheduleSyncView { stage: ScheduleSyncStage::AwaitScheduleDelete { done }, ..v },
            ScheduleSyncCommand::DeleteSchedule { local_id: v.links[v.stale[done as int]].local_id },
        )),
        v.stage matches ScheduleSyncStage::AwaitScheduleDelete { done } ==> (event
            == ScheduleSyncEvent::ScheduleDeleted(Ok(())) ==> schedule_sync_next(v, event) == if done
            + 1 < v.stale.len() {
            (
                ScheduleSyncView {
                    stage: ScheduleSyncStage::AwaitLinkDelete { done: (done + 1) as u64 },
                    ..v
                },
                ScheduleSyncCommand::DeleteLink { position: v.stale[done + 1] },
            )
        } else {
            (
                ScheduleSyncView { stage: ScheduleSyncStage::AwaitLocalOnly, ..v },
                ScheduleSyncCommand::LoadLocalOnly,
            )
        }),
        v.stage == ScheduleSyncStage::AwaitLocalOnly ==> (
        event matches ScheduleSyncEvent::LocalOnly(Ok(recipe_ids)) ==> {
            let lg = grouping(some_keys(recipe_ids@));
            schedule_sync_next(v, event) == if 0 < lg.len() {
                (
                    ScheduleSyncView {
                        stage: ScheduleSyncStage::AwaitUpload { group: 0 },
                        local_only: recipe_ids@,
                        local_groups: lg,
                        ..v
                    },
                    ScheduleSyncCommand::UploadGroup { recipe_id: lg[0].0, members: lg[0].1 },
                )
            } else {
                (
                    ScheduleSyncView {
                        stage: ScheduleSyncStage::Finished,
                        local_only: recipe_ids@,
                        local_groups: lg,
                        ..v
                    },
                    ScheduleSyncCommand::Complete,
                )
            }
        }),
        v.stage matches ScheduleSyncStage::AwaitUpload { group } ==> (event
            == ScheduleSyncEvent::Uploaded(Ok(())) ==> schedule_sync_next(v, event) == if group + 1
            < v.local_groups.len() {
            (
                ScheduleSyncView {
                    stage: ScheduleSyncStage::AwaitUpload { group: (group + 1) as u64 },
                    ..v
                },
                ScheduleSyncCommand::UploadGroup {
                    recipe_id: v.local_groups[group + 1].0,
                    members: v.local_groups[group + 1].1,
                },
            )
        } else {
            (ScheduleSyncView { stage: ScheduleSyncStage::Finished, ..v }, ScheduleSyncCommand::Complete)
        }),
{
}

} // verus!
