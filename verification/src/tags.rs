//! Synchronisation of the local tags with the cloud: local tags whose name
//! the server no longer knows are deleted.

use vstd::prelude::*;
use crate::lists::{
    as_ints, collect_some_strings, contains_string, lemma_matching_indices,
    lemma_matching_indices_len, matching_indices,
    opt_view, some_views, views,
};

verus! {

/// The views of a list of optional strings.
pub open spec fn opt_views(s: Seq<Option<String>>) -> Seq<Option<Seq<char>>> {
    s.map_values(|o: Option<String>| opt_view(o))
}

/// A local tag to delete: it has a name, and no downloaded tag has that name.
pub open spec fn tag_is_gone(name: Option<Seq<char>>, downloaded: Seq<Seq<char>>) -> bool {
    name matches Some(n) && !downloaded.contains(n)
}

/// The positions of the local tags to delete, given the names of the local
/// tags and the names of the downloaded ones.
pub open spec fn doomed_tags(local: Seq<Option<Seq<char>>>, downloaded: Seq<Seq<char>>) -> Seq<int> {
    matching_indices(local.len(), |i: int| tag_is_gone(local[i], downloaded))
}

/// The positions of the local tags to delete: the named ones whose name is
/// not the name of any downloaded tag (downloaded tags without a name are
/// passed over).
pub fn tags_to_delete(local: &[Option<String>], downloaded: &[Option<String>]) -> (r: Vec<usize>)
    ensures
        as_ints(r@) == doomed_tags(opt_views(local@), some_views(downloaded@)),
        forall|i: int|
            0 <= i < local@.len() ==> (as_ints(r@).contains(i) <==> (local@[i] matches Some(n)
                && !some_views(downloaded@).contains(n@))),
        forall|k: int| 0 <= k < r@.len() ==> #[trigger] r@[k] < local@.len(),
        forall|k1: int, k2: int| 0 <= k1 < k2 < r@.len() ==> r@[k1] < r@[k2],
{
    let names = collect_some_strings(downloaded);
    let ghost p = |i: int| tag_is_gone(opt_views(local@)[i], some_views(downloaded@));
    let mut r: Vec<usize> = Vec::new();
    let mut i: usize = 0;
    while i < local.len()
        invariant
            i <= local.len(),
            views(names@) == some_views(downloaded@),
            p == (|i: int| tag_is_gone(opt_views(local@)[i], some_views(downloaded@))),
            as_ints(r@) == matching_indices(i as nat, p),
        decreases local.len() - i,
    {
        if let Some(name) = &local[i] {
            if !contains_string(names.as_slice(), name) {
                r.push(i);
            }
        }
        assert(as_ints(r@) =~= matching_indices(i as nat + 1, p));
        i = i + 1;
    }
    proof {
        let d = doomed_tags(opt_views(local@), some_views(downloaded@));
        assert(as_ints(r@) == d);
        assert(opt_views(local@).len() == local@.len());
        assert(as_ints(r@).len() == r@.len());
        lemma_doomed_tags_complete(opt_views(local@), some_views(downloaded@));
        assert forall|i: int| 0 <= i < local@.len() implies (as_ints(r@).contains(i) <==> (
        local@[i] matches Some(n) && !some_views(downloaded@).contains(n@))) by {
            assert(opt_views(local@)[i] == opt_view(local@[i]));
        }
        assert forall|k: int| 0 <= k < r@.len() implies #[trigger] r@[k] < local@.len() by {
            assert(as_ints(r@)[k] == r@[k] as int);
            assert(0 <= d[k] < opt_views(local@).len());
        }
        assert forall|k1: int, k2: int| 0 <= k1 < k2 < r@.len() implies r@[k1] < r@[k2] by {
            assert(as_ints(r@)[k1] == r@[k1] as int);
            assert(as_ints(r@)[k2] == r@[k2] as int);
        }
    }
    r
}

/// The doomed list is complete and in order: a position is in it exactly
/// when the local tag there has a name that is not among the downloaded
/// names; every position in it is a position of the local tags; and the
/// positions come in increasing order, each once.
pub proof fn lemma_doomed_tags_complete(local: Seq<Option<Seq<char>>>, downloaded: Seq<Seq<char>>)
    ensures
        forall|i: int|
            0 <= i < local.len() ==> (doomed_tags(local, downloaded).contains(i) <==> (
            local[i] matches Some(n) && !downloaded.contains(n))),
        forall|k: int|
            0 <= k < doomed_tags(local, downloaded).len() ==> 0 <= #[trigger] doomed_tags(
                local,
                downloaded,
            )[k] < local.len(),
        forall|k1: int, k2: int|
            0 <= k1 < k2 < doomed_tags(local, downloaded).len() ==> doomed_tags(local, downloaded)[k1]
                < doomed_tags(local, downloaded)[k2],
{
    lemma_matching_indices(local.len(), |i: int| tag_is_gone(local[i], downloaded));
}

/// A tag that the server still knows by its name is never deleted, and
/// neither is a tag without a name.
pub proof fn lemma_kept_tags(local: Seq<Option<Seq<char>>>, downloaded: Seq<Seq<char>>, k: int)
    requires
        0 <= k < doomed_tags(local, downloaded).len(),
    ensures
        local[doomed_tags(local, downloaded)[k]] matches Some(n) && !downloaded.contains(n),
        0 <= doomed_tags(local, downloaded)[k] < local.len(),
{
    lemma_matching_indices(local.len(), |i: int| tag_is_gone(local[i], downloaded));
}

/// Where the synchronisation of the tags stands.
#[derive(Clone, Copy, PartialEq, Eq, Structural, Debug)]
pub enum TagSyncStage {
    AwaitUsername,
    AwaitLocalTags,
    AwaitDownload,
    /// Deleting the `done`-th doomed tag.
    AwaitDelete { done: u64 },
    Finished,
}

/// The synchronisation of the tags in progress.
pub struct TagSync {
    pub stage: TagSyncStage,
    /// The names of the local tags.
    pub local: Vec<Option<String>>,
    /// The names of the tags on the server.
    pub downloaded: Vec<String>,
    /// The positions of the local tags to delete.
    pub doomed: Vec<usize>,
}

/// The mathematical form of [`TagSync`].
pub struct TagSyncView {
    pub stage: TagSyncStage,
    pub local: Seq<Option<Seq<char>>>,
    pub downloaded: Seq<Seq<char>>,
    pub doomed: Seq<int>,
}

impl View for TagSync {
    type V = TagSyncView;

    open spec fn view(&self) -> TagSyncView {
        TagSyncView {
            stage: self.stage,
            local: opt_views(self.local@),
            downloaded: views(self.downloaded@),
            doomed: as_ints(self.doomed@),
        }
    }
}

/// What the caller reports back to the synchronisation of the tags.
pub enum TagSyncEvent {
    Username(Result<String, String>),
    /// The names of the local tags of the account.
    LocalTags(Result<Vec<Option<String>>, String>),
    /// The names of the tags on the server.
    Downloaded(Result<Vec<Option<String>>, String>),
    Deleted(Result<(), String>),
}

/// What the synchronisation of the tags asks the caller to do next.
pub enum TagSyncAction {
    GetUsername,
    LoadLocalTags { username: String },
    DownloadTags,
    /// Delete the local tag at this position of the local tags.
    DeleteTag { position: usize },
    Complete,
    Fail { message: String },
    Ignore,
}

/// The mathematical form of [`TagSyncAction`].
pub enum TagSyncCommand {
    GetUsername,
    LoadLocalTags { username: Seq<char> },
    DownloadTags,
    DeleteTag { position: int },
    Complete,
    Fail { message: Seq<char> },
    Ignore,
}

impl View for TagSyncAction {
    type V = TagSyncCommand;

    open spec fn view(&self) -> TagSyncCommand {
        match self {
            TagSyncAction::GetUsername => TagSyncCommand::GetUsername,
            TagSyncAction::LoadLocalTags { username } => TagSyncCommand::LoadLocalTags {
                username: username@,
            },
            TagSyncAction::DownloadTags => TagSyncCommand::DownloadTags,
            TagSyncAction::DeleteTag { position } => TagSyncCommand::DeleteTag {
                position: *position as int,
            },
            TagSyncAction::Complete => TagSyncCommand::Complete,
            TagSyncAction::Fail { message } => TagSyncCommand::Fail { message: message@ },
            TagSyncAction::Ignore => TagSyncCommand::Ignore,
        }
    }
}

/// Delete the `next`-th doomed tag, or finish when there is none left.
pub open spec fn tags_after(t: TagSyncView, next: int) -> (TagSyncView, TagSyncCommand) {
    if 0 <= next < t.doomed.len() {
        (
            TagSyncView { stage: TagSyncStage::AwaitDelete { done: next as u64 }, ..t },
            TagSyncCommand::DeleteTag { position: t.doomed[next] },
        )
    } else {
        (TagSyncView { stage: TagSyncStage::Finished, ..t }, TagSyncCommand::Complete)
    }
}

/// The synchronisation of the tags, step by step: find the account, read its
/// local tags, download the tags of the server, then delete, in order, every
/// named local tag whose name the server does not have. Any error ends it
/// with its message.
pub open spec fn tag_sync_next(t: TagSyncView, event: TagSyncEvent) -> (TagSyncView, TagSyncCommand) {
    match (t.stage, event) {
        (TagSyncStage::AwaitUsername, TagSyncEvent::Username(Ok(name))) => (
            TagSyncView { stage: TagSyncStage::AwaitLocalTags, ..t },
            TagSyncCommand::LoadLocalTags { username: name@ },
        ),
        (TagSyncStage::AwaitLocalTags, TagSyncEvent::LocalTags(Ok(tags))) => (
            TagSyncView { stage: TagSyncStage::AwaitDownload, local: opt_views(tags@), ..t },
            TagSyncCommand::DownloadTags,
        ),
        (TagSyncStage::AwaitDownload, TagSyncEvent::Downloaded(Ok(names))) => tags_after(
            TagSyncView {
                downloaded: some_views(names@),
                doomed: doomed_tags(t.local, some_views(names@)),
                ..t
            },
            0,
        ),
        (TagSyncStage::AwaitDelete { done }, TagSyncEvent::Deleted(Ok(()))) => tags_after(
            t,
            done + 1,
        ),
        (TagSyncStage::AwaitUsername, TagSyncEvent::Username(Err(e)))
        | (TagSyncStage::AwaitLocalTags, TagSyncEvent::LocalTags(Err(e)))
        | (TagSyncStage::AwaitDownload, TagSyncEvent::Downloaded(Err(e)))
        | (TagSyncStage::AwaitDelete { .. }, TagSyncEvent::Deleted(Err(e))) => (
            TagSyncView { stage: TagSyncStage::Finished, ..t },
            TagSyncCommand::Fail { message: e@ },
        ),
        _ => (t, TagSyncCommand::Ignore),
    }
}

/// A synchronisation of the tags that has not begun: it waits for the
/// account and knows no tags yet.
pub open spec fn tag_sync_initial() -> TagSyncView {
    TagSyncView {
        stage: TagSyncStage::AwaitUsername,
        local: Seq::empty(),
        downloaded: Seq::empty(),
        doomed: Seq::empty(),
    }
}

/// Starts the synchronisation of the tags.
pub fn tag_sync_start() -> (r: (TagSync, TagSyncAction))
    ensures
        r.0@ == tag_sync_initial(),
        tag_sync_inv(r.0@),
        r.1@ == TagSyncCommand::GetUsername,
{
    let t = TagSync {
        stage: TagSyncStage::AwaitUsername,
        local: Vec::new(),
        downloaded: Vec::new(),
        doomed: Vec::new(),
    };
    assert(t@.downloaded =~= Seq::empty());
    assert(t@.local =~= Seq::empty());
    assert(t@.doomed =~= Seq::empty());
    assert(t@ == tag_sync_initial());
    (t, TagSyncAction::GetUsername)
}

fn tags_next_delete(t: TagSync, next: u64) -> (r: (TagSync, TagSyncAction))
    ensures
        (r.0@, r.1@) == tags_after(t@, next as int),
{
    if next < t.doomed.len() as u64 {
        let position = t.doomed[next as usize];
        (TagSync { stage: TagSyncStage::AwaitDelete { done: next }, ..t }, TagSyncAction::DeleteTag {
            position,
        })
    } else {
        (TagSync { stage: TagSyncStage::Finished, ..t }, TagSyncAction::Complete)
    }
}

/// Advances the synchronisation of the tags by one event.
pub fn tag_sync_step(t: TagSync, event: TagSyncEvent) -> (r: (TagSync, TagSyncAction))
    ensures
        (r.0@, r.1@) == tag_sync_next(t@, event),
{
    match (t.stage, event) {
        (TagSyncStage::AwaitUsername, TagSyncEvent::Username(Ok(name))) => (
            TagSync { stage: TagSyncStage::AwaitLocalTags, ..t },
            TagSyncAction::LoadLocalTags { username: name },
        ),
        (TagSyncStage::AwaitLocalTags, TagSyncEvent::LocalTags(Ok(tags))) => (
            TagSync { stage: TagSyncStage::AwaitDownload, local: tags, ..t },
            TagSyncAction::DownloadTags,
        ),
        (TagSyncStage::AwaitDownload, TagSyncEvent::Downloaded(Ok(names))) => {
            let doomed = tags_to_delete(t.local.as_slice(), names.as_slice());
            let downloaded = collect_some_strings(names.as_slice());
            tags_next_delete(TagSync { downloaded, doomed, ..t }, 0)
        },
        (TagSyncStage::AwaitDelete { done }, TagSyncEvent::Deleted(Ok(()))) => {
            if done < u64::MAX {
                tags_next_delete(t, done + 1)
            } else {
                assert(t@.doomed.len() == t.doomed.len());
                (TagSync { stage: TagSyncStage::Finished, ..t }, TagSyncAction::Complete)
            }
        },
        (TagSyncStage::AwaitUsername, TagSyncEvent::Username(Err(e)))
        | (TagSyncStage::AwaitLocalTags, TagSyncEvent::LocalTags(Err(e)))
        | (TagSyncStage::AwaitDownload, TagSyncEvent::Downloaded(Err(e)))
        | (TagSyncStage::AwaitDelete { .. }, TagSyncEvent::Deleted(Err(e))) => (
            TagSync { stage: TagSyncStage::Finished, ..t },
            TagSyncAction::Fail { message: e },
        ),
        (_, _) => (t, TagSyncAction::Ignore),
    }
}

/// What holds of every synchronisation of the tags: while deleting, the
/// doomed positions are exactly those of the named local tags whose name the
/// server does not have, and the cursor lies among them.
pub open spec fn tag_sync_inv(t: TagSyncView) -> bool {
    &&& t.local.len() <= usize::MAX
    &&& t.doomed.len() <= usize::MAX
    &&& t.stage matches TagSyncStage::AwaitDelete { done } ==> {
        &&& t.doomed == doomed_tags(t.local, t.downloaded)
        &&& done < t.doomed.len()
    }
}

/// Every step keeps [`tag_sync_inv`], a new synchronisation satisfies it,
/// and a tag is deleted only if it has a name that no tag of the server
/// has; the deletions follow the order of the local tags.
pub proof fn lemma_tag_sync_deletes_only_gone_tags(t: TagSyncView, event: TagSyncEvent)
    requires
        tag_sync_inv(t),
    ensures
        tag_sync_inv(tag_sync_next(t, event).0),
        tag_sync_next(t, event).1 matches TagSyncCommand::DeleteTag { position } ==> {
            &&& 0 <= position < t.local.len()
            &&& tag_sync_next(t, event).0.local == t.local
            &&& tag_is_gone(t.local[position], tag_sync_next(t, event).0.downloaded)
        },
        t.stage matches TagSyncStage::AwaitDelete { done } ==> (tag_sync_next(
            t,
            event,
        ).1 matches TagSyncCommand::DeleteTag { position } ==> t.doomed[done as int] < position),
{
    let next = tag_sync_next(t, event);
    if let TagSyncEvent::LocalTags(Ok(tags)) = event {
        assert(tags@.len() == tags.len());
    }
    lemma_matching_indices_len(next.0.local.len(), |i: int| tag_is_gone(next.0.local[i], next.0.downloaded));
    if next.1 is DeleteTag {
        lemma_matching_indices(next.0.local.len(), |i: int| tag_is_gone(next.0.local[i], next.0.downloaded));
    }
}

/// The phase of a synchronisation of the tags, counted down to its end.
pub open spec fn tag_sync_phase(stage: TagSyncStage) -> nat {
    match stage {
        TagSyncStage::AwaitUsername => 4,
        TagSyncStage::AwaitLocalTags => 3,
        TagSyncStage::AwaitDownload => 2,
        TagSyncStage::AwaitDelete { .. } => 1,
        TagSyncStage::Finished => 0,
    }
}

/// While deleting, how many deletions are left.
pub open spec fn tag_sync_remaining(t: TagSyncView) -> int {
    match t.stage {
        TagSyncStage::AwaitDelete { done } => t.doomed.len() - done,
        _ => 0,
    }
}

/// A synchronisation of the tags ends: each event is either ignored,
/// leaving it as it was, or moves it to an earlier phase, or leaves fewer
/// deletions to do.
pub proof fn lemma_tag_sync_progress(t: TagSyncView, event: TagSyncEvent)
    requires
        tag_sync_inv(t),
    ensures
        tag_sync_next(t, event).1 is Ignore ==> tag_sync_next(t, event).0 == t,
        !(tag_sync_next(t, event).1 is Ignore) ==> {
            let w = tag_sync_next(t, event).0;
            ||| tag_sync_phase(w.stage) < tag_sync_phase(t.stage)
            ||| (tag_sync_phase(w.stage) == tag_sync_phase(t.stage) && 0 <= tag_sync_remaining(w)
                < tag_sync_remaining(t))
        },
{
    lemma_tag_sync_deletes_only_gone_tags(t, event);
}

/// Each step of the deletions: once the tags of the server were downloaded,
/// the doomed positions are exactly those of the named local tags whose name
/// the server does not have, and the first of them is deleted (or, with
/// none, the synchronisation completes); after deleting the `d`-th doomed
/// tag comes the `d + 1`-th, and after the last one the synchronisation
/// completes.
pub proof fn lemma_tag_sync_delete_steps(t: TagSyncView, event: TagSyncEvent)
    ensures
        t.stage == TagSyncStage::AwaitDownload ==> (event matches TagSyncEvent::Downloaded(Ok(names))
            ==> {
            let w = tag_sync_next(t, event).0;
            &&& w.local == t.local
            &&& w.downloaded == some_views(names@)
            &&& forall|i: int|
                0 <= i < t.local.len() ==> (w.doomed.contains(i) <==> (t.local[i] matches Some(n)
                    && !some_views(names@).contains(n)))
            &&& tag_sync_next(t, event).1 == if 0 < w.doomed.len() {
                TagSyncCommand::DeleteTag { position: w.doomed[0] }
            } else {
                TagSyncCommand::Complete
            }
        }),
        t.stage matches TagSyncStage::AwaitDelete { done } ==> (event == TagSyncEvent::Deleted(
            Ok(()),
        ) ==> tag_sync_next(t, event) == if done + 1 < t.doomed.len() {
            (
                TagSyncView { stage: TagSyncStage::AwaitDelete { done: (done + 1) as u64 }, ..t },
                TagSyncCommand::DeleteTag { position: t.doomed[done + 1] },
            )
        } else {
            (TagSyncView { stage: TagSyncStage::Finished, ..t }, TagSyncCommand::Complete)
        }),
{
    if let TagSyncEvent::Downloaded(Ok(names)) = event {
        lemma_doomed_tags_complete(t.local, some_views(names@));
    }
}

} // verus!
