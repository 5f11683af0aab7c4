use cookycardz::recipes::{
    cloud_parent_ids, last_synced_since, local_id_from_row, recipe_sync_start, recipe_sync_step,
    recipes_with_dead_cloud_parent, recipes_without_cloud_parent, stored_recipes,
    update_local_start, update_local_step, RecipeRef, RecipeSyncAction, RecipeSyncEvent,
    RecipeSyncStage, UpdateLocalAction, UpdateLocalEvent, UpdateLocalStage,
};
use cookycardz::sync::{sync_data_outcome, sync_start, sync_step, SyncAction, SyncEvent, SyncStage};
use cookycardz::tags::{tag_sync_start, tag_sync_step, tags_to_delete, TagSyncAction, TagSyncEvent};

fn s(x: &str) -> String {
    x.to_string()
}

fn recipe(id: Option<i64>, parent: Option<&str>) -> RecipeRef {
    RecipeRef { id, cloud_parent_id: parent.map(|p| p.to_string()) }
}

#[test]
fn full_sync_runs_every_part_then_stamps() {
    let (r, a) = sync_start();
    assert!(matches!(a, SyncAction::GetUsername));
    let (r, a) = sync_step(r, SyncEvent::Username(Ok(s("ann"))));
    assert!(matches!(a, SyncAction::SyncRecipes));
    let (r, a) = sync_step(r, SyncEvent::RecipesSynced(Ok(())));
    assert!(matches!(a, SyncAction::SyncTags));
    let (r, a) = sync_step(r, SyncEvent::TagsSynced(Ok(())));
    assert!(matches!(a, SyncAction::SyncSchedules));
    let (r, a) = sync_step(r, SyncEvent::SchedulesSynced(Ok(())));
    match a {
        SyncAction::Stamp { username } => assert_eq!(username, "ann"),
        _ => panic!(),
    }
    let (r, a) = sync_step(r, SyncEvent::Stamped(Ok(())));
    assert!(matches!(a, SyncAction::Complete));
    assert_eq!(r.stage, SyncStage::Finished);
}

#[test]
fn full_sync_without_an_account_does_nothing() {
    let (r, _) = sync_start();
    let (r, a) = sync_step(r, SyncEvent::Username(Err(s("Not logged in"))));
    assert!(matches!(a, SyncAction::Complete));
    assert_eq!(r.stage, SyncStage::Finished);
}

#[test]
fn full_sync_stops_at_the_first_failure() {
    let (r, _) = sync_start();
    let (r, _) = sync_step(r, SyncEvent::Username(Ok(s("ann"))));
    let (r, _) = sync_step(r, SyncEvent::RecipesSynced(Ok(())));
    let (r, a) = sync_step(r, SyncEvent::TagsSynced(Err(s("tags broke"))));
    match a {
        SyncAction::Fail { message } => assert_eq!(message, "tags broke"),
        _ => panic!(),
    }
    let (_, a) = sync_step(r, SyncEvent::SchedulesSynced(Ok(())));
    assert!(matches!(a, SyncAction::Ignore));
}

#[test]
fn sync_data_hides_the_cause() {
    assert_eq!(sync_data_outcome(Ok(())), Ok(()));
    assert_eq!(sync_data_outcome(Err(s("boom"))), Err(s("Error syncing data")));
}

#[test]
fn recipe_selections() {
    let local = vec![
        recipe(Some(1), Some("c1")),
        recipe(Some(2), None),
        recipe(None, Some("c3")),
        recipe(Some(4), Some("c4")),
        recipe(None, None),
    ];
    assert_eq!(cloud_parent_ids(&local), vec![s("c1"), s("c3"), s("c4")]);
    assert_eq!(recipes_with_dead_cloud_parent(&local, &[s("c3"), s("c4")]), vec![3]);
    assert_eq!(recipes_without_cloud_parent(&local), vec![1]);
    assert_eq!(stored_recipes(&local), vec![0, 1, 3]);
}

#[test]
fn last_synced_defaults_to_the_epoch() {
    assert_eq!(last_synced_since(None), 0);
    assert_eq!(last_synced_since(Some(None)), 0);
    assert_eq!(last_synced_since(Some(Some(1_700_000_000_000_000_000))), 1_700_000_000_000_000_000);
}

#[test]
fn local_id_rows() {
    assert_eq!(local_id_from_row(None), None);
    assert_eq!(local_id_from_row(Some(None)), None);
    assert_eq!(local_id_from_row(Some(Some(9))), Some(9));
}

#[test]
fn recipe_sync_scenario() {
    let (v, a) = recipe_sync_start();
    assert!(matches!(a, RecipeSyncAction::GetUsername));
    let (v, a) = recipe_sync_step(v, RecipeSyncEvent::Username(Ok(s("ann"))));
    match a {
        RecipeSyncAction::LoadLocalRecipes { username } => assert_eq!(username, "ann"),
        _ => panic!(),
    }
    let local = vec![recipe(Some(1), Some("c1")), recipe(Some(2), None), recipe(Some(3), Some("c3"))];
    let (v, a) = recipe_sync_step(v, RecipeSyncEvent::LocalRecipes(Ok(local)));
    match a {
        RecipeSyncAction::DownloadNew { excluded } => assert_eq!(excluded, vec![s("c1"), s("c3")]),
        _ => panic!(),
    }
    let (v, a) = recipe_sync_step(v, RecipeSyncEvent::NewRecipes(Ok(1)));
    assert!(matches!(a, RecipeSyncAction::ConvertImage { index: 0 }));
    let (v, a) = recipe_sync_step(v, RecipeSyncEvent::ImageConverted(Ok(Some(s("img.png")))));
    match a {
        RecipeSyncAction::InsertRecipe { index, image_path, username } => {
            assert_eq!(index, 0);
            assert_eq!(image_path, Some(s("img.png")));
            assert_eq!(username, "ann");
        },
        _ => panic!(),
    }
    let (v, a) = recipe_sync_step(v, RecipeSyncEvent::Inserted(Ok(())));
    match a {
        RecipeSyncAction::DownloadMissing { ids } => assert_eq!(ids, vec![s("c1"), s("c3")]),
        _ => panic!(),
    }
    let (v, a) = recipe_sync_step(v, RecipeSyncEvent::Missing(Ok(vec![s("c3")])));
    assert!(matches!(a, RecipeSyncAction::DeleteRecipe { position: 2 }));
    let (v, a) = recipe_sync_step(v, RecipeSyncEvent::Deleted(Ok(())));
    assert!(matches!(a, RecipeSyncAction::UploadRecipe { position: 1 }));
    let (v, a) = recipe_sync_step(v, RecipeSyncEvent::Uploaded(Ok(())));
    assert!(matches!(a, RecipeSyncAction::LoadLastSynced { .. }));
    let (v, a) = recipe_sync_step(v, RecipeSyncEvent::LastSynced(Ok(None)));
    match a {
        RecipeSyncAction::LoadChanged { username, since } => {
            assert_eq!(username, "ann");
            assert_eq!(since, 0);
        },
        _ => panic!(),
    }
    let changed = vec![recipe(None, None), recipe(Some(7), Some("c7"))];
    let (v, a) = recipe_sync_step(v, RecipeSyncEvent::Changed(Ok(changed)));
    assert!(matches!(a, RecipeSyncAction::UpdateRemote { position: 1 }));
    let (v, a) = recipe_sync_step(v, RecipeSyncEvent::RemoteUpdated(Ok(())));
    assert!(matches!(a, RecipeSyncAction::DownloadChanged { since: 0 }));
    let (v, a) = recipe_sync_step(v, RecipeSyncEvent::ChangedOnServer(Ok(2)));
    assert!(matches!(a, RecipeSyncAction::UpdateLocal { index: 0 }));
    let (v, a) = recipe_sync_step(v, RecipeSyncEvent::LocalUpdated(Ok(())));
    assert!(matches!(a, RecipeSyncAction::UpdateLocal { index: 1 }));
    let (v, a) = recipe_sync_step(v, RecipeSyncEvent::LocalUpdated(Ok(())));
    assert!(matches!(a, RecipeSyncAction::Complete));
    assert_eq!(v.stage, RecipeSyncStage::Finished);
}

#[test]
fn recipe_sync_with_nothing_to_do() {
    let (v, _) = recipe_sync_start();
    let (v, _) = recipe_sync_step(v, RecipeSyncEvent::Username(Ok(s("ann"))));
    let (v, _) = recipe_sync_step(v, RecipeSyncEvent::LocalRecipes(Ok(vec![])));
    let (v, a) = recipe_sync_step(v, RecipeSyncEvent::NewRecipes(Ok(0)));
    assert!(matches!(a, RecipeSyncAction::DownloadMissing { .. }));
    let (v, a) = recipe_sync_step(v, RecipeSyncEvent::Missing(Ok(vec![])));
    assert!(matches!(a, RecipeSyncAction::LoadLastSynced { .. }));
    let (v, a) = recipe_sync_step(v, RecipeSyncEvent::LastSynced(Ok(Some(Some(42)))));
    assert!(matches!(a, RecipeSyncAction::LoadChanged { since: 42, .. }));
    let (v, a) = recipe_sync_step(v, RecipeSyncEvent::Changed(Ok(vec![])));
    assert!(matches!(a, RecipeSyncAction::DownloadChanged { since: 42 }));
    let (_, a) = recipe_sync_step(v, RecipeSyncEvent::ChangedOnServer(Err(s("offline"))));
    match a {
        RecipeSyncAction::Fail { message } => assert_eq!(message, "offline"),
        _ => panic!(),
    }
}

#[test]
fn update_local_recipe_scenarios() {
    let (st, a) = update_local_start();
    assert!(matches!(a, UpdateLocalAction::GetUsername));
    let (st, a) = update_local_step(st, UpdateLocalEvent::Username(Ok(s("ann"))));
    match a {
        UpdateLocalAction::FindLocalId { username } => assert_eq!(username, "ann"),
        _ => panic!(),
    }
    let (st2, a) = update_local_step(st, UpdateLocalEvent::LocalId(Ok(None)));
    assert!(matches!(a, UpdateLocalAction::Finish { updated: None }));
    assert_eq!(st2, UpdateLocalStage::Finished);
    let (st, a) = update_local_step(st, UpdateLocalEvent::LocalId(Ok(Some(5))));
    assert!(matches!(a, UpdateLocalAction::ConvertImage));
    let (st, a) = update_local_step(st, UpdateLocalEvent::ImageConverted(Ok(None)));
    assert!(matches!(a, UpdateLocalAction::Update { local_id: 5, image_path: None }));
    let (_, a) = update_local_step(st, UpdateLocalEvent::Updated(Ok(())));
    assert!(matches!(a, UpdateLocalAction::Finish { updated: Some(5) }));
}

#[test]
fn tag_selection() {
    let local = vec![Some(s("soup")), None, Some(s("cake")), Some(s("bread"))];
    let downloaded = vec![Some(s("cake")), None];
    assert_eq!(tags_to_delete(&local, &downloaded), vec![0, 3]);
    assert_eq!(tags_to_delete(&local, &[Some(s("soup")), Some(s("cake")), Some(s("bread"))]), Vec::<usize>::new());
}

#[test]
fn tag_sync_scenario() {
    let (t, a) = tag_sync_start();
    assert!(matches!(a, TagSyncAction::GetUsername));
    let (t, a) = tag_sync_step(t, TagSyncEvent::Username(Ok(s("ann"))));
    match a {
        TagSyncAction::LoadLocalTags { username } => assert_eq!(username, "ann"),
        _ => panic!(),
    }
    let (t, a) = tag_sync_step(t, TagSyncEvent::LocalTags(Ok(vec![Some(s("a")), Some(s("b")), Some(s("c"))])));
    assert!(matches!(a, TagSyncAction::DownloadTags));
    let (t, a) = tag_sync_step(t, TagSyncEvent::Downloaded(Ok(vec![Some(s("b"))])));
    assert!(matches!(a, TagSyncAction::DeleteTag { position: 0 }));
    let (t, a) = tag_sync_step(t, TagSyncEvent::Deleted(Ok(())));
    assert!(matches!(a, TagSyncAction::DeleteTag { position: 2 }));
    let (_, a) = tag_sync_step(t, TagSyncEvent::Deleted(Ok(())));
    assert!(matches!(a, TagSyncAction::Complete));
}
