use cookycardz::lists::{
    collect_some_strings, contains_string, first_occurrences, group_by_key, indices_with_key,
    KeyGroup,
};
use cookycardz::schedules::{
    group_schedules, repeat_or_none, schedule_links, schedule_sync_start, schedule_sync_step,
    stale_schedule_links, ScheduleCloudId, ScheduleSyncAction, ScheduleSyncEvent,
    ScheduleSyncStage,
};

fn s(x: &str) -> String {
    x.to_string()
}

fn link(local: Option<i64>, cloud: Option<&str>) -> ScheduleCloudId {
    ScheduleCloudId { local_id: local, cloud_id: cloud.map(|c| c.to_string()), username: Some(s("ann")) }
}

fn keys_and_members(groups: &[KeyGroup]) -> Vec<(i64, Vec<usize>)> {
    groups.iter().map(|g| (g.key, g.members.clone())).collect()
}

#[test]
fn grouping_follows_first_occurrence() {
    let keys = vec![Some(7), None, Some(3), Some(7), Some(3), Some(9)];
    let groups = group_by_key(&keys);
    assert_eq!(keys_and_members(&groups), vec![(7, vec![0, 3]), (3, vec![2, 4]), (9, vec![5])]);
    assert_eq!(keys_and_members(&group_schedules(&keys)), keys_and_members(&groups));
    assert!(group_by_key(&[None, None]).is_empty());
}

#[test]
fn links_pair_as_far_as_both_lists_go() {
    let links = schedule_links(&[s("a"), s("b"), s("c")], &[10, 11], &s("ann"));
    assert_eq!(links.len(), 2);
    assert_eq!(links[0].local_id, Some(10));
    assert_eq!(links[0].cloud_id, Some(s("a")));
    assert_eq!(links[1].local_id, Some(11));
    assert_eq!(links[1].cloud_id, Some(s("b")));
    assert_eq!(links[1].username, Some(s("ann")));
    assert!(schedule_links(&[], &[1, 2], &s("ann")).is_empty());
}

#[test]
fn stale_links_are_those_the_server_lost() {
    let links = vec![link(Some(1), Some("x")), link(Some(2), None), link(Some(3), Some("y"))];
    assert_eq!(stale_schedule_links(&links, &[s("y")]), vec![0]);
    assert_eq!(stale_schedule_links(&links, &[s("x"), s("y")]), Vec::<usize>::new());
}

#[test]
fn repeat_defaults_to_none() {
    assert_eq!(repeat_or_none(None), "none");
    assert_eq!(repeat_or_none(Some(s("weekly"))), "weekly");
}

#[test]
fn schedule_sync_scenario() {
    let (v, a) = schedule_sync_start();
    assert!(matches!(a, ScheduleSyncAction::GetUsername));
    let (v, a) = schedule_sync_step(v, ScheduleSyncEvent::Username(Ok(s("ann"))));
    assert!(matches!(a, ScheduleSyncAction::DownloadSchedules));
    let (v, a) = schedule_sync_step(v, ScheduleSyncEvent::Downloaded(Ok(vec![s("s1"), s("s2"), s("s3")])));
    assert!(matches!(a, ScheduleSyncAction::LoadLinks { .. }));
    let links = vec![link(Some(50), Some("gone")), link(Some(51), Some("s2"))];
    let (v, a) = schedule_sync_step(v, ScheduleSyncEvent::Links(Ok(links)));
    assert!(matches!(a, ScheduleSyncAction::FindLocalId { index: 0, .. }));
    let (v, _) = schedule_sync_step(v, ScheduleSyncEvent::LocalIdFound(Ok(Some(4))));
    let (v, _) = schedule_sync_step(v, ScheduleSyncEvent::LocalIdFound(Ok(None)));
    let (v, a) = schedule_sync_step(v, ScheduleSyncEvent::LocalIdFound(Ok(Some(4))));
    match a {
        ScheduleSyncAction::InsertGroup { recipe_id, members } => {
            assert_eq!(recipe_id, 4);
            assert_eq!(members, vec![0, 2]);
        },
        _ => panic!(),
    }
    let (v, a) = schedule_sync_step(v, ScheduleSyncEvent::Inserted(Ok(vec![100, 101])));
    match a {
        ScheduleSyncAction::InsertLink { link } => {
            assert_eq!(link.local_id, Some(100));
            assert_eq!(link.cloud_id, Some(s("s1")));
            assert_eq!(link.username, Some(s("ann")));
        },
        _ => panic!(),
    }
    let (v, a) = schedule_sync_step(v, ScheduleSyncEvent::LinkInserted(Ok(())));
    match a {
        ScheduleSyncAction::InsertLink { link } => {
            assert_eq!(link.local_id, Some(101));
            assert_eq!(link.cloud_id, Some(s("s3")));
        },
        _ => panic!(),
    }
    let (v, a) = schedule_sync_step(v, ScheduleSyncEvent::LinkInserted(Ok(())));
    assert!(matches!(a, ScheduleSyncAction::DeleteLink { position: 0 }));
    let (v, a) = schedule_sync_step(v, ScheduleSyncEvent::LinkDeleted(Ok(())));
    assert!(matches!(a, ScheduleSyncAction::DeleteSchedule { local_id: Some(50) }));
    let (v, a) = schedule_sync_step(v, ScheduleSyncEvent::ScheduleDeleted(Ok(())));
    assert!(matches!(a, ScheduleSyncAction::LoadLocalOnly));
    let (v, a) = schedule_sync_step(v, ScheduleSyncEvent::LocalOnly(Ok(vec![8, 9, 8])));
    match a {
        ScheduleSyncAction::UploadGroup { recipe_id, members } => {
            assert_eq!(recipe_id, 8);
            assert_eq!(members, vec![0, 2]);
        },
        _ => panic!(),
    }
    let (v, a) = schedule_sync_step(v, ScheduleSyncEvent::Uploaded(Ok(())));
    match a {
        ScheduleSyncAction::UploadGroup { recipe_id, members } => {
            assert_eq!(recipe_id, 9);
            assert_eq!(members, vec![1]);
        },
        _ => panic!(),
    }
    let (v, a) = schedule_sync_step(v, ScheduleSyncEvent::Uploaded(Ok(())));
    assert!(matches!(a, ScheduleSyncAction::Complete));
    assert_eq!(v.stage, ScheduleSyncStage::Finished);
}

#[test]
fn schedule_sync_stops_on_errors() {
    let (v, _) = schedule_sync_start();
    let (v, _) = schedule_sync_step(v, ScheduleSyncEvent::Username(Ok(s("ann"))));
    let (v, a) = schedule_sync_step(v, ScheduleSyncEvent::Downloaded(Err(s("offline"))));
    match a {
        ScheduleSyncAction::Fail { message } => assert_eq!(message, "offline"),
        _ => panic!(),
    }
    assert_eq!(v.stage, ScheduleSyncStage::Finished);
}

#[test]
fn list_helpers() {
    let keys = vec![Some(2), Some(1), None, Some(2)];
    assert_eq!(first_occurrences(&keys), vec![2, 1]);
    assert_eq!(indices_with_key(&keys, 2), vec![0, 3]);
    assert_eq!(indices_with_key(&keys, 5), Vec::<usize>::new());
    assert!(contains_string(&[s("a"), s("b")], &s("b")));
    assert!(!contains_string(&[s("a")], &s("c")));
    assert_eq!(collect_some_strings(&[None, Some(s("x"))]), vec![s("x")]);
}
