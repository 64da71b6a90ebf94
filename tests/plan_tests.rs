use sync_pw_sql_store::{
    IncomingChangeset, LocalLogin, Login, LoginDb, MirrorLogin, Payload, ServerTimestamp,
    SyncStatus, UpdatePlan,
};

fn login(id: &str, password: &str, changed: i64) -> Login {
    Login {
        id: id.to_string(),
        hostname: Some("https://h".to_string()),
        form_submit_url: Some("https://h/form".to_string()),
        http_realm: None,
        username: "u".to_string(),
        password: password.to_string(),
        username_field: "user".to_string(),
        password_field: "pass".to_string(),
        time_created: 1,
        time_password_changed: changed,
        time_last_used: Some(5),
        times_used: Some(2),
    }
}

#[test]
fn two_way_merge_plan_with_older_local_password() {
    let mut plan = UpdatePlan::new();
    plan.plan_two_way_merge(&login("L", "a", 10), (login("R", "b", 20), ServerTimestamp(70)));
    assert_eq!(plan.mirror_inserts.len(), 1);
    assert_eq!(plan.mirror_inserts[0].0.id, "R");
    assert_eq!(plan.mirror_inserts[0].1, 70);
    assert!(!plan.mirror_inserts[0].2);
    assert_eq!(plan.delete_local, vec!["L".to_string()]);
}

#[test]
fn two_way_merge_plan_with_newer_local_password() {
    let mut plan = UpdatePlan::new();
    plan.plan_two_way_merge(&login("L", "a", 30), (login("R", "b", 20), ServerTimestamp(70)));
    assert!(plan.mirror_inserts[0].2);
    assert!(plan.delete_local.is_empty());
}

#[test]
fn three_way_merge_plan_keeps_both_sides_changes() {
    let shared = MirrorLogin { login: login("A", "p", 1), is_overridden: true, server_modified: ServerTimestamp(5) };
    let mut mine = login("A", "p", 1);
    mine.username_field = "login".to_string();
    let local = LocalLogin { login: mine, sync_status: SyncStatus::Changed, is_deleted: false, local_modified: 900 };
    let theirs = login("A", "q", 40);
    let mut plan = UpdatePlan::new();
    plan.plan_three_way_merge(local, shared, theirs, ServerTimestamp(95), ServerTimestamp(100), 1000);
    assert_eq!(plan.mirror_updates.len(), 1);
    assert_eq!(plan.mirror_updates[0].0.password, "q");
    assert_eq!(plan.mirror_updates[0].1, 95);
    let merged = &plan.local_updates[0];
    assert_eq!(merged.login.username_field, "login");
    assert_eq!(merged.login.password, "q");
    assert_eq!(merged.login.time_password_changed, 40);
    assert!(merged.is_overridden);
    assert_eq!(merged.server_modified, ServerTimestamp(95));
}

#[test]
fn three_way_merge_plan_tie_prefers_local() {
    let shared = MirrorLogin { login: login("A", "p", 1), is_overridden: false, server_modified: ServerTimestamp(5) };
    let local = LocalLogin { login: login("A", "mine", 2), sync_status: SyncStatus::Changed, is_deleted: false, local_modified: 990 };
    let mut plan = UpdatePlan::new();
    plan.plan_three_way_merge(local, shared, login("A", "theirs", 3), ServerTimestamp(90), ServerTimestamp(100), 1000);
    assert_eq!(plan.local_updates[0].login.password, "mine");
    assert_eq!(plan.local_updates[0].login.time_password_changed, 2);
}

#[test]
fn delete_and_mirror_plans() {
    let mut plan = UpdatePlan::new();
    plan.plan_delete("X".to_string());
    plan.plan_mirror_update(login("Y", "p", 1), ServerTimestamp(3));
    plan.plan_mirror_insert(login("Z", "p", 1), ServerTimestamp(4), true);
    assert_eq!(plan.delete_local, vec!["X".to_string()]);
    assert_eq!(plan.delete_mirror, vec!["X".to_string()]);
    assert_eq!(plan.mirror_updates[0].1, 3);
    assert_eq!(plan.mirror_inserts[0].1, 4);
    assert!(plan.mirror_inserts[0].2);
}

#[test]
fn executing_a_plan_ignores_inserts_of_present_rows() {
    let mut db = LoginDb::from_rows(
        vec![LocalLogin { login: login("A", "p", 1), sync_status: SyncStatus::New, is_deleted: false, local_modified: 0 }],
        vec![MirrorLogin { login: login("M", "old", 1), is_overridden: false, server_modified: ServerTimestamp(1) }],
    )
    .unwrap();
    let mut plan = UpdatePlan::new();
    plan.plan_mirror_update(login("M", "updated", 1), ServerTimestamp(8));
    plan.plan_mirror_insert(login("M", "ignored", 1), ServerTimestamp(9), true);
    plan.plan_mirror_insert(login("N", "new", 1), ServerTimestamp(9), false);
    plan.local_updates.push(MirrorLogin { login: login("A", "merged", 1), is_overridden: false, server_modified: ServerTimestamp(9) });
    plan.execute(&mut db, 4242);
    let m = db.mirror_rows().iter().find(|r| r.login.id == "M").unwrap();
    assert_eq!(m.login.password, "updated");
    assert_eq!(m.server_modified, ServerTimestamp(8));
    assert!(db.mirror_rows().iter().any(|r| r.login.id == "N"));
    let a = &db.local_rows()[0];
    assert_eq!(a.login.password, "merged");
    assert_eq!(a.sync_status, SyncStatus::Changed);
    assert_eq!(a.local_modified, 4242);
}

fn snapshot(db: &LoginDb) -> Vec<String> {
    let mut out = Vec::new();
    for r in db.local_rows() {
        out.push(format!("L {} {} {:?} {}", r.login.id, r.login.password, r.sync_status, r.local_modified));
    }
    for r in db.mirror_rows() {
        out.push(format!("M {} {} {} {}", r.login.id, r.login.password, r.is_overridden, r.server_modified.0));
    }
    out
}

#[test]
fn same_state_and_batch_give_the_same_result() {
    let make = || {
        LoginDb::from_rows(
            vec![LocalLogin { login: login("A", "mine", 9), sync_status: SyncStatus::Changed, is_deleted: false, local_modified: 10 }],
            vec![MirrorLogin { login: login("A", "base", 1), is_overridden: true, server_modified: ServerTimestamp(5) }],
        )
        .unwrap()
    };
    let batch = || IncomingChangeset {
        collection: "passwords".to_string(),
        timestamp: ServerTimestamp(500),
        changes: vec![
            (Payload::Record(login("A", "theirs", 7)), ServerTimestamp(400)),
            (Payload::Record(login("B", "b", 1)), ServerTimestamp(450)),
        ],
    };
    let mut first = make();
    let mut second = make();
    first.apply_incoming_at(batch(), 1000).unwrap();
    second.apply_incoming_at(batch(), 1000).unwrap();
    assert_eq!(snapshot(&first), snapshot(&second));
}
