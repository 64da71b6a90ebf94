use sync_pw_sql_store::{
    Error, IncomingChangeset, LocalLogin, Login, LoginDb, MirrorLogin, Payload, ServerTimestamp,
    SyncStatus,
};

fn login(id: &str) -> Login {
    Login {
        id: id.to_string(),
        hostname: Some("https://x".to_string()),
        form_submit_url: None,
        http_realm: Some("r".to_string()),
        username: "u".to_string(),
        password: "p".to_string(),
        username_field: String::new(),
        password_field: String::new(),
        time_created: 1,
        time_password_changed: 1,
        time_last_used: None,
        times_used: None,
    }
}

fn local(l: Login, status: SyncStatus, modified: i64) -> LocalLogin {
    LocalLogin { login: l, sync_status: status, is_deleted: false, local_modified: modified }
}

fn mirror(l: Login, overridden: bool, modified: i64) -> MirrorLogin {
    MirrorLogin { login: l, is_overridden: overridden, server_modified: ServerTimestamp(modified) }
}

fn incoming(ts: i64, changes: Vec<(Payload, ServerTimestamp)>) -> IncomingChangeset {
    IncomingChangeset { collection: "passwords".to_string(), timestamp: ServerTimestamp(ts), changes }
}

fn find_local<'a>(db: &'a LoginDb, id: &str) -> Option<&'a LocalLogin> {
    db.local_rows().iter().find(|r| r.login.id == id)
}

fn find_mirror<'a>(db: &'a LoginDb, id: &str) -> Option<&'a MirrorLogin> {
    db.mirror_rows().iter().find(|r| r.login.id == id)
}

#[test]
fn fresh_insert_from_server() {
    let mut db = LoginDb::new();
    let out = db
        .apply_incoming_at(incoming(100, vec![(Payload::Record(login("A")), ServerTimestamp(100))]), 5000)
        .unwrap();
    assert_eq!(db.mirror_rows().len(), 1);
    let m = find_mirror(&db, "A").unwrap();
    assert_eq!(m.server_modified, ServerTimestamp(100));
    assert!(!m.is_overridden);
    assert_eq!(m.login.password, "p");
    assert!(db.local_rows().is_empty());
    assert!(out.changes.is_empty());
    assert_eq!(out.collection, "passwords");
    assert_eq!(out.timestamp, ServerTimestamp(100));
}

#[test]
fn server_deletion_dominates() {
    let mut db = LoginDb::from_rows(vec![local(login("A"), SyncStatus::Changed, 0)], vec![
        mirror(login("A"), true, 50),
    ])
    .unwrap();
    let out = db
        .apply_incoming_at(
            incoming(200, vec![(Payload::Tombstone("A".to_string()), ServerTimestamp(200))]),
            5000,
        )
        .unwrap();
    assert!(find_local(&db, "A").is_none());
    assert!(find_mirror(&db, "A").is_none());
    assert!(out.changes.is_empty());
}

#[test]
fn two_way_merge_keeps_a_newer_local_password() {
    let mut mine = login("A");
    mine.time_password_changed = 500;
    mine.password = "local".to_string();
    let mut db = LoginDb::from_rows(vec![local(mine, SyncStatus::New, 0)], vec![]).unwrap();
    let mut theirs = login("A");
    theirs.time_password_changed = 300;
    theirs.password = "remote".to_string();
    let out = db
        .apply_incoming_at(incoming(200, vec![(Payload::Record(theirs), ServerTimestamp(200))]), 5000)
        .unwrap();
    let m = find_mirror(&db, "A").unwrap();
    assert!(m.is_overridden);
    assert_eq!(m.login.password, "remote");
    assert_eq!(find_local(&db, "A").unwrap().login.password, "local");
    assert_eq!(out.changes.len(), 1);
    match &out.changes[0] {
        Payload::Record(l) => assert_eq!(l.password, "local"),
        Payload::Tombstone(_) => panic!("expected a record"),
    }
}

#[test]
fn two_way_merge_takes_a_newer_remote_password() {
    let mut mine = login("A");
    mine.time_password_changed = 100;
    let mut db = LoginDb::from_rows(vec![local(mine, SyncStatus::New, 0)], vec![]).unwrap();
    let mut theirs = login("A");
    theirs.time_password_changed = 300;
    theirs.password = "remote".to_string();
    let out = db
        .apply_incoming_at(incoming(200, vec![(Payload::Record(theirs), ServerTimestamp(200))]), 5000)
        .unwrap();
    let m = find_mirror(&db, "A").unwrap();
    assert!(!m.is_overridden);
    assert_eq!(m.login.password, "remote");
    assert!(find_local(&db, "A").is_none());
    assert!(out.changes.is_empty());
}

#[test]
fn three_way_merge_with_a_younger_remote_change() {
    let now = 1_000_000;
    let shared = login("A");
    let mut mine = login("A");
    mine.username = "local-user".to_string();
    let mut theirs = login("A");
    theirs.password = "remote-pass".to_string();
    theirs.time_password_changed = 150;
    let mut db = LoginDb::from_rows(vec![local(mine, SyncStatus::Changed, now - 60_000)], vec![
        mirror(shared, false, 100),
    ])
    .unwrap();
    let out = db
        .apply_incoming_at(
            incoming(200, vec![(Payload::Record(theirs), ServerTimestamp(190))]),
            now,
        )
        .unwrap();
    let m = find_mirror(&db, "A").unwrap();
    assert_eq!(m.login.password, "remote-pass");
    assert_eq!(m.login.username, "u");
    assert_eq!(m.server_modified, ServerTimestamp(190));
    let l = find_local(&db, "A").unwrap();
    assert_eq!(l.login.username, "local-user");
    assert_eq!(l.login.password, "remote-pass");
    assert_eq!(l.login.time_password_changed, 150);
    assert_eq!(l.sync_status, SyncStatus::Changed);
    assert_eq!(l.local_modified, now);
    assert_eq!(out.changes.len(), 1);
}

#[test]
fn three_way_merge_conflict_prefers_the_younger_local_change() {
    let now = 1_000_000;
    let mut mine = login("A");
    mine.password = "local-pass".to_string();
    let mut theirs = login("A");
    theirs.password = "remote-pass".to_string();
    let mut db = LoginDb::from_rows(vec![local(mine, SyncStatus::Changed, now - 10)], vec![
        mirror(login("A"), false, 100),
    ])
    .unwrap();
    db.apply_incoming_at(incoming(100_000, vec![(Payload::Record(theirs), ServerTimestamp(200))]), now)
        .unwrap();
    assert_eq!(find_local(&db, "A").unwrap().login.password, "local-pass");
    assert_eq!(find_mirror(&db, "A").unwrap().login.password, "remote-pass");
}

#[test]
fn mirror_only_record_is_forwarded() {
    let mut db = LoginDb::from_rows(vec![], vec![mirror(login("A"), false, 100)]).unwrap();
    let mut theirs = login("A");
    theirs.username = "changed".to_string();
    db.apply_incoming_at(incoming(300, vec![(Payload::Record(theirs), ServerTimestamp(250))]), 0)
        .unwrap();
    let m = find_mirror(&db, "A").unwrap();
    assert_eq!(m.login.username, "changed");
    assert_eq!(m.server_modified, ServerTimestamp(250));
    assert!(db.local_rows().is_empty());
}

#[test]
fn dupe_detection_merges_against_the_local_duplicate() {
    let mut db = LoginDb::from_rows(vec![local(login("A"), SyncStatus::New, 0)], vec![]).unwrap();
    db.apply_incoming_at(incoming(100, vec![(Payload::Record(login("B")), ServerTimestamp(100))]), 0)
        .unwrap();
    assert!(find_local(&db, "A").is_none());
    let m = find_mirror(&db, "B").unwrap();
    assert!(!m.is_overridden);
    assert!(find_mirror(&db, "A").is_none());
}

#[test]
fn dupe_detection_by_form_submit_host() {
    let mut mine = login("A");
    mine.http_realm = None;
    mine.form_submit_url = Some("https://site.example:8443/login".to_string());
    mine.time_password_changed = 900;
    let mut db = LoginDb::from_rows(vec![local(mine, SyncStatus::New, 0)], vec![]).unwrap();
    let mut theirs = login("B");
    theirs.http_realm = None;
    theirs.form_submit_url = Some("https://site.example:8443/other".to_string());
    let out = db
        .apply_incoming_at(incoming(100, vec![(Payload::Record(theirs), ServerTimestamp(100))]), 0)
        .unwrap();
    assert!(find_mirror(&db, "B").unwrap().is_overridden);
    assert!(find_local(&db, "A").is_some());
    assert_eq!(out.changes.len(), 1);
}

#[test]
fn no_dupe_when_the_username_differs() {
    let mut db = LoginDb::from_rows(vec![local(login("A"), SyncStatus::New, 0)], vec![]).unwrap();
    let mut theirs = login("B");
    theirs.username = "someone-else".to_string();
    db.apply_incoming_at(incoming(100, vec![(Payload::Record(theirs), ServerTimestamp(100))]), 0)
        .unwrap();
    assert!(find_local(&db, "A").is_some());
    assert!(!find_mirror(&db, "B").unwrap().is_overridden);
}

#[test]
fn sync_finished_collapses_local_into_mirror() {
    let mut db = LoginDb::from_rows(vec![local(login("A"), SyncStatus::Changed, 7)], vec![
        mirror(login("A"), true, 10),
    ])
    .unwrap();
    db.sync_finished(ServerTimestamp(300), &["A".to_string()]);
    assert!(db.local_rows().is_empty());
    let m = find_mirror(&db, "A").unwrap();
    assert!(!m.is_overridden);
    assert_eq!(m.server_modified, ServerTimestamp(300));
}

#[test]
fn sync_finished_drops_tombstones() {
    let mut gone = local(login("A"), SyncStatus::Changed, 7);
    gone.is_deleted = true;
    let mut db = LoginDb::from_rows(vec![gone], vec![mirror(login("A"), true, 10)]).unwrap();
    db.sync_finished(ServerTimestamp(300), &["A".to_string()]);
    assert!(db.local_rows().is_empty());
    assert!(db.mirror_rows().is_empty());
}

#[test]
fn empty_changeset_changes_nothing() {
    let mut db = LoginDb::from_rows(vec![local(login("A"), SyncStatus::New, 3)], vec![
        mirror(login("B"), false, 10),
    ])
    .unwrap();
    let out = db.apply_incoming_at(incoming(500, vec![]), 99).unwrap();
    assert_eq!(db.local_rows().len(), 1);
    assert_eq!(db.local_rows()[0].local_modified, 3);
    assert_eq!(db.mirror_rows().len(), 1);
    assert_eq!(out.changes.len(), 1);
}

#[test]
fn duplicate_guids_are_refused() {
    let mut db = LoginDb::new();
    let r = db.apply_incoming_at(
        incoming(100, vec![
            (Payload::Record(login("A")), ServerTimestamp(1)),
            (Payload::Record(login("B")), ServerTimestamp(1)),
            (Payload::Tombstone("A".to_string()), ServerTimestamp(2)),
        ]),
        0,
    );
    assert_eq!(r.unwrap_err(), Error::DuplicateGuid("A".to_string()));
    assert!(db.mirror_rows().is_empty());
}

#[test]
fn from_rows_refuses_two_rows_with_one_guid() {
    let r = LoginDb::from_rows(vec![], vec![mirror(login("A"), false, 1), mirror(login("A"), false, 2)]);
    assert!(matches!(r, Err(Error::DuplicateGuid(g)) if g == "A"));
}

#[test]
fn outgoing_has_records_and_tombstones_but_not_synced_rows() {
    let mut gone = local(login("C"), SyncStatus::Changed, 0);
    gone.is_deleted = true;
    let db = LoginDb::from_rows(vec![
        local(login("A"), SyncStatus::New, 0),
        local(login("B"), SyncStatus::Synced, 0),
        gone,
    ], vec![])
    .unwrap();
    let out = db.fetch_outgoing(ServerTimestamp(42));
    assert_eq!(out.changes.len(), 2);
    assert!(matches!(&out.changes[0], Payload::Record(l) if l.id == "A"));
    assert!(matches!(&out.changes[1], Payload::Tombstone(id) if id == "C"));
}

#[test]
fn have_synced_logins_looks_at_both_tables() {
    assert!(!LoginDb::new().have_synced_logins());
    let only_new = LoginDb::from_rows(vec![local(login("A"), SyncStatus::New, 0)], vec![]).unwrap();
    assert!(!only_new.have_synced_logins());
    let changed = LoginDb::from_rows(vec![local(login("A"), SyncStatus::Changed, 0)], vec![]).unwrap();
    assert!(changed.have_synced_logins());
    let mirrored = LoginDb::from_rows(vec![], vec![mirror(login("A"), false, 0)]).unwrap();
    assert!(mirrored.have_synced_logins());
}

#[test]
fn apply_incoming_on_the_clock() {
    let mut db = LoginDb::new();
    let out = db
        .apply_incoming(incoming(100, vec![(Payload::Record(login("A")), ServerTimestamp(100))]))
        .unwrap();
    assert!(out.changes.is_empty());
    assert_eq!(db.mirror_rows().len(), 1);
}
