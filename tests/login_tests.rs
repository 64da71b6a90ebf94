use sync_pw_sql_store::schema;
use sync_pw_sql_store::{Error, InvalidLoginReason, Login, LoginDelta, SyncStatus};

fn login(id: &str) -> Login {
    Login {
        id: id.to_string(),
        hostname: Some("https://example.com".to_string()),
        form_submit_url: None,
        http_realm: Some("realm".to_string()),
        username: "user".to_string(),
        password: "secret".to_string(),
        username_field: String::new(),
        password_field: String::new(),
        time_created: 10,
        time_password_changed: 20,
        time_last_used: Some(30),
        times_used: Some(4),
    }
}

fn same(a: &Login, b: &Login) -> bool {
    a.id == b.id
        && a.hostname == b.hostname
        && a.form_submit_url == b.form_submit_url
        && a.http_realm == b.http_realm
        && a.username == b.username
        && a.password == b.password
        && a.username_field == b.username_field
        && a.password_field == b.password_field
        && a.time_created == b.time_created
        && a.time_password_changed == b.time_password_changed
        && a.time_last_used == b.time_last_used
        && a.times_used == b.times_used
}

#[test]
fn valid_login_passes() {
    assert_eq!(login("a").check_valid(), Ok(()));
    let mut l = login("a");
    l.http_realm = None;
    l.form_submit_url = Some("https://example.com/form".to_string());
    assert_eq!(l.check_valid(), Ok(()));
}

#[test]
fn invalid_logins_are_refused_with_their_reason() {
    let mut l = login("a");
    l.hostname = None;
    assert_eq!(l.check_valid(), Err(Error::InvalidLogin(InvalidLoginReason::EmptyHostname)));
    let mut l = login("a");
    l.hostname = Some(String::new());
    assert_eq!(l.check_valid(), Err(Error::InvalidLogin(InvalidLoginReason::EmptyHostname)));
    let mut l = login("a");
    l.password = String::new();
    assert_eq!(l.check_valid(), Err(Error::InvalidLogin(InvalidLoginReason::EmptyPassword)));
    let mut l = login("a");
    l.form_submit_url = Some("https://example.com".to_string());
    assert_eq!(l.check_valid(), Err(Error::InvalidLogin(InvalidLoginReason::BothTargets)));
    let mut l = login("a");
    l.http_realm = None;
    assert_eq!(l.check_valid(), Err(Error::InvalidLogin(InvalidLoginReason::NoTarget)));
    assert_eq!(
        InvalidLoginReason::EmptyPassword.message(),
        "Can't add a login with an empty password."
    );
}

#[test]
fn sync_status_codes() {
    assert_eq!(SyncStatus::from_u8(0), Ok(SyncStatus::Synced));
    assert_eq!(SyncStatus::from_u8(1), Ok(SyncStatus::Changed));
    assert_eq!(SyncStatus::from_u8(2), Ok(SyncStatus::New));
    assert_eq!(SyncStatus::from_u8(3), Err(Error::BadSyncStatus(3)));
    assert_eq!(SyncStatus::Changed.to_u8(), 1);
}

#[test]
fn applying_a_diff_gives_back_the_newer_login() {
    let a = login("a");
    let mut b = login("b");
    b.username = "other".to_string();
    b.form_submit_url = Some("https://example.com/f".to_string());
    b.time_last_used = None;
    b.time_created = 99;
    let d = a.delta(&b);
    assert_eq!(d.username, Some("user".to_string()));
    assert_eq!(d.password, None);
    let mut c = b.clone();
    c.apply_delta(d);
    assert!(same(&c, &a));
}

#[test]
fn merge_with_the_empty_delta() {
    let mut b = login("a");
    b.password = "new".to_string();
    b.time_password_changed = 77;
    let d = b.delta(&login("a"));
    let m1 = d.clone().merge(LoginDelta::default(), false);
    assert_eq!(m1.password, Some("new".to_string()));
    assert_eq!(m1.time_password_changed, Some(77));
    assert_eq!(m1.username, None);
    let m2 = LoginDelta::default().merge(d, true);
    assert_eq!(m2.password, Some("new".to_string()));
    assert_eq!(m2.time_password_changed, Some(77));
}

#[test]
fn merge_conflicts_follow_the_flag_but_times_take_the_latest() {
    let mut x = LoginDelta::default();
    x.password = Some("mine".to_string());
    x.time_password_changed = Some(5);
    x.time_created = Some(3);
    x.time_last_used = Some(None);
    x.times_used = Some(Some(1));
    let mut y = LoginDelta::default();
    y.password = Some("theirs".to_string());
    y.time_password_changed = Some(4);
    y.time_created = Some(8);
    y.time_last_used = Some(Some(2));
    y.times_used = Some(Some(9));
    let prefer_y = x.clone().merge(y.clone(), true);
    assert_eq!(prefer_y.password, Some("theirs".to_string()));
    assert_eq!(prefer_y.time_password_changed, Some(4));
    assert_eq!(prefer_y.time_created, Some(8));
    assert_eq!(prefer_y.time_last_used, Some(Some(2)));
    assert_eq!(prefer_y.times_used, Some(Some(9)));
    let prefer_x = x.merge(y, false);
    assert_eq!(prefer_x.password, Some("mine".to_string()));
    assert_eq!(prefer_x.time_password_changed, Some(5));
    assert_eq!(prefer_x.time_created, Some(8));
    assert_eq!(prefer_x.time_last_used, Some(Some(2)));
    assert_eq!(prefer_x.times_used, Some(Some(1)));
}

#[test]
fn schema_statements() {
    let fresh = schema::init(0, false);
    assert_eq!(fresh.len(), 5);
    assert_eq!(fresh[0], schema::CREATE_LOCAL_TABLE_SQL);
    assert_eq!(fresh[4], "PRAGMA user_version = 3");
    assert!(schema::init(3, false).is_empty());
    let from_two = schema::init(2, false);
    assert_eq!(from_two.len(), 3);
    assert_eq!(from_two[1], schema::CREATE_DELETED_HOSTNAME_INDEX_SQL);
    let legacy = schema::init(0, true);
    assert_eq!(legacy.len(), 8);
    assert_eq!(legacy[0], "DROP TABLE IF EXISTS loginsM");
    assert_eq!(legacy[2], "PRAGMA user_version = 0");
    assert_eq!(schema::drop().len(), 3);
    assert_eq!(schema::create().len(), 5);
    assert!(schema::upgrade(4).is_empty());
}
