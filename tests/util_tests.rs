use sync_pw_sql_store::util::{
    duration_ms_i64, repeat_display, sql_values, sql_vars, system_time_ms_i64, url_host_port,
    Duration, SystemTime,
};

#[test]
fn test_vars() {
    assert_eq!(format!("{}", sql_vars(1)), "?");
    assert_eq!(format!("{}", sql_vars(2)), "?,?");
    assert_eq!(format!("{}", sql_vars(3)), "?,?,?");
}

#[test]
fn test_vals() {
    assert_eq!(format!("{}", sql_values(1)), "(?)");
    assert_eq!(format!("{}", sql_values(2)), "(?),(?)");
    assert_eq!(format!("{}", sql_values(3)), "(?),(?),(?)");
}

#[test]
fn test_repeat_disp() {
    assert_eq!(repeat_display(1, ",", |i| format!("({},?)", i)).to_string(), "(0,?)");
    assert_eq!(repeat_display(2, ",", |i| format!("({},?)", i)).to_string(), "(0,?),(1,?)");
    assert_eq!(
        repeat_display(3, ",", |i| format!("({},?)", i)).to_string(),
        "(0,?),(1,?),(2,?)"
    );
}

#[test]
fn sql_vars_of_zero_is_empty() {
    assert_eq!(sql_vars(0), "");
    assert_eq!(sql_values(0), "");
    assert_eq!(repeat_display(0, ",", |i| format!("{}", i)).to_string(), "");
}

#[test]
fn duration_in_milliseconds() {
    assert_eq!(duration_ms_i64(Duration { secs: 0, nanos: 0 }), 0);
    assert_eq!(duration_ms_i64(Duration { secs: 1, nanos: 500_000_000 }), 1500);
    assert_eq!(duration_ms_i64(Duration { secs: 2, nanos: 999_999 }), 2000);
}

#[test]
fn system_time_in_milliseconds() {
    let after = SystemTime { before_epoch: false, distance: Duration { secs: 3, nanos: 7_000_000 } };
    assert_eq!(system_time_ms_i64(after), 3007);
    let before = SystemTime { before_epoch: true, distance: Duration { secs: 3, nanos: 0 } };
    assert_eq!(system_time_ms_i64(before), 0);
}

#[test]
fn host_and_port_of_urls() {
    assert_eq!(url_host_port("https://example.com:8080/login"), Some("example.com:8080".to_string()));
    assert_eq!(url_host_port("https://example.com/login"), Some("example.com".to_string()));
    assert_eq!(url_host_port("http://a.b.c:65535"), Some("a.b.c:65535".to_string()));
    assert_eq!(url_host_port("not a url"), None);
    assert_eq!(url_host_port("mailto:someone@example.com"), None);
}
