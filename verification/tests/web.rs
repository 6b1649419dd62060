use soft_plc::auth::DbError;
use soft_plc::session::SessionStore;
use soft_plc::web::{
    api, dash, favicon, index, login, process_login, protected_page, rocket, stats, stats_page,
    total_traffic,
};

#[test]
fn root_redirects_to_login_and_favicon_is_empty() {
    assert_eq!(index(), "/login.html");
    assert_eq!(favicon(), "");
    assert_eq!(soft_plc::plc::index(), "/login.html");
    assert_eq!(soft_plc::plc::favicon(), "");
}

#[test]
fn login_page_expires_every_cookie() {
    let names = vec!["session_id".to_string(), "theme".to_string()];
    let (removals, template) = login(&names);
    assert_eq!(template, "templates/login.html");
    assert_eq!(removals.len(), 2);
    assert_eq!(removals[0].name, "session_id");
    assert_eq!(removals[1].name, "theme");
    for r in &removals {
        assert_eq!(r.path, "/");
        assert_eq!(r.expires_unix_seconds, 0);
    }
    let (none, _) = login(&Vec::new());
    assert!(none.is_empty());
}

#[test]
fn accepted_login_opens_a_session() {
    let mut store = SessionStore::new();
    let granted = process_login(&mut store, Ok(true)).unwrap();
    assert_eq!(granted.redirect, "/dashboard.html");
    assert_eq!(granted.cookie.name, "session_id");
    assert_eq!(granted.cookie.value, "session_1");
    assert_eq!(granted.cookie.path, "/");
    assert!(granted.cookie.http_only);
    assert_eq!(granted.cookie.lifetime_hours, 2);
    assert!(store.is_active("session_1"));
}

#[test]
fn wrong_password_is_refused_without_a_session() {
    let mut store = SessionStore::new();
    let r = process_login(&mut store, Ok(false));
    assert_eq!(r.err(), Some("Invalid username or password"));
    assert!(!store.is_active("session_1"));
    let next = process_login(&mut store, Ok(true)).unwrap();
    assert_eq!(next.cookie.value, "session_1");
}

#[test]
fn database_failure_is_refused_without_a_session() {
    let mut store = SessionStore::new();
    let r = process_login(&mut store, Err(DbError));
    assert_eq!(r.err(), Some("Database error"));
    assert!(!store.is_active("session_1"));
}

#[test]
fn login_then_protected_pages() {
    let mut store = SessionStore::new();
    let token = process_login(&mut store, Ok(true)).unwrap().cookie.value;
    assert_eq!(dash(&store, Some(&token)), Ok("templates/dashboard.html"));
    assert_eq!(api(&store, Some(&token)), Ok("templates/api.html"));
    assert_eq!(stats_page(&store, Some(&token)), Ok("templates/stats.html"));
    assert_eq!(stats(&store, Some(&token)), Ok(()));
    let second = process_login(&mut store, Ok(true)).unwrap().cookie.value;
    assert_eq!(second, "session_2");
    assert_eq!(dash(&store, Some(&token)), Ok("templates/dashboard.html"));
    assert_eq!(dash(&store, Some(&second)), Ok("templates/dashboard.html"));
}

#[test]
fn unknown_or_missing_session_redirects() {
    let mut store = SessionStore::new();
    assert_eq!(dash(&store, None), Err("/login.html"));
    assert_eq!(api(&store, Some("session_1")), Err("/login.html"));
    let _ = process_login(&mut store, Ok(true));
    assert_eq!(stats_page(&store, Some("session_2")), Err("/login.html"));
    assert_eq!(stats(&store, Some("session_x")), Err("/login.html"));
    assert_eq!(stats(&store, None), Err("/login.html"));
    assert_eq!(protected_page(&store, Some("session_1"), "templates/x.html"), Ok("templates/x.html"));
}

#[test]
fn traffic_totals() {
    assert_eq!(total_traffic(&vec![]), Some((0, 0)));
    assert_eq!(total_traffic(&vec![(10, 20), (5, 7), (0, 1)]), Some((15, 28)));
    assert_eq!(total_traffic(&vec![(u64::MAX, 0), (0, 3)]), Some((u64::MAX, 3)));
    assert_eq!(total_traffic(&vec![(u64::MAX, 0), (1, 3)]), None);
    assert_eq!(total_traffic(&vec![(1, u64::MAX), (1, 1)]), None);
}

#[test]
fn server_setup() {
    let s = rocket();
    assert_eq!(s.users_db_path, "db/users.db");
    assert_eq!(s.iov_db_path, "../Logic/IOV.db");
    assert_eq!(s.templates_dir, "templates");
    assert!(!s.sessions.is_active("session_0"));
    let mut sessions = s.sessions;
    assert_eq!(sessions.open_session(), "session_1");
}

#[test]
fn plc_setup() {
    let s = soft_plc::plc::rocket();
    assert_eq!(s.users_db_path, "db/users.db");
    assert_eq!(s.templates_dir, "templates");
    let mut sessions = s.sessions;
    assert_eq!(sessions.open_session(), "session_1");
}
