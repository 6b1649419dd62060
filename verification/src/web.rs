//! Request handling of the monitoring server: which page a request gets,
//! how a login opens a session, and the start-up configuration.

use crate::auth::DbError;
use crate::session::{SessionStore, session_token, next_counter, lemma_session_token_injective};
use vstd::prelude::*;

verus! {

/// Where a request without a valid session is sent.
pub open spec fn login_page() -> Seq<char> {
    "/login.html"@
}

/// Whether the value of the "session_id" cookie (if any) is an active session.
pub open spec fn authorized(sessions: Set<Seq<char>>, session_cookie: Option<&str>) -> bool {
    match session_cookie {
        Some(c) => sessions.contains(c@),
        None => false,
    }
}

/// The root path redirects to the login page.
pub fn index() -> (r: &'static str)
    ensures
        r@ == login_page(),
{
    "/login.html"
}

/// The favicon is served as an empty body.
pub fn favicon() -> (r: &'static str)
    ensures
        r@ == ""@,
{
    ""
}

/// A cookie to be removed from the browser: same name, path "/", expiring
/// at the Unix epoch.
#[derive(Debug)]
pub struct CookieRemoval {
    pub name: String,
    pub path: String,
    pub expires_unix_seconds: i64,
}

/// The login page: every cookie the browser sent is expired, and the login
/// template is served.
pub fn login(cookie_names: &Vec<String>) -> (r: (Vec<CookieRemoval>, &'static str))
    ensures
        r.0.len() == cookie_names.len(),
        forall|i: int|
            0 <= i < cookie_names.len() ==> {
                &&& (#[trigger] r.0[i]).name@ == cookie_names[i]@
                &&& r.0[i].path@ == "/"@
                &&& r.0[i].expires_unix_seconds == 0
            },
        r.1@ == "templates/login.html"@,
{
    let mut removals: Vec<CookieRemoval> = Vec::new();
    let n = cookie_names.len();
    for i in 0..n
        invariant
            n == cookie_names.len(),
            removals.len() == i,
            forall|j: int|
                0 <= j < i ==> {
                    &&& (#[trigger] removals[j]).name@ == cookie_names[j]@
                    &&& removals[j].path@ == "/"@
                    &&& removals[j].expires_unix_seconds == 0
                },
    {
        let name = cookie_names[i].clone();
        removals.push(CookieRemoval { name, path: "/".to_string(), expires_unix_seconds: 0 });
    }
    (removals, "templates/login.html")
}

/// The session cookie set after a successful login.
#[derive(Debug)]
pub struct SessionCookie {
    pub name: String,
    pub value: String,
    pub path: String,
    pub http_only: bool,
    pub lifetime_hours: i64,
}

/// A successful login: the session cookie to set and where to go next.
#[derive(Debug)]
pub struct LoginGranted {
    pub cookie: SessionCookie,
    pub redirect: &'static str,
}

/// Answers a login form once the password check has run (`verified`).
/// A match opens a new session, sets its token as an HTTP-only "session_id"
/// cookie on path "/" for two hours, and redirects to the dashboard. A
/// mismatch or a database failure is refused with a message, and no session
/// is opened.
pub fn process_login(sessions: &mut SessionStore, verified: Result<bool, DbError>) -> (r: Result<
    LoginGranted,
    &'static str,
>)
    ensures
        match verified {
            Ok(true) => {
                &&& r matches Ok(g) && {
                    &&& g.cookie.value@ == session_token(old(sessions).counter() as nat)
                    &&& g.cookie.name@ == "session_id"@
                    &&& g.cookie.path@ == "/"@
                    &&& g.cookie.http_only
                    &&& g.cookie.lifetime_hours == 2
                    &&& g.redirect@ == "/dashboard.html"@
                    &&& final(sessions).sessions() == old(sessions).sessions().insert(g.cookie.value@)
                }
                &&& final(sessions).counter() == next_counter(old(sessions).counter())
            },
            Ok(false) => {
                &&& r matches Err(m) && m@ == "Invalid username or password"@
                &&& final(sessions).sessions() == old(sessions).sessions()
                &&& final(sessions).counter() == old(sessions).counter()
            },
            Err(_) => {
                &&& r matches Err(m) && m@ == "Database error"@
                &&& final(sessions).sessions() == old(sessions).sessions()
                &&& final(sessions).counter() == old(sessions).counter()
            },
        },
{
    match verified {
        Ok(true) => {
            let token = sessions.open_session();
            let cookie = SessionCookie {
                name: "session_id".to_string(),
                value: token,
                path: "/".to_string(),
                http_only: true,
                lifetime_hours: 2,
            };
            Ok(LoginGranted { cookie, redirect: "/dashboard.html" })
        },
        Ok(false) => Err("Invalid username or password"),
        Err(_) => Err("Database error"),
    }
}

/// A page behind the login: its template when the session cookie names an
/// active session, otherwise a redirect to the login page.
pub fn protected_page(
    sessions: &SessionStore,
    session_cookie: Option<&str>,
    template: &'static str,
) -> (r: Result<&'static str, &'static str>)
    ensures
        authorized(sessions.sessions(), session_cookie) ==> r == Ok::<&'static str, &'static str>(
            template,
        ),
        !authorized(sessions.sessions(), session_cookie) ==> (r matches Err(t) && t@
            == login_page()),
{
    match session_cookie {
        Some(c) => {
            if sessions.is_active(c) {
                return Ok(template);
            }
        },
        None => {},
    }
    Err("/login.html")
}

/// The dashboard page.
pub fn dash(sessions: &SessionStore, session_cookie: Option<&str>) -> (r: Result<
    &'static str,
    &'static str,
>)
    ensures
        authorized(sessions.sessions(), session_cookie) ==> (r matches Ok(t) && t@
            == "templates/dashboard.html"@),
        !authorized(sessions.sessions(), session_cookie) ==> (r matches Err(t) && t@
            == login_page()),
{
    protected_page(sessions, session_cookie, "templates/dashboard.html")
}

/// The API documentation page.
pub fn api(sessions: &SessionStore, session_cookie: Option<&str>) -> (r: Result<
    &'static str,
    &'static str,
>)
    ensures
        authorized(sessions.sessions(), session_cookie) ==> (r matches Ok(t) && t@
            == "templates/api.html"@),
        !authorized(sessions.sessions(), session_cookie) ==> (r matches Err(t) && t@
            == login_page()),
{
    protected_page(sessions, session_cookie, "templates/api.html")
}

/// The system statistics page.
pub fn stats_page(sessions: &SessionStore, session_cookie: Option<&str>) -> (r: Result<
    &'static str,
    &'static str,
>)
    ensures
        authorized(sessions.sessions(), session_cookie) ==> (r matches Ok(t) && t@
            == "templates/stats.html"@),
        !authorized(sessions.sessions(), session_cookie) ==> (r matches Err(t) && t@
            == login_page()),
{
    protected_page(sessions, session_cookie, "templates/stats.html")
}

/// The statistics endpoint: `Ok` when the statistics may be gathered and
/// sent, otherwise the redirect to the login page.
pub fn stats(sessions: &SessionStore, session_cookie: Option<&str>) -> (r: Result<
    (),
    &'static str,
>)
    ensures
        authorized(sessions.sessions(), session_cookie) <==> r is Ok,
        !authorized(sessions.sessions(), session_cookie) ==> (r matches Err(t) && t@
            == login_page()),
{
    match session_cookie {
        Some(c) => {
            if sessions.is_active(c) {
                return Ok(());
            }
        },
        None => {},
    }
    Err("/login.html")
}

/// Total packets received over the first `n` interfaces.
pub open spec fn received_total(samples: Seq<(u64, u64)>, n: int) -> int
    decreases n,
{
    if n <= 0 {
        0
    } else {
        received_total(samples, n - 1) + samples[n - 1].0
    }
}

/// Total packets transmitted over the first `n` interfaces.
pub open spec fn transmitted_total(samples: Seq<(u64, u64)>, n: int) -> int
    decreases n,
{
    if n <= 0 {
        0
    } else {
        transmitted_total(samples, n - 1) + samples[n - 1].1
    }
}

/// Every interface counts: the total over the first `n` interfaces is the
/// total over the first `n - 1` plus interface `n - 1`'s counter, for every
/// `n` up to the number of interfaces; and adding an interface at the end
/// adds its counters to the totals.
pub proof fn lemma_totals_count_every_interface(samples: Seq<(u64, u64)>, extra: (u64, u64))
    ensures
        forall|n: int|
            0 < n <= samples.len() ==> #[trigger] received_total(samples, n) == received_total(
                samples,
                n - 1,
            ) + samples[n - 1].0,
        forall|n: int|
            0 < n <= samples.len() ==> #[trigger] transmitted_total(samples, n)
                == transmitted_total(samples, n - 1) + samples[n - 1].1,
        received_total(samples.push(extra), samples.len() + 1int) == received_total(
            samples,
            samples.len() as int,
        ) + extra.0,
        transmitted_total(samples.push(extra), samples.len() + 1int) == transmitted_total(
            samples,
            samples.len() as int,
        ) + extra.1,
        received_total(samples, 0) == 0 && transmitted_total(samples, 0) == 0,
{
    lemma_totals_prefix(samples, extra, samples.len() as int);
}

/// The totals over the first `n` interfaces do not depend on what follows them.
proof fn lemma_totals_prefix(samples: Seq<(u64, u64)>, extra: (u64, u64), n: int)
    requires
        0 <= n <= samples.len(),
    ensures
        received_total(samples.push(extra), n) == received_total(samples, n),
        transmitted_total(samples.push(extra), n) == transmitted_total(samples, n),
    decreases n,
{
    if n > 0 {
        lemma_totals_prefix(samples, extra, n - 1);
        assert(samples.push(extra)[n - 1] == samples[n - 1]);
    }
}

proof fn lemma_totals_monotonic(samples: Seq<(u64, u64)>, i: int, j: int)
    requires
        0 <= i <= j,
    ensures
        received_total(samples, i) <= received_total(samples, j),
        transmitted_total(samples, i) <= transmitted_total(samples, j),
    decreases j - i,
{
    if i < j {
        lemma_totals_monotonic(samples, i, j - 1);
    }
}

/// Sums the (received, transmitted) packet counters of all network
/// interfaces; `None` when either sum does not fit in a `u64`.
pub fn total_traffic(samples: &Vec<(u64, u64)>) -> (r: Option<(u64, u64)>)
    ensures
        match r {
            Some((rx, tx)) => rx == received_total(samples@, samples@.len() as int) && tx
                == transmitted_total(samples@, samples@.len() as int),
            None => received_total(samples@, samples@.len() as int) > u64::MAX
                || transmitted_total(samples@, samples@.len() as int) > u64::MAX,
        },
{
    let mut rx: u64 = 0;
    let mut tx: u64 = 0;
    let n = samples.len();
    for i in 0..n
        invariant
            n == samples@.len(),
            rx == received_total(samples@, i as int),
            tx == transmitted_total(samples@, i as int),
    {
        let (r_i, t_i) = samples[i];
        match (rx.checked_add(r_i), tx.checked_add(t_i)) {
            (Some(a), Some(b)) => {
                rx = a;
                tx = b;
            },
            _ => {
                proof {
                    lemma_totals_monotonic(samples@, i + 1, n as int);
                }
                return None;
            },
        }
    }
    Some((rx, tx))
}

/// Where the monitoring server keeps its data, and its initial sessions.
pub struct ServerSetup {
    pub users_db_path: &'static str,
    pub iov_db_path: &'static str,
    pub templates_dir: &'static str,
    pub sessions: SessionStore,
}

/// The start-up configuration of the monitoring server: users in
/// "db/users.db", I/O records in "../Logic/IOV.db", static files under
/// "templates", no active session and a session counter at 1.
pub fn rocket() -> (r: ServerSetup)
    ensures
        r.users_db_path@ == "db/users.db"@,
        r.iov_db_path@ == "../Logic/IOV.db"@,
        r.templates_dir@ == "templates"@,
        r.sessions.counter() == 1,
        r.sessions.sessions() == Set::<Seq<char>>::empty(),
{
    ServerSetup {
        users_db_path: "db/users.db",
        iov_db_path: "../Logic/IOV.db",
        templates_dir: "templates",
        sessions: SessionStore::new(),
    }
}

/// A login that the password check accepted opens every page behind the
/// login to the cookie it sets.
pub proof fn lemma_login_grants_access(before: SessionStore, after: SessionStore, token: &str)
    requires
        token@ == session_token(before.counter() as nat),
        after.sessions() == before.sessions().insert(token@),
    ensures
        authorized(after.sessions(), Some(token)),
{
}

/// A login never revokes a session: whoever was let in before is let in after.
pub proof fn lemma_login_keeps_sessions(
    before: SessionStore,
    after: SessionStore,
    opened: Seq<char>,
    session_cookie: Option<&str>,
)
    requires
        after.sessions() == before.sessions() || after.sessions() == before.sessions().insert(opened),
    ensures
        authorized(before.sessions(), session_cookie) ==> authorized(after.sessions(), session_cookie),
{
}

/// A refused login (wrong password or database failure) changes nobody's access.
pub proof fn lemma_refused_login_changes_nothing(
    before: SessionStore,
    after: SessionStore,
    session_cookie: Option<&str>,
)
    requires
        after.sessions() == before.sessions(),
    ensures
        authorized(after.sessions(), session_cookie) == authorized(before.sessions(), session_cookie),
{
}

/// Two accepted logins in a row hand out different session tokens unless the
/// counter has reached `u64::MAX` (where it wraps to 0).
pub proof fn lemma_consecutive_logins_distinct(counter: u64)
    requires
        counter < u64::MAX,
    ensures
        session_token(counter as nat) != session_token(next_counter(counter) as nat),
{
    if session_token(counter as nat) == session_token(next_counter(counter) as nat) {
        lemma_session_token_injective(counter as nat, next_counter(counter) as nat);
    }
}

/// Without a session cookie every page behind the login redirects to the login page.
pub proof fn lemma_no_cookie_no_access(sessions: SessionStore)
    ensures
        !authorized(sessions.sessions(), None),
{
}

} // verus!
