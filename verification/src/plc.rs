//! The PLC front end: the same login-protected pages as the monitoring
//! server, without the I/O record API, over the user database alone.

use crate::session::SessionStore;
use vstd::prelude::*;

verus! {

/// The root path redirects to the login page.
pub fn index() -> (r: &'static str)
    ensures
        r@ == "/login.html"@,
{
    "/login.html"
}

/// The favicon is served as an empty body.
pub fn favicon() -> (r: &'static str)
    ensures
        r@ == ""@,
{
    ""
}

/// Where the PLC front end keeps its users, and its initial sessions.
pub struct PlcSetup {
    pub users_db_path: &'static str,
    pub templates_dir: &'static str,
    pub sessions: SessionStore,
}

/// The start-up configuration of the PLC front end: users in "db/users.db",
/// static files under "templates", no active session and a session counter at 1.
pub fn rocket() -> (r: PlcSetup)
    ensures
        r.users_db_path@ == "db/users.db"@,
        r.templates_dir@ == "templates"@,
        r.sessions.counter() == 1,
        r.sessions.sessions() == Set::<Seq<char>>::empty(),
{
    PlcSetup { users_db_path: "db/users.db", templates_dir: "templates", sessions: SessionStore::new() }
}

} // verus!
