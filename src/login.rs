use vstd::prelude::*;
use crate::error::{Error, InvalidLoginReason};

verus! {

/// The view of an optional string: the optional sequence of its characters.
pub open spec fn opt_view(o: Option<String>) -> Option<Seq<char>> {
    match o {
        Some(s) => Some(s@),
        None => None,
    }
}

/// Copies an optional string, keeping its view.
pub fn clone_opt_string(o: &Option<String>) -> (r: Option<String>)
    ensures
        opt_view(r) == opt_view(*o),
{
    match o {
        Some(s) => Some(s.clone()),
        None => None,
    }
}

/// Compares two optional strings by their characters.
pub fn opt_string_eq(a: &Option<String>, b: &Option<String>) -> (r: bool)
    ensures
        r == (opt_view(*a) == opt_view(*b)),
{
    match (a, b) {
        (Some(x), Some(y)) => x.eq(y),
        (None, None) => true,
        _ => false,
    }
}

/// A time on the server's clock, in milliseconds since the epoch.
#[derive(Debug, Clone, Copy, PartialEq, Eq, Structural)]
pub struct ServerTimestamp(pub i64);

impl ServerTimestamp {
    pub fn as_millis(&self) -> (r: i64)
        ensures
            r == self.0,
    {
        self.0
    }
}

/// A saved credential.
#[derive(Debug, Clone)]
pub struct Login {
    pub id: String,
    pub hostname: Option<String>,
    pub form_submit_url: Option<String>,
    pub http_realm: Option<String>,
    pub username: String,
    pub password: String,
    pub username_field: String,
    pub password_field: String,
    pub time_created: i64,
    pub time_password_changed: i64,
    pub time_last_used: Option<i64>,
    pub times_used: Option<i64>,
}

/// A login with its strings seen as character sequences.
pub struct LoginView {
    pub id: Seq<char>,
    pub hostname: Option<Seq<char>>,
    pub form_submit_url: Option<Seq<char>>,
    pub http_realm: Option<Seq<char>>,
    pub username: Seq<char>,
    pub password: Seq<char>,
    pub username_field: Seq<char>,
    pub password_field: Seq<char>,
    pub time_created: i64,
    pub time_password_changed: i64,
    pub time_last_used: Option<i64>,
    pub times_used: Option<i64>,
}

impl View for Login {
    type V = LoginView;

    open spec fn view(&self) -> LoginView {
        LoginView {
            id: self.id@,
            hostname: opt_view(self.hostname),
            form_submit_url: opt_view(self.form_submit_url),
            http_realm: opt_view(self.http_realm),
            username: self.username@,
            password: self.password@,
            username_field: self.username_field@,
            password_field: self.password_field@,
            time_created: self.time_created,
            time_password_changed: self.time_password_changed,
            time_last_used: self.time_last_used,
            times_used: self.times_used,
        }
    }
}

/// The first rule of validity that a login breaks, if any: a hostname and a
/// password are present and non-empty, and exactly one of form submit URL and
/// HTTP realm is present.
pub open spec fn invalid_reason(l: LoginView) -> Option<InvalidLoginReason> {
    if l.hostname is None || l.hostname->0.len() == 0 {
        Some(InvalidLoginReason::EmptyHostname)
    } else if l.password.len() == 0 {
        Some(InvalidLoginReason::EmptyPassword)
    } else if l.form_submit_url is Some && l.http_realm is Some {
        Some(InvalidLoginReason::BothTargets)
    } else if l.form_submit_url is None && l.http_realm is None {
        Some(InvalidLoginReason::NoTarget)
    } else {
        None
    }
}

impl Login {
    /// Copies the login, keeping its view.
    pub fn copy(&self) -> (r: Login)
        ensures
            r@ == self@,
    {
        Login {
            id: self.id.clone(),
            hostname: clone_opt_string(&self.hostname),
            form_submit_url: clone_opt_string(&self.form_submit_url),
            http_realm: clone_opt_string(&self.http_realm),
            username: self.username.clone(),
            password: self.password.clone(),
            username_field: self.username_field.clone(),
            password_field: self.password_field.clone(),
            time_created: self.time_created,
            time_password_changed: self.time_password_changed,
            time_last_used: self.time_last_used,
            times_used: self.times_used,
        }
    }

    /// Checks the validity rules, reporting the first one broken.
    pub fn check_valid(&self) -> (r: Result<(), Error>)
        ensures
            r is Ok <==> invalid_reason(self@) is None,
            r is Err ==> r == Err::<(), Error>(Error::InvalidLogin(invalid_reason(self@)->0)),
    {
        let empty_host = match &self.hostname {
            Some(h) => h.as_str().is_empty(),
            None => true,
        };
        if empty_host {
            return Err(Error::InvalidLogin(InvalidLoginReason::EmptyHostname));
        }
        if self.password.as_str().is_empty() {
            return Err(Error::InvalidLogin(InvalidLoginReason::EmptyPassword));
        }
        if self.form_submit_url.is_some() && self.http_realm.is_some() {
            return Err(Error::InvalidLogin(InvalidLoginReason::BothTargets));
        }
        if self.form_submit_url.is_none() && self.http_realm.is_none() {
            return Err(Error::InvalidLogin(InvalidLoginReason::NoTarget));
        }
        Ok(())
    }
}

/// Where a local row stands with respect to the server.
#[derive(Debug, Clone, Copy, PartialEq, Eq, Structural, Hash, PartialOrd, Ord)]
pub enum SyncStatus {
    Synced,
    Changed,
    New,
}

/// The number that stands for a sync status in storage.
pub open spec fn sync_status_code(s: SyncStatus) -> u8 {
    match s {
        SyncStatus::Synced => 0,
        SyncStatus::Changed => 1,
        SyncStatus::New => 2,
    }
}

impl SyncStatus {
    /// Reads a stored sync status; an unknown number is an error.
    pub fn from_u8(v: u8) -> (r: Result<SyncStatus, Error>)
        ensures
            v <= 2 ==> r is Ok && sync_status_code(r->Ok_0) == v,
            v > 2 ==> r == Err::<SyncStatus, Error>(Error::BadSyncStatus(v)),
    {
        match v {
            0 => Ok(SyncStatus::Synced),
            1 => Ok(SyncStatus::Changed),
            2 => Ok(SyncStatus::New),
            _ => Err(Error::BadSyncStatus(v)),
        }
    }

    /// The number that stands for this status in storage.
    pub fn to_u8(&self) -> (r: u8)
        ensures
            r == sync_status_code(*self),
    {
        match self {
            SyncStatus::Synced => 0,
            SyncStatus::Changed => 1,
            SyncStatus::New => 2,
        }
    }
}

/// A row of the mirror table: the last value that the server confirmed.
#[derive(Debug, Clone)]
pub struct MirrorLogin {
    pub login: Login,
    pub is_overridden: bool,
    pub server_modified: ServerTimestamp,
}

pub struct MirrorLoginView {
    pub login: LoginView,
    pub is_overridden: bool,
    pub server_modified: ServerTimestamp,
}

impl View for MirrorLogin {
    type V = MirrorLoginView;

    open spec fn view(&self) -> MirrorLoginView {
        MirrorLoginView {
            login: self.login@,
            is_overridden: self.is_overridden,
            server_modified: self.server_modified,
        }
    }
}

impl MirrorLogin {
    pub fn copy(&self) -> (r: MirrorLogin)
        ensures
            r@ == self@,
    {
        MirrorLogin {
            login: self.login.copy(),
            is_overridden: self.is_overridden,
            server_modified: self.server_modified,
        }
    }
}

/// A row of the local table: a change that is still to be uploaded. The
/// modification time is in milliseconds since the epoch, on the local clock.
#[derive(Debug, Clone)]
pub struct LocalLogin {
    pub login: Login,
    pub sync_status: SyncStatus,
    pub is_deleted: bool,
    pub local_modified: i64,
}

pub struct LocalLoginView {
    pub login: LoginView,
    pub sync_status: SyncStatus,
    pub is_deleted: bool,
    pub local_modified: i64,
}

impl View for LocalLogin {
    type V = LocalLoginView;

    open spec fn view(&self) -> LocalLoginView {
        LocalLoginView {
            login: self.login@,
            sync_status: self.sync_status,
            is_deleted: self.is_deleted,
            local_modified: self.local_modified,
        }
    }
}

impl LocalLogin {
    pub fn copy(&self) -> (r: LocalLogin)
        ensures
            r@ == self@,
    {
        LocalLogin {
            login: self.login.copy(),
            sync_status: self.sync_status,
            is_deleted: self.is_deleted,
            local_modified: self.local_modified,
        }
    }
}

impl From<Login> for LocalLogin {
    /// A new, not deleted local row, modified at the epoch.
    fn from(login: Login) -> LocalLogin {
        LocalLogin { login, sync_status: SyncStatus::New, is_deleted: false, local_modified: 0 }
    }
}

impl vstd::std_specs::convert::FromSpecImpl<Login> for LocalLogin {
    open spec fn obeys_from_spec() -> bool {
        true
    }

    open spec fn from_spec(login: Login) -> LocalLogin {
        LocalLogin { login, sync_status: SyncStatus::New, is_deleted: false, local_modified: 0 }
    }
}

impl From<Login> for MirrorLogin {
    /// A mirror row that is not overridden, modified at server time zero.
    fn from(login: Login) -> MirrorLogin {
        MirrorLogin { login, is_overridden: false, server_modified: ServerTimestamp(0) }
    }
}

impl vstd::std_specs::convert::FromSpecImpl<Login> for MirrorLogin {
    open spec fn obeys_from_spec() -> bool {
        true
    }

    open spec fn from_spec(login: Login) -> MirrorLogin {
        MirrorLogin { login, is_overridden: false, server_modified: ServerTimestamp(0) }
    }
}

impl From<LocalLogin> for Login {
    fn from(l: LocalLogin) -> Login {
        l.login
    }
}

impl vstd::std_specs::convert::FromSpecImpl<LocalLogin> for Login {
    open spec fn obeys_from_spec() -> bool {
        true
    }

    open spec fn from_spec(l: LocalLogin) -> Login {
        l.login
    }
}

impl From<MirrorLogin> for Login {
    fn from(l: MirrorLogin) -> Login {
        l.login
    }
}

impl vstd::std_specs::convert::FromSpecImpl<MirrorLogin> for Login {
    open spec fn obeys_from_spec() -> bool {
        true
    }

    open spec fn from_spec(l: MirrorLogin) -> Login {
        l.login
    }
}

} // verus!
