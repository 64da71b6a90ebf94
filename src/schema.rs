//! The tables' layout in the storage engine, and the statements that create,
//! upgrade and drop it.
use vstd::prelude::*;
use crate::plan::ids_view;

verus! {

/// The schema version that this library writes.
pub const VERSION: i64 = 3;

pub const MIRROR_TABLE_NAME: &'static str = "loginsM";

pub const LOCAL_TABLE_NAME: &'static str = "loginsL";

pub const CREATE_LOCAL_TABLE_SQL: &'static str = "CREATE TABLE IF NOT EXISTS loginsL (
    id                  INTEGER PRIMARY KEY AUTOINCREMENT,
    hostname            TEXT NOT NULL,
    httpRealm           TEXT,
    formSubmitURL       TEXT,
    usernameField       TEXT,
    passwordField       TEXT,
    timesUsed           INTEGER NOT NULL DEFAULT 0,
    timeCreated         INTEGER NOT NULL,
    timeLastUsed        INTEGER,
    timePasswordChanged INTEGER NOT NULL,
    username            TEXT,
    password            TEXT NOT NULL,
    guid                TEXT NOT NULL UNIQUE,
    local_modified      INTEGER,
    is_deleted          TINYINT NOT NULL DEFAULT 0,
    sync_status         TINYINT NOT NULL DEFAULT 0
)";

pub const CREATE_MIRROR_TABLE_SQL: &'static str = "CREATE TABLE IF NOT EXISTS loginsM (
    id                  INTEGER PRIMARY KEY AUTOINCREMENT,
    hostname            TEXT NOT NULL,
    httpRealm           TEXT,
    formSubmitURL       TEXT,
    usernameField       TEXT,
    passwordField       TEXT,
    timesUsed           INTEGER NOT NULL DEFAULT 0,
    timeCreated         INTEGER NOT NULL,
    timeLastUsed        INTEGER,
    timePasswordChanged INTEGER NOT NULL,
    username            TEXT,
    password            TEXT NOT NULL,
    guid                TEXT NOT NULL UNIQUE,
    server_modified     INTEGER NOT NULL,
    is_overridden       TINYINT NOT NULL DEFAULT 0
)";

pub const CREATE_OVERRIDE_HOSTNAME_INDEX_SQL: &'static str =
    "CREATE INDEX IF NOT EXISTS idx_loginsM_is_overridden_hostname ON loginsM (is_overridden, hostname)";

pub const CREATE_DELETED_HOSTNAME_INDEX_SQL: &'static str =
    "CREATE INDEX IF NOT EXISTS idx_loginsL_is_deleted_hostname ON loginsL (is_deleted, hostname)";

pub const SET_VERSION_SQL: &'static str = "PRAGMA user_version = 3";

pub const DROP_MIRROR_TABLE_SQL: &'static str = "DROP TABLE IF EXISTS loginsM";

pub const DROP_LOCAL_TABLE_SQL: &'static str = "DROP TABLE IF EXISTS loginsL";

pub const RESET_VERSION_SQL: &'static str = "PRAGMA user_version = 0";

/// The statements that create the schema from nothing.
pub open spec fn create_sql() -> Seq<Seq<char>> {
    seq![
        CREATE_LOCAL_TABLE_SQL@,
        CREATE_MIRROR_TABLE_SQL@,
        CREATE_OVERRIDE_HOSTNAME_INDEX_SQL@,
        CREATE_DELETED_HOSTNAME_INDEX_SQL@,
        SET_VERSION_SQL@,
    ]
}

/// The statements that remove the schema.
pub open spec fn drop_sql() -> Seq<Seq<char>> {
    seq![DROP_MIRROR_TABLE_SQL@, DROP_LOCAL_TABLE_SQL@, RESET_VERSION_SQL@]
}

/// The statements that bring a schema of version `from` to [`VERSION`]:
/// none at the current version or above it, a rebuild from version zero,
/// and the two indexes below version three.
pub open spec fn upgrade_sql(from: i64) -> Seq<Seq<char>> {
    if from == VERSION {
        Seq::empty()
    } else if from == 0 {
        drop_sql() + create_sql()
    } else if from < 3 {
        seq![CREATE_OVERRIDE_HOSTNAME_INDEX_SQL@, CREATE_DELETED_HOSTNAME_INDEX_SQL@, SET_VERSION_SQL@]
    } else {
        Seq::empty()
    }
}

/// The statements to run on opening a store whose version is `user_version`:
/// an unversioned store without the legacy table list is created afresh,
/// any other store that is not current is upgraded.
pub open spec fn init_sql(user_version: i64, table_list_exists: bool) -> Seq<Seq<char>> {
    if user_version == 0 && !table_list_exists {
        create_sql()
    } else if user_version != VERSION {
        upgrade_sql(user_version)
    } else {
        Seq::empty()
    }
}

fn push_statement(v: &mut Vec<String>, s: &str)
    ensures
        ids_view(final(v)@) == ids_view(old(v)@).push(s@),
{
    v.push(String::from_str(s));
    assert(ids_view(v@) =~= ids_view(old(v)@).push(s@));
}

/// The statements that create the schema.
pub fn create() -> (r: Vec<String>)
    ensures
        ids_view(r@) == create_sql(),
{
    let mut v: Vec<String> = Vec::new();
    push_statement(&mut v, CREATE_LOCAL_TABLE_SQL);
    push_statement(&mut v, CREATE_MIRROR_TABLE_SQL);
    push_statement(&mut v, CREATE_OVERRIDE_HOSTNAME_INDEX_SQL);
    push_statement(&mut v, CREATE_DELETED_HOSTNAME_INDEX_SQL);
    push_statement(&mut v, SET_VERSION_SQL);
    assert(ids_view(v@) =~= create_sql());
    v
}

/// The statements that drop the schema.
pub fn drop() -> (r: Vec<String>)
    ensures
        ids_view(r@) == drop_sql(),
{
    let mut v: Vec<String> = Vec::new();
    push_statement(&mut v, DROP_MIRROR_TABLE_SQL);
    push_statement(&mut v, DROP_LOCAL_TABLE_SQL);
    push_statement(&mut v, RESET_VERSION_SQL);
    assert(ids_view(v@) =~= drop_sql());
    v
}

/// The statements that upgrade a schema of version `from`.
pub fn upgrade(from: i64) -> (r: Vec<String>)
    ensures
        ids_view(r@) == upgrade_sql(from),
{
    let to = VERSION;
    if from == to {
        let v: Vec<String> = Vec::new();
        assert(ids_view(v@) =~= Seq::<Seq<char>>::empty());
        return v;
    }
    if from == 0 {
        let mut v = drop();
        let ghost dropped = v@;
        let mut c = create();
        let ghost created = c@;
        v.append(&mut c);
        assert(ids_view(v@) =~= ids_view(dropped) + ids_view(created));
        return v;
    }
    let mut v: Vec<String> = Vec::new();
    if from < 3 {
        push_statement(&mut v, CREATE_OVERRIDE_HOSTNAME_INDEX_SQL);
        push_statement(&mut v, CREATE_DELETED_HOSTNAME_INDEX_SQL);
        push_statement(&mut v, SET_VERSION_SQL);
        assert(ids_view(v@) =~= upgrade_sql(from));
    } else {
        assert(ids_view(v@) =~= upgrade_sql(from));
    }
    v
}

/// The statements to run on opening a store at `user_version`, given
/// whether the legacy table list is present.
pub fn init(user_version: i64, table_list_exists: bool) -> (r: Vec<String>)
    ensures
        ids_view(r@) == init_sql(user_version, table_list_exists),
{
    if user_version == 0 && !table_list_exists {
        return create();
    }
    if user_version != VERSION {
        return upgrade(user_version);
    }
    let v: Vec<String> = Vec::new();
    assert(ids_view(v@) =~= Seq::<Seq<char>>::empty());
    v
}

} // verus!
