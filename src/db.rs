use vstd::prelude::*;
use crate::changeset::{
    change_ids, changes_view, data_view, opt_local_view, opt_login_view, opt_mirror_view,
    payload_id, payload_login, payloads_view, IncomingChangeset, OutgoingChangeset, Payload,
    PayloadView, SyncLoginData, SyncLoginDataView,
};
use crate::error::Error;
use crate::login::{
    opt_string_eq, opt_view, LocalLogin, LocalLoginView, Login, MirrorLogin, MirrorLoginView,
    ServerTimestamp, SyncStatus,
};
use crate::plan::{
    apply_local_updates, apply_mirror_inserts, apply_mirror_updates, contains_seq, execute,
    find_dupe, ids_view, insert_mirror, is_dupe, local_key, locals_view, mirror_key, mirrors_view,
    lemma_execute_unique, lemma_insert_mirror, reconcile, update_local, update_mirror, LoginDbView,
    UpdatePlan,
};
use crate::table::{find_by, lemma_remove_by, remove_by, unique_by};
use crate::util::{host_port, now_ms, url_host_port};

verus! {

/// The largest number of parameters that one statement of the storage engine
/// may bind; sets of identifiers are sent to it in chunks of this size.
pub const MAX_VARIABLE_NUMBER: usize = 999;

/// At most one local row and at most one mirror row for each identifier.
pub open spec fn tables_wf(db: LoginDbView) -> bool {
    unique_by(db.local, local_key()) && unique_by(db.mirror, mirror_key())
}

/// What the store knows of one incoming record: the record and the rows of
/// both tables that share its identifier.
pub open spec fn record_data(db: LoginDbView, c: (PayloadView, ServerTimestamp)) -> SyncLoginDataView {
    SyncLoginDataView {
        guid: payload_id(c.0),
        inbound: payload_login(c.0),
        inbound_ts: c.1,
        mirror: find_by(db.mirror, payload_id(c.0), mirror_key()),
        local: find_by(db.local, payload_id(c.0), local_key()),
    }
}

pub open spec fn login_data(db: LoginDbView, changes: Seq<(PayloadView, ServerTimestamp)>) -> Seq<
    SyncLoginDataView,
> {
    changes.map_values(|c: (PayloadView, ServerTimestamp)| record_data(db, c))
}

/// The first identifier that occurs a second time, at the place of that
/// second occurrence.
pub open spec fn first_dup(ids: Seq<Seq<char>>) -> Option<Seq<char>>
    decreases ids.len(),
{
    if ids.len() == 0 {
        None
    } else {
        match first_dup(ids.drop_last()) {
            Some(x) => Some(x),
            None => if ids.drop_last().contains(ids.last()) {
                Some(ids.last())
            } else {
                None
            },
        }
    }
}

/// Once a prefix holds a repeated identifier, the whole sequence reports the
/// same one.
pub proof fn lemma_first_dup_prefix(s: Seq<Seq<char>>, n: int)
    requires
        0 <= n <= s.len(),
    ensures
        first_dup(s.take(n)) is Some ==> first_dup(s) == first_dup(s.take(n)),
    decreases s.len() - n,
{
    if n == s.len() {
        assert(s.take(n) =~= s);
    } else {
        assert(s.take(n + 1).drop_last() =~= s.take(n));
        lemma_first_dup_prefix(s, n + 1);
    }
}

/// The tables after an incoming batch without repeated identifiers.
pub open spec fn apply_incoming_result(
    db: LoginDbView,
    changes: Seq<(PayloadView, ServerTimestamp)>,
    server_now: ServerTimestamp,
    now: i64,
) -> LoginDbView {
    execute(db, reconcile(db.local, login_data(db, changes), server_now, now), now)
}

/// The record to upload for a local row: a tombstone for a deleted row, the
/// login otherwise.
pub open spec fn payload_of(r: LocalLoginView) -> PayloadView {
    if r.is_deleted {
        PayloadView::Tombstone(r.login.id)
    } else {
        PayloadView::Record(r.login)
    }
}

/// The records to upload: one for each local row that is not synced, in
/// table order.
pub open spec fn outgoing_of(rows: Seq<LocalLoginView>) -> Seq<PayloadView>
    decreases rows.len(),
{
    if rows.len() == 0 {
        Seq::empty()
    } else {
        let prev = outgoing_of(rows.drop_last());
        if rows.last().sync_status != SyncStatus::Synced {
            prev.push(payload_of(rows.last()))
        } else {
            prev
        }
    }
}

/// Lifts each local row that is listed and not deleted into the mirror, not
/// overridden, at time `ts`, unless the mirror has that identifier.
pub open spec fn lift(
    m: Seq<MirrorLoginView>,
    rows: Seq<LocalLoginView>,
    ids: Seq<Seq<char>>,
    ts: ServerTimestamp,
) -> Seq<MirrorLoginView>
    decreases rows.len(),
{
    if rows.len() == 0 {
        m
    } else {
        let m0 = lift(m, rows.drop_last(), ids, ts);
        let r = rows.last();
        if ids.contains(r.login.id) && !r.is_deleted {
            insert_mirror(m0, r.login, ts.0, false)
        } else {
            m0
        }
    }
}

/// The tables after a successful upload of the records `ids`: their mirror
/// rows are replaced by their local rows, which leave the local table.
pub open spec fn synced(db: LoginDbView, ids: Seq<Seq<char>>, ts: ServerTimestamp) -> LoginDbView {
    LoginDbView {
        local: remove_by(db.local, ids, local_key()),
        mirror: lift(remove_by(db.mirror, ids, mirror_key()), db.local, ids, ts),
    }
}

/// Relies on str::contains with a string pattern: whether `needle` occurs in
/// `hay`.
#[verifier::external_body]
fn str_contains(hay: &str, needle: &str) -> (r: bool)
    ensures
        r == contains_seq(hay@, needle@),
{
    hay.contains(needle)
}

fn contains_id(ids: &Vec<String>, id: &String) -> (r: bool)
    ensures
        r == ids_view(ids@).contains(id@),
{
    let mut i: usize = 0;
    while i < ids.len()
        invariant
            i <= ids.len(),
            forall|k: int| 0 <= k < i ==> ids@[k]@ != id@,
        decreases ids.len() - i,
    {
        if ids[i].eq(id) {
            assert(ids_view(ids@)[i as int] == id@);
            return true;
        }
        i = i + 1;
    }
    proof {
        if ids_view(ids@).contains(id@) {
            let k = choose|k: int| 0 <= k < ids_view(ids@).len() && ids_view(ids@)[k] == id@;
            assert(ids@[k]@ == id@);
        }
    }
    false
}

fn find_local_row(rows: &Vec<LocalLogin>, id: &String) -> (r: Option<LocalLogin>)
    ensures
        opt_local_view(r) == find_by(locals_view(rows@), id@, local_key()),
{
    let mut found: Option<LocalLogin> = None;
    let mut i: usize = 0;
    while i < rows.len()
        invariant
            i <= rows.len(),
            opt_local_view(found) == find_by(locals_view(rows@).take(i as int), id@, local_key()),
        decreases rows.len() - i,
    {
        assert(locals_view(rows@).take(i + 1).drop_last() =~= locals_view(rows@).take(i as int));
        if found.is_none() && rows[i].login.id.eq(id) {
            found = Some(rows[i].copy());
        }
        i = i + 1;
    }
    assert(locals_view(rows@).take(rows.len() as int) =~= locals_view(rows@));
    found
}

fn find_mirror_row(rows: &Vec<MirrorLogin>, id: &String) -> (r: Option<MirrorLogin>)
    ensures
        opt_mirror_view(r) == find_by(mirrors_view(rows@), id@, mirror_key()),
{
    let mut found: Option<MirrorLogin> = None;
    let mut i: usize = 0;
    while i < rows.len()
        invariant
            i <= rows.len(),
            opt_mirror_view(found) == find_by(mirrors_view(rows@).take(i as int), id@, mirror_key()),
        decreases rows.len() - i,
    {
        assert(mirrors_view(rows@).take(i + 1).drop_last() =~= mirrors_view(rows@).take(i as int));
        if found.is_none() && rows[i].login.id.eq(id) {
            found = Some(rows[i].copy());
        }
        i = i + 1;
    }
    assert(mirrors_view(rows@).take(rows.len() as int) =~= mirrors_view(rows@));
    found
}

fn remove_local_rows(rows: &Vec<LocalLogin>, ids: &Vec<String>) -> (r: Vec<LocalLogin>)
    ensures
        locals_view(r@) == remove_by(locals_view(rows@), ids_view(ids@), local_key()),
{
    let mut kept: Vec<LocalLogin> = Vec::new();
    let mut i: usize = 0;
    while i < rows.len()
        invariant
            i <= rows.len(),
            locals_view(kept@) == remove_by(
                locals_view(rows@).take(i as int),
                ids_view(ids@),
                local_key(),
            ),
        decreases rows.len() - i,
    {
        assert(locals_view(rows@).take(i + 1).drop_last() =~= locals_view(rows@).take(i as int));
        if !contains_id(ids, &rows[i].login.id) {
            let ghost before = kept@;
            kept.push(rows[i].copy());
            assert(locals_view(kept@) =~= locals_view(before).push(rows@[i as int]@));
        }
        i = i + 1;
    }
    assert(locals_view(rows@).take(rows.len() as int) =~= locals_view(rows@));
    kept
}

fn remove_mirror_rows(rows: &Vec<MirrorLogin>, ids: &Vec<String>) -> (r: Vec<MirrorLogin>)
    ensures
        mirrors_view(r@) == remove_by(mirrors_view(rows@), ids_view(ids@), mirror_key()),
{
    let mut kept: Vec<MirrorLogin> = Vec::new();
    let mut i: usize = 0;
    while i < rows.len()
        invariant
            i <= rows.len(),
            mirrors_view(kept@) == remove_by(
                mirrors_view(rows@).take(i as int),
                ids_view(ids@),
                mirror_key(),
            ),
        decreases rows.len() - i,
    {
        assert(mirrors_view(rows@).take(i + 1).drop_last() =~= mirrors_view(rows@).take(i as int));
        if !contains_id(ids, &rows[i].login.id) {
            let ghost before = kept@;
            kept.push(rows[i].copy());
            assert(mirrors_view(kept@) =~= mirrors_view(before).push(rows@[i as int]@));
        }
        i = i + 1;
    }
    assert(mirrors_view(rows@).take(rows.len() as int) =~= mirrors_view(rows@));
    kept
}

fn update_mirror_rows(rows: &mut Vec<MirrorLogin>, login: &Login, ts: i64)
    ensures
        mirrors_view(final(rows)@) == update_mirror(mirrors_view(old(rows)@), login@, ts),
{
    let ghost orig = mirrors_view(rows@);
    let ghost target = update_mirror(orig, login@, ts);
    let mut i: usize = 0;
    while i < rows.len()
        invariant
            i <= rows.len(),
            rows@.len() == orig.len(),
            orig == mirrors_view(old(rows)@),
            target == update_mirror(orig, login@, ts),
            forall|k: int| 0 <= k < i ==> #[trigger] rows@[k]@ == target[k],
            forall|k: int| i <= k < rows@.len() ==> #[trigger] rows@[k]@ == orig[k],
        decreases rows.len() - i,
    {
        assert(rows@[i as int]@ == orig[i as int]);
        if rows[i].login.id.eq(&login.id) {
            let row = MirrorLogin {
                login: login.copy(),
                is_overridden: rows[i].is_overridden,
                server_modified: ServerTimestamp(ts),
            };
            rows.set(i, row);
        }
        assert(rows@[i as int]@ == target[i as int]);
        i = i + 1;
    }
    assert(mirrors_view(rows@) =~= target);
}

fn update_local_rows(rows: &mut Vec<LocalLogin>, m: &MirrorLogin, now: i64)
    ensures
        locals_view(final(rows)@) == update_local(locals_view(old(rows)@), m@, now),
{
    let ghost orig = locals_view(rows@);
    let ghost target = update_local(orig, m@, now);
    let mut i: usize = 0;
    while i < rows.len()
        invariant
            i <= rows.len(),
            rows@.len() == orig.len(),
            orig == locals_view(old(rows)@),
            target == update_local(orig, m@, now),
            forall|k: int| 0 <= k < i ==> #[trigger] rows@[k]@ == target[k],
            forall|k: int| i <= k < rows@.len() ==> #[trigger] rows@[k]@ == orig[k],
        decreases rows.len() - i,
    {
        assert(rows@[i as int]@ == orig[i as int]);
        if rows[i].login.id.eq(&m.login.id) {
            let row = LocalLogin {
                login: m.login.copy(),
                sync_status: SyncStatus::Changed,
                is_deleted: rows[i].is_deleted,
                local_modified: now,
            };
            rows.set(i, row);
        }
        assert(rows@[i as int]@ == target[i as int]);
        i = i + 1;
    }
    assert(locals_view(rows@) =~= target);
}

fn insert_mirror_row(rows: &mut Vec<MirrorLogin>, login: &Login, ts: i64, is_overridden: bool)
    ensures
        mirrors_view(final(rows)@) == insert_mirror(
            mirrors_view(old(rows)@),
            login@,
            ts,
            is_overridden,
        ),
{
    let existing = find_mirror_row(rows, &login.id);
    if existing.is_none() {
        let row = MirrorLogin {
            login: login.copy(),
            is_overridden,
            server_modified: ServerTimestamp(ts),
        };
        let ghost rv = row@;
        rows.push(row);
        assert(mirrors_view(rows@) =~= mirrors_view(old(rows)@).push(rv));
    }
}

/// Whether a stored login is a duplicate of `l`, given the host and port of
/// `l`'s form submit URL.
fn dupe_matches(row: &Login, l: &Login, host_port_of_l: &Option<String>) -> (r: bool)
    requires
        opt_view(*host_port_of_l) == (match l@.form_submit_url {
            Some(u) => host_port(u),
            None => None,
        }),
    ensures
        r == is_dupe(row@, l@),
{
    if !opt_string_eq(&row.hostname, &l.hostname) {
        return false;
    }
    if !opt_string_eq(&row.http_realm, &l.http_realm) {
        return false;
    }
    if !row.username.eq(&l.username) {
        return false;
    }
    match host_port_of_l {
        Some(hp) => match &row.form_submit_url {
            Some(f) => f.as_str().is_empty() || str_contains(f.as_str(), hp.as_str()),
            None => false,
        },
        None => row.form_submit_url.is_none(),
    }
}

/// No identifier occurs twice.
pub open spec fn distinct(ids: Seq<Seq<char>>) -> bool {
    forall|i: int, j: int|
        0 <= i < ids.len() && 0 <= j < ids.len() && #[trigger] ids[i] == #[trigger] ids[j] ==> i == j
}

/// A sequence reports no repeated identifier exactly when its entries are
/// distinct.
pub proof fn lemma_first_dup_distinct(ids: Seq<Seq<char>>)
    ensures
        first_dup(ids) is None <==> distinct(ids),
    decreases ids.len(),
{
    if ids.len() > 0 {
        let p = ids.drop_last();
        let n = ids.len() - 1;
        lemma_first_dup_distinct(p);
        if first_dup(ids) is None {
            assert forall|i: int, j: int|
                0 <= i < ids.len() && 0 <= j < ids.len() && #[trigger] ids[i] == #[trigger] ids[j] implies i
                == j by {
                if i < n && j < n {
                    assert(p[i] == ids[i] && p[j] == ids[j]);
                } else if i < n {
                    assert(p[i] == ids[i]);
                    assert(p.contains(ids.last()));
                } else if j < n {
                    assert(p[j] == ids[j]);
                    assert(p.contains(ids.last()));
                }
            }
        } else {
            if first_dup(p) is Some {
                let (i, j) = choose|i: int, j: int|
                    0 <= i < p.len() && 0 <= j < p.len() && #[trigger] p[i] == #[trigger] p[j] && i
                        != j;
                assert(ids[i] == ids[j]);
            } else {
                let k = choose|k: int| 0 <= k < p.len() && p[k] == ids.last();
                assert(ids[k] == ids[n]);
            }
        }
    }
}

/// The first identifier that occurs twice in `ids`, if any.
fn first_repeated(ids: &Vec<String>) -> (r: Option<String>)
    ensures
        opt_view(r) == first_dup(ids_view(ids@)),
{
    let ghost all = ids_view(ids@);
    let mut seen: Vec<String> = Vec::new();
    let mut i: usize = 0;
    while i < ids.len()
        invariant
            i <= ids.len(),
            all == ids_view(ids@),
            ids_view(seen@) == all.take(i as int),
            first_dup(all.take(i as int)) is None,
        decreases ids.len() - i,
    {
        assert(all.take(i + 1).drop_last() =~= all.take(i as int));
        if contains_id(&seen, &ids[i]) {
            proof {
                lemma_first_dup_prefix(all, i + 1);
            }
            return Some(ids[i].clone());
        }
        let ghost before = seen@;
        seen.push(ids[i].clone());
        assert(ids_view(seen@) =~= ids_view(before).push(all[i as int]));
        i = i + 1;
    }
    assert(all.take(ids.len() as int) =~= all);
    None
}

/// Lifting rows into a mirror keeps identifiers unique.
pub proof fn lemma_lift_unique(
    m: Seq<MirrorLoginView>,
    rows: Seq<LocalLoginView>,
    ids: Seq<Seq<char>>,
    ts: ServerTimestamp,
)
    requires
        unique_by(m, mirror_key()),
    ensures
        unique_by(lift(m, rows, ids, ts), mirror_key()),
    decreases rows.len(),
{
    if rows.len() > 0 {
        lemma_lift_unique(m, rows.drop_last(), ids, ts);
        let r = rows.last();
        lemma_insert_mirror(lift(m, rows.drop_last(), ids, ts), r.login, ts.0, false);
    }
}

/// The store: a local table of pending changes and a mirror table of what
/// the server last confirmed.
pub struct LoginDb {
    local: Vec<LocalLogin>,
    mirror: Vec<MirrorLogin>,
}

impl View for LoginDb {
    type V = LoginDbView;

    closed spec fn view(&self) -> LoginDbView {
        LoginDbView { local: locals_view(self.local@), mirror: mirrors_view(self.mirror@) }
    }
}

impl LoginDb {
    /// The store's invariant: no identifier has two rows in one table.
    #[verifier::type_invariant]
    spec fn wf(&self) -> bool {
        tables_wf(self@)
    }

    /// An empty store.
    pub fn new() -> (r: LoginDb)
        ensures
            r@.local.len() == 0,
            r@.mirror.len() == 0,
    {
        LoginDb { local: Vec::new(), mirror: Vec::new() }
    }

    /// A store holding the given rows; refused where one table has two rows
    /// with one identifier.
    pub fn from_rows(local: Vec<LocalLogin>, mirror: Vec<MirrorLogin>) -> (r: Result<LoginDb, Error>)
        ensures
            r is Ok <==> tables_wf(LoginDbView { local: locals_view(local@), mirror: mirrors_view(mirror@) }),
            r is Ok ==> r->Ok_0@ == (LoginDbView {
                local: locals_view(local@),
                mirror: mirrors_view(mirror@),
            }),
            r is Err ==> r->Err_0 is DuplicateGuid,
    {
        let mut local_ids: Vec<String> = Vec::new();
        let mut i: usize = 0;
        while i < local.len()
            invariant
                i <= local.len(),
                local_ids@.len() == i,
                forall|k: int| 0 <= k < i ==> #[trigger] local_ids@[k]@ == local@[k].login.id@,
            decreases local.len() - i,
        {
            local_ids.push(local[i].login.id.clone());
            i = i + 1;
        }
        let mut mirror_ids: Vec<String> = Vec::new();
        let mut j: usize = 0;
        while j < mirror.len()
            invariant
                j <= mirror.len(),
                mirror_ids@.len() == j,
                forall|k: int| 0 <= k < j ==> #[trigger] mirror_ids@[k]@ == mirror@[k].login.id@,
            decreases mirror.len() - j,
        {
            mirror_ids.push(mirror[j].login.id.clone());
            j = j + 1;
        }
        let ghost lv = locals_view(local@);
        let ghost mv = mirrors_view(mirror@);
        let ghost li = ids_view(local_ids@);
        let ghost mi = ids_view(mirror_ids@);
        proof {
            lemma_first_dup_distinct(li);
            lemma_first_dup_distinct(mi);
            assert(distinct(li) <==> unique_by(lv, local_key())) by {
                if distinct(li) {
                    assert forall|a: int, b: int|
                        0 <= a < lv.len() && 0 <= b < lv.len() && #[trigger] local_key()(lv[a])
                            == #[trigger] local_key()(lv[b]) implies a == b by {
                        assert(li[a] == li[b]);
                    }
                }
                if unique_by(lv, local_key()) {
                    assert forall|a: int, b: int|
                        0 <= a < li.len() && 0 <= b < li.len() && #[trigger] li[a] == #[trigger] li[b] implies a
                        == b by {
                        assert(local_key()(lv[a]) == local_key()(lv[b]));
                    }
                }
            }
            assert(distinct(mi) <==> unique_by(mv, mirror_key())) by {
                if distinct(mi) {
                    assert forall|a: int, b: int|
                        0 <= a < mv.len() && 0 <= b < mv.len() && #[trigger] mirror_key()(mv[a])
                            == #[trigger] mirror_key()(mv[b]) implies a == b by {
                        assert(mi[a] == mi[b]);
                    }
                }
                if unique_by(mv, mirror_key()) {
                    assert forall|a: int, b: int|
                        0 <= a < mi.len() && 0 <= b < mi.len() && #[trigger] mi[a] == #[trigger] mi[b] implies a
                        == b by {
                        assert(mirror_key()(mv[a]) == mirror_key()(mv[b]));
                    }
                }
            }
        }
        if let Some(g) = first_repeated(&local_ids) {
            return Err(Error::DuplicateGuid(g));
        }
        if let Some(g) = first_repeated(&mirror_ids) {
            return Err(Error::DuplicateGuid(g));
        }
        Ok(LoginDb { local, mirror })
    }

    /// The rows of the local table; no two share an identifier.
    pub fn local_rows(&self) -> (r: &Vec<LocalLogin>)
        ensures
            locals_view(r@) == self@.local,
            unique_by(self@.local, local_key()),
    {
        proof {
            use_type_invariant(self);
        }
        &self.local
    }

    /// The rows of the mirror table; no two share an identifier.
    pub fn mirror_rows(&self) -> (r: &Vec<MirrorLogin>)
        ensures
            mirrors_view(r@) == self@.mirror,
            unique_by(self@.mirror, mirror_key()),
    {
        proof {
            use_type_invariant(self);
        }
        &self.mirror
    }

    /// Whether anything was ever synced: the mirror has a row, or a local row
    /// is not new.
    pub fn have_synced_logins(&self) -> (r: bool)
        ensures
            r == (self@.mirror.len() > 0 || exists|k: int|
                0 <= k < self@.local.len() && #[trigger] self@.local[k].sync_status
                    != SyncStatus::New),
    {
        if self.mirror.len() > 0 {
            return true;
        }
        let mut i: usize = 0;
        while i < self.local.len()
            invariant
                i <= self.local.len(),
                forall|k: int| 0 <= k < i ==> self@.local[k].sync_status == SyncStatus::New,
            decreases self.local.len() - i,
        {
            if self.local[i].sync_status != SyncStatus::New {
                assert(self@.local[i as int].sync_status != SyncStatus::New);
                return true;
            }
            i = i + 1;
        }
        false
    }

    /// The first local row that duplicates `l` under another identifier.
    fn find_dupe(&self, l: &Login) -> (r: Option<Login>)
        ensures
            opt_login_view(r) == find_dupe(self@.local, l@),
    {
        let form_submit_host_port = match &l.form_submit_url {
            Some(s) => url_host_port(s.as_str()),
            None => None,
        };
        let mut found: Option<Login> = None;
        let mut i: usize = 0;
        while i < self.local.len()
            invariant
                i <= self.local.len(),
                opt_view(form_submit_host_port) == (match l@.form_submit_url {
                    Some(u) => host_port(u),
                    None => None,
                }),
                opt_login_view(found) == find_dupe(self@.local.take(i as int), l@),
            decreases self.local.len() - i,
        {
            assert(self@.local.take(i + 1).drop_last() =~= self@.local.take(i as int));
            if found.is_none() && dupe_matches(&self.local[i].login, l, &form_submit_host_port) {
                found = Some(self.local[i].login.copy());
            }
            i = i + 1;
        }
        assert(self@.local.take(self.local.len() as int) =~= self@.local);
        found
    }

    /// Pairs each incoming record with the stored rows of its identifier;
    /// a batch that names an identifier twice is refused.
    fn fetch_login_data(&self, records: &Vec<(Payload, ServerTimestamp)>) -> (r: Result<
        Vec<SyncLoginData>,
        Error,
    >)
        ensures
            match r {
                Ok(d) => first_dup(change_ids(changes_view(records@))) is None && data_view(d@)
                    == login_data(self@, changes_view(records@)),
                Err(e) => first_dup(change_ids(changes_view(records@))) is Some && match e {
                    Error::DuplicateGuid(g) => g@ == first_dup(
                        change_ids(changes_view(records@)),
                    )->0,
                    _ => false,
                },
            },
    {
        let ghost ids = change_ids(changes_view(records@));
        let ghost cv = changes_view(records@);
        let mut seen: Vec<String> = Vec::new();
        let mut data: Vec<SyncLoginData> = Vec::new();
        let mut i: usize = 0;
        while i < records.len()
            invariant
                i <= records.len(),
                ids == change_ids(changes_view(records@)),
                cv == changes_view(records@),
                ids_view(seen@) == ids.take(i as int),
                first_dup(ids.take(i as int)) is None,
                data_view(data@) == login_data(self@, cv.take(i as int)),
            decreases records.len() - i,
        {
            assert(ids.take(i + 1).drop_last() =~= ids.take(i as int));
            let id = records[i].0.id();
            if contains_id(&seen, id) {
                proof {
                    assert(ids.take(i + 1).last() == id@);
                    lemma_first_dup_prefix(ids, i + 1);
                }
                return Err(Error::DuplicateGuid(id.clone()));
            }
            let ghost seen_before = seen@;
            seen.push(id.clone());
            assert(ids_view(seen@) =~= ids_view(seen_before).push(id@));
            let inbound = match &records[i].0 {
                Payload::Tombstone(_) => None,
                Payload::Record(l) => Some(l.copy()),
            };
            let item = SyncLoginData {
                guid: id.clone(),
                inbound: (inbound, records[i].1),
                mirror: find_mirror_row(&self.mirror, id),
                local: find_local_row(&self.local, id),
            };
            assert(item@ == record_data(self@, cv[i as int]));
            let ghost data_before = data@;
            let ghost item_view = item@;
            data.push(item);
            assert(data_view(data@) =~= data_view(data_before).push(item_view));
            assert(data_view(data@) =~= login_data(self@, cv.take(i + 1)));
            i = i + 1;
        }
        assert(ids.take(records.len() as int) =~= ids);
        assert(cv.take(records.len() as int) =~= cv);
        Ok(data)
    }

    /// The plan for a batch: each record is deleted, three-way merged, forwarded
    /// to the mirror, two-way merged (against its own local row or a
    /// duplicate), or inserted into the mirror.
    fn reconcile(&self, records: Vec<SyncLoginData>, server_now: ServerTimestamp, now: i64) -> (r:
        UpdatePlan)
        ensures
            r@ == reconcile(self@.local, data_view(records@), server_now, now),
    {
        let ghost dv = data_view(records@);
        let mut plan = UpdatePlan::new();
        let mut i: usize = 0;
        while i < records.len()
            invariant
                i <= records.len(),
                dv == data_view(records@),
                plan@ == reconcile(self@.local, dv.take(i as int), server_now, now),
            decreases records.len() - i,
        {
            assert(dv.take(i + 1).drop_last() =~= dv.take(i as int));
            let record = &records[i];
            match &record.inbound.0 {
                None => {
                    plan.plan_delete(record.guid.clone());
                },
                Some(up) => {
                    let upstream = up.copy();
                    let upstream_time = record.inbound.1;
                    match (&record.mirror, &record.local) {
                        (Some(mirror), Some(local)) => {
                            plan.plan_three_way_merge(
                                local.copy(),
                                mirror.copy(),
                                upstream,
                                upstream_time,
                                server_now,
                                now,
                            );
                        },
                        (Some(_), None) => {
                            plan.plan_mirror_update(upstream, upstream_time);
                        },
                        (None, Some(local)) => {
                            plan.plan_two_way_merge(&local.login, (upstream, upstream_time));
                        },
                        (None, None) => {
                            match self.find_dupe(&upstream) {
                                Some(dupe) => {
                                    plan.plan_two_way_merge(&dupe, (upstream, upstream_time));
                                },
                                None => {
                                    plan.plan_mirror_insert(upstream, upstream_time, false);
                                },
                            }
                        },
                    }
                },
            }
            i = i + 1;
        }
        assert(dv.take(records.len() as int) =~= dv);
        plan
    }

    /// The records to upload: each local row that is not synced.
    pub fn fetch_outgoing(&self, st: ServerTimestamp) -> (r: OutgoingChangeset)
        ensures
            r.collection@ == "passwords"@,
            r.timestamp == st,
            payloads_view(r.changes@) == outgoing_of(self@.local),
    {
        let mut changes: Vec<Payload> = Vec::new();
        let mut i: usize = 0;
        while i < self.local.len()
            invariant
                i <= self.local.len(),
                payloads_view(changes@) == outgoing_of(self@.local.take(i as int)),
            decreases self.local.len() - i,
        {
            assert(self@.local.take(i + 1).drop_last() =~= self@.local.take(i as int));
            let row = &self.local[i];
            if row.sync_status != SyncStatus::Synced {
                let p = if row.is_deleted {
                    Payload::Tombstone(row.login.id.clone())
                } else {
                    Payload::Record(row.login.copy())
                };
                let ghost before = changes@;
                let ghost pv = p@;
                changes.push(p);
                assert(payloads_view(changes@) =~= payloads_view(before).push(pv));
            }
            i = i + 1;
        }
        assert(self@.local.take(self.local.len() as int) =~= self@.local);
        OutgoingChangeset { collection: String::from_str("passwords"), timestamp: st, changes }
    }
}


impl UpdatePlan {
    fn perform_deletes(&self, local: &mut Vec<LocalLogin>, mirror: &mut Vec<MirrorLogin>)
        ensures
            locals_view(final(local)@) == remove_by(
                locals_view(old(local)@),
                self@.delete_local,
                local_key(),
            ),
            mirrors_view(final(mirror)@) == remove_by(
                mirrors_view(old(mirror)@),
                self@.delete_mirror,
                mirror_key(),
            ),
    {
        *local = remove_local_rows(local, &self.delete_local);
        *mirror = remove_mirror_rows(mirror, &self.delete_mirror);
    }

    fn perform_mirror_updates(&self, mirror: &mut Vec<MirrorLogin>)
        ensures
            mirrors_view(final(mirror)@) == apply_mirror_updates(
                mirrors_view(old(mirror)@),
                self@.mirror_updates,
            ),
    {
        let mut j: usize = 0;
        while j < self.mirror_updates.len()
            invariant
                j <= self.mirror_updates.len(),
                mirrors_view(mirror@) == apply_mirror_updates(
                    mirrors_view(old(mirror)@),
                    self@.mirror_updates.take(j as int),
                ),
            decreases self.mirror_updates.len() - j,
        {
            assert(self@.mirror_updates.take(j + 1).drop_last() =~= self@.mirror_updates.take(
                j as int,
            ));
            update_mirror_rows(mirror, &self.mirror_updates[j].0, self.mirror_updates[j].1);
            j = j + 1;
        }
        assert(self@.mirror_updates.take(self.mirror_updates.len() as int)
            =~= self@.mirror_updates);
    }

    fn perform_mirror_inserts(&self, mirror: &mut Vec<MirrorLogin>)
        ensures
            mirrors_view(final(mirror)@) == apply_mirror_inserts(
                mirrors_view(old(mirror)@),
                self@.mirror_inserts,
            ),
    {
        let mut j: usize = 0;
        while j < self.mirror_inserts.len()
            invariant
                j <= self.mirror_inserts.len(),
                mirrors_view(mirror@) == apply_mirror_inserts(
                    mirrors_view(old(mirror)@),
                    self@.mirror_inserts.take(j as int),
                ),
            decreases self.mirror_inserts.len() - j,
        {
            assert(self@.mirror_inserts.take(j + 1).drop_last() =~= self@.mirror_inserts.take(
                j as int,
            ));
            let entry = &self.mirror_inserts[j];
            insert_mirror_row(mirror, &entry.0, entry.1, entry.2);
            j = j + 1;
        }
        assert(self@.mirror_inserts.take(self.mirror_inserts.len() as int)
            =~= self@.mirror_inserts);
    }

    fn perform_local_updates(&self, local: &mut Vec<LocalLogin>, now: i64)
        ensures
            locals_view(final(local)@) == apply_local_updates(
                locals_view(old(local)@),
                self@.local_updates,
                now,
            ),
    {
        let mut j: usize = 0;
        while j < self.local_updates.len()
            invariant
                j <= self.local_updates.len(),
                locals_view(local@) == apply_local_updates(
                    locals_view(old(local)@),
                    self@.local_updates.take(j as int),
                    now,
                ),
            decreases self.local_updates.len() - j,
        {
            assert(self@.local_updates.take(j + 1).drop_last() =~= self@.local_updates.take(
                j as int,
            ));
            update_local_rows(local, &self.local_updates[j], now);
            j = j + 1;
        }
        assert(self@.local_updates.take(self.local_updates.len() as int) =~= self@.local_updates);
    }

    /// Applies the plan: deletes, then mirror updates, then mirror inserts
    /// (ignored where the mirror has the identifier), then local updates
    /// stamped with `now`.
    pub fn execute(&self, db: &mut LoginDb, now: i64)
        ensures
            final(db)@ == execute(old(db)@, self@, now),
    {
        proof {
            use_type_invariant(&*db);
        }
        let mut local: Vec<LocalLogin> = Vec::new();
        let mut mirror: Vec<MirrorLogin> = Vec::new();
        std::mem::swap(&mut local, &mut db.local);
        std::mem::swap(&mut mirror, &mut db.mirror);
        self.perform_deletes(&mut local, &mut mirror);
        self.perform_mirror_updates(&mut mirror);
        self.perform_mirror_inserts(&mut mirror);
        self.perform_local_updates(&mut local, now);
        proof {
            lemma_execute_unique(old(db)@, self@, now);
        }
        db.local = local;
        db.mirror = mirror;
    }
}

impl LoginDb {
    fn execute_plan(&mut self, plan: UpdatePlan, now: i64)
        ensures
            final(self)@ == execute(old(self)@, plan@, now),
    {
        plan.execute(self, now);
    }

    /// Moves the records `guids` to the synced state: their mirror rows are
    /// replaced by their (not deleted) local rows, not overridden and stamped
    /// `ts`, and their local rows are removed.
    fn mark_as_synchronized(&mut self, guids: &Vec<String>, ts: ServerTimestamp)
        ensures
            final(self)@ == synced(old(self)@, ids_view(guids@), ts),
    {
        proof {
            use_type_invariant(&*self);
        }
        let ghost ids = ids_view(guids@);
        let ghost base = remove_by(self@.mirror, ids, mirror_key());
        let mut mirror = remove_mirror_rows(&self.mirror, guids);
        let mut i: usize = 0;
        while i < self.local.len()
            invariant
                i <= self.local.len(),
                ids == ids_view(guids@),
                base == remove_by(self@.mirror, ids, mirror_key()),
                mirrors_view(mirror@) == lift(base, self@.local.take(i as int), ids, ts),
            decreases self.local.len() - i,
        {
            assert(self@.local.take(i + 1).drop_last() =~= self@.local.take(i as int));
            let row = &self.local[i];
            if contains_id(guids, &row.login.id) && !row.is_deleted {
                insert_mirror_row(&mut mirror, &row.login, ts.0, false);
            }
            i = i + 1;
        }
        assert(self@.local.take(self.local.len() as int) =~= self@.local);
        proof {
            lemma_remove_by(old(self)@.mirror, ids, mirror_key());
            lemma_remove_by(old(self)@.local, ids, local_key());
            lemma_lift_unique(base, old(self)@.local, ids, ts);
        }
        self.local = remove_local_rows(&self.local, guids);
        self.mirror = mirror;
    }

    /// Called once the server has accepted an upload of `records_synced`.
    pub fn sync_finished(&mut self, new_timestamp: ServerTimestamp, records_synced: &[String])
        ensures
            final(self)@ == synced(old(self)@, ids_view(records_synced@), new_timestamp),
    {
        let mut guids: Vec<String> = Vec::new();
        let mut i: usize = 0;
        while i < records_synced.len()
            invariant
                i <= records_synced.len(),
                ids_view(guids@) == ids_view(records_synced@).take(i as int),
            decreases records_synced.len() - i,
        {
            let ghost before = guids@;
            let g = records_synced[i].clone();
            assert(g@ == ids_view(records_synced@)[i as int]);
            guids.push(g);
            assert(ids_view(guids@) =~= ids_view(before).push(ids_view(records_synced@)[i as int]));
            assert(ids_view(records_synced@).take(i + 1) =~= ids_view(records_synced@).take(
                i as int,
            ).push(ids_view(records_synced@)[i as int]));
            i = i + 1;
        }
        assert(ids_view(records_synced@).take(records_synced.len() as int) =~= ids_view(
            records_synced@,
        ));
        self.mark_as_synchronized(&guids, new_timestamp);
    }

    /// Applies an incoming batch at local time `now` (milliseconds since the
    /// epoch) and returns the records still to upload. A batch that names one
    /// identifier twice is refused and changes nothing.
    pub fn apply_incoming_at(&mut self, inbound: IncomingChangeset, now: i64) -> (r: Result<
        OutgoingChangeset,
        Error,
    >)
        ensures
            first_dup(change_ids(changes_view(inbound.changes@))) is Some ==> final(self)@ == old(
                self,
            )@ && match r {
                Err(Error::DuplicateGuid(g)) => g@ == first_dup(
                    change_ids(changes_view(inbound.changes@)),
                )->0,
                _ => false,
            },
            first_dup(change_ids(changes_view(inbound.changes@))) is None ==> final(self)@
                == apply_incoming_result(
                old(self)@,
                changes_view(inbound.changes@),
                inbound.timestamp,
                now,
            ) && match r {
                Ok(out) => out.collection@ == "passwords"@ && out.timestamp == inbound.timestamp
                    && payloads_view(out.changes@) == outgoing_of(final(self)@.local),
                Err(_) => false,
            },
    {
        let data = match self.fetch_login_data(&inbound.changes) {
            Ok(d) => d,
            Err(e) => {
                return Err(e);
            },
        };
        let plan = self.reconcile(data, inbound.timestamp, now);
        self.execute_plan(plan, now);
        Ok(self.fetch_outgoing(inbound.timestamp))
    }

    /// Applies an incoming batch at the current local time; see
    /// [`LoginDb::apply_incoming_at`].
    pub fn apply_incoming(&mut self, inbound: IncomingChangeset) -> (r: Result<
        OutgoingChangeset,
        Error,
    >)
        ensures
            first_dup(change_ids(changes_view(inbound.changes@))) is Some ==> final(self)@ == old(
                self,
            )@ && r is Err,
            first_dup(change_ids(changes_view(inbound.changes@))) is None ==> r is Ok && exists|
                now: i64,
            |
                final(self)@ == apply_incoming_result(
                    old(self)@,
                    changes_view(inbound.changes@),
                    inbound.timestamp,
                    now,
                ),
            r is Ok ==> r->Ok_0.timestamp == inbound.timestamp && payloads_view(r->Ok_0.changes@)
                == outgoing_of(final(self)@.local),
    {
        let now = now_ms();
        self.apply_incoming_at(inbound, now)
    }
}

} // verus!
