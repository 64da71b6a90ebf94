use vstd::prelude::*;
use crate::changeset::SyncLoginDataView;
use crate::delta::{apply, diff, merge};
use crate::login::{
    LocalLogin, LocalLoginView, Login, LoginView, MirrorLogin, MirrorLoginView, ServerTimestamp,
    SyncStatus,
};
use crate::table::{
    find_by, lemma_find_by, lemma_find_push, lemma_push_unique, lemma_remove_by,
    lemma_same_keys, remove_by, unique_by,
};
use crate::util::host_port;

verus! {

/// The changes that reconciling one incoming batch makes to the two tables,
/// grouped by kind and applied in a fixed order.
#[derive(Debug, Clone)]
pub struct UpdatePlan {
    pub delete_mirror: Vec<String>,
    pub delete_local: Vec<String>,
    pub local_updates: Vec<MirrorLogin>,
    /// Each with the server time in milliseconds and the `is_overridden` flag.
    pub mirror_inserts: Vec<(Login, i64, bool)>,
    /// Each with the server time in milliseconds.
    pub mirror_updates: Vec<(Login, i64)>,
}

pub struct UpdatePlanView {
    pub delete_mirror: Seq<Seq<char>>,
    pub delete_local: Seq<Seq<char>>,
    pub local_updates: Seq<MirrorLoginView>,
    pub mirror_inserts: Seq<(LoginView, i64, bool)>,
    pub mirror_updates: Seq<(LoginView, i64)>,
}

pub open spec fn ids_view(v: Seq<String>) -> Seq<Seq<char>> {
    v.map_values(|s: String| s@)
}

pub open spec fn mirrors_view(v: Seq<MirrorLogin>) -> Seq<MirrorLoginView> {
    v.map_values(|r: MirrorLogin| r@)
}

pub open spec fn locals_view(v: Seq<LocalLogin>) -> Seq<LocalLoginView> {
    v.map_values(|r: LocalLogin| r@)
}

pub open spec fn inserts_view(v: Seq<(Login, i64, bool)>) -> Seq<(LoginView, i64, bool)> {
    v.map_values(|t: (Login, i64, bool)| (t.0@, t.1, t.2))
}

pub open spec fn updates_view(v: Seq<(Login, i64)>) -> Seq<(LoginView, i64)> {
    v.map_values(|t: (Login, i64)| (t.0@, t.1))
}

impl View for UpdatePlan {
    type V = UpdatePlanView;

    open spec fn view(&self) -> UpdatePlanView {
        UpdatePlanView {
            delete_mirror: ids_view(self.delete_mirror@),
            delete_local: ids_view(self.delete_local@),
            local_updates: mirrors_view(self.local_updates@),
            mirror_inserts: inserts_view(self.mirror_inserts@),
            mirror_updates: updates_view(self.mirror_updates@),
        }
    }
}

pub open spec fn empty_plan() -> UpdatePlanView {
    UpdatePlanView {
        delete_mirror: Seq::empty(),
        delete_local: Seq::empty(),
        local_updates: Seq::empty(),
        mirror_inserts: Seq::empty(),
        mirror_updates: Seq::empty(),
    }
}

pub open spec fn local_key() -> spec_fn(LocalLoginView) -> Seq<char> {
    |r: LocalLoginView| r.login.id
}

pub open spec fn mirror_key() -> spec_fn(MirrorLoginView) -> Seq<char> {
    |r: MirrorLoginView| r.login.id
}

pub open spec fn plan_delete(p: UpdatePlanView, id: Seq<char>) -> UpdatePlanView {
    UpdatePlanView {
        delete_mirror: p.delete_mirror.push(id),
        delete_local: p.delete_local.push(id),
        local_updates: p.local_updates,
        mirror_inserts: p.mirror_inserts,
        mirror_updates: p.mirror_updates,
    }
}

pub open spec fn plan_mirror_update(p: UpdatePlanView, login: LoginView, time: ServerTimestamp) -> UpdatePlanView {
    UpdatePlanView {
        delete_mirror: p.delete_mirror,
        delete_local: p.delete_local,
        local_updates: p.local_updates,
        mirror_inserts: p.mirror_inserts,
        mirror_updates: p.mirror_updates.push((login, time.0)),
    }
}

pub open spec fn plan_mirror_insert(
    p: UpdatePlanView,
    login: LoginView,
    time: ServerTimestamp,
    is_override: bool,
) -> UpdatePlanView {
    UpdatePlanView {
        delete_mirror: p.delete_mirror,
        delete_local: p.delete_local,
        local_updates: p.local_updates,
        mirror_inserts: p.mirror_inserts.push((login, time.0, is_override)),
        mirror_updates: p.mirror_updates,
    }
}

/// Without a shared parent the newer password wins: the incoming record goes
/// to the mirror, overridden when the local password changed later; otherwise
/// the local row is deleted.
pub open spec fn plan_two_way_merge(
    p: UpdatePlanView,
    local: LoginView,
    upstream: LoginView,
    time: ServerTimestamp,
) -> UpdatePlanView {
    let is_override = local.time_password_changed > upstream.time_password_changed;
    let q = plan_mirror_insert(p, upstream, time, is_override);
    if is_override {
        q
    } else {
        UpdatePlanView { delete_local: q.delete_local.push(local.id), ..q }
    }
}

/// How long ago `then` was at `now`; zero where `then` lies in the future.
pub open spec fn age(now: i64, then: i64) -> int {
    if now > then {
        now - then
    } else {
        0
    }
}

/// The three-way merge: the mirror takes the incoming record, and the local
/// row takes the shared parent with both sides' changes merged, the side
/// whose change is younger winning conflicts (the local side on a tie).
pub open spec fn plan_three_way_merge(
    p: UpdatePlanView,
    local: LocalLoginView,
    shared: MirrorLoginView,
    upstream: LoginView,
    upstream_time: ServerTimestamp,
    server_now: ServerTimestamp,
    now: i64,
) -> UpdatePlanView {
    let local_age = age(now, local.local_modified);
    let remote_age = age(server_now.0, upstream_time.0);
    let merged = merge(
        diff(local.login, shared.login),
        diff(upstream, shared.login),
        remote_age < local_age,
    );
    UpdatePlanView {
        mirror_updates: p.mirror_updates.push((upstream, upstream_time.0)),
        local_updates: p.local_updates.push(
            MirrorLoginView {
                login: apply(shared.login, merged),
                is_overridden: shared.is_overridden,
                server_modified: upstream_time,
            },
        ),
        ..p
    }
}

/// `hay` holds `needle` as a run of consecutive characters.
pub open spec fn contains_seq(hay: Seq<char>, needle: Seq<char>) -> bool {
    exists|i: int|
        0 <= i && i + needle.len() <= hay.len() && #[trigger] hay.subrange(i, i + needle.len())
            == needle
}

/// A stored login `row` is a duplicate of an incoming `l` without a shared
/// identifier: same hostname, realm and username, and a form submit URL that
/// is empty or holds the host (and port) of `l`'s; where `l` has no such
/// host, `row` must have no form submit URL.
pub open spec fn is_dupe(row: LoginView, l: LoginView) -> bool {
    &&& row.hostname == l.hostname
    &&& row.http_realm == l.http_realm
    &&& row.username == l.username
    &&& match (
        match l.form_submit_url {
            Some(u) => host_port(u),
            None => None,
        }
    ) {
        Some(hp) => match row.form_submit_url {
            Some(f) => f.len() == 0 || contains_seq(f, hp),
            None => false,
        },
        None => row.form_submit_url is None,
    }
}

/// The first local row that is a duplicate of `l`.
pub open spec fn find_dupe(rows: Seq<LocalLoginView>, l: LoginView) -> Option<LoginView>
    decreases rows.len(),
{
    if rows.len() == 0 {
        None
    } else {
        match find_dupe(rows.drop_last(), l) {
            Some(d) => Some(d),
            None => if is_dupe(rows.last().login, l) {
                Some(rows.last().login)
            } else {
                None
            },
        }
    }
}

/// The plan entries for one incoming record.
pub open spec fn plan_record(
    p: UpdatePlanView,
    local_rows: Seq<LocalLoginView>,
    rec: SyncLoginDataView,
    server_now: ServerTimestamp,
    now: i64,
) -> UpdatePlanView {
    match rec.inbound {
        None => plan_delete(p, rec.guid),
        Some(up) => match (rec.mirror, rec.local) {
            (Some(m), Some(l)) => plan_three_way_merge(p, l, m, up, rec.inbound_ts, server_now, now),
            (Some(_), None) => plan_mirror_update(p, up, rec.inbound_ts),
            (None, Some(l)) => plan_two_way_merge(p, l.login, up, rec.inbound_ts),
            (None, None) => match find_dupe(local_rows, up) {
                Some(d) => plan_two_way_merge(p, d, up, rec.inbound_ts),
                None => plan_mirror_insert(p, up, rec.inbound_ts, false),
            },
        },
    }
}

/// The plan for a batch: each record's entries, in the batch's order.
pub open spec fn reconcile(
    local_rows: Seq<LocalLoginView>,
    data: Seq<SyncLoginDataView>,
    server_now: ServerTimestamp,
    now: i64,
) -> UpdatePlanView
    decreases data.len(),
{
    if data.len() == 0 {
        empty_plan()
    } else {
        plan_record(
            reconcile(local_rows, data.drop_last(), server_now, now),
            local_rows,
            data.last(),
            server_now,
            now,
        )
    }
}

/// The two tables.
pub struct LoginDbView {
    pub local: Seq<LocalLoginView>,
    pub mirror: Seq<MirrorLoginView>,
}

/// Each mirror row with the login's identifier takes the login and the time.
pub open spec fn update_mirror(s: Seq<MirrorLoginView>, login: LoginView, ts: i64) -> Seq<
    MirrorLoginView,
> {
    Seq::new(
        s.len(),
        |k: int|
            if s[k].login.id == login.id {
                MirrorLoginView {
                    login,
                    is_overridden: s[k].is_overridden,
                    server_modified: ServerTimestamp(ts),
                }
            } else {
                s[k]
            },
    )
}

pub open spec fn apply_mirror_updates(s: Seq<MirrorLoginView>, ups: Seq<(LoginView, i64)>) -> Seq<
    MirrorLoginView,
>
    decreases ups.len(),
{
    if ups.len() == 0 {
        s
    } else {
        update_mirror(apply_mirror_updates(s, ups.drop_last()), ups.last().0, ups.last().1)
    }
}

/// A new mirror row, unless one with the login's identifier is there.
pub open spec fn insert_mirror(s: Seq<MirrorLoginView>, login: LoginView, ts: i64, is_overridden: bool) -> Seq<
    MirrorLoginView,
> {
    if find_by(s, login.id, mirror_key()) is Some {
        s
    } else {
        s.push(MirrorLoginView { login, is_overridden, server_modified: ServerTimestamp(ts) })
    }
}

pub open spec fn apply_mirror_inserts(s: Seq<MirrorLoginView>, ins: Seq<(LoginView, i64, bool)>) -> Seq<
    MirrorLoginView,
>
    decreases ins.len(),
{
    if ins.len() == 0 {
        s
    } else {
        let t = ins.last();
        insert_mirror(apply_mirror_inserts(s, ins.drop_last()), t.0, t.1, t.2)
    }
}

/// Each local row with the merged login's identifier takes that login, is
/// marked changed and stamped with `now`.
pub open spec fn update_local(s: Seq<LocalLoginView>, m: MirrorLoginView, now: i64) -> Seq<
    LocalLoginView,
> {
    Seq::new(
        s.len(),
        |k: int|
            if s[k].login.id == m.login.id {
                LocalLoginView {
                    login: m.login,
                    sync_status: SyncStatus::Changed,
                    is_deleted: s[k].is_deleted,
                    local_modified: now,
                }
            } else {
                s[k]
            },
    )
}

pub open spec fn apply_local_updates(s: Seq<LocalLoginView>, ups: Seq<MirrorLoginView>, now: i64) -> Seq<
    LocalLoginView,
>
    decreases ups.len(),
{
    if ups.len() == 0 {
        s
    } else {
        update_local(apply_local_updates(s, ups.drop_last(), now), ups.last(), now)
    }
}

/// The tables after a plan: deletes, then mirror updates, then mirror
/// inserts, then local updates.
pub open spec fn execute(db: LoginDbView, p: UpdatePlanView, now: i64) -> LoginDbView {
    let local1 = remove_by(db.local, p.delete_local, local_key());
    let mirror1 = remove_by(db.mirror, p.delete_mirror, mirror_key());
    let mirror2 = apply_mirror_updates(mirror1, p.mirror_updates);
    let mirror3 = apply_mirror_inserts(mirror2, p.mirror_inserts);
    LoginDbView { local: apply_local_updates(local1, p.local_updates, now), mirror: mirror3 }
}

/// Mirror updates replace rows one for one and keep their identifiers.
pub proof fn lemma_mirror_updates_keys(s: Seq<MirrorLoginView>, ups: Seq<(LoginView, i64)>)
    ensures
        apply_mirror_updates(s, ups).len() == s.len(),
        forall|k: int|
            0 <= k < s.len() ==> #[trigger] apply_mirror_updates(s, ups)[k].login.id == s[k].login.id,
    decreases ups.len(),
{
    if ups.len() > 0 {
        lemma_mirror_updates_keys(s, ups.drop_last());
    }
}

/// Local updates replace rows one for one and keep their identifiers.
pub proof fn lemma_local_updates_keys(s: Seq<LocalLoginView>, ups: Seq<MirrorLoginView>, now: i64)
    ensures
        apply_local_updates(s, ups, now).len() == s.len(),
        forall|k: int|
            0 <= k < s.len() ==> #[trigger] apply_local_updates(s, ups, now)[k].login.id
                == s[k].login.id,
    decreases ups.len(),
{
    if ups.len() > 0 {
        lemma_local_updates_keys(s, ups.drop_last(), now);
    }
}

/// What an insertion into the mirror does to lookups.
pub proof fn lemma_insert_mirror(s: Seq<MirrorLoginView>, login: LoginView, ts: i64, is_overridden: bool)
    ensures
        unique_by(s, mirror_key()) ==> unique_by(insert_mirror(s, login, ts, is_overridden), mirror_key()),
        forall|g: Seq<char>|
            find_by(s, g, mirror_key()) is Some ==> #[trigger] find_by(
                insert_mirror(s, login, ts, is_overridden),
                g,
                mirror_key(),
            ) == find_by(s, g, mirror_key()),
        forall|g: Seq<char>|
            find_by(s, g, mirror_key()) is None && g != login.id ==> #[trigger] find_by(
                insert_mirror(s, login, ts, is_overridden),
                g,
                mirror_key(),
            ) is None,
        find_by(s, login.id, mirror_key()) is None ==> find_by(
            insert_mirror(s, login, ts, is_overridden),
            login.id,
            mirror_key(),
        ) == Some(MirrorLoginView { login, is_overridden, server_modified: ServerTimestamp(ts) }),
{
    let row = MirrorLoginView { login, is_overridden, server_modified: ServerTimestamp(ts) };
    lemma_find_by(s, login.id, mirror_key());
    if find_by(s, login.id, mirror_key()) is None {
        assert forall|g: Seq<char>| true implies #[trigger] find_by(s.push(row), g, mirror_key()) == (
        match find_by(s, g, mirror_key()) {
            Some(r) => Some(r),
            None => if g == login.id {
                Some(row)
            } else {
                None
            },
        }) by {
            lemma_find_push(s, row, g, mirror_key());
        }
        if unique_by(s, mirror_key()) {
            lemma_push_unique(s, row, mirror_key());
        }
    }
}

/// Mirror inserts keep identifiers unique.
pub proof fn lemma_mirror_inserts_unique(s: Seq<MirrorLoginView>, ins: Seq<(LoginView, i64, bool)>)
    requires
        unique_by(s, mirror_key()),
    ensures
        unique_by(apply_mirror_inserts(s, ins), mirror_key()),
    decreases ins.len(),
{
    if ins.len() > 0 {
        lemma_mirror_inserts_unique(s, ins.drop_last());
        let t = ins.last();
        lemma_insert_mirror(apply_mirror_inserts(s, ins.drop_last()), t.0, t.1, t.2);
    }
}

/// Executing a plan keeps at most one row per identifier in each table.
pub proof fn lemma_execute_unique(db: LoginDbView, p: UpdatePlanView, now: i64)
    requires
        unique_by(db.local, local_key()),
        unique_by(db.mirror, mirror_key()),
    ensures
        unique_by(execute(db, p, now).local, local_key()),
        unique_by(execute(db, p, now).mirror, mirror_key()),
{
    let local1 = remove_by(db.local, p.delete_local, local_key());
    let mirror1 = remove_by(db.mirror, p.delete_mirror, mirror_key());
    lemma_remove_by(db.local, p.delete_local, local_key());
    lemma_remove_by(db.mirror, p.delete_mirror, mirror_key());
    let mirror2 = apply_mirror_updates(mirror1, p.mirror_updates);
    lemma_mirror_updates_keys(mirror1, p.mirror_updates);
    lemma_same_keys(mirror1, mirror2, mirror_key());
    lemma_mirror_inserts_unique(mirror2, p.mirror_inserts);
    let local2 = apply_local_updates(local1, p.local_updates, now);
    lemma_local_updates_keys(local1, p.local_updates, now);
    lemma_same_keys(local1, local2, local_key());
}

impl UpdatePlan {
    pub fn new() -> (r: UpdatePlan)
        ensures
            r@ == empty_plan(),
    {
        let r = UpdatePlan {
            delete_mirror: Vec::new(),
            delete_local: Vec::new(),
            local_updates: Vec::new(),
            mirror_inserts: Vec::new(),
            mirror_updates: Vec::new(),
        };
        assert(r@.delete_mirror =~= Seq::empty());
        assert(r@.delete_local =~= Seq::empty());
        assert(r@.local_updates =~= Seq::empty());
        assert(r@.mirror_inserts =~= Seq::empty());
        assert(r@.mirror_updates =~= Seq::empty());
        r
    }

    pub fn plan_two_way_merge(&mut self, local: &Login, upstream: (Login, ServerTimestamp))
        ensures
            final(self)@ == plan_two_way_merge(old(self)@, local@, upstream.0@, upstream.1),
    {
        let is_override = local.time_password_changed > upstream.0.time_password_changed;
        self.plan_mirror_insert(upstream.0, upstream.1, is_override);
        if !is_override {
            self.delete_local.push(local.id.clone());
            assert(ids_view(self.delete_local@) =~= ids_view(old(self).delete_local@).push(local.id@));
        }
    }

    pub fn plan_three_way_merge(
        &mut self,
        local: LocalLogin,
        shared: MirrorLogin,
        upstream: Login,
        upstream_time: ServerTimestamp,
        server_now: ServerTimestamp,
        now: i64,
    )
        ensures
            final(self)@ == plan_three_way_merge(
                old(self)@,
                local@,
                shared@,
                upstream@,
                upstream_time,
                server_now,
                now,
            ),
    {
        let local_age: i128 = if now > local.local_modified {
            now as i128 - local.local_modified as i128
        } else {
            0
        };
        let remote_age: i128 = if server_now.0 > upstream_time.0 {
            server_now.0 as i128 - upstream_time.0 as i128
        } else {
            0
        };
        let local_delta = local.login.delta(&shared.login);
        let upstream_delta = upstream.delta(&shared.login);
        let merged_delta = local_delta.merge(upstream_delta, remote_age < local_age);
        let ghost up = upstream@;
        self.mirror_updates.push((upstream, upstream_time.0));
        assert(updates_view(self.mirror_updates@) =~= updates_view(old(self).mirror_updates@).push(
            (up, upstream_time.0),
        ));
        let mut new = shared;
        new.login.apply_delta(merged_delta);
        new.server_modified = upstream_time;
        let ghost nv = new@;
        self.local_updates.push(new);
        assert(mirrors_view(self.local_updates@) =~= mirrors_view(old(self).local_updates@).push(nv));
    }

    pub fn plan_delete(&mut self, id: String)
        ensures
            final(self)@ == plan_delete(old(self)@, id@),
    {
        self.delete_local.push(id.clone());
        self.delete_mirror.push(id);
        assert(ids_view(self.delete_local@) =~= ids_view(old(self).delete_local@).push(id@));
        assert(ids_view(self.delete_mirror@) =~= ids_view(old(self).delete_mirror@).push(id@));
    }

    pub fn plan_mirror_update(&mut self, login: Login, time: ServerTimestamp)
        ensures
            final(self)@ == plan_mirror_update(old(self)@, login@, time),
    {
        let ghost lv = login@;
        self.mirror_updates.push((login, time.0));
        assert(updates_view(self.mirror_updates@) =~= updates_view(old(self).mirror_updates@).push(
            (lv, time.0),
        ));
    }

    pub fn plan_mirror_insert(&mut self, login: Login, time: ServerTimestamp, is_override: bool)
        ensures
            final(self)@ == plan_mirror_insert(old(self)@, login@, time, is_override),
    {
        let ghost lv = login@;
        self.mirror_inserts.push((login, time.0, is_override));
        assert(inserts_view(self.mirror_inserts@) =~= inserts_view(old(self).mirror_inserts@).push(
            (lv, time.0, is_override),
        ));
    }
}

} // verus!
