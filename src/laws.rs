//! Properties of the sync protocol over the table model.
use vstd::prelude::*;
use crate::changeset::{change_ids, payload_id, PayloadView, SyncLoginDataView};
use crate::db::{
    apply_incoming_result, first_dup, lemma_first_dup_distinct, lift, login_data,
    synced, tables_wf,
};
use crate::login::{LocalLoginView, LoginView, MirrorLoginView, ServerTimestamp};
use crate::plan::{
    apply_local_updates, apply_mirror_inserts, apply_mirror_updates, empty_plan, find_dupe,
    lemma_insert_mirror, lemma_local_updates_keys, lemma_mirror_updates_keys,
    local_key, mirror_key, plan_record, reconcile, UpdatePlanView,
};
use crate::table::{
    find_by, has_key, lemma_find_by, lemma_remove_by, lemma_same_keys, remove_by, unique_by,
};

verus! {

/// `a` is the start of `b`.
pub open spec fn is_prefix<T>(a: Seq<T>, b: Seq<T>) -> bool {
    a.len() <= b.len() && b.take(a.len() as int) == a
}

proof fn lemma_push_prefix<T>(a: Seq<T>)
    ensures
        is_prefix(a, a),
        forall|e: T| #[trigger] is_prefix(a, a.push(e)),
{
    assert(a.take(a.len() as int) =~= a);
    assert forall|e: T| #[trigger] is_prefix(a, a.push(e)) by {
        assert(a.push(e).take(a.len() as int) =~= a);
    }
}

proof fn lemma_prefix_trans<T>(a: Seq<T>, b: Seq<T>, c: Seq<T>)
    requires
        is_prefix(a, b),
        is_prefix(b, c),
    ensures
        is_prefix(a, c),
{
    assert(c.take(a.len() as int) =~= c.take(b.len() as int).take(a.len() as int));
}

/// One record's entries only add to a plan.
proof fn lemma_plan_record_grows(
    p: UpdatePlanView,
    rows: Seq<LocalLoginView>,
    rec: SyncLoginDataView,
    server_now: ServerTimestamp,
    now: i64,
)
    ensures
        is_prefix(p.mirror_inserts, plan_record(p, rows, rec, server_now, now).mirror_inserts),
        is_prefix(p.delete_mirror, plan_record(p, rows, rec, server_now, now).delete_mirror),
        is_prefix(p.delete_local, plan_record(p, rows, rec, server_now, now).delete_local),
        plan_record(p, rows, rec, server_now, now).mirror_inserts.len() <= p.mirror_inserts.len()
            + 1,
        plan_record(p, rows, rec, server_now, now).mirror_inserts.len() == p.mirror_inserts.len()
            + 1 ==> rec.inbound == Some(
            plan_record(p, rows, rec, server_now, now).mirror_inserts.last().0,
        ),
{
    lemma_push_prefix(p.mirror_inserts);
    lemma_push_prefix(p.delete_mirror);
    lemma_push_prefix(p.delete_local);
    lemma_push_prefix(p.delete_local.push(rec.guid));
}

/// The plan for a prefix of a batch is a prefix of the plan for the batch.
proof fn lemma_reconcile_prefix(
    rows: Seq<LocalLoginView>,
    data: Seq<SyncLoginDataView>,
    n: int,
    server_now: ServerTimestamp,
    now: i64,
)
    requires
        0 <= n <= data.len(),
    ensures
        is_prefix(
            reconcile(rows, data.take(n), server_now, now).mirror_inserts,
            reconcile(rows, data, server_now, now).mirror_inserts,
        ),
        is_prefix(
            reconcile(rows, data.take(n), server_now, now).delete_mirror,
            reconcile(rows, data, server_now, now).delete_mirror,
        ),
        is_prefix(
            reconcile(rows, data.take(n), server_now, now).delete_local,
            reconcile(rows, data, server_now, now).delete_local,
        ),
    decreases data.len(),
{
    let p = reconcile(rows, data.take(n), server_now, now);
    let q = reconcile(rows, data, server_now, now);
    if n == data.len() {
        assert(data.take(n) =~= data);
        lemma_push_prefix(q.mirror_inserts);
        lemma_push_prefix(q.delete_mirror);
        lemma_push_prefix(q.delete_local);
    } else {
        let d = data.drop_last();
        assert(d.take(n) =~= data.take(n));
        lemma_reconcile_prefix(rows, d, n, server_now, now);
        let m = reconcile(rows, d, server_now, now);
        lemma_plan_record_grows(m, rows, data.last(), server_now, now);
        lemma_prefix_trans(p.mirror_inserts, m.mirror_inserts, q.mirror_inserts);
        lemma_prefix_trans(p.delete_mirror, m.delete_mirror, q.delete_mirror);
        lemma_prefix_trans(p.delete_local, m.delete_local, q.delete_local);
    }
}

/// Every mirror insertion of a plan carries the login of one of the batch's
/// records.
proof fn lemma_reconcile_inserts_from(
    rows: Seq<LocalLoginView>,
    data: Seq<SyncLoginDataView>,
    server_now: ServerTimestamp,
    now: i64,
)
    ensures
        forall|k: int|
            0 <= k < reconcile(rows, data, server_now, now).mirror_inserts.len() ==> exists|j: int|
                0 <= j < data.len() && #[trigger] data[j].inbound == Some(
                    #[trigger] reconcile(rows, data, server_now, now).mirror_inserts[k].0,
                ),
    decreases data.len(),
{
    if data.len() > 0 {
        let d = data.drop_last();
        lemma_reconcile_inserts_from(rows, d, server_now, now);
        let p = reconcile(rows, d, server_now, now);
        let q = reconcile(rows, data, server_now, now);
        lemma_plan_record_grows(p, rows, data.last(), server_now, now);
        assert forall|k: int| 0 <= k < q.mirror_inserts.len() implies exists|j: int|
            0 <= j < data.len() && #[trigger] data[j].inbound == Some(
                #[trigger] q.mirror_inserts[k].0,
            ) by {
            if k < p.mirror_inserts.len() {
                assert(q.mirror_inserts[k] == q.mirror_inserts.take(
                    p.mirror_inserts.len() as int,
                )[k]);
                let j = choose|j: int|
                    0 <= j < d.len() && #[trigger] d[j].inbound == Some(
                        #[trigger] p.mirror_inserts[k].0,
                    );
                assert(data[j] == d[j]);
            } else {
                assert(data[data.len() - 1] == data.last());
            }
        }
    }
}

/// Insertions of other identifiers leave an identifier absent.
proof fn lemma_inserts_absent(s: Seq<MirrorLoginView>, ins: Seq<(LoginView, i64, bool)>, g: Seq<char>)
    requires
        find_by(s, g, mirror_key()) is None,
        forall|k: int| 0 <= k < ins.len() ==> (#[trigger] ins[k]).0.id != g,
    ensures
        find_by(apply_mirror_inserts(s, ins), g, mirror_key()) is None,
    decreases ins.len(),
{
    if ins.len() > 0 {
        let d = ins.drop_last();
        assert forall|k: int| 0 <= k < d.len() implies (#[trigger] d[k]).0.id != g by {
            assert(d[k] == ins[k]);
        }
        lemma_inserts_absent(s, d, g);
        let t = ins.last();
        assert(t == ins[ins.len() - 1]);
        lemma_insert_mirror(apply_mirror_inserts(s, d), t.0, t.1, t.2);
    }
}

/// Once an identifier has a mirror row, later insertions leave it alone.
proof fn lemma_inserts_keep(
    s: Seq<MirrorLoginView>,
    ins: Seq<(LoginView, i64, bool)>,
    m: int,
    g: Seq<char>,
)
    requires
        0 <= m <= ins.len(),
        find_by(apply_mirror_inserts(s, ins.take(m)), g, mirror_key()) is Some,
    ensures
        find_by(apply_mirror_inserts(s, ins), g, mirror_key()) == find_by(
            apply_mirror_inserts(s, ins.take(m)),
            g,
            mirror_key(),
        ),
    decreases ins.len(),
{
    if m == ins.len() {
        assert(ins.take(m) =~= ins);
    } else {
        let d = ins.drop_last();
        assert(d.take(m) =~= ins.take(m));
        lemma_inserts_keep(s, d, m, g);
        let t = ins.last();
        lemma_insert_mirror(apply_mirror_inserts(s, d), t.0, t.1, t.2);
    }
}

/// A removal keeps an identifier absent, and removes a listed one.
proof fn lemma_remove_absent<T>(
    s: Seq<T>,
    ids: Seq<Seq<char>>,
    g: Seq<char>,
    key: spec_fn(T) -> Seq<char>,
)
    requires
        !has_key(s, g, key) || ids.contains(g),
    ensures
        !has_key(remove_by(s, ids, key), g, key),
{
    lemma_remove_by(s, ids, key);
    let t = remove_by(s, ids, key);
    if has_key(t, g, key) {
        let k = choose|k: int| 0 <= k < t.len() && #[trigger] key(t[k]) == g;
        assert(t.contains(t[k]));
        let j = choose|j: int| 0 <= j < s.len() && s[j] == t[k];
        assert(key(s[j]) == g);
    }
}

/// The identifiers of a batch's records are its payloads' identifiers, and
/// each record's login carries its record's identifier.
proof fn lemma_login_data(
    db: crate::plan::LoginDbView,
    changes: Seq<(PayloadView, ServerTimestamp)>,
)
    ensures
        login_data(db, changes).len() == changes.len(),
        forall|j: int|
            0 <= j < changes.len() ==> (#[trigger] login_data(db, changes)[j]).guid == change_ids(
                changes,
            )[j] && (login_data(db, changes)[j].inbound is Some ==> login_data(
                db,
                changes,
            )[j].inbound->0.id == change_ids(changes)[j]),
{
}

/// A record that the server deleted is in neither table after the batch.
pub proof fn lemma_deleted_record_leaves_both_tables(
    db: crate::plan::LoginDbView,
    changes: Seq<(PayloadView, ServerTimestamp)>,
    server_now: ServerTimestamp,
    now: i64,
    i: int,
)
    requires
        first_dup(change_ids(changes)) is None,
        0 <= i < changes.len(),
        changes[i].0 is Tombstone,
    ensures
        find_by(
            apply_incoming_result(db, changes, server_now, now).local,
            payload_id(changes[i].0),
            local_key(),
        ) is None,
        find_by(
            apply_incoming_result(db, changes, server_now, now).mirror,
            payload_id(changes[i].0),
            mirror_key(),
        ) is None,
{
    let g = payload_id(changes[i].0);
    let ids = change_ids(changes);
    let data = login_data(db, changes);
    lemma_login_data(db, changes);
    lemma_first_dup_distinct(ids);
    let plan = reconcile(db.local, data, server_now, now);
    let pi = reconcile(db.local, data.take(i), server_now, now);
    assert(data.take(i + 1).drop_last() =~= data.take(i));
    assert(data.take(i + 1).last() == data[i]);
    lemma_reconcile_prefix(db.local, data, i + 1, server_now, now);
    let pn = reconcile(db.local, data.take(i + 1), server_now, now);
    assert(pn.delete_local[pi.delete_local.len() as int] == g);
    assert(plan.delete_local[pi.delete_local.len() as int] == pn.delete_local[pi.delete_local.len() as int]);
    assert(plan.delete_local.contains(g));
    assert(pn.delete_mirror[pi.delete_mirror.len() as int] == g);
    assert(plan.delete_mirror[pi.delete_mirror.len() as int] == pn.delete_mirror[pi.delete_mirror.len() as int]);
    assert(plan.delete_mirror.contains(g));
    let local1 = remove_by(db.local, plan.delete_local, local_key());
    let mirror1 = remove_by(db.mirror, plan.delete_mirror, mirror_key());
    lemma_remove_absent(db.local, plan.delete_local, g, local_key());
    lemma_remove_absent(db.mirror, plan.delete_mirror, g, mirror_key());
    let local2 = apply_local_updates(local1, plan.local_updates, now);
    lemma_local_updates_keys(local1, plan.local_updates, now);
    lemma_same_keys(local1, local2, local_key());
    lemma_find_by(local2, g, local_key());
    let mirror2 = apply_mirror_updates(mirror1, plan.mirror_updates);
    lemma_mirror_updates_keys(mirror1, plan.mirror_updates);
    lemma_same_keys(mirror1, mirror2, mirror_key());
    lemma_find_by(mirror2, g, mirror_key());
    lemma_reconcile_inserts_from(db.local, data, server_now, now);
    assert forall|k: int| 0 <= k < plan.mirror_inserts.len() implies (
    #[trigger] plan.mirror_inserts[k]).0.id != g by {
        let j = choose|j: int|
            0 <= j < data.len() && #[trigger] data[j].inbound == Some(
                #[trigger] plan.mirror_inserts[k].0,
            );
        assert(j != i);
        assert(ids[j] != ids[i]);
    }
    lemma_inserts_absent(mirror2, plan.mirror_inserts, g);
}

/// A record that matches no mirror row, no local row and no local duplicate
/// is in the mirror after the batch exactly as received, not overridden and
/// stamped with its server time.
pub proof fn lemma_new_record_lands_in_mirror(
    db: crate::plan::LoginDbView,
    changes: Seq<(PayloadView, ServerTimestamp)>,
    server_now: ServerTimestamp,
    now: i64,
    i: int,
)
    requires
        first_dup(change_ids(changes)) is None,
        0 <= i < changes.len(),
        changes[i].0 is Record,
        find_by(db.mirror, payload_id(changes[i].0), mirror_key()) is None,
        find_by(db.local, payload_id(changes[i].0), local_key()) is None,
        find_dupe(db.local, changes[i].0->Record_0) is None,
    ensures
        find_by(
            apply_incoming_result(db, changes, server_now, now).mirror,
            payload_id(changes[i].0),
            mirror_key(),
        ) == Some(
            MirrorLoginView {
                login: changes[i].0->Record_0,
                is_overridden: false,
                server_modified: changes[i].1,
            },
        ),
{
    let g = payload_id(changes[i].0);
    let up = changes[i].0->Record_0;
    let ts = changes[i].1;
    let ids = change_ids(changes);
    let data = login_data(db, changes);
    lemma_login_data(db, changes);
    lemma_first_dup_distinct(ids);
    let plan = reconcile(db.local, data, server_now, now);
    let pi = reconcile(db.local, data.take(i), server_now, now);
    assert(data.take(i + 1).drop_last() =~= data.take(i));
    assert(data.take(i + 1).last() == data[i]);
    let pn = reconcile(db.local, data.take(i + 1), server_now, now);
    assert(pn.mirror_inserts == pi.mirror_inserts.push((up, ts.0, false)));
    lemma_reconcile_prefix(db.local, data, i + 1, server_now, now);
    let m = pi.mirror_inserts.len() as int;
    let ins = plan.mirror_inserts;
    assert(ins.take(m + 1) == pn.mirror_inserts);
    assert(ins.take(m + 1).drop_last() =~= pi.mirror_inserts);
    lemma_find_by(db.mirror, g, mirror_key());
    let mirror1 = remove_by(db.mirror, plan.delete_mirror, mirror_key());
    lemma_remove_absent(db.mirror, plan.delete_mirror, g, mirror_key());
    let mirror2 = apply_mirror_updates(mirror1, plan.mirror_updates);
    lemma_mirror_updates_keys(mirror1, plan.mirror_updates);
    lemma_same_keys(mirror1, mirror2, mirror_key());
    lemma_find_by(mirror2, g, mirror_key());
    lemma_reconcile_inserts_from(db.local, data.take(i), server_now, now);
    assert forall|k: int| 0 <= k < pi.mirror_inserts.len() implies (
    #[trigger] pi.mirror_inserts[k]).0.id != g by {
        let j = choose|j: int|
            0 <= j < data.take(i).len() && #[trigger] data.take(i)[j].inbound == Some(
                #[trigger] pi.mirror_inserts[k].0,
            );
        assert(data.take(i)[j] == data[j]);
        assert(ids[j] != ids[i]);
    }
    lemma_inserts_absent(mirror2, pi.mirror_inserts, g);
    lemma_insert_mirror(apply_mirror_inserts(mirror2, pi.mirror_inserts), up, ts.0, false);
    assert(ServerTimestamp(ts.0) == ts);
    lemma_inserts_keep(mirror2, ins, m + 1, g);
}

/// An empty batch changes neither table.
pub proof fn lemma_empty_batch_changes_nothing(
    db: crate::plan::LoginDbView,
    changes: Seq<(PayloadView, ServerTimestamp)>,
    server_now: ServerTimestamp,
    now: i64,
)
    requires
        changes.len() == 0,
    ensures
        apply_incoming_result(db, changes, server_now, now) == db,
{
    assert(login_data(db, changes).len() == 0);
    assert(reconcile(db.local, login_data(db, changes), server_now, now) == empty_plan());
    lemma_remove_by(db.local, Seq::empty(), local_key());
    lemma_remove_by(db.mirror, Seq::empty(), mirror_key());
}

/// The tables after a batch are a function of the tables before it, the
/// batch, the server's time and the local time.
pub proof fn lemma_apply_incoming_deterministic(
    a: crate::plan::LoginDbView,
    b: crate::plan::LoginDbView,
    changes: Seq<(PayloadView, ServerTimestamp)>,
    server_now: ServerTimestamp,
    now: i64,
)
    requires
        a == b,
    ensures
        apply_incoming_result(a, changes, server_now, now) == apply_incoming_result(
            b,
            changes,
            server_now,
            now,
        ),
{
}

/// Rows lifted into the mirror are not overridden and carry the sync time.
proof fn lemma_lift_stamped(
    m: Seq<MirrorLoginView>,
    rows: Seq<LocalLoginView>,
    ids: Seq<Seq<char>>,
    ts: ServerTimestamp,
)
    requires
        forall|k: int|
            0 <= k < m.len() && ids.contains(#[trigger] m[k].login.id) ==> !m[k].is_overridden
                && m[k].server_modified == ts,
    ensures
        forall|k: int|
            0 <= k < lift(m, rows, ids, ts).len() && ids.contains(
                #[trigger] lift(m, rows, ids, ts)[k].login.id,
            ) ==> !lift(m, rows, ids, ts)[k].is_overridden && lift(m, rows, ids, ts)[k].server_modified
                == ts,
    decreases rows.len(),
{
    if rows.len() > 0 {
        lemma_lift_stamped(m, rows.drop_last(), ids, ts);
        assert(ServerTimestamp(ts.0) == ts);
        let m0 = lift(m, rows.drop_last(), ids, ts);
        let r = rows.last();
        let res = lift(m, rows, ids, ts);
        assert forall|k: int|
            0 <= k < res.len() && ids.contains(#[trigger] res[k].login.id) implies !res[k].is_overridden
            && res[k].server_modified == ts by {
            if k < m0.len() {
                assert(res[k] == m0[k]);
            }
        }
    }
}

/// A listed local row that is not deleted is lifted into the mirror, where
/// nothing of its identifier was.
proof fn lemma_lift_finds(
    m: Seq<MirrorLoginView>,
    rows: Seq<LocalLoginView>,
    ids: Seq<Seq<char>>,
    ts: ServerTimestamp,
    g: Seq<char>,
)
    requires
        find_by(m, g, mirror_key()) is None,
        unique_by(rows, local_key()),
    ensures
        find_by(rows, g, local_key()) is None ==> find_by(lift(m, rows, ids, ts), g, mirror_key()) is None,
        find_by(rows, g, local_key()) is Some && ids.contains(g) && !find_by(rows, g, local_key())->0.is_deleted
            ==> find_by(lift(m, rows, ids, ts), g, mirror_key()) == Some(
            MirrorLoginView {
                login: find_by(rows, g, local_key())->0.login,
                is_overridden: false,
                server_modified: ts,
            },
        ),
    decreases rows.len(),
{
    if rows.len() > 0 {
        let p = rows.drop_last();
        let r = rows.last();
        assert(unique_by(p, local_key())) by {
            assert forall|i: int, j: int|
                0 <= i < p.len() && 0 <= j < p.len() && #[trigger] local_key()(p[i])
                    == #[trigger] local_key()(p[j]) implies i == j by {
                assert(p[i] == rows[i] && p[j] == rows[j]);
            }
        }
        lemma_lift_finds(m, p, ids, ts, g);
        let m0 = lift(m, p, ids, ts);
        lemma_insert_mirror(m0, r.login, ts.0, false);
        assert(ServerTimestamp(ts.0) == ts);
        if find_by(p, g, local_key()) is Some {
            lemma_find_by(p, g, local_key());
            let x = find_by(p, g, local_key())->0;
            let k = choose|k: int| 0 <= k < p.len() && p[k] == x;
            assert(rows[k] == x);
            if r.login.id == g {
                assert(local_key()(rows[k]) == local_key()(rows[rows.len() - 1]));
            }
        }
    }
}

/// After a successful upload of `ids`, no local row has one of them, and
/// every mirror row with one of them is not overridden and carries the
/// upload's time; where the local row of one of them was not deleted, the
/// mirror holds its login.
pub proof fn lemma_sync_finished_collapses(
    db: crate::plan::LoginDbView,
    ids: Seq<Seq<char>>,
    ts: ServerTimestamp,
)
    requires
        tables_wf(db),
    ensures
        forall|g: Seq<char>|
            ids.contains(g) && find_by(db.local, g, local_key()) is Some && !find_by(
                db.local,
                g,
                local_key(),
            )->0.is_deleted ==> #[trigger] find_by(synced(db, ids, ts).mirror, g, mirror_key())
                == Some(
                MirrorLoginView {
                    login: find_by(db.local, g, local_key())->0.login,
                    is_overridden: false,
                    server_modified: ts,
                },
            ),
        forall|g: Seq<char>|
            ids.contains(g) ==> #[trigger] find_by(synced(db, ids, ts).local, g, local_key()) is None,
        forall|k: int|
            0 <= k < synced(db, ids, ts).mirror.len() && ids.contains(
                #[trigger] synced(db, ids, ts).mirror[k].login.id,
            ) ==> !synced(db, ids, ts).mirror[k].is_overridden && synced(
                db,
                ids,
                ts,
            ).mirror[k].server_modified == ts,
{
    assert forall|g: Seq<char>| ids.contains(g) implies #[trigger] find_by(
        synced(db, ids, ts).local,
        g,
        local_key(),
    ) is None by {
        lemma_remove_absent(db.local, ids, g, local_key());
        lemma_find_by(synced(db, ids, ts).local, g, local_key());
    }
    let base = remove_by(db.mirror, ids, mirror_key());
    lemma_remove_by(db.mirror, ids, mirror_key());
    assert forall|k: int|
        0 <= k < base.len() && ids.contains(#[trigger] base[k].login.id) implies !base[k].is_overridden
        && base[k].server_modified == ts by {
        assert(base.contains(base[k]));
    }
    lemma_lift_stamped(base, db.local, ids, ts);
    assert forall|g: Seq<char>|
        ids.contains(g) && find_by(db.local, g, local_key()) is Some && !find_by(
            db.local,
            g,
            local_key(),
        )->0.is_deleted implies #[trigger] find_by(synced(db, ids, ts).mirror, g, mirror_key())
        == Some(
        MirrorLoginView {
            login: find_by(db.local, g, local_key())->0.login,
            is_overridden: false,
            server_modified: ts,
        },
    ) by {
        lemma_remove_absent(db.mirror, ids, g, mirror_key());
        lemma_find_by(base, g, mirror_key());
        lemma_lift_finds(base, db.local, ids, ts, g);
    }
}

} // verus!
