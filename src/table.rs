use vstd::prelude::*;

verus! {

/// The first row whose key is `id`.
pub open spec fn find_by<T>(s: Seq<T>, id: Seq<char>, key: spec_fn(T) -> Seq<char>) -> Option<T>
    decreases s.len(),
{
    if s.len() == 0 {
        None
    } else {
        match find_by(s.drop_last(), id, key) {
            Some(r) => Some(r),
            None => if key(s.last()) == id {
                Some(s.last())
            } else {
                None
            },
        }
    }
}

/// The rows whose key is not in `ids`, in their order.
pub open spec fn remove_by<T>(s: Seq<T>, ids: Seq<Seq<char>>, key: spec_fn(T) -> Seq<char>) -> Seq<T>
    decreases s.len(),
{
    if s.len() == 0 {
        s
    } else {
        let kept = remove_by(s.drop_last(), ids, key);
        if ids.contains(key(s.last())) {
            kept
        } else {
            kept.push(s.last())
        }
    }
}

/// No two rows share a key.
pub open spec fn unique_by<T>(s: Seq<T>, key: spec_fn(T) -> Seq<char>) -> bool {
    forall|i: int, j: int|
        0 <= i < s.len() && 0 <= j < s.len() && #[trigger] key(s[i]) == #[trigger] key(s[j]) ==> i
            == j
}

/// Some row has key `id`.
pub open spec fn has_key<T>(s: Seq<T>, id: Seq<char>, key: spec_fn(T) -> Seq<char>) -> bool {
    exists|k: int| 0 <= k < s.len() && #[trigger] key(s[k]) == id
}

/// A lookup fails exactly when no row has the key, and otherwise returns a
/// row of the table with that key.
pub proof fn lemma_find_by<T>(s: Seq<T>, id: Seq<char>, key: spec_fn(T) -> Seq<char>)
    ensures
        find_by(s, id, key) is None <==> !has_key(s, id, key),
        find_by(s, id, key) is Some ==> s.contains(find_by(s, id, key)->0) && key(
            find_by(s, id, key)->0,
        ) == id,
    decreases s.len(),
{
    if s.len() > 0 {
        let p = s.drop_last();
        lemma_find_by(p, id, key);
        if has_key(p, id, key) {
            let k = choose|k: int| 0 <= k < p.len() && #[trigger] key(p[k]) == id;
            assert(key(s[k]) == id);
        }
        if has_key(s, id, key) && !has_key(p, id, key) {
            let k = choose|k: int| 0 <= k < s.len() && #[trigger] key(s[k]) == id;
            if k < p.len() {
                assert(key(p[k]) == id);
            }
        }
        if find_by(s, id, key) is Some {
            if find_by(p, id, key) is Some {
                let r = find_by(p, id, key)->0;
                let k = choose|k: int| 0 <= k < p.len() && p[k] == r;
                assert(s[k] == r);
            } else {
                assert(s[s.len() - 1] == s.last());
            }
        }
    }
}

/// A removal keeps exactly the rows whose key is not listed, keeps keys
/// unique, and with nothing listed changes nothing.
pub proof fn lemma_remove_by<T>(s: Seq<T>, ids: Seq<Seq<char>>, key: spec_fn(T) -> Seq<char>)
    ensures
        forall|r: T| #[trigger]
            remove_by(s, ids, key).contains(r) ==> s.contains(r) && !ids.contains(key(r)),
        forall|r: T| s.contains(r) && !ids.contains(key(r)) ==> #[trigger] remove_by(
            s,
            ids,
            key,
        ).contains(r),
        unique_by(s, key) ==> unique_by(remove_by(s, ids, key), key),
        ids.len() == 0 ==> remove_by(s, ids, key) == s,
    decreases s.len(),
{
    if s.len() > 0 {
        let p = s.drop_last();
        lemma_remove_by(p, ids, key);
        let kept = remove_by(p, ids, key);
        let res = remove_by(s, ids, key);
        assert forall|r: T| #[trigger] res.contains(r) implies s.contains(r) && !ids.contains(
            key(r),
        ) by {
            if kept.contains(r) {
                let k = choose|k: int| 0 <= k < p.len() && p[k] == r;
                assert(s[k] == r);
            } else {
                let k = choose|k: int| 0 <= k < res.len() && res[k] == r;
                assert(k == kept.len());
                assert(s[s.len() - 1] == r);
            }
        }
        assert forall|r: T| s.contains(r) && !ids.contains(key(r)) implies #[trigger] res.contains(
            r,
        ) by {
            let k = choose|k: int| 0 <= k < s.len() && s[k] == r;
            if k < p.len() {
                assert(p[k] == r);
                assert(kept.contains(r));
                let j = choose|j: int| 0 <= j < kept.len() && kept[j] == r;
                assert(res[j] == r);
            } else {
                assert(res[res.len() - 1] == r);
            }
        }
        if unique_by(s, key) {
            assert(unique_by(p, key)) by {
                assert forall|i: int, j: int|
                    0 <= i < p.len() && 0 <= j < p.len() && #[trigger] key(p[i]) == #[trigger] key(
                        p[j],
                    ) implies i == j by {
                    assert(p[i] == s[i] && p[j] == s[j]);
                }
            }
            if !ids.contains(key(s.last())) {
                assert forall|i: int, j: int|
                    0 <= i < res.len() && 0 <= j < res.len() && #[trigger] key(res[i])
                        == #[trigger] key(res[j]) implies i == j by {
                    if i < kept.len() && j == kept.len() {
                        assert(kept.contains(kept[i]));
                        let k = choose|k: int| 0 <= k < p.len() && p[k] == kept[i];
                        assert(s[k] == p[k]);
                        assert(key(s[k]) == key(s[s.len() - 1]));
                    } else if j < kept.len() && i == kept.len() {
                        assert(kept.contains(kept[j]));
                        let k = choose|k: int| 0 <= k < p.len() && p[k] == kept[j];
                        assert(s[k] == p[k]);
                        assert(key(s[k]) == key(s[s.len() - 1]));
                    } else if i < kept.len() && j < kept.len() {
                        assert(res[i] == kept[i] && res[j] == kept[j]);
                    }
                }
            }
        }
    }
}


/// Finding in a sequence with one more row at the end.
pub proof fn lemma_find_push<T>(s: Seq<T>, x: T, id: Seq<char>, key: spec_fn(T) -> Seq<char>)
    ensures
        find_by(s.push(x), id, key) == (match find_by(s, id, key) {
            Some(r) => Some(r),
            None => if key(x) == id {
                Some(x)
            } else {
                None
            },
        }),
{
    assert(s.push(x).drop_last() =~= s);
}

/// Rows replaced one for one by rows with the same keys keep keys unique.
pub proof fn lemma_same_keys<T>(s: Seq<T>, t: Seq<T>, key: spec_fn(T) -> Seq<char>)
    requires
        s.len() == t.len(),
        forall|k: int| 0 <= k < s.len() ==> #[trigger] key(t[k]) == key(s[k]),
    ensures
        unique_by(s, key) ==> unique_by(t, key),
        forall|id: Seq<char>| has_key(t, id, key) <==> #[trigger] has_key(s, id, key),
{
    assert forall|id: Seq<char>| has_key(t, id, key) <==> #[trigger] has_key(s, id, key) by {
        if has_key(t, id, key) {
            let k = choose|k: int| 0 <= k < t.len() && #[trigger] key(t[k]) == id;
            assert(key(s[k]) == id);
        }
        if has_key(s, id, key) {
            let k = choose|k: int| 0 <= k < s.len() && #[trigger] key(s[k]) == id;
            assert(key(t[k]) == id);
        }
    }
    if unique_by(s, key) {
        assert forall|i: int, j: int|
            0 <= i < t.len() && 0 <= j < t.len() && #[trigger] key(t[i]) == #[trigger] key(t[j]) implies i
            == j by {
            assert(key(s[i]) == key(s[j]));
        }
    }
}

/// A row pushed under a key that no row has keeps keys unique.
pub proof fn lemma_push_unique<T>(s: Seq<T>, x: T, key: spec_fn(T) -> Seq<char>)
    requires
        unique_by(s, key),
        !has_key(s, key(x), key),
    ensures
        unique_by(s.push(x), key),
{
    let t = s.push(x);
    assert forall|i: int, j: int|
        0 <= i < t.len() && 0 <= j < t.len() && #[trigger] key(t[i]) == #[trigger] key(t[j]) implies i
        == j by {
        if i < s.len() && j < s.len() {
            assert(t[i] == s[i] && t[j] == s[j]);
        } else if i < s.len() {
            assert(t[i] == s[i]);
            assert(key(s[i]) == key(x));
        } else if j < s.len() {
            assert(t[j] == s[j]);
            assert(key(s[j]) == key(x));
        }
    }
}

} // verus!
