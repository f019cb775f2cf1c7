//! The mathematical model of a header set: a sequence of key/value entries
//! read as a map in which a later entry for a key overrides an earlier one.

use vstd::prelude::*;

verus! {

/// The map described by a sequence of header entries, where a later entry
/// for the same key wins.
pub open spec fn map_of(s: Seq<(String, String)>) -> Map<Seq<char>, Seq<char>>
    decreases s.len(),
{
    if s.len() == 0 {
        Map::empty()
    } else {
        map_of(s.drop_last()).insert(s.last().0@, s.last().1@)
    }
}

/// No two entries share a key.
pub open spec fn unique_keys(s: Seq<(String, String)>) -> bool {
    forall|i: int, j: int| 0 <= i < j < s.len() ==> s[i].0@ != s[j].0@
}

/// Some entry of `s` has key `k`.
pub open spec fn has_key(s: Seq<(String, String)>, k: Seq<char>) -> bool {
    exists|i: int| 0 <= i < s.len() && s[i].0@ == k
}

/// Appending one entry is one map insertion.
pub proof fn lemma_map_of_push(s: Seq<(String, String)>, e: (String, String))
    ensures
        map_of(s.push(e)) == map_of(s).insert(e.0@, e.1@),
{
    assert(s.push(e).drop_last() =~= s);
    assert(s.push(e).last() == e);
}

/// The domain of the map is exactly the set of keys that occur in the sequence.
pub proof fn lemma_map_of_dom(s: Seq<(String, String)>)
    ensures
        forall|k: Seq<char>| #[trigger] map_of(s).dom().contains(k) <==> has_key(s, k),
    decreases s.len(),
{
    if s.len() > 0 {
        let dl = s.drop_last();
        lemma_map_of_dom(dl);
        assert(map_of(s) == map_of(dl).insert(s.last().0@, s.last().1@));
        assert forall|k: Seq<char>| #[trigger] map_of(s).dom().contains(k) <==> has_key(s, k) by {
            assert(map_of(dl).dom().contains(k) <==> has_key(dl, k));
            if k == s.last().0@ {
                assert(s[s.len() - 1].0@ == k);
                assert(has_key(s, k));
                assert(map_of(s).dom().contains(k));
            } else {
                assert(map_of(s).dom().contains(k) <==> map_of(dl).dom().contains(k));
                if has_key(dl, k) {
                    let i = choose|i: int| 0 <= i < dl.len() && dl[i].0@ == k;
                    assert(s[i].0@ == k);
                    assert(has_key(s, k));
                }
                if has_key(s, k) {
                    let i = choose|i: int| 0 <= i < s.len() && s[i].0@ == k;
                    assert(i < s.len() - 1);
                    assert(dl[i].0@ == k);
                    assert(has_key(dl, k));
                }
            }
        }
    }
}

/// When keys are unique, the entry that carries a key gives its mapped value.
pub proof fn lemma_map_of_value(s: Seq<(String, String)>, i: int)
    requires
        unique_keys(s),
        0 <= i < s.len(),
    ensures
        map_of(s).dom().contains(s[i].0@),
        map_of(s)[s[i].0@] == s[i].1@,
    decreases s.len(),
{
    let dl = s.drop_last();
    if i == s.len() - 1 {
        assert(s[i] == s.last());
    } else {
        assert(dl[i] == s[i]);
        assert(unique_keys(dl));
        lemma_map_of_value(dl, i);
        assert(s[i].0@ != s.last().0@);
    }
}

/// Removing the only entry that carries a key removes that key from the map,
/// keeps every other entry, and keeps the keys unique.
pub proof fn lemma_map_of_remove(s: Seq<(String, String)>, i: int)
    requires
        unique_keys(s),
        0 <= i < s.len(),
    ensures
        map_of(s.remove(i)) == map_of(s).remove(s[i].0@),
        unique_keys(s.remove(i)),
        !has_key(s.remove(i), s[i].0@),
    decreases s.len(),
{
    let k = s[i].0@;
    let r = s.remove(i);
    assert forall|j: int| 0 <= j < r.len() implies r[j].0@ != k by {
        if j < i {
            assert(r[j] == s[j]);
        } else {
            assert(r[j] == s[j + 1]);
        }
    }
    if i == s.len() - 1 {
        assert(r =~= s.drop_last());
        lemma_map_of_dom(r);
        assert(!map_of(r).dom().contains(k));
        assert(map_of(s) == map_of(r).insert(k, s[i].1@));
        assert(map_of(r).remove(k) =~= map_of(r));
        assert(map_of(s).remove(k) =~= map_of(r));
    } else {
        let dl = s.drop_last();
        assert(unique_keys(dl));
        assert(dl[i] == s[i]);
        lemma_map_of_remove(dl, i);
        assert(r.drop_last() =~= dl.remove(i));
        assert(r.last() == s.last());
        assert(map_of(r) == map_of(dl.remove(i)).insert(s.last().0@, s.last().1@));
        assert(s.last().0@ != k);
        assert(map_of(s).remove(k) =~= map_of(dl).remove(k).insert(s.last().0@, s.last().1@));
    }
}

/// Bulk insertion of a sequence of entries, first entry first.
pub open spec fn insert_all(
    m: Map<Seq<char>, Seq<char>>,
    entries: Seq<(String, String)>,
) -> Map<Seq<char>, Seq<char>>
    decreases entries.len(),
{
    if entries.len() == 0 {
        m
    } else {
        insert_all(m.insert(entries[0].0@, entries[0].1@), entries.drop_first())
    }
}

/// One step of bulk insertion: handling the next entry is one insertion.
pub proof fn lemma_insert_all_step(
    m: Map<Seq<char>, Seq<char>>,
    entries: Seq<(String, String)>,
    i: int,
)
    requires
        0 <= i < entries.len(),
    ensures
        insert_all(m, entries.skip(i)) == insert_all(
            m.insert(entries[i].0@, entries[i].1@),
            entries.skip(i + 1),
        ),
{
    assert(entries.skip(i)[0] == entries[i]);
    assert(entries.skip(i).drop_first() =~= entries.skip(i + 1));
}

/// Bulk-inserting a sequence of entries and then one more entry yields the
/// same map as bulk-inserting the sequence extended by that entry; by
/// induction, bulk insertion applies its entries exactly as single
/// insertions in order.
pub proof fn lemma_insert_all_push(
    m: Map<Seq<char>, Seq<char>>,
    entries: Seq<(String, String)>,
    e: (String, String),
)
    ensures
        insert_all(m, entries.push(e)) == insert_all(m, entries).insert(e.0@, e.1@),
    decreases entries.len(),
{
    let p = entries.push(e);
    if entries.len() == 0 {
        assert(p[0] == e);
        assert(insert_all(m, p) == insert_all(m.insert(e.0@, e.1@), p.drop_first()));
        assert(p.drop_first().len() == 0);
        assert(insert_all(m.insert(e.0@, e.1@), p.drop_first()) == m.insert(e.0@, e.1@));
        assert(insert_all(m, entries) == m);
    } else {
        assert(p[0] == entries[0]);
        let m1 = m.insert(entries[0].0@, entries[0].1@);
        assert(insert_all(m, p) == insert_all(m1, p.drop_first()));
        assert(p.drop_first() =~= entries.drop_first().push(e));
        lemma_insert_all_push(m1, entries.drop_first(), e);
        assert(insert_all(m, entries) == insert_all(m1, entries.drop_first()));
    }
}

/// Writing a key twice keeps only the later value.
pub proof fn lemma_last_write_wins(
    m: Map<Seq<char>, Seq<char>>,
    k: Seq<char>,
    v1: Seq<char>,
    v2: Seq<char>,
)
    ensures
        m.insert(k, v1).insert(k, v2) == m.insert(k, v2),
{
    assert(m.insert(k, v1).insert(k, v2) =~= m.insert(k, v2));
}

} // verus!
