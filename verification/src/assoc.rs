use vstd::prelude::*;

verus! {

/// No key occurs twice.
pub open spec fn unique_keys<K, V>(s: Seq<(K, V)>) -> bool {
    forall|i: int, j: int| 0 <= i < j < s.len() ==> (#[trigger] s[i]).0 != (#[trigger] s[j]).0
}

/// The map that an association sequence denotes, each value abstracted to
/// its view; later entries shadow earlier ones (with unique keys the order
/// is irrelevant).
pub open spec fn assoc_model<K, V: View>(s: Seq<(K, V)>) -> Map<K, V::V>
    decreases s.len(),
{
    if s.len() == 0 {
        Map::empty()
    } else {
        assoc_model(s.drop_last()).insert(s.last().0, s.last().1@)
    }
}

pub proof fn lemma_assoc_contains<K, V: View>(s: Seq<(K, V)>, k: K)
    ensures
        assoc_model(s).contains_key(k) <==> exists|i: int| 0 <= i < s.len() && (#[trigger] s[i]).0 == k,
    decreases s.len(),
{
    if s.len() > 0 {
        lemma_assoc_contains(s.drop_last(), k);
        if s.last().0 == k {
            assert(s[s.len() - 1].0 == k);
        } else if assoc_model(s).contains_key(k) {
            let i = choose|i: int| 0 <= i < s.drop_last().len() && (#[trigger] s.drop_last()[i]).0 == k;
            assert(s[i].0 == k);
        } else if exists|i: int| 0 <= i < s.len() && (#[trigger] s[i]).0 == k {
            let i = choose|i: int| 0 <= i < s.len() && (#[trigger] s[i]).0 == k;
            assert(i < s.len() - 1 ==> s.drop_last()[i].0 == k);
        }
    }
}

pub proof fn lemma_assoc_at<K, V: View>(s: Seq<(K, V)>, i: int)
    requires
        unique_keys(s),
        0 <= i < s.len(),
    ensures
        assoc_model(s).contains_key(s[i].0),
        assoc_model(s)[s[i].0] == s[i].1@,
    decreases s.len(),
{
    if i == s.len() - 1 {
    } else {
        assert(unique_keys(s.drop_last())) by {
            assert(forall|x: int, y: int|
                0 <= x < y < s.drop_last().len() ==> (#[trigger] s.drop_last()[x]).0 != (
                #[trigger] s.drop_last()[y]).0) by {
                assert(forall|x: int|
                    0 <= x < s.drop_last().len() ==> s.drop_last()[x] == s[x]);
            }
        }
        assert(s.drop_last()[i] == s[i]);
        lemma_assoc_at(s.drop_last(), i);
        assert(s[s.len() - 1].0 != s[i].0);
    }
}

/// With unique keys the model's domain has exactly one element per entry.
pub proof fn lemma_assoc_len<K, V: View>(s: Seq<(K, V)>)
    requires
        unique_keys(s),
    ensures
        assoc_model(s).dom().finite(),
        assoc_model(s).dom().len() == s.len(),
    decreases s.len(),
{
    if s.len() > 0 {
        assert(unique_keys(s.drop_last())) by {
            assert(forall|x: int|
                0 <= x < s.drop_last().len() ==> s.drop_last()[x] == s[x]);
        }
        lemma_assoc_len(s.drop_last());
        lemma_assoc_contains(s.drop_last(), s.last().0);
        assert(forall|x: int|
            0 <= x < s.drop_last().len() ==> s.drop_last()[x] == s[x]);
        assert(!assoc_model(s.drop_last()).contains_key(s.last().0));
        vstd::set::axiom_set_insert_finite(assoc_model(s.drop_last()).dom(), s.last().0);
        vstd::set::axiom_set_insert_len(assoc_model(s.drop_last()).dom(), s.last().0);
        assert(assoc_model(s).dom() =~= assoc_model(s.drop_last()).dom().insert(s.last().0));
    }
}

pub proof fn lemma_assoc_push<K, V: View>(s: Seq<(K, V)>, k: K, v: V)
    ensures
        assoc_model(s.push((k, v))) == assoc_model(s).insert(k, v@),
{
    assert(s.push((k, v)).drop_last() =~= s);
    assert(s.push((k, v)).last() == (k, v));
}

pub proof fn lemma_assoc_update<K, V: View>(s: Seq<(K, V)>, i: int, v: V)
    requires
        unique_keys(s),
        0 <= i < s.len(),
    ensures
        assoc_model(s.update(i, (s[i].0, v))) == assoc_model(s).insert(s[i].0, v@),
    decreases s.len(),
{
    let t = s.update(i, (s[i].0, v));
    if i == s.len() - 1 {
        assert(t.drop_last() =~= s.drop_last());
        assert(t.last() == (s[i].0, v));
    } else {
        assert(unique_keys(s.drop_last())) by {
            assert(forall|x: int|
                0 <= x < s.drop_last().len() ==> s.drop_last()[x] == s[x]);
        }
        assert(t.drop_last() =~= s.drop_last().update(i, (s[i].0, v)));
        assert(s.drop_last()[i] == s[i]);
        lemma_assoc_update(s.drop_last(), i, v);
        assert(t.last() == s.last());
        assert(s[i].0 != s.last().0);
        assert(assoc_model(t) == assoc_model(s.drop_last()).insert(s[i].0, v@).insert(
            s.last().0,
            s.last().1@,
        ));
        assert(assoc_model(s.drop_last()).insert(s[i].0, v@).insert(s.last().0, s.last().1@)
            =~= assoc_model(s.drop_last()).insert(s.last().0, s.last().1@).insert(s[i].0, v@));
    }
}

pub proof fn lemma_assoc_remove<K, V: View>(s: Seq<(K, V)>, i: int)
    requires
        unique_keys(s),
        0 <= i < s.len(),
    ensures
        assoc_model(s.remove(i)) == assoc_model(s).remove(s[i].0),
    decreases s.len(),
{
    let t = s.remove(i);
    lemma_assoc_contains(s.drop_last(), s.last().0);
    assert(forall|x: int| 0 <= x < s.drop_last().len() ==> s.drop_last()[x] == s[x]);
    assert(unique_keys(s.drop_last()));
    if i == s.len() - 1 {
        assert(t =~= s.drop_last());
        assert(!assoc_model(s.drop_last()).contains_key(s.last().0));
        assert(assoc_model(s.drop_last()).insert(s.last().0, s.last().1@).remove(s.last().0)
            =~= assoc_model(s.drop_last()));
    } else {
        assert(t.drop_last() =~= s.drop_last().remove(i));
        assert(s.drop_last()[i] == s[i]);
        lemma_assoc_remove(s.drop_last(), i);
        assert(t.last() == s.last());
        assert(assoc_model(t) == assoc_model(s.drop_last()).remove(s[i].0).insert(
            s.last().0,
            s.last().1@,
        ));
        assert(s[i].0 != s.last().0);
        assert(assoc_model(s.drop_last()).remove(s[i].0).insert(s.last().0, s.last().1@)
            =~= assoc_model(s.drop_last()).insert(s.last().0, s.last().1@).remove(s[i].0));
    }
}

} // verus!
