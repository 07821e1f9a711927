use vstd::prelude::*;

verus! {

/// A parameter list as Verus sees it: (name, value) pairs in insertion order.
pub type ParamSeq = Seq<(Seq<char>, Seq<char>)>;

/// The views of an executable parameter list.
pub open spec fn params_view(ps: Seq<(String, String)>) -> ParamSeq {
    ps.map_values(|p: (String, String)| (p.0@, p.1@))
}

/// No name occurs twice in the list.
pub open spec fn keys_unique(s: ParamSeq) -> bool {
    forall|i: int, j: int| 0 <= i < j < s.len() ==> s[i].0 != s[j].0
}

/// The last position whose name is `k`, or -1 where no pair has that name.
pub open spec fn find_key(s: ParamSeq, k: Seq<char>) -> int
    decreases s.len(),
{
    if s.len() == 0 {
        -1
    } else if s.last().0 == k {
        s.len() - 1
    } else {
        find_key(s.drop_last(), k)
    }
}

/// The list after setting `k` to `v`: an existing pair of that name takes the
/// new value in place; otherwise the pair is appended.
pub open spec fn set_param(s: ParamSeq, k: Seq<char>, v: Seq<char>) -> ParamSeq {
    let i = find_key(s, k);
    if i >= 0 {
        s.update(i, (k, v))
    } else {
        s.push((k, v))
    }
}

/// The value that the list holds for `k`, if any.
pub open spec fn lookup(s: ParamSeq, k: Seq<char>) -> Option<Seq<char>> {
    let i = find_key(s, k);
    if i >= 0 {
        Some(s[i].1)
    } else {
        None
    }
}

pub proof fn lemma_find_key(s: ParamSeq, k: Seq<char>)
    ensures
        -1 <= find_key(s, k) < s.len(),
        find_key(s, k) >= 0 ==> s[find_key(s, k)].0 == k,
        forall|j: int| find_key(s, k) < j < s.len() ==> s[j].0 != k,
    decreases s.len(),
{
    if s.len() > 0 && s.last().0 != k {
        let t = s.drop_last();
        lemma_find_key(t, k);
        assert forall|j: int| find_key(s, k) < j < s.len() implies s[j].0 != k by {
            if j < t.len() {
                assert(s[j] == t[j]);
            }
        }
    }
}

/// Two lists with the same names position by position find a name at the same place.
pub proof fn lemma_find_key_same_names(s: ParamSeq, t: ParamSeq, k: Seq<char>)
    requires
        s.len() == t.len(),
        forall|j: int| 0 <= j < s.len() ==> s[j].0 == t[j].0,
    ensures
        find_key(s, k) == find_key(t, k),
    decreases s.len(),
{
    if s.len() > 0 {
        lemma_find_key_same_names(s.drop_last(), t.drop_last(), k);
    }
}

/// In a list without repeated names, the first pair named `k` is the one found.
pub proof fn lemma_find_key_unique(s: ParamSeq, k: Seq<char>, i: int)
    requires
        keys_unique(s),
        0 <= i < s.len(),
        s[i].0 == k,
    ensures
        find_key(s, k) == i,
{
    lemma_find_key(s, k);
}

/// Setting a name keeps the names of the list unique, and the name then looks
/// up to the value just set.
pub proof fn lemma_set_param(s: ParamSeq, k: Seq<char>, v: Seq<char>)
    requires
        keys_unique(s),
    ensures
        keys_unique(set_param(s, k, v)),
        lookup(set_param(s, k, v), k) == Some(v),
{
    lemma_find_key(s, k);
    let t = set_param(s, k, v);
    if find_key(s, k) >= 0 {
        lemma_find_key_same_names(s, t, k);
    } else {
        assert(t.drop_last() =~= s);
    }
}

/// Last write wins: setting a name twice leaves the list as setting it once
/// to the second value does, with no second pair of that name.
pub proof fn lemma_set_param_twice(s: ParamSeq, k: Seq<char>, a: Seq<char>, b: Seq<char>)
    ensures
        set_param(set_param(s, k, a), k, b) == set_param(s, k, b),
{
    lemma_find_key(s, k);
    let s1 = set_param(s, k, a);
    if find_key(s, k) >= 0 {
        lemma_find_key_same_names(s, s1, k);
        assert(s1.update(find_key(s, k), (k, b)) =~= s.update(find_key(s, k), (k, b)));
    } else {
        assert(s1.update(s.len() as int, (k, b)) =~= s.push((k, b)));
    }
}

/// Sets `key` to `value` in a list without repeated names.
pub fn set_raw(params: &mut Vec<(String, String)>, key: String, value: String)
    requires
        keys_unique(params_view(old(params)@)),
    ensures
        params_view(final(params)@) == set_param(params_view(old(params)@), key@, value@),
        keys_unique(params_view(final(params)@)),
{
    let ghost s = params_view(params@);
    let mut i: usize = 0;
    while i < params.len()
        invariant
            i <= params.len(),
            s == params_view(params@),
            s == params_view(old(params)@),
            keys_unique(s),
            forall|j: int| 0 <= j < i ==> s[j].0 != key@,
        decreases params.len() - i,
    {
        if params[i].0 == key {
            proof {
                lemma_find_key_unique(s, key@, i as int);
                lemma_set_param(s, key@, value@);
            }
            params.set(i, (key, value));
            assert(params_view(params@) =~= set_param(s, key@, value@));
            return;
        }
        i = i + 1;
    }
    proof {
        lemma_find_key(s, key@);
        lemma_set_param(s, key@, value@);
    }
    params.push((key, value));
    assert(params_view(params@) =~= set_param(s, key@, value@));
}

} // verus!
