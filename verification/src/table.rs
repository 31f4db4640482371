//! Ordered lists of named string entries with unique names, modelled as a
//! `Map` from name to value. The configuration parser uses them for the
//! fields of a section, and the invocation carries its environment as one.
use vstd::prelude::*;

verus! {

/// One named entry: a field of a configuration section, or an
/// environment-variable binding.
pub struct Pair {
    pub key: String,
    pub value: String,
}

/// The mapping a list of entries stands for; a later entry with the same
/// key supersedes an earlier one.
pub open spec fn pairs_model(s: Seq<Pair>) -> Map<Seq<char>, Seq<char>>
    decreases s.len(),
{
    if s.len() == 0 {
        Map::empty()
    } else {
        pairs_model(s.drop_last()).insert(s.last().key@, s.last().value@)
    }
}

/// No two entries share a key.
pub open spec fn keys_unique(s: Seq<Pair>) -> bool {
    forall|i: int, j: int| 0 <= i < j < s.len() ==> s[i].key@ != s[j].key@
}

/// A key is in the mapping exactly when some entry carries it.
pub proof fn lemma_pairs_model_contains(s: Seq<Pair>, k: Seq<char>)
    ensures
        pairs_model(s).contains_key(k) <==> exists|i: int| 0 <= i < s.len() && s[i].key@ == k,
    decreases s.len(),
{
    if s.len() > 0 {
        let d = s.drop_last();
        lemma_pairs_model_contains(d, k);
        if s.last().key@ == k {
            assert(s[s.len() - 1].key@ == k);
        } else {
            if pairs_model(s).contains_key(k) {
                let i = choose|i: int| 0 <= i < d.len() && d[i].key@ == k;
                assert(s[i].key@ == k);
            }
            if exists|i: int| 0 <= i < s.len() && s[i].key@ == k {
                let i = choose|i: int| 0 <= i < s.len() && s[i].key@ == k;
                assert(d[i].key@ == k);
            }
        }
    }
}

/// With unique keys, the mapping sends an entry's key to its value.
pub proof fn lemma_pairs_model_index(s: Seq<Pair>, i: int)
    requires
        keys_unique(s),
        0 <= i < s.len(),
    ensures
        pairs_model(s).contains_key(s[i].key@),
        pairs_model(s)[s[i].key@] == s[i].value@,
    decreases s.len(),
{
    let d = s.drop_last();
    if i == s.len() - 1 {
    } else {
        assert(s[i].key@ != s.last().key@);
        lemma_pairs_model_index(d, i);
        assert(d[i] == s[i]);
    }
}

/// Replacing the entry that holds a key updates the mapping at that key.
pub proof fn lemma_pairs_model_update(s: Seq<Pair>, i: int, p: Pair)
    requires
        keys_unique(s),
        0 <= i < s.len(),
        p.key@ == s[i].key@,
    ensures
        pairs_model(s.update(i, p)) == pairs_model(s).insert(p.key@, p.value@),
        keys_unique(s.update(i, p)),
    decreases s.len(),
{
    let d = s.drop_last();
    let u = s.update(i, p);
    assert(forall|j: int| 0 <= j < s.len() ==> u[j].key@ == s[j].key@);
    if i == s.len() - 1 {
        assert(u.drop_last() =~= d);
        assert(u.last() == p);
        assert(pairs_model(d).insert(p.key@, s.last().value@).insert(p.key@, p.value@)
            =~= pairs_model(d).insert(p.key@, p.value@));
    } else {
        assert(s[i].key@ != s.last().key@);
        lemma_pairs_model_update(d, i, p);
        assert(u.drop_last() =~= d.update(i, p));
        assert(u.last() == s.last());
        assert(pairs_model(d).insert(p.key@, p.value@).insert(s.last().key@, s.last().value@)
            =~= pairs_model(d).insert(s.last().key@, s.last().value@).insert(
            p.key@,
            p.value@,
        ));
    }
}

/// Appending a fresh entry updates the mapping at its key.
pub proof fn lemma_pairs_model_push(s: Seq<Pair>, p: Pair)
    ensures
        pairs_model(s.push(p)) == pairs_model(s).insert(p.key@, p.value@),
    decreases s.len(),
{
    assert(s.push(p).drop_last() =~= s);
    assert(s.push(p).last() == p);
}

/// Finds the entry that carries a key, if any.
pub fn find_pair(t: &Vec<Pair>, key: &String) -> (r: Option<usize>)
    ensures
        match r {
            Some(i) => i < t@.len() && t@[i as int].key@ == key@,
            None => forall|i: int| 0 <= i < t@.len() ==> t@[i].key@ != key@,
        },
{
    let mut i: usize = 0;
    while i < t.len()
        invariant
            i <= t@.len(),
            forall|j: int| 0 <= j < i ==> t@[j].key@ != key@,
        decreases t@.len() - i,
    {
        if t[i].key == *key {
            return Some(i);
        }
        i = i + 1;
    }
    None
}

/// Binds a key to a value: the entry already carrying the key is replaced,
/// or a fresh entry is appended.
pub fn table_set(t: &mut Vec<Pair>, key: String, value: String)
    requires
        keys_unique(old(t)@),
    ensures
        keys_unique(final(t)@),
        pairs_model(final(t)@) == pairs_model(old(t)@).insert(key@, value@),
{
    let ghost k = key@;
    let ghost v = value@;
    match find_pair(t, &key) {
        Some(i) => {
            let p = Pair { key, value };
            proof {
                lemma_pairs_model_update(t@, i as int, p);
            }
            t[i] = p;
        },
        None => {
            let ghost s0 = t@;
            t.push(Pair { key, value });
            proof {
                lemma_pairs_model_push(s0, Pair { key, value });
                assert(forall|j: int| 0 <= j < s0.len() ==> #[trigger] t@[j].key@ != k);
            }
        },
    }
}

/// Looks a key up in a table, returning its value.
pub fn table_get<'a>(t: &'a Vec<Pair>, key: &String) -> (r: Option<&'a String>)
    requires
        keys_unique(t@),
    ensures
        match r {
            Some(v) => pairs_model(t@).contains_key(key@) && pairs_model(t@)[key@] == v@,
            None => !pairs_model(t@).contains_key(key@),
        },
{
    proof {
        lemma_pairs_model_contains(t@, key@);
    }
    match find_pair(t, key) {
        Some(i) => {
            proof {
                lemma_pairs_model_index(t@, i as int);
            }
            Some(&t[i].value)
        },
        None => None,
    }
}

} // verus!
