//! The arguments of one call: a map from parameter names to values, built
//! up one argument at a time.

use crate::text::str_eq;
use vstd::prelude::*;

verus! {

/// The models of a list of pairs of strings.
pub open spec fn pair_views(pairs: Seq<(String, String)>) -> Seq<(Seq<char>, Seq<char>)> {
    Seq::new(pairs.len(), |i: int| (pairs[i].0@, pairs[i].1@))
}

/// No key occurs twice in `pairs`.
pub open spec fn distinct_keys(pairs: Seq<(Seq<char>, Seq<char>)>) -> bool {
    forall|i: int, j: int| 0 <= i < j < pairs.len() ==> pairs[i].0 != pairs[j].0
}

/// Whether `key` is the key of some pair.
pub open spec fn has_key(pairs: Seq<(Seq<char>, Seq<char>)>, key: Seq<char>) -> bool {
    exists|i: int| 0 <= i < pairs.len() && #[trigger] pairs[i].0 == key
}

/// The position of a pair with the key `key`.
pub open spec fn position(pairs: Seq<(Seq<char>, Seq<char>)>, key: Seq<char>) -> int {
    choose|i: int| 0 <= i < pairs.len() && #[trigger] pairs[i].0 == key
}

/// The map that a list of pairs with distinct keys stands for.
pub open spec fn pairs_map(pairs: Seq<(Seq<char>, Seq<char>)>) -> Map<Seq<char>, Seq<char>> {
    Map::new(|key: Seq<char>| has_key(pairs, key), |key: Seq<char>| pairs[position(pairs, key)].1)
}

/// The list after `key` was set to `value`: the pair of that key keeps its
/// place and takes the value; a new key goes to the end.
pub open spec fn set_pair(
    pairs: Seq<(Seq<char>, Seq<char>)>,
    key: Seq<char>,
    value: Seq<char>,
) -> Seq<(Seq<char>, Seq<char>)> {
    if has_key(pairs, key) {
        pairs.update(position(pairs, key), (key, value))
    } else {
        pairs.push((key, value))
    }
}

/// The characters of a string that may be absent.
pub open spec fn opt_text(val: Option<&str>) -> Option<Seq<char>> {
    match val {
        Some(v) => Some(v@),
        None => None,
    }
}

/// The arguments with `key` set to `val`, where there is a value.
pub open spec fn with(
    args: Map<Seq<char>, Seq<char>>,
    key: Seq<char>,
    val: Option<Seq<char>>,
) -> Map<Seq<char>, Seq<char>> {
    match val {
        Some(v) => args.insert(key, v),
        None => args,
    }
}

/// Each pair of a list with distinct keys is an entry of its map.
pub proof fn lemma_pairs_map_entry(pairs: Seq<(Seq<char>, Seq<char>)>, i: int)
    requires
        distinct_keys(pairs),
        0 <= i < pairs.len(),
    ensures
        pairs_map(pairs).contains_key(pairs[i].0),
        pairs_map(pairs)[pairs[i].0] == pairs[i].1,
{
    let key = pairs[i].0;
    assert(has_key(pairs, key));
    let at = position(pairs, key);
    assert(at == i) by {
        if at < i {
            assert(pairs[at].0 != pairs[i].0);
        } else if i < at {
            assert(pairs[i].0 != pairs[at].0);
        }
    }
}

/// Appending a pair under a new key adds one entry to the map.
pub proof fn lemma_pairs_map_push(
    pairs: Seq<(Seq<char>, Seq<char>)>,
    key: Seq<char>,
    value: Seq<char>,
)
    requires
        distinct_keys(pairs),
        !has_key(pairs, key),
    ensures
        distinct_keys(pairs.push((key, value))),
        pairs_map(pairs.push((key, value))) == pairs_map(pairs).insert(key, value),
{
    let grown = pairs.push((key, value));
    assert forall|i: int, j: int| 0 <= i < j < grown.len() implies grown[i].0 != grown[j].0 by {
        if j == pairs.len() {
            assert(pairs[i].0 != key);
        } else {
            assert(pairs[i].0 != pairs[j].0);
        }
    }
    assert forall|k: Seq<char>| has_key(grown, k) <==> (k == key || has_key(pairs, k)) by {
        if has_key(grown, k) {
            let i = position(grown, k);
            if i < pairs.len() {
                assert(pairs[i].0 == k);
            }
        }
        if k == key {
            assert(grown[pairs.len() as int].0 == k);
        }
        if has_key(pairs, k) {
            let i = position(pairs, k);
            assert(grown[i].0 == k);
        }
    }
    assert forall|k: Seq<char>| has_key(grown, k) implies #[trigger] pairs_map(grown)[k]
        == pairs_map(pairs).insert(key, value)[k] by {
        let i = position(grown, k);
        lemma_pairs_map_entry(grown, i);
        if i < pairs.len() {
            assert(pairs[i].0 == k);
            lemma_pairs_map_entry(pairs, i);
        }
    }
    assert(pairs_map(grown) =~= pairs_map(pairs).insert(key, value));
}

/// Replacing the value of the pair at `at` replaces one entry of the map.
pub proof fn lemma_pairs_map_update(
    pairs: Seq<(Seq<char>, Seq<char>)>,
    at: int,
    value: Seq<char>,
)
    requires
        distinct_keys(pairs),
        0 <= at < pairs.len(),
    ensures
        distinct_keys(pairs.update(at, (pairs[at].0, value))),
        pairs_map(pairs.update(at, (pairs[at].0, value))) == pairs_map(pairs).insert(
            pairs[at].0,
            value,
        ),
{
    let key = pairs[at].0;
    let changed = pairs.update(at, (key, value));
    assert forall|i: int, j: int| 0 <= i < j < changed.len() implies changed[i].0
        != changed[j].0 by {
        assert(pairs[i].0 != pairs[j].0);
    }
    assert forall|k: Seq<char>| has_key(changed, k) <==> has_key(pairs, k) by {
        if has_key(changed, k) {
            let i = position(changed, k);
            assert(pairs[i].0 == k);
        }
        if has_key(pairs, k) {
            let i = position(pairs, k);
            assert(changed[i].0 == k);
        }
    }
    assert(has_key(pairs, key));
    assert forall|k: Seq<char>| has_key(changed, k) implies #[trigger] pairs_map(changed)[k]
        == pairs_map(pairs).insert(key, value)[k] by {
        let i = position(changed, k);
        lemma_pairs_map_entry(changed, i);
        assert(pairs[i].0 == k);
        lemma_pairs_map_entry(pairs, i);
    }
    assert(pairs_map(changed) =~= pairs_map(pairs).insert(key, value));
}

/// Setting an argument twice leaves only the second value: the map is the
/// one that setting the second value alone gives.
pub proof fn lemma_last_write_wins(
    args: Map<Seq<char>, Seq<char>>,
    key: Seq<char>,
    first: Seq<char>,
    second: Seq<char>,
)
    ensures
        args.insert(key, first).insert(key, second) == args.insert(key, second),
        args.insert(key, first).insert(key, second)[key] == second,
{
    assert(args.insert(key, first).insert(key, second) =~= args.insert(key, second));
}

/// The same holds of the list that goes out: after a key was set twice,
/// the list is the one that setting the second value alone gives, with one
/// pair of that key, which holds the second value.
pub proof fn lemma_last_write_wins_in_order(
    pairs: Seq<(Seq<char>, Seq<char>)>,
    key: Seq<char>,
    first: Seq<char>,
    second: Seq<char>,
)
    requires
        distinct_keys(pairs),
    ensures
        set_pair(set_pair(pairs, key, first), key, second) == set_pair(pairs, key, second),
        distinct_keys(set_pair(pairs, key, second)),
        has_key(set_pair(pairs, key, second), key),
        set_pair(pairs, key, second)[position(set_pair(pairs, key, second), key)] == (key, second),
{
    let once = set_pair(pairs, key, first);
    let last = set_pair(pairs, key, second);
    if has_key(pairs, key) {
        let at = position(pairs, key);
        lemma_pairs_map_update(pairs, at, first);
        lemma_pairs_map_update(pairs, at, second);
        assert(once[at].0 == key);
        assert(last[at].0 == key);
        let again = position(once, key);
        assert(again == at) by {
            if again < at {
                assert(once[again].0 != once[at].0);
            } else if at < again {
                assert(once[at].0 != once[again].0);
            }
        }
        assert(once.update(at, (key, second)) =~= last);
    } else {
        lemma_pairs_map_push(pairs, key, first);
        lemma_pairs_map_push(pairs, key, second);
        let end = pairs.len() as int;
        assert(once[end].0 == key);
        assert(last[end].0 == key);
        let again = position(once, key);
        assert(again == end) by {
            if again < end {
                assert(once[again].0 != once[end].0);
            }
        }
        assert(once.update(end, (key, second)) =~= last);
    }
    let found = position(last, key);
    assert(last[found].0 == key);
    assert(last[found] == (key, second)) by {
        if has_key(pairs, key) {
            let at = position(pairs, key);
            if found < at {
                assert(last[found].0 != last[at].0);
            } else if at < found {
                assert(last[at].0 != last[found].0);
            }
        } else {
            let end = pairs.len() as int;
            if found < end {
                assert(last[found].0 != last[end].0);
            }
        }
    }
}

/// The arguments of one call.
///
/// Every builder starts with `format=json`. Setting an argument that is
/// already there replaces its value, so each name occurs once.
#[derive(Debug)]
pub struct RequestBuilder {
    args: Vec<(String, String)>,
}

impl View for RequestBuilder {
    type V = Map<Seq<char>, Seq<char>>;

    closed spec fn view(&self) -> Map<Seq<char>, Seq<char>> {
        pairs_map(self.pairs())
    }
}

impl RequestBuilder {
    #[verifier::type_invariant]
    spec fn keys_are_distinct(self) -> bool {
        distinct_keys(pair_views(self.args@))
    }

    /// The arguments in the order in which they go out: the order in which
    /// their names were first set.
    pub closed spec fn pairs(&self) -> Seq<(Seq<char>, Seq<char>)> {
        pair_views(self.args@)
    }

    /// The arguments that every call starts from.
    pub open spec fn seed() -> Map<Seq<char>, Seq<char>> {
        Map::empty().insert("format"@, "json"@)
    }

    /// A builder that holds `format=json` and nothing else.
    pub fn new() -> (request: RequestBuilder)
        ensures
            request@ == Self::seed(),
            request.pairs() == seq![("format"@, "json"@)],
    {
        let mut args: Vec<(String, String)> = Vec::new();
        args.push(("format".to_owned(), "json".to_owned()));
        proof {
            let none = Seq::<(Seq<char>, Seq<char>)>::empty();
            assert(!has_key(none, "format"@));
            lemma_pairs_map_push(none, "format"@, "json"@);
            assert(pair_views(args@) =~= none.push(("format"@, "json"@)));
            assert(pairs_map(none) =~= Map::empty());
            assert(pair_views(args@) =~= seq![("format"@, "json"@)]);
        }
        RequestBuilder { args }
    }

    /// Sets the argument `key` to `val`, replacing any value it had.
    pub fn arg(&mut self, key: &str, val: &str) -> (this: &mut Self)
        ensures
            this@ == old(self)@.insert(key@, val@),
            this.pairs() == set_pair(old(self).pairs(), key@, val@),
            *final(self) == *final(this),
    {
        proof {
            use_type_invariant(&*self);
        }
        let ghost before = pair_views(self.args@);
        let mut args: Vec<(String, String)> = Vec::new();
        std::mem::swap(&mut self.args, &mut args);
        let mut i: usize = 0;
        let mut found = false;
        while i < args.len()
            invariant
                i <= args.len(),
                !found ==> before == pair_views(args@),
                !found ==> forall|k: int| 0 <= k < i ==> before[k].0 != key@,
                found ==> i == args.len(),
                found ==> distinct_keys(pair_views(args@)),
                found ==> pairs_map(pair_views(args@)) == pairs_map(before).insert(key@, val@),
                found ==> pair_views(args@) == set_pair(before, key@, val@),
                distinct_keys(before),
            decreases args.len() - i,
        {
            if str_eq(args[i].0.as_str(), key) {
                assert(before.len() == args@.len());
                assert(before[i as int].0 == key@);
                let name = args[i].0.clone();
                args.set(i, (name, val.to_owned()));
                proof {
                    lemma_pairs_map_update(before, i as int, val@);
                    assert(pair_views(args@) =~= before.update(
                        i as int,
                        (before[i as int].0, val@),
                    ));
                    assert(has_key(before, key@));
                    let at = position(before, key@);
                    assert(at == i) by {
                        if at < i {
                            assert(before[at].0 != key@);
                        } else if i < at {
                            assert(before[i as int].0 != before[at].0);
                        }
                    }
                }
                found = true;
                i = args.len();
            } else {
                i += 1;
            }
        }
        if !found {
            args.push((key.to_owned(), val.to_owned()));
            proof {
                assert(!has_key(before, key@)) by {
                    if has_key(before, key@) {
                        let at = position(before, key@);
                        assert(before[at].0 != key@);
                    }
                }
                lemma_pairs_map_push(before, key@, val@);
                assert(pair_views(args@) =~= before.push((key@, val@)));
            }
        }
        self.args = args;
        self
    }

    /// Sets the argument `key` to `val` where there is one; an absent value
    /// leaves the builder as it is.
    pub fn argo(&mut self, key: &str, val: Option<&str>) -> (this: &mut Self)
        ensures
            this@ == with(old(self)@, key@, opt_text(val)),
            this.pairs() == match val {
                Some(v) => set_pair(old(self).pairs(), key@, v@),
                None => old(self).pairs(),
            },
            *final(self) == *final(this),
    {
        match val {
            Some(v) => self.arg(key, v),
            None => self,
        }
    }

    /// The value of the argument `key`, if it is set.
    pub fn value(&self, key: &str) -> (found: Option<&str>)
        ensures
            match found {
                Some(v) => self@.contains_key(key@) && self@[key@] == v@,
                None => !self@.contains_key(key@),
            },
    {
        proof {
            use_type_invariant(self);
        }
        let ghost all = pair_views(self.args@);
        let mut i: usize = 0;
        while i < self.args.len()
            invariant
                i <= self.args.len(),
                all == pair_views(self.args@),
                distinct_keys(all),
                forall|k: int| 0 <= k < i ==> all[k].0 != key@,
            decreases self.args.len() - i,
        {
            if str_eq(self.args[i].0.as_str(), key) {
                proof {
                    lemma_pairs_map_entry(all, i as int);
                }
                return Some(self.args[i].1.as_str());
            }
            i += 1;
        }
        proof {
            if has_key(all, key@) {
                let at = position(all, key@);
                assert(all[at].0 != key@);
            }
        }
        None
    }

    /// The arguments as the transport sends them: each name once, in the
    /// order of [`RequestBuilder::pairs`].
    pub fn args(&self) -> (list: &Vec<(String, String)>)
        ensures
            pair_views(list@) == self.pairs(),
            distinct_keys(self.pairs()),
            pairs_map(self.pairs()) == self@,
    {
        proof {
            use_type_invariant(self);
        }
        &self.args
    }
}

impl Clone for RequestBuilder {
    fn clone(&self) -> (copy: RequestBuilder)
        ensures
            copy@ == self@,
            copy.pairs() == self.pairs(),
    {
        proof {
            use_type_invariant(self);
        }
        let mut args: Vec<(String, String)> = Vec::new();
        let mut i: usize = 0;
        while i < self.args.len()
            invariant
                i <= self.args.len(),
                args@.len() == i,
                forall|k: int| 0 <= k < i ==> args@[k] == self.args@[k],
            decreases self.args.len() - i,
        {
            args.push((self.args[i].0.clone(), self.args[i].1.clone()));
            i += 1;
        }
        assert(pair_views(args@) =~= pair_views(self.args@));
        RequestBuilder { args }
    }
}

} // verus!
