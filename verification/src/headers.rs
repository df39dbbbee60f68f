use vstd::prelude::*;
use vstd::string::StringExecFns;

verus! {

/// A header as text: its name and its value.
pub type HeaderPair = (Seq<char>, Seq<char>);

/// The text of each stored header, in the order in which they are held.
pub open spec fn pairs_of(entries: Seq<(String, String)>) -> Seq<HeaderPair> {
    Seq::new(entries.len(), |i: int| (entries[i].0@, entries[i].1@))
}

/// No header name occurs twice.
pub open spec fn distinct_names(pairs: Seq<HeaderPair>) -> bool {
    forall|i: int, j: int| 0 <= i < j < pairs.len() ==> pairs[i].0 != pairs[j].0
}

/// Some header has the name `name`.
pub open spec fn has_name(pairs: Seq<HeaderPair>, name: Seq<char>) -> bool {
    exists|i: int| 0 <= i < pairs.len() && #[trigger] pairs[i].0 == name
}

/// The mapping from names to values that a list of headers stands for.
pub open spec fn map_of(pairs: Seq<HeaderPair>) -> Map<Seq<char>, Seq<char>> {
    Map::new(
        |name: Seq<char>| has_name(pairs, name),
        |name: Seq<char>| pairs[choose|i: int| 0 <= i < pairs.len() && #[trigger] pairs[i].0 == name].1,
    )
}

/// The place of the header named `name` in a list, or the length of the
/// list where no header has that name.
pub open spec fn place_of(pairs: Seq<HeaderPair>, name: Seq<char>) -> int
    decreases pairs.len(),
{
    if pairs.len() == 0 {
        0
    } else if pairs[0].0 == name {
        0
    } else {
        1 + place_of(pairs.drop_first(), name)
    }
}

/// A list after `value` is stored under `name`: in the place of the header
/// of that name, or at the end where there is none.
pub open spec fn stored(pairs: Seq<HeaderPair>, name: Seq<char>, value: Seq<char>) -> Seq<
    HeaderPair,
> {
    let place = place_of(pairs, name);
    if place < pairs.len() {
        pairs.update(place, (name, value))
    } else {
        pairs.push((name, value))
    }
}

/// The place of a name is the first index at which it stands.
pub proof fn lemma_place_of(pairs: Seq<HeaderPair>, name: Seq<char>)
    ensures
        0 <= place_of(pairs, name) <= pairs.len(),
        place_of(pairs, name) < pairs.len() ==> pairs[place_of(pairs, name)].0 == name,
        forall|i: int| 0 <= i < place_of(pairs, name) ==> (#[trigger] pairs[i]).0 != name,
    decreases pairs.len(),
{
    if pairs.len() > 0 && pairs[0].0 != name {
        let rest = pairs.drop_first();
        lemma_place_of(rest, name);
        assert forall|i: int| 0 <= i < place_of(pairs, name) implies (#[trigger] pairs[i]).0
            != name by {
            if i > 0 {
                assert(pairs[i] == rest[i - 1]);
            }
        }
    }
}

/// Storing a value keeps the names distinct, and the list then stands for
/// the mapping with that one entry set.
pub proof fn lemma_stored(pairs: Seq<HeaderPair>, name: Seq<char>, value: Seq<char>)
    requires
        distinct_names(pairs),
    ensures
        distinct_names(stored(pairs, name, value)),
        map_of(stored(pairs, name, value)) == map_of(pairs).insert(name, value),
{
    let after = stored(pairs, name, value);
    let place = place_of(pairs, name);
    lemma_place_of(pairs, name);
    assert(after.len() > place && after[place] == (name, value));
    assert forall|i: int| 0 <= i < after.len() && i != place implies i < pairs.len()
        && #[trigger] after[i] == pairs[i] && pairs[i].0 != name by {
        if place < pairs.len() {
            if i < place {
                assert(pairs[i].0 != pairs[place].0);
            } else {
                assert(pairs[place].0 != pairs[i].0);
            }
        }
    }
    assert forall|i: int, j: int| 0 <= i < j < after.len() implies after[i].0 != after[j].0 by {
        if i != place && j != place {
            assert(after[i] == pairs[i] && after[j] == pairs[j]);
        } else if i == place {
            assert(after[j] == pairs[j]);
        } else {
            assert(after[i] == pairs[i]);
        }
    }
    lemma_map_of_pairs(pairs);
    lemma_map_of_pairs(after);
    let wanted = map_of(pairs).insert(name, value);
    assert forall|n: Seq<char>| wanted.contains_key(n) implies #[trigger] map_of(
        after,
    ).contains_key(n) by {
        if n == name {
            assert(after[place].0 == n);
        } else {
            let k = choose|k: int| 0 <= k < pairs.len() && #[trigger] pairs[k].0 == n;
            assert(k != place);
            assert(after[k] == pairs[k]);
            assert(after[k].0 == n);
        }
    }
    assert forall|n: Seq<char>| #[trigger] map_of(after).contains_key(n) implies wanted.contains_key(
        n,
    ) && map_of(after)[n] == wanted[n] by {
        let k = choose|k: int| 0 <= k < after.len() && #[trigger] after[k].0 == n;
        assert(map_of(after)[after[k].0] == after[k].1);
        if k != place {
            assert(after[k] == pairs[k]);
            assert(map_of(pairs)[pairs[k].0] == pairs[k].1);
        }
    }
    assert(map_of(after) =~= wanted);
}

/// A character with the ASCII letters `A` to `Z` mapped to `a` to `z` and
/// every other character unchanged.
pub open spec fn ascii_lower(c: char) -> char {
    if 'A' as u32 <= c as u32 && c as u32 <= 'Z' as u32 {
        ((c as u32) + 32) as char
    } else {
        c
    }
}

/// Two texts are the same up to the case of their ASCII letters.
pub open spec fn same_ignoring_ascii_case(a: Seq<char>, b: Seq<char>) -> bool {
    &&& a.len() == b.len()
    &&& forall|i: int| 0 <= i < a.len() ==> ascii_lower(#[trigger] a[i]) == ascii_lower(b[i])
}

/// `str::eq_ignore_ascii_case` of std: true exactly when the two strings are
/// equal once the ASCII letters of both are brought to lower case.
pub assume_specification[ str::eq_ignore_ascii_case ](a: &str, b: &str) -> (same: bool)
    ensures
        same == same_ignoring_ascii_case(a@, b@),
;

/// Some header has a name that is `name` up to the case of its ASCII letters.
pub open spec fn supplies(pairs: Seq<HeaderPair>, name: Seq<char>) -> bool {
    exists|i: int| 0 <= i < pairs.len() && same_ignoring_ascii_case(#[trigger] pairs[i].0, name)
}

/// With distinct names, each listed header is an entry of the mapping, and
/// the mapping has no other entry.
pub proof fn lemma_map_of_pairs(pairs: Seq<HeaderPair>)
    requires
        distinct_names(pairs),
    ensures
        forall|i: int|
            0 <= i < pairs.len() ==> map_of(pairs).contains_key(#[trigger] pairs[i].0) && map_of(
                pairs,
            )[pairs[i].0] == pairs[i].1,
        forall|name: Seq<char>| #[trigger]
            map_of(pairs).contains_key(name) ==> has_name(pairs, name),
{
    assert forall|i: int| 0 <= i < pairs.len() implies map_of(pairs).contains_key(
        #[trigger] pairs[i].0,
    ) && map_of(pairs)[pairs[i].0] == pairs[i].1 by {
        let name = pairs[i].0;
        assert(has_name(pairs, name));
        let k = choose|k: int| 0 <= k < pairs.len() && #[trigger] pairs[k].0 == name;
        assert(k == i);
    }
}

/// Extra headers for a request: a mapping from header names to values, held
/// as a list in which no name occurs twice.
#[derive(Debug)]
pub struct Headers {
    entries: Vec<(String, String)>,
}

impl View for Headers {
    type V = Map<Seq<char>, Seq<char>>;

    open spec fn view(&self) -> Map<Seq<char>, Seq<char>> {
        map_of(self.pairs())
    }
}

impl Headers {
    #[verifier::type_invariant]
    spec fn names_are_distinct(self) -> bool {
        distinct_names(pairs_of(self.entries@))
    }

    /// The headers in the order in which they are held.
    pub closed spec fn pairs(&self) -> Seq<HeaderPair> {
        pairs_of(self.entries@)
    }

    /// A mapping without headers.
    pub fn new() -> (headers: Self)
        ensures
            headers.pairs() == Seq::<HeaderPair>::empty(),
            headers@ == Map::<Seq<char>, Seq<char>>::empty(),
    {
        let headers = Headers { entries: Vec::new() };
        assert(headers.pairs() =~= Seq::<HeaderPair>::empty());
        assert(headers@ =~= Map::<Seq<char>, Seq<char>>::empty());
        headers
    }

    /// The stored headers, in the order in which they are held.
    pub fn entries(&self) -> (entries: &Vec<(String, String)>)
        ensures
            pairs_of(entries@) == self.pairs(),
            distinct_names(self.pairs()),
    {
        proof {
            use_type_invariant(self);
        }
        &self.entries
    }

    /// The position of the header named `name`, if there is one.
    fn position(&self, name: &String) -> (found: Option<usize>)
        ensures
            match found {
                Some(i) => i < self.pairs().len() && self.pairs()[i as int].0 == name@,
                None => !has_name(self.pairs(), name@),
            },
    {
        let mut i: usize = 0;
        while i < self.entries.len()
            invariant
                i <= self.entries.len(),
                forall|j: int| 0 <= j < i ==> self.pairs()[j].0 != name@,
            decreases self.entries.len() - i,
        {
            if self.entries[i].0 == *name {
                return Some(i);
            }
            i += 1;
        }
        None
    }

    /// The value stored under `name`.
    pub fn get(&self, name: &str) -> (value: Option<&String>)
        ensures
            match value {
                Some(text) => self@.contains_key(name@) && self@[name@] == text@,
                None => !self@.contains_key(name@),
            },
    {
        proof {
            use_type_invariant(self);
            lemma_map_of_pairs(self.pairs());
        }
        let name = String::from_str(name);
        match self.position(&name) {
            Some(i) => Some(&self.entries[i].1),
            None => None,
        }
    }

    /// Stores `value` under `name`. A value already stored under that name is
    /// replaced where it stands and returned; a new name goes to the end. The
    /// other headers stay as they are.
    pub fn insert(&mut self, name: String, value: String) -> (previous: Option<String>)
        ensures
            final(self)@ == old(self)@.insert(name@, value@),
            match previous {
                Some(text) => old(self)@.contains_key(name@) && old(self)@[name@] == text@,
                None => !old(self)@.contains_key(name@),
            },
            final(self).pairs() == stored(old(self).pairs(), name@, value@),
    {
        let ghost before = self.pairs();
        proof {
            use_type_invariant(&*self);
            lemma_map_of_pairs(before);
            lemma_place_of(before, name@);
            lemma_stored(before, name@, value@);
        }
        let found = self.position(&name);
        let mut taken = Headers { entries: Vec::new() };
        std::mem::swap(self, &mut taken);
        let mut entries = taken.entries;
        let previous = match found {
            Some(i) => {
                assert(place_of(before, name@) == i) by {
                    if place_of(before, name@) < i {
                        assert(before[place_of(before, name@)].0 != before[i as int].0);
                    }
                }
                let previous = entries[i].1.clone();
                entries.set(i, (name, value));
                assert(pairs_of(entries@) =~= before.update(i as int, (name@, value@)));
                Some(previous)
            },
            None => {
                assert(place_of(before, name@) == before.len()) by {
                    if place_of(before, name@) < before.len() {
                        assert(has_name(before, name@));
                    }
                }
                entries.push((name, value));
                assert(pairs_of(entries@) =~= before.push((name@, value@)));
                None
            },
        };
        *self = Headers { entries };
        previous
    }
}

} // verus!
