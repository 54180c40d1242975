//! The nested names: which record types have a companion of their own, and
//! what it is called.

use crate::text::{chars_of, same_chars};
use vstd::prelude::*;
use vstd::string::*;

verus! {

/// The texts that a vector of strings holds, in its order.
pub open spec fn texts(names: Seq<String>) -> Seq<Seq<char>> {
    names.map_values(|name: String| name@)
}

/// The companion's name for the record type `original`, where the declaration
/// gave `generated` for it: `generated` itself, or `Optional` before the record
/// type's name where `generated` is empty.
pub open spec fn generated_name(original: Seq<char>, generated: Seq<char>) -> Seq<char> {
    if generated.len() == 0 {
        "Optional"@ + original
    } else {
        generated
    }
}

/// The names that the first `count` places of the two lists pair up. A name
/// that stands twice in `original` keeps the pairing of its last place.
pub open spec fn paired_upto(
    original: Seq<Seq<char>>,
    generated: Seq<Seq<char>>,
    count: nat,
) -> Map<Seq<char>, Seq<char>>
    decreases count,
{
    if count == 0 {
        Map::empty()
    } else {
        paired_upto(original, generated, (count - 1) as nat).insert(
            original[count - 1],
            generated_name(original[count - 1], generated[count - 1]),
        )
    }
}

/// The names that two lists pair up, place by place. The longer list's
/// surplus has no partner and is left out.
pub open spec fn paired_names(original: Seq<Seq<char>>, generated: Seq<Seq<char>>) -> Map<
    Seq<char>,
    Seq<char>,
> {
    paired_upto(
        original,
        generated,
        if original.len() <= generated.len() {
            original.len()
        } else {
            generated.len()
        },
    )
}

/// One pairing: a record type and its companion.
struct NestedName {
    original: String,
    generated: String,
}

/// A finite map from the names of record types to the names of their
/// companions.
pub struct NestedNames {
    entries: Vec<NestedName>,
}

impl View for NestedNames {
    type V = Map<Seq<char>, Seq<char>>;

    closed spec fn view(&self) -> Map<Seq<char>, Seq<char>> {
        Map::new(
            |key: Seq<char>| self.place_of(key) is Some,
            |key: Seq<char>| self.entries@[self.place_of(key)->0].generated@,
        )
    }
}

impl NestedNames {
    /// No record type stands twice among the entries.
    #[verifier::type_invariant]
    spec fn distinct(&self) -> bool {
        forall|i: int, j: int|
            0 <= i < j < self.entries@.len() ==> self.entries@[i].original@
                != self.entries@[j].original@
    }

    /// Whether `key` stands at place `i`.
    spec fn stands_at(&self, key: Seq<char>, i: int) -> bool {
        0 <= i < self.entries@.len() && self.entries@[i].original@ == key
    }

    /// A place at which `key` stands, if there is one.
    spec fn place_of(&self, key: Seq<char>) -> Option<int> {
        if exists|i: int| self.stands_at(key, i) {
            Some(choose|i: int| self.stands_at(key, i))
        } else {
            None
        }
    }

    /// The map without any pairing.
    pub fn new() -> (names: NestedNames)
        ensures
            names@ == Map::<Seq<char>, Seq<char>>::empty(),
    {
        let names = NestedNames { entries: Vec::new() };
        assert(names@ =~= Map::<Seq<char>, Seq<char>>::empty());
        names
    }

    /// The place of `key` among the entries.
    fn find(&self, key: &Vec<char>) -> (place: Option<usize>)
        ensures
            match place {
                Some(i) => self.stands_at(key@, i as int),
                None => forall|i: int| !self.stands_at(key@, i),
            },
    {
        let mut i: usize = 0;
        while i < self.entries.len()
            invariant
                i <= self.entries@.len(),
                forall|k: int| 0 <= k < i ==> !self.stands_at(key@, k),
            decreases self.entries@.len() - i,
        {
            let here = chars_of(self.entries[i].original.as_str());
            if same_chars(&here, key) {
                return Some(i);
            }
            i += 1;
        }
        None
    }

    /// The companion's name for the record type `key`, if it has one.
    pub fn get(&self, key: &Vec<char>) -> (found: Option<&String>)
        ensures
            match found {
                Some(name) => self@.contains_key(key@) && name@ == self@[key@],
                None => !self@.contains_key(key@),
            },
    {
        proof {
            use_type_invariant(self);
        }
        match self.find(key) {
            Some(i) => {
                assert(self.stands_at(key@, i as int));
                assert(self.place_of(key@) == Some(i as int));
                Some(&self.entries[i].generated)
            },
            None => None,
        }
    }

    /// Whether the record type `key` has a companion.
    pub fn contains_key(&self, key: &Vec<char>) -> (yes: bool)
        ensures
            yes == self@.contains_key(key@),
    {
        self.get(key).is_some()
    }

    /// The map with `original` paired with `generated`. An earlier pairing of
    /// `original` gives way.
    pub fn insert(self, original: String, generated: String) -> (names: NestedNames)
        ensures
            names@ == self@.insert(original@, generated@),
    {
        proof {
            use_type_invariant(&self);
        }
        let key = chars_of(original.as_str());
        let place = self.find(&key);
        let ghost value = generated@;
        let mut entries = self.entries;
        match place {
            Some(i) => {
                entries.set(i, NestedName { original, generated });
            },
            None => {
                entries.push(NestedName { original, generated });
            },
        }
        assert forall|a: int, b: int| 0 <= a < b < entries@.len() implies entries@[a].original@
            != entries@[b].original@ by {
            match place {
                Some(i) => {
                    assert(self.stands_at(key@, i as int));
                    assert(entries@[a].original@ == self.entries@[a].original@);
                    assert(entries@[b].original@ == self.entries@[b].original@);
                },
                None => {
                    assert(!self.stands_at(key@, a));
                    if b < self.entries@.len() {
                        assert(entries@[b].original@ == self.entries@[b].original@);
                    }
                },
            }
        }
        let names = NestedNames { entries };
        proof {
            let at: int = match place {
                Some(i) => i as int,
                None => self.entries@.len() as int,
            };
            assert(names.stands_at(key@, at));
            assert(names.entries@[at].generated@ == value);
            assert forall|k: Seq<char>, i: int| k != key@ implies (names.stands_at(k, i)
                <==> self.stands_at(k, i)) by {
                if place is Some {
                    assert(self.stands_at(key@, at));
                } else {
                    assert(!self.stands_at(k, at));
                }
            }
            assert forall|k: Seq<char>|
                names@.contains_key(k) == self@.insert(key@, value).contains_key(k) by {
                if k != key@ {
                    if self.place_of(k) is Some {
                        assert(names.stands_at(k, self.place_of(k)->0));
                    }
                    if names.place_of(k) is Some {
                        assert(self.stands_at(k, names.place_of(k)->0));
                    }
                }
            }
            assert forall|k: Seq<char>| names@.contains_key(k) implies names@[k] == self@.insert(
                key@,
                value,
            )[k] by {
                let i = names.place_of(k)->0;
                assert(names.stands_at(k, i));
                if k != key@ {
                    assert(self.stands_at(k, i));
                    let j = self.place_of(k)->0;
                    assert(self.stands_at(k, j));
                    assert(i == j);
                    assert(i != at);
                    assert(names.entries@[i] == self.entries@[i]);
                } else {
                    assert(i == at);
                }
            }
            assert(names@ =~= self@.insert(key@, value));
        }
        names
    }
}

/// Pairs the names of record types with the names of their companions, place
/// by place, as far as both lists go.
pub fn create_nested_names_map(orig: Vec<String>, gen: Vec<String>) -> (names: NestedNames)
    ensures
        names@ == paired_names(texts(orig@), texts(gen@)),
{
    let count = if orig.len() <= gen.len() {
        orig.len()
    } else {
        gen.len()
    };
    let mut names = NestedNames::new();
    let mut i: usize = 0;
    while i < count
        invariant
            i <= count,
            count <= orig@.len(),
            count <= gen@.len(),
            names@ == paired_upto(texts(orig@), texts(gen@), i as nat),
        decreases count - i,
    {
        let original = orig[i].clone();
        let generated = if gen[i].as_str().unicode_len() == 0 {
            let mut name = String::from_str("Optional");
            name.append(orig[i].as_str());
            name
        } else {
            gen[i].clone()
        };
        names = names.insert(original, generated);
        i += 1;
    }
    names
}

} // verus!
