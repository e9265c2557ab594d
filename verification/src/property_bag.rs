//! The attributes of an element, and the typed values that they hold.
//!
//! A property bag maps each attribute name that an element carries to the raw
//! string of its value.  `lookup` reads one value, `dup` makes a second bag
//! with the same contents, and `free` gives a bag up.  A bag is owned by
//! exactly one holder: giving it up consumes it, so that it can be neither
//! read nor given up again, and a duplicate is a bag of its own that lives on
//! whatever becomes of the one it was made from.
//!
//! The functions `parse_or_none`, `parse_or_default` and `parse_or_value`
//! look an attribute up and parse what they find.  They differ in what they
//! return for an attribute that is absent; all three report a value that is
//! present but invalid as an error that names the attribute.

use vstd::prelude::*;
use crate::error::NodeError;
use crate::parsers::Parse;
use crate::text::str_eq;

verus! {

/// The names and values held in a vector of entries, as characters.
spec fn pairs_of(entries: Seq<(String, String)>) -> Seq<(Seq<char>, Seq<char>)> {
    Seq::new(entries.len(), |i: int| (entries[i].0@, entries[i].1@))
}

/// No name occurs twice.
spec fn distinct_names(pairs: Seq<(Seq<char>, Seq<char>)>) -> bool {
    forall|i: int, j: int| 0 <= i < j < pairs.len() ==> pairs[i].0 != pairs[j].0
}

/// Some pair carries the name.
spec fn has_name(pairs: Seq<(Seq<char>, Seq<char>)>, name: Seq<char>) -> bool {
    exists|i: int| 0 <= i < pairs.len() && pairs[i].0 == name
}

/// The mapping that a sequence of pairs stands for.
spec fn map_of(pairs: Seq<(Seq<char>, Seq<char>)>) -> Map<Seq<char>, Seq<char>> {
    Map::new(
        |name: Seq<char>| has_name(pairs, name),
        |name: Seq<char>| pairs[choose|i: int| 0 <= i < pairs.len() && pairs[i].0 == name].1,
    )
}

/// What a bag with these contents holds under `key`.
pub open spec fn lookup_spec(contents: Map<Seq<char>, Seq<char>>, key: Seq<char>) -> Option<
    Seq<char>,
> {
    if contents.contains_key(key) {
        Some(contents[key])
    } else {
        None
    }
}

/// Where names are distinct, the mapping holds each pair's value under its name.
proof fn lemma_map_of_holds(pairs: Seq<(Seq<char>, Seq<char>)>, i: int)
    requires
        distinct_names(pairs),
        0 <= i < pairs.len(),
    ensures
        map_of(pairs).contains_key(pairs[i].0),
        map_of(pairs)[pairs[i].0] == pairs[i].1,
{
    let name = pairs[i].0;
    assert(has_name(pairs, name));
    let j = choose|j: int| 0 <= j < pairs.len() && pairs[j].0 == name;
    assert(j == i) by {
        if j < i {
            assert(pairs[j].0 != pairs[i].0);
        } else if i < j {
            assert(pairs[i].0 != pairs[j].0);
        }
    }
}

/// Replacing the value of a pair changes the mapping under that pair's name
/// only.
proof fn lemma_map_of_update(
    pairs: Seq<(Seq<char>, Seq<char>)>,
    i: int,
    value: Seq<char>,
)
    requires
        distinct_names(pairs),
        0 <= i < pairs.len(),
    ensures
        distinct_names(pairs.update(i, (pairs[i].0, value))),
        map_of(pairs.update(i, (pairs[i].0, value))) == map_of(pairs).insert(pairs[i].0, value),
{
    let name = pairs[i].0;
    let after = pairs.update(i, (name, value));
    assert(distinct_names(after)) by {
        assert forall|a: int, b: int| 0 <= a < b < after.len() implies after[a].0 != after[b].0 by {
            assert(pairs[a].0 != pairs[b].0);
        }
    }
    assert forall|other: Seq<char>| has_name(after, other) <==> (other == name || has_name(
        pairs,
        other,
    )) by {
        if has_name(after, other) {
            let j = choose|j: int| 0 <= j < after.len() && after[j].0 == other;
            assert(pairs[j].0 == other);
        }
        if has_name(pairs, other) {
            let j = choose|j: int| 0 <= j < pairs.len() && pairs[j].0 == other;
            assert(after[j].0 == other);
        }
        if other == name {
            assert(after[i].0 == other);
        }
    }
    assert forall|other: Seq<char>| has_name(after, other) implies #[trigger] map_of(after)[other]
        == map_of(pairs).insert(name, value)[other] by {
        let j = choose|j: int| 0 <= j < after.len() && after[j].0 == other;
        lemma_map_of_holds(after, j);
        if other != name {
            assert(pairs[j].0 == other);
            lemma_map_of_holds(pairs, j);
        } else {
            lemma_map_of_holds(after, i);
        }
    }
    assert(map_of(after) =~= map_of(pairs).insert(name, value));
}

/// Appending a pair with a new name adds that name to the mapping and
/// changes nothing else.
proof fn lemma_map_of_push(pairs: Seq<(Seq<char>, Seq<char>)>, name: Seq<char>, value: Seq<char>)
    requires
        distinct_names(pairs),
        !has_name(pairs, name),
    ensures
        distinct_names(pairs.push((name, value))),
        map_of(pairs.push((name, value))) == map_of(pairs).insert(name, value),
{
    let after = pairs.push((name, value));
    assert(distinct_names(after)) by {
        assert forall|a: int, b: int| 0 <= a < b < after.len() implies after[a].0 != after[b].0 by {
            if b < pairs.len() {
                assert(pairs[a].0 != pairs[b].0);
            } else {
                assert(pairs[a].0 != name);
            }
        }
    }
    assert forall|other: Seq<char>| has_name(after, other) <==> (other == name || has_name(
        pairs,
        other,
    )) by {
        if has_name(after, other) {
            let j = choose|j: int| 0 <= j < after.len() && after[j].0 == other;
            if j < pairs.len() {
                assert(pairs[j].0 == other);
            }
        }
        if has_name(pairs, other) {
            let j = choose|j: int| 0 <= j < pairs.len() && pairs[j].0 == other;
            assert(after[j].0 == other);
        }
        if other == name {
            assert(after[pairs.len() as int].0 == other);
        }
    }
    assert forall|other: Seq<char>| has_name(after, other) implies #[trigger] map_of(after)[other]
        == map_of(pairs).insert(name, value)[other] by {
        let j = choose|j: int| 0 <= j < after.len() && after[j].0 == other;
        lemma_map_of_holds(after, j);
        if other != name {
            assert(pairs[j].0 == other);
            lemma_map_of_holds(pairs, j);
        } else {
            lemma_map_of_holds(after, pairs.len() as int);
        }
    }
    assert(map_of(after) =~= map_of(pairs).insert(name, value));
}

/// Finds the entry that carries the name `key`.
fn position(entries: &Vec<(String, String)>, key: &str) -> (at: Option<usize>)
    ensures
        match at {
            Some(i) => i < entries@.len() && pairs_of(entries@)[i as int].0 == key@,
            None => !has_name(pairs_of(entries@), key@),
        },
{
    let mut i: usize = 0;
    while i < entries.len()
        invariant
            i <= entries@.len(),
            forall|j: int| 0 <= j < i ==> pairs_of(entries@)[j].0 != key@,
        decreases entries@.len() - i,
    {
        if str_eq(entries[i].0.as_str(), key) {
            return Some(i);
        }
        i += 1;
    }
    None
}

/// Sets the value under `key`: an entry with that name gets the new value
/// and keeps its place, a new name goes to the end.
fn put(entries: &mut Vec<(String, String)>, key: &str, value: &str)
    requires
        distinct_names(pairs_of(old(entries)@)),
    ensures
        distinct_names(pairs_of(final(entries)@)),
        map_of(pairs_of(final(entries)@)) == map_of(pairs_of(old(entries)@)).insert(key@, value@),
{
    let ghost before = pairs_of(entries@);
    match position(entries, key) {
        Some(i) => {
            proof {
                lemma_map_of_update(before, i as int, value@);
            }
            entries.set(i, (key.to_owned(), value.to_owned()));
            assert(pairs_of(entries@) =~= before.update(i as int, (key@, value@)));
        },
        None => {
            proof {
                lemma_map_of_push(before, key@, value@);
            }
            entries.push((key.to_owned(), value.to_owned()));
            assert(pairs_of(entries@) =~= before.push((key@, value@)));
        },
    }
}

/// The attributes of one element: a mapping from attribute names to the raw
/// strings of their values.
pub struct RsvgPropertyBag {
    entries: Vec<(String, String)>,
}

impl View for RsvgPropertyBag {
    type V = Map<Seq<char>, Seq<char>>;

    /// The value that the bag holds under each name.
    closed spec fn view(&self) -> Map<Seq<char>, Seq<char>> {
        map_of(pairs_of(self.entries@))
    }
}

impl RsvgPropertyBag {
    #[verifier::type_invariant]
    spec fn names_occur_once(&self) -> bool {
        distinct_names(pairs_of(self.entries@))
    }

    /// A bag without attributes.
    pub fn new() -> (bag: RsvgPropertyBag)
        ensures
            bag@ == Map::<Seq<char>, Seq<char>>::empty(),
    {
        let bag = RsvgPropertyBag { entries: Vec::new() };
        assert(bag@ =~= Map::<Seq<char>, Seq<char>>::empty());
        bag
    }

    /// Gives the attribute `key` the value `value`, in place of the value
    /// that it may have had.
    pub fn insert(&mut self, key: &str, value: &str)
        ensures
            final(self)@ == old(self)@.insert(key@, value@),
    {
        proof {
            use_type_invariant(&*self);
        }
        let mut entries: Vec<(String, String)> = Vec::new();
        std::mem::swap(&mut self.entries, &mut entries);
        put(&mut entries, key, value);
        self.entries = entries;
    }
}

/// Reads the value of the attribute `key`, if the bag has that attribute.
/// The bag is left as it is.
pub fn lookup(pbag: &RsvgPropertyBag, key: &str) -> (value: Option<String>)
    ensures
        match value {
            Some(v) => lookup_spec(pbag@, key@) == Some(v@),
            None => lookup_spec(pbag@, key@).is_none(),
        },
{
    proof {
        use_type_invariant(pbag);
    }
    match position(&pbag.entries, key) {
        Some(i) => {
            proof {
                lemma_map_of_holds(pairs_of(pbag.entries@), i as int);
            }
            Some(pbag.entries[i].1.clone())
        },
        None => None,
    }
}

/// Makes a bag of its own with the contents of `pbag`.
pub fn dup(pbag: &RsvgPropertyBag) -> (copy: RsvgPropertyBag)
    ensures
        copy@ == pbag@,
{
    proof {
        use_type_invariant(pbag);
    }
    let mut entries: Vec<(String, String)> = Vec::new();
    let mut i: usize = 0;
    while i < pbag.entries.len()
        invariant
            i <= pbag.entries@.len(),
            entries@ == pbag.entries@.take(i as int),
        decreases pbag.entries@.len() - i,
    {
        entries.push((pbag.entries[i].0.clone(), pbag.entries[i].1.clone()));
        i += 1;
    }
    assert(entries@ == pbag.entries@);
    RsvgPropertyBag { entries }
}

impl Clone for RsvgPropertyBag {
    /// Cloning a bag duplicates it.
    fn clone(&self) -> (copy: RsvgPropertyBag)
        ensures
            copy@ == self@,
    {
        dup(self)
    }
}

/// Gives the bag up.  The bag is consumed: its holder can neither read it
/// nor give it up a second time.
pub fn free(pbag: RsvgPropertyBag) {
    let _released = pbag;
}

/// A duplicate answers every lookup as the bag it was made from did when it
/// was made.  The two share nothing, so that giving up the original changes
/// none of these answers.
pub proof fn lemma_duplicate_is_independent(
    original: RsvgPropertyBag,
    copy: RsvgPropertyBag,
    key: Seq<char>,
)
    requires
        copy@ == original@,
    ensures
        lookup_spec(copy@, key) == lookup_spec(original@, key),
{
}

/// Looks the attribute `key` up and parses its value.  An attribute that the
/// bag does not have is no error: the result is then `None`.
pub fn parse_or_none<T: Parse>(pbag: &RsvgPropertyBag, key: &'static str, data: T::Data) -> (r:
    Result<Option<T>, NodeError>)
    ensures
        match lookup_spec(pbag@, key@) {
            None => r == Ok::<Option<T>, NodeError>(None),
            Some(raw) => match T::parse_spec(raw, data) {
                Ok(v) => r == Ok::<Option<T>, NodeError>(Some(v)),
                Err(message) => r is Err && r->Err_0.reports(key@, message),
            },
        },
{
    match lookup(pbag, key) {
        Some(raw) => match T::parse(raw.as_str(), data) {
            Ok(v) => Ok(Some(v)),
            Err(e) => Err(NodeError::parse_error(key, e)),
        },
        None => Ok(None),
    }
}

/// Looks the attribute `key` up and parses its value.  For an attribute that
/// the bag does not have the result is the default of the type.
pub fn parse_or_default<T: Parse + Default>(
    pbag: &RsvgPropertyBag,
    key: &'static str,
    data: T::Data,
) -> (r: Result<T, NodeError>)
    ensures
        match lookup_spec(pbag@, key@) {
            None => r is Ok && call_ensures(T::default, (), r->Ok_0),
            Some(raw) => match T::parse_spec(raw, data) {
                Ok(v) => r == Ok::<T, NodeError>(v),
                Err(message) => r is Err && r->Err_0.reports(key@, message),
            },
        },
{
    parse_or_value(pbag, key, data, T::default())
}

/// Looks the attribute `key` up and parses its value.  For an attribute that
/// the bag does not have the result is `value`.
pub fn parse_or_value<T: Parse>(
    pbag: &RsvgPropertyBag,
    key: &'static str,
    data: T::Data,
    value: T,
) -> (r: Result<T, NodeError>)
    ensures
        match lookup_spec(pbag@, key@) {
            None => r == Ok::<T, NodeError>(value),
            Some(raw) => match T::parse_spec(raw, data) {
                Ok(v) => r == Ok::<T, NodeError>(v),
                Err(message) => r is Err && r->Err_0.reports(key@, message),
            },
        },
{
    let r = parse_or_none::<T>(pbag, key, data);
    match r {
        Ok(Some(v)) => Ok(v),
        Ok(None) => Ok(value),
        Err(e) => Err(e),
    }
}

} // verus!
