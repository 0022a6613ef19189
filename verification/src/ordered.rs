//! A map from text, walked in the order of its keys.
//!
//! What a project's environment is, and what the registry of running processes
//! is: few entries, looked up by name, and always listed in the same order.

use crate::text::{chars_of, same};
use vstd::prelude::*;

verus! {

/// Entries in the order of their keys, each key once.
#[derive(Debug)]
pub struct TextMap<V> {
    entries: Vec<(String, V)>,
}

/// Entries whose keys come one after another.
pub open spec fn in_order<V>(entries: Seq<(Seq<char>, V)>) -> bool {
    forall|i: int, j: int|
        0 <= i < j < entries.len() ==> crate::text::before(
            (#[trigger] entries[i]).0,
            (#[trigger] entries[j]).0,
        )
}

/// Whether one of the entries has the key.
pub open spec fn keyed<V>(entries: Seq<(Seq<char>, V)>, key: Seq<char>) -> bool {
    exists|i: int| 0 <= i < entries.len() && (#[trigger] entries[i]).0 == key
}

/// What the entry with the key holds.
pub open spec fn value_at<V>(entries: Seq<(Seq<char>, V)>, key: Seq<char>) -> V {
    entries[choose|i: int| 0 <= i < entries.len() && (#[trigger] entries[i]).0 == key].1
}

/// How many of the entries come before the key: where it is, or would go.
pub open spec fn place<V>(entries: Seq<(Seq<char>, V)>, key: Seq<char>) -> int
    decreases entries.len(),
{
    if entries.len() > 0 && crate::text::before(entries[0].0, key) {
        1 + place(entries.drop_first(), key)
    } else {
        0
    }
}

/// The entries with a value under the key, in place of what was there.
pub open spec fn inserted<V>(entries: Seq<(Seq<char>, V)>, key: Seq<char>, value: V) -> Seq<
    (Seq<char>, V),
> {
    if keyed(entries, key) {
        entries.update(place(entries, key), (key, value))
    } else {
        entries.insert(place(entries, key), (key, value))
    }
}

/// The entries without the key and what it holds.
pub open spec fn removed<V>(entries: Seq<(Seq<char>, V)>, key: Seq<char>) -> Seq<(Seq<char>, V)> {
    if keyed(entries, key) {
        entries.remove(place(entries, key))
    } else {
        entries
    }
}

/// What a key holds, if an entry has it.
pub open spec fn looked_up<V>(entries: Seq<(Seq<char>, V)>, key: Seq<char>) -> Option<V> {
    if keyed(entries, key) {
        Some(value_at(entries, key))
    } else {
        None
    }
}

proof fn never_before_itself(a: Seq<char>)
    ensures
        !crate::text::before(a, a),
    decreases a.len(),
{
    if a.len() > 0 {
        never_before_itself(a.drop_first());
    }
}

proof fn before_one_way(a: Seq<char>, b: Seq<char>)
    ensures
        crate::text::before(a, b) ==> !crate::text::before(b, a),
        a != b ==> crate::text::before(a, b) || crate::text::before(b, a),
    decreases a.len(),
{
    if a.len() > 0 && b.len() > 0 {
        if a[0] == b[0] {
            before_one_way(a.drop_first(), b.drop_first());
            if a.drop_first() == b.drop_first() {
                assert(a =~= seq![a[0]] + a.drop_first());
                assert(b =~= seq![b[0]] + b.drop_first());
            }
        }
    } else if a.len() == 0 && b.len() == 0 {
        assert(a =~= b);
    }
}

proof fn before_passes_on(a: Seq<char>, b: Seq<char>, c: Seq<char>)
    requires
        crate::text::before(a, b),
        crate::text::before(b, c),
    ensures
        crate::text::before(a, c),
    decreases a.len(),
{
    if a.len() > 0 && a[0] == b[0] && b[0] == c[0] {
        before_passes_on(a.drop_first(), b.drop_first(), c.drop_first());
    }
}

/// The place of a key is the position that parts the keys before it from the
/// rest.
proof fn place_is_where<V>(entries: Seq<(Seq<char>, V)>, key: Seq<char>, at: int)
    requires
        0 <= at <= entries.len(),
        forall|i: int| 0 <= i < at ==> crate::text::before((#[trigger] entries[i]).0, key),
        at < entries.len() ==> !crate::text::before(entries[at].0, key),
    ensures
        place(entries, key) == at,
    decreases entries.len(),
{
    if at > 0 {
        let rest = entries.drop_first();
        assert(crate::text::before(entries[0].0, key));
        assert forall|i: int| 0 <= i < at - 1 implies crate::text::before(
            (#[trigger] rest[i]).0,
            key,
        ) by {
            assert(rest[i] == entries[i + 1]);
        }
        place_is_where(rest, key, at - 1);
    }
}

/// Where a key of entries in order is.
proof fn place_of_a_key<V>(entries: Seq<(Seq<char>, V)>, key: Seq<char>)
    requires
        in_order(entries),
    ensures
        0 <= place(entries, key) <= entries.len(),
        keyed(entries, key) ==> place(entries, key) < entries.len() && entries[place(
            entries,
            key,
        )].0 == key,
        forall|i: int|
            0 <= i < place(entries, key) ==> crate::text::before((#[trigger] entries[i]).0, key),
        !keyed(entries, key) ==> forall|i: int|
            place(entries, key) <= i < entries.len() ==> crate::text::before(
                key,
                (#[trigger] entries[i]).0,
            ),
    decreases entries.len(),
{
    never_before_itself(key);
    if entries.len() > 0 {
        let first = entries[0].0;
        let rest = entries.drop_first();
        before_one_way(first, key);
        assert forall|i: int, j: int| 0 <= i < j < rest.len() implies crate::text::before(
            (#[trigger] rest[i]).0,
            (#[trigger] rest[j]).0,
        ) by {
            assert(crate::text::before(entries[i + 1].0, entries[j + 1].0));
        }
        if crate::text::before(first, key) {
            place_of_a_key(rest, key);
            if keyed(entries, key) {
                let i = choose|i: int| 0 <= i < entries.len() && (#[trigger] entries[i]).0 == key;
                assert(rest[i - 1].0 == key);
            }
            assert forall|i: int| 0 <= i < place(entries, key) implies crate::text::before(
                (#[trigger] entries[i]).0,
                key,
            ) by {
                if i > 0 {
                    assert(rest[i - 1] == entries[i]);
                }
            }
            if !keyed(entries, key) {
                if keyed(rest, key) {
                    let i = choose|i: int| 0 <= i < rest.len() && (#[trigger] rest[i]).0 == key;
                    assert(entries[i + 1].0 == key);
                }
                assert forall|i: int|
                    place(entries, key) <= i < entries.len() implies crate::text::before(
                    key,
                    (#[trigger] entries[i]).0,
                ) by {
                    assert(rest[i - 1] == entries[i]);
                }
            }
        } else {
            assert forall|i: int| 0 < i < entries.len() && first != key implies crate::text::before(
                key,
                (#[trigger] entries[i]).0,
            ) by {
                before_passes_on(key, first, entries[i].0);
            }
            if keyed(entries, key) {
                let i = choose|i: int| 0 <= i < entries.len() && (#[trigger] entries[i]).0 == key;
                if i > 0 {
                    assert(crate::text::before(first, entries[i].0));
                }
            } else {
                assert(entries[0].0 == first);
            }
        }
    }
}

/// An insertion is read back, and disturbs no other key.
pub proof fn law_an_insertion_is_read_back<V>(
    entries: Seq<(Seq<char>, V)>,
    key: Seq<char>,
    value: V,
)
    requires
        in_order(entries),
    ensures
        in_order(inserted(entries, key, value)),
        looked_up(inserted(entries, key, value), key) == Some(value),
        forall|other: Seq<char>|
            other != key ==> #[trigger] looked_up(inserted(entries, key, value), other)
                == looked_up(entries, other),
{
    let at = place(entries, key);
    let now = inserted(entries, key, value);
    place_of_a_key(entries, key);
    if keyed(entries, key) {
        keys_of_updated(entries, at, (key, value));
    } else {
        inserted_in_order(entries, at, (key, value));
        keys_of_inserted(entries, at, (key, value));
    }
    assert(keyed(now, key));
    assert forall|other: Seq<char>| other != key implies #[trigger] looked_up(now, other)
        == looked_up(entries, other) by {
        assert(keyed(now, other) == keyed(entries, other));
        if keyed(entries, other) {
            assert(value_at(now, other) == value_at(entries, other));
        }
    }
}

/// A removed key is gone, and no other key is disturbed.
pub proof fn law_a_removal_takes_one_key<V>(entries: Seq<(Seq<char>, V)>, key: Seq<char>)
    requires
        in_order(entries),
    ensures
        in_order(removed(entries, key)),
        looked_up(removed(entries, key), key) is None,
        forall|other: Seq<char>|
            other != key ==> #[trigger] looked_up(removed(entries, key), other) == looked_up(
                entries,
                other,
            ),
{
    place_of_a_key(entries, key);
    if keyed(entries, key) {
        let now = removed(entries, key);
        keys_of_removed(entries, place(entries, key));
        assert(!keyed(now, key));
        assert forall|other: Seq<char>| other != key implies #[trigger] looked_up(now, other)
            == looked_up(entries, other) by {
            assert(keyed(now, other) == keyed(entries, other));
            if keyed(entries, other) {
                assert(value_at(now, other) == value_at(entries, other));
            }
        }
    }
}

/// Whether one text comes before another.
pub fn comes_before(a: &str, b: &str) -> (first: bool)
    ensures
        first == crate::text::before(a@, b@),
{
    let left = chars_of(a);
    let right = chars_of(b);
    let mut index: usize = 0;
    assert(a@.skip(0) =~= a@);
    assert(b@.skip(0) =~= b@);
    while index < left.len() && index < right.len() && left[index] == right[index]
        invariant
            left@ == a@,
            right@ == b@,
            index <= left@.len(),
            index <= right@.len(),
            crate::text::before(a@, b@) == crate::text::before(
                a@.skip(index as int),
                b@.skip(index as int),
            ),
        decreases left@.len() - index,
    {
        assert(a@.skip(index as int).drop_first() =~= a@.skip(index + 1));
        assert(b@.skip(index as int).drop_first() =~= b@.skip(index + 1));
        index += 1;
    }
    if index >= right.len() {
        false
    } else if index >= left.len() {
        true
    } else {
        left[index] < right[index]
    }
}

impl<V> View for TextMap<V> {
    type V = Seq<(Seq<char>, V)>;

    closed spec fn view(&self) -> Seq<(Seq<char>, V)> {
        self.entries@.map_values(|entry: (String, V)| (entry.0@, entry.1))
    }
}

impl<V> TextMap<V> {
    #[verifier::type_invariant]
    spec fn well_formed(self) -> bool {
        in_order(self@)
    }

    pub fn new() -> (map: TextMap<V>)
        ensures
            map@ == Seq::<(Seq<char>, V)>::empty(),
    {
        let map = TextMap { entries: Vec::new() };
        assert(map@ =~= Seq::empty());
        map
    }

    pub fn len(&self) -> (count: usize)
        ensures
            count == self@.len(),
            in_order(self@),
    {
        proof {
            use_type_invariant(self);
        }
        self.entries.len()
    }

    /// The entry at a position, in the order of the keys.
    pub fn entry(&self, index: usize) -> (entry: (&str, &V))
        requires
            index < self@.len(),
        ensures
            entry.0@ == self@[index as int].0,
            *entry.1 == self@[index as int].1,
    {
        let entry = &self.entries[index];
        (entry.0.as_str(), &entry.1)
    }

    /// Where a key is, or where it would go.
    fn position(&self, key: &str) -> (found: Result<usize, usize>)
        ensures
            in_order(self@),
            match found {
                Ok(at) => keyed(self@, key@) && at == place(self@, key@) && at < self@.len()
                    && self@[at as int].0 == key@,
                Err(at) => !keyed(self@, key@) && at == place(self@, key@) && at <= self@.len(),
            },
    {
        proof {
            use_type_invariant(self);
            place_of_a_key(self@, key@);
            never_before_itself(key@);
        }
        let mut at: usize = 0;
        while at < self.entries.len()
            invariant
                in_order(self@),
                at <= self@.len(),
                self@.len() == self.entries@.len(),
                forall|i: int| 0 <= i < at ==> crate::text::before((#[trigger] self@[i]).0, key@),
                keyed(self@, key@) ==> place(self@, key@) < self@.len() && self@[place(
                    self@,
                    key@,
                )].0 == key@,
                !crate::text::before(key@, key@),
            decreases self@.len() - at,
        {
            let found = self.entries[at].0.as_str();
            assert(found@ == self@[at as int].0);
            if !comes_before(found, key) {
                proof {
                    place_is_where(self@, key@, at as int);
                }
                if same(found, key) {
                    return Ok(at);
                }
                return Err(at);
            }
            at += 1;
        }
        proof {
            place_is_where(self@, key@, at as int);
        }
        Err(at)
    }

    /// What a key holds, if the map has it.
    pub fn get(&self, key: &str) -> (value: Option<&V>)
        ensures
            match value {
                Some(value) => looked_up(self@, key@) == Some(*value),
                None => looked_up(self@, key@) is None,
            },
            in_order(self@),
    {
        match self.position(key) {
            Ok(at) => {
                proof {
                    value_is_the_only_one(self@, at as int);
                }
                Some(&self.entries[at].1)
            },
            Err(_) => None,
        }
    }

    pub fn contains_key(&self, key: &str) -> (inside: bool)
        ensures
            inside == keyed(self@, key@),
    {
        self.position(key).is_ok()
    }

    /// Put a value under a key, in place of what was there.
    pub fn insert(&mut self, key: String, value: V)
        ensures
            final(self)@ == inserted(old(self)@, key@, value),
            in_order(old(self)@),
    {
        let ghost was = self@;
        let place = self.position(key.as_str());
        let mut entries: Vec<(String, V)> = Vec::new();
        assert(TextMap { entries }@ =~= Seq::empty());
        std::mem::swap(&mut entries, &mut self.entries);
        assert(was == entries@.map_values(|entry: (String, V)| (entry.0@, entry.1)));
        let ghost added = (key@, value);
        match place {
            Ok(at) => {
                entries.set(at, (key, value));
                assert(entries@.map_values(|entry: (String, V)| (entry.0@, entry.1))
                    =~= was.update(at as int, added));
            },
            Err(at) => {
                entries.insert(at, (key, value));
                assert(entries@.map_values(|entry: (String, V)| (entry.0@, entry.1))
                    =~= was.insert(at as int, added));
            },
        }
        proof {
            law_an_insertion_is_read_back(was, added.0, value);
        }
        self.entries = entries;
    }

    /// Take a key and what it holds out of the map.
    pub fn remove(&mut self, key: &str) -> (value: Option<V>)
        ensures
            value == looked_up(old(self)@, key@),
            final(self)@ == removed(old(self)@, key@),
            in_order(old(self)@),
    {
        let ghost was = self@;
        match self.position(key) {
            Ok(at) => {
                let mut entries: Vec<(String, V)> = Vec::new();
                assert(TextMap { entries }@ =~= Seq::empty());
                std::mem::swap(&mut entries, &mut self.entries);
                assert(was == entries@.map_values(|entry: (String, V)| (entry.0@, entry.1)));
                proof {
                    value_is_the_only_one(was, at as int);
                    law_a_removal_takes_one_key(was, key@);
                }
                let (_, value) = entries.remove(at);
                assert(entries@.map_values(|entry: (String, V)| (entry.0@, entry.1))
                    =~= was.remove(at as int));
                self.entries = entries;
                Some(value)
            },
            Err(_) => None,
        }
    }
}

/// The entries with each value taken as what it stands for.
pub open spec fn mapped<V, W>(entries: Seq<(Seq<char>, V)>, f: spec_fn(V) -> W) -> Seq<
    (Seq<char>, W),
> {
    entries.map_values(|entry: (Seq<char>, V)| (entry.0, f(entry.1)))
}

/// What the entries of a map to text hold.
pub open spec fn settings(entries: Seq<(Seq<char>, String)>) -> Seq<(Seq<char>, Seq<char>)> {
    mapped(entries, |value: String| value@)
}

impl TextMap<String> {
    /// A map of its own with the same entries.
    pub fn duplicate(&self) -> (copy: TextMap<String>)
        ensures
            copy@ == self@,
    {
        proof {
            use_type_invariant(self);
        }
        let mut entries: Vec<(String, String)> = Vec::new();
        let mut index: usize = 0;
        while index < self.entries.len()
            invariant
                index <= self.entries@.len(),
                entries@ == self.entries@.take(index as int),
            decreases self.entries@.len() - index,
        {
            let entry = &self.entries[index];
            entries.push((entry.0.clone(), entry.1.clone()));
            assert(entries@ =~= self.entries@.take(index + 1));
            index += 1;
        }
        assert(self.entries@.take(index as int) =~= self.entries@);
        TextMap { entries }
    }
}

/// Taking each value as what it stands for goes along with looking a key up,
/// inserting and removing.
pub proof fn mapping_keeps_the_keys<V, W>(
    entries: Seq<(Seq<char>, V)>,
    f: spec_fn(V) -> W,
    key: Seq<char>,
    value: V,
)
    requires
        in_order(entries),
    ensures
        in_order(mapped(entries, f)),
        keyed(mapped(entries, f), key) == keyed(entries, key),
        keyed(entries, key) ==> value_at(mapped(entries, f), key) == f(value_at(entries, key)),
        mapped(inserted(entries, key, value), f) == inserted(mapped(entries, f), key, f(value)),
        mapped(removed(entries, key), f) == removed(mapped(entries, f), key),
{
    let plain = mapped(entries, f);
    assert forall|i: int, j: int| 0 <= i < j < plain.len() implies crate::text::before(
        (#[trigger] plain[i]).0,
        (#[trigger] plain[j]).0,
    ) by {
        assert(crate::text::before(entries[i].0, entries[j].0));
    }
    assert(keyed(entries, key) == keyed(plain, key)) by {
        if keyed(entries, key) {
            let i = choose|i: int| 0 <= i < entries.len() && (#[trigger] entries[i]).0 == key;
            assert(plain[i].0 == key);
        }
        if keyed(plain, key) {
            let i = choose|i: int| 0 <= i < plain.len() && (#[trigger] plain[i]).0 == key;
            assert(entries[i].0 == key);
        }
    }
    same_place(entries, f, key);
    place_of_a_key(entries, key);
    if keyed(entries, key) {
        value_is_the_only_one(entries, place(entries, key));
        value_is_the_only_one(plain, place(entries, key));
    }
    assert(mapped(inserted(entries, key, value), f) =~= inserted(plain, key, f(value)));
    assert(mapped(removed(entries, key), f) =~= removed(plain, key));
}

proof fn same_place<V, W>(entries: Seq<(Seq<char>, V)>, f: spec_fn(V) -> W, key: Seq<char>)
    ensures
        place(entries, key) == place(mapped(entries, f), key),
    decreases entries.len(),
{
    if entries.len() > 0 {
        assert(mapped(entries, f).drop_first() =~= mapped(entries.drop_first(), f));
        same_place(entries.drop_first(), f, key);
    }
}

/// With each key once, an entry with the key holds what the key holds.
proof fn value_is_the_only_one<V>(entries: Seq<(Seq<char>, V)>, at: int)
    requires
        in_order(entries),
        0 <= at < entries.len(),
    ensures
        keyed(entries, entries[at].0),
        value_at(entries, entries[at].0) == entries[at].1,
{
    let key = entries[at].0;
    let i = choose|i: int| 0 <= i < entries.len() && (#[trigger] entries[i]).0 == key;
    never_before_itself(key);
    assert(i == at);
}

proof fn keys_of_updated<V>(entries: Seq<(Seq<char>, V)>, at: int, entry: (Seq<char>, V))
    requires
        in_order(entries),
        0 <= at < entries.len(),
        entry.0 == entries[at].0,
    ensures
        in_order(entries.update(at, entry)),
        forall|other: Seq<char>| #[trigger]
            keyed(entries.update(at, entry), other) == (other == entry.0 || keyed(entries, other)),
        value_at(entries.update(at, entry), entry.0) == entry.1,
        forall|other: Seq<char>|
            other != entry.0 && keyed(entries, other) ==> #[trigger] value_at(
                entries.update(at, entry),
                other,
            ) == value_at(entries, other),
{
    let now = entries.update(at, entry);
    assert forall|i: int, j: int| 0 <= i < j < now.len() implies crate::text::before(
        (#[trigger] now[i]).0,
        (#[trigger] now[j]).0,
    ) by {
        assert(crate::text::before(entries[i].0, entries[j].0));
    }
    assert forall|other: Seq<char>| #[trigger]
        keyed(now, other) == (other == entry.0 || keyed(entries, other)) by {
        if keyed(entries, other) {
            let i = choose|i: int| 0 <= i < entries.len() && (#[trigger] entries[i]).0 == other;
            assert(now[i].0 == other);
        }
        if other == entry.0 {
            assert(now[at].0 == other);
        }
        if keyed(now, other) && other != entry.0 {
            let i = choose|i: int| 0 <= i < now.len() && (#[trigger] now[i]).0 == other;
            assert(entries[i].0 == other);
        }
    }
    value_is_the_only_one(now, at);
    assert forall|other: Seq<char>| other != entry.0 && keyed(entries, other) implies
        #[trigger] value_at(now, other) == value_at(entries, other) by {
        let i = choose|i: int| 0 <= i < entries.len() && (#[trigger] entries[i]).0 == other;
        assert(now[i] == entries[i]);
        value_is_the_only_one(now, i);
        value_is_the_only_one(entries, i);
    }
}

proof fn inserted_in_order<V>(entries: Seq<(Seq<char>, V)>, at: int, entry: (Seq<char>, V))
    requires
        in_order(entries),
        0 <= at <= entries.len(),
        forall|i: int| 0 <= i < at ==> crate::text::before((#[trigger] entries[i]).0, entry.0),
        forall|i: int|
            at <= i < entries.len() ==> crate::text::before(entry.0, (#[trigger] entries[i]).0),
    ensures
        in_order(entries.insert(at, entry)),
{
    let now = entries.insert(at, entry);
    assert forall|i: int, j: int| 0 <= i < j < now.len() implies crate::text::before(
        (#[trigger] now[i]).0,
        (#[trigger] now[j]).0,
    ) by {
        if i < at && j < at {
            assert(crate::text::before(entries[i].0, entries[j].0));
        } else if i < at && j > at {
            assert(crate::text::before(entries[i].0, entries[j - 1].0));
        } else if i > at {
            assert(crate::text::before(entries[i - 1].0, entries[j - 1].0));
        } else if i == at {
            assert(now[j] == entries[j - 1]);
        } else {
            assert(now[i] == entries[i]);
        }
    }
}

proof fn keys_of_inserted<V>(entries: Seq<(Seq<char>, V)>, at: int, entry: (Seq<char>, V))
    requires
        in_order(entries),
        in_order(entries.insert(at, entry)),
        0 <= at <= entries.len(),
        !keyed(entries, entry.0),
    ensures
        forall|other: Seq<char>| #[trigger]
            keyed(entries.insert(at, entry), other) == (other == entry.0 || keyed(entries, other)),
        value_at(entries.insert(at, entry), entry.0) == entry.1,
        forall|other: Seq<char>|
            other != entry.0 && keyed(entries, other) ==> #[trigger] value_at(
                entries.insert(at, entry),
                other,
            ) == value_at(entries, other),
{
    let now = entries.insert(at, entry);
    assert forall|other: Seq<char>| #[trigger]
        keyed(now, other) == (other == entry.0 || keyed(entries, other)) by {
        if keyed(entries, other) {
            let i = choose|i: int| 0 <= i < entries.len() && (#[trigger] entries[i]).0 == other;
            assert(now[if i < at {
                i
            } else {
                i + 1
            }].0 == other);
        }
        if other == entry.0 {
            assert(now[at].0 == other);
        }
        if keyed(now, other) && other != entry.0 {
            let i = choose|i: int| 0 <= i < now.len() && (#[trigger] now[i]).0 == other;
            assert(entries[if i < at {
                i
            } else {
                i - 1
            }].0 == other);
        }
    }
    value_is_the_only_one(now, at);
    assert forall|other: Seq<char>| other != entry.0 && keyed(entries, other) implies
        #[trigger] value_at(now, other) == value_at(entries, other) by {
        let i = choose|i: int| 0 <= i < entries.len() && (#[trigger] entries[i]).0 == other;
        let k = if i < at {
            i
        } else {
            i + 1
        };
        assert(now[k] == entries[i]);
        value_is_the_only_one(now, k);
        value_is_the_only_one(entries, i);
    }
}

proof fn keys_of_removed<V>(entries: Seq<(Seq<char>, V)>, at: int)
    requires
        in_order(entries),
        0 <= at < entries.len(),
    ensures
        in_order(entries.remove(at)),
        forall|other: Seq<char>| #[trigger]
            keyed(entries.remove(at), other) == (other != entries[at].0 && keyed(entries, other)),
        forall|other: Seq<char>|
            other != entries[at].0 && keyed(entries, other) ==> #[trigger] value_at(
                entries.remove(at),
                other,
            ) == value_at(entries, other),
{
    let now = entries.remove(at);
    assert forall|i: int, j: int| 0 <= i < j < now.len() implies crate::text::before(
        (#[trigger] now[i]).0,
        (#[trigger] now[j]).0,
    ) by {
        let k = if i < at {
            i
        } else {
            i + 1
        };
        let l = if j < at {
            j
        } else {
            j + 1
        };
        assert(crate::text::before(entries[k].0, entries[l].0));
    }
    assert forall|other: Seq<char>| #[trigger]
        keyed(now, other) == (other != entries[at].0 && keyed(entries, other)) by {
        if keyed(entries, other) && other != entries[at].0 {
            let i = choose|i: int| 0 <= i < entries.len() && (#[trigger] entries[i]).0 == other;
            assert(now[if i < at {
                i
            } else {
                i - 1
            }].0 == other);
        }
        if keyed(now, other) {
            let i = choose|i: int| 0 <= i < now.len() && (#[trigger] now[i]).0 == other;
            let k = if i < at {
                i
            } else {
                i + 1
            };
            assert(entries[k].0 == other);
            if other == entries[at].0 {
                never_before_itself(other);
            }
        }
    }
    assert forall|other: Seq<char>| other != entries[at].0 && keyed(entries, other) implies
        #[trigger] value_at(now, other) == value_at(entries, other) by {
        let i = choose|i: int| 0 <= i < entries.len() && (#[trigger] entries[i]).0 == other;
        let k = if i < at {
            i
        } else {
            i - 1
        };
        assert(now[k] == entries[i]);
        value_is_the_only_one(now, k);
        value_is_the_only_one(entries, i);
    }
}

/// An entry is found by its key, and a key that no entry has finds nothing.
pub proof fn law_an_entry_is_found<V>(entries: Seq<(Seq<char>, V)>, at: int)
    requires
        in_order(entries),
        0 <= at < entries.len(),
    ensures
        looked_up(entries, entries[at].0) == Some(entries[at].1),
{
    value_is_the_only_one(entries, at);
}

/// A key that no entry has finds nothing.
pub proof fn law_an_unknown_key_finds_nothing<V>(entries: Seq<(Seq<char>, V)>, key: Seq<char>)
    requires
        forall|i: int| 0 <= i < entries.len() ==> (#[trigger] entries[i]).0 != key,
    ensures
        looked_up(entries, key) is None,
{
}

/// What a map to text holds is every entry of it, under its own key.
pub proof fn law_every_setting_is_kept(entries: Seq<(Seq<char>, String)>)
    ensures
        settings(entries).len() == entries.len(),
        forall|i: int|
            0 <= i < entries.len() ==> (#[trigger] settings(entries)[i]).0 == entries[i].0
                && settings(entries)[i].1 == entries[i].1@,
{
}

/// The order of keys is the order of texts: by the first character in which
/// they differ, and a text before what only goes on after it.
pub proof fn law_keys_are_ordered_as_texts(a: Seq<char>, b: Seq<char>, common: int)
    requires
        0 <= common <= a.len(),
        common <= b.len(),
        forall|i: int| 0 <= i < common ==> #[trigger] a[i] == b[i],
        common < a.len() && common < b.len() ==> a[common] != b[common],
    ensures
        crate::text::before(a, b) <==> common < b.len() && (common == a.len() || a[common]
            < b[common]),
    decreases common,
{
    if common > 0 {
        assert(a[0] == b[0]);
        assert forall|i: int| 0 <= i < common - 1 implies #[trigger] a.drop_first()[i]
            == b.drop_first()[i] by {
            assert(a[i + 1] == b[i + 1]);
        }
        law_keys_are_ordered_as_texts(a.drop_first(), b.drop_first(), common - 1);
    }
}

} // verus!
