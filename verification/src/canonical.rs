//! Canonically ordered string-keyed maps and sets.
//!
//! Keys are kept strictly ascending by the lexicographic order of their UTF-8
//! bytes, the order in which ordered maps and sets of strings list their
//! entries. Every public listing (`key_at`, `value_at`) follows that order.

use vstd::prelude::*;
use vstd::utf8::{decode_utf8, encode_utf8, encode_utf8_decode_utf8};

verus! {

/// Strict lexicographic order on byte strings.
pub open spec fn bytes_lt(a: Seq<u8>, b: Seq<u8>) -> bool
    decreases a.len(),
{
    if a.len() == 0 {
        b.len() > 0
    } else if b.len() == 0 {
        false
    } else if a[0] < b[0] {
        true
    } else if a[0] > b[0] {
        false
    } else {
        bytes_lt(a.drop_first(), b.drop_first())
    }
}

/// Strict order on texts: the order of their UTF-8 encodings.
pub open spec fn text_lt(a: Seq<char>, b: Seq<char>) -> bool {
    bytes_lt(encode_utf8(a), encode_utf8(b))
}

/// Strictly ascending (hence duplicate-free) texts.
pub open spec fn sorted_texts(keys: Seq<Seq<char>>) -> bool {
    forall|i: int, j: int| 0 <= i < j < keys.len() ==> text_lt(#[trigger] keys[i], #[trigger] keys[j])
}

pub proof fn lemma_bytes_lt_irreflexive(a: Seq<u8>)
    ensures
        !bytes_lt(a, a),
    decreases a.len(),
{
    if a.len() > 0 {
        lemma_bytes_lt_irreflexive(a.drop_first());
    }
}

pub proof fn lemma_bytes_lt_asymmetric(a: Seq<u8>, b: Seq<u8>)
    ensures
        !(bytes_lt(a, b) && bytes_lt(b, a)),
    decreases a.len(),
{
    if a.len() > 0 && b.len() > 0 && a[0] == b[0] {
        lemma_bytes_lt_asymmetric(a.drop_first(), b.drop_first());
    }
}

pub proof fn lemma_bytes_lt_transitive(a: Seq<u8>, b: Seq<u8>, c: Seq<u8>)
    requires
        bytes_lt(a, b),
        bytes_lt(b, c),
    ensures
        bytes_lt(a, c),
    decreases a.len(),
{
    if a.len() > 0 && b.len() > 0 && c.len() > 0 && a[0] == b[0] && b[0] == c[0] {
        lemma_bytes_lt_transitive(a.drop_first(), b.drop_first(), c.drop_first());
    }
}

pub proof fn lemma_bytes_lt_total(a: Seq<u8>, b: Seq<u8>)
    requires
        a != b,
    ensures
        bytes_lt(a, b) || bytes_lt(b, a),
    decreases a.len(),
{
    if a.len() > 0 && b.len() > 0 && a[0] == b[0] {
        if a.drop_first() == b.drop_first() {
            assert(a =~= seq![a[0]] + a.drop_first());
            assert(b =~= seq![b[0]] + b.drop_first());
        }
        lemma_bytes_lt_total(a.drop_first(), b.drop_first());
    } else if a.len() == 0 && b.len() == 0 {
        assert(a =~= b);
    }
}

/// Equal encodings come only from equal texts.
pub proof fn lemma_encode_injective(a: Seq<char>, b: Seq<char>)
    requires
        encode_utf8(a) == encode_utf8(b),
    ensures
        a == b,
{
    encode_utf8_decode_utf8(a);
    encode_utf8_decode_utf8(b);
}

proof fn lemma_bytes_lt_common_prefix(a: Seq<u8>, b: Seq<u8>, i: int)
    requires
        0 <= i <= a.len(),
        i <= b.len(),
        a.take(i) == b.take(i),
    ensures
        bytes_lt(a, b) == bytes_lt(a.skip(i), b.skip(i)),
    decreases i,
{
    if i > 0 {
        assert(a[0] == a.take(i)[0]);
        assert(b[0] == b.take(i)[0]);
        assert(a.drop_first().take(i - 1) =~= a.take(i).drop_first());
        assert(b.drop_first().take(i - 1) =~= b.take(i).drop_first());
        lemma_bytes_lt_common_prefix(a.drop_first(), b.drop_first(), i - 1);
        assert(a.drop_first().skip(i - 1) =~= a.skip(i));
        assert(b.drop_first().skip(i - 1) =~= b.skip(i));
    } else {
        assert(a.skip(0) =~= a);
        assert(b.skip(0) =~= b);
    }
}

/// Result of comparing two keys.
#[derive(Debug, Clone, Copy, PartialEq, Eq, Structural)]
pub enum KeyOrder {
    Less,
    Equal,
    Greater,
}

/// Compares two byte strings lexicographically.
pub fn compare_bytes(a: &[u8], b: &[u8]) -> (order: KeyOrder)
    ensures
        order == KeyOrder::Less <==> bytes_lt(a@, b@),
        order == KeyOrder::Equal <==> a@ == b@,
        order == KeyOrder::Greater <==> bytes_lt(b@, a@),
{
    let mut i: usize = 0;
    while i < a.len() && i < b.len()
        invariant
            0 <= i <= a@.len(),
            i <= b@.len(),
            a@.take(i as int) == b@.take(i as int),
        decreases a@.len() - i,
    {
        if a[i] != b[i] {
            proof {
                lemma_bytes_lt_common_prefix(a@, b@, i as int);
                lemma_bytes_lt_common_prefix(b@, a@, i as int);
                assert(a@.skip(i as int)[0] == a@[i as int]);
                assert(b@.skip(i as int)[0] == b@[i as int]);
                if a@ == b@ {
                    assert(a@[i as int] == b@[i as int]);
                }
            }
            if a[i] < b[i] {
                return KeyOrder::Less;
            } else {
                return KeyOrder::Greater;
            }
        }
        assert(a@.take(i + 1) =~= a@.take(i as int).push(a@[i as int]));
        assert(b@.take(i + 1) =~= b@.take(i as int).push(b@[i as int]));
        i = i + 1;
    }
    proof {
        lemma_bytes_lt_common_prefix(a@, b@, i as int);
        lemma_bytes_lt_common_prefix(b@, a@, i as int);
        if a@.len() == i && b@.len() == i {
            assert(a@ =~= a@.take(i as int));
            assert(b@ =~= b@.take(i as int));
        }
        if a@.len() != b@.len() {
            assert(a@ != b@);
        }
    }
    if a.len() == b.len() {
        KeyOrder::Equal
    } else if a.len() < b.len() {
        KeyOrder::Less
    } else {
        KeyOrder::Greater
    }
}

/// Compares two texts in canonical order.
pub fn compare_text(a: &str, b: &str) -> (order: KeyOrder)
    ensures
        order == KeyOrder::Less <==> text_lt(a@, b@),
        order == KeyOrder::Equal <==> a@ == b@,
        order == KeyOrder::Greater <==> text_lt(b@, a@),
{
    let order = compare_bytes(a.as_bytes(), b.as_bytes());
    proof {
        if encode_utf8(a@) == encode_utf8(b@) {
            lemma_encode_injective(a@, b@);
        }
    }
    order
}

} // verus!

verus! {

/// A map from texts to values, listed in canonical key order.
#[derive(Debug, PartialEq)]
pub struct TextMap<V> {
    entries: Vec<(String, V)>,
}

/// A set of texts, listed in canonical order.
pub type TextSet = TextMap<()>;

/// The keys of a list of entries, in order.
pub open spec fn keys_of<V>(entries: Seq<(Seq<char>, V)>) -> Seq<Seq<char>> {
    entries.map_values(|e: (Seq<char>, V)| e.0)
}

/// The map that a duplicate-free list of entries denotes.
pub open spec fn map_of<V>(entries: Seq<(Seq<char>, V)>) -> Map<Seq<char>, V> {
    Map::new(
        |k: Seq<char>| keys_of(entries).contains(k),
        |k: Seq<char>| entries[keys_of(entries).index_of(k)].1,
    )
}

impl<V> TextMap<V> {
    /// The entries in canonical order.
    pub closed spec fn spec_entries(&self) -> Seq<(Seq<char>, V)> {
        self.entries@.map_values(|e: (String, V)| (e.0@, e.1))
    }

    pub open spec fn spec_keys(&self) -> Seq<Seq<char>> {
        keys_of(self.spec_entries())
    }

    pub open spec fn spec_map(&self) -> Map<Seq<char>, V> {
        map_of(self.spec_entries())
    }

    pub open spec fn spec_len(&self) -> nat {
        self.spec_entries().len()
    }

    #[verifier::type_invariant]
    closed spec fn inv(&self) -> bool {
        sorted_texts(self.spec_keys())
    }

    /// A stored value is structurally smaller than its map.
    pub proof fn lemma_value_decreases(self, i: int)
        requires
            0 <= i < self.spec_len(),
        ensures
            decreases_to!(self => self.spec_entries()[i].1),
    {
        vstd::std_specs::vec::axiom_vec_index_decreases(self.entries, i);
        assert(decreases_to!(self => self.entries));
        assert(decreases_to!(self.entries => self.entries[i]));
        assert(decreases_to!(self.entries[i] => self.entries[i].1));
    }

    /// An empty map.
    pub fn new() -> (map: TextMap<V>)
        ensures
            map.spec_entries() == Seq::<(Seq<char>, V)>::empty(),
    {
        let map = TextMap { entries: Vec::new() };
        assert(map.spec_entries() =~= Seq::<(Seq<char>, V)>::empty());
        map
    }

    /// Number of entries.
    pub fn len(&self) -> (n: usize)
        ensures
            n == self.spec_len(),
            sorted_texts(self.spec_keys()),
    {
        proof { use_type_invariant(self); }
        self.entries.len()
    }

    /// Key of the entry at `index` in canonical order.
    pub fn key_at(&self, index: usize) -> (key: &str)
        requires
            index < self.spec_len(),
        ensures
            key@ == self.spec_entries()[index as int].0,
    {
        self.entries[index].0.as_str()
    }

    /// Value of the entry at `index` in canonical order.
    pub fn value_at(&self, index: usize) -> (value: &V)
        requires
            index < self.spec_len(),
        ensures
            *value == self.spec_entries()[index as int].1,
    {
        &self.entries[index].1
    }

    /// Locates `key`: `Ok(index)` of its entry, or `Err(index)` of the position
    /// where it would be inserted.
    pub fn find(&self, key: &str) -> (found: Result<usize, usize>)
        ensures
            sorted_texts(self.spec_keys()),
            match found {
                Ok(i) => i < self.spec_len() && self.spec_keys()[i as int] == key@
                    && self.spec_keys().index_of(key@) == i,
                Err(i) => i <= self.spec_len() && !self.spec_keys().contains(key@)
                    && (forall|j: int| 0 <= j < i ==> text_lt(#[trigger] self.spec_keys()[j], key@))
                    && (forall|j: int| i <= j < self.spec_len() ==> text_lt(key@, #[trigger] self.spec_keys()[j])),
            },
    {
        proof { use_type_invariant(self); }
        let ghost keys = self.spec_keys();
        let mut i: usize = 0;
        while i < self.entries.len()
            invariant
                keys == self.spec_keys(),
                sorted_texts(keys),
                keys.len() == self.entries@.len(),
                0 <= i <= keys.len(),
                forall|j: int| 0 <= j < i ==> text_lt(#[trigger] keys[j], key@),
            decreases keys.len() - i,
        {
            assert(keys[i as int] == self.entries@[i as int].0@);
            match compare_text(self.entries[i].0.as_str(), key) {
                KeyOrder::Less => {},
                KeyOrder::Equal => {
                    proof {
                        assert forall|j: int| 0 <= j < i implies keys[j] != key@ by {
                            lemma_bytes_lt_irreflexive(encode_utf8(key@));
                        }
                        assert(keys.contains(key@));
                        let f = keys.index_of(key@);
                        if f != i {
                            if f < i {
                                assert(text_lt(keys[f], key@));
                                lemma_bytes_lt_irreflexive(encode_utf8(key@));
                            } else {
                                assert(text_lt(keys[i as int], keys[f]));
                                lemma_bytes_lt_irreflexive(encode_utf8(key@));
                            }
                        }
                    }
                    return Ok(i);
                },
                KeyOrder::Greater => {
                    proof {
                        assert forall|j: int| i <= j < keys.len() implies text_lt(key@, #[trigger] keys[j]) by {
                            if j > i {
                                assert(text_lt(keys[i as int], keys[j]));
                                lemma_bytes_lt_transitive(encode_utf8(key@), encode_utf8(keys[i as int]), encode_utf8(keys[j]));
                            }
                        }
                        assert forall|j: int| 0 <= j < keys.len() implies keys[j] != key@ by {
                            if j < i {
                                lemma_bytes_lt_irreflexive(encode_utf8(key@));
                            } else {
                                lemma_bytes_lt_irreflexive(encode_utf8(key@));
                            }
                        }
                    }
                    return Err(i);
                },
            }
            i = i + 1;
        }
        proof {
            assert forall|j: int| 0 <= j < keys.len() implies keys[j] != key@ by {
                lemma_bytes_lt_irreflexive(encode_utf8(key@));
            }
        }
        Err(i)
    }
}

} // verus!

verus! {

/// In strictly sorted keys, a key's position is its only occurrence.
pub proof fn lemma_index_of_sorted(keys: Seq<Seq<char>>, i: int)
    requires
        sorted_texts(keys),
        0 <= i < keys.len(),
    ensures
        keys.contains(keys[i]),
        keys.index_of(keys[i]) == i,
{
    assert(keys[i] == keys[i]);
    let c = keys.index_of(keys[i]);
    assert(0 <= c < keys.len() && keys[c] == keys[i]);
    if c < i {
        assert(text_lt(keys[c], keys[i]));
        lemma_bytes_lt_irreflexive(encode_utf8(keys[i]));
    } else if c > i {
        assert(text_lt(keys[i], keys[c]));
        lemma_bytes_lt_irreflexive(encode_utf8(keys[i]));
    }
}

proof fn lemma_map_update<V>(entries: Seq<(Seq<char>, V)>, i: int, v: V)
    requires
        sorted_texts(keys_of(entries)),
        0 <= i < entries.len(),
    ensures
        keys_of(entries.update(i, (entries[i].0, v))) == keys_of(entries),
        map_of(entries.update(i, (entries[i].0, v))) == map_of(entries).insert(entries[i].0, v),
{
    let k = entries[i].0;
    let new = entries.update(i, (k, v));
    assert(keys_of(new) =~= keys_of(entries));
    let keys = keys_of(entries);
    assert forall|key: Seq<char>| #![auto] map_of(new).contains_key(key) <==> map_of(entries).insert(k, v).contains_key(key) by {
        if key == k {
            assert(keys[i] == k);
        }
    }
    assert forall|key: Seq<char>| #![auto] map_of(new).contains_key(key) implies map_of(new)[key] == map_of(entries).insert(k, v)[key] by {
        let j = keys.index_of(key);
        assert(keys.contains(key));
        assert(keys[j] == key);
        lemma_index_of_sorted(keys, j);
        if j == i {
        } else {
            assert(key != k) by {
                lemma_index_of_sorted(keys, i);
            }
        }
    }
    assert(map_of(new) =~= map_of(entries).insert(k, v));
}

proof fn lemma_map_insert<V>(entries: Seq<(Seq<char>, V)>, pos: int, k: Seq<char>, v: V)
    requires
        sorted_texts(keys_of(entries)),
        sorted_texts(keys_of(entries.insert(pos, (k, v)))),
        0 <= pos <= entries.len(),
        !keys_of(entries).contains(k),
    ensures
        keys_of(entries.insert(pos, (k, v))) == keys_of(entries).insert(pos, k),
        map_of(entries.insert(pos, (k, v))) == map_of(entries).insert(k, v),
{
    let new = entries.insert(pos, (k, v));
    let keys = keys_of(entries);
    let nkeys = keys_of(new);
    assert(nkeys =~= keys.insert(pos, k));
    assert forall|key: Seq<char>| #![auto] map_of(new).contains_key(key) <==> map_of(entries).insert(k, v).contains_key(key) by {
        if key == k {
            assert(nkeys[pos] == k);
        }
        if nkeys.contains(key) && key != k {
            let j = choose|j: int| 0 <= j < nkeys.len() && nkeys[j] == key;
            if j < pos {
                assert(keys[j] == key);
            } else {
                assert(keys[j - 1] == key);
            }
        }
        if keys.contains(key) {
            let j = choose|j: int| 0 <= j < keys.len() && keys[j] == key;
            if j < pos {
                assert(nkeys[j] == key);
            } else {
                assert(nkeys[j + 1] == key);
            }
        }
    }
    assert forall|key: Seq<char>| #![auto] map_of(new).contains_key(key) implies map_of(new)[key] == map_of(entries).insert(k, v)[key] by {
        let j = nkeys.index_of(key);
        assert(nkeys.contains(key));
        assert(nkeys[j] == key);
        lemma_index_of_sorted(nkeys, j);
        if j == pos {
        } else if j < pos {
            assert(keys[j] == key);
            lemma_index_of_sorted(keys, j);
        } else {
            assert(keys[j - 1] == key);
            lemma_index_of_sorted(keys, j - 1);
        }
    }
    assert(map_of(new) =~= map_of(entries).insert(k, v));
}

proof fn lemma_map_remove<V>(entries: Seq<(Seq<char>, V)>, i: int)
    requires
        sorted_texts(keys_of(entries)),
        0 <= i < entries.len(),
    ensures
        keys_of(entries.remove(i)) == keys_of(entries).remove(i),
        sorted_texts(keys_of(entries.remove(i))),
        map_of(entries.remove(i)) == map_of(entries).remove(entries[i].0),
{
    let new = entries.remove(i);
    let keys = keys_of(entries);
    let nkeys = keys_of(new);
    let k = entries[i].0;
    assert(nkeys =~= keys.remove(i));
    assert forall|a: int, b: int| 0 <= a < b < nkeys.len() implies text_lt(#[trigger] nkeys[a], #[trigger] nkeys[b]) by {
        let a0 = if a < i { a } else { a + 1 };
        let b0 = if b < i { b } else { b + 1 };
        assert(nkeys[a] == keys[a0]);
        assert(nkeys[b] == keys[b0]);
    }
    lemma_index_of_sorted(keys, i);
    assert forall|key: Seq<char>| #![auto] map_of(new).contains_key(key) <==> map_of(entries).remove(k).contains_key(key) by {
        if nkeys.contains(key) {
            let j = choose|j: int| 0 <= j < nkeys.len() && nkeys[j] == key;
            let j0 = if j < i { j } else { j + 1 };
            assert(keys[j0] == key);
            lemma_index_of_sorted(keys, j0);
        }
        if keys.contains(key) && key != k {
            let j = choose|j: int| 0 <= j < keys.len() && keys[j] == key;
            if j < i {
                assert(nkeys[j] == key);
            } else {
                assert(j != i);
                assert(nkeys[j - 1] == key);
            }
        }
    }
    assert forall|key: Seq<char>| #![auto] map_of(new).contains_key(key) implies map_of(new)[key] == map_of(entries).remove(k)[key] by {
        let j = nkeys.index_of(key);
        assert(nkeys.contains(key));
        assert(nkeys[j] == key);
        lemma_index_of_sorted(nkeys, j);
        let j0 = if j < i { j } else { j + 1 };
        assert(keys[j0] == key);
        lemma_index_of_sorted(keys, j0);
    }
    assert(map_of(new) =~= map_of(entries).remove(k));
}

impl<V> TextMap<V> {
    /// Whether `key` has an entry.
    pub fn contains(&self, key: &str) -> (present: bool)
        ensures
            present == self.spec_keys().contains(key@),
    {
        match self.find(key) {
            Ok(_) => true,
            Err(_) => false,
        }
    }

    /// The value stored under `key`.
    pub fn get(&self, key: &str) -> (value: Option<&V>)
        ensures
            match value {
                Some(v) => self.spec_map().contains_key(key@) && *v == self.spec_map()[key@],
                None => !self.spec_map().contains_key(key@),
            },
    {
        match self.find(key) {
            Ok(i) => Some(&self.entries[i].1),
            Err(_) => None,
        }
    }

    /// Stores `value` under `key`, replacing any previous value; reports
    /// whether the key was already present.
    pub fn insert(&mut self, key: String, value: V) -> (replaced: bool)
        ensures
            replaced == old(self).spec_keys().contains(key@),
            final(self).spec_map() == old(self).spec_map().insert(key@, value),
            sorted_texts(final(self).spec_keys()),
            final(self).spec_keys().to_set() == old(self).spec_keys().to_set().insert(key@),
    {
        proof { use_type_invariant(&*self); }
        let ghost old_entries = self.spec_entries();
        let ghost k = key@;
        match self.find(key.as_str()) {
            Ok(i) => {
                let mut entries: Vec<(String, V)> = Vec::new();
                std::mem::swap(&mut entries, &mut self.entries);
                let (old_key, _) = entries.remove(i);
                entries.insert(i, (old_key, value));
                proof {
                    assert(entries@.map_values(|e: (String, V)| (e.0@, e.1)) =~= old_entries.update(i as int, (old_entries[i as int].0, value)));
                    lemma_map_update(old_entries, i as int, value);
                }
                self.entries = entries;
                proof {
                    assert(self.spec_entries() =~= old_entries.update(i as int, (old_entries[i as int].0, value)));
                    lemma_map_update(old_entries, i as int, value);
                    assert(self.spec_keys().to_set() =~= old_entries.map_values(|e: (Seq<char>, V)| e.0).to_set().insert(k));
                }
                true
            },
            Err(pos) => {
                let ghost new_entries = old_entries.insert(pos as int, (k, value));
                proof {
                    let nkeys = keys_of(new_entries);
                    let keys = keys_of(old_entries);
                    assert(nkeys =~= keys.insert(pos as int, k));
                    assert forall|a: int, b: int| 0 <= a < b < nkeys.len() implies text_lt(#[trigger] nkeys[a], #[trigger] nkeys[b]) by {
                        if a < pos && b < pos {
                        } else if a < pos && b == pos {
                        } else if a < pos {
                            assert(nkeys[b] == keys[b - 1]);
                        } else if a == pos {
                            assert(nkeys[b] == keys[b - 1]);
                        } else {
                            assert(nkeys[a] == keys[a - 1]);
                            assert(nkeys[b] == keys[b - 1]);
                        }
                    }
                }
                let mut entries: Vec<(String, V)> = Vec::new();
                std::mem::swap(&mut entries, &mut self.entries);
                entries.insert(pos, (key, value));
                proof {
                    assert(entries@.map_values(|e: (String, V)| (e.0@, e.1)) =~= new_entries);
                }
                self.entries = entries;
                proof {
                    assert(self.spec_entries() =~= new_entries);
                    lemma_map_insert(old_entries, pos as int, k, value);
                    assert(self.spec_keys().to_set() =~= keys_of(old_entries).to_set().insert(k)) by {
                        let nkeys = self.spec_keys();
                        let keys = keys_of(old_entries);
                        assert forall|x: Seq<char>| nkeys.to_set().contains(x) <==> keys.to_set().insert(k).contains(x) by {
                            if nkeys.contains(x) {
                                let j = choose|j: int| 0 <= j < nkeys.len() && nkeys[j] == x;
                                if j < pos { assert(keys[j] == x); } else if j > pos { assert(keys[j - 1] == x); }
                            }
                            if keys.contains(x) {
                                let j = choose|j: int| 0 <= j < keys.len() && keys[j] == x;
                                if j < pos { assert(nkeys[j] == x); } else { assert(nkeys[j + 1] == x); }
                            }
                            if x == k { assert(nkeys[pos as int] == x); }
                        }
                    }
                }
                false
            },
        }
    }

    /// Removes the entry stored under `key`, returning its value.
    pub fn remove(&mut self, key: &str) -> (removed: Option<V>)
        ensures
            match removed {
                Some(v) => old(self).spec_map().contains_key(key@) && v == old(self).spec_map()[key@],
                None => !old(self).spec_map().contains_key(key@),
            },
            final(self).spec_map() == old(self).spec_map().remove(key@),
            sorted_texts(final(self).spec_keys()),
    {
        proof { use_type_invariant(&*self); }
        let ghost old_entries = self.spec_entries();
        match self.find(key) {
            Ok(i) => {
                proof {
                    lemma_map_remove(old_entries, i as int);
                }
                let mut entries: Vec<(String, V)> = Vec::new();
                std::mem::swap(&mut entries, &mut self.entries);
                let (_, value) = entries.remove(i);
                proof {
                    assert(entries@.map_values(|e: (String, V)| (e.0@, e.1)) =~= old_entries.remove(i as int));
                }
                self.entries = entries;
                proof {
                    assert(self.spec_entries() =~= old_entries.remove(i as int));
                }
                Some(value)
            },
            Err(_) => {
                assert(old(self).spec_map().remove(key@) =~= old(self).spec_map());
                None
            },
        }
    }

    /// Appends an entry whose key follows every present key.
    pub fn push_greatest(&mut self, key: String, value: V)
        requires
            old(self).spec_len() > 0 ==> text_lt(old(self).spec_keys().last(), key@),
        ensures
            final(self).spec_entries() == old(self).spec_entries().push((key@, value)),
    {
        proof { use_type_invariant(&*self); }
        let ghost old_entries = self.spec_entries();
        let ghost new_entries = old_entries.push((key@, value));
        proof {
            let keys = keys_of(old_entries);
            let nkeys = keys_of(new_entries);
            assert(nkeys =~= keys.push(key@));
            assert forall|a: int, b: int| 0 <= a < b < nkeys.len() implies text_lt(#[trigger] nkeys[a], #[trigger] nkeys[b]) by {
                if b == keys.len() && a < keys.len() - 1 {
                    lemma_bytes_lt_transitive(encode_utf8(keys[a]), encode_utf8(keys[keys.len() - 1]), encode_utf8(key@));
                }
            }
        }
        let mut entries: Vec<(String, V)> = Vec::new();
        std::mem::swap(&mut entries, &mut self.entries);
        entries.push((key, value));
        proof {
            assert(entries@.map_values(|e: (String, V)| (e.0@, e.1)) =~= new_entries);
        }
        self.entries = entries;
        proof {
            assert(self.spec_entries() =~= new_entries);
        }
    }

    /// Replaces the value of the entry at `index`, keeping its key; returns
    /// the previous value.
    pub fn replace_value_at(&mut self, index: usize, value: V) -> (previous: V)
        requires
            index < old(self).spec_len(),
        ensures
            previous == old(self).spec_entries()[index as int].1,
            final(self).spec_entries() == old(self).spec_entries().update(index as int, (old(self).spec_entries()[index as int].0, value)),
            final(self).spec_keys() == old(self).spec_keys(),
            final(self).spec_map() == old(self).spec_map().insert(old(self).spec_keys()[index as int], value),
    {
        proof { use_type_invariant(&*self); }
        let ghost old_entries = self.spec_entries();
        proof {
            lemma_map_update(old_entries, index as int, value);
        }
        let mut entries: Vec<(String, V)> = Vec::new();
        std::mem::swap(&mut entries, &mut self.entries);
        let (key, previous) = entries.remove(index);
        entries.insert(index, (key, value));
        proof {
            assert(entries@.map_values(|e: (String, V)| (e.0@, e.1)) =~= old_entries.update(index as int, (old_entries[index as int].0, value)));
        }
        self.entries = entries;
        proof {
            assert(self.spec_entries() =~= old_entries.update(index as int, (old_entries[index as int].0, value)));
        }
        previous
    }
}

} // verus!

verus! {

/// The texts of owned strings, in order.
pub open spec fn texts_of(values: Seq<String>) -> Seq<Seq<char>> {
    values.map_values(|value: String| value@)
}

impl TextMap<()> {
    /// The set of the given strings, deduplicated and in canonical order.
    pub fn from_texts(items: Vec<String>) -> (set: TextSet)
        ensures
            set.spec_keys().to_set() == texts_of(items@).to_set(),
            sorted_texts(set.spec_keys()),
    {
        let mut set: TextSet = TextMap::new();
        let ghost all = texts_of(items@);
        let mut rest = items;
        let ghost given = rest@;
        let _count = rest.len();
        let mut taken: usize = 0;
        assert(texts_of(given.take(0)).to_set() =~= set.spec_keys().to_set());
        while rest.len() > 0
            invariant
                all == texts_of(given),
                taken + rest@.len() == given.len(),
                given.len() <= usize::MAX,
                rest@ == given.skip(taken as int),
                set.spec_keys().to_set() == texts_of(given.take(taken as int)).to_set(),
            decreases rest@.len(),
        {
            let item = rest.remove(0);
            let ghost text = item@;
            assert(text == given[taken as int]@);
            set.insert(item, ());
            proof {
                assert(texts_of(given.take(taken + 1)) =~= texts_of(given.take(taken as int)).push(text));
                let longer = texts_of(given.take(taken + 1));
                let shorter = texts_of(given.take(taken as int));
                assert forall|x: Seq<char>| longer.to_set().contains(x) <==> shorter.to_set().insert(text).contains(x) by {
                    if longer.contains(x) {
                        let j = choose|j: int| 0 <= j < longer.len() && longer[j] == x;
                        if j < shorter.len() { assert(shorter[j] == x); }
                    }
                    if shorter.contains(x) {
                        let j = choose|j: int| 0 <= j < shorter.len() && shorter[j] == x;
                        assert(longer[j] == x);
                    }
                    if x == text { assert(longer[taken as int] == x); }
                }
                assert(longer.to_set() =~= shorter.to_set().insert(text));
                assert(rest@ =~= given.skip(taken + 1));
            }
            taken = taken + 1;
        }
        assert(given.take(taken as int) =~= given);
        proof { use_type_invariant(&set); }
        set
    }

    /// Adds `key`; reports whether it was newly added.
    pub fn insert_key(&mut self, key: String) -> (added: bool)
        ensures
            added == !old(self).spec_keys().contains(key@),
            final(self).spec_keys().to_set() == old(self).spec_keys().to_set().insert(key@),
            sorted_texts(final(self).spec_keys()),
    {
        !self.insert(key, ())
    }

    /// Removes `key`; reports whether it was present.
    pub fn remove_key(&mut self, key: &str) -> (removed: bool)
        ensures
            removed == old(self).spec_keys().contains(key@),
            final(self).spec_keys().to_set() == old(self).spec_keys().to_set().remove(key@),
            sorted_texts(final(self).spec_keys()),
    {
        let ghost before = self.spec_map();
        let removed = self.remove(key);
        proof {
            assert(before.dom() =~= old(self).spec_keys().to_set());
            assert(self.spec_map().dom() =~= self.spec_keys().to_set());
        }
        removed.is_some()
    }
}

impl<V> TextMap<V> {
    /// Key at `index` in canonical order, or `None` when out of range.
    pub fn key_at_checked(&self, index: usize) -> (key: Option<&str>)
        ensures
            match key {
                Some(k) => index < self.spec_len() && k@ == self.spec_keys()[index as int],
                None => index >= self.spec_len(),
            },
    {
        if index < self.entries.len() { Some(self.entries[index].0.as_str()) } else { None }
    }
}

} // verus!

verus! {

impl TextMap<()> {
    /// An independent copy of the set.
    pub fn duplicate(&self) -> (copy: TextSet)
        ensures
            copy.spec_entries() == self.spec_entries(),
    {
        proof { use_type_invariant(self); }
        let mut entries: Vec<(String, ())> = Vec::new();
        let mut i: usize = 0;
        while i < self.entries.len()
            invariant
                0 <= i <= self.entries@.len(),
                entries@.map_values(|e: (String, ())| (e.0@, e.1)) == self.spec_entries().take(i as int),
            decreases self.entries@.len() - i,
        {
            let key = self.entries[i].0.clone();
            let ghost prev = entries@;
            assert(self.spec_entries()[i as int] == (self.entries@[i as int].0@, ()));
            entries.push((key, ()));
            assert(entries@.map_values(|e: (String, ())| (e.0@, e.1)) =~= prev.map_values(|e: (String, ())| (e.0@, e.1)).push((key@, ())));
            assert(entries@.map_values(|e: (String, ())| (e.0@, e.1)) =~= self.spec_entries().take(i + 1));
            i = i + 1;
        }
        assert(self.spec_entries().take(i as int) =~= self.spec_entries());
        TextMap { entries }
    }
}

} // verus!
