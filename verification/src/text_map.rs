//! Maps and sets of text, kept in lexicographic order of their keys.
use vstd::prelude::*;

use crate::text::{text_order, TextOrder};

verus! {

/// Whether the texts stand in strictly increasing lexicographic order.
pub open spec fn is_sorted(texts: Seq<Seq<char>>) -> bool {
    forall|i: int, j: int|
        0 <= i < j < texts.len() ==> crate::text::precedes(#[trigger] texts[i], #[trigger] texts[j])
}

/// The members of a finite set of texts in lexicographic order.
pub open spec fn sorted_texts(set: Set<Seq<char>>) -> Seq<Seq<char>> {
    choose|texts: Seq<Seq<char>>| is_sorted(texts) && #[trigger] texts.to_set() == set
}

/// The map from each key to the value at the key's place.
pub open spec fn map_of<V>(keys: Seq<Seq<char>>, values: Seq<V>) -> Map<Seq<char>, V> {
    Map::new(|key: Seq<char>| keys.contains(key), |key: Seq<char>| values[keys.index_of(key)])
}

/// Texts in strictly increasing order are told by their set alone.
pub proof fn lemma_sorted_is_unique(a: Seq<Seq<char>>, b: Seq<Seq<char>>)
    requires
        is_sorted(a),
        is_sorted(b),
        a.to_set() == b.to_set(),
    ensures
        a == b,
    decreases a.len(),
{
    if a.len() == 0 {
        if b.len() > 0 {
            assert(b.to_set().contains(b[0]));
            assert(a.to_set().contains(b[0]));
        }
        assert(a =~= b);
    } else {
        assert(a.to_set().contains(a[0]));
        assert(b.to_set().contains(a[0]));
        let k = choose|k: int| 0 <= k < b.len() && b[k] == a[0];
        assert(b.to_set().contains(b[0]));
        assert(a.to_set().contains(b[0]));
        let m = choose|m: int| 0 <= m < a.len() && a[m] == b[0];
        if k > 0 && m > 0 {
            assert(crate::text::precedes(b[0], b[k]));
            assert(crate::text::precedes(a[0], a[m]));
            crate::text::lemma_precedes_asymmetric(a[0], b[0]);
        }
        assert(a[0] == b[0]);
        let c = a.drop_first();
        let d = b.drop_first();
        assert forall|x: Seq<char>| c.to_set().contains(x) == d.to_set().contains(x) by {
            if c.contains(x) {
                let i = choose|i: int| 0 <= i < c.len() && c[i] == x;
                assert(a[i + 1] == x);
                assert(crate::text::precedes(a[0], a[i + 1]));
                crate::text::lemma_precedes_asymmetric(a[0], x);
                assert(a.to_set().contains(x));
                assert(b.to_set().contains(x));
                let j = choose|j: int| 0 <= j < b.len() && b[j] == x;
                assert(d[j - 1] == x);
            }
            if d.contains(x) {
                let i = choose|i: int| 0 <= i < d.len() && d[i] == x;
                assert(b[i + 1] == x);
                assert(crate::text::precedes(b[0], b[i + 1]));
                crate::text::lemma_precedes_asymmetric(b[0], x);
                assert(b.to_set().contains(x));
                assert(a.to_set().contains(x));
                let j = choose|j: int| 0 <= j < a.len() && a[j] == x;
                assert(c[j - 1] == x);
            }
        }
        assert(c.to_set() =~= d.to_set());
        lemma_sorted_is_unique(c, d);
        assert(a =~= seq![a[0]] + c);
        assert(b =~= seq![b[0]] + d);
    }
}

/// Texts in strictly increasing order are the sorted members of their set.
pub proof fn lemma_sorted_texts(texts: Seq<Seq<char>>)
    requires
        is_sorted(texts),
    ensures
        sorted_texts(texts.to_set()) == texts,
{
    let chosen = sorted_texts(texts.to_set());
    assert(is_sorted(texts) && texts.to_set() == texts.to_set());
    lemma_sorted_is_unique(chosen, texts);
}

/// Every finite set of texts has its members in order.
pub proof fn lemma_finite_set_is_sorted(set: Set<Seq<char>>)
    requires
        set.finite(),
    ensures
        is_sorted(sorted_texts(set)),
        sorted_texts(set).to_set() == set,
    decreases set.len(),
{
    if set.len() == 0 {
        let none = Seq::<Seq<char>>::empty();
        assert(none.to_set() =~= set);
        lemma_sorted_texts(none);
    } else {
        let text = set.choose();
        lemma_finite_set_is_sorted(set.remove(text));
        let rest = sorted_texts(set.remove(text));
        assert(!rest.contains(text)) by {
            assert(!rest.to_set().contains(text));
        }
        let all = lemma_sorted_insert(rest, text);
        assert(all.to_set() =~= set);
        lemma_sorted_texts(all);
    }
}

proof fn lemma_sorted_insert(texts: Seq<Seq<char>>, text: Seq<char>) -> (r: Seq<Seq<char>>)
    requires
        is_sorted(texts),
        !texts.contains(text),
    ensures
        is_sorted(r),
        forall|x: Seq<char>| #[trigger] r.contains(x) == (texts.contains(x) || x == text),
    decreases texts.len(),
{
    if texts.len() == 0 {
        let r = seq![text];
        assert(r[0] == text);
        r
    } else {
        let last = texts.last();
        let head = texts.drop_last();
        assert(texts.contains(last));
        crate::text::lemma_precedes_total(last, text);
        if crate::text::precedes(last, text) {
            let r = texts.push(text);
            assert forall|i: int, j: int| 0 <= i < j < r.len() implies crate::text::precedes(
                #[trigger] r[i],
                #[trigger] r[j],
            ) by {
                if j == texts.len() && i < texts.len() - 1 {
                    crate::text::lemma_precedes_transitive(texts[i], last, text);
                }
            }
            assert forall|x: Seq<char>| #[trigger] r.contains(x) == (texts.contains(x) || x
                == text) by {
                if texts.contains(x) {
                    let i = choose|i: int| 0 <= i < texts.len() && texts[i] == x;
                    assert(r[i] == x);
                }
                assert(r[texts.len() as int] == text);
            }
            r
        } else {
            assert(!head.contains(text)) by {
                if head.contains(text) {
                    let i = choose|i: int| 0 <= i < head.len() && head[i] == text;
                    assert(texts[i] == text);
                }
            }
            let front = lemma_sorted_insert(head, text);
            let r = front.push(last);
            assert forall|i: int, j: int| 0 <= i < j < r.len() implies crate::text::precedes(
                #[trigger] r[i],
                #[trigger] r[j],
            ) by {
                if j == front.len() {
                    assert(front.contains(front[i]));
                    if front[i] != text {
                        let k = choose|k: int| 0 <= k < head.len() && head[k] == front[i];
                        assert(crate::text::precedes(texts[k], texts[texts.len() - 1]));
                    }
                }
            }
            assert forall|x: Seq<char>| #[trigger] r.contains(x) == (texts.contains(x) || x
                == text) by {
                if r.contains(x) {
                    let i = choose|i: int| 0 <= i < r.len() && r[i] == x;
                    if i < front.len() {
                        assert(front.contains(front[i]));
                        if x != text {
                            let k = choose|k: int| 0 <= k < head.len() && head[k] == x;
                            assert(texts[k] == x);
                        }
                    }
                }
                if texts.contains(x) || x == text {
                    if x == last {
                        assert(r[front.len() as int] == x);
                    } else {
                        if texts.contains(x) {
                            let k = choose|k: int| 0 <= k < texts.len() && texts[k] == x;
                            assert(head[k] == x);
                        }
                        assert(front.contains(x));
                        let i = choose|i: int| 0 <= i < front.len() && front[i] == x;
                        assert(r[i] == x);
                    }
                }
            }
            r
        }
    }
}

/// In strictly increasing order each text has one place.
pub proof fn lemma_sorted_index(texts: Seq<Seq<char>>, i: int)
    requires
        is_sorted(texts),
        0 <= i < texts.len(),
    ensures
        texts.index_of(texts[i]) == i,
{
    let k = texts.index_of(texts[i]);
    assert(texts.contains(texts[i]));
    assert(0 <= k < texts.len() && texts[k] == texts[i]);
    if k < i {
        crate::text::lemma_precedes_asymmetric(texts[k], texts[i]);
    }
    if i < k {
        crate::text::lemma_precedes_asymmetric(texts[i], texts[k]);
    }
}

/// A map from text, kept as entries in strictly increasing order of their keys.
#[derive(Debug, PartialEq, Eq)]
pub struct TextMap<V> {
    entries: Vec<(String, V)>,
}

impl<V: View> View for TextMap<V> {
    type V = Map<Seq<char>, <V as View>::V>;

    closed spec fn view(&self) -> Map<Seq<char>, <V as View>::V> {
        map_of(self.keys(), self.values())
    }
}

impl<V> TextMap<V> {
    /// The keys in the order of the entries.
    pub closed spec fn keys(&self) -> Seq<Seq<char>> {
        Seq::new(self.entries@.len(), |i: int| self.entries@[i].0@)
    }

    #[verifier::type_invariant]
    spec fn ordered(&self) -> bool {
        is_sorted(self.keys())
    }

    /// The first place whose key does not precede `key`, and whether it holds `key` itself.
    fn place(&self, key: &str) -> (r: (usize, bool))
        ensures
            r.0 <= self.entries@.len(),
            forall|j: int| 0 <= j < r.0 ==> crate::text::precedes(#[trigger] self.keys()[j], key@),
            r.1 ==> r.0 < self.entries@.len() && self.keys()[r.0 as int] == key@,
            !r.1 ==> forall|j: int|
                r.0 <= j < self.entries@.len() ==> crate::text::precedes(
                    key@,
                    #[trigger] self.keys()[j],
                ),
            r.1 == self.keys().contains(key@),
    {
        proof {
            use_type_invariant(self);
        }
        let mut i: usize = 0;
        while i < self.entries.len()
            invariant
                i <= self.entries@.len(),
                is_sorted(self.keys()),
                forall|j: int|
                    0 <= j < i ==> crate::text::precedes(#[trigger] self.keys()[j], key@),
            decreases self.entries@.len() - i,
        {
            match text_order(self.entries[i].0.as_str(), key) {
                TextOrder::Before => {
                    i += 1;
                },
                TextOrder::Same => {
                    assert(self.keys()[i as int] == key@);
                    return (i, true);
                },
                TextOrder::After => {
                    proof {
                        assert(crate::text::precedes(key@, self.keys()[i as int]));
                        assert forall|j: int| i <= j < self.entries@.len() implies
                            crate::text::precedes(key@, #[trigger] self.keys()[j]) by {
                            if i < j {
                                crate::text::lemma_precedes_transitive(
                                    key@,
                                    self.keys()[i as int],
                                    self.keys()[j],
                                );
                            }
                        }
                        if self.keys().contains(key@) {
                            let k = choose|k: int|
                                0 <= k < self.keys().len() && self.keys()[k] == key@;
                            crate::text::lemma_precedes_irreflexive(key@);
                        }
                    }
                    return (i, false);
                },
            }
        }
        proof {
            if self.keys().contains(key@) {
                let k = choose|k: int| 0 <= k < self.keys().len() && self.keys()[k] == key@;
                crate::text::lemma_precedes_irreflexive(key@);
            }
        }
        (i, false)
    }
}

impl<V: View> TextMap<V> {
    /// The values in the order of the entries.
    pub closed spec fn values(&self) -> Seq<<V as View>::V> {
        Seq::new(self.entries@.len(), |i: int| self.entries@[i].1@)
    }

    /// The map without entries.
    pub fn new() -> (r: Self)
        ensures
            r@ == Map::<Seq<char>, <V as View>::V>::empty(),
    {
        let r = TextMap { entries: Vec::new() };
        proof {
            assert(r@ =~= Map::<Seq<char>, <V as View>::V>::empty());
        }
        r
    }

    /// The value of a key.
    pub fn get(&self, key: &str) -> (r: Option<&V>)
        ensures
            match r {
                Some(value) => self@.contains_key(key@) && value@ == self@[key@],
                None => !self@.contains_key(key@),
            },
    {
        proof {
            use_type_invariant(self);
        }
        let (i, found) = self.place(key);
        if found {
            proof {
                lemma_sorted_index(self.keys(), i as int);
            }
            Some(&self.entries[i].1)
        } else {
            None
        }
    }

    /// Whether a key has a value.
    pub fn contains_key(&self, key: &str) -> (r: bool)
        ensures
            r == self@.contains_key(key@),
    {
        let (_, found) = self.place(key);
        found
    }

    /// Gives a key a value, in place of the one that it has.
    pub fn insert(&mut self, key: String, value: V)
        ensures
            final(self)@ == old(self)@.insert(key@, value@),
    {
        proof {
            use_type_invariant(&*self);
        }
        let (i, found) = self.place(key.as_str());
        let ghost before = *self;
        let mut entries: Vec<(String, V)> = Vec::new();
        std::mem::swap(&mut self.entries, &mut entries);
        if found {
            entries.remove(i);
        }
        entries.insert(i, (key, value));
        proof {
            let after = TextMap { entries };
            lemma_entry_inserted(before, after, i as int, key@, value@, found);
        }
        self.entries = entries;
    }

    /// Takes a key and its value out.
    pub fn remove(&mut self, key: &str)
        ensures
            final(self)@ == old(self)@.remove(key@),
    {
        proof {
            use_type_invariant(&*self);
        }
        let (i, found) = self.place(key);
        if found {
            let ghost before = *self;
            let mut entries: Vec<(String, V)> = Vec::new();
            std::mem::swap(&mut self.entries, &mut entries);
            entries.remove(i);
            proof {
                let after = TextMap { entries };
                lemma_entry_removed(before, after, i as int);
            }
            self.entries = entries;
        } else {
            proof {
                assert(self@ =~= self@.remove(key@));
            }
        }
    }

    /// The number of entries.
    pub fn len(&self) -> (r: usize)
        ensures
            r == sorted_texts(self@.dom()).len(),
            is_sorted(sorted_texts(self@.dom())),
            sorted_texts(self@.dom()).to_set() == self@.dom(),
    {
        proof {
            use_type_invariant(self);
            lemma_keys_are_sorted(*self);
            assert(self@.dom() =~= self.keys().to_set());
        }
        self.entries.len()
    }

    /// The entry at a place in the order of the keys.
    pub fn entry(&self, index: usize) -> (r: (&str, &V))
        requires
            index < sorted_texts(self@.dom()).len(),
        ensures
            r.0@ == sorted_texts(self@.dom())[index as int],
            self@.contains_key(r.0@),
            r.1@ == self@[r.0@],
    {
        proof {
            use_type_invariant(self);
            lemma_keys_are_sorted(*self);
            lemma_sorted_index(self.keys(), index as int);
        }
        (self.entries[index].0.as_str(), &self.entries[index].1)
    }
}

/// A map holds finitely many keys.
pub proof fn lemma_map_is_finite<V: View>(map: TextMap<V>)
    ensures
        map@.dom().finite(),
{
    assert(map@.dom() =~= map.keys().to_set());
}

proof fn lemma_keys_are_sorted<V: View>(map: TextMap<V>)
    requires
        is_sorted(map.keys()),
    ensures
        sorted_texts(map@.dom()) == map.keys(),
{
    assert(map@.dom() =~= map.keys().to_set());
    lemma_sorted_texts(map.keys());
}

proof fn lemma_entry_inserted<V: View>(
    before: TextMap<V>,
    after: TextMap<V>,
    i: int,
    key: Seq<char>,
    value: <V as View>::V,
    found: bool,
)
    requires
        is_sorted(before.keys()),
        0 <= i <= before.entries@.len(),
        found ==> i < before.entries@.len() && before.keys()[i] == key,
        forall|j: int| 0 <= j < i ==> crate::text::precedes(#[trigger] before.keys()[j], key),
        !found ==> forall|j: int|
            i <= j < before.entries@.len() ==> crate::text::precedes(
                key,
                #[trigger] before.keys()[j],
            ),
        !found ==> !before.keys().contains(key),
        ({
            let rest = if found {
                before.entries@.remove(i)
            } else {
                before.entries@
            };
            &&& after.entries@.len() == rest.len() + 1
            &&& after.entries@ == rest.insert(i, after.entries@[i])
        }),
        after.entries@[i].0@ == key,
        after.entries@[i].1@ == value,
    ensures
        is_sorted(after.keys()),
        after@ == before@.insert(key, value),
{
    let old_keys = before.keys();
    let new_keys = after.keys();
    let gap: int = if found {
        1
    } else {
        0
    };
    assert(new_keys[i] == key);
    assert forall|j: int| 0 <= j < i implies new_keys[j] == #[trigger] old_keys[j]
        && after.entries@[j] == before.entries@[j] by {}
    assert forall|j: int| i < j < new_keys.len() implies #[trigger] new_keys[j] == old_keys[j - 1
        + gap] && after.entries@[j] == before.entries@[j - 1 + gap] by {}
    assert forall|a: int, b: int| 0 <= a < b < new_keys.len() implies crate::text::precedes(
        #[trigger] new_keys[a],
        #[trigger] new_keys[b],
    ) by {
        let old_a = if a < i {
            a
        } else {
            a - 1 + gap
        };
        let old_b = if b < i {
            b
        } else {
            b - 1 + gap
        };
        if a != i && b != i {
            assert(crate::text::precedes(old_keys[old_a], old_keys[old_b]));
        } else if b == i {
            assert(crate::text::precedes(old_keys[a], key));
        } else {
            assert(crate::text::precedes(key, old_keys[old_b]));
        }
    }
    let target = before@.insert(key, value);
    assert forall|k: Seq<char>| #[trigger]
        after@.dom().contains(k) == target.dom().contains(k) && (after@.dom().contains(k)
            ==> after@[k] == target[k]) by {
        if new_keys.contains(k) {
            let j = choose|j: int| 0 <= j < new_keys.len() && new_keys[j] == k;
            lemma_sorted_index(new_keys, j);
            if j != i {
                let old_j = if j < i {
                    j
                } else {
                    j - 1 + gap
                };
                assert(old_keys[old_j] == k);
                lemma_sorted_index(old_keys, old_j);
                crate::text::lemma_precedes_irreflexive(key);
                if j < i {
                    assert(crate::text::precedes(new_keys[j], new_keys[i]));
                } else {
                    assert(crate::text::precedes(new_keys[i], new_keys[j]));
                }
                assert(k != key);
            }
        }
        if old_keys.contains(k) && k != key {
            let j = choose|j: int| 0 <= j < old_keys.len() && old_keys[j] == k;
            let new_j = if j < i {
                j
            } else {
                j + 1 - gap
            };
            assert(new_keys[new_j] == k);
        }
        if k == key {
            assert(new_keys[i] == k);
        }
    }
    assert(after@.dom() =~= target.dom());
    assert(after@ =~= target);
}

proof fn lemma_entry_removed<V: View>(before: TextMap<V>, after: TextMap<V>, i: int)
    requires
        is_sorted(before.keys()),
        0 <= i < before.entries@.len(),
        after.entries@ == before.entries@.remove(i),
    ensures
        is_sorted(after.keys()),
        after@ == before@.remove(before.keys()[i]),
{
    let old_keys = before.keys();
    let new_keys = after.keys();
    let key = old_keys[i];
    assert forall|a: int, b: int| 0 <= a < b < new_keys.len() implies crate::text::precedes(
        #[trigger] new_keys[a],
        #[trigger] new_keys[b],
    ) by {
        let old_a = if a < i {
            a
        } else {
            a + 1
        };
        let old_b = if b < i {
            b
        } else {
            b + 1
        };
        assert(crate::text::precedes(old_keys[old_a], old_keys[old_b]));
    }
    let target = before@.remove(key);
    assert forall|k: Seq<char>| #[trigger]
        after@.dom().contains(k) == target.dom().contains(k) && (after@.dom().contains(k)
            ==> after@[k] == target[k]) by {
        if new_keys.contains(k) {
            let j = choose|j: int| 0 <= j < new_keys.len() && new_keys[j] == k;
            lemma_sorted_index(new_keys, j);
            let old_j = if j < i {
                j
            } else {
                j + 1
            };
            assert(old_keys[old_j] == k);
            lemma_sorted_index(old_keys, old_j);
            lemma_sorted_index(old_keys, i);
        }
        if old_keys.contains(k) && k != key {
            let j = choose|j: int| 0 <= j < old_keys.len() && old_keys[j] == k;
            let new_j = if j < i {
                j
            } else {
                j - 1
            };
            assert(new_keys[new_j] == k);
        }
    }
    assert(after@.dom() =~= target.dom());
    assert(after@ =~= target);
}

/// The members of a finite set of texts, in order, are its members and no others, each once, and
/// each comes before those behind it.
pub proof fn law_members_stand_in_order(set: Set<Seq<char>>, i: int, j: int)
    requires
        set.finite(),
    ensures
        forall|text: Seq<char>| #[trigger] sorted_texts(set).contains(text) <==> set.contains(text),
        0 <= i < j < sorted_texts(set).len() ==> crate::text::precedes(
            sorted_texts(set)[i],
            sorted_texts(set)[j],
        ) && sorted_texts(set)[i] != sorted_texts(set)[j],
{
    let texts = sorted_texts(set);
    lemma_finite_set_is_sorted(set);
    assert forall|text: Seq<char>| #[trigger] texts.contains(text) <==> set.contains(text) by {
        assert(texts.to_set().contains(text) <==> texts.contains(text));
    }
    if 0 <= i < j < texts.len() {
        crate::text::lemma_precedes_asymmetric(texts[i], texts[j]);
    }
}

} // verus!
