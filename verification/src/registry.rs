//! A small map from text keys to values: the bot keeps the images it has
//! downloaded by Telegram file id, and the polls it has sent by poll id.

use vstd::prelude::*;

use crate::image::ImageSource;
use crate::text::str_eq;

verus! {

/// A map from text keys to values, in insertion order.
pub struct Registry<V> {
    entries: Vec<(String, V)>,
}

impl<V> View for Registry<V> {
    type V = Map<Seq<char>, V>;

    closed spec fn view(&self) -> Map<Seq<char>, V> {
        Map::new(
            |k: Seq<char>| exists|i: int| 0 <= i < self.entries@.len() && #[trigger] self.entries@[i].0@ == k,
            |k: Seq<char>| self.entries@[choose|i: int| 0 <= i < self.entries@.len() && #[trigger] self.entries@[i].0@ == k].1,
        )
    }
}

impl<V> Registry<V> {
    /// No key appears twice.
    pub closed spec fn well_formed(&self) -> bool {
        forall|i: int, j: int|
            0 <= i < self.entries@.len() && 0 <= j < self.entries@.len() && i != j
                ==> #[trigger] self.entries@[i].0@ != #[trigger] self.entries@[j].0@
    }

    proof fn lemma_value_at(&self, i: int)
        requires
            self.well_formed(),
            0 <= i < self.entries@.len(),
        ensures
            self@.contains_key(self.entries@[i].0@),
            self@[self.entries@[i].0@] == self.entries@[i].1,
    {
        let k = self.entries@[i].0@;
        assert(self@.dom().contains(k));
        let c = choose|j: int| 0 <= j < self.entries@.len() && #[trigger] self.entries@[j].0@ == k;
        assert(c == i);
    }

    /// An empty map.
    pub fn new() -> (r: Self)
        ensures
            r.well_formed(),
            r@ == Map::<Seq<char>, V>::empty(),
    {
        let r = Registry { entries: Vec::new() };
        assert(r@ =~= Map::<Seq<char>, V>::empty());
        r
    }

    fn position(&self, key: &str) -> (r: Option<usize>)
        requires
            self.well_formed(),
        ensures
            match r {
                Some(i) => i < self.entries@.len() && self.entries@[i as int].0@ == key@,
                None => !self@.contains_key(key@),
            },
    {
        let n = self.entries.len();
        let mut i: usize = 0;
        while i < n
            invariant
                n == self.entries@.len(),
                i <= n,
                forall|j: int| 0 <= j < i ==> self.entries@[j].0@ != key@,
            decreases n - i,
        {
            if str_eq(self.entries[i].0.as_str(), key) {
                return Some(i);
            }
            i = i + 1;
        }
        None
    }

    /// The value under `key`, if any.
    pub fn get(&self, key: &str) -> (r: Option<&V>)
        requires
            self.well_formed(),
        ensures
            match r {
                Some(v) => self@.contains_key(key@) && self@[key@] == *v,
                None => !self@.contains_key(key@),
            },
    {
        match self.position(key) {
            Some(i) => {
                proof {
                    self.lemma_value_at(i as int);
                }
                Some(&self.entries[i].1)
            },
            None => None,
        }
    }

    /// Puts `value` under `key`, replacing what was there.
    pub fn insert(&mut self, key: String, value: V)
        requires
            old(self).well_formed(),
        ensures
            final(self).well_formed(),
            final(self)@ == old(self)@.insert(key@, value),
    {
        match self.position(key.as_str()) {
            Some(i) => {
                let ghost before = self.entries@;
                let ghost k = key@;
                self.entries.set(i, (key, value));
                assert forall|j: int| 0 <= j < self.entries@.len() && j != i implies self.entries@[j] == before[j] by {}
                assert(self@ =~= old(self)@.insert(k, value)) by {
                    assert forall|q: Seq<char>| #[trigger] self@.dom().contains(q) <==> old(self)@.insert(k, value).dom().contains(q) by {
                        if q == k {
                            assert(self.entries@[i as int].0@ == q);
                        } else if self@.dom().contains(q) {
                            let j = choose|j: int| 0 <= j < self.entries@.len() && #[trigger] self.entries@[j].0@ == q;
                            assert(before[j].0@ == q);
                        } else if old(self)@.dom().contains(q) {
                            let j = choose|j: int| 0 <= j < before.len() && #[trigger] before[j].0@ == q;
                            assert(self.entries@[j].0@ == q);
                        }
                    }
                    assert forall|q: Seq<char>| #[trigger] self@.dom().contains(q) implies self@[q] == old(self)@.insert(k, value)[q] by {
                        let j = choose|j: int| 0 <= j < self.entries@.len() && #[trigger] self.entries@[j].0@ == q;
                        self.lemma_value_at(j);
                        if q != k {
                            old(self).lemma_value_at(j);
                        }
                    }
                }
            },
            None => {
                let ghost before = self.entries@;
                let ghost k = key@;
                self.entries.push((key, value));
                let ghost last = before.len() as int;
                assert forall|j: int| 0 <= j < before.len() implies self.entries@[j] == before[j] by {}
                assert(self@ =~= old(self)@.insert(k, value)) by {
                    assert forall|q: Seq<char>| #[trigger] self@.dom().contains(q) <==> old(self)@.insert(k, value).dom().contains(q) by {
                        if q == k {
                            assert(self.entries@[last].0@ == q);
                        } else if self@.dom().contains(q) {
                            let j = choose|j: int| 0 <= j < self.entries@.len() && #[trigger] self.entries@[j].0@ == q;
                            assert(j != last);
                            assert(before[j].0@ == q);
                        } else if old(self)@.dom().contains(q) {
                            let j = choose|j: int| 0 <= j < before.len() && #[trigger] before[j].0@ == q;
                            assert(self.entries@[j].0@ == q);
                        }
                    }
                    assert forall|q: Seq<char>| #[trigger] self@.dom().contains(q) implies self@[q] == old(self)@.insert(k, value)[q] by {
                        let j = choose|j: int| 0 <= j < self.entries@.len() && #[trigger] self.entries@[j].0@ == q;
                        self.lemma_value_at(j);
                        if q != k {
                            assert(j != last);
                            old(self).lemma_value_at(j);
                        }
                    }
                }
            },
        }
    }

    /// Removes the entry under `key`, handing back its value.
    pub fn remove(&mut self, key: &str) -> (r: Option<V>)
        requires
            old(self).well_formed(),
        ensures
            final(self).well_formed(),
            final(self)@ == old(self)@.remove(key@),
            match r {
                Some(v) => old(self)@.contains_key(key@) && old(self)@[key@] == v,
                None => !old(self)@.contains_key(key@),
            },
    {
        match self.position(key) {
            Some(i) => {
                proof {
                    self.lemma_value_at(i as int);
                }
                let ghost before = self.entries@;
                let (_, v) = self.entries.remove(i);
                assert forall|j: int| 0 <= j < self.entries@.len() implies self.entries@[j] == (if j < i { before[j] } else { before[j + 1] }) by {}
                assert(self@ =~= old(self)@.remove(key@)) by {
                    assert forall|q: Seq<char>| #[trigger] self@.dom().contains(q) <==> old(self)@.remove(key@).dom().contains(q) by {
                        if self@.dom().contains(q) {
                            let j = choose|j: int| 0 <= j < self.entries@.len() && #[trigger] self.entries@[j].0@ == q;
                            if j < i {
                                assert(before[j].0@ == q);
                            } else {
                                assert(before[j + 1].0@ == q);
                            }
                        } else if old(self)@.dom().contains(q) && q != key@ {
                            let j = choose|j: int| 0 <= j < before.len() && #[trigger] before[j].0@ == q;
                            if j < i {
                                assert(self.entries@[j].0@ == q);
                            } else {
                                assert(j != i);
                                assert(self.entries@[j - 1].0@ == q);
                            }
                        }
                    }
                    assert forall|q: Seq<char>| #[trigger] self@.dom().contains(q) implies self@[q] == old(self)@.remove(key@)[q] by {
                        let j = choose|j: int| 0 <= j < self.entries@.len() && #[trigger] self.entries@[j].0@ == q;
                        self.lemma_value_at(j);
                        if j < i {
                            old(self).lemma_value_at(j);
                        } else {
                            old(self).lemma_value_at(j + 1);
                        }
                    }
                }
                Some(v)
            },
            None => {
                assert(self@ =~= old(self)@.remove(key@));
                None
            },
        }
    }
}

/// A value read right after it was put under a key is that value, and
/// putting it leaves every other key as it was.
pub proof fn lemma_read_after_write<V>(m: Map<Seq<char>, V>, k: Seq<char>, v: V, other: Seq<char>)
    ensures
        m.insert(k, v).contains_key(k),
        m.insert(k, v)[k] == v,
        other != k ==> m.insert(k, v).contains_key(other) == m.contains_key(other),
        other != k && m.contains_key(other) ==> m.insert(k, v)[other] == m[other],
{
}

/// A removed key is gone, and removing it leaves every other key as it was.
pub proof fn lemma_read_after_remove<V>(m: Map<Seq<char>, V>, k: Seq<char>, other: Seq<char>)
    ensures
        !m.remove(k).contains_key(k),
        other != k ==> m.remove(k).contains_key(other) == m.contains_key(other),
        other != k && m.contains_key(other) ==> m.remove(k)[other] == m[other],
{
}

/// A downloaded image kept by the bot, with what keeps its file alive.
pub struct CachedImage<T> {
    pub source: ImageSource,
    pub keep: T,
}

/// Whether two image sources are the same.
pub fn same_source(a: &ImageSource, b: &ImageSource) -> (r: bool)
    ensures
        r == match (a, b) {
            (ImageSource::LocalFile(x), ImageSource::LocalFile(y)) => x@ == y@,
            (ImageSource::Url(x), ImageSource::Url(y)) => x@ == y@,
            _ => false,
        },
{
    match (a, b) {
        (ImageSource::LocalFile(x), ImageSource::LocalFile(y)) => str_eq(x.as_str(), y.as_str()),
        (ImageSource::Url(x), ImageSource::Url(y)) => str_eq(x.as_str(), y.as_str()),
        _ => false,
    }
}

/// Whether a source is `source`, by its kind and text.
pub open spec fn spec_same_source(a: ImageSource, b: ImageSource) -> bool {
    match (a, b) {
        (ImageSource::LocalFile(x), ImageSource::LocalFile(y)) => x@ == y@,
        (ImageSource::Url(x), ImageSource::Url(y)) => x@ == y@,
        _ => false,
    }
}

impl<T> Registry<CachedImage<T>> {
    /// The key of an image kept for `source`, if any.
    pub fn key_of_source(&self, source: &ImageSource) -> (r: Option<String>)
        requires
            self.well_formed(),
        ensures
            match r {
                Some(k) => self@.contains_key(k@) && spec_same_source(self@[k@].source, *source),
                None => forall|k: Seq<char>| #[trigger] self@.contains_key(k) ==> !spec_same_source(self@[k].source, *source),
            },
    {
        let n = self.entries.len();
        let mut i: usize = 0;
        while i < n
            invariant
                n == self.entries@.len(),
                i <= n,
                self.well_formed(),
                forall|j: int| 0 <= j < i ==> !spec_same_source(#[trigger] self.entries@[j].1.source, *source),
            decreases n - i,
        {
            if same_source(&self.entries[i].1.source, source) {
                proof {
                    self.lemma_value_at(i as int);
                }
                return Some(self.entries[i].0.clone());
            }
            i = i + 1;
        }
        proof {
            assert forall|k: Seq<char>| #[trigger] self@.contains_key(k) implies !spec_same_source(self@[k].source, *source) by {
                let j = choose|j: int| 0 <= j < self.entries@.len() && #[trigger] self.entries@[j].0@ == k;
                self.lemma_value_at(j);
            }
        }
        None
    }
}

} // verus!
