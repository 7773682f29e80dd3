use std::marker::PhantomData;
use vstd::prelude::*;
use crate::unested::UNested;
use crate::update::{MapKey, Updatable};

verus! {

/// An update of a `UMap`.
pub enum UMapUpdate<K, T: Updatable> {
    /// Sets the value of a key, overwriting any earlier value.
    Insert(K, T),
    /// Removes a key; a missing key is left missing.
    Remove(K),
    /// Updates the value of a key that is present.
    Nested(K, T::Update),
}

/// A replicated map from keys to updatable values.
pub struct UMap<K: MapKey, T: Updatable> {
    entries: Vec<(K, T)>,
}

/// No two entries have the same key.
pub open spec fn keys_distinct<K: View, T>(s: Seq<(K, T)>) -> bool {
    forall|i: int, j: int| 0 <= i < j < s.len() ==> s[i].0@ != s[j].0@
}

/// The map that a sequence of entries stands for.
pub open spec fn entries_view<K: View, T: View>(s: Seq<(K, T)>) -> Map<K::V, T::V>
    decreases s.len(),
{
    if s.len() == 0 {
        Map::empty()
    } else {
        entries_view(s.drop_last()).insert(s.last().0@, s.last().1@)
    }
}

proof fn lemma_entries_contains<K: View, T: View>(s: Seq<(K, T)>, k: K::V)
    ensures
        entries_view(s).contains_key(k) <==> exists|i: int| 0 <= i < s.len() && s[i].0@ == k,
    decreases s.len(),
{
    if s.len() > 0 {
        lemma_entries_contains(s.drop_last(), k);
        if entries_view(s).contains_key(k) && s.last().0@ != k {
            let i = choose|i: int| 0 <= i < s.drop_last().len() && s.drop_last()[i].0@ == k;
            assert(s[i].0@ == k);
        }
        if exists|i: int| 0 <= i < s.len() && s[i].0@ == k {
            let i = choose|i: int| 0 <= i < s.len() && s[i].0@ == k;
            if i < s.len() - 1 {
                assert(s.drop_last()[i].0@ == k);
            }
        }
    }
}

proof fn lemma_entries_at<K: View, T: View>(s: Seq<(K, T)>, i: int)
    requires
        keys_distinct(s),
        0 <= i < s.len(),
    ensures
        entries_view(s).contains_key(s[i].0@),
        entries_view(s)[s[i].0@] == s[i].1@,
    decreases s.len(),
{
    if i < s.len() - 1 {
        lemma_entries_at(s.drop_last(), i);
    }
}

proof fn lemma_entries_update<K: View, T: View>(s: Seq<(K, T)>, i: int, e: (K, T))
    requires
        keys_distinct(s),
        0 <= i < s.len(),
        e.0@ == s[i].0@,
    ensures
        keys_distinct(s.update(i, e)),
        entries_view(s.update(i, e)) == entries_view(s).insert(e.0@, e.1@),
    decreases s.len(),
{
    let t = s.update(i, e);
    if i == s.len() - 1 {
        assert(t.drop_last() =~= s.drop_last());
        lemma_entries_contains(s.drop_last(), e.0@);
        assert(entries_view(t) =~= entries_view(s).insert(e.0@, e.1@));
    } else {
        lemma_entries_update(s.drop_last(), i, e);
        assert(t.drop_last() =~= s.drop_last().update(i, e));
        assert(entries_view(t) =~= entries_view(s).insert(e.0@, e.1@));
    }
}

proof fn lemma_entries_remove<K: View, T: View>(s: Seq<(K, T)>, i: int)
    requires
        keys_distinct(s),
        0 <= i < s.len(),
    ensures
        keys_distinct(s.remove(i)),
        entries_view(s.remove(i)) == entries_view(s).remove(s[i].0@),
    decreases s.len(),
{
    let t = s.remove(i);
    if i == s.len() - 1 {
        assert(t =~= s.drop_last());
        lemma_entries_contains(s.drop_last(), s[i].0@);
        assert(entries_view(t) =~= entries_view(s).remove(s[i].0@));
    } else {
        lemma_entries_remove(s.drop_last(), i);
        assert(t.drop_last() =~= s.drop_last().remove(i));
        assert(t.last() == s.last());
        assert(entries_view(t) =~= entries_view(s).remove(s[i].0@));
    }
}

proof fn lemma_entries_push<K: View, T: View>(s: Seq<(K, T)>, e: (K, T))
    requires
        keys_distinct(s),
        forall|i: int| 0 <= i < s.len() ==> s[i].0@ != e.0@,
    ensures
        keys_distinct(s.push(e)),
        entries_view(s.push(e)) == entries_view(s).insert(e.0@, e.1@),
{
    assert(s.push(e).drop_last() =~= s);
}

/// The index of the entry of `key` in `entries`, if there is one.
fn find_key<K: MapKey, T>(entries: &Vec<(K, T)>, key: &K) -> (r: Option<usize>)
    ensures
        match r {
            Some(i) => i < entries@.len() && entries@[i as int].0@ == key@,
            None => forall|i: int| 0 <= i < entries@.len() ==> entries@[i].0@ != key@,
        },
{
    let mut i: usize = 0;
    while i < entries.len()
        invariant
            i <= entries@.len(),
            forall|j: int| 0 <= j < i ==> entries@[j].0@ != key@,
        decreases entries@.len() - i,
    {
        if entries[i].0.same_key(key) {
            return Some(i);
        }
        i += 1;
    }
    None
}

impl<K: MapKey, T: Updatable> View for UMap<K, T> {
    type V = Map<K::V, T::V>;

    closed spec fn view(&self) -> Map<K::V, T::V> {
        entries_view(self.entries@)
    }
}

impl<K: MapKey, T: Updatable> UMap<K, T> {
    #[verifier::type_invariant]
    spec fn wf(self) -> bool {
        keys_distinct(self.entries@)
    }

    /// An empty map.
    pub fn new() -> (r: Self)
        ensures
            r@ == Map::<K::V, T::V>::empty(),
    {
        let r = UMap { entries: Vec::new() };
        proof {
            assert(r.entries@.len() == 0);
        }
        r
    }

    /// The update that sets `key` to `value`.
    pub fn insert(&self, key: K, value: T) -> (r: UMapUpdate<K, T>)
        ensures
            r == UMapUpdate::Insert(key, value),
    {
        UMapUpdate::Insert(key, value)
    }

    /// The update that removes `key`.
    pub fn remove(&self, key: K) -> (r: UMapUpdate<K, T>)
        ensures
            r == UMapUpdate::<K, T>::Remove(key),
    {
        UMapUpdate::Remove(key)
    }

    /// A copy of the value of `key`.
    pub fn get(&self, key: &K) -> (r: Option<T>)
        ensures
            match r {
                Some(v) => self@.contains_key(key@) && v@ == self@[key@],
                None => !self@.contains_key(key@),
            },
    {
        match self.get_ref(key) {
            Some(v) => Some(v.duplicate()),
            None => None,
        }
    }

    /// The value of `key`.
    pub fn get_ref(&self, key: &K) -> (r: Option<&T>)
        ensures
            match r {
                Some(v) => self@.contains_key(key@) && v@ == self@[key@],
                None => !self@.contains_key(key@),
            },
    {
        proof {
            use_type_invariant(self);
            lemma_entries_contains(self.entries@, key@);
        }
        match find_key(&self.entries, key) {
            Some(i) => {
                proof {
                    lemma_entries_at(self.entries@, i as int);
                }
                Some(&self.entries[i].1)
            },
            None => None,
        }
    }

    /// Copies of the entries, each key once.
    pub fn entries(&self) -> (r: Vec<(K, T)>)
        ensures
            keys_distinct(r@),
            entries_view(r@) == self@,
    {
        proof {
            use_type_invariant(self);
        }
        let mut entries: Vec<(K, T)> = Vec::new();
        let mut i: usize = 0;
        while i < self.entries.len()
            invariant
                i <= self.entries@.len(),
                entries@.len() == i,
                forall|j: int|
                    0 <= j < i ==> (#[trigger] entries@[j]).0@ == self.entries@[j].0@
                        && entries@[j].1@ == self.entries@[j].1@,
            decreases self.entries@.len() - i,
        {
            let k = self.entries[i].0.copy_key();
            let v = self.entries[i].1.duplicate();
            entries.push((k, v));
            i += 1;
        }
        proof {
            lemma_entries_same_views(entries@, self.entries@);
        }
        entries
    }

    /// A builder for updates of the value of `key`.
    pub fn get_mut(&self, key: K) -> (r: UNested<
        T,
        UMapUpdate<K, T>,
        impl FnOnce(T::Update) -> UMapUpdate<K, T>,
    >)
        ensures
            forall|u: T::Update| call_requires(r.apply_outer, (u,)),
            forall|u: T::Update, o: UMapUpdate<K, T>|
                call_ensures(r.apply_outer, (u,), o) ==> o == UMapUpdate::<K, T>::Nested(key, u),
    {
        let lift = move |u| -> (o: UMapUpdate<K, T>)
            ensures
                o == UMapUpdate::<K, T>::Nested(key, u),
            { UMapUpdate::Nested(key, u) };
        UNested { apply_outer: lift, inner_type: PhantomData }
    }
}

impl<K: MapKey, T: Updatable> Updatable for UMap<K, T> {
    type Update = UMapUpdate<K, T>;

    open spec fn can_update(v: Map<K::V, T::V>, u: UMapUpdate<K, T>) -> bool {
        match u {
            UMapUpdate::Insert(_, _) => true,
            UMapUpdate::Remove(_) => true,
            UMapUpdate::Nested(k, iu) => v.contains_key(k@) && T::can_update(v[k@], iu),
        }
    }

    open spec fn updated(v: Map<K::V, T::V>, u: UMapUpdate<K, T>) -> Map<K::V, T::V> {
        match u {
            UMapUpdate::Insert(k, x) => v.insert(k@, x@),
            UMapUpdate::Remove(k) => v.remove(k@),
            UMapUpdate::Nested(k, iu) => v.insert(k@, T::updated(v[k@], iu)),
        }
    }

    open spec fn initial() -> Map<K::V, T::V> {
        Map::empty()
    }

    fn apply_update(&mut self, update: UMapUpdate<K, T>) -> (applied: bool) {
        proof {
            use_type_invariant(&*self);
        }
        let mut entries: Vec<(K, T)> = Vec::new();
        std::mem::swap(&mut self.entries, &mut entries);
        let ghost s = entries@;
        let applied = match update {
            UMapUpdate::Insert(key, value) => {
                match find_key(&entries, &key) {
                    Some(i) => {
                        let e = (key, value);
                        proof {
                            lemma_entries_update(s, i as int, e);
                        }
                        entries.set(i, e);
                    },
                    None => {
                        let e = (key, value);
                        proof {
                            lemma_entries_push(s, e);
                        }
                        entries.push(e);
                    },
                }
                true
            },
            UMapUpdate::Remove(key) => {
                proof {
                    lemma_entries_contains(s, key@);
                }
                match find_key(&entries, &key) {
                    Some(i) => {
                        proof {
                            lemma_entries_remove(s, i as int);
                        }
                        entries.remove(i);
                    },
                    None => {
                        assert(entries_view(s) =~= entries_view(s).remove(key@));
                    },
                }
                true
            },
            UMapUpdate::Nested(key, inner) => {
                proof {
                    lemma_entries_contains(s, key@);
                }
                match find_key(&entries, &key) {
                    Some(i) => {
                        proof {
                            lemma_entries_at(s, i as int);
                            lemma_entries_remove(s, i as int);
                        }
                        let (k, mut value) = entries.remove(i);
                        let ok = value.apply_update(inner);
                        let e = (k, value);
                        proof {
                            assert(s.remove(i as int).insert(i as int, e) =~= s.update(i as int, e));
                            lemma_entries_update(s, i as int, e);
                        }
                        entries.insert(i, e);
                        proof {
                            if !ok {
                                assert(entries_view(s).insert(e.0@, e.1@) =~= entries_view(s));
                            }
                        }
                        ok
                    },
                    None => false,
                }
            },
        };
        self.entries = entries;
        applied
    }

    fn fresh() -> (r: Self) {
        UMap::new()
    }

    fn duplicate(&self) -> (r: Self) {
        let entries = self.entries();
        UMap { entries }
    }
}

proof fn lemma_entries_same_views<K: View, T: View>(s: Seq<(K, T)>, t: Seq<(K, T)>)
    requires
        s.len() == t.len(),
        forall|j: int| 0 <= j < s.len() ==> (#[trigger] s[j]).0@ == t[j].0@ && s[j].1@ == t[j].1@,
    ensures
        keys_distinct(t) ==> keys_distinct(s),
        entries_view(s) == entries_view(t),
    decreases s.len(),
{
    if s.len() > 0 {
        lemma_entries_same_views(s.drop_last(), t.drop_last());
    }
}

/// Lifting an update into a map addresses the value of its key: the lifted
/// update applies exactly when the key is present and the inner update
/// applies to its value, and then it updates that value alone.
pub proof fn lemma_map_nested_lifting<K: MapKey, T: Updatable>(
    v: Map<K::V, T::V>,
    key: K,
    u: T::Update,
)
    ensures
        UMap::<K, T>::can_update(v, UMapUpdate::Nested(key, u)) == (v.contains_key(key@)
            && T::can_update(v[key@], u)),
        v.contains_key(key@) ==> {
            let w = UMap::<K, T>::updated(v, UMapUpdate::Nested(key, u));
            &&& w.dom() == v.dom()
            &&& w[key@] == T::updated(v[key@], u)
            &&& forall|k: K::V| #[trigger] v.contains_key(k) && k != key@ ==> w[k] == v[k]
        },
{
    if v.contains_key(key@) {
        let w = UMap::<K, T>::updated(v, UMapUpdate::Nested(key, u));
        assert(w.dom() =~= v.dom());
    }
}

impl<K: MapKey, T: Updatable> Default for UMap<K, T> {
    fn default() -> (r: Self)
        ensures
            r@ == Map::<K::V, T::V>::empty(),
    {
        UMap::new()
    }
}

impl<K: MapKey, T: Updatable, O, F: FnOnce(UMapUpdate<K, T>) -> O> UNested<UMap<K, T>, O, F> {
    /// The outer update that sets `key` to `value` in the addressed map.
    pub fn insert(self, key: K, value: T) -> (r: O)
        requires
            call_requires(self.apply_outer, (UMapUpdate::Insert(key, value),)),
        ensures
            call_ensures(self.apply_outer, (UMapUpdate::Insert(key, value),), r),
    {
        (self.apply_outer)(UMapUpdate::Insert(key, value))
    }

    /// The outer update that removes `key` from the addressed map.
    pub fn remove(self, key: K) -> (r: O)
        requires
            call_requires(self.apply_outer, (UMapUpdate::<K, T>::Remove(key),)),
        ensures
            call_ensures(self.apply_outer, (UMapUpdate::<K, T>::Remove(key),), r),
    {
        (self.apply_outer)(UMapUpdate::Remove(key))
    }

    /// A builder for outer updates of the value of `key` in the addressed map.
    pub fn get_mut(self, key: K) -> (r: UNested<T, O, impl FnOnce(T::Update) -> O>)
        ensures
            forall|u: T::Update|
                call_requires(self.apply_outer, (UMapUpdate::<K, T>::Nested(key, u),))
                    ==> call_requires(r.apply_outer, (u,)),
            forall|u: T::Update, o: O|
                call_ensures(r.apply_outer, (u,), o) ==> call_ensures(
                    self.apply_outer,
                    (UMapUpdate::<K, T>::Nested(key, u),),
                    o,
                ),
    {
        let outer = self.apply_outer;
        let lift = move |u| -> (o: O)
            requires
                call_requires(outer, (UMapUpdate::<K, T>::Nested(key, u),)),
            ensures
                call_ensures(outer, (UMapUpdate::<K, T>::Nested(key, u),), o),
            { outer(UMapUpdate::Nested(key, u)) };
        UNested { apply_outer: lift, inner_type: PhantomData }
    }
}

} // verus!
