use std::marker::PhantomData;
use vstd::prelude::*;
use crate::unested::UNested;
use crate::update::Updatable;

verus! {

/// An update of a `UVec`.
pub enum UVecUpdate<T: Updatable> {
    /// Removes every element.
    Clear,
    /// Inserts an element at an index no greater than the length.
    Insert(usize, T),
    /// Removes the last element; an empty vector stays empty.
    Pop,
    /// Appends an element.
    Push(T),
    /// Removes the element at an index below the length.
    Remove(usize),
    /// Updates the element at an index below the length.
    Nested(usize, T::Update),
}

/// A replicated vector of updatable values.
pub struct UVec<T: Updatable> {
    vec: Vec<T>,
}

/// The views of a sequence of values.
pub open spec fn views_of<T: View>(s: Seq<T>) -> Seq<T::V> {
    s.map_values(|t: T| t@)
}

impl<T: Updatable> View for UVec<T> {
    type V = Seq<T::V>;

    closed spec fn view(&self) -> Seq<T::V> {
        views_of(self.vec@)
    }
}

impl<T: Updatable> UVec<T> {
    /// An empty vector.
    pub fn new() -> (r: Self)
        ensures
            r@ == Seq::<T::V>::empty(),
    {
        let r = UVec { vec: Vec::new() };
        assert(r@ =~= Seq::<T::V>::empty());
        r
    }

    /// The update that removes every element.
    pub fn clear(&self) -> (r: UVecUpdate<T>)
        ensures
            r == UVecUpdate::<T>::Clear,
    {
        UVecUpdate::Clear
    }

    /// The update that inserts `value` at `index`.
    pub fn insert(&self, index: usize, value: T) -> (r: UVecUpdate<T>)
        ensures
            r == UVecUpdate::Insert(index, value),
    {
        UVecUpdate::Insert(index, value)
    }

    /// The update that removes the element at `index`.
    pub fn remove(&self, index: usize) -> (r: UVecUpdate<T>)
        ensures
            r == UVecUpdate::<T>::Remove(index),
    {
        UVecUpdate::Remove(index)
    }

    /// The update that appends `value`.
    pub fn push(&self, value: T) -> (r: UVecUpdate<T>)
        ensures
            r == UVecUpdate::Push(value),
    {
        UVecUpdate::Push(value)
    }

    /// The update that removes the last element.
    pub fn pop(&self) -> (r: UVecUpdate<T>)
        ensures
            r == UVecUpdate::<T>::Pop,
    {
        UVecUpdate::Pop
    }

    /// The update that applies `update` to the element at `index`.
    pub fn create_recursive(&self, index: usize, update: T::Update) -> (r: UVecUpdate<T>)
        ensures
            r == UVecUpdate::<T>::Nested(index, update),
    {
        UVecUpdate::Nested(index, update)
    }

    /// Copies of the elements, in order.
    pub fn to_vec(&self) -> (r: Vec<T>)
        ensures
            views_of(r@) == self@,
    {
        let mut out: Vec<T> = Vec::new();
        let mut i: usize = 0;
        while i < self.vec.len()
            invariant
                i <= self.vec@.len(),
                out@.len() == i,
                forall|j: int| 0 <= j < i ==> (#[trigger] out@[j])@ == self.vec@[j]@,
            decreases self.vec@.len() - i,
        {
            let v = self.vec[i].duplicate();
            out.push(v);
            i += 1;
        }
        assert(views_of(out@) =~= self@);
        out
    }

    /// The number of elements.
    pub fn len(&self) -> (r: usize)
        ensures
            r == self@.len(),
    {
        self.vec.len()
    }

    /// A copy of the element at `index`.
    pub fn get(&self, index: usize) -> (r: Option<T>)
        ensures
            match r {
                Some(v) => index < self@.len() && v@ == self@[index as int],
                None => index >= self@.len(),
            },
    {
        match self.get_ref(index) {
            Some(v) => Some(v.duplicate()),
            None => None,
        }
    }

    /// The element at `index`.
    pub fn get_ref(&self, index: usize) -> (r: Option<&T>)
        ensures
            match r {
                Some(v) => index < self@.len() && v@ == self@[index as int],
                None => index >= self@.len(),
            },
    {
        if index < self.vec.len() {
            Some(&self.vec[index])
        } else {
            None
        }
    }

    /// A copy of the last element.
    pub fn last(&self) -> (r: Option<T>)
        ensures
            match r {
                Some(v) => self@.len() > 0 && v@ == self@.last(),
                None => self@.len() == 0,
            },
    {
        let n = self.vec.len();
        if n > 0 {
            self.get(n - 1)
        } else {
            None
        }
    }

    /// Whether the vector has no element.
    pub fn is_empty(&self) -> (r: bool)
        ensures
            r == (self@.len() == 0),
    {
        self.vec.len() == 0
    }

    /// A builder for updates of the element at `index`.
    pub fn get_mut(&self, index: usize) -> (r: UNested<
        T,
        UVecUpdate<T>,
        impl FnOnce(T::Update) -> UVecUpdate<T>,
    >)
        ensures
            forall|u: T::Update| call_requires(r.apply_outer, (u,)),
            forall|u: T::Update, o: UVecUpdate<T>|
                call_ensures(r.apply_outer, (u,), o) ==> o == UVecUpdate::<T>::Nested(index, u),
    {
        let lift = move |u| -> (o: UVecUpdate<T>)
            ensures
                o == UVecUpdate::<T>::Nested(index, u),
            { UVecUpdate::Nested(index, u) };
        UNested { apply_outer: lift, inner_type: PhantomData }
    }
}

impl<T: Updatable> Updatable for UVec<T> {
    type Update = UVecUpdate<T>;

    open spec fn can_update(v: Seq<T::V>, u: UVecUpdate<T>) -> bool {
        match u {
            UVecUpdate::Clear => true,
            UVecUpdate::Insert(i, _) => i <= v.len(),
            UVecUpdate::Pop => true,
            UVecUpdate::Push(_) => true,
            UVecUpdate::Remove(i) => i < v.len(),
            UVecUpdate::Nested(i, iu) => i < v.len() && T::can_update(v[i as int], iu),
        }
    }

    open spec fn updated(v: Seq<T::V>, u: UVecUpdate<T>) -> Seq<T::V> {
        match u {
            UVecUpdate::Clear => Seq::empty(),
            UVecUpdate::Insert(i, x) => v.insert(i as int, x@),
            UVecUpdate::Pop => if v.len() > 0 {
                v.drop_last()
            } else {
                v
            },
            UVecUpdate::Push(x) => v.push(x@),
            UVecUpdate::Remove(i) => v.remove(i as int),
            UVecUpdate::Nested(i, iu) => v.update(i as int, T::updated(v[i as int], iu)),
        }
    }

    open spec fn initial() -> Seq<T::V> {
        Seq::empty()
    }

    fn apply_update(&mut self, update: UVecUpdate<T>) -> (applied: bool) {
        let ghost s = self.vec@;
        match update {
            UVecUpdate::Clear => {
                self.vec.clear();
                assert(self@ =~= Seq::<T::V>::empty());
                true
            },
            UVecUpdate::Insert(index, value) => {
                if index <= self.vec.len() {
                    self.vec.insert(index, value);
                    assert(self@ =~= views_of(s).insert(index as int, value@));
                    true
                } else {
                    false
                }
            },
            UVecUpdate::Pop => {
                if self.vec.len() > 0 {
                    self.vec.pop();
                    assert(self@ =~= views_of(s).drop_last());
                }
                true
            },
            UVecUpdate::Push(value) => {
                self.vec.push(value);
                assert(self@ =~= views_of(s).push(value@));
                true
            },
            UVecUpdate::Remove(index) => {
                if index < self.vec.len() {
                    self.vec.remove(index);
                    assert(self@ =~= views_of(s).remove(index as int));
                    true
                } else {
                    false
                }
            },
            UVecUpdate::Nested(index, inner) => {
                if index < self.vec.len() {
                    let mut value = self.vec.remove(index);
                    let ok = value.apply_update(inner);
                    self.vec.insert(index, value);
                    assert(self.vec@ =~= s.update(index as int, value));
                    assert(self@ =~= views_of(s).update(index as int, value@));
                    if !ok {
                        assert(self@ =~= views_of(s));
                    }
                    ok
                } else {
                    false
                }
            },
        }
    }

    fn fresh() -> (r: Self) {
        UVec::new()
    }

    fn duplicate(&self) -> (r: Self) {
        let vec = self.to_vec();
        let r = UVec { vec };
        assert(r@ =~= self@);
        r
    }
}

/// Lifting an update into a vector addresses the element at its index: the
/// lifted update applies exactly when the index is in range and the inner
/// update applies to that element, and then it updates that element alone.
pub proof fn lemma_vec_nested_lifting<T: Updatable>(v: Seq<T::V>, index: usize, u: T::Update)
    ensures
        UVec::<T>::can_update(v, UVecUpdate::Nested(index, u)) == (index < v.len()
            && T::can_update(v[index as int], u)),
        index < v.len() ==> {
            let w = UVec::<T>::updated(v, UVecUpdate::Nested(index, u));
            &&& w.len() == v.len()
            &&& w[index as int] == T::updated(v[index as int], u)
            &&& forall|j: int| 0 <= j < v.len() && j != index ==> #[trigger] w[j] == v[j]
        },
{
}

impl<T: Updatable> Default for UVec<T> {
    fn default() -> (r: Self)
        ensures
            r@ == Seq::<T::V>::empty(),
    {
        UVec::new()
    }
}

impl<T: Updatable, O, F: FnOnce(UVecUpdate<T>) -> O> UNested<UVec<T>, O, F> {
    /// The outer update that clears the addressed vector.
    pub fn clear(self) -> (r: O)
        requires
            call_requires(self.apply_outer, (UVecUpdate::<T>::Clear,)),
        ensures
            call_ensures(self.apply_outer, (UVecUpdate::<T>::Clear,), r),
    {
        (self.apply_outer)(UVecUpdate::Clear)
    }

    /// The outer update that inserts `value` at `index` in the addressed vector.
    pub fn insert(self, index: usize, value: T) -> (r: O)
        requires
            call_requires(self.apply_outer, (UVecUpdate::Insert(index, value),)),
        ensures
            call_ensures(self.apply_outer, (UVecUpdate::Insert(index, value),), r),
    {
        (self.apply_outer)(UVecUpdate::Insert(index, value))
    }

    /// The outer update that removes the element at `index` of the addressed vector.
    pub fn remove(self, index: usize) -> (r: O)
        requires
            call_requires(self.apply_outer, (UVecUpdate::<T>::Remove(index),)),
        ensures
            call_ensures(self.apply_outer, (UVecUpdate::<T>::Remove(index),), r),
    {
        (self.apply_outer)(UVecUpdate::Remove(index))
    }

    /// The outer update that appends `value` to the addressed vector.
    pub fn push(self, value: T) -> (r: O)
        requires
            call_requires(self.apply_outer, (UVecUpdate::Push(value),)),
        ensures
            call_ensures(self.apply_outer, (UVecUpdate::Push(value),), r),
    {
        (self.apply_outer)(UVecUpdate::Push(value))
    }

    /// The outer update that removes the last element of the addressed vector.
    pub fn pop(self) -> (r: O)
        requires
            call_requires(self.apply_outer, (UVecUpdate::<T>::Pop,)),
        ensures
            call_ensures(self.apply_outer, (UVecUpdate::<T>::Pop,), r),
    {
        (self.apply_outer)(UVecUpdate::Pop)
    }

    /// A builder for outer updates of the element at `index` of the addressed vector.
    pub fn get_mut(self, index: usize) -> (r: UNested<T, O, impl FnOnce(T::Update) -> O>)
        ensures
            forall|u: T::Update|
                call_requires(self.apply_outer, (UVecUpdate::<T>::Nested(index, u),))
                    ==> call_requires(r.apply_outer, (u,)),
            forall|u: T::Update, o: O|
                call_ensures(r.apply_outer, (u,), o) ==> call_ensures(
                    self.apply_outer,
                    (UVecUpdate::<T>::Nested(index, u),),
                    o,
                ),
    {
        let outer = self.apply_outer;
        let lift = move |u| -> (o: O)
            requires
                call_requires(outer, (UVecUpdate::<T>::Nested(index, u),)),
            ensures
                call_ensures(outer, (UVecUpdate::<T>::Nested(index, u),), o),
            { outer(UVecUpdate::Nested(index, u)) };
        UNested { apply_outer: lift, inner_type: PhantomData }
    }
}

} // verus!
