use std::marker::PhantomData;
use vstd::prelude::*;
use crate::unested::UNested;
use crate::update::Updatable;
use crate::uvec::views_of;

verus! {

/// An update of a `UStack`.
pub enum UStackUpdate<T: Updatable> {
    /// Pushes an element on top.
    Push(T),
    /// Removes the top element; an empty stack stays empty.
    Pop,
    /// Updates the top element of a stack that is not empty.
    Nested(T::Update),
}

/// A replicated stack of updatable values; the view lists the elements from
/// bottom to top.
pub struct UStack<T: Updatable> {
    stack: Vec<T>,
}

impl<T: Updatable> View for UStack<T> {
    type V = Seq<T::V>;

    closed spec fn view(&self) -> Seq<T::V> {
        views_of(self.stack@)
    }
}

impl<T: Updatable> UStack<T> {
    /// An empty stack.
    pub fn new() -> (r: Self)
        ensures
            r@ == Seq::<T::V>::empty(),
    {
        let r = UStack { stack: Vec::new() };
        assert(r@ =~= Seq::<T::V>::empty());
        r
    }

    /// The update that pushes `value`.
    pub fn push(&self, value: T) -> (r: UStackUpdate<T>)
        ensures
            r == UStackUpdate::Push(value),
    {
        UStackUpdate::Push(value)
    }

    /// The update that removes the top element.
    pub fn pop(&self) -> (r: UStackUpdate<T>)
        ensures
            r == UStackUpdate::<T>::Pop,
    {
        UStackUpdate::Pop
    }

    /// The update that applies `update` to the top element.
    pub fn create_recursive(&self, update: T::Update) -> (r: UStackUpdate<T>)
        ensures
            r == UStackUpdate::<T>::Nested(update),
    {
        UStackUpdate::Nested(update)
    }

    /// A copy of the top element.
    pub fn top(&self) -> (r: Option<T>)
        ensures
            match r {
                Some(v) => self@.len() > 0 && v@ == self@.last(),
                None => self@.len() == 0,
            },
    {
        match self.top_ref() {
            Some(v) => Some(v.duplicate()),
            None => None,
        }
    }

    /// The top element.
    pub fn top_ref(&self) -> (r: Option<&T>)
        ensures
            match r {
                Some(v) => self@.len() > 0 && v@ == self@.last(),
                None => self@.len() == 0,
            },
    {
        let n = self.stack.len();
        if n > 0 {
            Some(&self.stack[n - 1])
        } else {
            None
        }
    }

    /// Copies of the elements, from bottom to top.
    pub fn to_vec(&self) -> (r: Vec<T>)
        ensures
            views_of(r@) == self@,
    {
        let mut out: Vec<T> = Vec::new();
        let mut i: usize = 0;
        while i < self.stack.len()
            invariant
                i <= self.stack@.len(),
                out@.len() == i,
                forall|j: int| 0 <= j < i ==> (#[trigger] out@[j])@ == self.stack@[j]@,
            decreases self.stack@.len() - i,
        {
            let v = self.stack[i].duplicate();
            out.push(v);
            i += 1;
        }
        assert(views_of(out@) =~= self@);
        out
    }

    /// The number of elements.
    pub fn len(&self) -> (r: usize)
        ensures
            r == self@.len(),
    {
        self.stack.len()
    }

    /// A builder for updates of the top element.
    pub fn top_mut(&self) -> (r: UNested<T, UStackUpdate<T>, impl FnOnce(T::Update) -> UStackUpdate<T>>)
        ensures
            forall|u: T::Update| call_requires(r.apply_outer, (u,)),
            forall|u: T::Update, o: UStackUpdate<T>|
                call_ensures(r.apply_outer, (u,), o) ==> o == UStackUpdate::<T>::Nested(u),
    {
        let lift = |u| -> (o: UStackUpdate<T>)
            ensures
                o == UStackUpdate::<T>::Nested(u),
            { UStackUpdate::Nested(u) };
        UNested { apply_outer: lift, inner_type: PhantomData }
    }
}

impl<T: Updatable> Updatable for UStack<T> {
    type Update = UStackUpdate<T>;

    open spec fn can_update(v: Seq<T::V>, u: UStackUpdate<T>) -> bool {
        match u {
            UStackUpdate::Push(_) => true,
            UStackUpdate::Pop => true,
            UStackUpdate::Nested(iu) => v.len() > 0 && T::can_update(v.last(), iu),
        }
    }

    open spec fn updated(v: Seq<T::V>, u: UStackUpdate<T>) -> Seq<T::V> {
        match u {
            UStackUpdate::Push(x) => v.push(x@),
            UStackUpdate::Pop => if v.len() > 0 {
                v.drop_last()
            } else {
                v
            },
            UStackUpdate::Nested(iu) => v.update(v.len() - 1, T::updated(v.last(), iu)),
        }
    }

    open spec fn initial() -> Seq<T::V> {
        Seq::empty()
    }

    fn apply_update(&mut self, update: UStackUpdate<T>) -> (applied: bool) {
        let ghost s = self.stack@;
        match update {
            UStackUpdate::Push(value) => {
                self.stack.push(value);
                assert(self@ =~= views_of(s).push(value@));
                true
            },
            UStackUpdate::Pop => {
                if self.stack.len() > 0 {
                    self.stack.pop();
                    assert(self@ =~= views_of(s).drop_last());
                }
                true
            },
            UStackUpdate::Nested(inner) => {
                match self.stack.pop() {
                    Some(mut value) => {
                        let ok = value.apply_update(inner);
                        self.stack.push(value);
                        assert(self.stack@ =~= s.update(s.len() - 1, value));
                        assert(self@ =~= views_of(s).update(s.len() - 1, value@));
                        if !ok {
                            assert(self@ =~= views_of(s));
                        }
                        ok
                    },
                    None => false,
                }
            },
        }
    }

    fn fresh() -> (r: Self) {
        UStack::new()
    }

    fn duplicate(&self) -> (r: Self) {
        let stack = self.to_vec();
        let r = UStack { stack };
        assert(r@ =~= self@);
        r
    }
}

/// Lifting an update into a stack addresses its top element: the lifted
/// update applies exactly when the stack is not empty and the inner update
/// applies to the top, and then it updates the top alone.
pub proof fn lemma_stack_nested_lifting<T: Updatable>(v: Seq<T::V>, u: T::Update)
    ensures
        UStack::<T>::can_update(v, UStackUpdate::Nested(u)) == (v.len() > 0 && T::can_update(
            v.last(),
            u,
        )),
        v.len() > 0 ==> {
            let w = UStack::<T>::updated(v, UStackUpdate::Nested(u));
            &&& w.len() == v.len()
            &&& w.last() == T::updated(v.last(), u)
            &&& forall|j: int| 0 <= j < v.len() - 1 ==> #[trigger] w[j] == v[j]
        },
{
}

impl<T: Updatable> Default for UStack<T> {
    fn default() -> (r: Self)
        ensures
            r@ == Seq::<T::V>::empty(),
    {
        UStack::new()
    }
}

impl<T: Updatable, O, F: FnOnce(UStackUpdate<T>) -> O> UNested<UStack<T>, O, F> {
    /// The outer update that pushes `value` on the addressed stack.
    pub fn push(self, value: T) -> (r: O)
        requires
            call_requires(self.apply_outer, (UStackUpdate::Push(value),)),
        ensures
            call_ensures(self.apply_outer, (UStackUpdate::Push(value),), r),
    {
        (self.apply_outer)(UStackUpdate::Push(value))
    }

    /// The outer update that removes the top element of the addressed stack.
    pub fn pop(self) -> (r: O)
        requires
            call_requires(self.apply_outer, (UStackUpdate::<T>::Pop,)),
        ensures
            call_ensures(self.apply_outer, (UStackUpdate::<T>::Pop,), r),
    {
        (self.apply_outer)(UStackUpdate::Pop)
    }

    /// A builder for outer updates of the top element of the addressed stack.
    pub fn top_mut(self) -> (r: UNested<T, O, impl FnOnce(T::Update) -> O>)
        ensures
            forall|u: T::Update|
                call_requires(self.apply_outer, (UStackUpdate::<T>::Nested(u),))
                    ==> call_requires(r.apply_outer, (u,)),
            forall|u: T::Update, o: O|
                call_ensures(r.apply_outer, (u,), o) ==> call_ensures(
                    self.apply_outer,
                    (UStackUpdate::<T>::Nested(u),),
                    o,
                ),
    {
        let outer = self.apply_outer;
        let lift = move |u| -> (o: O)
            requires
                call_requires(outer, (UStackUpdate::<T>::Nested(u),)),
            ensures
                call_ensures(outer, (UStackUpdate::<T>::Nested(u),), o),
            { outer(UStackUpdate::Nested(u)) };
        UNested { apply_outer: lift, inner_type: PhantomData }
    }
}

} // verus!
