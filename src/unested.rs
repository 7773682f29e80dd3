use std::marker::PhantomData;
use vstd::prelude::*;
use crate::update::Updatable;

verus! {

/// A builder for updates addressed at a position nested inside an outer
/// structure: it produces inner updates of `T` and lifts them through
/// `apply_outer` into values of type `O`.
#[verifier::reject_recursive_types(T)]
#[verifier::reject_recursive_types(O)]
pub struct UNested<T, O, F> where T: Updatable, F: FnOnce(T::Update) -> O {
    pub apply_outer: F,
    pub inner_type: PhantomData<T>,
}

} // verus!
