use vstd::prelude::*;
use crate::update::Updatable;

verus! {

/// A borrowed structure together with the function that frames its updates
/// as updates of an enclosing structure.
#[verifier::reject_recursive_types(O)]
pub struct StructureWrapper<'a, T, O, F> where T: Updatable, F: FnOnce(T::Update) -> O {
    pub structure: &'a T,
    pub outside_wrapper: F,
}

} // verus!
