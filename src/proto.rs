use vstd::prelude::*;

verus! {

/// A step of a recursive call through nested `A` and `B` values.
#[derive(PartialEq, Eq, Structural, Debug)]
pub enum Visit {
    /// Arrived at `Case1` of an `A`.
    CaseOneOfA,
    /// Went through `Case2` of an `A` into the nested value.
    CaseTwoOfA,
    /// Arrived at `Case1` of a `B`.
    CaseOneOfB,
    /// Went through `Case2` of a `B` into the nested value.
    CaseTwoOfB,
}

/// A value that a call can descend through, level by level.
pub trait UpperTrait {
    /// The steps of a call on this value, outermost first.
    spec fn visits(&self) -> Seq<Visit>;

    /// Descends through the value and returns the steps taken.
    fn recursive_call(&self) -> (r: Vec<Visit>)
        ensures
            r@ == self.visits(),
    ;
}

pub enum A<T: UpperTrait> {
    Case1,
    Case2(T),
}

pub enum B<T: UpperTrait> {
    Case1,
    Case2(T),
}

/// The innermost level, where a call takes no step.
pub struct C {}

impl UpperTrait for C {
    open spec fn visits(&self) -> Seq<Visit> {
        Seq::empty()
    }

    fn recursive_call(&self) -> (r: Vec<Visit>) {
        Vec::new()
    }
}

impl<T: UpperTrait> UpperTrait for A<T> {
    open spec fn visits(&self) -> Seq<Visit> {
        match self {
            A::Case1 => seq![Visit::CaseOneOfA],
            A::Case2(nested) => seq![Visit::CaseTwoOfA] + nested.visits(),
        }
    }

    fn recursive_call(&self) -> (r: Vec<Visit>) {
        match self {
            A::Case1 => {
                let mut r: Vec<Visit> = Vec::new();
                r.push(Visit::CaseOneOfA);
                r
            },
            A::Case2(nested) => {
                let mut r: Vec<Visit> = Vec::new();
                r.push(Visit::CaseTwoOfA);
                let mut rest = nested.recursive_call();
                r.append(&mut rest);
                r
            },
        }
    }
}

impl<T: UpperTrait> UpperTrait for B<T> {
    open spec fn visits(&self) -> Seq<Visit> {
        match self {
            B::Case1 => seq![Visit::CaseOneOfB],
            B::Case2(nested) => seq![Visit::CaseTwoOfB] + nested.visits(),
        }
    }

    fn recursive_call(&self) -> (r: Vec<Visit>) {
        match self {
            B::Case1 => {
                let mut r: Vec<Visit> = Vec::new();
                r.push(Visit::CaseOneOfB);
                r
            },
            B::Case2(nested) => {
                let mut r: Vec<Visit> = Vec::new();
                r.push(Visit::CaseTwoOfB);
                let mut rest = nested.recursive_call();
                r.append(&mut rest);
                r
            },
        }
    }
}

} // verus!
