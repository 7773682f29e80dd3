use vstd::prelude::*;

verus! {

/// A value whose mutations are described by update values.
///
/// The view `Self::V` is the abstract state of a replica. An update `u` is
/// applicable to a replica whose view is `v` when `can_update(v, u)` holds,
/// and then takes the view to `updated(v, u)`. Containers lift the updates of
/// their elements through a `Nested` variant, so both spec functions compose
/// recursively.
pub trait Updatable: View + Sized {
    type Update;

    /// Whether `u` can be applied to a replica whose view is `v`.
    spec fn can_update(v: Self::V, u: Self::Update) -> bool;

    /// The view after applying `u` to a replica whose view is `v`.
    spec fn updated(v: Self::V, u: Self::Update) -> Self::V;

    /// The view of a freshly created replica.
    spec fn initial() -> Self::V;

    /// Applies `update` and returns whether it was applicable. An update
    /// that is not applicable (a nested update at a missing position, an
    /// insertion past the end) leaves the replica unchanged.
    fn apply_update(&mut self, update: Self::Update) -> (applied: bool)
        ensures
            applied == Self::can_update(old(self)@, update),
            applied ==> final(self)@ == Self::updated(old(self)@, update),
            !applied ==> final(self)@ == old(self)@,
    ;

    /// A freshly created replica.
    fn fresh() -> (r: Self)
        ensures
            r@ == Self::initial(),
    ;

    /// A copy of this replica.
    fn duplicate(&self) -> (r: Self)
        ensures
            r@ == self@,
    ;
}

/// A key of a replicated map: keys are told apart by their views.
pub trait MapKey: View + Sized {
    /// Whether the two keys are the same key.
    fn same_key(&self, other: &Self) -> (r: bool)
        ensures
            r == (self@ == other@),
    ;

    /// A copy of this key.
    fn copy_key(&self) -> (r: Self)
        ensures
            r@ == self@,
    ;
}

impl Updatable for bool {
    type Update = ();

    open spec fn can_update(v: bool, u: ()) -> bool {
        true
    }

    open spec fn updated(v: bool, u: ()) -> bool {
        v
    }

    open spec fn initial() -> bool {
        false
    }

    fn apply_update(&mut self, update: ()) -> (applied: bool) {
        true
    }

    fn fresh() -> (r: bool) {
        false
    }

    fn duplicate(&self) -> (r: bool) {
        *self
    }
}

impl MapKey for bool {
    fn same_key(&self, other: &bool) -> (r: bool) {
        *self == *other
    }

    fn copy_key(&self) -> (r: bool) {
        *self
    }
}

impl Updatable for char {
    type Update = ();

    open spec fn can_update(v: char, u: ()) -> bool {
        true
    }

    open spec fn updated(v: char, u: ()) -> char {
        v
    }

    open spec fn initial() -> char {
        '\0'
    }

    fn apply_update(&mut self, update: ()) -> (applied: bool) {
        true
    }

    fn fresh() -> (r: char) {
        '\0'
    }

    fn duplicate(&self) -> (r: char) {
        *self
    }
}

impl MapKey for char {
    fn same_key(&self, other: &char) -> (r: bool) {
        *self == *other
    }

    fn copy_key(&self) -> (r: char) {
        *self
    }
}

impl Updatable for i8 {
    type Update = ();

    open spec fn can_update(v: i8, u: ()) -> bool {
        true
    }

    open spec fn updated(v: i8, u: ()) -> i8 {
        v
    }

    open spec fn initial() -> i8 {
        0
    }

    fn apply_update(&mut self, update: ()) -> (applied: bool) {
        true
    }

    fn fresh() -> (r: i8) {
        0
    }

    fn duplicate(&self) -> (r: i8) {
        *self
    }
}

impl MapKey for i8 {
    fn same_key(&self, other: &i8) -> (r: bool) {
        *self == *other
    }

    fn copy_key(&self) -> (r: i8) {
        *self
    }
}

impl Updatable for i16 {
    type Update = ();

    open spec fn can_update(v: i16, u: ()) -> bool {
        true
    }

    open spec fn updated(v: i16, u: ()) -> i16 {
        v
    }

    open spec fn initial() -> i16 {
        0
    }

    fn apply_update(&mut self, update: ()) -> (applied: bool) {
        true
    }

    fn fresh() -> (r: i16) {
        0
    }

    fn duplicate(&self) -> (r: i16) {
        *self
    }
}

impl MapKey for i16 {
    fn same_key(&self, other: &i16) -> (r: bool) {
        *self == *other
    }

    fn copy_key(&self) -> (r: i16) {
        *self
    }
}

impl Updatable for i32 {
    type Update = ();

    open spec fn can_update(v: i32, u: ()) -> bool {
        true
    }

    open spec fn updated(v: i32, u: ()) -> i32 {
        v
    }

    open spec fn initial() -> i32 {
        0
    }

    fn apply_update(&mut self, update: ()) -> (applied: bool) {
        true
    }

    fn fresh() -> (r: i32) {
        0
    }

    fn duplicate(&self) -> (r: i32) {
        *self
    }
}

impl MapKey for i32 {
    fn same_key(&self, other: &i32) -> (r: bool) {
        *self == *other
    }

    fn copy_key(&self) -> (r: i32) {
        *self
    }
}

impl Updatable for i64 {
    type Update = ();

    open spec fn can_update(v: i64, u: ()) -> bool {
        true
    }

    open spec fn updated(v: i64, u: ()) -> i64 {
        v
    }

    open spec fn initial() -> i64 {
        0
    }

    fn apply_update(&mut self, update: ()) -> (applied: bool) {
        true
    }

    fn fresh() -> (r: i64) {
        0
    }

    fn duplicate(&self) -> (r: i64) {
        *self
    }
}

impl MapKey for i64 {
    fn same_key(&self, other: &i64) -> (r: bool) {
        *self == *other
    }

    fn copy_key(&self) -> (r: i64) {
        *self
    }
}

impl Updatable for i128 {
    type Update = ();

    open spec fn can_update(v: i128, u: ()) -> bool {
        true
    }

    open spec fn updated(v: i128, u: ()) -> i128 {
        v
    }

    open spec fn initial() -> i128 {
        0
    }

    fn apply_update(&mut self, update: ()) -> (applied: bool) {
        true
    }

    fn fresh() -> (r: i128) {
        0
    }

    fn duplicate(&self) -> (r: i128) {
        *self
    }
}

impl MapKey for i128 {
    fn same_key(&self, other: &i128) -> (r: bool) {
        *self == *other
    }

    fn copy_key(&self) -> (r: i128) {
        *self
    }
}

impl Updatable for isize {
    type Update = ();

    open spec fn can_update(v: isize, u: ()) -> bool {
        true
    }

    open spec fn updated(v: isize, u: ()) -> isize {
        v
    }

    open spec fn initial() -> isize {
        0
    }

    fn apply_update(&mut self, update: ()) -> (applied: bool) {
        true
    }

    fn fresh() -> (r: isize) {
        0
    }

    fn duplicate(&self) -> (r: isize) {
        *self
    }
}

impl MapKey for isize {
    fn same_key(&self, other: &isize) -> (r: bool) {
        *self == *other
    }

    fn copy_key(&self) -> (r: isize) {
        *self
    }
}

impl Updatable for u8 {
    type Update = ();

    open spec fn can_update(v: u8, u: ()) -> bool {
        true
    }

    open spec fn updated(v: u8, u: ()) -> u8 {
        v
    }

    open spec fn initial() -> u8 {
        0
    }

    fn apply_update(&mut self, update: ()) -> (applied: bool) {
        true
    }

    fn fresh() -> (r: u8) {
        0
    }

    fn duplicate(&self) -> (r: u8) {
        *self
    }
}

impl MapKey for u8 {
    fn same_key(&self, other: &u8) -> (r: bool) {
        *self == *other
    }

    fn copy_key(&self) -> (r: u8) {
        *self
    }
}

impl Updatable for u16 {
    type Update = ();

    open spec fn can_update(v: u16, u: ()) -> bool {
        true
    }

    open spec fn updated(v: u16, u: ()) -> u16 {
        v
    }

    open spec fn initial() -> u16 {
        0
    }

    fn apply_update(&mut self, update: ()) -> (applied: bool) {
        true
    }

    fn fresh() -> (r: u16) {
        0
    }

    fn duplicate(&self) -> (r: u16) {
        *self
    }
}

impl MapKey for u16 {
    fn same_key(&self, other: &u16) -> (r: bool) {
        *self == *other
    }

    fn copy_key(&self) -> (r: u16) {
        *self
    }
}

impl Updatable for u32 {
    type Update = ();

    open spec fn can_update(v: u32, u: ()) -> bool {
        true
    }

    open spec fn updated(v: u32, u: ()) -> u32 {
        v
    }

    open spec fn initial() -> u32 {
        0
    }

    fn apply_update(&mut self, update: ()) -> (applied: bool) {
        true
    }

    fn fresh() -> (r: u32) {
        0
    }

    fn duplicate(&self) -> (r: u32) {
        *self
    }
}

impl MapKey for u32 {
    fn same_key(&self, other: &u32) -> (r: bool) {
        *self == *other
    }

    fn copy_key(&self) -> (r: u32) {
        *self
    }
}

impl Updatable for u64 {
    type Update = ();

    open spec fn can_update(v: u64, u: ()) -> bool {
        true
    }

    open spec fn updated(v: u64, u: ()) -> u64 {
        v
    }

    open spec fn initial() -> u64 {
        0
    }

    fn apply_update(&mut self, update: ()) -> (applied: bool) {
        true
    }

    fn fresh() -> (r: u64) {
        0
    }

    fn duplicate(&self) -> (r: u64) {
        *self
    }
}

impl MapKey for u64 {
    fn same_key(&self, other: &u64) -> (r: bool) {
        *self == *other
    }

    fn copy_key(&self) -> (r: u64) {
        *self
    }
}

impl Updatable for u128 {
    type Update = ();

    open spec fn can_update(v: u128, u: ()) -> bool {
        true
    }

    open spec fn updated(v: u128, u: ()) -> u128 {
        v
    }

    open spec fn initial() -> u128 {
        0
    }

    fn apply_update(&mut self, update: ()) -> (applied: bool) {
        true
    }

    fn fresh() -> (r: u128) {
        0
    }

    fn duplicate(&self) -> (r: u128) {
        *self
    }
}

impl MapKey for u128 {
    fn same_key(&self, other: &u128) -> (r: bool) {
        *self == *other
    }

    fn copy_key(&self) -> (r: u128) {
        *self
    }
}

impl Updatable for usize {
    type Update = ();

    open spec fn can_update(v: usize, u: ()) -> bool {
        true
    }

    open spec fn updated(v: usize, u: ()) -> usize {
        v
    }

    open spec fn initial() -> usize {
        0
    }

    fn apply_update(&mut self, update: ()) -> (applied: bool) {
        true
    }

    fn fresh() -> (r: usize) {
        0
    }

    fn duplicate(&self) -> (r: usize) {
        *self
    }
}

impl MapKey for usize {
    fn same_key(&self, other: &usize) -> (r: bool) {
        *self == *other
    }

    fn copy_key(&self) -> (r: usize) {
        *self
    }
}

impl Updatable for String {
    type Update = ();

    open spec fn can_update(v: Seq<char>, u: ()) -> bool {
        true
    }

    open spec fn updated(v: Seq<char>, u: ()) -> Seq<char> {
        v
    }

    open spec fn initial() -> Seq<char> {
        Seq::empty()
    }

    fn apply_update(&mut self, update: ()) -> (applied: bool) {
        true
    }

    fn fresh() -> (r: String) {
        String::new()
    }

    fn duplicate(&self) -> (r: String) {
        self.clone()
    }
}

impl MapKey for String {
    fn same_key(&self, other: &String) -> (r: bool) {
        self.eq(other)
    }

    fn copy_key(&self) -> (r: String) {
        self.clone()
    }
}

} // verus!
