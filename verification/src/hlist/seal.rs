use vstd::prelude::*;

use super::{Cons, Nil};
use crate::cells::{ICell, Identifier};

verus! {

/// Checks that every cell of a list carries an id that the identifier recognizes.
pub trait ValidateId<I: Identifier> {
    /// Every cell's id is recognized by `id`.
    spec fn valid_for(&self, id: I) -> bool;

    fn validate_id(&self, id: &I) -> (r: bool)
        ensures
            r == self.valid_for(*id),
    ;
}

/// Opens every cell of a list for writing, without asking an owner.
pub trait GetMutUnchecked: Sized {
    type Output;

    /// Each entry of `out` holds what the matching cell of `self` held.
    spec fn delivers(self, out: Self::Output) -> bool;

    fn get_mut_unchecked(self) -> (r: Self::Output)
        ensures
            self.delivers(r),
    ;
}

impl<'a, T, R: ValidateId<I>, I: Identifier> ValidateId<I> for Cons<&'a mut ICell<I::Id, T>, R> {
    open spec fn valid_for(&self, id: I) -> bool {
        id.recognizes(self.0.spec_id()) && self.1.valid_for(id)
    }

    fn validate_id(&self, id: &I) -> (r: bool) {
        let Cons(cell, rest) = self;
        id.check_id(cell.id()) && rest.validate_id(id)
    }
}

impl<I: Identifier> ValidateId<I> for Nil {
    open spec fn valid_for(&self, id: I) -> bool {
        true
    }

    fn validate_id(&self, _id: &I) -> (r: bool) {
        true
    }
}

impl<'a, Id, T: 'a, R: GetMutUnchecked> GetMutUnchecked for Cons<&'a mut ICell<Id, T>, R> {
    type Output = Cons<&'a mut T, R::Output>;

    open spec fn delivers(self, out: Self::Output) -> bool {
        &&& *out.0 == self.0.value()
        &&& self.1.delivers(out.1)
    }

    fn get_mut_unchecked(self) -> (r: Self::Output) {
        let Cons(cell, rest) = self;
        let rest_out = rest.get_mut_unchecked();
        Cons(cell.get_mut(), rest_out)
    }
}

impl GetMutUnchecked for Nil {
    type Output = Nil;

    open spec fn delivers(self, out: Nil) -> bool {
        true
    }

    fn get_mut_unchecked(self) -> (r: Nil) {
        Nil
    }
}

} // verus!
