//! Lists of cells built from `Cons` and `Nil`, which an owner opens for
//! writing all at once.
//!
//! The list holds `&mut` borrows of its cells, so no cell can appear twice and
//! there is no check for aliasing cells. The contract of `get_mut` says what
//! each returned reference holds; it does not follow writes through them back
//! to the cells.

use vstd::prelude::*;

use crate::cells::{ICell, Identifier};

mod seal;

pub use self::seal::{GetMutUnchecked, ValidateId};

verus! {

/// A non-empty list: a head and the rest.
pub struct Cons<T, N>(pub T, pub N);

/// The empty list.
pub struct Nil;

/// A list of cells that an owner can open for writing all at once.
pub trait GetMut<I: Identifier>: Sized {
    type Output;

    /// Every cell of the list carries an id that `owner` recognizes.
    spec fn valid_for_owner(&self, owner: I) -> bool;

    /// Each entry of `out` holds what the matching cell of `self` held.
    spec fn delivers_all(self, out: Self::Output) -> bool;

    fn get_mut(self, owner: &I) -> (r: Self::Output)
        requires
            self.valid_for_owner(*owner),
        ensures
            self.delivers_all(r),
    ;
}

impl<'a, T: 'a, R, I> GetMut<I> for Cons<&'a mut ICell<I::Id, T>, R> where
    I: Identifier,
    R: ValidateId<I> + GetMutUnchecked,
 {
    type Output = Cons<&'a mut T, R::Output>;

    open spec fn valid_for_owner(&self, owner: I) -> bool {
        self.valid_for(owner)
    }

    open spec fn delivers_all(self, out: Self::Output) -> bool {
        self.delivers(out)
    }

    fn get_mut(self, owner: &I) -> (r: Self::Output) {
        let valid = if self.validate_id(owner) {
            Some(())
        } else {
            None
        };
        valid.expect("Tried to access a cell with an unrelated owner");
        self.get_mut_unchecked()
    }
}

impl<I: Identifier> GetMut<I> for Nil {
    type Output = Nil;

    open spec fn valid_for_owner(&self, owner: I) -> bool {
        true
    }

    open spec fn delivers_all(self, out: Nil) -> bool {
        true
    }

    fn get_mut(self, _owner: &I) -> (r: Nil) {
        Nil
    }
}

} // verus!
