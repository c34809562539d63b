//! Owners identified by a type, one at a time for each `T` on each thread.
//!
//! `Type<T>` is neither `Send` nor `Sync`, so an owner stays on its thread;
//! `TypeId<T>` is both when `T` is.

use vstd::prelude::*;

use core::cmp::Ordering;
use core::marker::PhantomData;
use std::rc::Rc;

use vstd::std_specs::cmp::{PartialEqSpecImpl, PartialOrdSpecImpl};

verus! {

pub type Owner<Id> = crate::Owner<Type<Id>>;

pub type ICell<Id, T> = crate::ICell<TypeId<Id>, T>;

/// The id of the owner of type `T` on the current thread.
#[derive(Debug, Hash, Ord)]
pub struct TypeId<T>(PhantomData<T>);

/// The identifier of the owner of type `T` on the current thread.
#[derive(Debug)]
pub struct Type<T>(T, PhantomData<Rc<T>>);

impl<T> TypeId<T> {
    pub fn new() -> Self {
        TypeId(PhantomData)
    }
}

impl<T> Type<T> {
    /// The value the identifier was made from.
    pub closed spec fn value(&self) -> T {
        self.0
    }

    /// Make the identifier for `T`. There must be at most one at a time for
    /// each `T` on the current thread.
    pub fn new_unchecked(value: T) -> (r: Self)
        ensures
            r.value() == value,
    {
        Type(value, PhantomData)
    }
}

/// Whether a thread whose flag for `T` reads `taken` may make an owner of `T`.
pub open spec fn grants(taken: bool) -> bool {
    !taken
}

/// Make an owner of `T` from `value` unless the thread's flag for `T` is
/// already taken; either way the flag is taken afterwards.
pub fn try_owner<T>(taken: &mut bool, value: T) -> (r: Option<Owner<T>>)
    ensures
        r is Some <==> grants(*old(taken)),
        r matches Some(owner) ==> owner.ident().value() == value,
        *final(taken) == taken_after_try(*old(taken)),
{
    if *taken {
        None
    } else {
        *taken = true;
        Some(crate::Owner::new(Type::new_unchecked(value)))
    }
}

/// Give the thread's owner of `T` up: the flag is free again.
pub fn release(taken: &mut bool)
    ensures
        *final(taken) == taken_after_release(*old(taken)),
{
    *taken = false;
}

/// The flag that `try_owner` leaves, whatever it found: taken.
pub open spec fn taken_after_try(taken: bool) -> bool {
    true
}

/// The flag that `release` leaves, whatever it found: free.
pub open spec fn taken_after_release(taken: bool) -> bool {
    false
}

/// Whatever the thread's flag for `T` held, after `try_owner` the next
/// `try_owner` on that thread makes no owner, and after `release` the next
/// one does.
pub proof fn lemma_no_second_owner_until_release(taken: bool)
    ensures
        !grants(taken_after_try(taken)),
        grants(taken_after_release(taken)),
{
}

impl<T> Clone for TypeId<T> {
    fn clone(&self) -> (r: Self)
        ensures
            r == *self,
    {
        TypeId(PhantomData)
    }
}

impl<T> Copy for TypeId<T> {

}

impl<T> Default for TypeId<T> {
    fn default() -> Self {
        TypeId::new()
    }
}

/// All ids of one type are the same id.
impl<T> PartialEq for TypeId<T> {
    fn eq(&self, _other: &Self) -> (r: bool) {
        true
    }
}

impl<T> PartialEqSpecImpl for TypeId<T> {
    open spec fn obeys_eq_spec() -> bool {
        true
    }

    open spec fn eq_spec(&self, other: &Self) -> bool {
        true
    }
}

impl<T> Eq for TypeId<T> {

}

impl<T> PartialOrd for TypeId<T> {
    fn partial_cmp(&self, _other: &Self) -> (r: Option<Ordering>) {
        Some(Ordering::Equal)
    }
}

impl<T> PartialOrdSpecImpl for TypeId<T> {
    open spec fn obeys_partial_cmp_spec() -> bool {
        true
    }

    open spec fn partial_cmp_spec(&self, other: &Self) -> Option<Ordering> {
        Some(Ordering::Equal)
    }
}

/// There is one identifier for each type, so any two compare equal.
impl<T> PartialEq for Type<T> {
    fn eq(&self, _other: &Self) -> (r: bool) {
        true
    }
}

impl<T> PartialEqSpecImpl for Type<T> {
    open spec fn obeys_eq_spec() -> bool {
        true
    }

    open spec fn eq_spec(&self, other: &Self) -> bool {
        true
    }
}

impl<T> Eq for Type<T> {

}

impl<T> PartialOrd for Type<T> {
    fn partial_cmp(&self, _other: &Self) -> (r: Option<Ordering>) {
        Some(Ordering::Equal)
    }
}

impl<T> PartialOrdSpecImpl for Type<T> {
    open spec fn obeys_partial_cmp_spec() -> bool {
        true
    }

    open spec fn partial_cmp_spec(&self, other: &Self) -> Option<Ordering> {
        Some(Ordering::Equal)
    }
}

impl<T> crate::Transparent for TypeId<T> {
    fn forge() -> (r: Self) {
        TypeId::new()
    }
}

impl<T> crate::Identifier for Type<T> {
    type Id = TypeId<T>;

    closed spec fn spec_id(&self) -> TypeId<T> {
        TypeId(PhantomData)
    }

    /// There is one owner for `T` on the thread, so every id of this type belongs to it.
    open spec fn recognizes(&self, id: TypeId<T>) -> bool {
        true
    }

    fn id(&self) -> (r: TypeId<T>) {
        TypeId(PhantomData)
    }

    fn check_id(&self, _id: &TypeId<T>) -> (r: bool) {
        true
    }

    proof fn lemma_recognizes_own_id(&self) {
    }
}

} // verus!
