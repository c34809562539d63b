//! Owners identified by a type: at most one owner of `Type<T>` exists at a
//! time for each `T`, so every cell stamped with a `TypeId<T>` belongs to it.

use vstd::prelude::*;

use core::cmp::Ordering;
use core::marker::PhantomData;

use vstd::std_specs::cmp::{PartialEqSpecImpl, PartialOrdSpecImpl};

pub mod macros;

verus! {

pub type Owner<Id> = crate::Owner<Type<Id>>;

pub type ICell<Id, T> = crate::ICell<TypeId<Id>, T>;

/// The id of the owner of type `T`.
#[derive(Debug, Hash, Ord)]
pub struct TypeId<T>(PhantomData<T>);

/// The identifier of the owner of type `T`, holding the value it was made from.
#[derive(Debug)]
pub struct Type<T>(T, TypeId<T>);

impl<T> TypeId<T> {
    pub fn new() -> Self {
        TypeId(PhantomData)
    }
}

impl<T> Type<T> {
    /// The value the identifier was made from.
    pub closed spec fn value(&self) -> T {
        self.0
    }

    /// Make the identifier for `T`. There must be at most one at a time for
    /// each `T` in the process.
    pub fn new_unchecked(value: T) -> (r: Self)
        ensures
            r.value() == value,
    {
        Type(value, TypeId::new())
    }
}

impl<T> Clone for TypeId<T> {
    fn clone(&self) -> (r: Self)
        ensures
            r == *self,
    {
        TypeId(PhantomData)
    }
}

impl<T> Copy for TypeId<T> {

}

impl<T> Default for TypeId<T> {
    fn default() -> Self {
        TypeId::new()
    }
}

/// All ids of one type are the same id.
impl<T> PartialEq for TypeId<T> {
    fn eq(&self, _other: &Self) -> (r: bool) {
        true
    }
}

impl<T> PartialEqSpecImpl for TypeId<T> {
    open spec fn obeys_eq_spec() -> bool {
        true
    }

    open spec fn eq_spec(&self, other: &Self) -> bool {
        true
    }
}

impl<T> Eq for TypeId<T> {

}

impl<T> PartialOrd for TypeId<T> {
    fn partial_cmp(&self, _other: &Self) -> (r: Option<Ordering>) {
        Some(Ordering::Equal)
    }
}

impl<T> PartialOrdSpecImpl for TypeId<T> {
    open spec fn obeys_partial_cmp_spec() -> bool {
        true
    }

    open spec fn partial_cmp_spec(&self, other: &Self) -> Option<Ordering> {
        Some(Ordering::Equal)
    }
}

/// There is one identifier for each type, so any two compare equal.
impl<T> PartialEq for Type<T> {
    fn eq(&self, _other: &Self) -> (r: bool) {
        true
    }
}

impl<T> PartialEqSpecImpl for Type<T> {
    open spec fn obeys_eq_spec() -> bool {
        true
    }

    open spec fn eq_spec(&self, other: &Self) -> bool {
        true
    }
}

impl<T> Eq for Type<T> {

}

impl<T> PartialOrd for Type<T> {
    fn partial_cmp(&self, _other: &Self) -> (r: Option<Ordering>) {
        Some(Ordering::Equal)
    }
}

impl<T> PartialOrdSpecImpl for Type<T> {
    open spec fn obeys_partial_cmp_spec() -> bool {
        true
    }

    open spec fn partial_cmp_spec(&self, other: &Self) -> Option<Ordering> {
        Some(Ordering::Equal)
    }
}

impl<T> crate::Transparent for TypeId<T> {
    fn forge() -> (r: Self) {
        TypeId::new()
    }
}

impl<T> crate::Identifier for Type<T> {
    type Id = TypeId<T>;

    closed spec fn spec_id(&self) -> TypeId<T> {
        self.1
    }

    /// There is one owner for `T`, so every id of this type belongs to it.
    open spec fn recognizes(&self, id: TypeId<T>) -> bool {
        true
    }

    fn id(&self) -> (r: TypeId<T>) {
        TypeId(PhantomData)
    }

    fn check_id(&self, _id: &TypeId<T>) -> (r: bool) {
        true
    }

    proof fn lemma_recognizes_own_id(&self) {
    }
}

} // verus!
