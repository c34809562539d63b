//! Owners whose identity is a lifetime that only one owner is ever given,
//! so every cell stamped with a `GenerativeId<'a>` belongs to the owner of `'a`.

use vstd::prelude::*;

use core::cmp::Ordering;
use core::marker::PhantomData;

use vstd::std_specs::cmp::{PartialEqSpecImpl, PartialOrdSpecImpl};

verus! {

struct Invariant<'a>(&'a mut &'a ());

pub type Owner<'a> = crate::Owner<Generative<'a>>;

pub type ICell<'a, T> = crate::ICell<GenerativeId<'a>, T>;

/// The id of the owner of generation `'a`.
#[derive(Debug, Hash, Ord)]
pub struct GenerativeId<'a>(PhantomData<Invariant<'a>>);

/// The identifier of the owner of generation `'a`.
#[derive(Debug, Hash, Ord)]
pub struct Generative<'a>(GenerativeId<'a>);

/// Borrows a `GenerativeId` for as long as its lifetime, so that the lifetime
/// cannot be shared with another generation.
pub struct EnforceUniqueLifetime<'a>(pub &'a GenerativeId<'a>);

impl<'a> Clone for GenerativeId<'a> {
    fn clone(&self) -> (r: Self)
        ensures
            r == *self,
    {
        *self
    }
}

impl<'a> Copy for GenerativeId<'a> {

}

impl<'a> GenerativeId<'a> {
    pub fn new() -> Self {
        GenerativeId(PhantomData)
    }
}

impl<'a> Generative<'a> {
    /// Make the identifier for generation `'a`. There must be one at most for each lifetime.
    pub fn create_new_generative(id: GenerativeId<'a>) -> (r: Self)
        ensures
            crate::Identifier::spec_id(&r) == id,
    {
        Generative(id)
    }

    /// Run `f` with a fresh owner.
    pub fn with<R, F: FnOnce(Owner) -> R>(f: F) -> (r: R)
        requires
            forall|owner: Owner| f.requires((owner,)),
        ensures
            exists|owner: Owner| f.ensures((owner,), r),
    {
        f(crate::Owner::new(Generative::create_new_generative(GenerativeId::new())))
    }
}

impl<'a> Default for GenerativeId<'a> {
    fn default() -> Self {
        GenerativeId::new()
    }
}

/// All ids of one lifetime are the same id.
impl<'a> PartialEq for GenerativeId<'a> {
    fn eq(&self, _other: &Self) -> (r: bool) {
        true
    }
}

impl<'a> PartialEqSpecImpl for GenerativeId<'a> {
    open spec fn obeys_eq_spec() -> bool {
        true
    }

    open spec fn eq_spec(&self, other: &Self) -> bool {
        true
    }
}

impl<'a> Eq for GenerativeId<'a> {

}

impl<'a> PartialOrd for GenerativeId<'a> {
    fn partial_cmp(&self, _other: &Self) -> (r: Option<Ordering>) {
        Some(Ordering::Equal)
    }
}

impl<'a> PartialOrdSpecImpl for GenerativeId<'a> {
    open spec fn obeys_partial_cmp_spec() -> bool {
        true
    }

    open spec fn partial_cmp_spec(&self, other: &Self) -> Option<Ordering> {
        Some(Ordering::Equal)
    }
}

/// There is one identifier for each lifetime, so any two compare equal.
impl<'a> PartialEq for Generative<'a> {
    fn eq(&self, _other: &Self) -> (r: bool) {
        true
    }
}

impl<'a> PartialEqSpecImpl for Generative<'a> {
    open spec fn obeys_eq_spec() -> bool {
        true
    }

    open spec fn eq_spec(&self, other: &Self) -> bool {
        true
    }
}

impl<'a> Eq for Generative<'a> {

}

impl<'a> PartialOrd for Generative<'a> {
    fn partial_cmp(&self, _other: &Self) -> (r: Option<Ordering>) {
        Some(Ordering::Equal)
    }
}

impl<'a> PartialOrdSpecImpl for Generative<'a> {
    open spec fn obeys_partial_cmp_spec() -> bool {
        true
    }

    open spec fn partial_cmp_spec(&self, other: &Self) -> Option<Ordering> {
        Some(Ordering::Equal)
    }
}

impl<'a> crate::Transparent for GenerativeId<'a> {
    fn forge() -> (r: Self) {
        GenerativeId::new()
    }
}

impl<'a> crate::Identifier for Generative<'a> {
    type Id = GenerativeId<'a>;

    closed spec fn spec_id(&self) -> GenerativeId<'a> {
        self.0
    }

    /// A lifetime is never shared, so every id of this type belongs to this owner.
    open spec fn recognizes(&self, id: GenerativeId<'a>) -> bool {
        true
    }

    fn id(&self) -> (r: GenerativeId<'a>) {
        self.0
    }

    fn check_id(&self, _id: &GenerativeId<'a>) -> (r: bool) {
        true
    }

    proof fn lemma_recognizes_own_id(&self) {
    }
}

} // verus!
