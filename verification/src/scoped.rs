//! Owners whose identity is a lifetime: every owner lives in its own scope,
//! so every cell stamped with a `ScopedId<'a>` belongs to the owner of `'a`.

use vstd::prelude::*;

use core::cmp::Ordering;
use core::marker::PhantomData;

use vstd::std_specs::cmp::{PartialEqSpecImpl, PartialOrdSpecImpl};

verus! {

/// Run `f` with a fresh owner whose lifetime no other owner shares.
pub fn with<F: FnOnce(Owner) -> R, R>(f: F) -> (r: R)
    requires
        forall|owner: Owner| f.requires((owner,)),
    ensures
        exists|owner: Owner| f.ensures((owner,), r),
{
    Scoped::with(f)
}

struct Invariant<'a>(&'a mut &'a ());

pub type Owner<'a> = crate::Owner<Scoped<'a>>;

pub type ICell<'a, T> = crate::ICell<ScopedId<'a>, T>;

/// The id of the owner of scope `'a`.
#[derive(Debug, Hash, Ord)]
pub struct ScopedId<'a>(PhantomData<Invariant<'a>>);

/// The identifier of the owner of scope `'a`.
#[derive(Debug, Hash, Ord)]
pub struct Scoped<'a>(ScopedId<'a>);

/// Borrows a `ScopedId` for as long as its lifetime, so that the lifetime
/// cannot be shared with another scope.
pub struct EnforceUniqueLifetime<'a>(pub &'a ScopedId<'a>);

impl<'a> Clone for ScopedId<'a> {
    fn clone(&self) -> (r: Self)
        ensures
            r == *self,
    {
        *self
    }
}

impl<'a> Copy for ScopedId<'a> {

}

impl<'a> ScopedId<'a> {
    pub fn new() -> Self {
        ScopedId(PhantomData)
    }
}

impl<'a> Scoped<'a> {
    /// Make the identifier for scope `'a`. There must be one at most for each lifetime.
    pub fn create_new_scoped(id: ScopedId<'a>) -> (r: Self)
        ensures
            crate::Identifier::spec_id(&r) == id,
    {
        Scoped(id)
    }

    /// Run `f` with a fresh owner.
    pub fn with<R, F: FnOnce(Owner) -> R>(f: F) -> (r: R)
        requires
            forall|owner: Owner| f.requires((owner,)),
        ensures
            exists|owner: Owner| f.ensures((owner,), r),
    {
        f(crate::Owner::new(Scoped::create_new_scoped(ScopedId::new())))
    }
}

impl<'a> Default for ScopedId<'a> {
    fn default() -> Self {
        ScopedId::new()
    }
}

/// All ids of one lifetime are the same id.
impl<'a> PartialEq for ScopedId<'a> {
    fn eq(&self, _other: &Self) -> (r: bool) {
        true
    }
}

impl<'a> PartialEqSpecImpl for ScopedId<'a> {
    open spec fn obeys_eq_spec() -> bool {
        true
    }

    open spec fn eq_spec(&self, other: &Self) -> bool {
        true
    }
}

impl<'a> Eq for ScopedId<'a> {

}

impl<'a> PartialOrd for ScopedId<'a> {
    fn partial_cmp(&self, _other: &Self) -> (r: Option<Ordering>) {
        Some(Ordering::Equal)
    }
}

impl<'a> PartialOrdSpecImpl for ScopedId<'a> {
    open spec fn obeys_partial_cmp_spec() -> bool {
        true
    }

    open spec fn partial_cmp_spec(&self, other: &Self) -> Option<Ordering> {
        Some(Ordering::Equal)
    }
}

/// There is one identifier for each lifetime, so any two compare equal.
impl<'a> PartialEq for Scoped<'a> {
    fn eq(&self, _other: &Self) -> (r: bool) {
        true
    }
}

impl<'a> PartialEqSpecImpl for Scoped<'a> {
    open spec fn obeys_eq_spec() -> bool {
        true
    }

    open spec fn eq_spec(&self, other: &Self) -> bool {
        true
    }
}

impl<'a> Eq for Scoped<'a> {

}

impl<'a> PartialOrd for Scoped<'a> {
    fn partial_cmp(&self, _other: &Self) -> (r: Option<Ordering>) {
        Some(Ordering::Equal)
    }
}

impl<'a> PartialOrdSpecImpl for Scoped<'a> {
    open spec fn obeys_partial_cmp_spec() -> bool {
        true
    }

    open spec fn partial_cmp_spec(&self, other: &Self) -> Option<Ordering> {
        Some(Ordering::Equal)
    }
}

impl<'a> crate::Transparent for ScopedId<'a> {
    fn forge() -> (r: Self) {
        ScopedId::new()
    }
}

impl<'a> crate::Identifier for Scoped<'a> {
    type Id = ScopedId<'a>;

    closed spec fn spec_id(&self) -> ScopedId<'a> {
        self.0
    }

    /// A lifetime is never shared, so every id of this type belongs to this owner.
    open spec fn recognizes(&self, id: ScopedId<'a>) -> bool {
        true
    }

    fn id(&self) -> (r: ScopedId<'a>) {
        self.0
    }

    fn check_id(&self, _id: &ScopedId<'a>) -> (r: bool) {
        true
    }

    proof fn lemma_recognizes_own_id(&self) {
    }
}

} // verus!
