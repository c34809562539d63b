//! Owners and cells.
//!
//! A cell is written through `&mut ICell`: exclusive access to the cell
//! stands in for interior mutability, so two writes never alias and no
//! address checks are needed. A cell therefore hands out no raw pointer and
//! has no unsized form, and there are no views of a cell of a slice as a
//! slice of cells. Accesses still check at run time that the owner
//! recognizes the cell, and panic with a message naming the access when
//! called against their `requires` from unverified code.

use vstd::prelude::*;

use crate::hlist::GetMut;

verus! {

/// Represents a unique identifier that can be used by an `Owner` to recognize an `ICell`.
///
/// `spec_id` is the id that the identifier stamps on new cells, and
/// `recognizes` says which ids it accepts; every identifier accepts its own id.
pub trait Identifier: Sized {
    /// The ICell identifier that this `Identifier` recognizes.
    type Id;

    /// The id handed out by `id`.
    spec fn spec_id(&self) -> Self::Id;

    /// Whether this identifier accepts cells carrying `id`.
    spec fn recognizes(&self, id: Self::Id) -> bool;

    /// Get an instance in `Self::Id` that `check_id` will recognize.
    fn id(&self) -> (r: Self::Id)
        ensures
            r == self.spec_id(),
    ;

    /// Check if the given `Self::Id` matches this `Identifier`.
    fn check_id(&self, id: &Self::Id) -> (r: bool)
        ensures
            r == self.recognizes(*id),
    ;

    /// An identifier recognizes the id it hands out.
    proof fn lemma_recognizes_own_id(&self)
        ensures
            self.recognizes(self.spec_id()),
    ;
}

/// An `Identifier::Id` that can be forged from the void: every value of it is
/// as good as any other.
pub trait Transparent: Copy + Sized {
    /// Produce a value of the id.
    fn forge() -> Self;
}

/// An owner that can be used to access the contents of an `ICell`.
pub struct Owner<I> {
    ident: I,
}

/// A sort of `Cell` that must be accessed with an `Owner`.
pub struct ICell<Id, T> {
    id: Id,
    value: T,
}

impl<O> Owner<O> {
    /// The identifier held by the owner.
    pub closed spec fn ident(&self) -> O {
        self.ident
    }

    pub fn new(ident: O) -> (r: Self)
        ensures
            r.ident() == ident,
    {
        Owner { ident }
    }

    /// Give back the identifier held by the owner.
    pub fn into_ident(self) -> (r: O)
        ensures
            r == self.ident(),
    {
        self.ident
    }
}

impl<I: Identifier> Owner<I> {
    /// The owner may reach the contents of `cell`: its identifier recognizes the cell's id.
    pub open spec fn owns<T>(&self, cell: &ICell<I::Id, T>) -> bool {
        self.ident().recognizes(cell.spec_id())
    }

    /// Create a cell holding `value`, stamped with this owner's id.
    pub fn cell<T>(&self, value: T) -> (r: ICell<I::Id, T>)
        ensures
            r.spec_id() == self.ident().spec_id(),
            r.value() == value,
            self.owns(&r),
    {
        proof {
            self.ident.lemma_recognizes_own_id();
        }
        ICell::from_raw_parts(self.ident.id(), value)
    }

    /// Read the contents of a cell that this owner recognizes.
    pub fn read<'a, T>(&'a self, cell: &'a ICell<I::Id, T>) -> (r: &'a T)
        requires
            self.owns(cell),
        ensures
            *r == cell.value(),
    {
        let related = if self.ident.check_id(&cell.id) {
            Some(())
        } else {
            None
        };
        related.expect("Tried to read using an unrelated owner");
        &cell.value
    }

    /// Exchange the contents of two cells that this owner recognizes.
    pub fn swap<T>(&mut self, a: &mut ICell<I::Id, T>, b: &mut ICell<I::Id, T>)
        requires
            old(self).owns(old(a)),
            old(self).owns(old(b)),
        ensures
            *final(self) == *old(self),
            swapped(*old(a), *old(b), *final(a), *final(b)),
    {
        let related = if self.ident.check_id(&a.id) && self.ident.check_id(&b.id) {
            Some(())
        } else {
            None
        };
        related.expect("Tried to swap using an unrelated owner");
        core::mem::swap(&mut a.value, &mut b.value);
    }

    /// Gain write access to the contents of a cell that this owner recognizes.
    pub fn write<'a, T>(&'a mut self, cell: &'a mut ICell<I::Id, T>) -> (r: &'a mut T)
        requires
            old(self).owns(old(cell)),
        ensures
            *final(self) == *old(self),
            *r == old(cell).value(),
            final(cell).value() == *final(r),
            final(cell).spec_id() == old(cell).spec_id(),
    {
        let related = if self.ident.check_id(&cell.id) {
            Some(())
        } else {
            None
        };
        related.expect("Tried to write using an unrelated owner");
        &mut cell.value
    }

    /// Gain write access to two cells at once.
    pub fn write_2<'a, T, U>(
        &'a mut self,
        a: &'a mut ICell<I::Id, T>,
        b: &'a mut ICell<I::Id, U>,
    ) -> (r: (&'a mut T, &'a mut U))
        requires
            old(self).owns(old(a)),
            old(self).owns(old(b)),
        ensures
            *final(self) == *old(self),
            *r.0 == old(a).value(),
            *r.1 == old(b).value(),
            final(a).value() == *final(r.0),
            final(b).value() == *final(r.1),
            final(a).spec_id() == old(a).spec_id(),
            final(b).spec_id() == old(b).spec_id(),
    {
        let related = if self.ident.check_id(&a.id) && self.ident.check_id(&b.id) {
            Some(())
        } else {
            None
        };
        related.expect("Tried to access a cell with an unrelated owner");
        (&mut a.value, &mut b.value)
    }

    /// Gain write access to three cells at once.
    pub fn write_3<'a, T, U, V>(
        &'a mut self,
        a: &'a mut ICell<I::Id, T>,
        b: &'a mut ICell<I::Id, U>,
        c: &'a mut ICell<I::Id, V>,
    ) -> (r: (&'a mut T, &'a mut U, &'a mut V))
        requires
            old(self).owns(old(a)),
            old(self).owns(old(b)),
            old(self).owns(old(c)),
        ensures
            *final(self) == *old(self),
            *r.0 == old(a).value(),
            *r.1 == old(b).value(),
            *r.2 == old(c).value(),
            final(a).value() == *final(r.0),
            final(b).value() == *final(r.1),
            final(c).value() == *final(r.2),
            final(a).spec_id() == old(a).spec_id(),
            final(b).spec_id() == old(b).spec_id(),
            final(c).spec_id() == old(c).spec_id(),
    {
        let related = if self.ident.check_id(&a.id) && self.ident.check_id(&b.id) && self.ident.check_id(&c.id) {
            Some(())
        } else {
            None
        };
        related.expect("Tried to access a cell with an unrelated owner");
        (&mut a.value, &mut b.value, &mut c.value)
    }

    /// Gain write access to four cells at once.
    pub fn write_4<'a, T, U, V, W>(
        &'a mut self,
        a: &'a mut ICell<I::Id, T>,
        b: &'a mut ICell<I::Id, U>,
        c: &'a mut ICell<I::Id, V>,
        d: &'a mut ICell<I::Id, W>,
    ) -> (r: (&'a mut T, &'a mut U, &'a mut V, &'a mut W))
        requires
            old(self).owns(old(a)),
            old(self).owns(old(b)),
            old(self).owns(old(c)),
            old(self).owns(old(d)),
        ensures
            *final(self) == *old(self),
            *r.0 == old(a).value(),
            *r.1 == old(b).value(),
            *r.2 == old(c).value(),
            *r.3 == old(d).value(),
            final(a).value() == *final(r.0),
            final(b).value() == *final(r.1),
            final(c).value() == *final(r.2),
            final(d).value() == *final(r.3),
            final(a).spec_id() == old(a).spec_id(),
            final(b).spec_id() == old(b).spec_id(),
            final(c).spec_id() == old(c).spec_id(),
            final(d).spec_id() == old(d).spec_id(),
    {
        let related = if self.ident.check_id(&a.id) && self.ident.check_id(&b.id) && self.ident.check_id(&c.id) && self.ident.check_id(&d.id) {
            Some(())
        } else {
            None
        };
        related.expect("Tried to access a cell with an unrelated owner");
        (&mut a.value, &mut b.value, &mut c.value, &mut d.value)
    }

    /// Gain write access to every cell of a list built from `Cons` and `Nil`.
    pub fn write_all<C: GetMut<I>>(&mut self, cells: C) -> (r: C::Output)
        requires
            cells.valid_for_owner(old(self).ident()),
        ensures
            *final(self) == *old(self),
            cells.delivers_all(r),
    {
        cells.get_mut(&self.ident)
    }
}

/// `a2` and `b2` are `a` and `b` with their contents exchanged.
pub open spec fn swapped<Id, T>(a: ICell<Id, T>, b: ICell<Id, T>, a2: ICell<Id, T>, b2: ICell<Id, T>) -> bool {
    &&& a2.value() == b.value()
    &&& b2.value() == a.value()
    &&& a2.spec_id() == a.spec_id()
    &&& b2.spec_id() == b.spec_id()
}

/// Exchanging the contents of two cells twice leaves both cells as they were.
pub proof fn lemma_swap_twice<Id, T>(
    a: ICell<Id, T>,
    b: ICell<Id, T>,
    a1: ICell<Id, T>,
    b1: ICell<Id, T>,
    a2: ICell<Id, T>,
    b2: ICell<Id, T>,
)
    requires
        swapped(a, b, a1, b1),
        swapped(a1, b1, a2, b2),
    ensures
        a2 == a,
        b2 == b,
{
}

/// A cell keeps its id when its contents are written, so the owner that was
/// allowed to write it may read it afterwards.
pub proof fn lemma_written_cell_stays_owned<I: Identifier, T>(
    owner: Owner<I>,
    before: ICell<I::Id, T>,
    after: ICell<I::Id, T>,
)
    requires
        owner.owns(&before),
        after.spec_id() == before.spec_id(),
    ensures
        owner.owns(&after),
{
}

/// An owner accepts every cell it makes.
pub proof fn lemma_owner_owns_its_cells<I: Identifier, T>(owner: Owner<I>, cell: ICell<I::Id, T>)
    requires
        cell.spec_id() == owner.ident().spec_id(),
    ensures
        owner.owns(&cell),
{
    owner.ident().lemma_recognizes_own_id();
}

impl<Id, T> ICell<Id, T> {
    /// The id the cell carries.
    pub closed spec fn spec_id(&self) -> Id {
        self.id
    }

    /// The contents of the cell.
    pub closed spec fn value(&self) -> T {
        self.value
    }

    /// Build a cell from an id and a value.
    pub fn from_raw_parts(id: Id, value: T) -> (r: Self)
        ensures
            r.spec_id() == id,
            r.value() == value,
    {
        ICell { id, value }
    }

    /// Move the contents to a cell carrying `new_id`.
    pub fn retag<NewId>(self, new_id: NewId) -> (r: ICell<NewId, T>)
        ensures
            r.spec_id() == new_id,
            r.value() == self.value(),
    {
        ICell { id: new_id, value: self.value }
    }

    /// Take the contents out of the cell.
    pub fn into_inner(self) -> (r: T)
        ensures
            r == self.value(),
    {
        self.value
    }

    /// Write access to the contents through exclusive access to the cell itself.
    pub fn get_mut(&mut self) -> (r: &mut T)
        ensures
            *r == old(self).value(),
            final(self).value() == *final(r),
            final(self).spec_id() == old(self).spec_id(),
    {
        &mut self.value
    }

    /// The id the cell carries.
    pub fn id(&self) -> (r: &Id)
        ensures
            *r == self.spec_id(),
    {
        &self.id
    }
}

impl<Id: Transparent, T> ICell<Id, T> {
    /// Build a cell whose id is forged. Only an id of no size may be forged;
    /// a caller shows that by testing `core::mem::size_of::<Id>() == 0`.
    pub fn new(value: T) -> (r: Self)
        requires
            vstd::layout::size_of::<Id>() == 0,
        ensures
            r.value() == value,
    {
        let zero_sized = if core::mem::size_of::<Id>() == 0 {
            Some(())
        } else {
            None
        };
        zero_sized.expect("Tried to forge an id that has a size");
        ICell::from_raw_parts(Id::forge(), value)
    }
}

} // verus!
