//! Cells whose contents are reached through an owner.
//!
//! An `ICell` carries an id; an `Owner` wraps an `Identifier` that decides
//! which ids it accepts. Reading or writing a cell goes through an owner that
//! recognizes the cell's id.

mod cells;
pub use crate::cells::{
    lemma_owner_owns_its_cells, lemma_swap_twice, lemma_written_cell_stays_owned, swapped, ICell,
    Identifier, Owner, Transparent,
};

pub mod hlist;
pub mod generative;
pub mod scoped;
pub mod runtime;
pub mod typeid;
pub mod typeid_tl;
