//! The x86 Global Descriptor Table: segment descriptors, the table that holds
//! them, the register record that points the processor at the table, and the
//! order of operations that puts a table into service.
//!
//! Nothing here touches the processor. [`system::load`] says which operations
//! have to be carried out and in which order; carrying them out is left to
//! the caller, who also owns the memory that the processor reads the table
//! from and fills it with [`system::table::image`].

pub mod descriptor;
pub mod register;
pub mod system;

pub use crate::descriptor::{gdtentry, ENTRY_BYTES};
pub use crate::register::{gdtreg, ENTRIES, TABLE_BYTES};
pub use crate::system::{entry, init, load, table, GdtError, SegmentRegister, Stage, Step};
