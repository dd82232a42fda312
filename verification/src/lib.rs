//! A heterogeneous, type-erased arena allocator.
//!
//! An `Arena` stores values of several concrete kinds in fixed-capacity
//! bump-allocated `Page`s, held type-erased in an append-only `Table`,
//! and hands back compact 32-bit handles (`Idx`) that resolve back to the
//! stored value for the whole lifetime of the arena.

pub mod arena;
pub mod laws;
pub mod model;
pub mod page;
pub mod table;

mod erased;

pub use arena::{Arena, Idx};
pub use model::TypeKind;
pub use page::{MAX_PAGES, PAGE_LEN, PAGE_LEN_BITS, PAGE_LEN_MASK, Page, Slot};
pub use table::{PageIndex, Table};
