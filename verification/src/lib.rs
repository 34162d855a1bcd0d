//! A heap cell that is shared through three kinds of references: holders keep
//! it allocated, viewers read its value, and one owner reads and writes it.
//! The value and the allocation end separately: the value when nobody can
//! reach it any more or when the owner consumes it, the allocation when the
//! value is gone and the last reference with it.
//!
//! Cells live in a [`Heap`], and every operation names the heap it works on.

pub mod cell;
pub mod holder;
pub mod lifecycle;
pub mod owner;
pub mod owner_ref;
pub mod raw;
pub mod ref_;
pub mod state;
pub mod viewer;
pub mod viewer_ref;

pub use crate::holder::Holder;
pub use crate::owner::Owner;
pub use crate::owner_ref::OwnerRef;
pub use crate::raw::Heap;
pub use crate::state::RefType;
pub use crate::state::State;
pub use crate::viewer::Sharer;
pub use crate::viewer::Viewer;
pub use crate::viewer_ref::ViewerRef;
