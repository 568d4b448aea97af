//! Change-tracking queries over an archetype-based, columnar component store.
//!
//! Each archetype keeps, per component column, two boolean flag arrays that
//! are index-aligned with the data: `added` records rows whose component was
//! newly attached since the last reset, `mutated` records rows whose component
//! was written through an exclusive accessor since the last reset. The
//! trackers in [`trackers`] read those flags row by row without ever changing
//! them; [`world::World::clear_trackers`] is the only operation that clears
//! them.

pub mod archetype;
pub mod trackers;
pub mod world;

pub use crate::archetype::{Archetype, Column};
pub use crate::trackers::{
    Access, Added, Changed, FetchAdded, FetchChanged, FetchMutated, Mutated,
};
pub use crate::world::World;
