//! Location tracking for a game client read out of its process memory:
//! pointer-chain resolution, offset selection, process matching and the
//! decisions of the collection loop.

pub mod text;
pub mod offsets;
pub mod errors;
pub mod names;
pub mod mac_proc;
pub mod fetch;
pub mod discovery;
pub mod locator;
pub mod image_base;
pub mod platform_proc;
pub mod native_collector;
