//! Deferred materialization of resources whose values are assets: a value
//! is registered with the handle of its load, polled once per tick, and
//! installed exactly once when the load and all its dependencies are ready.
//! Around it, the game logic that waits on it: screen changes, localized
//! text, the game list and the player's animation.

pub mod animation;
pub mod backend;
pub mod games;
pub mod i18n;
pub mod lemmas;
pub mod queue;
pub mod screens;

pub use backend::load_resource_assets;
pub use queue::{QueueView, ResourceHandles};
