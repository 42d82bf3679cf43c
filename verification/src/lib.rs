//! Frame-driven simulation core for a small movement game: an entity whose
//! health decays while it moves, a debounce timer that decides when the latest
//! state is pushed to a remote store, and the play / game-over state machine.
//!
//! The crate holds no engine, no clock and no network. A host calls it once
//! per frame with the keys that are held and the length of the frame, and
//! carries out what it returns.
//!
//! - [`types`]: the units, and the records that go to the store.
//! - [`health`]: health, its decay, and its normalised encoding.
//! - [`player`]: the entity and its movement.
//! - [`timer`]: the debounce timer.
//! - [`resources`]: the session context that a frame reads and updates.
//! - [`states`]: play, game over, and the commands of the game-over screen.
//! - [`systems`]: what happens in a frame, put together from the above.

pub mod health;
pub mod player;
pub mod resources;
pub mod states;
pub mod systems;
pub mod timer;
pub mod types;
