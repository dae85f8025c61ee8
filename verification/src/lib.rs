//! Room-based broadcast gateway core: the rotating playlist queue, room
//! membership and statistics, the room registry, and the decision logic of
//! the connection handler, of the statistics watcher and of the routes.

pub mod channels;
pub mod clients;
pub mod connection;
pub mod multiplier;
pub mod opcodes;
pub mod player;
pub mod registry;
pub mod room;
pub mod routes;
pub mod sessions;
pub mod stats;
pub mod users;
pub mod utils;
pub mod watcher;
pub mod webhook;
