//! The homeserver and the Rocket.Chat servers, as the bridge speaks with them.

pub mod exchange;
pub mod matrix;
pub mod payload;
pub mod rocketchat;

pub use self::exchange::{Body, Halt, PowerLevels, Reply, Request, Transcript};
pub use self::matrix::MatrixApi;
pub use self::rocketchat::RocketchatApi;
