//! Bridge between a Matrix homeserver and Rocket.Chat servers: the decision logic of the
//! application service, stated and proved over plain values.

use vstd::prelude::*;

pub mod api;
pub mod config;
pub mod db;
pub mod errors;
pub mod handlers;
pub mod i18n;
pub mod identifiers;
pub mod models;
pub mod seqs;
pub mod server;
pub mod text;

pub use crate::config::Config;
pub use crate::server::Server;

verus! {

/// The longest identifier a user may choose for a Rocket.Chat server.
pub const MAX_ROCKETCHAT_SERVER_ID_LENGTH: usize = 16;

} // verus!
