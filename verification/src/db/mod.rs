//! The store: the records of users, of Rocket.Chat servers and of users on those servers.

pub mod rocketchat_server;
pub mod room;
pub mod store;
pub mod user;
pub mod user_on_rocketchat_server;

pub use self::rocketchat_server::RocketchatServer;
pub use self::room::{AdminRoomState, Room};
pub use self::store::Store;
pub use self::user::User;
pub use self::user_on_rocketchat_server::UserOnRocketchatServer;
