//! What the bridge does for the users of Rocket.Chat servers.

pub mod direct_message;
pub mod forwarder;
pub mod login;
pub mod virtual_user_handler;

pub use self::forwarder::Forwarder;
pub use self::login::{Credentials, Login};
pub use self::virtual_user_handler::VirtualUserHandler;
