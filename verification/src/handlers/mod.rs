//! The handlers: what the bridge does when the homeserver or a Rocket.Chat server speaks to
//! it.

pub mod error_notifier;
pub mod events;
pub mod rocketchat;
pub mod run;

pub use self::error_notifier::ErrorNotifier;
