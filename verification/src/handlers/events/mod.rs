//! What the bridge does when the homeserver sends events.

pub mod command_handler;
pub mod event_dispatcher;
pub mod message_handler;
pub mod room_handler;

pub use self::command_handler::CommandHandler;
pub use self::event_dispatcher::EventDispatcher;
pub use self::message_handler::MessageHandler;
pub use self::room_handler::RoomHandler;
