//! Client-side runtime core for a chat automation agent.
//!
//! Inbound messages from a remote gateway are normalized into a [`context::Context`],
//! matched against registered listeners, and handled in registration order.
//! A lifecycle supervisor sequences session binding, startup, polling, and the
//! guaranteed release of the session.

pub mod bot;
pub mod context;
pub mod error;
pub mod event_listener;
pub mod lifecycle;
pub mod message;
pub mod text;
pub mod utils;

pub use bot::Bot;
pub use context::Context;
pub use context::SendRequest;
pub use utils::BotConfig;

pub use error::Error;

pub use message::create_plain_message;
pub use message::create_plain_message_chain;
pub use message::ChatroomType;
pub use message::FriendSender;
pub use message::Group;
pub use message::GroupSender;
pub use message::MessageChain;
pub use message::Permission;
pub use message::ReceivedMessage;
pub use message::Sender;
pub use message::SingleMessage;
