//! A group channel of a remote messaging service, as a client holds it:
//! the record itself, the name under which it is shown, and its deletion
//! through whatever transport the caller brings.

pub mod group_channel;
pub mod id;
pub mod name_lemmas;
pub mod timestamp;
pub mod user;

pub use group_channel::GroupChannel;
pub use id::{ChannelId, MessageId, UserId};
pub use timestamp::Timestamp;
pub use user::User;
