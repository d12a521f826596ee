//! What the bot reads of the updates that the messaging platform sends.

use vstd::prelude::*;

verus! {

/// What an update from the messaging platform brings.
#[derive(Clone, Copy, Debug, PartialEq, Eq, Structural)]
pub enum UpdateKind {
    Message,
    EditedMessage,
    ChannelPost,
    EditedChannelPost,
    InlineQuery,
    ChosenInlineResult,
    CallbackQuery,
    ShippingQuery,
    PreCheckoutQuery,
    Poll,
    PollAnswer,
    MyChatMember,
    ChatMember,
    ChatJoinRequest,
    Error,
}

/// The chat that an update comes from.
#[derive(Debug)]
pub struct Chat {
    pub id: i64,
    /// The title, which groups and channels have.
    pub title: Option<String>,
    /// Whether this is the chat of one user with the bot.
    pub private: bool,
}

/// What the bot reads of a message.
#[derive(Debug)]
pub struct Message {
    /// The name of the sender, where there is one and the sender has a
    /// name.
    pub username: Option<String>,
    pub chat: Chat,
}

/// What the bot reads of an update from the messaging platform.
#[derive(Debug)]
pub struct Update {
    pub id: i32,
    pub kind: UpdateKind,
    /// The chat, where the update belongs to one.
    pub chat: Option<Chat>,
    /// The name of the user who caused the update, where there is one and
    /// the user has a name.
    pub username: Option<String>,
}

} // verus!
