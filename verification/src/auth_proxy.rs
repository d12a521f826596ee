//! Who gets through to the bot: what a chat must be to be heard, and
//! how the administrator lets chats in and puts them out.
//!
//! The functions here decide and build the texts; sending the messages and
//! storing the result is left to the caller.

use crate::auth::{Admin, Auth, AuthView};
use crate::common::Error;
use crate::update::{Chat, Message, Update};
use crate::utils::text::{push_signed_decimal, quoted, signed_decimal};
use vstd::prelude::*;
use vstd::string::StringExecFns;

verus! {

/// What the administrator is greeted with.
pub const WELCOME_ADMIN: &'static str = "Добро пожаловать, босс!";

/// What a chat is greeted with when it is let in.
pub const WELCOME_CHAT: &'static str = "Здравия желаю!";

/// What the administrator is told when a chat was let in.
pub const CHAT_ALLOWED: &'static str = "Чат авторизован";

/// What the administrator is told when a chat was put out.
pub const CHAT_DENIED: &'static str = "Чат заблокирован";

/// The commands that let chats in and put them out.
#[derive(Clone, Copy, Debug, PartialEq, Eq, Structural)]
pub enum AuthCommand {
    /// A chat asks to be let in; from the administrator: this is my chat.
    Auth,
    /// The administrator lets the chat with this id in.
    Allow(i64),
    /// The administrator puts the chat with this id out.
    Deny(i64),
}

/// The message that a command is sent as.
pub open spec fn command_text(command: AuthCommand) -> Seq<char> {
    match command {
        AuthCommand::Auth => "/auth"@,
        AuthCommand::Allow(chat_id) => "/allow "@ + signed_decimal(chat_id as int),
        AuthCommand::Deny(chat_id) => "/deny "@ + signed_decimal(chat_id as int),
    }
}

impl AuthCommand {
    /// The message that this command is sent as.
    pub fn message(&self) -> (text: String)
        ensures
            text@ == command_text(*self),
    {
        match self {
            AuthCommand::Auth => String::from_str("/auth"),
            AuthCommand::Allow(chat_id) => {
                let mut text = String::from_str("/allow ");
                push_signed_decimal(&mut text, *chat_id);
                text
            },
            AuthCommand::Deny(chat_id) => {
                let mut text = String::from_str("/deny ");
                push_signed_decimal(&mut text, *chat_id);
                text
            },
        }
    }
}

/// What the bot starts with: what was stored, if it was set up for this
/// administrator under this sign, and else a new setup with no chat allowed.
pub fn restore(stored: Option<Auth>, admin: String, sign: String) -> (auth: Auth)
    ensures
        match stored {
            Some(stored) if stored@.admin.username@ == admin@ && stored@.sign == sign@ => auth
                == stored,
            _ => auth@ == (AuthView {
                admin: Admin { username: admin, chat_id: None },
                sign: sign@,
                allowed_chats: Set::empty(),
            }),
        },
{
    match stored {
        Some(stored) => {
            if stored.is_actual(&admin, sign.as_str()) {
                stored
            } else {
                Auth::new(admin, sign)
            }
        },
        None => Auth::new(admin, sign),
    }
}

/// The chat of a message that the administrator sent in private; `None`
/// for every other message.
pub fn filter_admin_chat_id(msg: &Message, auth: &Auth) -> (chat_id: Option<i64>)
    ensures
        chat_id == if msg.username matches Some(username) && username@
            == auth@.admin.username@ && msg.chat.private {
            Some(msg.chat.id)
        } else {
            None
        },
{
    match &msg.username {
        Some(username) => {
            if *username == auth.admin().username && msg.chat.private {
                Some(msg.chat.id)
            } else {
                None
            }
        },
        None => None,
    }
}

/// Whether an update gets through to the bot.
///
/// It does if it comes from a chat that is allowed, or from a private chat
/// with the administrator. An update without a chat does not.
pub open spec fn gets_through(auth: AuthView, upd: Update) -> bool {
    match upd.chat {
        Some(chat) => auth.allowed_chats.contains(chat.id) || (chat.private && (
        upd.username matches Some(username) && username@ == auth.admin.username@)),
        None => false,
    }
}

/// Whether an update gets through to the bot.
pub fn is_allowed_chat(auth: &Auth, upd: &Update) -> (allowed: bool)
    ensures
        allowed == gets_through(auth@, *upd),
{
    match &upd.chat {
        Some(chat) => {
            if auth.is_allowed(chat.id) {
                true
            } else if chat.private {
                match &upd.username {
                    Some(username) => *username == auth.admin().username,
                    None => false,
                }
            } else {
                false
            }
        },
        None => false,
    }
}

/// What the failure says that is reported while the chat of the
/// administrator is not known.
pub open spec fn no_admin_chat(error: Error) -> bool {
    error matches Error::Other(cause) && cause.text@ == "No admin chat id yet"@ && cause.detail@
        == quoted("No admin chat id yet"@)
}

/// The private chat of the administrator, which the answers go
/// to; a failure while it is not known.
pub fn admin_chat_id(auth: &Auth) -> (res: Result<i64, Error>)
    ensures
        match res {
            Ok(chat_id) => auth@.admin.chat_id == Some(chat_id),
            Err(error) => auth@.admin.chat_id is None && no_admin_chat(error),
        },
{
    match auth.admin().chat_id {
        Some(chat_id) => Ok(chat_id),
        None => Err(Error::other("No admin chat id yet")),
    }
}

/// How a chat is called when the administrator is asked about it: by its
/// title, or by its id where it has no title.
pub open spec fn chat_text(chat: Chat) -> Seq<char> {
    match chat.title {
        Some(title) => title@,
        None => "ChatId("@ + signed_decimal(chat.id as int) + ")"@,
    }
}

/// The question to the administrator whether a chat is to be let in.
pub open spec fn question_text(chat: Chat) -> Seq<char> {
    "Разрешить доступ для "@ + chat_text(chat) + "?"@
}

/// What the administrator is sent when a chat asks to be let in.
#[derive(Debug)]
pub struct AuthRequest {
    /// The chat of the administrator.
    pub admin_chat_id: i64,
    /// The question.
    pub text: String,
    /// The message behind the button that lets the chat in.
    pub allow: String,
    /// The message behind the button that keeps the chat out.
    pub deny: String,
}

/// Asks the administrator whether the chat that `msg` came from is to be
/// let in; a failure while the chat of the administrator is not known.
pub fn request_auth(msg: &Message, auth: &Auth) -> (res: Result<AuthRequest, Error>)
    ensures
        match res {
            Ok(request) => auth@.admin.chat_id == Some(request.admin_chat_id) && request.text@
                == question_text(msg.chat) && request.allow@ == command_text(
                AuthCommand::Allow(msg.chat.id),
            ) && request.deny@ == command_text(AuthCommand::Deny(msg.chat.id)),
            Err(error) => auth@.admin.chat_id is None && no_admin_chat(error),
        },
{
    let admin_chat_id = match admin_chat_id(auth) {
        Ok(chat_id) => chat_id,
        Err(error) => {
            return Err(error);
        },
    };
    let mut text = String::from_str("Разрешить доступ для ");
    match &msg.chat.title {
        Some(title) => text.append(title.as_str()),
        None => {
            text.append("ChatId(");
            push_signed_decimal(&mut text, msg.chat.id);
            text.append(")");
        },
    }
    text.append("?");
    Ok(
        AuthRequest {
            admin_chat_id,
            text,
            allow: AuthCommand::Allow(msg.chat.id).message(),
            deny: AuthCommand::Deny(msg.chat.id).message(),
        },
    )
}

/// Takes note that `chat_id` is the private chat of the administrator.
pub fn set_admin_chat_id(auth: &mut Auth, chat_id: i64)
    ensures
        final(auth)@ == (AuthView {
            admin: Admin { username: old(auth)@.admin.username, chat_id: Some(chat_id) },
            ..old(auth)@
        }),
{
    auth.set_admin_chat_id(chat_id);
}

/// Lets the chat in and returns the chat of the administrator, who is to be
/// told. While the chat of the administrator is not known nothing changes
/// and a failure is reported.
pub fn allow_chat(auth: &mut Auth, chat_id: i64) -> (res: Result<i64, Error>)
    ensures
        match res {
            Ok(admin_chat_id) => old(auth)@.admin.chat_id == Some(admin_chat_id) && final(auth)@
                == (AuthView {
                allowed_chats: old(auth)@.allowed_chats.insert(chat_id),
                ..old(auth)@
            }),
            Err(error) => old(auth)@.admin.chat_id is None && no_admin_chat(error) && final(auth)@
                == old(auth)@,
        },
{
    match admin_chat_id(auth) {
        Ok(admin_chat_id) => {
            auth.allow(chat_id);
            Ok(admin_chat_id)
        },
        Err(error) => Err(error),
    }
}

/// Puts the chat out and returns the chat of the administrator, who is to
/// be told. While the chat of the administrator is not known nothing
/// changes and a failure is reported.
pub fn deny_chat(auth: &mut Auth, chat_id: i64) -> (res: Result<i64, Error>)
    ensures
        match res {
            Ok(admin_chat_id) => old(auth)@.admin.chat_id == Some(admin_chat_id) && final(auth)@
                == (AuthView {
                allowed_chats: old(auth)@.allowed_chats.remove(chat_id),
                ..old(auth)@
            }),
            Err(error) => old(auth)@.admin.chat_id is None && no_admin_chat(error) && final(auth)@
                == old(auth)@,
        },
{
    match admin_chat_id(auth) {
        Ok(admin_chat_id) => {
            auth.deny(chat_id);
            Ok(admin_chat_id)
        },
        Err(error) => Err(error),
    }
}

} // verus!
