//! Who may talk to the bot: the administrator, and the chats that the
//! administrator has allowed.

use std::collections::HashSet;
use vstd::prelude::*;

verus! {

broadcast use vstd::std_specs::hash::group_hash_axioms;

pub type Username = String;

/// The administrator of the bot.
#[derive(Debug, PartialEq)]
pub struct Admin {
    pub username: Username,
    /// The private chat of the administrator with the bot, once it is
    /// known.
    pub chat_id: Option<i64>,
}

/// The administrator, the sign under which the bot was set up, and the
/// chats that may talk to the bot.
#[derive(Debug, PartialEq)]
pub struct Auth {
    admin: Admin,
    sign: String,
    allowed_chats: HashSet<i64>,
}

/// What an [`Auth`] holds.
pub struct AuthView {
    pub admin: Admin,
    pub sign: Seq<char>,
    pub allowed_chats: Set<i64>,
}

impl View for Auth {
    type V = AuthView;

    closed spec fn view(&self) -> AuthView {
        AuthView { admin: self.admin, sign: self.sign@, allowed_chats: self.allowed_chats@ }
    }
}

impl Auth {
    /// The administrator `admin` under the sign `sign`, with no chat of the
    /// administrator known and no chat allowed yet.
    pub fn new(admin: Username, sign: String) -> (auth: Auth)
        ensures
            auth@.admin == (Admin { username: admin, chat_id: None }),
            auth@.sign == sign@,
            auth@.allowed_chats == Set::<i64>::empty(),
    {
        Auth {
            admin: Admin { username: admin, chat_id: None },
            sign,
            allowed_chats: HashSet::new(),
        }
    }

    /// Whether this was set up for the administrator `admin` under the
    /// sign `sign`.
    #[must_use]
    pub fn is_actual(&self, admin: &Username, sign: &str) -> (actual: bool)
        ensures
            actual == (self@.admin.username@ == admin@ && self@.sign == sign@),
    {
        self.admin.username == *admin && self.sign == sign.to_owned()
    }

    /// The administrator.
    #[must_use]
    pub fn admin(&self) -> (admin: &Admin)
        ensures
            *admin == self@.admin,
    {
        &self.admin
    }

    /// Takes note of the private chat of the administrator with the bot.
    pub fn set_admin_chat_id(&mut self, chat_id: i64)
        ensures
            final(self)@ == (AuthView {
                admin: Admin { username: old(self)@.admin.username, chat_id: Some(chat_id) },
                ..old(self)@
            }),
    {
        self.admin.chat_id = Some(chat_id);
    }

    /// The sign under which the bot was set up.
    #[must_use]
    pub fn sign(&self) -> (sign: &String)
        ensures
            sign@ == self@.sign,
    {
        &self.sign
    }

    /// The chats that may talk to the bot.
    #[must_use]
    pub fn allowed_chats(&self) -> (chats: &HashSet<i64>)
        ensures
            chats@ == self@.allowed_chats,
    {
        &self.allowed_chats
    }

    /// Whether the chat may talk to the bot.
    #[must_use]
    pub fn is_allowed(&self, chat_id: i64) -> (allowed: bool)
        ensures
            allowed == self@.allowed_chats.contains(chat_id),
    {
        self.allowed_chats.contains(&chat_id)
    }

    /// Allows the chat to talk to the bot.
    pub fn allow(&mut self, chat_id: i64)
        ensures
            final(self)@ == (AuthView {
                allowed_chats: old(self)@.allowed_chats.insert(chat_id),
                ..old(self)@
            }),
    {
        self.allowed_chats.insert(chat_id);
    }

    /// Forbids the chat to talk to the bot.
    pub fn deny(&mut self, chat_id: i64)
        ensures
            final(self)@ == (AuthView {
                allowed_chats: old(self)@.allowed_chats.remove(chat_id),
                ..old(self)@
            }),
    {
        self.allowed_chats.remove(&chat_id);
    }
}

} // verus!
