//! What the bot writes to its log.
//!
//! The functions here build the lines; writing them out is left to the
//! caller.

pub mod critical;

use crate::update::{Update, UpdateKind};
use crate::utils::clock::local_time_of_day;
use crate::utils::text::{decimal, push_decimal, push_signed_decimal, signed_decimal};
use std::sync::Arc;
use vstd::prelude::*;
use vstd::string::StringExecFns;

verus! {

/// How much a log record matters.
#[derive(Clone, Copy, Debug, PartialEq, Eq, Structural)]
pub enum Level {
    Error,
    Warn,
    Info,
    Debug,
    Trace,
}

/// How a record relates to the one before it.
#[derive(Clone, Copy, Debug, PartialEq, Eq, Structural)]
pub enum LogType {
    /// A record of its own. It may follow a run of repeats of one error.
    NewLog { after_same_error: bool },
    /// One more repeat of the record before it, with the number of repeats
    /// so far.
    SameError(usize),
}

/// The last error that was logged, and how often it was repeated since.
pub struct LastLog {
    repeats: usize,
    text: String,
}

impl View for LastLog {
    type V = (nat, Seq<char>);

    closed spec fn view(&self) -> (nat, Seq<char>) {
        (self.repeats as nat, self.text@)
    }
}

/// What is remembered after a record of the given text was handled: a
/// repeat is counted, a new error is remembered, any other record makes
/// the last error forgotten.
pub open spec fn remembered(last: (nat, Seq<char>), error: bool, args: Seq<char>) -> (
    nat,
    Seq<char>,
) {
    if last.1 == args {
        (last.0 + 1, last.1)
    } else if error {
        (0, args)
    } else {
        (0, Seq::empty())
    }
}

/// How a record of the given text relates to the one before it.
pub open spec fn classified(last: (nat, Seq<char>), args: Seq<char>) -> LogType
    recommends
        last.0 < usize::MAX,
{
    if last.1 == args {
        LogType::SameError((last.0 + 1) as usize)
    } else {
        LogType::NewLog { after_same_error: last.0 > 0 }
    }
}

impl LastLog {
    /// Nothing was logged yet.
    pub fn new() -> (last: LastLog)
        ensures
            last@ == (0nat, Seq::<char>::empty()),
    {
        LastLog { repeats: 0, text: String::new() }
    }

    /// How often the last error was repeated.
    pub fn repeats(&self) -> (repeats: usize)
        ensures
            repeats == self@.0,
    {
        self.repeats
    }

    /// Whether a record of the text `args` would be a repeat.
    pub fn is_repeated_by(&self, args: &str) -> (same: bool)
        ensures
            same == (self@.1 == args@),
    {
        self.text == args.to_owned()
    }
}

/// Tells a record that repeats the last one from a new one, and remembers
/// what the next record is to be compared with.
///
/// The repeats are counted in a `usize`, so a record must not repeat the
/// last one more than `usize::MAX` times.
pub fn handle_log(last: &mut LastLog, level: Level, args: &str) -> (log_type: LogType)
    requires
        old(last)@.1 == args@ ==> old(last)@.0 < usize::MAX,
    ensures
        final(last)@ == remembered(old(last)@, level == Level::Error, args@),
        log_type == classified(old(last)@, args@),
{
    let error = level == Level::Error;
    let text = args.to_owned();
    let same_error = last.text == text;
    let after_same_error = last.repeats > 0;
    if same_error {
        last.repeats = last.repeats + 1;
    } else if error {
        last.repeats = 0;
        last.text = text;
    } else {
        last.repeats = 0;
        last.text = String::new();
    }
    if same_error {
        LogType::SameError(last.repeats)
    } else {
        LogType::NewLog { after_same_error }
    }
}

/// The sign that a record of the given level is marked with.
pub open spec fn level_sign_text(level: Level) -> Seq<char> {
    match level {
        Level::Error => "🔴"@,
        Level::Warn => "🟠"@,
        Level::Info => "🟢"@,
        Level::Debug => "🔵"@,
        Level::Trace => "🟣"@,
    }
}

/// The sign that a record of the given level is marked with.
pub fn level_sign(level: Level) -> (sign: &'static str)
    ensures
        sign@ == level_sign_text(level),
{
    match level {
        Level::Error => "🔴",
        Level::Warn => "🟠",
        Level::Info => "🟢",
        Level::Debug => "🔵",
        Level::Trace => "🟣",
    }
}

/// What is written for a record: a new record on lines of its own, set off
/// from a run of repeats before it; a repeat as a counter that overwrites
/// the one before.
pub open spec fn log_line_text(
    sign: Seq<char>,
    time: Seq<char>,
    args: Seq<char>,
    log_type: LogType,
) -> Seq<char> {
    match log_type {
        LogType::NewLog { after_same_error } => (if after_same_error {
            "\n\n"@
        } else {
            Seq::empty()
        }) + sign + " ["@ + time + "] > "@ + args + "\n\n"@,
        LogType::SameError(repeats) => sign + " ["@ + time + "] > Same error ("@ + decimal(
            repeats as nat,
        ) + ")\r"@,
    }
}

/// What is written for a record of the given sign, time and text.
pub fn log_line(sign: &str, time: &str, args: &str, log_type: LogType) -> (line: String)
    ensures
        line@ == log_line_text(sign@, time@, args@, log_type),
{
    match log_type {
        LogType::NewLog { after_same_error } => {
            let mut line = String::new();
            if after_same_error {
                line.append("\n\n");
            }
            line.append(sign);
            line.append(" [");
            line.append(time);
            line.append("] > ");
            line.append(args);
            line.append("\n\n");
            line
        },
        LogType::SameError(repeats) => {
            let mut line = String::new();
            line.append(sign);
            line.append(" [");
            line.append(time);
            line.append("] > Same error (");
            push_decimal(&mut line, repeats as u64);
            line.append(")\r");
            line
        },
    }
}

/// Handles a record of the given level and text, and returns what is to be
/// written for it, with the local time of this call.
pub fn write_log(last: &mut LastLog, level: Level, args: &str) -> (line: String)
    requires
        old(last)@.1 == args@ ==> old(last)@.0 < usize::MAX,
    ensures
        final(last)@ == remembered(old(last)@, level == Level::Error, args@),
        exists|time: Seq<char>|
            line@ == log_line_text(
                level_sign_text(level),
                time,
                args@,
                classified(old(last)@, args@),
            ),
{
    let sign = level_sign(level);
    let time = local_time_of_day();
    let log_type = handle_log(last, level, args);
    log_line(sign, time.as_str(), args, log_type)
}

/// The name of a kind of update.
pub open spec fn upd_kind_text(kind: UpdateKind) -> Seq<char> {
    match kind {
        UpdateKind::Message => "Message"@,
        UpdateKind::EditedMessage => "EditedMessage"@,
        UpdateKind::ChannelPost => "ChannelPost"@,
        UpdateKind::EditedChannelPost => "EditedChannelPost"@,
        UpdateKind::InlineQuery => "InlineQuery"@,
        UpdateKind::ChosenInlineResult => "ChosenInlineResult"@,
        UpdateKind::CallbackQuery => "CallbackQuery"@,
        UpdateKind::ShippingQuery => "ShippingQuery"@,
        UpdateKind::PreCheckoutQuery => "PreCheckoutQuery"@,
        UpdateKind::Poll => "Poll"@,
        UpdateKind::PollAnswer => "PollAnswer"@,
        UpdateKind::MyChatMember => "MyChatMember"@,
        UpdateKind::ChatMember => "ChatMember"@,
        UpdateKind::ChatJoinRequest => "ChatJoinRequest"@,
        UpdateKind::Error => "Error"@,
    }
}

/// The name of the kind of an update.
pub fn upd_kind_name(upd: &Update) -> (name: &'static str)
    ensures
        name@ == upd_kind_text(upd.kind),
{
    match upd.kind {
        UpdateKind::Message => "Message",
        UpdateKind::EditedMessage => "EditedMessage",
        UpdateKind::ChannelPost => "ChannelPost",
        UpdateKind::EditedChannelPost => "EditedChannelPost",
        UpdateKind::InlineQuery => "InlineQuery",
        UpdateKind::ChosenInlineResult => "ChosenInlineResult",
        UpdateKind::CallbackQuery => "CallbackQuery",
        UpdateKind::ShippingQuery => "ShippingQuery",
        UpdateKind::PreCheckoutQuery => "PreCheckoutQuery",
        UpdateKind::Poll => "Poll",
        UpdateKind::PollAnswer => "PollAnswer",
        UpdateKind::MyChatMember => "MyChatMember",
        UpdateKind::ChatMember => "ChatMember",
        UpdateKind::ChatJoinRequest => "ChatJoinRequest",
        UpdateKind::Error => "Error",
    }
}

/// How the chat of an update is called in the log: by its title, by its id
/// where it has no title, and `<unknown>` where the update has no chat.
pub open spec fn chat_name_text(upd: Update) -> Seq<char> {
    match upd.chat {
        Some(chat) => match chat.title {
            Some(title) => title@,
            None => signed_decimal(chat.id as int),
        },
        None => "<unknown>"@,
    }
}

/// The title of the chat of an update, or its id where it has no title;
/// `None` where the update has no chat.
pub fn chat_title_or_id(upd: &Update) -> (name: Option<String>)
    ensures
        name is Some <==> upd.chat is Some,
        name matches Some(name) ==> name@ == chat_name_text(*upd),
{
    match &upd.chat {
        Some(chat) => match &chat.title {
            Some(title) => Some(title.clone()),
            None => {
                let mut id = String::new();
                push_signed_decimal(&mut id, chat.id);
                Some(id)
            },
        },
        None => None,
    }
}

/// The line about an update: what was done with it, its kind, its number
/// and its chat.
pub open spec fn update_line_text(verb: Seq<char>, upd: Update) -> Seq<char> {
    verb + " "@ + upd_kind_text(upd.kind) + " #"@ + signed_decimal(upd.id as int) + " from "@
        + chat_name_text(upd)
}

fn update_line(verb: &str, upd: &Update) -> (line: String)
    ensures
        line@ == update_line_text(verb@, *upd),
{
    let mut line = String::from_str(verb);
    line.append(" ");
    line.append(upd_kind_name(upd));
    line.append(" #");
    push_signed_decimal(&mut line, upd.id as i64);
    line.append(" from ");
    match chat_title_or_id(upd) {
        Some(name) => line.append(name.as_str()),
        None => line.append("<unknown>"),
    }
    line
}

/// The line that is logged for every update that arrives.
pub fn log_update(upd: &Update) -> (line: String)
    ensures
        line@ == update_line_text("Get"@, *upd),
{
    update_line("Get", upd)
}

/// The line that is logged for an update that no handler took.
pub fn log_unhandled_update(upd: &Update) -> (line: String)
    ensures
        line@ == update_line_text("Unhandled"@, *upd),
{
    update_line("Unhandled", upd)
}

/// The colour behind the text of a toast.
pub const TOAST_BACKGROUND: &'static str = "#1e6c30";

/// The arguments of the command that shows `text` as a toast: at the top
/// of the screen, on a dark green background.
pub fn toast_args(text: &str) -> (args: Vec<String>)
    ensures
        args@.len() == 5,
        args@[0]@ == "-g"@,
        args@[1]@ == "top"@,
        args@[2]@ == "-b"@,
        args@[3]@ == TOAST_BACKGROUND@,
        args@[4]@ == text@,
{
    let mut args: Vec<String> = Vec::new();
    args.push(String::from_str("-g"));
    args.push(String::from_str("top"));
    args.push(String::from_str("-b"));
    args.push(String::from_str(TOAST_BACKGROUND));
    args.push(String::from_str(text));
    args
}

/// Handles the errors of the listener for updates: each is logged, and the
/// listener rests for a while before it goes on.
#[derive(Clone, Copy, Debug, PartialEq, Eq, Structural)]
pub struct UpdateListenerErrorHandler;

impl UpdateListenerErrorHandler {
    /// How many seconds the listener rests after an error.
    pub const DELAY: u64 = 2;

    /// The line that announces the rest.
    pub fn sleep_notice(&self) -> (line: String)
        ensures
            line@ == "Sleep "@ + decimal(Self::DELAY as nat) + " sec .."@,
    {
        let mut line = String::from_str("Sleep ");
        push_decimal(&mut line, Self::DELAY);
        line.append(" sec ..");
        line
    }
}

/// The handler for the errors of the listener for updates.
pub fn for_update_listener() -> (handler: Arc<UpdateListenerErrorHandler>)
    ensures
        *handler == UpdateListenerErrorHandler,
{
    Arc::new(UpdateListenerErrorHandler)
}

} // verus!
