//! The commands that users send to the bot.

use vstd::prelude::*;
use vstd::string::StringExecFns;

verus! {

/// The command that a user opens the chat with.
#[derive(Clone, Copy, Debug, PartialEq, Eq, Structural)]
pub enum StartCommand {
    Start,
}

/// The commands of the menu.
#[derive(Clone, Copy, Debug, PartialEq, Eq, Structural)]
pub enum MenuCommand {
    Help,
    SugarLevel,
}

/// The word that a start command is sent as, after the slash.
pub open spec fn start_command_text(command: StartCommand) -> Seq<char> {
    match command {
        StartCommand::Start => "start"@,
    }
}

/// The word that a menu command is sent as, after the slash.
pub open spec fn menu_command_text(command: MenuCommand) -> Seq<char> {
    match command {
        MenuCommand::Help => "help"@,
        MenuCommand::SugarLevel => "sugar_level"@,
    }
}

/// What the menu says of a command.
pub open spec fn menu_description_text(command: MenuCommand) -> Seq<char> {
    match command {
        MenuCommand::Help => "Инструкция"@,
        MenuCommand::SugarLevel => "Указать уровень сахара"@,
    }
}

impl StartCommand {
    /// The word that the command is sent as, after the slash.
    pub fn name(self) -> (name: &'static str)
        ensures
            name@ == start_command_text(self),
    {
        match self {
            StartCommand::Start => "start",
        }
    }
}

impl MenuCommand {
    /// The word that the command is sent as, after the slash.
    pub fn name(self) -> (name: &'static str)
        ensures
            name@ == menu_command_text(self),
    {
        match self {
            MenuCommand::Help => "help",
            MenuCommand::SugarLevel => "sugar_level",
        }
    }

    /// What the menu says of the command.
    pub fn description(self) -> (description: &'static str)
        ensures
            description@ == menu_description_text(self),
    {
        match self {
            MenuCommand::Help => "Инструкция",
            MenuCommand::SugarLevel => "Указать уровень сахара",
        }
    }
}

/// What the bot says of itself before it lists its commands.
pub const HELP_INTRO: &'static str =
    "\nЭтот бот имеет следующие возможности:\n- сохранение и просмотр ваших показаний уровня сахара\n- отправка напоминаний о необходимости измерения сахара и/или инъекции инсулина\n- просмотр среднего количества инсулина за период времени.\n\nФункциональность постепенно увеличивается, бот находится в активной разработке. \n\nСписок доступных команд:\n";

/// The answer to a call for help: what the bot says of itself, and below
/// it the list of its commands.
pub fn help_message(descriptions: &str) -> (message: String)
    ensures
        message@ == HELP_INTRO@ + descriptions@,
{
    let mut message = String::from_str(HELP_INTRO);
    message.append(descriptions);
    message
}

} // verus!
