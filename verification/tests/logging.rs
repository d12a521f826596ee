use bot_core::logging::critical::{entry, file_name, file_name_at, DIRECTORY};
use bot_core::logging::{
    chat_title_or_id, for_update_listener, handle_log, level_sign, log_line, log_unhandled_update,
    log_update, toast_args, upd_kind_name, write_log, LastLog, Level, LogType,
    UpdateListenerErrorHandler, TOAST_BACKGROUND,
};
use bot_core::update::{Chat, Update, UpdateKind};

fn update(kind: UpdateKind, id: i32, chat: Option<Chat>) -> Update {
    Update {
        id,
        kind,
        chat,
        username: None,
    }
}

#[test]
fn new_records_are_told_from_repeats() {
    let mut last = LastLog::new();
    assert_eq!(
        LogType::NewLog { after_same_error: false },
        handle_log(&mut last, Level::Info, "started")
    );
    assert_eq!(
        LogType::NewLog { after_same_error: false },
        handle_log(&mut last, Level::Error, "no route")
    );
    assert_eq!(LogType::SameError(1), handle_log(&mut last, Level::Error, "no route"));
    assert_eq!(LogType::SameError(2), handle_log(&mut last, Level::Error, "no route"));
    assert_eq!(2, last.repeats());
    assert_eq!(
        LogType::NewLog { after_same_error: true },
        handle_log(&mut last, Level::Info, "connected")
    );
    assert_eq!(0, last.repeats());
    assert_eq!(
        LogType::NewLog { after_same_error: false },
        handle_log(&mut last, Level::Info, "connected")
    );
}

#[test]
fn a_new_error_replaces_the_one_before() {
    let mut last = LastLog::new();
    handle_log(&mut last, Level::Error, "first");
    assert_eq!(LogType::SameError(1), handle_log(&mut last, Level::Error, "first"));
    assert_eq!(
        LogType::NewLog { after_same_error: true },
        handle_log(&mut last, Level::Error, "second")
    );
    assert!(last.is_repeated_by("second"));
    assert!(!last.is_repeated_by("first"));
    assert_eq!(LogType::SameError(1), handle_log(&mut last, Level::Error, "second"));
}

#[test]
fn a_repeat_counts_whatever_its_level() {
    let mut last = LastLog::new();
    handle_log(&mut last, Level::Error, "no route");
    assert_eq!(LogType::SameError(1), handle_log(&mut last, Level::Warn, "no route"));
    assert_eq!(LogType::SameError(2), handle_log(&mut last, Level::Trace, "no route"));
}

#[test]
fn only_errors_are_remembered() {
    for level in [Level::Warn, Level::Info, Level::Debug, Level::Trace] {
        let mut last = LastLog::new();
        handle_log(&mut last, level, "again");
        assert!(!last.is_repeated_by("again"));
        assert_eq!(
            LogType::NewLog { after_same_error: false },
            handle_log(&mut last, level, "again")
        );
    }
}

#[test]
fn an_empty_record_repeats_nothing_remembered() {
    let mut last = LastLog::new();
    assert!(last.is_repeated_by(""));
    assert_eq!(LogType::SameError(1), handle_log(&mut last, Level::Info, ""));
    assert_eq!(LogType::SameError(2), handle_log(&mut last, Level::Info, ""));
    assert_eq!(
        LogType::NewLog { after_same_error: true },
        handle_log(&mut last, Level::Info, "text")
    );
}

#[test]
fn levels_have_signs() {
    assert_eq!("🔴", level_sign(Level::Error));
    assert_eq!("🟠", level_sign(Level::Warn));
    assert_eq!("🟢", level_sign(Level::Info));
    assert_eq!("🔵", level_sign(Level::Debug));
    assert_eq!("🟣", level_sign(Level::Trace));
}

#[test]
fn a_new_record_is_written_on_lines_of_its_own() {
    assert_eq!(
        "🟢 [10:20:30.123] > started\n\n",
        log_line("🟢", "10:20:30.123", "started", LogType::NewLog { after_same_error: false })
    );
    assert_eq!(
        "\n\n🟢 [10:20:30.123] > started\n\n",
        log_line("🟢", "10:20:30.123", "started", LogType::NewLog { after_same_error: true })
    );
}

#[test]
fn a_repeat_is_written_as_a_counter() {
    assert_eq!(
        "🔴 [10:20:30.123] > Same error (1)\r",
        log_line("🔴", "10:20:30.123", "no route", LogType::SameError(1))
    );
    assert_eq!(
        "🔴 [10:20:30.123] > Same error (120)\r",
        log_line("🔴", "10:20:30.123", "no route", LogType::SameError(120))
    );
}

#[test]
fn write_log_handles_the_record_and_builds_its_line() {
    let mut last = LastLog::new();
    let first = write_log(&mut last, Level::Error, "no route");
    assert!(first.starts_with("🔴 ["));
    assert!(first.ends_with("] > no route\n\n"));
    let time = &first["🔴 [".len()..first.len() - "] > no route\n\n".len()];
    assert_eq!(12, time.len());
    assert_eq!(
        first,
        log_line("🔴", time, "no route", LogType::NewLog { after_same_error: false })
    );
    let second = write_log(&mut last, Level::Error, "no route");
    assert!(second.starts_with("🔴 ["));
    assert!(second.ends_with("] > Same error (1)\r"));
    let third = write_log(&mut last, Level::Info, "connected");
    assert!(third.starts_with("\n\n🟢 ["));
    assert!(third.ends_with("] > connected\n\n"));
}

#[test]
fn kinds_of_updates_have_names() {
    let names = [
        (UpdateKind::Message, "Message"),
        (UpdateKind::EditedMessage, "EditedMessage"),
        (UpdateKind::ChannelPost, "ChannelPost"),
        (UpdateKind::EditedChannelPost, "EditedChannelPost"),
        (UpdateKind::InlineQuery, "InlineQuery"),
        (UpdateKind::ChosenInlineResult, "ChosenInlineResult"),
        (UpdateKind::CallbackQuery, "CallbackQuery"),
        (UpdateKind::ShippingQuery, "ShippingQuery"),
        (UpdateKind::PreCheckoutQuery, "PreCheckoutQuery"),
        (UpdateKind::Poll, "Poll"),
        (UpdateKind::PollAnswer, "PollAnswer"),
        (UpdateKind::MyChatMember, "MyChatMember"),
        (UpdateKind::ChatMember, "ChatMember"),
        (UpdateKind::ChatJoinRequest, "ChatJoinRequest"),
        (UpdateKind::Error, "Error"),
    ];
    for (kind, name) in names {
        assert_eq!(name, upd_kind_name(&update(kind, 1, None)));
        assert_eq!(name, format!("{kind:?}"));
    }
}

#[test]
fn chat_is_called_by_its_title_or_its_id() {
    let titled = Chat {
        id: -1001,
        title: Some("Family".to_string()),
        private: false,
    };
    let untitled = Chat {
        id: -1001234567890,
        title: None,
        private: true,
    };
    assert_eq!(
        Some("Family".to_string()),
        chat_title_or_id(&update(UpdateKind::Message, 1, Some(titled)))
    );
    assert_eq!(
        Some("-1001234567890".to_string()),
        chat_title_or_id(&update(UpdateKind::Message, 1, Some(untitled)))
    );
    assert_eq!(None, chat_title_or_id(&update(UpdateKind::Poll, 1, None)));
}

#[test]
fn update_lines_name_kind_number_and_chat() {
    let titled = Chat {
        id: -1001,
        title: Some("Family".to_string()),
        private: false,
    };
    let untitled = Chat {
        id: 42,
        title: None,
        private: true,
    };
    assert_eq!(
        "Get Message #17 from Family",
        log_update(&update(UpdateKind::Message, 17, Some(titled)))
    );
    assert_eq!(
        "Get CallbackQuery #-3 from 42",
        log_update(&update(UpdateKind::CallbackQuery, -3, Some(untitled)))
    );
    assert_eq!(
        "Unhandled Poll #2147483647 from <unknown>",
        log_unhandled_update(&update(UpdateKind::Poll, i32::MAX, None))
    );
    assert_eq!(
        "Unhandled Error #-2147483648 from <unknown>",
        log_unhandled_update(&update(UpdateKind::Error, i32::MIN, None))
    );
}

#[test]
fn listener_rests_two_seconds_after_an_error() {
    let handler = for_update_listener();
    assert_eq!(UpdateListenerErrorHandler, *handler);
    assert_eq!(2, UpdateListenerErrorHandler::DELAY);
    assert_eq!("Sleep 2 sec ..", handler.sleep_notice());
}

#[test]
fn critical_failures_are_filed_under_the_digits_of_the_time() {
    assert_eq!("errors", DIRECTORY);
    assert_eq!(
        "202405041020301234567890300",
        file_name_at("2024-05-04T10:20:30.123456789+03:00")
    );
    assert_eq!("", file_name_at("now"));
    let name = file_name();
    assert!(name.len() >= 18);
    assert!(name.chars().all(|c| c.is_ascii_digit()));
    assert!(name.starts_with("20"));
}

#[test]
fn critical_failures_are_set_off_by_three_line_ends() {
    assert_eq!("EVENT HANDLING FAILED!!!\n\n\n", entry("EVENT HANDLING FAILED!!!"));
    assert_eq!("\n\n\n", entry(""));
}

#[test]
fn toast_is_shown_at_the_top_on_dark_green() {
    assert_eq!("#1e6c30", TOAST_BACKGROUND);
    assert_eq!(
        vec!["-g", "top", "-b", "#1e6c30", "Bot started"],
        toast_args("Bot started")
    );
    assert_eq!(vec!["-g", "top", "-b", "#1e6c30", ""], toast_args(""));
}
