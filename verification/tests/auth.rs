use bot_core::auth::{Admin, Auth};
use bot_core::auth_proxy::{
    admin_chat_id, allow_chat, deny_chat, filter_admin_chat_id, is_allowed_chat, request_auth,
    restore, set_admin_chat_id, AuthCommand, CHAT_ALLOWED, CHAT_DENIED, WELCOME_ADMIN,
    WELCOME_CHAT,
};
use bot_core::common::Error;
use bot_core::update::{Chat, Message, Update, UpdateKind};
use std::collections::HashSet;

fn auth() -> Auth {
    Auth::new("boss".to_string(), "sign-1".to_string())
}

fn chat(id: i64, private: bool) -> Chat {
    Chat {
        id,
        title: None,
        private,
    }
}

fn update(chat: Option<Chat>, username: Option<&str>) -> Update {
    Update {
        id: 1,
        kind: UpdateKind::Message,
        chat,
        username: username.map(str::to_string),
    }
}

fn message(chat: Chat, username: Option<&str>) -> Message {
    Message {
        username: username.map(str::to_string),
        chat,
    }
}

#[test]
fn new_auth_knows_the_admin_and_allows_no_chat() {
    let auth = auth();
    assert_eq!(
        &Admin {
            username: "boss".to_string(),
            chat_id: None
        },
        auth.admin()
    );
    assert_eq!("sign-1", auth.sign());
    assert!(auth.allowed_chats().is_empty());
    assert!(!auth.is_allowed(1));
}

#[test]
fn auth_is_actual_for_its_admin_and_sign_only() {
    let auth = auth();
    assert!(auth.is_actual(&"boss".to_string(), "sign-1"));
    assert!(!auth.is_actual(&"boss".to_string(), "sign-2"));
    assert!(!auth.is_actual(&"Boss".to_string(), "sign-1"));
    assert!(!auth.is_actual(&"".to_string(), ""));
}

#[test]
fn chats_are_allowed_and_denied() {
    let mut auth = auth();
    auth.allow(10);
    auth.allow(-20);
    auth.allow(10);
    assert_eq!(&HashSet::from([10, -20]), auth.allowed_chats());
    assert!(auth.is_allowed(10));
    assert!(auth.is_allowed(-20));
    auth.deny(10);
    auth.deny(30);
    assert_eq!(&HashSet::from([-20]), auth.allowed_chats());
    assert!(!auth.is_allowed(10));
    assert_eq!("boss", auth.admin().username);
    assert_eq!("sign-1", auth.sign());
}

#[test]
fn admin_chat_is_noted() {
    let mut auth = auth();
    auth.allow(10);
    auth.set_admin_chat_id(77);
    assert_eq!(Some(77), auth.admin().chat_id);
    assert_eq!("boss", auth.admin().username);
    set_admin_chat_id(&mut auth, 78);
    assert_eq!(Some(78), auth.admin().chat_id);
    assert_eq!(&HashSet::from([10]), auth.allowed_chats());
}

#[test]
fn commands_are_sent_as_messages() {
    assert_eq!("/auth", AuthCommand::Auth.message());
    assert_eq!("/allow 42", AuthCommand::Allow(42).message());
    assert_eq!("/allow -1001234567890", AuthCommand::Allow(-1001234567890).message());
    assert_eq!("/deny 0", AuthCommand::Deny(0).message());
    assert_eq!("/deny -9223372036854775808", AuthCommand::Deny(i64::MIN).message());
}

#[test]
fn stored_auth_is_kept_if_it_is_actual() {
    let mut stored = auth();
    stored.allow(10);
    stored.set_admin_chat_id(77);
    let restored = restore(Some(stored), "boss".to_string(), "sign-1".to_string());
    assert_eq!(Some(77), restored.admin().chat_id);
    assert!(restored.is_allowed(10));
}

#[test]
fn stored_auth_is_dropped_if_it_is_not_actual() {
    for (admin, sign) in [("boss", "sign-2"), ("chief", "sign-1")] {
        let mut stored = auth();
        stored.allow(10);
        stored.set_admin_chat_id(77);
        let restored = restore(Some(stored), admin.to_string(), sign.to_string());
        assert_eq!(Auth::new(admin.to_string(), sign.to_string()), restored);
        assert!(!restored.is_allowed(10));
    }
    assert_eq!(auth(), restore(None, "boss".to_string(), "sign-1".to_string()));
}

#[test]
fn admin_chat_is_the_private_chat_of_the_admin() {
    let auth = auth();
    assert_eq!(
        Some(5),
        filter_admin_chat_id(&message(chat(5, true), Some("boss")), &auth)
    );
    assert_eq!(
        None,
        filter_admin_chat_id(&message(chat(5, false), Some("boss")), &auth)
    );
    assert_eq!(
        None,
        filter_admin_chat_id(&message(chat(5, true), Some("guest")), &auth)
    );
    assert_eq!(None, filter_admin_chat_id(&message(chat(5, true), None), &auth));
}

#[test]
fn allowed_chats_and_the_admin_get_through() {
    let mut auth = auth();
    auth.allow(-100);
    assert!(is_allowed_chat(&auth, &update(Some(chat(-100, false)), None)));
    assert!(is_allowed_chat(&auth, &update(Some(chat(-100, false)), Some("guest"))));
    assert!(is_allowed_chat(&auth, &update(Some(chat(5, true)), Some("boss"))));
    assert!(!is_allowed_chat(&auth, &update(Some(chat(5, true)), Some("guest"))));
    assert!(!is_allowed_chat(&auth, &update(Some(chat(5, true)), None)));
    assert!(!is_allowed_chat(&auth, &update(Some(chat(5, false)), Some("boss"))));
    assert!(!is_allowed_chat(&auth, &update(None, Some("boss"))));
    auth.deny(-100);
    assert!(!is_allowed_chat(&auth, &update(Some(chat(-100, false)), None)));
}

fn assert_no_admin_chat(error: Error) {
    match error {
        Error::Other(cause) => {
            assert_eq!("No admin chat id yet", cause.text);
            assert_eq!("\"No admin chat id yet\"", cause.detail);
        }
        _ => panic!("expected Error::Other"),
    }
}

#[test]
fn nothing_is_answered_while_the_admin_chat_is_unknown() {
    let mut auth = auth();
    assert_no_admin_chat(admin_chat_id(&auth).unwrap_err());
    assert_no_admin_chat(allow_chat(&mut auth, 10).unwrap_err());
    assert!(!auth.is_allowed(10));
    auth.allow(10);
    assert_no_admin_chat(deny_chat(&mut auth, 10).unwrap_err());
    assert!(auth.is_allowed(10));
    assert_no_admin_chat(request_auth(&message(chat(10, false), None), &auth).unwrap_err());
}

#[test]
fn admin_lets_chats_in_and_puts_them_out() {
    let mut auth = auth();
    auth.set_admin_chat_id(77);
    assert_eq!(77, admin_chat_id(&auth).unwrap());
    assert_eq!(77, allow_chat(&mut auth, 10).unwrap());
    assert!(auth.is_allowed(10));
    assert_eq!(77, deny_chat(&mut auth, 10).unwrap());
    assert!(!auth.is_allowed(10));
    assert_eq!(77, deny_chat(&mut auth, 10).unwrap());
    assert_eq!(Some(77), auth.admin().chat_id);
}

#[test]
fn admin_is_asked_about_a_chat() {
    let mut auth = auth();
    auth.set_admin_chat_id(77);
    let untitled = request_auth(&message(chat(-1001, false), None), &auth).unwrap();
    assert_eq!(77, untitled.admin_chat_id);
    assert_eq!("Разрешить доступ для ChatId(-1001)?", untitled.text);
    assert_eq!("/allow -1001", untitled.allow);
    assert_eq!("/deny -1001", untitled.deny);
    let titled = Chat {
        id: 5,
        title: Some("Family".to_string()),
        private: false,
    };
    let titled = request_auth(&message(titled, Some("guest")), &auth).unwrap();
    assert_eq!("Разрешить доступ для Family?", titled.text);
    assert_eq!("/allow 5", titled.allow);
    assert_eq!("/deny 5", titled.deny);
}

#[test]
fn answers_are_worded() {
    assert_eq!("Добро пожаловать, босс!", WELCOME_ADMIN);
    assert_eq!("Здравия желаю!", WELCOME_CHAT);
    assert_eq!("Чат авторизован", CHAT_ALLOWED);
    assert_eq!("Чат заблокирован", CHAT_DENIED);
}
