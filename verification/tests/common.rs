use bot_core::common::{any, Cause, Error, RequestErrorKind};
use bot_core::db::txn::TxnError;

fn cause(text: &str) -> Cause {
    Cause {
        text: text.to_string(),
        detail: format!("{text:?}"),
    }
}

#[test]
fn only_a_network_failure_of_a_request_is_a_network_problem() {
    assert!(Error::Teloxide(RequestErrorKind::Network, cause("timeout")).is_network_problem());
    assert!(!Error::Teloxide(RequestErrorKind::Api, cause("bad request")).is_network_problem());
    assert!(!Error::Teloxide(RequestErrorKind::MigrateToChatId, cause("moved")).is_network_problem());
    assert!(!Error::Teloxide(RequestErrorKind::RetryAfter, cause("flood")).is_network_problem());
    assert!(!Error::Teloxide(RequestErrorKind::InvalidJson, cause("json")).is_network_problem());
    assert!(!Error::Teloxide(RequestErrorKind::Io, cause("io")).is_network_problem());
    assert!(!Error::Sqlx(cause("network")).is_network_problem());
    assert!(!Error::Other(cause("network")).is_network_problem());
}

#[test]
fn error_prints_the_message_of_its_cause() {
    assert_eq!("locked", Error::Sqlx(cause("locked")).to_string());
    assert_eq!(
        "timeout",
        Error::Teloxide(RequestErrorKind::Network, cause("timeout")).to_string()
    );
    assert_eq!("oops", Error::Other(cause("oops")).to_string());
    assert_eq!("\"oops\"", Error::Other(cause("oops")).cause().detail);
    assert_eq!("oops", Error::Other(cause("oops")).into_cause().text);
}

#[test]
fn error_from_text_is_of_no_special_kind() {
    for error in [
        Error::other("No admin chat id yet"),
        Error::from("No admin chat id yet"),
        Error::from("No admin chat id yet".to_string()),
    ] {
        match error {
            Error::Other(cause) => {
                assert_eq!("No admin chat id yet", cause.text);
                assert_eq!("\"No admin chat id yet\"", cause.detail);
            }
            _ => panic!("expected Error::Other"),
        }
    }
}

#[test]
fn detail_of_a_text_is_quoted_and_escaped() {
    let error = Error::other("say \"hi\"\n");
    assert_eq!("say \"hi\"\n", error.cause().text);
    assert_eq!("\"say \\\"hi\\\"\\n\"", error.cause().detail);
    assert_eq!("\"\"", Error::other("").cause().detail);
}

#[test]
fn any_keeps_what_the_failure_prints() {
    let failure = "x".parse::<u8>().unwrap_err();
    match any(failure.clone()) {
        Error::Other(cause) => {
            assert_eq!(failure.to_string(), cause.text);
            assert_eq!(format!("{failure:?}"), cause.detail);
            assert_eq!("invalid digit found in string", cause.text);
        }
        _ => panic!("expected Error::Other"),
    }
    assert!(!any(failure).is_network_problem());
}

#[test]
fn misuse_of_the_transaction_is_a_failure_of_no_special_kind() {
    match Error::from(TxnError::NoActiveScope) {
        Error::Other(cause) => {
            assert_eq!("No shared txn", cause.text);
            assert_eq!("\"No shared txn\"", cause.detail);
        }
        _ => panic!("expected Error::Other"),
    }
    match Error::from(TxnError::AlreadyBorrowed) {
        Error::Other(cause) => {
            assert_eq!("Shared txn borrowed", cause.text);
            assert_eq!("\"Shared txn borrowed\"", cause.detail);
        }
        _ => panic!("expected Error::Other"),
    }
    assert!(!Error::from(TxnError::NoActiveScope).is_network_problem());
    assert!(!Error::from(TxnError::AlreadyBorrowed).is_network_problem());
}

#[test]
fn cloned_error_is_the_same_error() {
    let error = Error::Teloxide(RequestErrorKind::Network, cause("timeout"));
    let copy = error.clone();
    assert!(copy.is_network_problem());
    assert_eq!(error.cause().text, copy.cause().text);
    assert_eq!(error.cause().detail, copy.cause().detail);
    let sqlx = Error::Sqlx(cause("locked")).clone();
    assert!(matches!(sqlx, Error::Sqlx(_)));
    let other = Error::Other(cause("oops")).clone();
    assert!(matches!(other, Error::Other(_)));
}
