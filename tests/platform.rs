use gmat_zalo_bot::client::{
    normalize_updates, validate_response, ClientError, ZaloChat, ZaloMessage, ZaloSender,
    ZaloUpdate, ZaloUpdatesResult,
};
use gmat_zalo_bot::endpoints::{bot_method_url, index_url, question_url, releases_url};
use gmat_zalo_bot::poller::{next_poll_action, PollAction, ERROR_BACKOFF_MILLIS};

fn message(id: &str, text: &str) -> ZaloMessage {
    ZaloMessage {
        sender: ZaloSender { id: format!("user-{}", id), is_bot: false, display_name: None },
        chat: ZaloChat { id: format!("chat-{}", id), chat_type: "PRIVATE".to_string() },
        text: Some(text.to_string()),
        photo: None,
        caption: None,
        message_id: id.to_string(),
        date: 1,
    }
}

fn update(m: Option<ZaloMessage>) -> ZaloUpdate {
    ZaloUpdate { message: m, event_name: "message.text.received".to_string() }
}

#[test]
fn empty_object_result_gives_no_messages() {
    let body = "{\"ok\":true,\"result\":{}}";
    assert_eq!(validate_response(200, body), Ok(()));
    let result = ZaloUpdatesResult::Empty(serde_json::Value::Object(serde_json::Map::new()));
    assert!(normalize_updates(result).is_empty());
    assert!(matches!(next_poll_action(false, Ok(vec![])), PollAction::PollAgain));
}

#[test]
fn single_and_multiple_updates_are_flattened_in_order() {
    let one = normalize_updates(ZaloUpdatesResult::Single(update(Some(message("1", "ps")))));
    assert_eq!(one.len(), 1);
    assert_eq!(one[0].message_id, "1");
    let none = normalize_updates(ZaloUpdatesResult::Single(update(None)));
    assert!(none.is_empty());
    let many = normalize_updates(ZaloUpdatesResult::Multiple(vec![
        update(Some(message("1", "a"))),
        update(None),
        update(Some(message("2", "b"))),
        update(Some(message("3", "c"))),
    ]));
    let ids: Vec<&str> = many.iter().map(|m| m.message_id.as_str()).collect();
    assert_eq!(ids, vec!["1", "2", "3"]);
}

#[test]
fn non_success_status_is_a_transport_error() {
    assert_eq!(
        validate_response(502, "bad gateway"),
        Err(ClientError::Status { status: 502, body: "bad gateway".to_string() })
    );
    assert_eq!(
        validate_response(199, "{\"ok\":true,\"result\":1}"),
        Err(ClientError::Status { status: 199, body: "{\"ok\":true,\"result\":1}".to_string() })
    );
}

#[test]
fn false_flag_carries_the_description() {
    assert_eq!(
        validate_response(200, "{\"ok\":false,\"description\":\"chat not found\"}"),
        Err(ClientError::Api("chat not found".to_string()))
    );
    assert_eq!(
        validate_response(200, "{\"ok\":false}"),
        Err(ClientError::Api("{\"ok\":false}".to_string()))
    );
}

#[test]
fn malformed_and_resultless_answers_are_refused() {
    assert_eq!(validate_response(200, "<html>"), Err(ClientError::Malformed("<html>".to_string())));
    assert_eq!(validate_response(200, "{\"ok\":true}"), Err(ClientError::MissingResult));
    assert_eq!(
        validate_response(201, "{\"ok\":true,\"result\":{\"message_id\":\"m\",\"date\":3}}"),
        Ok(())
    );
}

#[test]
fn poll_timeout_continues_at_once() {
    assert!(matches!(
        next_poll_action(false, Err("operation timeout".to_string())),
        PollAction::PollAgain
    ));
}

#[test]
fn other_poll_errors_back_off() {
    match next_poll_action(false, Err("connection refused".to_string())) {
        PollAction::Backoff(ms) => assert_eq!(ms, ERROR_BACKOFF_MILLIS),
        other => panic!("unexpected {:?}", other),
    }
    assert_eq!(ERROR_BACKOFF_MILLIS, 5000);
}

#[test]
fn shutdown_stops_the_loop() {
    assert!(matches!(next_poll_action(true, Ok(vec![message("1", "x")])), PollAction::Stop));
    assert!(matches!(next_poll_action(true, Err("x".to_string())), PollAction::Stop));
}

#[test]
fn batches_are_dispatched_in_order() {
    match next_poll_action(false, Ok(vec![message("1", "a"), message("2", "b")])) {
        PollAction::Dispatch(ms) => {
            let ids: Vec<&str> = ms.iter().map(|m| m.message_id.as_str()).collect();
            assert_eq!(ids, vec!["1", "2"]);
        }
        other => panic!("unexpected {:?}", other),
    }
}

#[test]
fn endpoint_urls() {
    assert_eq!(bot_method_url("T0K", "getUpdates"), "https://bot-api.zapps.me/botT0K/getUpdates");
    assert_eq!(index_url(), "https://mister-teddy.github.io/gmat-database/index.json");
    assert_eq!(question_url("42"), "https://mister-teddy.github.io/gmat-database/42.json");
    assert_eq!(releases_url("me/imgs"), "https://api.github.com/repos/me/imgs/releases");
}
