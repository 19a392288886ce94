use ankiconnect_rs::anki_connect_client::AnkiConnectResponse;
use ankiconnect_rs::client::request::{Reply, ReplyKind};
use ankiconnect_rs::error::{AnkiConnectError, AnkiError, AnkiRequestError};
use ankiconnect_rs::http::{
    expect_names_and_ids, expect_nothing, expect_number, expect_numbers, expect_text,
    expect_texts, handle_empty_response, interpret_response, HttpRequestSender,
};
use ankiconnect_rs::request_sender::HttpAnkiConnectRequestSender;

#[test]
fn into_result_returns_error_when_both_are_none() {
    let response = AnkiConnectResponse::<()> {
        result: None,
        error: None,
    };
    let result: Result<(), AnkiRequestError> = response.into_result();
    assert!(matches!(
        result,
        Err(AnkiRequestError::AnkiConnectError(AnkiConnectError::Other(
            _
        )))
    ));
}

#[test]
fn into_result_names_the_empty_answer() {
    let response = AnkiConnectResponse::<u64> {
        result: None,
        error: None,
    };
    assert_eq!(
        response.into_result(),
        Err(AnkiRequestError::AnkiConnectError(AnkiConnectError::Other(
            "Both result and error are null. Probably a bug in AnkiConnect".to_string()
        )))
    );
}

#[test]
fn into_result_gives_the_result() {
    let response = AnkiConnectResponse {
        result: Some(vec![1u64, 2, 3]),
        error: None,
    };
    assert_eq!(response.into_result(), Ok(vec![1u64, 2, 3]));
}

#[test]
fn into_result_lets_the_error_decide() {
    let response = AnkiConnectResponse {
        result: Some(7u64),
        error: Some("model was not found: Basic".to_string()),
    };
    assert_eq!(
        response.into_result(),
        Err(AnkiRequestError::AnkiConnectError(
            AnkiConnectError::ModelNotFound("Basic".to_string())
        ))
    );
    let response = AnkiConnectResponse::<u64> {
        result: None,
        error: Some("deck was not found: NonExistingDeck".to_string()),
    };
    assert_eq!(
        response.into_result(),
        Err(AnkiRequestError::AnkiConnectError(
            AnkiConnectError::DeckNotFound("NonExistingDeck".to_string())
        ))
    );
}

#[test]
fn interpret_response_lets_the_error_decide() {
    let r = interpret_response(
        Some(Reply::Number(1)),
        Some("unsupported action".to_string()),
        ReplyKind::Number,
    );
    assert_eq!(
        r.unwrap_err(),
        AnkiError::AnkiConnectError(AnkiConnectError::UnsupportedAction)
    );
    let r = interpret_response(None, Some("whatever".to_string()), ReplyKind::Nothing);
    assert_eq!(
        r.unwrap_err(),
        AnkiError::AnkiConnectError(AnkiConnectError::Other("whatever".to_string()))
    );
}

#[test]
fn interpret_response_gives_the_result() {
    let r = interpret_response(Some(Reply::Text("x".to_string())), None, ReplyKind::Text);
    assert!(matches!(r, Ok(Reply::Text(s)) if s == "x"));
    let r = interpret_response(Some(Reply::Number(9)), None, ReplyKind::Text);
    assert!(matches!(r, Ok(Reply::Number(9))));
}

#[test]
fn an_empty_answer_is_success_only_where_nothing_is_expected() {
    assert!(matches!(
        handle_empty_response(ReplyKind::Nothing),
        Ok(Reply::Nothing)
    ));
    assert!(matches!(
        interpret_response(None, None, ReplyKind::Nothing),
        Ok(Reply::Nothing)
    ));
    for kind in [
        ReplyKind::Number,
        ReplyKind::Numbers,
        ReplyKind::Text,
        ReplyKind::Texts,
        ReplyKind::NamesAndIds,
        ReplyKind::Note,
        ReplyKind::DeckConfigs,
        ReplyKind::DeckTree,
        ReplyKind::DeckStats,
        ReplyKind::Models,
    ] {
        let expected = AnkiError::AnkiConnectError(AnkiConnectError::Other(
            "Empty response from AnkiConnect (both result and error are null)".to_string(),
        ));
        assert_eq!(handle_empty_response(kind).unwrap_err(), expected);
        assert_eq!(interpret_response(None, None, kind).unwrap_err(), expected);
    }
}

#[test]
fn replies_are_taken_by_shape() {
    let wrong = AnkiError::JsonError("The result does not have the expected shape".to_string());
    assert_eq!(expect_number(Ok(Reply::Number(4))), Ok(4));
    assert_eq!(expect_number(Ok(Reply::Nothing)), Err(wrong.clone()));
    assert_eq!(expect_numbers(Ok(Reply::Numbers(vec![1, 2]))), Ok(vec![1, 2]));
    assert_eq!(expect_numbers(Ok(Reply::Number(1))), Err(wrong.clone()));
    assert_eq!(
        expect_text(Ok(Reply::Text("a".to_string()))),
        Ok("a".to_string())
    );
    assert_eq!(
        expect_text(Ok(Reply::Texts(vec!["a".to_string()]))),
        Err(wrong.clone())
    );
    assert_eq!(
        expect_texts(Ok(Reply::Texts(vec!["a".to_string(), "b".to_string()]))),
        Ok(vec!["a".to_string(), "b".to_string()])
    );
    assert_eq!(
        expect_texts(Ok(Reply::Text("a".to_string()))),
        Err(wrong.clone())
    );
    assert_eq!(expect_nothing(Ok(Reply::Nothing)), Ok(()));
    assert_eq!(expect_nothing(Ok(Reply::Number(0))), Err(wrong.clone()));
    assert_eq!(
        expect_names_and_ids(Ok(Reply::NamesAndIds(vec![("a".to_string(), 1)]))),
        Ok(vec![("a".to_string(), 1)])
    );
    assert_eq!(expect_names_and_ids(Ok(Reply::Nothing)), Err(wrong));
}

#[test]
fn failures_of_the_sender_pass_through() {
    let failure = AnkiError::HttpError("timed out".to_string());
    assert_eq!(expect_number(Err(failure.clone())), Err(failure.clone()));
    assert_eq!(expect_numbers(Err(failure.clone())), Err(failure.clone()));
    assert_eq!(expect_text(Err(failure.clone())), Err(failure.clone()));
    assert_eq!(expect_texts(Err(failure.clone())), Err(failure.clone()));
    assert_eq!(expect_nothing(Err(failure.clone())), Err(failure));
}

#[test]
fn the_address_of_the_service() {
    let sender = HttpRequestSender::new("localhost", 8765);
    assert_eq!(sender.url(), "http://localhost:8765");
    assert_eq!(sender.api_version(), 6);
    let sender = HttpRequestSender::new("127.0.0.1", 0);
    assert_eq!(sender.url(), "http://127.0.0.1:0");
    let sender = HttpRequestSender::new("h", 65535);
    assert_eq!(sender.url(), "http://h:65535");
    assert_eq!(sender.clone(), sender);
}

#[test]
fn the_address_with_port() {
    let sender = HttpAnkiConnectRequestSender::new("localhost", 8765);
    assert_eq!(sender.get_url_with_port(), "http://localhost:8765");
    let sender = HttpAnkiConnectRequestSender::new("example.org", 80);
    assert_eq!(sender.get_url_with_port(), "http://example.org:80");
}
