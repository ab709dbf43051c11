//! Requests to Stump and what their answers mean.

use stump_sync::graphql::{
    answer, refusal, server_error, Exchange, ExchangeReply, ExchangeStep,
};
use stump_sync::stump_client::{
    library_media, StumpClient, GET_LIBRARY_MEDIA_QUERY, LIST_LIBRARIES_QUERY,
    MARK_COMPLETE_MUTATION, UPDATE_PROGRESS_MUTATION,
};
use stump_sync::types::SyncError;

fn setup_client() -> StumpClient {
    match StumpClient::new(
        "http://localhost:10801".to_string(),
        "test-api-key".to_string(),
        "test-user-id".to_string(),
    ) {
        Ok(client) => client,
        Err(e) => panic!("{}", e.to_string()),
    }
}

#[test]
fn test_update_progress_sends_correct_mutation() {
    let request = setup_client().update_progress("media-123", 5);
    assert!(request.url.ends_with("/graphql"));
    assert!(request.body.contains("updateMediaProgress"));
    assert!(request.body.contains("\"id\":\"media-123\""));
    assert!(request.body.contains("\"page\":5"));
}

#[test]
fn test_mark_complete_sends_correct_mutation() {
    let request = setup_client().mark_complete("media-456");
    assert!(request.url.ends_with("/graphql"));
    assert!(request.body.contains("markMediaAsComplete"));
    assert!(request.body.contains("\"id\":\"media-456\""));
}

#[test]
fn test_auth_header_is_set() {
    assert_eq!(setup_client().authorization(), "Bearer test-api-key");
    assert_eq!(setup_client().user_id(), "test-user-id");
}

/// Three attempts, each met by a server error, and the last error comes back.
#[test]
fn test_retry_on_http_500() {
    let mut exchange: Exchange<u8> = Exchange::new();
    let mut posts = Vec::new();
    loop {
        match exchange.next() {
            ExchangeStep::Post { delay_ms } => {
                posts.push(delay_ms);
                exchange = exchange.feed(ExchangeReply::Status(500));
            }
            ExchangeStep::ReadText => {
                exchange = exchange.feed(ExchangeReply::Text(Some("internal error".into())));
            }
            ExchangeStep::ReadJson => panic!("a server error has no answer to parse"),
            ExchangeStep::Finish => break,
        }
    }
    assert_eq!(posts, vec![0, 1000, 2000]);
    let result = exchange.into_result().unwrap();
    assert!(result.is_err());
    match result.unwrap_err() {
        SyncError::Http(msg) => {
            assert!(msg.contains("server error"), "got: {msg}");
            assert_eq!(msg, "server error 500 Internal Server Error: internal error");
        }
        other => panic!("expected Http error, got: {}", other.to_string()),
    }
}

#[test]
fn test_graphql_error_handling() {
    let exchange: Exchange<u8> = Exchange::new();
    let exchange = exchange.feed(ExchangeReply::Status(200));
    let exchange = exchange.feed(ExchangeReply::Json {
        data: None,
        errors: Some(vec!["media not found".into(), "permission denied".into()]),
    });
    let result = exchange.into_result().unwrap();
    assert!(result.is_err());
    match result.unwrap_err() {
        SyncError::GraphQL(msg) => {
            assert!(msg.contains("media not found"), "got: {msg}");
            assert!(msg.contains("permission denied"), "got: {msg}");
        }
        other => panic!("expected GraphQL error, got: {}", other.to_string()),
    }
}

#[test]
fn test_queries_match_real_schema() {
    // Names that the schema of Stump has.
    assert!(GET_LIBRARY_MEDIA_QUERY.contains("libraryById"));
    assert!(GET_LIBRARY_MEDIA_QUERY.contains("readProgress"));
    assert!(GET_LIBRARY_MEDIA_QUERY.contains("readHistory"));
    assert!(UPDATE_PROGRESS_MUTATION.contains("updateMediaProgress"));
    assert!(MARK_COMPLETE_MUTATION.contains("markMediaAsComplete"));

    // Names that it does not have.
    let all =
        format!("{GET_LIBRARY_MEDIA_QUERY}{UPDATE_PROGRESS_MUTATION}{MARK_COMPLETE_MUTATION}");
    for forbidden in [
        format!("{}{}", "readPro", "gresses"),
        format!("{}{}", "putMedia", "Completion"),
        format!("{}{}", "Update", "MediaProgress"),
    ] {
        assert!(
            !all.contains(&forbidden),
            "fictional token `{forbidden}` reappeared in a query/mutation string"
        );
    }
}

#[test]
fn test_get_library_media_null_library_is_empty() {
    assert!(library_media(None).is_empty());
    let exchange: Exchange<Option<u8>> = Exchange::new();
    let exchange = exchange.feed(ExchangeReply::Status(200));
    let exchange = exchange.feed(ExchangeReply::Json { data: Some(None), errors: None });
    assert_eq!(exchange.into_result().unwrap().ok(), Some(None));
}

#[test]
fn requests_name_the_library() {
    let client = setup_client();
    let listing = client.list_libraries();
    assert!(listing.body.contains("ListLibraries"));
    assert!(listing.body.ends_with(",\"variables\":null}"));
    assert_eq!(listing.url, "http://localhost:10801/graphql");
    let media = client.get_library_media("lib-1");
    assert!(media.body.contains("GetLibraryMedia"));
    assert!(media.body.ends_with(",\"variables\":{\"libraryId\":\"lib-1\"}}"));
    assert!(LIST_LIBRARIES_QUERY.contains("libraries("));
}

/// The body is the JSON that the serializer itself would give.
#[test]
fn bodies_are_json() {
    let client = setup_client();
    let nasty = "a\"b\\c\n\t\r\u{8}\u{c}\u{1}\u{1f}\u{7f}é日/";
    let body = client.update_progress(nasty, -7).body;
    let value: serde_json::Value = serde_json::from_str(&body).unwrap();
    assert_eq!(value["query"], UPDATE_PROGRESS_MUTATION);
    assert_eq!(value["variables"]["id"], nasty);
    assert_eq!(value["variables"]["page"], -7);
    assert_eq!(serde_json::to_string(&value).unwrap(), body);

    let body = client.mark_complete(nasty).body;
    let value: serde_json::Value = serde_json::from_str(&body).unwrap();
    assert_eq!(value["variables"]["id"], nasty);
    assert!(body.contains("\\u0001\\u001f\u{7f}é日/"));
}

#[test]
fn keys_unfit_for_a_header_are_refused() {
    for (key, fit) in [("", true), ("a b\tc", true), ("é", true), ("a\nb", false), ("\u{7f}", false)]
    {
        let made = StumpClient::new("http://h//".into(), key.into(), "u".into());
        match made {
            Ok(client) => {
                assert!(fit, "{key:?}");
                assert_eq!(client.authorization(), format!("Bearer {key}"));
                assert_eq!(client.list_libraries().url, "http://h/graphql");
            }
            Err(e) => {
                assert!(!fit, "{key:?}");
                assert_eq!(
                    e.to_string(),
                    "config error: invalid API key header: failed to parse header value"
                );
            }
        }
    }
}

#[test]
fn transport_errors_are_retried_and_the_last_one_returned() {
    let mut exchange: Exchange<u8> = Exchange::new();
    for m in ["one", "two", "three"] {
        assert!(matches!(exchange.next(), ExchangeStep::Post { .. }));
        exchange = exchange.feed(ExchangeReply::Unreachable(m.into()));
    }
    assert!(matches!(exchange.next(), ExchangeStep::Finish));
    assert_eq!(exchange.into_result().unwrap().unwrap_err().to_string(), "HTTP error: three");
}

#[test]
fn recovery_after_a_failure_is_a_success() {
    let exchange: Exchange<u8> = Exchange::new();
    let exchange = exchange.feed(ExchangeReply::Status(503));
    let exchange = exchange.feed(ExchangeReply::Text(None));
    assert!(matches!(exchange.next(), ExchangeStep::Post { delay_ms: 1000 }));
    let exchange = exchange.feed(ExchangeReply::Status(201));
    let exchange = exchange.feed(ExchangeReply::Json { data: Some(4), errors: Some(vec![]) });
    assert_eq!(exchange.into_result().unwrap().ok(), Some(4));
}

#[test]
fn refusals_are_not_retried() {
    for (code, line) in [(404, "404 Not Found"), (302, "302 Found"), (600, "600 <unknown status code>")]
    {
        let exchange: Exchange<u8> = Exchange::new();
        let exchange = exchange.feed(ExchangeReply::Status(code));
        assert!(matches!(exchange.next(), ExchangeStep::ReadText));
        let exchange = exchange.feed(ExchangeReply::Text(Some("why".into())));
        assert!(matches!(exchange.next(), ExchangeStep::Finish));
        assert_eq!(
            exchange.into_result().unwrap().unwrap_err().to_string(),
            format!("HTTP error: HTTP {line}: why")
        );
    }
}

#[test]
fn unreadable_json_is_an_error() {
    let exchange: Exchange<u8> = Exchange::new();
    let exchange = exchange.feed(ExchangeReply::Status(200));
    let exchange = exchange.feed(ExchangeReply::BadJson("eof".into()));
    assert_eq!(
        exchange.into_result().unwrap().unwrap_err().to_string(),
        "HTTP error: failed to parse response: eof"
    );
}

#[test]
fn replies_out_of_turn_change_nothing() {
    let exchange: Exchange<u8> = Exchange::new();
    let exchange = exchange.feed(ExchangeReply::Text(None));
    assert!(matches!(exchange.next(), ExchangeStep::Post { delay_ms: 0 }));
    assert!(exchange.into_result().is_none());
}

#[test]
fn answers_and_their_errors() {
    assert_eq!(answer(Some(1), None).ok(), Some(1));
    assert_eq!(answer(Some(1), Some(vec![])).ok(), Some(1));
    assert_eq!(
        answer(Some(1), Some(vec!["a".into(), "b".into()])).unwrap_err().to_string(),
        "GraphQL error: a; b"
    );
    assert_eq!(
        answer::<u8>(None, None).unwrap_err().to_string(),
        "GraphQL error: response contained no data"
    );
    assert_eq!(server_error("500 X", "b").to_string(), "HTTP error: server error 500 X: b");
    assert_eq!(refusal("404 X", "b").to_string(), "HTTP error: HTTP 404 X: b");
}
