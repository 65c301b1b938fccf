use jpdb::client::Client;
use jpdb::error::{Error, ErrorKind, RawError};
use jpdb::json::JsonValue;
use jpdb::request::{DeckVocabulary, Vocabulary};
use jpdb::text::decimal_text;

fn classify(status: u16, error: &str, message: &str) -> Error {
    Error::from_status(status, RawError::new(error, message))
}

fn transport_cause() -> ureq::Transport {
    let io = std::io::Error::new(std::io::ErrorKind::ConnectionRefused, "refused");
    ureq::Error::from(io).into_transport().unwrap()
}

#[test]
fn missing_key_is_classified() {
    let e = classify(403, "bad_key", "missing API key");
    assert_eq!(e.kind(), ErrorKind::MissingKey);
    assert_eq!(e.message(), Some("missing API key"));
}

#[test]
fn bad_key_is_classified() {
    let e = classify(403, "bad_key", "invalid API key");
    assert_eq!(e.kind(), ErrorKind::BadKey);
    assert_eq!(e.message(), Some("invalid API key"));
}

#[test]
fn other_forbidden_is_unhandled() {
    assert_eq!(classify(403, "bad_key", "expired API key").kind(), ErrorKind::Unhandled);
    assert_eq!(classify(403, "nope", "missing API key").kind(), ErrorKind::Unhandled);
}

#[test]
fn too_many_requests_is_classified() {
    let e = classify(429, "too_many_requests", "anything at all");
    assert_eq!(e.kind(), ErrorKind::TooManyRequests);
    assert_eq!(e.message(), Some("anything at all"));
    assert_eq!(classify(429, "slow_down", "x").kind(), ErrorKind::Unhandled);
}

#[test]
fn bad_request_is_classified() {
    assert_eq!(classify(400, "anything", "bad_request").kind(), ErrorKind::BadRequest);
    assert_eq!(classify(400, "bad_request", "other").kind(), ErrorKind::Unhandled);
}

#[test]
fn unknown_status_is_unhandled_with_envelope() {
    let e = classify(404, "x", "y");
    assert_eq!(e.kind(), ErrorKind::Unhandled);
    match e {
        Error::Unhandled(code, raw) => {
            assert_eq!(code, 404);
            assert_eq!(raw.error(), "x");
            assert_eq!(raw.error_message(), "y");
        }
        _ => panic!("expected an unhandled error"),
    }
    assert_eq!(classify(500, "bad_key", "missing API key").kind(), ErrorKind::Unhandled);
}

#[test]
fn transport_failure_is_classified() {
    let e = Error::from_transport(transport_cause());
    assert_eq!(e.kind(), ErrorKind::Transport);
    assert_eq!(e.message(), None);
}

#[test]
fn kind_of_each_variant() {
    assert_eq!(Error::ApiUnavailable(String::new()).kind(), ErrorKind::ApiUnavailable);
    assert_eq!(Error::TooManyDecks(String::new()).kind(), ErrorKind::TooManyDecks);
    assert_eq!(Error::TooManyCardsInDeck(String::new()).kind(), ErrorKind::TooManyCardsInDeck);
    assert_eq!(Error::TooManyCardsTotal(String::new()).kind(), ErrorKind::TooManyCardsTotal);
    assert_eq!(Error::BadDeck(String::new()).kind(), ErrorKind::BadDeck);
    assert_eq!(Error::BadVid(String::new()).kind(), ErrorKind::BadVid);
    assert_eq!(Error::BadSid(String::new()).kind(), ErrorKind::BadSid);
    assert_eq!(Error::BadRid(String::new()).kind(), ErrorKind::BadRid);
    assert_eq!(Error::BadImage(String::new()).kind(), ErrorKind::BadImage);
    assert_eq!(Error::BadAudio(String::new()).kind(), ErrorKind::BadAudio);
    assert_eq!(Error::BadSentence(String::new()).kind(), ErrorKind::BadSentence);
    assert_eq!(Error::BadTranslation(String::new()).kind(), ErrorKind::BadTranslation);
    assert_eq!(Error::decode_failure("x").kind(), ErrorKind::DeserializeError);
}

#[test]
fn error_texts() {
    assert_eq!(
        classify(403, "bad_key", "missing API key").to_string(),
        "No API key was specified. missing API key"
    );
    assert_eq!(
        classify(400, "e", "bad_request").to_string(),
        "The request body did not match the schema. bad_request"
    );
    assert_eq!(
        Error::BadSentence(String::from("!")).to_string(),
        "The sentence is too long, or the given vocabulary was not found in it. !"
    );
    assert_eq!(
        classify(404, "x", "y").to_string(),
        r#"Unhandled error. Code: 404. Raw: RawError { error_message: "y", error: "x" }"#
    );
    assert_eq!(
        classify(500, "a\"b", "").to_string(),
        r#"Unhandled error. Code: 500. Raw: RawError { error_message: "", error: "a\"b" }"#
    );
    assert_eq!(Error::decode_failure("broken body").to_string(), "broken body");
    let cause = transport_cause();
    let expected = cause.to_string();
    assert_eq!(Error::from_transport(cause).to_string(), expected);
}

#[test]
fn decimal_notation() {
    assert_eq!(decimal_text(0), "0");
    assert_eq!(decimal_text(9), "9");
    assert_eq!(decimal_text(10), "10");
    assert_eq!(decimal_text(429), "429");
    assert_eq!(decimal_text(65535), "65535");
}

#[test]
fn occurrences_are_zipped_by_position() {
    let deck = DeckVocabulary {
        vocabulary: vec![Vocabulary(12, 13), Vocabulary(14, 11)],
        occurences: Some(vec![5, 9]),
    };
    let pairs = deck.occurrences().unwrap();
    assert_eq!(pairs, vec![(Vocabulary(12, 13), 5), (Vocabulary(14, 11), 9)]);
    let map: std::collections::HashMap<Vocabulary, u32> = pairs.into_iter().collect();
    assert_eq!(map[&Vocabulary(12, 13)], 5);
    assert_eq!(map[&Vocabulary(14, 11)], 9);
}

#[test]
fn mismatched_occurrences_are_an_error() {
    let deck = DeckVocabulary {
        vocabulary: vec![Vocabulary(12, 13), Vocabulary(14, 11)],
        occurences: Some(vec![5]),
    };
    assert_eq!(deck.occurrences().unwrap_err().kind(), ErrorKind::DeserializeError);
    let deck = DeckVocabulary {
        vocabulary: vec![Vocabulary(12, 13)],
        occurences: Some(vec![5, 9]),
    };
    assert_eq!(deck.occurrences().unwrap_err().kind(), ErrorKind::DeserializeError);
}

#[test]
fn missing_occurrences_are_an_error() {
    let deck = DeckVocabulary { vocabulary: vec![Vocabulary(1, 2)], occurences: None };
    assert_eq!(deck.occurrences().unwrap_err().kind(), ErrorKind::DeserializeError);
    let empty = DeckVocabulary { vocabulary: vec![], occurences: Some(vec![]) };
    assert_eq!(empty.occurrences().unwrap(), vec![]);
}

#[test]
fn ping_without_key_and_with_bad_key() {
    let no_key = Client::new("");
    assert_eq!(no_key.bearer(), "Bearer ");
    let ping = no_key.ping_request();
    assert_eq!(ping.url, "https://jpdb.io/api/v1/ping");
    assert!(matches!(ping.body, JsonValue::Null));
    let answer = classify(403, "bad_key", "missing API key");
    assert_eq!(answer.kind(), ErrorKind::MissingKey);

    let bad_key = Client::new("badtoken");
    assert_eq!(bad_key.bearer(), "Bearer badtoken");
    let answer = classify(403, "bad_key", "invalid API key");
    assert_eq!(answer.kind(), ErrorKind::BadKey);
}
