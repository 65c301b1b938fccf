use jpdb::client::Client;
use jpdb::json::JsonValue;
use jpdb::request::{
    dedup_fields, AddVocabularyOptions, AnyDeckId, AnyDeckWidget, CreateEmptyDeckResponse,
    DeckQueryField, DeckTypeToList, QueryField, SetCardSentenceOptions, Sid, SpecialDeckId,
    TokenQueryField, UserDeckId, Vid, VocabQueryField, Vocabulary,
};

fn to_serde(v: &JsonValue) -> serde_json::Value {
    match v {
        JsonValue::Null => serde_json::Value::Null,
        JsonValue::Bool(b) => serde_json::Value::Bool(*b),
        JsonValue::Number(n) => serde_json::Value::from(*n),
        JsonValue::Text(s) => serde_json::Value::String(s.clone()),
        JsonValue::Array(items) => serde_json::Value::Array(items.iter().map(to_serde).collect()),
        JsonValue::Object(members) => {
            let mut map = serde_json::Map::new();
            for (k, v) in members {
                map.insert(k.clone(), to_serde(v));
            }
            serde_json::Value::Object(map)
        }
    }
}

fn parse(text: &str) -> serde_json::Value {
    serde_json::from_str(text).unwrap()
}

fn keys(v: &JsonValue) -> Vec<String> {
    match v {
        JsonValue::Object(members) => members.iter().map(|(k, _)| k.clone()).collect(),
        _ => panic!("not an object"),
    }
}

fn client() -> Client {
    Client::new_mock("aaa", None)
}

#[test]
fn deck_reference_user_is_bare_number() {
    assert_eq!(to_serde(&AnyDeckWidget::UserDeckId(7).to_json()), parse("7"));
    assert_eq!(to_serde(&UserDeckId(0).as_any().to_json()), parse("0"));
    assert_eq!(to_serde(&UserDeckId(255).as_any().to_json()), parse("255"));
}

#[test]
fn deck_reference_special_is_fixed_string() {
    assert_eq!(to_serde(&AnyDeckWidget::Blacklist.to_json()), parse(r#""blacklist""#));
    assert_eq!(to_serde(&AnyDeckWidget::NeverForget.to_json()), parse(r#""never-forget""#));
    assert_eq!(SpecialDeckId::Blacklist.as_any(), AnyDeckWidget::Blacklist);
    assert_eq!(SpecialDeckId::NeverForget.as_any(), AnyDeckWidget::NeverForget);
    assert_eq!(UserDeckId(3).as_any(), AnyDeckWidget::UserDeckId(3));
}

#[test]
fn field_wire_names() {
    assert_eq!(DeckQueryField::Id.as_str(), "id");
    assert_eq!(DeckQueryField::Name.as_str(), "name");
    assert_eq!(DeckQueryField::VocabularyCount.as_str(), "vocabulary_count");
    assert_eq!(DeckQueryField::WordCount.as_str(), "word_count");
    assert_eq!(DeckQueryField::KnownCoverage.as_str(), "vocabulary_known_coverage");
    assert_eq!(DeckQueryField::InProgressCoverage.as_str(), "vocabulary_in_progress_coverage");
    assert_eq!(DeckQueryField::IsBuiltIn.as_str(), "is_built_in");
    assert_eq!(VocabQueryField::Vid.as_str(), "vid");
    assert_eq!(VocabQueryField::Sid.as_str(), "sid");
    assert_eq!(VocabQueryField::Rid.as_str(), "rid");
    assert_eq!(VocabQueryField::Spelling.as_str(), "spelling");
    assert_eq!(VocabQueryField::Reading.as_str(), "reading");
    assert_eq!(VocabQueryField::FrequencyRank.as_str(), "frequency_rank");
    assert_eq!(VocabQueryField::Meanings.as_str(), "meanings");
    assert_eq!(VocabQueryField::CardLevel.as_str(), "card_level");
    assert_eq!(VocabQueryField::CardState.as_str(), "card_state");
    assert_eq!(VocabQueryField::DueAt.as_str(), "due_at");
    assert_eq!(TokenQueryField::VocabIndex.as_str(), "vocabulary_index");
    assert_eq!(TokenQueryField::PositionUtf8.as_str(), "position_utf8");
    assert_eq!(TokenQueryField::PositionUtf32.as_str(), "position_utf32");
    assert_eq!(TokenQueryField::LengthUtf8.as_str(), "length_utf8");
    assert_eq!(TokenQueryField::LengthUtf32.as_str(), "length_utf32");
    assert_eq!(TokenQueryField::Furigana.as_str(), "furigana");
}

#[test]
fn dedup_keeps_first_occurrences_in_order() {
    let fields = [
        DeckQueryField::Id,
        DeckQueryField::Id,
        DeckQueryField::InProgressCoverage,
        DeckQueryField::IsBuiltIn,
        DeckQueryField::Id,
        DeckQueryField::Name,
        DeckQueryField::IsBuiltIn,
    ];
    assert_eq!(
        dedup_fields(&fields),
        vec![
            DeckQueryField::Id,
            DeckQueryField::InProgressCoverage,
            DeckQueryField::IsBuiltIn,
            DeckQueryField::Name,
        ]
    );
    let empty: [DeckQueryField; 0] = [];
    assert!(dedup_fields(&empty).is_empty());
}

#[test]
fn list_user_decks_body_has_no_repeated_field() {
    let r = client().list_decks_request(
        &[
            DeckQueryField::Id,
            DeckQueryField::Id,
            DeckQueryField::Id,
            DeckQueryField::Id,
            DeckQueryField::Id,
            DeckQueryField::Id,
            DeckQueryField::InProgressCoverage,
            DeckQueryField::IsBuiltIn,
            DeckQueryField::Id,
            DeckQueryField::KnownCoverage,
            DeckQueryField::Name,
            DeckQueryField::VocabularyCount,
            DeckQueryField::WordCount,
        ],
        DeckTypeToList::UserDecks,
    );
    assert_eq!(
        r.url,
        "https://stoplight.io/mocks/jpdb/jpdb/125397907/api/v1/list-user-decks"
    );
    assert_eq!(
        to_serde(&r.body),
        parse(
            r#"{"fields": ["id", "vocabulary_in_progress_coverage", "is_built_in",
                "vocabulary_known_coverage", "name", "vocabulary_count", "word_count"]}"#
        )
    );
    match &r.body {
        JsonValue::Object(members) => match &members[0].1 {
            JsonValue::Array(items) => {
                let names: Vec<String> = items
                    .iter()
                    .map(|i| match i {
                        JsonValue::Text(s) => s.clone(),
                        _ => panic!("not a name"),
                    })
                    .collect();
                assert_eq!(names[0], "id");
                assert_eq!(names[6], "word_count");
                assert_eq!(names.len(), 7);
            }
            _ => panic!("not an array"),
        },
        _ => panic!("not an object"),
    }
}

#[test]
fn list_special_decks_request() {
    let r = client().list_decks_request(&[], DeckTypeToList::SpecialDecks);
    assert_eq!(DeckTypeToList::SpecialDecks.as_str(), "list-special-decks");
    assert_eq!(DeckTypeToList::UserDecks.as_str(), "list-user-decks");
    assert!(r.url.ends_with("/list-special-decks"));
    assert_eq!(to_serde(&r.body), parse(r#"{"fields": []}"#));
}

#[test]
fn ping_body_is_null() {
    let r = Client::new("token").ping_request();
    assert_eq!(r.url, "https://jpdb.io/api/v1/ping");
    assert!(matches!(r.body, JsonValue::Null));
}

#[test]
fn clear_delete_rename_bodies() {
    let c = client();
    let r = c.clear_deck_request(SpecialDeckId::Blacklist.as_any());
    assert!(r.url.ends_with("/deck/clear"));
    assert_eq!(to_serde(&r.body), parse(r#"{"id": "blacklist"}"#));
    let r = c.clear_deck_request(SpecialDeckId::NeverForget.as_any());
    assert_eq!(to_serde(&r.body), parse(r#"{"id": "never-forget"}"#));
    let r = c.delete_deck_request(UserDeckId(1));
    assert!(r.url.ends_with("/deck/delete"));
    assert_eq!(to_serde(&r.body), parse(r#"{"id": 1}"#));
    let r = c.rename_deck_request(UserDeckId(1), "asa");
    assert!(r.url.ends_with("/deck/rename"));
    assert_eq!(to_serde(&r.body), parse(r#"{"id": 1, "name": "asa"}"#));
}

#[test]
fn remove_vocabulary_body() {
    let r = client().remove_vocabulary_request(
        SpecialDeckId::NeverForget.as_any(),
        &[Vocabulary(12, 12), Vocabulary(13, 13)],
    );
    assert!(r.url.ends_with("/deck/remove-vocabulary"));
    assert_eq!(
        to_serde(&r.body),
        parse(r#"{"id": "never-forget", "vocabulary": [[12, 12], [13, 13]]}"#)
    );
}

#[test]
fn add_vocabulary_unset_options_are_absent() {
    let r = client().add_vocabulary_request(
        AnyDeckWidget::Blacklist,
        &AddVocabularyOptions {
            vocabulary: &[Vocabulary(12, 12), Vocabulary(13, 13)],
            ..Default::default()
        },
    );
    assert!(r.url.ends_with("/deck/add-vocabulary"));
    assert_eq!(keys(&r.body), vec!["vocabulary", "id"]);
    assert_eq!(
        to_serde(&r.body),
        parse(r#"{"vocabulary": [[12, 12], [13, 13]], "id": "blacklist"}"#)
    );
}

#[test]
fn add_vocabulary_set_options_are_present() {
    let r = client().add_vocabulary_request(
        UserDeckId(12).as_any(),
        &AddVocabularyOptions {
            vocabulary: &[Vocabulary(13, 13)],
            occurences: Some(&[1, 1]),
            overwrite_occurences: Some(true),
            ignore_unknown: Some(false),
        },
    );
    assert_eq!(
        to_serde(&r.body),
        parse(
            r#"{"vocabulary": [[13, 13]], "occurences": [1, 1],
                "replace_existing_occurences": true, "ignore_unknown": false, "id": 12}"#
        )
    );
    let r = client().add_vocabulary_request(
        UserDeckId(12).as_any(),
        &AddVocabularyOptions {
            vocabulary: &[],
            occurences: None,
            overwrite_occurences: None,
            ignore_unknown: Some(true),
        },
    );
    assert_eq!(keys(&r.body), vec!["vocabulary", "ignore_unknown", "id"]);
}

#[test]
fn set_card_sentence_bodies() {
    let c = client();
    let r = c.set_card_sentence_request(&SetCardSentenceOptions::default());
    assert!(r.url.ends_with("/deck/set-card-sentence"));
    assert_eq!(to_serde(&r.body), parse(r#"{"vid": 0, "sid": 0}"#));
    let r = c.set_card_sentence_request(&SetCardSentenceOptions {
        vid: Vid(1310890),
        sid: Sid(1197989957),
        sentence: Some("babawo死神"),
        translation: None,
        clear_audio: None,
        clear_image: Some(false),
    });
    assert_eq!(keys(&r.body), vec!["vid", "sid", "sentence", "clear_image"]);
    assert_eq!(
        to_serde(&r.body),
        parse(r#"{"vid": 1310890, "sid": 1197989957, "sentence": "babawo死神", "clear_image": false}"#)
    );
    let r = c.set_card_sentence_request(&SetCardSentenceOptions {
        sentence: Some(""),
        translation: Some(""),
        clear_audio: Some(false),
        clear_image: Some(false),
        ..Default::default()
    });
    assert_eq!(
        to_serde(&r.body),
        parse(
            r#"{"vid": 0, "sid": 0, "sentence": "", "translation": "",
                "clear_audio": false, "clear_image": false}"#
        )
    );
}

#[test]
fn list_vocabulary_bodies() {
    let c = client();
    let r = c.list_vocabulary_request(UserDeckId(12).as_any(), None);
    assert!(r.url.ends_with("/deck/list-vocabulary"));
    assert_eq!(to_serde(&r.body), parse(r#"{"id": 12}"#));
    let r = c.list_vocabulary_request(AnyDeckWidget::Blacklist, Some(true));
    assert_eq!(to_serde(&r.body), parse(r#"{"id": "blacklist", "fetch_occurences": true}"#));
}

#[test]
fn create_empty_deck_bodies() {
    let c = client();
    let r = c.create_empty_deck_request("baba", None);
    assert!(r.url.ends_with("/deck/create-empty"));
    assert_eq!(to_serde(&r.body), parse(r#"{"name": "baba"}"#));
    let r = c.create_empty_deck_request("baba", Some(1));
    assert_eq!(to_serde(&r.body), parse(r#"{"name": "baba", "position": 1}"#));
}

#[test]
fn create_empty_deck_response_gives_deck_id() {
    let r = client().create_empty_deck_request("baba", None);
    assert_eq!(to_serde(&r.body), parse(r#"{"name": "baba"}"#));
    let response = parse(r#"{"id": 0}"#);
    let id = response["id"].as_u64().unwrap() as u8;
    let deck: UserDeckId = CreateEmptyDeckResponse { id }.into();
    assert_eq!(deck, UserDeckId(0));
}

#[test]
fn jpdb_create_delete_deck() {
    let c = Client::new("token");
    let create = c.create_empty_deck_request("taratata", Some(200));
    assert_eq!(create.url, "https://jpdb.io/api/v1/deck/create-empty");
    assert_eq!(to_serde(&create.body), parse(r#"{"name": "taratata", "position": 200}"#));
    let id: UserDeckId = CreateEmptyDeckResponse { id: 9 }.into();
    let delete = c.delete_deck_request(id);
    assert_eq!(delete.url, "https://jpdb.io/api/v1/deck/delete");
    assert_eq!(to_serde(&delete.body), parse(r#"{"id": 9}"#));
}

#[test]
fn lookup_vocabulary_body() {
    let r = client().lookup_vocabulary_request(
        &[(Vid(0), Sid(0)), (Vid(1358280), Sid(1232985445))],
        &[
            VocabQueryField::CardLevel,
            VocabQueryField::CardState,
            VocabQueryField::CardLevel,
            VocabQueryField::Vid,
        ],
    );
    assert!(r.url.ends_with("/lookup-vocabulary"));
    assert_eq!(
        to_serde(&r.body),
        parse(
            r#"{"list": [[0, 0], [1358280, 1232985445]],
                "fields": ["card_level", "card_state", "vid"]}"#
        )
    );
}

#[test]
fn parse_text_bodies() {
    let c = client();
    let r = c.parse_text_request(
        "scouchou",
        &[TokenQueryField::Furigana, TokenQueryField::LengthUtf32, TokenQueryField::Furigana],
        Some(&[VocabQueryField::Meanings, VocabQueryField::Meanings, VocabQueryField::DueAt]),
    );
    assert!(r.url.ends_with("/parse"));
    assert_eq!(
        to_serde(&r.body),
        parse(
            r#"{"text": "scouchou", "token_fields": ["furigana", "length_utf32"],
                "vocabulary_fields": ["meanings", "due_at"]}"#
        )
    );
    let r = c.parse_text_request("scouchou", &[TokenQueryField::VocabIndex], None);
    assert_eq!(keys(&r.body), vec!["text", "token_fields"]);
}

#[test]
fn id_conversions() {
    assert_eq!(Vid::from(5), Vid(5));
    assert_eq!(Sid::from(6), Sid(6));
    assert_eq!(jpdb::request::Rid::from(7), jpdb::request::Rid(7));
    assert_eq!(Vocabulary::from((1, 2)), Vocabulary(1, 2));
    assert_eq!(Vocabulary::from((Vid(3), Sid(4))), Vocabulary(3, 4));
    assert_eq!(u32::from(Sid(8)), 8);
    assert_eq!(u32::from(Vid(9)), 9);
    let d = SetCardSentenceOptions::default();
    assert_eq!(d.vid, Vid(0));
    assert_eq!(d.sid, Sid(0));
    assert!(d.sentence.is_none() && d.translation.is_none());
    assert!(d.clear_audio.is_none() && d.clear_image.is_none());
}

#[test]
fn client_configuration() {
    let c = Client::new("abc");
    assert_eq!(c.token(), "abc");
    assert_eq!(c.bearer(), "Bearer abc");
    assert_eq!(c.base_url(), "https://jpdb.io/api/v1/");
    assert_eq!(c.prefer(), None);
    assert_eq!(c.to_string(), "jpdb client, token: Bearer abc");
    let m = Client::new_mock("aaa", Some(String::from("code=200")));
    assert_eq!(m.prefer(), Some("code=200"));
    assert_eq!(m.base_url(), "https://stoplight.io/mocks/jpdb/jpdb/125397907/api/v1/");
    let l = Client::with_base_url("t", "http://localhost/", None);
    assert_eq!(l.ping_request().url, "http://localhost/ping");
    assert_eq!(Client::create_url("a/", "b"), "a/b");
}
