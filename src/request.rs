use vstd::prelude::*;

use crate::dedup::{
    dedup_seq, lemma_dedup_first_occurrence_order, lemma_dedup_map_injective,
    lemma_dedup_no_duplicates, lemma_dedup_same_elements,
};
use crate::client::Client;
use crate::error::{Error, ErrorKind};
use crate::json::{
    keys, lemma_concat_contains, lemma_keys_concat, lemma_optional_member_keys,
    items_view, members_view, optional_member, optional_view, push_item, push_member,
    push_optional_member, Json, JsonValue,
};

verus! {

/// A deck as the endpoints that accept any deck take it: a user deck by its
/// number, or one of the two built-in decks.
#[derive(Debug, Clone, Copy, PartialEq, Eq, Structural)]
pub enum AnyDeckWidget {
    UserDeckId(u8),
    Blacklist,
    NeverForget,
}

/// A type that identifies a deck.
pub trait AnyDeckId {
    fn as_any(&self) -> AnyDeckWidget;
}

impl AnyDeckWidget {
    /// The wire form of a deck reference: a user deck is its bare number, a
    /// built-in deck a fixed string.
    pub open spec fn spec_json(self) -> Json {
        match self {
            AnyDeckWidget::UserDeckId(n) => Json::Number(n as nat),
            AnyDeckWidget::Blacklist => Json::Text("blacklist"@),
            AnyDeckWidget::NeverForget => Json::Text("never-forget"@),
        }
    }

    pub fn to_json(&self) -> (r: JsonValue)
        ensures
            r@ == self.spec_json(),
    {
        match *self {
            AnyDeckWidget::UserDeckId(n) => JsonValue::Number(n as u64),
            AnyDeckWidget::NeverForget => JsonValue::text("never-forget"),
            AnyDeckWidget::Blacklist => JsonValue::text("blacklist"),
        }
    }
}

/// A vocabulary entry (a word) of the service's dictionary.
#[derive(Debug, Clone, Copy, PartialEq, Eq, Structural)]
pub struct Vid(pub u32);

/// A reading of a word.
#[derive(Debug, Clone, Copy, PartialEq, Eq, Structural)]
pub struct Rid(pub u32);

/// A spelling of a word.
#[derive(Debug, Clone, Copy, PartialEq, Eq, Structural)]
pub struct Sid(pub u32);

impl From<u32> for Vid {
    fn from(x: u32) -> (r: Vid) {
        Vid(x)
    }
}

impl vstd::std_specs::convert::FromSpecImpl<u32> for Vid {
    open spec fn obeys_from_spec() -> bool {
        true
    }

    open spec fn from_spec(x: u32) -> Vid {
        Vid(x)
    }
}

impl From<u32> for Sid {
    fn from(x: u32) -> (r: Sid) {
        Sid(x)
    }
}

impl vstd::std_specs::convert::FromSpecImpl<u32> for Sid {
    open spec fn obeys_from_spec() -> bool {
        true
    }

    open spec fn from_spec(x: u32) -> Sid {
        Sid(x)
    }
}

impl From<u32> for Rid {
    fn from(x: u32) -> (r: Rid) {
        Rid(x)
    }
}

impl vstd::std_specs::convert::FromSpecImpl<u32> for Rid {
    open spec fn obeys_from_spec() -> bool {
        true
    }

    open spec fn from_spec(x: u32) -> Rid {
        Rid(x)
    }
}

/// A word together with one of its spellings: (vocabulary id, spelling id).
#[derive(Debug, Clone, Copy, PartialEq, Eq, PartialOrd, Ord, Hash, Structural)]
pub struct Vocabulary(pub u32, pub u32);

impl From<(u32, u32)> for Vocabulary {
    fn from(x: (u32, u32)) -> (r: Vocabulary) {
        Vocabulary(x.0, x.1)
    }
}

impl vstd::std_specs::convert::FromSpecImpl<(u32, u32)> for Vocabulary {
    open spec fn obeys_from_spec() -> bool {
        true
    }

    open spec fn from_spec(x: (u32, u32)) -> Vocabulary {
        Vocabulary(x.0, x.1)
    }
}

impl From<(Vid, Sid)> for Vocabulary {
    fn from(x: (Vid, Sid)) -> (r: Vocabulary) {
        Vocabulary(x.0.0, x.1.0)
    }
}

impl vstd::std_specs::convert::FromSpecImpl<(Vid, Sid)> for Vocabulary {
    open spec fn obeys_from_spec() -> bool {
        true
    }

    open spec fn from_spec(x: (Vid, Sid)) -> Vocabulary {
        Vocabulary(x.0.0, x.1.0)
    }
}

impl From<Sid> for u32 {
    fn from(x: Sid) -> (r: u32) {
        x.0
    }
}

impl vstd::std_specs::convert::FromSpecImpl<Sid> for u32 {
    open spec fn obeys_from_spec() -> bool {
        true
    }

    open spec fn from_spec(x: Sid) -> u32 {
        x.0
    }
}

impl From<Vid> for u32 {
    fn from(x: Vid) -> (r: u32) {
        x.0
    }
}

impl vstd::std_specs::convert::FromSpecImpl<Vid> for u32 {
    open spec fn obeys_from_spec() -> bool {
        true
    }

    open spec fn from_spec(x: Vid) -> u32 {
        x.0
    }
}

/// The wire form of a pair of ids: a two-element array.
pub open spec fn pair_json(a: u32, b: u32) -> Json {
    Json::Array(seq![Json::Number(a as nat), Json::Number(b as nat)])
}

/// The wire form of a list of words.
pub open spec fn vocabulary_list_json(list: Seq<Vocabulary>) -> Json {
    Json::Array(list.map_values(|v: Vocabulary| pair_json(v.0, v.1)))
}

/// The wire form of a list of (word, spelling) pairs.
pub open spec fn id_pairs_json(list: Seq<(Vid, Sid)>) -> Json {
    Json::Array(list.map_values(|p: (Vid, Sid)| pair_json(p.0.0, p.1.0)))
}

/// The wire form of a list of counts.
pub open spec fn counts_json(list: Seq<u16>) -> Json {
    Json::Array(list.map_values(|n: u16| Json::Number(n as nat)))
}

fn pair_to_json(a: u32, b: u32) -> (r: JsonValue)
    ensures
        r@ == pair_json(a, b),
{
    let mut items: Vec<JsonValue> = Vec::new();
    push_item(&mut items, JsonValue::Number(a as u64));
    push_item(&mut items, JsonValue::Number(b as u64));
    proof {
        assert(items_view(items) =~= seq![Json::Number(a as nat), Json::Number(b as nat)]);
    }
    JsonValue::Array(items)
}

/// The JSON array of the given words.
pub fn vocabulary_list_to_json(list: &[Vocabulary]) -> (r: JsonValue)
    ensures
        r@ == vocabulary_list_json(list@),
{
    let mut items: Vec<JsonValue> = Vec::new();
    let mut i: usize = 0;
    while i < list.len()
        invariant
            0 <= i <= list.len(),
            items_view(items) =~= list@.subrange(0, i as int).map_values(
                |v: Vocabulary| pair_json(v.0, v.1),
            ),
        decreases list.len() - i,
    {
        let v = list[i];
        push_item(&mut items, pair_to_json(v.0, v.1));
        i += 1;
        assert(list@.subrange(0, i as int).map_values(|v: Vocabulary| pair_json(v.0, v.1))
            =~= list@.subrange(0, i - 1).map_values(|v: Vocabulary| pair_json(v.0, v.1)).push(
            pair_json(v.0, v.1),
        ));
    }
    assert(list@.subrange(0, list.len() as int) =~= list@);
    JsonValue::Array(items)
}

/// The JSON array of the given (word, spelling) pairs.
pub fn id_pairs_to_json(list: &[(Vid, Sid)]) -> (r: JsonValue)
    ensures
        r@ == id_pairs_json(list@),
{
    let mut items: Vec<JsonValue> = Vec::new();
    let mut i: usize = 0;
    while i < list.len()
        invariant
            0 <= i <= list.len(),
            items_view(items) =~= list@.subrange(0, i as int).map_values(
                |p: (Vid, Sid)| pair_json(p.0.0, p.1.0),
            ),
        decreases list.len() - i,
    {
        let p = list[i];
        push_item(&mut items, pair_to_json(p.0.0, p.1.0));
        i += 1;
        assert(list@.subrange(0, i as int).map_values(|p: (Vid, Sid)| pair_json(p.0.0, p.1.0))
            =~= list@.subrange(0, i - 1).map_values(|p: (Vid, Sid)| pair_json(p.0.0, p.1.0)).push(
            pair_json(p.0.0, p.1.0),
        ));
    }
    assert(list@.subrange(0, list.len() as int) =~= list@);
    JsonValue::Array(items)
}

/// The JSON array of the given counts.
pub fn counts_to_json(list: &[u16]) -> (r: JsonValue)
    ensures
        r@ == counts_json(list@),
{
    let mut items: Vec<JsonValue> = Vec::new();
    let mut i: usize = 0;
    while i < list.len()
        invariant
            0 <= i <= list.len(),
            items_view(items) =~= list@.subrange(0, i as int).map_values(
                |n: u16| Json::Number(n as nat),
            ),
        decreases list.len() - i,
    {
        let n = list[i];
        push_item(&mut items, JsonValue::Number(n as u64));
        i += 1;
        assert(list@.subrange(0, i as int).map_values(|n: u16| Json::Number(n as nat))
            =~= list@.subrange(0, i - 1).map_values(|n: u16| Json::Number(n as nat)).push(
            Json::Number(n as nat),
        ));
    }
    assert(list@.subrange(0, list.len() as int) =~= list@);
    JsonValue::Array(items)
}

/// A deck that belongs to the user.
#[derive(Debug, Clone, Copy, PartialEq, Eq, Structural)]
pub struct UserDeckId(pub u8);

/// The body of a successful `deck/create-empty` response.
#[derive(Debug, Clone, Copy, PartialEq, Eq, Structural)]
pub struct CreateEmptyDeckResponse {
    pub id: u8,
}

impl From<CreateEmptyDeckResponse> for UserDeckId {
    fn from(x: CreateEmptyDeckResponse) -> (r: UserDeckId) {
        UserDeckId(x.id)
    }
}

impl vstd::std_specs::convert::FromSpecImpl<CreateEmptyDeckResponse> for UserDeckId {
    open spec fn obeys_from_spec() -> bool {
        true
    }

    open spec fn from_spec(x: CreateEmptyDeckResponse) -> UserDeckId {
        UserDeckId(x.id)
    }
}

/// One of the decks that every user has.
#[derive(Debug, Clone, Copy, PartialEq, Eq, Structural)]
pub enum SpecialDeckId {
    Blacklist,
    NeverForget,
}

impl AnyDeckId for UserDeckId {
    fn as_any(&self) -> (r: AnyDeckWidget)
        ensures
            r == AnyDeckWidget::UserDeckId(self.0),
    {
        AnyDeckWidget::UserDeckId(self.0)
    }
}

impl AnyDeckId for SpecialDeckId {
    fn as_any(&self) -> (r: AnyDeckWidget)
        ensures
            r == (match *self {
                SpecialDeckId::Blacklist => AnyDeckWidget::Blacklist,
                SpecialDeckId::NeverForget => AnyDeckWidget::NeverForget,
            }),
    {
        match self {
            SpecialDeckId::Blacklist => AnyDeckWidget::Blacklist,
            SpecialDeckId::NeverForget => AnyDeckWidget::NeverForget,
        }
    }
}

/// A closed set of field names that a query can ask for.
pub trait QueryField: Sized + Copy {
    /// The name under which the service knows the field.
    spec fn wire(self) -> Seq<char>;

    fn as_str(&self) -> (r: &'static str)
        ensures
            r@ == self.wire(),
    ;

    fn same(&self, other: &Self) -> (r: bool)
        ensures
            r == (*self == *other),
    ;

    /// Distinct fields have distinct names.
    proof fn lemma_wire_injective(a: Self, b: Self)
        ensures
            a.wire() == b.wire() ==> a == b,
    ;
}

/// A property of a deck.
#[derive(Debug, Clone, Copy, PartialEq, Eq, PartialOrd, Ord, Structural)]
pub enum DeckQueryField {
    Id,
    Name,
    VocabularyCount,
    WordCount,
    KnownCoverage,
    InProgressCoverage,
    IsBuiltIn,
}

impl QueryField for DeckQueryField {
    open spec fn wire(self) -> Seq<char> {
        match self {
            DeckQueryField::Id => "id"@,
            DeckQueryField::Name => "name"@,
            DeckQueryField::VocabularyCount => "vocabulary_count"@,
            DeckQueryField::WordCount => "word_count"@,
            DeckQueryField::KnownCoverage => "vocabulary_known_coverage"@,
            DeckQueryField::InProgressCoverage => "vocabulary_in_progress_coverage"@,
            DeckQueryField::IsBuiltIn => "is_built_in"@,
        }
    }

    fn as_str(&self) -> (r: &'static str) {
        match *self {
            DeckQueryField::Id => "id",
            DeckQueryField::Name => "name",
            DeckQueryField::VocabularyCount => "vocabulary_count",
            DeckQueryField::WordCount => "word_count",
            DeckQueryField::KnownCoverage => "vocabulary_known_coverage",
            DeckQueryField::InProgressCoverage => "vocabulary_in_progress_coverage",
            DeckQueryField::IsBuiltIn => "is_built_in",
        }
    }

    fn same(&self, other: &Self) -> (r: bool) {
        *self == *other
    }

    proof fn lemma_wire_injective(a: Self, b: Self) {
        reveal_strlit("id");
        reveal_strlit("name");
        reveal_strlit("vocabulary_count");
        reveal_strlit("word_count");
        reveal_strlit("vocabulary_known_coverage");
        reveal_strlit("vocabulary_in_progress_coverage");
        reveal_strlit("is_built_in");
        if a.wire() == b.wire() {
            assert(a.wire().len() == b.wire().len());
            assert(a.wire()[0] == b.wire()[0]);
        }
    }
}

/// A property of a vocabulary entry.
#[derive(Debug, Clone, Copy, PartialEq, Eq, PartialOrd, Ord, Structural)]
pub enum VocabQueryField {
    Vid,
    Sid,
    Rid,
    Spelling,
    Reading,
    FrequencyRank,
    Meanings,
    CardLevel,
    CardState,
    DueAt,
}

impl QueryField for VocabQueryField {
    open spec fn wire(self) -> Seq<char> {
        match self {
            VocabQueryField::Vid => "vid"@,
            VocabQueryField::Sid => "sid"@,
            VocabQueryField::Rid => "rid"@,
            VocabQueryField::Spelling => "spelling"@,
            VocabQueryField::Reading => "reading"@,
            VocabQueryField::FrequencyRank => "frequency_rank"@,
            VocabQueryField::Meanings => "meanings"@,
            VocabQueryField::CardLevel => "card_level"@,
            VocabQueryField::CardState => "card_state"@,
            VocabQueryField::DueAt => "due_at"@,
        }
    }

    fn as_str(&self) -> (r: &'static str) {
        match *self {
            VocabQueryField::Vid => "vid",
            VocabQueryField::Sid => "sid",
            VocabQueryField::Rid => "rid",
            VocabQueryField::Spelling => "spelling",
            VocabQueryField::Reading => "reading",
            VocabQueryField::FrequencyRank => "frequency_rank",
            VocabQueryField::Meanings => "meanings",
            VocabQueryField::CardLevel => "card_level",
            VocabQueryField::CardState => "card_state",
            VocabQueryField::DueAt => "due_at",
        }
    }

    fn same(&self, other: &Self) -> (r: bool) {
        *self == *other
    }

    proof fn lemma_wire_injective(a: Self, b: Self) {
        reveal_strlit("vid");
        reveal_strlit("sid");
        reveal_strlit("rid");
        reveal_strlit("spelling");
        reveal_strlit("reading");
        reveal_strlit("frequency_rank");
        reveal_strlit("meanings");
        reveal_strlit("card_level");
        reveal_strlit("card_state");
        reveal_strlit("due_at");
        if a.wire() == b.wire() {
            assert(a.wire().len() == b.wire().len());
            assert(a.wire()[0] == b.wire()[0]);
            assert(a.wire()[5] == b.wire()[5]);
        }
    }
}

/// A property of a token of parsed text.
#[derive(Debug, Clone, Copy, PartialEq, Eq, PartialOrd, Ord, Structural)]
pub enum TokenQueryField {
    VocabIndex,
    PositionUtf8,
    PositionUtf32,
    LengthUtf8,
    LengthUtf32,
    Furigana,
}

impl QueryField for TokenQueryField {
    open spec fn wire(self) -> Seq<char> {
        match self {
            TokenQueryField::VocabIndex => "vocabulary_index"@,
            TokenQueryField::PositionUtf8 => "position_utf8"@,
            TokenQueryField::PositionUtf32 => "position_utf32"@,
            TokenQueryField::LengthUtf8 => "length_utf8"@,
            TokenQueryField::LengthUtf32 => "length_utf32"@,
            TokenQueryField::Furigana => "furigana"@,
        }
    }

    fn as_str(&self) -> (r: &'static str) {
        match *self {
            TokenQueryField::VocabIndex => "vocabulary_index",
            TokenQueryField::PositionUtf8 => "position_utf8",
            TokenQueryField::PositionUtf32 => "position_utf32",
            TokenQueryField::LengthUtf8 => "length_utf8",
            TokenQueryField::LengthUtf32 => "length_utf32",
            TokenQueryField::Furigana => "furigana",
        }
    }

    fn same(&self, other: &Self) -> (r: bool) {
        *self == *other
    }

    proof fn lemma_wire_injective(a: Self, b: Self) {
        reveal_strlit("vocabulary_index");
        reveal_strlit("position_utf8");
        reveal_strlit("position_utf32");
        reveal_strlit("length_utf8");
        reveal_strlit("length_utf32");
        reveal_strlit("furigana");
        if a.wire() == b.wire() {
            assert(a.wire().len() == b.wire().len());
            assert(a.wire()[0] == b.wire()[0]);
            assert(a.wire()[5] == b.wire()[5]);
        }
    }
}

/// The wire names of `fields`, as JSON strings.
pub open spec fn field_names<F: QueryField>(fields: Seq<F>) -> Seq<Json> {
    fields.map_values(|f: F| Json::Text(f.wire()))
}

/// The fields in the order given, each kept at its first occurrence only.
pub fn dedup_fields<F: QueryField>(fields: &[F]) -> (r: Vec<F>)
    ensures
        r@ == dedup_seq(fields@),
{
    let mut r: Vec<F> = Vec::new();
    let mut i: usize = 0;
    while i < fields.len()
        invariant
            0 <= i <= fields.len(),
            r@ == dedup_seq(fields@.subrange(0, i as int)),
        decreases fields.len() - i,
    {
        let f = fields[i];
        let mut found = false;
        let mut j: usize = 0;
        while j < r.len()
            invariant
                0 <= j <= r.len(),
                found == (exists|k: int| 0 <= k < j && r@[k] == f),
            decreases r.len() - j,
        {
            if r[j].same(&f) {
                found = true;
            }
            j += 1;
        }
        proof {
            let s = fields@.subrange(0, i + 1);
            assert(s.drop_last() =~= fields@.subrange(0, i as int));
            assert(s.last() == f);
            lemma_dedup_same_elements(fields@.subrange(0, i as int));
            assert(found == r@.contains(f));
        }
        if !found {
            r.push(f);
        }
        i += 1;
    }
    assert(fields@.subrange(0, fields.len() as int) =~= fields@);
    r
}

/// The JSON array of the wire names of `fields`, without repeats.
pub fn fields_json<F: QueryField>(fields: &[F]) -> (r: JsonValue)
    ensures
        r@ == Json::Array(field_names(dedup_seq(fields@))),
{
    let unique = dedup_fields(fields);
    let mut items: Vec<JsonValue> = Vec::new();
    let mut i: usize = 0;
    while i < unique.len()
        invariant
            0 <= i <= unique.len(),
            items_view(items) == field_names(unique@.subrange(0, i as int)),
        decreases unique.len() - i,
    {
        push_item(&mut items, JsonValue::text(unique[i].as_str()));
        i += 1;
        assert(field_names(unique@.subrange(0, i as int)) =~= field_names(
            unique@.subrange(0, i - 1),
        ).push(Json::Text(unique@[i - 1].wire())));
    }
    assert(unique@.subrange(0, unique.len() as int) =~= unique@);
    JsonValue::Array(items)
}

/// Law: the field names that a request lists repeat none, name exactly the
/// fields that the caller gave, and come in the order in which each first
/// occurs in the caller's list.
pub proof fn lemma_field_list_distinct<F: QueryField>(fields: Seq<F>)
    ensures
        field_names(dedup_seq(fields)) == dedup_seq(field_names(fields)),
        field_names(dedup_seq(fields)).no_duplicates(),
        forall|x: Json|
            field_names(dedup_seq(fields)).contains(x) <==> field_names(fields).contains(x),
        forall|i: int, j: int, q: int|
            #![trigger field_names(dedup_seq(fields))[i], field_names(dedup_seq(fields))[j], field_names(fields)[q]]
            0 <= i < j < field_names(dedup_seq(fields)).len() && 0 <= q < fields.len()
                && field_names(fields)[q] == field_names(dedup_seq(fields))[j]
                ==> field_names(fields).subrange(0, q).contains(field_names(dedup_seq(fields))[i]),
{
    let name = |f: F| Json::Text(f.wire());
    assert forall|a: F, b: F| #[trigger] name(a) == #[trigger] name(b) implies a == b by {
        F::lemma_wire_injective(a, b);
    }
    lemma_dedup_map_injective(fields, name);
    assert(field_names(fields) == fields.map_values(name));
    assert(field_names(dedup_seq(fields)) == dedup_seq(fields).map_values(name));
    lemma_dedup_no_duplicates(field_names(fields));
    lemma_dedup_same_elements(field_names(fields));
    lemma_dedup_first_occurrence_order(field_names(fields));
}

/// The words of a deck, with their occurrence counts when those were asked for.
#[derive(Debug, Clone, PartialEq, Eq)]
pub struct DeckVocabulary {
    pub vocabulary: Vec<Vocabulary>,
    pub occurences: Option<Vec<u32>>,
}

/// The pairs of equal position in `words` and `counts`.
pub open spec fn zip_counts(words: Seq<Vocabulary>, counts: Seq<u32>) -> Seq<(Vocabulary, u32)> {
    Seq::new(words.len(), |i: int| (words[i], counts[i]))
}

impl DeckVocabulary {
    /// Pairs each word with its occurrence count, by position.
    ///
    /// Fails when the counts are missing or do not match the words one for one.
    pub fn occurrences(&self) -> (r: Result<Vec<(Vocabulary, u32)>, Error>)
        ensures
            r is Ok <==> (self.occurences is Some && self.occurences->Some_0.len()
                == self.vocabulary.len()),
            r is Ok ==> r->Ok_0@ == zip_counts(self.vocabulary@, self.occurences->Some_0@),
            r is Err ==> r->Err_0.kind() == ErrorKind::DeserializeError,
    {
        let counts = match &self.occurences {
            Some(c) => c,
            None => {
                return Err(Error::decode_failure("the occurrence counts are missing"));
            },
        };
        if counts.len() != self.vocabulary.len() {
            return Err(Error::decode_failure("the occurrence counts do not match the words"));
        }
        let mut pairs: Vec<(Vocabulary, u32)> = Vec::new();
        let mut i: usize = 0;
        while i < counts.len()
            invariant
                0 <= i <= counts.len(),
                counts.len() == self.vocabulary.len(),
                self.occurences == Some(*counts),
                pairs@ =~= zip_counts(self.vocabulary@, counts@).subrange(0, i as int),
            decreases counts.len() - i,
        {
            pairs.push((self.vocabulary[i], counts[i]));
            i += 1;
        }
        Ok(pairs)
    }
}

/// A request ready to be sent: the endpoint's full address and the body.
#[derive(Debug)]
pub struct Request {
    pub url: String,
    pub body: JsonValue,
}

/// Which list of decks to fetch.
#[derive(Debug, Clone, Copy, PartialEq, Eq, Structural)]
pub enum DeckTypeToList {
    UserDecks,
    SpecialDecks,
}

impl DeckTypeToList {
    /// The endpoint that lists decks of this type.
    pub open spec fn spec_path(self) -> Seq<char> {
        match self {
            DeckTypeToList::UserDecks => "list-user-decks"@,
            DeckTypeToList::SpecialDecks => "list-special-decks"@,
        }
    }

    pub fn as_str(&self) -> (r: &'static str)
        ensures
            r@ == self.spec_path(),
    {
        match *self {
            DeckTypeToList::UserDecks => "list-user-decks",
            DeckTypeToList::SpecialDecks => "list-special-decks",
        }
    }
}

/// What to change on a card: the word and spelling are always sent, every
/// other field only when it is set.
#[derive(Debug, Clone, Copy, PartialEq, Eq)]
pub struct SetCardSentenceOptions<'a> {
    pub vid: Vid,
    pub sid: Sid,
    pub sentence: Option<&'a str>,
    pub translation: Option<&'a str>,
    pub clear_audio: Option<bool>,
    pub clear_image: Option<bool>,
}

impl Default for SetCardSentenceOptions<'_> {
    fn default() -> (r: Self)
        ensures
            r.vid == Vid(0),
            r.sid == Sid(0),
            r.sentence.is_none(),
            r.translation.is_none(),
            r.clear_audio.is_none(),
            r.clear_image.is_none(),
    {
        SetCardSentenceOptions {
            vid: Vid(0),
            sid: Sid(0),
            sentence: None,
            translation: None,
            clear_audio: None,
            clear_image: None,
        }
    }
}

/// Words to add to a deck: the list is always sent, every other field only
/// when it is set.
#[derive(Debug, Default, Clone, Copy, PartialEq, Eq)]
pub struct AddVocabularyOptions<'a> {
    pub vocabulary: &'a [Vocabulary],
    pub occurences: Option<&'a [u16]>,
    pub overwrite_occurences: Option<bool>,
    pub ignore_unknown: Option<bool>,
}

pub open spec fn optional_bool_json(value: Option<bool>) -> Option<Json> {
    match value {
        Some(b) => Some(Json::Bool(b)),
        None => None,
    }
}

pub open spec fn optional_text_json(value: Option<&str>) -> Option<Json> {
    match value {
        Some(s) => Some(Json::Text(s@)),
        None => None,
    }
}

pub open spec fn optional_number_json(value: Option<u8>) -> Option<Json> {
    match value {
        Some(n) => Some(Json::Number(n as nat)),
        None => None,
    }
}

pub open spec fn optional_counts_json(value: Option<&[u16]>) -> Option<Json> {
    match value {
        Some(list) => Some(counts_json(list@)),
        None => None,
    }
}

pub open spec fn optional_fields_json(value: Option<&[VocabQueryField]>) -> Option<Json> {
    match value {
        Some(fields) => Some(Json::Array(field_names(dedup_seq(fields@)))),
        None => None,
    }
}

fn optional_bool_to_json(value: Option<bool>) -> (r: Option<JsonValue>)
    ensures
        optional_view(r) == optional_bool_json(value),
{
    match value {
        Some(b) => Some(JsonValue::Bool(b)),
        None => None,
    }
}

fn optional_text_to_json(value: Option<&str>) -> (r: Option<JsonValue>)
    ensures
        optional_view(r) == optional_text_json(value),
{
    match value {
        Some(s) => Some(JsonValue::text(s)),
        None => None,
    }
}

/// The members of an add-vocabulary body.
pub open spec fn add_vocabulary_members(
    deck: AnyDeckWidget,
    options: AddVocabularyOptions,
) -> Seq<(Seq<char>, Json)> {
    seq![("vocabulary"@, vocabulary_list_json(options.vocabulary@))]
        + optional_member("occurences"@, optional_counts_json(options.occurences))
        + optional_member(
        "replace_existing_occurences"@,
        optional_bool_json(options.overwrite_occurences),
    ) + optional_member("ignore_unknown"@, optional_bool_json(options.ignore_unknown))
        + seq![("id"@, deck.spec_json())]
}

/// The members of a set-card-sentence body.
pub open spec fn set_card_sentence_members(options: SetCardSentenceOptions) -> Seq<
    (Seq<char>, Json),
> {
    seq![("vid"@, Json::Number(options.vid.0 as nat)), ("sid"@, Json::Number(options.sid.0 as nat))]
        + optional_member("sentence"@, optional_text_json(options.sentence))
        + optional_member("translation"@, optional_text_json(options.translation))
        + optional_member("clear_audio"@, optional_bool_json(options.clear_audio))
        + optional_member("clear_image"@, optional_bool_json(options.clear_image))
}

/// Law: an add-vocabulary body names the words and the deck, names each
/// optional field exactly when it is set, and nothing else.
pub proof fn lemma_add_vocabulary_keys(deck: AnyDeckWidget, options: AddVocabularyOptions)
    ensures
        keys(add_vocabulary_members(deck, options)).contains("vocabulary"@),
        keys(add_vocabulary_members(deck, options)).contains("id"@),
        keys(add_vocabulary_members(deck, options)).contains("occurences"@)
            <==> options.occurences is Some,
        keys(add_vocabulary_members(deck, options)).contains("replace_existing_occurences"@)
            <==> options.overwrite_occurences is Some,
        keys(add_vocabulary_members(deck, options)).contains("ignore_unknown"@)
            <==> options.ignore_unknown is Some,
        forall|k: Seq<char>|
            #[trigger] keys(add_vocabulary_members(deck, options)).contains(k) ==> k
                == "vocabulary"@ || k == "occurences"@ || k == "replace_existing_occurences"@ || k
                == "ignore_unknown"@ || k == "id"@,
{
    reveal_strlit("vocabulary");
    reveal_strlit("occurences");
    reveal_strlit("replace_existing_occurences");
    reveal_strlit("ignore_unknown");
    reveal_strlit("id");
    let words: Seq<(Seq<char>, Json)> = seq![("vocabulary"@, vocabulary_list_json(options.vocabulary@))];
    let counts = optional_member("occurences"@, optional_counts_json(options.occurences));
    let replace = optional_member(
        "replace_existing_occurences"@,
        optional_bool_json(options.overwrite_occurences),
    );
    let ignore = optional_member("ignore_unknown"@, optional_bool_json(options.ignore_unknown));
    let id: Seq<(Seq<char>, Json)> = seq![("id"@, deck.spec_json())];
    lemma_keys_concat(words, counts);
    lemma_keys_concat(words + counts, replace);
    lemma_keys_concat(words + counts + replace, ignore);
    lemma_keys_concat(words + counts + replace + ignore, id);
    assert(keys(words) =~= seq!["vocabulary"@]);
    assert(keys(id) =~= seq!["id"@]);
    assert forall|k: Seq<char>|
        #[trigger] keys(add_vocabulary_members(deck, options)).contains(k) <==> (k == "vocabulary"@
            || (options.occurences is Some && k == "occurences"@) || (
        options.overwrite_occurences is Some && k == "replace_existing_occurences"@) || (
        options.ignore_unknown is Some && k == "ignore_unknown"@) || k == "id"@) by {
        lemma_concat_contains(keys(words), keys(counts), k);
        lemma_concat_contains(keys(words) + keys(counts), keys(replace), k);
        lemma_concat_contains(keys(words) + keys(counts) + keys(replace), keys(ignore), k);
        lemma_concat_contains(
            keys(words) + keys(counts) + keys(replace) + keys(ignore),
            keys(id),
            k,
        );
        lemma_optional_member_keys("occurences"@, optional_counts_json(options.occurences), k);
        lemma_optional_member_keys(
            "replace_existing_occurences"@,
            optional_bool_json(options.overwrite_occurences),
            k,
        );
        lemma_optional_member_keys("ignore_unknown"@, optional_bool_json(options.ignore_unknown), k);
        assert(keys(words)[0] == "vocabulary"@);
        assert(keys(id)[0] == "id"@);
    }
    assert("occurences"@[0] != "vocabulary"@[0]);
    assert("occurences"@.len() != "id"@.len());
    assert("occurences"@.len() != "ignore_unknown"@.len());
    assert("occurences"@.len() != "replace_existing_occurences"@.len());
    assert("replace_existing_occurences"@.len() != "vocabulary"@.len());
    assert("replace_existing_occurences"@.len() != "ignore_unknown"@.len());
    assert("replace_existing_occurences"@.len() != "id"@.len());
    assert("ignore_unknown"@.len() != "vocabulary"@.len());
    assert("ignore_unknown"@.len() != "id"@.len());
}

/// Law: a set-card-sentence body names the word and the spelling, names each
/// optional field exactly when it is set, and nothing else.
pub proof fn lemma_set_card_sentence_keys(options: SetCardSentenceOptions)
    ensures
        keys(set_card_sentence_members(options)).contains("vid"@),
        keys(set_card_sentence_members(options)).contains("sid"@),
        keys(set_card_sentence_members(options)).contains("sentence"@) <==> options.sentence is Some,
        keys(set_card_sentence_members(options)).contains("translation"@)
            <==> options.translation is Some,
        keys(set_card_sentence_members(options)).contains("clear_audio"@)
            <==> options.clear_audio is Some,
        keys(set_card_sentence_members(options)).contains("clear_image"@)
            <==> options.clear_image is Some,
        forall|k: Seq<char>|
            #[trigger] keys(set_card_sentence_members(options)).contains(k) ==> k == "vid"@ || k
                == "sid"@ || k == "sentence"@ || k == "translation"@ || k == "clear_audio"@ || k
                == "clear_image"@,
{
    reveal_strlit("vid");
    reveal_strlit("sid");
    reveal_strlit("sentence");
    reveal_strlit("translation");
    reveal_strlit("clear_audio");
    reveal_strlit("clear_image");
    let ids: Seq<(Seq<char>, Json)> = seq![
        ("vid"@, Json::Number(options.vid.0 as nat)),
        ("sid"@, Json::Number(options.sid.0 as nat)),
    ];
    let sentence = optional_member("sentence"@, optional_text_json(options.sentence));
    let translation = optional_member("translation"@, optional_text_json(options.translation));
    let audio = optional_member("clear_audio"@, optional_bool_json(options.clear_audio));
    let image = optional_member("clear_image"@, optional_bool_json(options.clear_image));
    lemma_keys_concat(ids, sentence);
    lemma_keys_concat(ids + sentence, translation);
    lemma_keys_concat(ids + sentence + translation, audio);
    lemma_keys_concat(ids + sentence + translation + audio, image);
    assert(keys(ids) =~= seq!["vid"@, "sid"@]);
    assert forall|k: Seq<char>|
        #[trigger] keys(set_card_sentence_members(options)).contains(k) <==> (k == "vid"@ || k
            == "sid"@ || (options.sentence is Some && k == "sentence"@) || (options.translation is Some
            && k == "translation"@) || (options.clear_audio is Some && k == "clear_audio"@) || (
        options.clear_image is Some && k == "clear_image"@)) by {
        lemma_concat_contains(keys(ids), keys(sentence), k);
        lemma_concat_contains(keys(ids) + keys(sentence), keys(translation), k);
        lemma_concat_contains(keys(ids) + keys(sentence) + keys(translation), keys(audio), k);
        lemma_concat_contains(
            keys(ids) + keys(sentence) + keys(translation) + keys(audio),
            keys(image),
            k,
        );
        lemma_optional_member_keys("sentence"@, optional_text_json(options.sentence), k);
        lemma_optional_member_keys("translation"@, optional_text_json(options.translation), k);
        lemma_optional_member_keys("clear_audio"@, optional_bool_json(options.clear_audio), k);
        lemma_optional_member_keys("clear_image"@, optional_bool_json(options.clear_image), k);
        if keys(ids).contains(k) {
            let i = choose|i: int| 0 <= i < keys(ids).len() && keys(ids)[i] == k;
        }
        assert(keys(ids)[0] == "vid"@);
        assert(keys(ids)[1] == "sid"@);
    }
    assert("sentence"@.len() != "vid"@.len());
    assert("sentence"@.len() != "sid"@.len());
    assert("sentence"@.len() != "translation"@.len());
    assert("sentence"@.len() != "clear_audio"@.len());
    assert("sentence"@.len() != "clear_image"@.len());
    assert("translation"@.len() != "vid"@.len());
    assert("translation"@.len() != "sid"@.len());
    assert("translation"@[0] != "clear_audio"@[0]);
    assert("translation"@[0] != "clear_image"@[0]);
    assert("clear_audio"@.len() != "vid"@.len());
    assert("clear_audio"@.len() != "sid"@.len());
    assert("clear_audio"@[6] != "clear_image"@[6]);
    assert("clear_image"@.len() != "vid"@.len());
    assert("clear_image"@.len() != "sid"@.len());
}

impl Client {
    /// `ping`: checks the credential; its body is JSON `null`.
    pub fn ping_request(&self) -> (r: Request)
        ensures
            r.url@ == self.spec_base_url() + "ping"@,
            r.body@ == Json::Null,
    {
        Request { url: Client::create_url(self.base_url(), "ping"), body: JsonValue::Null }
    }

    /// `parse`: splits `text` into tokens, reporting the given fields of each
    /// token and, when asked, of each word found.
    pub fn parse_text_request(
        &self,
        text: &str,
        token_fields: &[TokenQueryField],
        vocab_fields: Option<&[VocabQueryField]>,
    ) -> (r: Request)
        ensures
            r.url@ == self.spec_base_url() + "parse"@,
            r.body@ == Json::Object(
                seq![
                    ("text"@, Json::Text(text@)),
                    ("token_fields"@, Json::Array(field_names(dedup_seq(token_fields@)))),
                ] + optional_member("vocabulary_fields"@, optional_fields_json(vocab_fields)),
            ),
    {
        let mut m: Vec<(String, JsonValue)> = Vec::new();
        push_member(&mut m, "text", JsonValue::text(text));
        push_member(&mut m, "token_fields", fields_json(token_fields));
        let vocab = match vocab_fields {
            Some(fields) => Some(fields_json(fields)),
            None => None,
        };
        push_optional_member(&mut m, "vocabulary_fields", vocab);
        proof {
            assert(members_view(m) =~= seq![
                ("text"@, Json::Text(text@)),
                ("token_fields"@, Json::Array(field_names(dedup_seq(token_fields@)))),
            ] + optional_member("vocabulary_fields"@, optional_fields_json(vocab_fields)));
        }
        Request { url: Client::create_url(self.base_url(), "parse"), body: JsonValue::Object(m) }
    }

    /// `lookup-vocabulary`: the given fields of the given words.
    pub fn lookup_vocabulary_request(&self, list: &[(Vid, Sid)], fields: &[VocabQueryField]) -> (r:
        Request)
        ensures
            r.url@ == self.spec_base_url() + "lookup-vocabulary"@,
            r.body@ == Json::Object(
                seq![
                    ("list"@, id_pairs_json(list@)),
                    ("fields"@, Json::Array(field_names(dedup_seq(fields@)))),
                ],
            ),
    {
        let mut m: Vec<(String, JsonValue)> = Vec::new();
        push_member(&mut m, "list", id_pairs_to_json(list));
        push_member(&mut m, "fields", fields_json(fields));
        proof {
            assert(members_view(m) =~= seq![
                ("list"@, id_pairs_json(list@)),
                ("fields"@, Json::Array(field_names(dedup_seq(fields@)))),
            ]);
        }
        Request {
            url: Client::create_url(self.base_url(), "lookup-vocabulary"),
            body: JsonValue::Object(m),
        }
    }

    /// `list-user-decks` or `list-special-decks`: the given fields of each deck.
    pub fn list_decks_request(&self, fields: &[DeckQueryField], deck_type: DeckTypeToList) -> (r:
        Request)
        ensures
            r.url@ == self.spec_base_url() + deck_type.spec_path(),
            r.body@ == Json::Object(
                seq![("fields"@, Json::Array(field_names(dedup_seq(fields@))))],
            ),
    {
        let mut m: Vec<(String, JsonValue)> = Vec::new();
        push_member(&mut m, "fields", fields_json(fields));
        Request {
            url: Client::create_url(self.base_url(), deck_type.as_str()),
            body: JsonValue::Object(m),
        }
    }

    /// `deck/create-empty`: a new deck named `name`, at `position` when given.
    pub fn create_empty_deck_request(&self, name: &str, position: Option<u8>) -> (r: Request)
        ensures
            r.url@ == self.spec_base_url() + "deck/create-empty"@,
            r.body@ == Json::Object(
                seq![("name"@, Json::Text(name@))] + optional_member(
                    "position"@,
                    optional_number_json(position),
                ),
            ),
    {
        let mut m: Vec<(String, JsonValue)> = Vec::new();
        push_member(&mut m, "name", JsonValue::text(name));
        let p = match position {
            Some(p) => Some(JsonValue::Number(p as u64)),
            None => None,
        };
        push_optional_member(&mut m, "position", p);
        Request {
            url: Client::create_url(self.base_url(), "deck/create-empty"),
            body: JsonValue::Object(m),
        }
    }

    /// `deck/list-vocabulary`: the words of a deck, with their occurrence
    /// counts when `fetch_occurences` says so.
    pub fn list_vocabulary_request(&self, deck: AnyDeckWidget, fetch_occurences: Option<bool>) -> (r:
        Request)
        ensures
            r.url@ == self.spec_base_url() + "deck/list-vocabulary"@,
            r.body@ == Json::Object(
                seq![("id"@, deck.spec_json())] + optional_member(
                    "fetch_occurences"@,
                    optional_bool_json(fetch_occurences),
                ),
            ),
    {
        let mut m: Vec<(String, JsonValue)> = Vec::new();
        push_member(&mut m, "id", deck.to_json());
        push_optional_member(&mut m, "fetch_occurences", optional_bool_to_json(fetch_occurences));
        Request {
            url: Client::create_url(self.base_url(), "deck/list-vocabulary"),
            body: JsonValue::Object(m),
        }
    }

    /// `deck/add-vocabulary`: adds words to a deck.
    pub fn add_vocabulary_request(&self, deck: AnyDeckWidget, options: &AddVocabularyOptions) -> (r:
        Request)
        ensures
            r.url@ == self.spec_base_url() + "deck/add-vocabulary"@,
            r.body@ == Json::Object(add_vocabulary_members(deck, *options)),
    {
        let mut m: Vec<(String, JsonValue)> = Vec::new();
        push_member(&mut m, "vocabulary", vocabulary_list_to_json(options.vocabulary));
        let counts = match options.occurences {
            Some(list) => Some(counts_to_json(list)),
            None => None,
        };
        push_optional_member(&mut m, "occurences", counts);
        push_optional_member(
            &mut m,
            "replace_existing_occurences",
            optional_bool_to_json(options.overwrite_occurences),
        );
        push_optional_member(&mut m, "ignore_unknown", optional_bool_to_json(options.ignore_unknown));
        push_member(&mut m, "id", deck.to_json());
        proof {
            assert(members_view(m) =~= add_vocabulary_members(deck, *options));
        }
        Request {
            url: Client::create_url(self.base_url(), "deck/add-vocabulary"),
            body: JsonValue::Object(m),
        }
    }

    /// `deck/remove-vocabulary`: removes words from a deck.
    pub fn remove_vocabulary_request(&self, deck: AnyDeckWidget, vocabulary: &[Vocabulary]) -> (r:
        Request)
        ensures
            r.url@ == self.spec_base_url() + "deck/remove-vocabulary"@,
            r.body@ == Json::Object(
                seq![("id"@, deck.spec_json()), ("vocabulary"@, vocabulary_list_json(vocabulary@))],
            ),
    {
        let mut m: Vec<(String, JsonValue)> = Vec::new();
        push_member(&mut m, "id", deck.to_json());
        push_member(&mut m, "vocabulary", vocabulary_list_to_json(vocabulary));
        proof {
            assert(members_view(m) =~= seq![
                ("id"@, deck.spec_json()),
                ("vocabulary"@, vocabulary_list_json(vocabulary@)),
            ]);
        }
        Request {
            url: Client::create_url(self.base_url(), "deck/remove-vocabulary"),
            body: JsonValue::Object(m),
        }
    }

    /// `deck/clear`: removes every word from a deck.
    pub fn clear_deck_request(&self, deck: AnyDeckWidget) -> (r: Request)
        ensures
            r.url@ == self.spec_base_url() + "deck/clear"@,
            r.body@ == Json::Object(seq![("id"@, deck.spec_json())]),
    {
        let mut m: Vec<(String, JsonValue)> = Vec::new();
        push_member(&mut m, "id", deck.to_json());
        Request { url: Client::create_url(self.base_url(), "deck/clear"), body: JsonValue::Object(m) }
    }

    /// `deck/delete`: deletes a user deck.
    pub fn delete_deck_request(&self, deck: UserDeckId) -> (r: Request)
        ensures
            r.url@ == self.spec_base_url() + "deck/delete"@,
            r.body@ == Json::Object(seq![("id"@, Json::Number(deck.0 as nat))]),
    {
        let mut m: Vec<(String, JsonValue)> = Vec::new();
        push_member(&mut m, "id", deck.as_any().to_json());
        Request { url: Client::create_url(self.base_url(), "deck/delete"), body: JsonValue::Object(m) }
    }

    /// `deck/rename`: gives a user deck a new name.
    pub fn rename_deck_request(&self, deck: UserDeckId, new_name: &str) -> (r: Request)
        ensures
            r.url@ == self.spec_base_url() + "deck/rename"@,
            r.body@ == Json::Object(
                seq![("id"@, Json::Number(deck.0 as nat)), ("name"@, Json::Text(new_name@))],
            ),
    {
        let mut m: Vec<(String, JsonValue)> = Vec::new();
        push_member(&mut m, "id", deck.as_any().to_json());
        push_member(&mut m, "name", JsonValue::text(new_name));
        proof {
            assert(members_view(m) =~= seq![
                ("id"@, Json::Number(deck.0 as nat)),
                ("name"@, Json::Text(new_name@)),
            ]);
        }
        Request { url: Client::create_url(self.base_url(), "deck/rename"), body: JsonValue::Object(m) }
    }

    /// `deck/set-card-sentence`: changes the example sentence of a card.
    pub fn set_card_sentence_request(&self, options: &SetCardSentenceOptions) -> (r: Request)
        ensures
            r.url@ == self.spec_base_url() + "deck/set-card-sentence"@,
            r.body@ == Json::Object(set_card_sentence_members(*options)),
    {
        let mut m: Vec<(String, JsonValue)> = Vec::new();
        push_member(&mut m, "vid", JsonValue::Number(options.vid.0 as u64));
        push_member(&mut m, "sid", JsonValue::Number(options.sid.0 as u64));
        push_optional_member(&mut m, "sentence", optional_text_to_json(options.sentence));
        push_optional_member(&mut m, "translation", optional_text_to_json(options.translation));
        push_optional_member(&mut m, "clear_audio", optional_bool_to_json(options.clear_audio));
        push_optional_member(&mut m, "clear_image", optional_bool_to_json(options.clear_image));
        proof {
            assert(members_view(m) =~= set_card_sentence_members(*options));
        }
        Request {
            url: Client::create_url(self.base_url(), "deck/set-card-sentence"),
            body: JsonValue::Object(m),
        }
    }
}

} // verus!
