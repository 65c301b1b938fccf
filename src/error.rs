use vstd::prelude::*;

use crate::text::{debug_quoted, debug_text, decimal, decimal_text};

verus! {

/// Errors reported by the underlying I/O layer when a response body cannot be decoded.
#[verifier::external_type_specification]
#[verifier::external_body]
pub struct ExIoError(std::io::Error);

/// A failure of the HTTP transport: no response was obtained at all.
#[verifier::external_type_specification]
#[verifier::external_body]
pub struct ExTransport(ureq::Transport);

/// The error envelope that the service sends with a failure status.
#[derive(Debug)]
pub struct RawError {
    pub error_message: String,
    pub error: String,
}

/// Everything that can go wrong with a call, one variant per error class.
///
/// The classified variants carry the service's human-readable message.
#[derive(Debug)]
pub enum Error {
    ApiUnavailable(String),
    MissingKey(String),
    BadKey(String),
    TooManyRequests(String),
    TooManyDecks(String),
    TooManyCardsInDeck(String),
    TooManyCardsTotal(String),
    BadDeck(String),
    BadVid(String),
    BadSid(String),
    BadRid(String),
    BadImage(String),
    BadAudio(String),
    BadRequest(String),
    BadSentence(String),
    BadTranslation(String),
    DeserializeError(std::io::Error),
    Transport(ureq::Transport),
    Unhandled(u16, RawError),
}

/// The class of an [`Error`], without its payload.
#[derive(Debug, Clone, Copy, PartialEq, Eq, Structural)]
pub enum ErrorKind {
    ApiUnavailable,
    MissingKey,
    BadKey,
    BadRequest,
    BadDeck,
    BadVid,
    BadSid,
    BadRid,
    BadImage,
    BadAudio,
    BadSentence,
    BadTranslation,
    TooManyRequests,
    TooManyDecks,
    TooManyCardsInDeck,
    TooManyCardsTotal,
    Transport,
    DeserializeError,
    Unhandled,
}

/// The error that a failure response with `status` and envelope `raw` stands for.
///
/// This is the one table that maps the service's failures to error classes:
/// a new class is a new row here.
pub open spec fn classified(status: u16, raw: RawError) -> Error {
    if status == 403 && raw.error@ == "bad_key"@ && raw.error_message@ == "missing API key"@ {
        Error::MissingKey(raw.error_message)
    } else if status == 403 && raw.error@ == "bad_key"@ && raw.error_message@ == "invalid API key"@ {
        Error::BadKey(raw.error_message)
    } else if status == 429 && raw.error@ == "too_many_requests"@ {
        Error::TooManyRequests(raw.error_message)
    } else if status == 400 && raw.error_message@ == "bad_request"@ {
        Error::BadRequest(raw.error_message)
    } else {
        Error::Unhandled(status, raw)
    }
}

/// The text that introduces the service's message in an error of class `kind`.
pub open spec fn message_prefix(kind: ErrorKind) -> Seq<char> {
    match kind {
        ErrorKind::ApiUnavailable => "API Unavailable. "@,
        ErrorKind::MissingKey => "No API key was specified. "@,
        ErrorKind::BadKey => "A bad API key was specified. "@,
        ErrorKind::TooManyRequests => "Too many requests. "@,
        ErrorKind::TooManyDecks => "The user has too many decks. "@,
        ErrorKind::TooManyCardsInDeck => "The user has too many cards in the given deck. "@,
        ErrorKind::TooManyCardsTotal => "The user has reached the total card limit. "@,
        ErrorKind::BadDeck => "A deck with the given id doesn't exist. "@,
        ErrorKind::BadVid => "There is no vocabulary with the given id. "@,
        ErrorKind::BadSid => "There is no spelling with the given id. "@,
        ErrorKind::BadRid => "There is no reading with the given id. "@,
        ErrorKind::BadImage => "Bad image. "@,
        ErrorKind::BadAudio => "Bad audio. "@,
        ErrorKind::BadRequest => "The request body did not match the schema. "@,
        ErrorKind::BadSentence => "The sentence is too long, or the given vocabulary was not found in it. "@,
        ErrorKind::BadTranslation => "The translation is too long. "@,
        _ => ""@,
    }
}

fn prefix_text(kind: ErrorKind) -> (r: &'static str)
    ensures
        r@ == message_prefix(kind),
{
    match kind {
        ErrorKind::ApiUnavailable => "API Unavailable. ",
        ErrorKind::MissingKey => "No API key was specified. ",
        ErrorKind::BadKey => "A bad API key was specified. ",
        ErrorKind::TooManyRequests => "Too many requests. ",
        ErrorKind::TooManyDecks => "The user has too many decks. ",
        ErrorKind::TooManyCardsInDeck => "The user has too many cards in the given deck. ",
        ErrorKind::TooManyCardsTotal => "The user has reached the total card limit. ",
        ErrorKind::BadDeck => "A deck with the given id doesn't exist. ",
        ErrorKind::BadVid => "There is no vocabulary with the given id. ",
        ErrorKind::BadSid => "There is no spelling with the given id. ",
        ErrorKind::BadRid => "There is no reading with the given id. ",
        ErrorKind::BadImage => "Bad image. ",
        ErrorKind::BadAudio => "Bad audio. ",
        ErrorKind::BadRequest => "The request body did not match the schema. ",
        ErrorKind::BadSentence => "The sentence is too long, or the given vocabulary was not found in it. ",
        ErrorKind::BadTranslation => "The translation is too long. ",
        _ => "",
    }
}

/// How an unhandled failure reads: its status and its envelope.
pub open spec fn unhandled_text(status: u16, raw: RawError) -> Seq<char> {
    "Unhandled error. Code: "@ + decimal(status as nat) + ". Raw: RawError { error_message: "@
        + debug_quoted(raw.error_message@) + ", error: "@ + debug_quoted(raw.error@) + " }"@
}

/// Relies on the `Display` impl of `ureq::Transport`.
#[verifier::external_body]
fn transport_text(cause: &ureq::Transport) -> String {
    cause.to_string()
}

/// Relies on the `Display` impl of `std::io::Error`.
#[verifier::external_body]
fn io_error_text(cause: &std::io::Error) -> String {
    cause.to_string()
}

/// Relies on `std::io::Error::new`: an I/O error of kind `InvalidData`
/// that carries `message`.
#[verifier::external_body]
fn invalid_data(message: &str) -> std::io::Error {
    std::io::Error::new(std::io::ErrorKind::InvalidData, message)
}

/// Whether `s` holds exactly the characters of `literal`.
fn text_is(s: &String, literal: &str) -> (r: bool)
    ensures
        r == (s@ == literal@),
{
    *s == literal.to_owned()
}

impl RawError {
    pub fn new(error: &str, error_message: &str) -> (r: RawError)
        ensures
            r.error@ == error@,
            r.error_message@ == error_message@,
    {
        RawError { error_message: error_message.to_owned(), error: error.to_owned() }
    }

    /// The machine-readable error code.
    pub fn error(&self) -> (r: &str)
        ensures
            r@ == self.error@,
    {
        self.error.as_str()
    }

    /// The human-readable error description.
    pub fn error_message(&self) -> (r: &str)
        ensures
            r@ == self.error_message@,
    {
        self.error_message.as_str()
    }
}

impl Error {
    /// The class of this error.
    pub open spec fn spec_kind(&self) -> ErrorKind {
        match self {
            Error::ApiUnavailable(_) => ErrorKind::ApiUnavailable,
            Error::MissingKey(_) => ErrorKind::MissingKey,
            Error::BadKey(_) => ErrorKind::BadKey,
            Error::TooManyRequests(_) => ErrorKind::TooManyRequests,
            Error::TooManyDecks(_) => ErrorKind::TooManyDecks,
            Error::TooManyCardsInDeck(_) => ErrorKind::TooManyCardsInDeck,
            Error::TooManyCardsTotal(_) => ErrorKind::TooManyCardsTotal,
            Error::BadDeck(_) => ErrorKind::BadDeck,
            Error::BadVid(_) => ErrorKind::BadVid,
            Error::BadSid(_) => ErrorKind::BadSid,
            Error::BadRid(_) => ErrorKind::BadRid,
            Error::BadImage(_) => ErrorKind::BadImage,
            Error::BadAudio(_) => ErrorKind::BadAudio,
            Error::BadRequest(_) => ErrorKind::BadRequest,
            Error::BadSentence(_) => ErrorKind::BadSentence,
            Error::BadTranslation(_) => ErrorKind::BadTranslation,
            Error::DeserializeError(_) => ErrorKind::DeserializeError,
            Error::Transport(_) => ErrorKind::Transport,
            Error::Unhandled(_, _) => ErrorKind::Unhandled,
        }
    }

    #[verifier::when_used_as_spec(spec_kind)]
    pub fn kind(&self) -> (r: ErrorKind)
        ensures
            r == self.spec_kind(),
    {
        match *self {
            Error::MissingKey(_) => ErrorKind::MissingKey,
            Error::BadKey(_) => ErrorKind::BadKey,
            Error::BadRequest(_) => ErrorKind::BadRequest,
            Error::Transport(_) => ErrorKind::Transport,
            Error::Unhandled(_, _) => ErrorKind::Unhandled,
            Error::TooManyRequests(_) => ErrorKind::TooManyRequests,
            Error::ApiUnavailable(_) => ErrorKind::ApiUnavailable,
            Error::TooManyDecks(_) => ErrorKind::TooManyDecks,
            Error::TooManyCardsInDeck(_) => ErrorKind::TooManyCardsInDeck,
            Error::TooManyCardsTotal(_) => ErrorKind::TooManyCardsTotal,
            Error::BadDeck(_) => ErrorKind::BadDeck,
            Error::BadVid(_) => ErrorKind::BadVid,
            Error::BadSid(_) => ErrorKind::BadSid,
            Error::BadRid(_) => ErrorKind::BadRid,
            Error::BadImage(_) => ErrorKind::BadImage,
            Error::BadAudio(_) => ErrorKind::BadAudio,
            Error::BadSentence(_) => ErrorKind::BadSentence,
            Error::BadTranslation(_) => ErrorKind::BadTranslation,
            Error::DeserializeError(_) => ErrorKind::DeserializeError,
        }
    }

    /// Classifies a failure response by its HTTP status and error envelope.
    ///
    /// An envelope that the table does not know for the status gives
    /// [`Error::Unhandled`] with the status and the envelope unchanged.
    pub fn from_status(status: u16, raw: RawError) -> (r: Error)
        ensures
            r == classified(status, raw),
    {
        match status {
            403 => {
                if !text_is(&raw.error, "bad_key") {
                    Error::Unhandled(status, raw)
                } else if text_is(&raw.error_message, "missing API key") {
                    Error::MissingKey(raw.error_message)
                } else if text_is(&raw.error_message, "invalid API key") {
                    Error::BadKey(raw.error_message)
                } else {
                    Error::Unhandled(status, raw)
                }
            },
            429 => {
                if !text_is(&raw.error, "too_many_requests") {
                    Error::Unhandled(status, raw)
                } else {
                    Error::TooManyRequests(raw.error_message)
                }
            },
            400 => {
                if text_is(&raw.error_message, "bad_request") {
                    Error::BadRequest(raw.error_message)
                } else {
                    Error::Unhandled(status, raw)
                }
            },
            _ => Error::Unhandled(status, raw),
        }
    }

    /// The service's human-readable message that this error carries, if any.
    pub open spec fn spec_message(&self) -> Option<Seq<char>> {
        match self {
            Error::ApiUnavailable(s) => Some(s@),
            Error::MissingKey(s) => Some(s@),
            Error::BadKey(s) => Some(s@),
            Error::TooManyRequests(s) => Some(s@),
            Error::TooManyDecks(s) => Some(s@),
            Error::TooManyCardsInDeck(s) => Some(s@),
            Error::TooManyCardsTotal(s) => Some(s@),
            Error::BadDeck(s) => Some(s@),
            Error::BadVid(s) => Some(s@),
            Error::BadSid(s) => Some(s@),
            Error::BadRid(s) => Some(s@),
            Error::BadImage(s) => Some(s@),
            Error::BadAudio(s) => Some(s@),
            Error::BadRequest(s) => Some(s@),
            Error::BadSentence(s) => Some(s@),
            Error::BadTranslation(s) => Some(s@),
            _ => None,
        }
    }

    pub fn message(&self) -> (r: Option<&str>)
        ensures
            match r {
                Some(m) => self.spec_message() == Some(m@),
                None => self.spec_message() is None,
            },
    {
        match self {
            Error::ApiUnavailable(s) => Some(s.as_str()),
            Error::MissingKey(s) => Some(s.as_str()),
            Error::BadKey(s) => Some(s.as_str()),
            Error::TooManyRequests(s) => Some(s.as_str()),
            Error::TooManyDecks(s) => Some(s.as_str()),
            Error::TooManyCardsInDeck(s) => Some(s.as_str()),
            Error::TooManyCardsTotal(s) => Some(s.as_str()),
            Error::BadDeck(s) => Some(s.as_str()),
            Error::BadVid(s) => Some(s.as_str()),
            Error::BadSid(s) => Some(s.as_str()),
            Error::BadRid(s) => Some(s.as_str()),
            Error::BadImage(s) => Some(s.as_str()),
            Error::BadAudio(s) => Some(s.as_str()),
            Error::BadRequest(s) => Some(s.as_str()),
            Error::BadSentence(s) => Some(s.as_str()),
            Error::BadTranslation(s) => Some(s.as_str()),
            _ => None,
        }
    }

    /// A description of the error for people.
    ///
    /// A classified error reads as a fixed sentence for its class followed by
    /// the service's message; transport and decoding failures read as their
    /// cause does.
    pub fn to_string(&self) -> (r: String)
        ensures
            self.spec_message() is Some ==> r@ == message_prefix(self.kind())
                + self.spec_message()->Some_0,
            match self {
                Error::Unhandled(status, raw) => r@ == unhandled_text(*status, *raw),
                _ => true,
            },
    {
        match self {
            Error::Transport(cause) => transport_text(cause),
            Error::DeserializeError(cause) => io_error_text(cause),
            Error::Unhandled(status, raw) => {
                let r = "Unhandled error. Code: ".to_owned().concat(decimal_text(*status).as_str()).concat(
                    ". Raw: RawError { error_message: ",
                ).concat(debug_text(raw.error_message.as_str()).as_str()).concat(", error: ").concat(
                    debug_text(raw.error.as_str()).as_str(),
                ).concat(" }");
                r
            },
            _ => {
                let message = self.message();
                match message {
                    Some(m) => prefix_text(self.kind()).to_owned().concat(m),
                    None => String::new(),
                }
            },
        }
    }

    /// A success response whose body does not have the expected shape.
    pub fn decode_failure(message: &str) -> (r: Error)
        ensures
            r.kind() == ErrorKind::DeserializeError,
    {
        Error::DeserializeError(invalid_data(message))
    }

    /// A call for which no HTTP response was obtained.
    pub fn from_transport(cause: ureq::Transport) -> (r: Error)
        ensures
            r == Error::Transport(cause),
            r.kind() == ErrorKind::Transport,
    {
        Error::Transport(cause)
    }
}

} // verus!
