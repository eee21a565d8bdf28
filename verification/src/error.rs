//! The closed set of errors that cross the boundary.

use crate::backend::{ConnectorError, CoreError};
use crate::schema::Diagnostics;
use vstd::hash_map::StringHashMap;
use vstd::prelude::*;

verus! {

/// An error as the foreign caller sees it.
#[derive(Debug, Clone, PartialEq, Eq)]
pub enum PrismaError {
    /// The schema did not validate: the first diagnostic and the schema text.
    Conversion(String, String),
    /// The datasource configuration is missing or unusable.
    Configuration(String),
    /// The query core failed, or a fault was contained.
    Core(String),
    /// A connector failed, or no engine answers to the handle.
    Connector(String),
    /// The engine is connected already.
    AlreadyConnected,
    /// The engine is not connected.
    NotConnected,
    /// A request body or a transaction input is not the JSON it has to be.
    JsonDecode(String),
}

/// A `PrismaError` with its texts as sequences of characters.
pub enum ErrorModel {
    Conversion(Seq<char>, Seq<char>),
    Configuration(Seq<char>),
    Core(Seq<char>),
    Connector(Seq<char>),
    AlreadyConnected,
    NotConnected,
    JsonDecode(Seq<char>),
}

impl View for PrismaError {
    type V = ErrorModel;

    open spec fn view(&self) -> ErrorModel {
        match self {
            PrismaError::Conversion(message, source) => ErrorModel::Conversion(message@, source@),
            PrismaError::Configuration(message) => ErrorModel::Configuration(message@),
            PrismaError::Core(message) => ErrorModel::Core(message@),
            PrismaError::Connector(message) => ErrorModel::Connector(message@),
            PrismaError::AlreadyConnected => ErrorModel::AlreadyConnected,
            PrismaError::NotConnected => ErrorModel::NotConnected,
            PrismaError::JsonDecode(message) => ErrorModel::JsonDecode(message@),
        }
    }
}

/// Whether `result` is the error that `expected` describes.
pub open spec fn fails_with<T>(result: Result<T, PrismaError>, expected: ErrorModel) -> bool {
    result matches Err(error) && error@ == expected
}

/// The error of a result that is one.
pub open spec fn error_of<T>(result: Result<T, ErrorModel>) -> Option<ErrorModel> {
    match result {
        Ok(_) => None,
        Err(error) => Some(error),
    }
}

/// A result with its error as a model.
pub open spec fn result_model<T>(result: Result<T, PrismaError>) -> Result<T, ErrorModel> {
    match result {
        Ok(value) => Ok(value),
        Err(error) => Err(error@),
    }
}

/// A result that holds text, as a model.
pub open spec fn text_result_model(result: Result<String, PrismaError>) -> Result<
    Seq<char>,
    ErrorModel,
> {
    match result {
        Ok(text) => Ok(text@),
        Err(error) => Err(error@),
    }
}

impl ErrorModel {
    /// The name of the kind, as the caller reads it under `code`.
    pub open spec fn code(self) -> Seq<char> {
        match self {
            ErrorModel::Conversion(_, _) => "Conversion"@,
            ErrorModel::Configuration(_) => "Configuration"@,
            ErrorModel::Core(_) => "Core"@,
            ErrorModel::Connector(_) => "Connector"@,
            ErrorModel::AlreadyConnected => "AlreadyConnected"@,
            ErrorModel::NotConnected => "NotConnected"@,
            ErrorModel::JsonDecode(_) => "JsonDecode"@,
        }
    }

    /// What the caller reads under `message`.
    pub open spec fn message(self) -> Seq<char> {
        match self {
            ErrorModel::Conversion(message, _) => message,
            ErrorModel::Configuration(message) => message,
            ErrorModel::Core(message) => message,
            ErrorModel::Connector(message) => message,
            ErrorModel::AlreadyConnected => "Already connected to database"@,
            ErrorModel::NotConnected => "Not connected to database"@,
            ErrorModel::JsonDecode(message) => message,
        }
    }

    /// What the caller reads under `data`, for the kinds that carry any.
    pub open spec fn data(self) -> Option<Seq<char>> {
        match self {
            ErrorModel::Conversion(_, source) => Some(source),
            _ => None,
        }
    }
}

/// The message of a contained fault: the marker, then what the fault said of
/// itself, if it said anything.
pub open spec fn panic_text(message: Option<String>) -> Seq<char> {
    match message {
        Some(message) => "PANIC: "@ + message@,
        None => "PANIC: unknown panic"@,
    }
}

/// The error for a schema that did not validate: it carries the first
/// diagnostic and the schema text.
pub open spec fn conversion_model(diagnostics: Diagnostics, source: Seq<char>) -> ErrorModel
    recommends
        diagnostics.error_texts().len() > 0,
{
    ErrorModel::Conversion(diagnostics.error_texts()[0], source)
}

/// What becomes of a failure of the query core while a transaction is
/// started or committed: one that the backend knows is handed to the caller
/// as a payload, in place of the result; any other is an error.
pub open spec fn known_error_model(error: CoreError) -> Result<Seq<char>, ErrorModel> {
    match error.known {
        Some(payload) => Ok(payload@),
        None => Err(ErrorModel::Core(error.message@)),
    }
}

/// The message under which an unknown handle is reported.
pub open spec fn not_found_text() -> Seq<char> {
    "Engine not found"@
}

impl PrismaError {
    /// A configuration error with the given message.
    pub fn configuration(message: &str) -> (error: PrismaError)
        ensures
            error@ == ErrorModel::Configuration(message@),
    {
        PrismaError::Configuration(message.to_owned())
    }

    /// The error for a handle that no engine answers to.
    pub fn not_found() -> (error: PrismaError)
        ensures
            error@ == ErrorModel::Connector(not_found_text()),
    {
        PrismaError::Connector("Engine not found".to_owned())
    }

    /// The error for a schema that did not validate.
    pub fn conversion(diagnostics: &Diagnostics, source: &str) -> (error: PrismaError)
        requires
            diagnostics.error_texts().len() > 0,
        ensures
            error@ == conversion_model(*diagnostics, source@),
    {
        PrismaError::Conversion(diagnostics.errors[0].clone(), source.to_owned())
    }

    /// The error for a failure of a connector.
    pub fn from_connector(error: ConnectorError) -> (converted: PrismaError)
        ensures
            converted@ == ErrorModel::Connector(error.text()),
    {
        match error.user_facing {
            Some(message) => PrismaError::Connector(message),
            None => PrismaError::Connector(error.message),
        }
    }

    /// The error for a failure of the query core.
    pub fn from_core(error: CoreError) -> (converted: PrismaError)
        ensures
            converted@ == ErrorModel::Core(error.message@),
    {
        PrismaError::Core(error.message)
    }

    /// The error for JSON that could not be read or written.
    pub fn json_decode(message: String) -> (error: PrismaError)
        ensures
            error@ == ErrorModel::JsonDecode(message@),
    {
        PrismaError::JsonDecode(message)
    }

    /// The error that stands for a contained fault.
    pub fn fault(message: Option<String>) -> (error: PrismaError)
        ensures
            error@ == ErrorModel::Core(panic_text(message)),
    {
        match message {
            Some(message) => {
                let text = "PANIC: ".to_owned().concat(message.as_str());
                PrismaError::Core(text)
            },
            None => PrismaError::Core("PANIC: unknown panic".to_owned()),
        }
    }

    /// The error as a flat JSON object: `code`, `message` and, for the kinds
    /// that carry any, `data`.
    pub fn to_json(self) -> (json: StringHashMap<String>)
        ensures
            json@.dom() =~= if self@.data() is Some {
                set!["code"@, "message"@, "data"@]
            } else {
                set!["code"@, "message"@]
            },
            json@["code"@]@ == self@.code(),
            json@["message"@]@ == self@.message(),
            self@.data() matches Some(data) ==> json@["data"@]@ == data,
    {
        let (code, message, data): (String, String, Option<String>) = match self {
            PrismaError::Conversion(message, source) => (
                "Conversion".to_owned(),
                message,
                Some(source),
            ),
            PrismaError::Configuration(message) => ("Configuration".to_owned(), message, None),
            PrismaError::Core(message) => ("Core".to_owned(), message, None),
            PrismaError::Connector(message) => ("Connector".to_owned(), message, None),
            PrismaError::AlreadyConnected => (
                "AlreadyConnected".to_owned(),
                "Already connected to database".to_owned(),
                None,
            ),
            PrismaError::NotConnected => (
                "NotConnected".to_owned(),
                "Not connected to database".to_owned(),
                None,
            ),
            PrismaError::JsonDecode(message) => ("JsonDecode".to_owned(), message, None),
        };
        proof {
            lemma_json_keys_differ();
        }
        let mut json = StringHashMap::<String>::new();
        json.insert("code".to_owned(), code);
        json.insert("message".to_owned(), message);
        if let Some(data) = data {
            json.insert("data".to_owned(), data);
        }
        json
    }
}

/// The three keys of an error's JSON object are three different texts.
pub proof fn lemma_json_keys_differ()
    ensures
        "code"@ != "message"@,
        "code"@ != "data"@,
        "message"@ != "data"@,
{
    reveal_strlit("code");
    reveal_strlit("message");
    reveal_strlit("data");
    assert("code"@.len() == 4);
    assert("message"@.len() == 7);
    assert("data"@.len() == 4);
    assert("code"@[0] == 'c');
    assert("data"@[0] == 'd');
}

/// The fault boundary: what a unit of work returned, or, where it was
/// aborted, the error that stands for the fault.
pub fn panic_to_error<R>(caught: Result<Result<R, PrismaError>, Option<String>>) -> (result: Result<
    R,
    PrismaError,
>)
    ensures
        match caught {
            Ok(returned) => result == returned,
            Err(message) => result matches Err(error) && error@ == ErrorModel::Core(
                panic_text(message),
            ),
        },
{
    match caught {
        Ok(returned) => returned,
        Err(message) => Err(PrismaError::fault(message)),
    }
}

} // verus!
