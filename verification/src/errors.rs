use vstd::prelude::*;
use crate::json::{is_plain, lemma_plain_text_unescaped, render_single_entry_object, single_entry_object, JsonScalar, JsonScalarView};
use crate::status::Status;

verus! {

/// A response whose body is a JSON document.
#[derive(Clone, Debug)]
pub struct JsonResponse {
    pub status: Status,
    pub body: String,
}

/// The body of every error response: `{"error": message}`.
pub open spec fn error_body(message: Seq<char>) -> Seq<char> {
    single_entry_object("error"@, JsonScalarView::Str(message))
}

/// The body that acknowledges a stored name: `{"created": true}`.
pub open spec fn created_body() -> Seq<char> {
    single_entry_object("created"@, JsonScalarView::Bool(true))
}

/// A message made of plain characters is sent verbatim:
/// the body is `{"error":"` followed by the message and `"}`.
pub proof fn lemma_plain_error_body(message: Seq<char>)
    requires
        is_plain(message),
    ensures
        error_body(message) == "{\"error\":\""@ + message + "\"}"@,
{
    reveal_strlit("error");
    reveal_strlit("{\"error\":\"");
    reveal_strlit("\"}");
    assert(is_plain("error"@));
    lemma_plain_text_unescaped("error"@);
    lemma_plain_text_unescaped(message);
    assert(error_body(message) =~= "{\"error\":\""@ + message + "\"}"@);
}

/// Builds `(status, {"error": message})`.
pub fn error_response(status: Status, message: &str) -> (r: JsonResponse)
    ensures
        r.status == status,
        r.body@ == error_body(message@),
{
    let value = JsonScalar::Str(message.to_owned());
    JsonResponse { status, body: render_single_entry_object("error", &value) }
}

/// The answer to a successful store of a name: `201 {"created": true}`.
pub fn created_response() -> (r: JsonResponse)
    ensures
        r.status == Status::Created,
        r.body@ == created_body(),
{
    JsonResponse { status: Status::Created, body: render_single_entry_object("created", &JsonScalar::Bool(true)) }
}

/// Turns any error, given by its text, into `500 {"error": text}`.
pub fn handle_error(message: &str) -> (r: JsonResponse)
    ensures
        r.status == Status::InternalServerError,
        r.body@ == error_body(message@),
{
    error_response(Status::InternalServerError, message)
}

/// An error of a handler that stores a name: either the name could not be
/// serialized to BSON, or the database failed.
#[derive(Clone, Copy, Debug, PartialEq, Eq, Structural)]
pub enum HttpError {
    BsonSerialization,
    Mongo,
}

impl HttpError {
    /// The message that the client is shown.
    pub open spec fn spec_message(self) -> Seq<char> {
        match self {
            HttpError::BsonSerialization => "serialization error"@,
            HttpError::Mongo => "database error"@,
        }
    }

    /// Every such error is answered `500 {"error": message}`.
    pub fn into_response(self) -> (r: JsonResponse)
        ensures
            r.status == Status::InternalServerError,
            r.body@ == error_body(self.spec_message()),
    {
        match self {
            HttpError::BsonSerialization => error_response(Status::InternalServerError, "serialization error"),
            HttpError::Mongo => error_response(Status::InternalServerError, "database error"),
        }
    }
}

/// An error carried as an opaque report, of which the handler only knows
/// whether it came from the database.
#[derive(Clone, Copy, Debug, PartialEq, Eq, Structural)]
pub struct ReportedError {
    pub from_mongo: bool,
}

impl ReportedError {
    /// The message that the client is shown.
    pub open spec fn spec_message(self) -> Seq<char> {
        if self.from_mongo {
            "database error"@
        } else {
            "an error occured"@
        }
    }

    /// Every report is answered `500 {"error": message}`.
    pub fn into_response(self) -> (r: JsonResponse)
        ensures
            r.status == Status::InternalServerError,
            r.body@ == error_body(self.spec_message()),
    {
        if self.from_mongo {
            error_response(Status::InternalServerError, "database error")
        } else {
            error_response(Status::InternalServerError, "an error occured")
        }
    }
}

/// The server code of a write that violates a unique index.
pub const DUPLICATE_KEY: i32 = 11000;

/// An error of a handler whose database may reject a duplicate entry.
/// `write_error_code` is the server code of a failed single-document write,
/// and `None` for every other kind of database failure.
#[derive(Clone, Copy, Debug, PartialEq, Eq, Structural)]
pub enum AppError {
    BsonSerialization,
    Mongo { write_error_code: Option<i32> },
}

impl AppError {
    /// The status that the client is answered with.
    pub open spec fn spec_status(self) -> Status {
        match self {
            AppError::Mongo { write_error_code: Some(code) } if code == DUPLICATE_KEY => Status::Conflict,
            _ => Status::InternalServerError,
        }
    }

    /// The message that the client is shown.
    pub open spec fn spec_message(self) -> Seq<char> {
        match self {
            AppError::BsonSerialization => "bson serialization error"@,
            AppError::Mongo { write_error_code: Some(code) } if code == DUPLICATE_KEY => "conflict"@,
            AppError::Mongo { .. } => "mongodb error"@,
        }
    }

    /// A duplicate key is answered `409 {"error": "conflict"}`, every other
    /// error with status 500.
    pub fn into_response(self) -> (r: JsonResponse)
        ensures
            r.status == self.spec_status(),
            r.body@ == error_body(self.spec_message()),
    {
        match self {
            AppError::BsonSerialization => error_response(Status::InternalServerError, "bson serialization error"),
            AppError::Mongo { write_error_code } => {
                if write_error_code == Some(DUPLICATE_KEY) {
                    error_response(Status::Conflict, "conflict")
                } else {
                    error_response(Status::InternalServerError, "mongodb error")
                }
            },
        }
    }
}

/// Every storage error is answered with status 500, and the two kinds are
/// told apart by their messages.
pub proof fn lemma_storage_errors(e: HttpError)
    ensures
        e.spec_message() == "serialization error"@ <==> e == HttpError::BsonSerialization,
        e.spec_message() == "database error"@ <==> e == HttpError::Mongo,
{
    reveal_strlit("serialization error");
    reveal_strlit("database error");
    assert("serialization error"@.len() != "database error"@.len());
}

/// A report says "database error" exactly when it came from the database,
/// and "an error occured" otherwise.
pub proof fn lemma_reported_errors(e: ReportedError)
    ensures
        e.spec_message() == "database error"@ <==> e.from_mongo,
        !e.from_mongo ==> e.spec_message() == "an error occured"@,
{
    reveal_strlit("an error occured");
    reveal_strlit("database error");
}

/// Only a duplicate key (server code 11000) is a conflict: the answer is
/// `409` exactly for that write error, and then says "conflict"; every other
/// database error is answered `500 "mongodb error"`, and a failed BSON
/// serialization `500 "bson serialization error"`.
pub proof fn lemma_conflict_only_for_duplicate_key(e: AppError)
    ensures
        e.spec_status() == Status::Conflict <==> e == (AppError::Mongo { write_error_code: Some(11000i32) }),
        e.spec_status() == Status::Conflict ==> e.spec_message() == "conflict"@,
        e.spec_status() != Status::Conflict ==> e.spec_status() == Status::InternalServerError,
        (e is Mongo) && e != (AppError::Mongo { write_error_code: Some(11000i32) }) ==> e.spec_message()
            == "mongodb error"@,
        (e is BsonSerialization) ==> e.spec_message() == "bson serialization error"@,
{
}

/// The errors of the greeting service: reading the greeting file failed
/// (`not_found` when the file does not exist), the requested name leaves
/// the greetings directory, or the database failed.
#[derive(Clone, Copy, Debug, PartialEq, Eq, Structural)]
pub enum ServiceError {
    Io { not_found: bool },
    InvalidPath,
    Mongo,
}

impl ServiceError {
    /// The status that the client is answered with.
    pub open spec fn spec_status(self) -> Status {
        match self {
            ServiceError::Mongo => Status::InternalServerError,
            ServiceError::InvalidPath => Status::BadRequest,
            ServiceError::Io { not_found } => if not_found {
                Status::NotFound
            } else {
                Status::InternalServerError
            },
        }
    }

    /// The message that the client is shown.
    pub open spec fn spec_message(self) -> Seq<char> {
        match self {
            ServiceError::Mongo => "database error"@,
            ServiceError::InvalidPath => "invalid path"@,
            ServiceError::Io { not_found } => if not_found {
                "not found"@
            } else {
                "io error"@
            },
        }
    }

    /// Answers `(status, {"error": message})`.
    pub fn into_response(self) -> (r: JsonResponse)
        ensures
            r.status == self.spec_status(),
            r.body@ == error_body(self.spec_message()),
    {
        match self {
            ServiceError::Mongo => error_response(Status::InternalServerError, "database error"),
            ServiceError::InvalidPath => error_response(Status::BadRequest, "invalid path"),
            ServiceError::Io { not_found } => {
                if not_found {
                    error_response(Status::NotFound, "not found")
                } else {
                    error_response(Status::InternalServerError, "io error")
                }
            },
        }
    }
}

/// A missing greeting file is answered `404`, a name outside the greetings
/// directory `400`, and every other failure `500`.
pub proof fn lemma_service_error_statuses(e: ServiceError)
    ensures
        e.spec_status() == Status::NotFound <==> e == (ServiceError::Io { not_found: true }),
        e.spec_status() == Status::BadRequest <==> e == ServiceError::InvalidPath,
        e.spec_status() == Status::InternalServerError <==> (e == ServiceError::Mongo || e == (
        ServiceError::Io { not_found: false })),
        e == ServiceError::Mongo ==> e.spec_message() == "database error"@,
        e == (ServiceError::Io { not_found: false }) ==> e.spec_message() == "io error"@,
        e == (ServiceError::Io { not_found: true }) ==> e.spec_message() == "not found"@,
        e == ServiceError::InvalidPath ==> e.spec_message() == "invalid path"@,
{
}

} // verus!
