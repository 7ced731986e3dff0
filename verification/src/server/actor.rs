//! Errors and status of the job management actor, and how its errors are answered over
//! HTTP.
use vstd::prelude::*;
use crate::text::{concat, owned};

verus! {

/// Actor error types.
#[derive(Debug, Clone)]
pub enum ActorError {
    /// Actor is not yet initialized.
    NotInitialized,
    /// Database operation failed.
    DatabaseError(String),
    /// Resource not found.
    NotFound,
    /// Invalid state or operation.
    InvalidState(String),
}

impl ActorError {
    /// The text of the error.
    pub open spec fn message_text(self) -> Seq<char> {
        match self {
            ActorError::NotInitialized => "Actor not initialized"@,
            ActorError::DatabaseError(msg) => "Database error: "@ + msg@,
            ActorError::NotFound => "Resource not found"@,
            ActorError::InvalidState(msg) => "Invalid state: "@ + msg@,
        }
    }

    /// The text of the error.
    pub fn message(&self) -> (res: String)
        ensures
            res@ == self.message_text(),
    {
        match self {
            ActorError::NotInitialized => owned("Actor not initialized"),
            ActorError::DatabaseError(msg) => concat("Database error: ", msg.as_str()),
            ActorError::NotFound => owned("Resource not found"),
            ActorError::InvalidState(msg) => concat("Invalid state: ", msg.as_str()),
        }
    }
}

/// Initialization status of the actor.
#[derive(Debug, Clone, PartialEq)]
pub enum InitializationStatus {
    /// Actor has not started initialization.
    NotStarted,
    /// Actor is currently initializing.
    InProgress { stage: String },
    /// Actor initialization is complete.
    Complete,
    /// Actor initialization failed.
    Failed { error: String },
}

/// How the actor's initialization ended.
#[derive(Debug)]
pub enum InitOutcome {
    /// Everything was set up.
    Ready,
    /// Setting up failed with this error (written with all its causes).
    Failed(String),
    /// The initialization task panicked (the reason given).
    Panicked(String),
}

/// The actor's status once its initialization has ended.
pub fn status_after_init(outcome: InitOutcome) -> (res: InitializationStatus)
    ensures
        outcome is Ready ==> res is Complete,
        outcome matches InitOutcome::Failed(e) ==> (res matches InitializationStatus::Failed { error } && error == e),
        outcome matches InitOutcome::Panicked(e) ==> (res matches InitializationStatus::Failed { error }
            && error@ == "Initialization task panicked: "@ + e@),
{
    match outcome {
        InitOutcome::Ready => InitializationStatus::Complete,
        InitOutcome::Failed(e) => InitializationStatus::Failed { error: e },
        InitOutcome::Panicked(e) => InitializationStatus::Failed {
            error: concat("Initialization task panicked: ", e.as_str()),
        },
    }
}

/// A command can be served only once the actor is initialized: else the answer is
/// [`ActorError::NotInitialized`].
pub fn require_initialized(initialized: bool) -> (res: Result<(), ActorError>)
    ensures
        initialized ==> res is Ok,
        !initialized ==> (res matches Err(ActorError::NotInitialized)),
{
    if initialized {
        Ok(())
    } else {
        Err(ActorError::NotInitialized)
    }
}

/// An HTTP error answer: a status code and a message.
#[derive(Debug, Clone)]
pub struct HttpError {
    pub status: u16,
    pub message: String,
}

/// HTTP 503 Service Unavailable.
pub const SERVICE_UNAVAILABLE: u16 = 503;

/// HTTP 500 Internal Server Error.
pub const INTERNAL_SERVER_ERROR: u16 = 500;

/// HTTP 404 Not Found.
pub const NOT_FOUND: u16 = 404;

/// HTTP 400 Bad Request.
pub const BAD_REQUEST: u16 = 400;

/// The status code with which an actor error is answered.
pub open spec fn answer_status(err: ActorError) -> u16 {
    match err {
        ActorError::NotInitialized => SERVICE_UNAVAILABLE,
        ActorError::DatabaseError(_) => INTERNAL_SERVER_ERROR,
        ActorError::NotFound => NOT_FOUND,
        ActorError::InvalidState(_) => INTERNAL_SERVER_ERROR,
    }
}

/// The message with which an actor error is answered.
pub open spec fn answer_message(err: ActorError) -> Seq<char> {
    match err {
        ActorError::NotInitialized => "Server is still initializing, please try again"@,
        ActorError::DatabaseError(msg) => msg@,
        ActorError::NotFound => "Resource not found"@,
        ActorError::InvalidState(msg) => msg@,
    }
}

/// Maps an actor error to the HTTP error answered: an uninitialized actor is
/// "service unavailable", a missing resource "not found", and a database error or an
/// invalid state an internal server error carrying its message.
pub fn map_actor_error(err: ActorError) -> (res: HttpError)
    ensures
        res.status == answer_status(err),
        res.message@ == answer_message(err),
{
    match err {
        ActorError::NotInitialized => HttpError {
            status: SERVICE_UNAVAILABLE,
            message: owned("Server is still initializing, please try again"),
        },
        ActorError::DatabaseError(msg) => HttpError { status: INTERNAL_SERVER_ERROR, message: msg },
        ActorError::NotFound => HttpError { status: NOT_FOUND, message: owned("Resource not found") },
        ActorError::InvalidState(msg) => HttpError { status: INTERNAL_SERVER_ERROR, message: msg },
    }
}

/// An actor that is not initialized is answered "service unavailable", and only then.
pub proof fn unavailable_only_before_initialization(err: ActorError)
    ensures
        (answer_status(err) == SERVICE_UNAVAILABLE) <==> (err is NotInitialized),
{
}

/// What each actor error says, and how it is answered over HTTP: an uninitialized actor
/// is 503 `Server is still initializing, please try again`; a database error is 500
/// with its message; a missing resource is 404 `Resource not found`; an invalid state is
/// 500 with its message.
pub proof fn actor_error_answers(msg: String)
    ensures
        ActorError::NotInitialized.message_text() == "Actor not initialized"@,
        ActorError::DatabaseError(msg).message_text() == "Database error: "@ + msg@,
        ActorError::NotFound.message_text() == "Resource not found"@,
        ActorError::InvalidState(msg).message_text() == "Invalid state: "@ + msg@,
        answer_status(ActorError::NotInitialized) == 503,
        answer_message(ActorError::NotInitialized) == "Server is still initializing, please try again"@,
        answer_status(ActorError::DatabaseError(msg)) == 500,
        answer_message(ActorError::DatabaseError(msg)) == msg@,
        answer_status(ActorError::NotFound) == 404,
        answer_message(ActorError::NotFound) == "Resource not found"@,
        answer_status(ActorError::InvalidState(msg)) == 500,
        answer_message(ActorError::InvalidState(msg)) == msg@,
{
}

} // verus!
