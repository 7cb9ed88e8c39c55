//! How the HTTP gateway answers.

use vstd::prelude::*;

verus! {

/// The request was carried out, and there is nothing to say about it.
pub const NO_CONTENT: u16 = 204;

/// The gateway itself failed.
pub const INTERNAL_SERVER_ERROR: u16 = 500;

/// Ollama could not carry out the request.
pub const BAD_GATEWAY: u16 = 502;

/// An answer to a request that failed.
#[derive(Debug)]
pub struct ApiError {
    pub status: u16,
    pub message: String,
}

/// What goes out for a request that failed: a JSON object with a single field.
#[derive(Debug)]
pub struct ErrorReply {
    pub status: u16,
    pub field: String,
    pub text: String,
}

impl ApiError {
    /// An answer with a status and a message.
    pub fn new(status: u16, message: String) -> (r: Self)
        ensures
            r == (ApiError { status, message }),
    {
        ApiError { status, message }
    }

    /// What goes out for this answer: the message under `error`.
    pub fn into_response(self) -> (r: ErrorReply)
        ensures
            r.status == self.status,
            r.field@ == "error"@,
            r.text == self.message,
    {
        ErrorReply { status: self.status, field: "error".to_owned(), text: self.message }
    }
}

/// The answer to a request that was handed to a worker. The outer result is the worker's, the
/// inner one is what Ollama said: a worker that did not finish is the gateway's own failure, an
/// error of Ollama's is passed on as a bad gateway.
pub fn answer<T>(worked: Result<Result<T, String>, String>) -> (r: Result<T, ApiError>)
    ensures
        r == (match worked {
            Err(message) => Err::<T, ApiError>(
                ApiError { status: 500, message },
            ),
            Ok(Err(message)) => Err::<T, ApiError>(ApiError { status: 502, message }),
            Ok(Ok(value)) => Ok::<T, ApiError>(value),
        }),
{
    match worked {
        Err(message) => Err(ApiError::new(INTERNAL_SERVER_ERROR, message)),
        Ok(Err(message)) => Err(ApiError::new(BAD_GATEWAY, message)),
        Ok(Ok(value)) => Ok(value),
    }
}

/// The answer to a request that has no content to give back.
pub fn answer_empty<T>(worked: Result<Result<T, String>, String>) -> (r: Result<u16, ApiError>)
    ensures
        r == (match worked {
            Err(message) => Err::<u16, ApiError>(
                ApiError { status: 500, message },
            ),
            Ok(Err(message)) => Err::<u16, ApiError>(ApiError { status: 502, message }),
            Ok(Ok(_)) => Ok::<u16, ApiError>(204),
        }),
{
    match answer(worked) {
        Ok(_) => Ok(NO_CONTENT),
        Err(e) => Err(e),
    }
}

/// The arguments that make a model of which only the name is known: the other three are empty.
pub fn inspected_model(name: String) -> (r: (String, String, String, String))
    ensures
        r.0 == name,
        r.1@.len() == 0,
        r.2@.len() == 0,
        r.3@.len() == 0,
{
    (name, String::new(), String::new(), String::new())
}

/// What has happened while the models directory is set. `T` is what is told of it afterwards.
#[derive(Debug)]
pub enum ModelsPathEvent<T> {
    /// A request for this path came in.
    Start(String),
    /// The path was set, or why it was not.
    Written(Result<(), String>),
    /// What is now in effect.
    Info(T),
}

/// What is to be done next to set the models directory.
#[derive(Debug)]
pub enum ModelsPathStep<T> {
    Write(String),
    ReadInfo,
    Done(Result<T, String>),
}

/// Sets the models directory: the path goes out as it came in, and what is in effect is read
/// only after it was set.
pub fn set_models_path<T>(event: ModelsPathEvent<T>) -> (step: ModelsPathStep<T>)
    ensures
        step == (match event {
            ModelsPathEvent::Start(path) => ModelsPathStep::Write(path),
            ModelsPathEvent::Written(Ok(_)) => ModelsPathStep::ReadInfo,
            ModelsPathEvent::Written(Err(e)) => ModelsPathStep::Done(Err(e)),
            ModelsPathEvent::Info(info) => ModelsPathStep::Done(Ok(info)),
        }),
{
    match event {
        ModelsPathEvent::Start(path) => ModelsPathStep::Write(path),
        ModelsPathEvent::Written(Ok(_)) => ModelsPathStep::ReadInfo,
        ModelsPathEvent::Written(Err(e)) => ModelsPathStep::Done(Err(e)),
        ModelsPathEvent::Info(info) => ModelsPathStep::Done(Ok(info)),
    }
}

/// The address to listen at: what `OLLAMA_CONTROLS_BIND` says, or port 3000 of this machine.
pub fn bind_address(var: Option<String>) -> (r: String)
    ensures
        match var {
            Some(address) => r == address,
            None => r@ == "127.0.0.1:3000"@,
        },
{
    match var {
        Some(address) => address,
        None => "127.0.0.1:3000".to_owned(),
    }
}

} // verus!
