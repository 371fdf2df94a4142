//! What the front end tells its clients: the status and the body of an
//! answer that reports an error, and the texts of its listings.

use vstd::prelude::*;
use crate::error::{InputFault, ManagerError};
use crate::util::{decimal, join, to_decimal};

verus! {

/// The status of an answer that reports `err`.
pub open spec fn http_status(err: ManagerError) -> u16 {
    match err {
        ManagerError::AllBusy => 503,
        ManagerError::CapacityExceeded => 503,
        ManagerError::SpawnTimeout => 500,
        ManagerError::RpcFailure(_) => 500,
        ManagerError::InferenceFailure(_) => 500,
        ManagerError::InvalidInput(_) => 400,
    }
}

/// The address on which the front end listens: every interface, on `port`.
pub open spec fn bind_text(port: u16) -> Seq<char> {
    "0.0.0.0:"@ + decimal(port as nat)
}

/// The address on which the front end listens: every interface, on `port`.
pub fn bind_address(port: u16) -> (s: String)
    ensures
        s@ == bind_text(port),
{
    let number = to_decimal(port as u64);
    join("0.0.0.0:", number.as_str())
}

/// An error on its way to the client.
#[derive(Debug, Clone, PartialEq, Eq)]
pub struct WebError {
    err: ManagerError,
}

impl WebError {
    /// The error that is reported.
    pub closed spec fn cause(&self) -> ManagerError {
        self.err
    }

    /// Wraps an error for the client.
    pub fn new(err: ManagerError) -> (e: Self)
        ensures
            e.cause() == err,
    {
        WebError { err }
    }

    /// The error for an image that `base64` could not decode: invalid input.
    pub fn from_decode_error(err: base64::DecodeError) -> (e: Self)
        ensures
            e.cause() == ManagerError::InvalidInput(InputFault::MalformedImage),
    {
        WebError { err: ManagerError::InvalidInput(InputFault::MalformedImage) }
    }

    /// The error that is reported.
    pub fn error(&self) -> (err: &ManagerError)
        ensures
            *err == self.cause(),
    {
        &self.err
    }

    /// The status of the answer: 503 where the pool is busy or full, 400
    /// for invalid input, 500 for everything else.
    pub fn status_code(&self) -> (code: u16)
        ensures
            code == http_status(self.cause()),
    {
        match &self.err {
            ManagerError::AllBusy => 503,
            ManagerError::CapacityExceeded => 503,
            ManagerError::InvalidInput(_) => 400,
            _ => 500,
        }
    }

    /// The text of the error.
    pub fn to_string(&self) -> (s: String)
        ensures
            s@ == self.cause().text(),
    {
        self.err.message()
    }

    /// What the body of the answer lists under `errors`: the text of the error.
    pub fn errors(&self) -> (list: Vec<String>)
        ensures
            list@.len() == 1,
            list@[0]@ == self.cause().text(),
    {
        let mut list: Vec<String> = Vec::new();
        list.push(self.err.message());
        list
    }
}

} // verus!
