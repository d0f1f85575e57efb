//! The failures of the store and of the request pipeline, each with the
//! status code and the message under which it leaves the service.

use crate::imaging::ImageFailure;
use std::sync::PoisonError;
use vstd::prelude::*;
use vstd::std_specs::convert::FromSpecImpl;

verus! {

/// The error that a poisoned lock of `std::sync` hands out in place of its
/// guard.
#[verifier::external_type_specification]
#[verifier::external_body]
#[verifier::reject_recursive_types(T)]
pub struct ExPoisonError<T>(PoisonError<T>);

/// The kinds of failure.
#[derive(Clone, Copy, Debug, PartialEq, Eq, Structural)]
pub enum ErrorKind {
    /// The key is absent.
    NotFound,
    /// The body was declared to be an image and could not be decoded.
    UnsupportedContent,
    /// A transform was asked of a value that is no image.
    UnsupportedOperation,
    /// The administrative credential is missing or wrong.
    Unauthorized,
    /// The body is longer than the configured ceiling.
    PayloadTooLarge,
    /// The store was left unusable by a write that did not complete.
    LockPoisoned,
    /// A picture could not be encoded again.
    EncodingFailed,
}

/// The character that stands for a digit.
pub open spec fn decimal_digit(digit: int) -> char {
    if digit == 0 {
        '0'
    } else if digit == 1 {
        '1'
    } else if digit == 2 {
        '2'
    } else if digit == 3 {
        '3'
    } else if digit == 4 {
        '4'
    } else if digit == 5 {
        '5'
    } else if digit == 6 {
        '6'
    } else if digit == 7 {
        '7'
    } else if digit == 8 {
        '8'
    } else {
        '9'
    }
}

impl ErrorKind {
    /// The status code under which a failure of this kind is reported.
    pub open spec fn status_code(self) -> u16 {
        match self {
            ErrorKind::NotFound => 404,
            ErrorKind::UnsupportedContent => 400,
            ErrorKind::UnsupportedOperation => 404,
            ErrorKind::Unauthorized => 401,
            ErrorKind::PayloadTooLarge => 413,
            ErrorKind::LockPoisoned => 500,
            ErrorKind::EncodingFailed => 400,
        }
    }

    /// The status code written out in decimal: its three digits.
    pub open spec fn status_digits(self) -> Seq<char> {
        let code = self.status_code() as int;
        seq![decimal_digit(code / 100), decimal_digit(code / 10 % 10), decimal_digit(code % 10)]
    }

    /// The message of a failure whose kind alone decides it. The two kinds
    /// that come from the image codec take their message from its error
    /// where it has one, and this one where it has none.
    pub open spec fn fixed_message(self) -> Seq<char> {
        match self {
            ErrorKind::NotFound => "Key not found"@,
            ErrorKind::UnsupportedContent => ":-("@,
            ErrorKind::UnsupportedOperation => "Value is not an image"@,
            ErrorKind::Unauthorized => "Unauthorized"@,
            ErrorKind::PayloadTooLarge => "Payload too large"@,
            ErrorKind::LockPoisoned => "Error writing to DB"@,
            ErrorKind::EncodingFailed => ":-("@,
        }
    }

    pub fn status(self) -> (code: u16)
        ensures
            code == self.status_code(),
    {
        match self {
            ErrorKind::NotFound => 404,
            ErrorKind::UnsupportedContent => 400,
            ErrorKind::UnsupportedOperation => 404,
            ErrorKind::Unauthorized => 401,
            ErrorKind::PayloadTooLarge => 413,
            ErrorKind::LockPoisoned => 500,
            ErrorKind::EncodingFailed => 400,
        }
    }

    /// The status code written out in decimal.
    pub fn status_text(self) -> (text: String)
        ensures
            text@ == self.status_digits(),
    {
        proof {
            reveal_strlit("404");
            reveal_strlit("400");
            reveal_strlit("401");
            reveal_strlit("413");
            reveal_strlit("500");
        }
        match self {
            ErrorKind::NotFound => "404".to_owned(),
            ErrorKind::UnsupportedContent => "400".to_owned(),
            ErrorKind::UnsupportedOperation => "404".to_owned(),
            ErrorKind::Unauthorized => "401".to_owned(),
            ErrorKind::PayloadTooLarge => "413".to_owned(),
            ErrorKind::LockPoisoned => "500".to_owned(),
            ErrorKind::EncodingFailed => "400".to_owned(),
        }
    }

    fn message_text(self) -> (text: String)
        ensures
            text@ == self.fixed_message(),
    {
        match self {
            ErrorKind::NotFound => "Key not found".to_owned(),
            ErrorKind::UnsupportedContent => ":-(".to_owned(),
            ErrorKind::UnsupportedOperation => "Value is not an image".to_owned(),
            ErrorKind::Unauthorized => "Unauthorized".to_owned(),
            ErrorKind::PayloadTooLarge => "Payload too large".to_owned(),
            ErrorKind::LockPoisoned => "Error writing to DB".to_owned(),
            ErrorKind::EncodingFailed => ":-(".to_owned(),
        }
    }
}

/// What contracts see of an error.
pub struct ErrorModel {
    pub kind: ErrorKind,
    pub message: Seq<char>,
}

impl ErrorModel {
    /// The error of a kind that decides its own message.
    pub open spec fn of(kind: ErrorKind) -> ErrorModel {
        ErrorModel { kind, message: kind.fixed_message() }
    }

    /// The error of kind `kind` that reports a failure of the image codec:
    /// the text of its cause where the codec could not read or write, or
    /// does not support what was asked, and the message of the kind for
    /// every other failure.
    pub open spec fn of_failure(kind: ErrorKind, failure: ImageFailure) -> ErrorModel {
        match failure {
            ImageFailure::Io(text) => ErrorModel { kind, message: text@ },
            ImageFailure::Unsupported(text) => ErrorModel { kind, message: text@ },
            _ => ErrorModel { kind, message: ":-("@ },
        }
    }

    /// The line that `KVError::to_text` writes: the status code, a colon, a
    /// space and the message.
    pub open spec fn text(self) -> Seq<char> {
        self.kind.status_digits() + seq![':', ' '] + self.message
    }
}

/// A failure of a request: its kind and a message for the caller.
#[derive(Debug)]
pub struct KVError {
    pub kind: ErrorKind,
    pub message: String,
}

impl View for KVError {
    type V = ErrorModel;

    open spec fn view(&self) -> ErrorModel {
        ErrorModel { kind: self.kind, message: self.message@ }
    }
}

impl KVError {
    pub fn new(kind: ErrorKind, message: String) -> (error: Self)
        ensures
            error@ == (ErrorModel { kind, message: message@ }),
    {
        KVError { kind, message }
    }

    /// The error of a kind that decides its own message.
    pub fn of(kind: ErrorKind) -> (error: Self)
        ensures
            error@ == ErrorModel::of(kind),
    {
        KVError { kind, message: kind.message_text() }
    }

    /// The error of kind `kind` for a failure of the image codec.
    pub fn of_failure(kind: ErrorKind, failure: ImageFailure) -> (error: Self)
        ensures
            error@ == ErrorModel::of_failure(kind, failure),
    {
        match failure {
            ImageFailure::Io(text) => KVError { kind, message: text },
            ImageFailure::Unsupported(text) => KVError { kind, message: text },
            ImageFailure::Decoding => KVError { kind, message: ":-(".to_owned() },
            ImageFailure::Encoding => KVError { kind, message: ":-(".to_owned() },
            ImageFailure::Parameter => KVError { kind, message: ":-(".to_owned() },
            ImageFailure::Limits => KVError { kind, message: ":-(".to_owned() },
        }
    }

    pub fn status(&self) -> (code: u16)
        ensures
            code == self@.kind.status_code(),
    {
        self.kind.status()
    }

    /// The error as one line of text.
    pub fn to_text(&self) -> (text: String)
        ensures
            text@ == self@.text(),
    {
        proof {
            reveal_strlit(": ");
        }
        let mut text = self.kind.status_text();
        text.append(": ");
        text.append(self.message.as_str());
        text
    }
}

/// What contracts see of an operation's outcome: the view of its result,
/// or the view of its error.
pub open spec fn outcome<T: View>(reply: Result<T, KVError>) -> Result<T::V, ErrorModel> {
    match reply {
        Ok(value) => Ok(value@),
        Err(error) => Err(error@),
    }
}

/// A poisoned lock is reported as `LockPoisoned`, whatever guard it held.
impl<T> From<PoisonError<T>> for KVError {
    fn from(poisoned: PoisonError<T>) -> (error: Self)
        ensures
            error@ == ErrorModel::of(ErrorKind::LockPoisoned),
    {
        KVError::of(ErrorKind::LockPoisoned)
    }
}

/// `from` is specified by its own `ensures`, over the view of the error: a
/// `spec` function cannot make the `String` that holds a given text.
impl<T> FromSpecImpl<PoisonError<T>> for KVError {
    open spec fn obeys_from_spec() -> bool {
        false
    }

    open spec fn from_spec(poisoned: PoisonError<T>) -> KVError {
        arbitrary()
    }
}

/// The status code and the message for a failure that is none of
/// `ErrorKind`: the server's own fault, with nothing to tell the caller.
pub fn internal_server_error() -> (reply: (u16, String))
    ensures
        reply.0 == 500,
        reply.1@ == "Internal Server Error"@,
{
    (500, "Internal Server Error".to_owned())
}

} // verus!
