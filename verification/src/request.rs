//! What a request asks for, as the transport hands it over.

use vstd::prelude::*;

verus! {

/// The operations that a request can ask for.
#[derive(Clone, Copy, Debug, PartialEq, Eq, Structural)]
pub enum Operation {
    Write,
    Read,
    Transform,
    DeleteOne,
    DeleteAll,
}

impl Operation {
    /// The operations that only the holder of the administrative credential
    /// may ask for.
    pub open spec fn administrative(self) -> bool {
        self == Operation::DeleteOne || self == Operation::DeleteAll
    }

    pub fn is_administrative(self) -> (admin: bool)
        ensures
            admin == self.administrative(),
    {
        match self {
            Operation::DeleteOne => true,
            Operation::DeleteAll => true,
            _ => false,
        }
    }
}

/// A request as the transport hands it over. `method` and `target` are the
/// transport's names for what is asked and of what; they go to the log and
/// decide nothing. `key` is not read for `DeleteAll`, `content_type` and
/// `body` only for `Write`, but for the body's length.
#[derive(Debug)]
pub struct Request {
    pub method: String,
    pub target: String,
    pub operation: Operation,
    pub key: String,
    pub content_type: String,
    pub authorization: Option<String>,
    pub body: Vec<u8>,
}

/// What contracts see of a `Request`.
pub struct RequestModel {
    pub method: Seq<char>,
    pub target: Seq<char>,
    pub operation: Operation,
    pub key: Seq<char>,
    pub content_type: Seq<char>,
    pub authorization: Option<Seq<char>>,
    pub body: Seq<u8>,
}

impl View for Request {
    type V = RequestModel;

    open spec fn view(&self) -> RequestModel {
        RequestModel {
            method: self.method@,
            target: self.target@,
            operation: self.operation,
            key: self.key@,
            content_type: self.content_type@,
            authorization: match self.authorization {
                Some(value) => Some(value@),
                None => None,
            },
            body: self.body@,
        }
    }
}

} // verus!
