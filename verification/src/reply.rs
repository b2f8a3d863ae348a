//! Replies: the status, the body and the log line that answer one request.

use vstd::prelude::*;
use vstd::utf8::encode_utf8;

verus! {

/// The status of a reply. The service answers a request it knows with
/// `Success` and every other request with `NotFound`.
#[derive(Clone, Copy, Debug, PartialEq, Eq, Structural)]
pub enum Status {
    Success,
    NotFound,
}

impl Status {
    /// The HTTP status code that stands for this status.
    pub open spec fn code_spec(self) -> u16 {
        match self {
            Status::Success => 200,
            Status::NotFound => 404,
        }
    }

    /// A status is a success when its code lies in the 2xx range.
    pub open spec fn is_success_spec(self) -> bool {
        200 <= self.code_spec() < 300
    }

    #[verifier::when_used_as_spec(code_spec)]
    pub fn code(self) -> (code: u16)
        ensures
            code == self.code_spec(),
    {
        match self {
            Status::Success => 200,
            Status::NotFound => 404,
        }
    }

    #[verifier::when_used_as_spec(is_success_spec)]
    pub fn is_success(self) -> (success: bool)
        ensures
            success == self.is_success_spec(),
    {
        let code: u16 = self.code();
        200 <= code && code < 300
    }
}

/// What the service does for one request: the line it writes to standard
/// output, if any, and the status and body it sends back.
#[derive(Debug)]
pub struct Reply {
    pub status: Status,
    pub body: String,
    pub log: Option<String>,
}

/// A reply as a mathematical value.
pub struct ReplyView {
    pub status: Status,
    pub body: Seq<char>,
    pub log: Option<Seq<char>>,
}

impl Reply {
    /// The bytes of the body as they go over the wire: its text in UTF-8.
    pub open spec fn body_bytes(&self) -> Seq<u8> {
        encode_utf8(self.body@)
    }
}

impl View for Reply {
    type V = ReplyView;

    open spec fn view(&self) -> ReplyView {
        ReplyView {
            status: self.status,
            body: self.body@,
            log: match self.log {
                Some(line) => Some(line@),
                None => None,
            },
        }
    }
}

} // verus!
