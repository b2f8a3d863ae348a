//! The handlers: one for each route, and one for requests that match none.

use vstd::prelude::*;
use crate::reply::{Reply, ReplyView, Status};

verus! {

/// The body sent for `GET /`.
pub const ROOT_BODY: &'static str = r#"{"message":"BetterGovPH API","status":"running"}"#;

/// The body sent for `GET /simple-test`.
pub const SIMPLE_TEST_BODY: &'static str = r#"{"test":"simple","status":"ok"}"#;

/// The line written to standard output each time `GET /simple-test` is served.
pub const SIMPLE_TEST_LOG: &'static str = "Simple test endpoint called";

/// The reply to `GET /`.
pub open spec fn root_reply() -> ReplyView {
    ReplyView { status: Status::Success, body: ROOT_BODY@, log: None }
}

/// The reply to `GET /simple-test`.
pub open spec fn simple_test_reply() -> ReplyView {
    ReplyView { status: Status::Success, body: SIMPLE_TEST_BODY@, log: Some(SIMPLE_TEST_LOG@) }
}

/// The reply to a request that no route matches.
pub open spec fn not_found_reply() -> ReplyView {
    ReplyView { status: Status::NotFound, body: Seq::empty(), log: None }
}

/// Handles `GET /`.
pub fn root() -> (reply: Reply)
    ensures
        reply@ == root_reply(),
{
    Reply { status: Status::Success, body: ROOT_BODY.to_owned(), log: None }
}

/// Handles `GET /simple-test`. The caller writes the reply's log line to
/// standard output before it sends the response.
pub fn simple_test() -> (reply: Reply)
    ensures
        reply@ == simple_test_reply(),
{
    Reply {
        status: Status::Success,
        body: SIMPLE_TEST_BODY.to_owned(),
        log: Some(SIMPLE_TEST_LOG.to_owned()),
    }
}

/// Handles a request that no route matches.
pub fn not_found() -> (reply: Reply)
    ensures
        reply@ == not_found_reply(),
{
    Reply { status: Status::NotFound, body: String::new(), log: None }
}

} // verus!
