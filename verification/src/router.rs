//! The route table: which handler answers which request.

use vstd::prelude::*;
use crate::handlers::{not_found, not_found_reply, root, root_reply, simple_test, simple_test_reply};
use crate::reply::{Reply, ReplyView};
use crate::text::str_eq;

verus! {

/// The one request method that the service routes.
pub const GET: &'static str = "GET";

/// The path of the root endpoint.
pub const ROOT_PATH: &'static str = "/";

/// The path of the test endpoint.
pub const SIMPLE_TEST_PATH: &'static str = "/simple-test";

/// Whether a route is defined for this method and path. Both are matched
/// exactly, letter for letter.
pub open spec fn is_route(method: Seq<char>, path: Seq<char>) -> bool {
    method == GET@ && (path == ROOT_PATH@ || path == SIMPLE_TEST_PATH@)
}

/// The reply that the service owes to a request.
pub open spec fn reply_for(method: Seq<char>, path: Seq<char>) -> ReplyView {
    if method == GET@ && path == ROOT_PATH@ {
        root_reply()
    } else if method == GET@ && path == SIMPLE_TEST_PATH@ {
        simple_test_reply()
    } else {
        not_found_reply()
    }
}

/// Answers one request: routes it by method and path to its handler, or to
/// the not-found handler where no route is defined for it.
pub fn dispatch(method: &str, path: &str) -> (reply: Reply)
    ensures
        reply@ == reply_for(method@, path@),
{
    if str_eq(method, GET) {
        if str_eq(path, ROOT_PATH) {
            return root();
        }
        if str_eq(path, SIMPLE_TEST_PATH) {
            return simple_test();
        }
    }
    not_found()
}

/// Each route reaches its own handler: neither shadows the other.
pub proof fn lemma_routes_reach_their_handlers()
    ensures
        is_route(GET@, ROOT_PATH@),
        is_route(GET@, SIMPLE_TEST_PATH@),
        reply_for(GET@, ROOT_PATH@) == root_reply(),
        reply_for(GET@, SIMPLE_TEST_PATH@) == simple_test_reply(),
{
    reveal_strlit("/");
    reveal_strlit("/simple-test");
    assert(ROOT_PATH@.len() != SIMPLE_TEST_PATH@.len());
}

/// A request gets a success status exactly when a route is defined for it;
/// any other request gets status 404, an empty body and no log line.
pub proof fn lemma_success_iff_routed(method: Seq<char>, path: Seq<char>)
    ensures
        is_route(method, path) <==> reply_for(method, path).status.is_success_spec(),
        is_route(method, path) ==> reply_for(method, path).status.code_spec() == 200,
        !is_route(method, path) ==> reply_for(method, path) == not_found_reply(),
        !is_route(method, path) ==> reply_for(method, path).status.code_spec() == 404,
{
}

/// Serving a request changes nothing: two replies to the same request, in
/// whatever order and however often it is served, have the same status,
/// the same body bytes and the same log line.
pub proof fn lemma_repeated_request_same_reply(
    method: Seq<char>,
    path: Seq<char>,
    first: Reply,
    second: Reply,
)
    requires
        first@ == reply_for(method, path),
        second@ == reply_for(method, path),
    ensures
        first@ == second@,
        first.status.code_spec() == second.status.code_spec(),
        first.body_bytes() == second.body_bytes(),
{
}

} // verus!
