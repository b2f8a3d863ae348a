use actix_web::body::MessageBody;
use actix_web::test::{call_service, init_service, read_body, TestRequest};
use actix_web::{web, App, HttpRequest, HttpResponse};
use bettergov_api::handlers::{not_found, root, simple_test};
use bettergov_api::reply::{Reply, Status};
use bettergov_api::router::dispatch;

fn body_of(response: HttpResponse) -> Vec<u8> {
    match response.into_body().try_into_bytes() {
        Ok(bytes) => bytes.to_vec(),
        Err(_) => panic!("the body is not a block of bytes"),
    }
}

#[test]
fn root_as_framework_response() {
    let response = root().to_http();
    assert_eq!(response.status().as_u16(), 200);
    assert_eq!(
        body_of(response),
        br#"{"message":"BetterGovPH API","status":"running"}"#.to_vec()
    );
}

#[test]
fn simple_test_as_framework_response() {
    let response = simple_test().to_http();
    assert_eq!(response.status().as_u16(), 200);
    assert_eq!(body_of(response), br#"{"test":"simple","status":"ok"}"#.to_vec());
}

#[test]
fn not_found_as_framework_response() {
    let response = not_found().to_http();
    assert_eq!(response.status().as_u16(), 404);
    assert_eq!(body_of(response), Vec::<u8>::new());
}

#[test]
fn framework_response_sets_no_content_type() {
    assert!(root().to_http().headers().get("content-type").is_none());
    assert!(simple_test().to_http().headers().get("content-type").is_none());
}

#[test]
fn framework_response_carries_any_reply() {
    let reply = Reply {
        status: Status::NotFound,
        body: "na\u{ef}ve \u{1f680}".to_string(),
        log: None,
    };
    let response = reply.to_http();
    assert_eq!(response.status().as_u16(), 404);
    assert_eq!(body_of(response), "na\u{ef}ve \u{1f680}".as_bytes().to_vec());
}

#[test]
fn framework_response_is_the_same_each_time() {
    for _ in 0..3 {
        let first = dispatch("GET", "/").to_http();
        let second = dispatch("GET", "/").to_http();
        assert_eq!(first.status(), second.status());
        assert_eq!(body_of(first), body_of(second));
    }
}

async fn serve(request: HttpRequest) -> HttpResponse {
    dispatch(request.method().as_str(), request.match_info().as_str()).to_http()
}

fn served(request: TestRequest) -> (u16, Vec<u8>) {
    actix_web::rt::System::new().block_on(async {
        let app = init_service(App::new().default_service(web::to(serve))).await;
        let response = call_service(&app, request.to_request()).await;
        let status = response.status().as_u16();
        let body = read_body(response).await;
        (status, body.to_vec())
    })
}

#[test]
fn served_get_root() {
    let (status, body) = served(TestRequest::get().uri("/"));
    assert_eq!(status, 200);
    assert_eq!(body, br#"{"message":"BetterGovPH API","status":"running"}"#.to_vec());
}

#[test]
fn served_get_simple_test() {
    let (status, body) = served(TestRequest::get().uri("/simple-test"));
    assert_eq!(status, 200);
    assert_eq!(body, br#"{"test":"simple","status":"ok"}"#.to_vec());
}

#[test]
fn served_get_simple_test_with_a_query() {
    let (status, body) = served(TestRequest::get().uri("/simple-test?verbose=1"));
    assert_eq!(status, 200);
    assert_eq!(body, br#"{"test":"simple","status":"ok"}"#.to_vec());
}

#[test]
fn served_undefined_path() {
    let (status, body) = served(TestRequest::get().uri("/missing"));
    assert_eq!(status, 404);
    assert!(body.is_empty());
}

#[test]
fn served_undefined_method() {
    let (status, body) = served(TestRequest::post().uri("/"));
    assert_eq!(status, 404);
    assert!(body.is_empty());
    let (status, _) = served(TestRequest::delete().uri("/simple-test"));
    assert_eq!(status, 404);
}
