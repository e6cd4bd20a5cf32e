use axum::Router;
use tower::ServiceExt;
use bob_fusion::openapi::{ApiSpec, Operation, PathItem, PathItemType};
use bob_fusion::router::{ApiVersion, RouteError};
use bob_fusion::scheduler::{api_router_v1, ApiV1, AppError, MyGreeter};

async fn hello() -> &'static str {
    "Hello World!"
}

fn hello_doc() -> ApiSpec {
    ApiSpec {
        paths: vec![PathItem {
            path: "/api/v1/hello".to_string(),
            operations: vec![Operation {
                method: PathItemType::Get,
                operation_id: Some("hello".to_string()),
            }],
        }],
    }
}

fn register(r: Router<()>, path: &str, f: axum::routing::MethodFilter) -> Router<()> {
    r.route(path, axum::routing::on(f, hello))
}

#[test]
fn api_v1_context_path() {
    assert_eq!(ApiV1::to_path(), "/api/v1");
}

#[test]
fn api_router_v1_accepts_documented_hello() {
    assert!(api_router_v1(&hello_doc(), "bob_fusion_scheduler::rest::hello", register).is_ok());
}

#[test]
fn api_router_v1_rejects_other_handler() {
    let report = api_router_v1(&hello_doc(), "bob_fusion_scheduler::rest::hi", register)
        .err()
        .unwrap();
    assert_eq!(report.current_context(), &RouteError::NoMatch);
}

#[test]
fn api_router_v1_needs_documentation() {
    let report = api_router_v1(&ApiSpec { paths: vec![] }, "rest::hello", register)
        .err()
        .unwrap();
    assert_eq!(report.contexts(), &[RouteError::NoRoute]);
}

#[test]
fn greeter_reply() {
    assert_eq!(MyGreeter::default().reply_message("Tonic"), "Hello Tonic!");
    assert_eq!(MyGreeter {}.reply_message(""), "Hello !");
}

#[test]
fn app_error_response() {
    assert_eq!(
        AppError::InitializationError.response(),
        (500, "Something went wrong")
    );
    assert_eq!(AppError::StartUpError.response().0, 500);
    assert_eq!(AppError::StartUpError.message(), "Server start up failed");
    assert_eq!(
        AppError::InitializationError.message(),
        "Server initialization failed"
    );
}

#[test]
fn api_router_v1_serves_hello() {
    let router = api_router_v1(&hello_doc(), "bob_fusion_scheduler::rest::hello", register).unwrap();
    let request = hyper::Request::builder()
        .method("GET")
        .uri("/hello")
        .body(hyper::Body::empty())
        .unwrap();
    let runtime = tokio::runtime::Builder::new_current_thread()
        .build()
        .unwrap();
    let response = runtime.block_on(router.oneshot(request)).unwrap();
    assert_eq!(response.status().as_u16(), 200);
    let body = runtime
        .block_on(hyper::body::to_bytes(response.into_body()))
        .unwrap();
    assert_eq!(&body[..], b"Hello World!");
}
