use axum::Router;
use tower::ServiceExt;
use bob_fusion::openapi::{ApiSpec, Operation, PathItem, PathItemType};
use bob_fusion::router::{
    check_api, try_convert_method_filter_from_method, try_convert_path_item_type_from_method,
    ApiGeneric, ApiVersion, ContextRouter, Method, NoApi, RouteError, RouteFilter, RouterApiExt,
};

pub struct TestDoc;

async fn test_route() {}
async fn test_post_route() {}
async fn test_root_route() {}
async fn connect_route() {}

fn operation(method: PathItemType, id: &str) -> Operation {
    Operation {
        method,
        operation_id: Some(id.to_string()),
    }
}

fn path_item(path: &str, operations: Vec<Operation>) -> PathItem {
    PathItem {
        path: path.to_string(),
        operations,
    }
}

/// The description of `test_route` (get, `/test`), `test_post_route` (post,
/// `/test_post`), `test_root_route` (get, context path `/context`, path `/`)
/// and `connect_route` (connect, `/connect`).
fn test_doc() -> ApiSpec {
    ApiSpec {
        paths: vec![
            path_item("/connect", vec![operation(PathItemType::Connect, "connect_route")]),
            path_item("/context/", vec![operation(PathItemType::Get, "test_root_route")]),
            path_item("/test", vec![operation(PathItemType::Get, "test_route")]),
            path_item("/test_post", vec![operation(PathItemType::Post, "test_post_route")]),
        ],
    }
}

struct ApiContext;

impl<'a> ApiVersion<'a> for ApiContext {
    fn to_path() -> &'a str {
        "/context"
    }
}

/// Adds the route `path` for `method`, served by `handler`, checked against
/// `test_doc()`; `name` is the handler's full path.
fn api_route<'a, V, H, T>(
    router: ContextRouter<V, TestDoc, ()>,
    path: &str,
    method: &Method,
    handler: H,
    name: &str,
) -> ContextRouter<V, TestDoc, ()>
where
    V: ApiVersion<'a>,
    H: axum::handler::Handler<T, ()>,
    T: 'static,
{
    router.api_route(
        path,
        method,
        &test_doc(),
        name,
        move |r: Router<()>, p: &str, f: axum::routing::MethodFilter| {
            r.route(p, axum::routing::on(f, handler))
        },
    )
}

#[test]
fn correct_api_with_context_wrapper() {
    let router = api_route(
        Router::<()>::new().with_context::<NoApi, TestDoc>(),
        "/test",
        &Method::GET,
        test_route,
        "router::test_route",
    )
    .unroll();

    assert!(router.is_ok(), "Err: {:?}", router.err().unwrap());
}

#[test]
fn incorrect_path_with_context_wrapper() {
    assert_eq!(
        api_route(
            Router::<()>::new().with_context::<NoApi, TestDoc>(),
            "/tester",
            &Method::GET,
            test_route,
            "router::test_route"
        )
        .unroll()
        .err()
        .unwrap()
        .current_context(),
        &RouteError::NoRoute
    );
}

#[test]
fn incorrect_method_context_wrapper() {
    assert_eq!(
        api_route(
            Router::<()>::new().with_context::<NoApi, TestDoc>(),
            "/test",
            &Method::POST,
            test_route,
            "router::test_route"
        )
        .unroll()
        .err()
        .unwrap()
        .current_context(),
        &RouteError::NoMethod
    );
}

#[test]
fn mismatched_path_context_wrapper() {
    assert_eq!(
        api_route(
            Router::<()>::new().with_context::<NoApi, TestDoc>(),
            "/context/",
            &Method::GET,
            test_route,
            "router::test_route"
        )
        .unroll()
        .err()
        .unwrap()
        .current_context(),
        &RouteError::NoMatch
    );
}

#[test]
fn unexpected_method_connect_context_wrapper() {
    assert_eq!(
        api_route(
            Router::<()>::new().with_context::<NoApi, TestDoc>(),
            "/connect",
            &Method::CONNECT,
            connect_route,
            "router::connect_route"
        )
        .unroll()
        .err()
        .unwrap()
        .current_context(),
        &RouteError::UnexpectedMethod
    );
}

#[test]
fn correct_context_raw_context_wrapper() {
    let router = api_route(
        Router::<()>::new().with_context::<NoApi, TestDoc>(),
        "/context/",
        &Method::GET,
        test_root_route,
        "router::test_root_route",
    )
    .unroll();

    assert!(router.is_ok(), "Err: {:?}", router.err().unwrap());
}

#[test]
fn correct_context_version_context_wrapper() {
    let router = api_route(
        Router::<()>::new().with_context::<ApiContext, TestDoc>(),
        "/",
        &Method::GET,
        test_root_route,
        "router::test_root_route",
    )
    .unroll();

    assert!(router.is_ok(), "Err: {:?}", router.err().unwrap());
}

#[test]
fn no_context_context_wrapper() {
    assert_eq!(
        api_route(
            Router::<()>::new().with_context::<NoApi, TestDoc>(),
            "/",
            &Method::GET,
            test_root_route,
            "router::test_root_route"
        )
        .unroll()
        .err()
        .unwrap()
        .current_context(),
        &RouteError::NoRoute
    );
}

#[test]
fn incorrect_context_context_wrapper() {
    assert_eq!(
        api_route(
            Router::<()>::new().with_context::<ApiContext, TestDoc>(),
            "/contexting/",
            &Method::GET,
            test_root_route,
            "router::test_root_route"
        )
        .unroll()
        .err()
        .unwrap()
        .current_context(),
        &RouteError::NoRoute
    );
}

#[test]
fn multiple_contexts_context_wrapper() {
    let first = api_route(
        Router::<()>::new().with_context::<ApiContext, TestDoc>(),
        "/",
        &Method::GET,
        test_root_route,
        "router::test_root_route",
    )
    .change_context::<NoApi, TestDoc>();
    let router = api_route(first, "/test", &Method::GET, test_route, "router::test_route")
        .unroll()
        .unwrap()
        .route("/connect", axum::routing::post(connect_route))
        .with_context::<NoApi, TestDoc>();
    let router = api_route(router, "/test_post", &Method::POST, test_post_route, "router::test_post_route").unroll();

    assert!(router.is_ok(), "Err: {:?}", router.err().unwrap());
}

// Tests of the parts of a route check.

#[test]
fn every_error_is_kept_in_order() {
    let router = Router::<()>::new().with_context::<NoApi, TestDoc>();
    let router = api_route(router, "/tester", &Method::GET, test_route, "router::test_route");
    let router = api_route(router, "/test", &Method::POST, test_route, "router::test_route");
    let router = api_route(router, "/test", &Method::GET, test_route, "router::test_route");
    let router = api_route(router, "/connect", &Method::CONNECT, connect_route, "router::connect_route");
    let report = router.unroll().err().unwrap();
    assert_eq!(report.current_context(), &RouteError::NoRoute);
    assert_eq!(
        report.contexts(),
        &[RouteError::NoRoute, RouteError::NoMethod, RouteError::UnexpectedMethod]
    );
}

#[test]
fn failed_checks_carry_their_route() {
    let router = Router::<()>::new().with_context::<ApiContext, TestDoc>();
    let router = api_route(router, "/contexting/", &Method::GET, test_root_route, "router::test_root_route");
    let router = api_route(router, "/", &Method::GET, test_route, "router::test_route");
    let router = api_route(router, "/connect", &Method::CONNECT, connect_route, "router::connect_route");
    let report = router.unroll().err().unwrap();
    assert_eq!(
        report.contexts(),
        &[RouteError::NoRoute, RouteError::NoMatch, RouteError::NoRoute, RouteError::UnexpectedMethod]
    );
    assert_eq!(report.attachments_of(0), &vec!["route: /context/contexting/".to_string()]);
    assert_eq!(
        report.attachments_of(1),
        &vec![
            "left: test_root_route, right: test_route".to_string(),
            "route: /context/".to_string()
        ]
    );
    assert_eq!(report.attachments_of(2), &vec!["route: /context/connect".to_string()]);
    assert!(report.attachments_of(3).is_empty());
}

#[test]
fn extension_method_gives_two_errors() {
    let router = Router::<()>::new().with_context::<NoApi, TestDoc>();
    let router = api_route(router, "/test", &Method::Other("PURGE".to_string()), test_route, "router::test_route");
    let report = router.unroll().err().unwrap();
    assert_eq!(
        report.contexts(),
        &[RouteError::UnexpectedMethod, RouteError::UnexpectedMethod]
    );
}

#[test]
fn undocumented_connect_route_gives_two_errors() {
    let router = Router::<()>::new().with_context::<NoApi, TestDoc>();
    let router = api_route(
        router,
        "/connected",
        &Method::CONNECT,
        connect_route,
        "router::connect_route",
    );
    let report = router.unroll().err().unwrap();
    assert_eq!(
        report.contexts(),
        &[RouteError::NoRoute, RouteError::UnexpectedMethod]
    );
}

#[test]
fn route_parameters_are_templated() {
    let doc = ApiSpec {
        paths: vec![path_item(
            "/api/users/{id}/posts",
            vec![operation(PathItemType::Get, "user_posts")],
        )],
    };
    assert_eq!(
        check_api("/api", "/users/:id/posts", PathItemType::Get, &doc, "server::rest::user_posts"),
        Ok(())
    );
    assert_eq!(
        check_api("/api", "/users/id/posts", PathItemType::Get, &doc, "server::rest::user_posts"),
        Err(RouteError::NoRoute)
    );
}

#[test]
fn handler_without_path_is_invalid() {
    assert_eq!(
        check_api("", "/test", PathItemType::Get, &test_doc(), "test_route"),
        Err(RouteError::InvalidHandler)
    );
}

#[test]
fn missing_operation_id_is_reported() {
    let doc = ApiSpec {
        paths: vec![PathItem {
            path: "/test".to_string(),
            operations: vec![Operation {
                method: PathItemType::Get,
                operation_id: None,
            }],
        }],
    };
    assert_eq!(
        check_api("", "/test", PathItemType::Get, &doc, "a::test_route"),
        Err(RouteError::NoOperation)
    );
}

#[test]
fn api_generic_context_path() {
    assert_eq!(ApiGeneric::to_path(), "/api");
    assert_eq!(NoApi::to_path(), "");
}

#[test]
fn method_conversions() {
    assert_eq!(
        try_convert_path_item_type_from_method(&Method::CONNECT),
        Ok(PathItemType::Connect)
    );
    assert_eq!(
        try_convert_method_filter_from_method(&Method::CONNECT),
        Err(RouteError::UnexpectedMethod)
    );
    assert_eq!(
        try_convert_method_filter_from_method(&Method::DELETE),
        Ok(RouteFilter::DELETE)
    );
    assert_eq!(
        try_convert_path_item_type_from_method(&Method::Other("PURGE".to_string())),
        Err(RouteError::UnexpectedMethod)
    );
}

fn status_of(router: Router<()>, method: &str, uri: &str) -> u16 {
    let request = hyper::Request::builder()
        .method(method)
        .uri(uri)
        .body(hyper::Body::empty())
        .unwrap();
    let runtime = tokio::runtime::Builder::new_current_thread()
        .build()
        .unwrap();
    runtime
        .block_on(router.oneshot(request))
        .unwrap()
        .status()
        .as_u16()
}

#[test]
fn registered_route_serves_its_method_only() {
    let router = api_route(
        Router::<()>::new().with_context::<NoApi, TestDoc>(),
        "/test_post",
        &Method::POST,
        test_post_route,
        "router::test_post_route",
    )
    .unroll()
    .unwrap();
    assert_eq!(status_of(router.clone(), "POST", "/test_post"), 200);
    assert_eq!(status_of(router.clone(), "GET", "/test_post"), 405);
    assert_eq!(status_of(router, "POST", "/test"), 404);
}
