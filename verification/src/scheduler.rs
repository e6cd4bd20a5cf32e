//! The scheduler service: its API version, its routes, its gRPC greeter
//! and its start-up errors.
use vstd::prelude::*;

use crate::openapi::ApiSpec;
use crate::router::{
    axum_method_filter, spec_route_attachments, spec_route_errors, ApiVersion, Method, RouteFilter, RouteReport, RouterApiExt,
};

verus! {

/// API version 1, served under `/api/v1`.
pub struct ApiV1;

impl<'a> ApiVersion<'a> for ApiV1 {
    open spec fn path_spec() -> Seq<char> {
        seq!['/', 'a', 'p', 'i', '/', 'v', '1']
    }

    fn to_path() -> (path: &'a str) {
        proof {
            reveal_strlit("/api/v1");
        }
        "/api/v1"
    }
}

/// Marks the scheduler's API description as the one its routes are checked
/// against; the description itself is handed to [`api_router_v1`] as an
/// [`ApiSpec`].
pub struct ApiDoc;

/// Server start up errors
#[derive(Clone, Copy, Debug, PartialEq, Eq, Structural)]
pub enum AppError {
    /// Server initialization failed
    InitializationError,
    /// Server start up failed
    StartUpError,
}

impl AppError {
    /// The message that describes the error.
    pub fn message(&self) -> (msg: &'static str)
        ensures
            match self {
                AppError::InitializationError => msg@ == "Server initialization failed"@,
                AppError::StartUpError => msg@ == "Server start up failed"@,
            },
    {
        match self {
            AppError::InitializationError => "Server initialization failed",
            AppError::StartUpError => "Server start up failed",
        }
    }

    /// The HTTP response to a request that met this error: status 500
    /// (internal server error) and a body that tells nothing of the cause.
    pub fn response(&self) -> (res: (u16, &'static str))
        ensures
            res.0 == 500,
            res.1@ == "Something went wrong"@,
    {
        (500, "Something went wrong")
    }
}

/// The gRPC greeter.
#[derive(Clone, Copy, Debug, Default, PartialEq, Eq)]
pub struct MyGreeter {}

impl MyGreeter {
    /// The greeting sent back to `name`: `Hello {name}!`.
    pub fn reply_message(&self, name: &str) -> (res: String)
        ensures
            res@ == "Hello "@ + name@ + "!"@,
    {
        let mut message = String::from_str("Hello ");
        message.append(name);
        message.append("!");
        message
    }
}

/// `axum::Router::new`: a router with no routes.
#[verifier::external_body]
fn empty_router() -> axum::Router<()> {
    axum::Router::new()
}

/// API Router V1: the route `GET /hello` under `/api/v1`, checked against
/// the API description `doc` for the handler whose full path is `handler`
/// and registered through `register`.
///
/// # Errors
///
/// This function will return an error if the route, its method or the
/// handler does not have a corresponding `OpenAPI` declaration.
/// The returned report contains all errors met.
pub fn api_router_v1<F>(doc: &ApiSpec, handler: &str, register: F) -> (res: Result<
    axum::Router<()>,
    RouteReport,
>) where F: FnOnce(axum::Router<()>, &str, axum::routing::MethodFilter) -> axum::Router<()>
    requires
        forall|r: axum::Router<()>, p: &str, f: axum::routing::MethodFilter| register.requires((r, p, f)),
    ensures
        match res {
            Ok(router) => {
                &&& spec_route_errors(ApiV1::path_spec(), "/hello"@, Method::GET, doc@, handler@).len()
                    == 0
                &&& exists|r: axum::Router<()>|
                    register.ensures((r, "/hello", axum_method_filter(RouteFilter::GET)), router)
            },
            Err(report) => {
                &&& report@ == spec_route_errors(
                    ApiV1::path_spec(),
                    "/hello"@,
                    Method::GET,
                    doc@,
                    handler@,
                )
                &&& report@.len() > 0
                &&& report.attachments() == spec_route_attachments(
                    ApiV1::path_spec(),
                    "/hello"@,
                    Method::GET,
                    doc@,
                    handler@,
                )
            },
        },
{
    let router = empty_router().with_context::<ApiV1, ApiDoc>();
    let method = Method::GET;
    let router = router.api_route("/hello", &method, doc, handler, register);
    let res = router.unroll();
    proof {
        assert(Seq::<crate::router::RouteError>::empty() + spec_route_errors(
            ApiV1::path_spec(),
            "/hello"@,
            Method::GET,
            doc@,
            handler@,
        ) =~= spec_route_errors(ApiV1::path_spec(), "/hello"@, Method::GET, doc@, handler@));
        assert(Seq::<Seq<Seq<char>>>::empty() + spec_route_attachments(
            ApiV1::path_spec(),
            "/hello"@,
            Method::GET,
            doc@,
            handler@,
        ) =~= spec_route_attachments(ApiV1::path_spec(), "/hello"@, Method::GET, doc@, handler@));
    }
    res
}

} // verus!
