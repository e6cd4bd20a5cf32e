//! Routes registered against an OpenAPI description.
//!
//! A [`ContextRouter`] wraps an `axum::Router` together with an API version
//! (a path prefix) and collects every error met while routes are added, so
//! that all mismatches between handlers and the API description are reported
//! at once by [`ContextRouter::unroll`].
use vstd::prelude::*;

use crate::openapi::{
    lookup_operation, lookup_path, path_item_method_token, ApiSpec, PathItemType, PathItemView,
};
use crate::text::{after_last_colon, handler_short_name, route_for, route_for_exec};

verus! {

/// `axum::Router`, held as an opaque value: nothing of its routes is seen here.
#[verifier::external_type_specification]
#[verifier::external_body]
#[verifier::reject_recursive_types(S)]
#[verifier::reject_recursive_types(B)]
pub struct ExRouter<S, B>(axum::Router<S, B>);

/// `hyper::Body`, the default request body type of `axum::Router`; opaque.
#[verifier::external_type_specification]
#[verifier::external_body]
pub struct ExBody(hyper::Body);

/// `axum::routing::MethodFilter`, the set of methods a handler is registered
/// for; opaque.
#[verifier::external_type_specification]
#[verifier::external_body]
pub struct ExAxumMethodFilter(axum::routing::MethodFilter);

/// Why a route could not be registered.
#[derive(Clone, Copy, Debug, PartialEq, Eq, PartialOrd, Ord, Hash, Structural)]
pub enum RouteError {
    /// No route found in OpenAPI scheme
    NoRoute,
    /// No method found for specified route in OpenAPI scheme
    NoMethod,
    /// No `operation_id` found
    NoOperation,
    /// OpenAPI's `operation_id` doesn't match handler's name
    NoMatch,
    /// Unexpected HTTP method - was it `Method::CONNECT`?
    UnexpectedMethod,
    /// Error occured during handler processing
    InvalidHandler,
}

impl RouteError {
    /// The message that describes the error.
    pub fn message(&self) -> (msg: &'static str)
        ensures
            match self {
                RouteError::NoRoute => msg@ == "No route found in OpenAPI scheme"@,
                RouteError::NoMethod => msg@ == "No method found for specified route in OpenAPI scheme"@,
                RouteError::NoOperation => msg@ == "No `operation_id` found"@,
                RouteError::NoMatch => msg@ == "OpenAPI's `operation_id` doesn't match handler's name"@,
                RouteError::UnexpectedMethod => msg@ == "Unexpected Hyper method - was it `Method::CONNECT`?"@,
                RouteError::InvalidHandler => msg@ == "Error occured during handler processing"@,
            },
    {
        match self {
            RouteError::NoRoute => "No route found in OpenAPI scheme",
            RouteError::NoMethod => "No method found for specified route in OpenAPI scheme",
            RouteError::NoOperation => "No `operation_id` found",
            RouteError::NoMatch => "OpenAPI's `operation_id` doesn't match handler's name",
            RouteError::UnexpectedMethod => "Unexpected Hyper method - was it `Method::CONNECT`?",
            RouteError::InvalidHandler => "Error occured during handler processing",
        }
    }
}

/// An HTTP request method.
#[derive(Clone, Debug, PartialEq, Eq)]
pub enum Method {
    GET,
    PUT,
    POST,
    HEAD,
    PATCH,
    TRACE,
    DELETE,
    OPTIONS,
    CONNECT,
    /// Any other (extension) method, by its name.
    Other(String),
}

/// The method filters a route can be registered for.
#[derive(Clone, Copy, Debug, PartialEq, Eq, Structural)]
pub enum RouteFilter {
    GET,
    PUT,
    POST,
    HEAD,
    PATCH,
    TRACE,
    DELETE,
    OPTIONS,
}

/// The `axum` method filter of the same name as `filter`.
pub uninterp spec fn axum_method_filter(filter: RouteFilter) -> axum::routing::MethodFilter;

/// The `axum::routing::MethodFilter` constant of the same name as `filter`;
/// each constant is a fixed set of methods, so the result depends on
/// `filter` alone.
#[verifier::external_body]
fn axum_filter(filter: RouteFilter) -> (res: axum::routing::MethodFilter)
    ensures
        res == axum_method_filter(filter),
{
    match filter {
        RouteFilter::GET => axum::routing::MethodFilter::GET,
        RouteFilter::PUT => axum::routing::MethodFilter::PUT,
        RouteFilter::POST => axum::routing::MethodFilter::POST,
        RouteFilter::HEAD => axum::routing::MethodFilter::HEAD,
        RouteFilter::PATCH => axum::routing::MethodFilter::PATCH,
        RouteFilter::TRACE => axum::routing::MethodFilter::TRACE,
        RouteFilter::DELETE => axum::routing::MethodFilter::DELETE,
        RouteFilter::OPTIONS => axum::routing::MethodFilter::OPTIONS,
    }
}

/// The path-item type that documents `method`, if there is one.
pub open spec fn spec_path_item_type(method: Method) -> Result<PathItemType, RouteError> {
    match method {
        Method::GET => Ok(PathItemType::Get),
        Method::PUT => Ok(PathItemType::Put),
        Method::POST => Ok(PathItemType::Post),
        Method::HEAD => Ok(PathItemType::Head),
        Method::PATCH => Ok(PathItemType::Patch),
        Method::TRACE => Ok(PathItemType::Trace),
        Method::DELETE => Ok(PathItemType::Delete),
        Method::OPTIONS => Ok(PathItemType::Options),
        Method::CONNECT => Ok(PathItemType::Connect),
        Method::Other(_) => Err(RouteError::UnexpectedMethod),
    }
}

/// The method filter a handler for `method` is registered with, if there is one.
pub open spec fn spec_method_filter(method: Method) -> Result<RouteFilter, RouteError> {
    match method {
        Method::GET => Ok(RouteFilter::GET),
        Method::PUT => Ok(RouteFilter::PUT),
        Method::POST => Ok(RouteFilter::POST),
        Method::HEAD => Ok(RouteFilter::HEAD),
        Method::PATCH => Ok(RouteFilter::PATCH),
        Method::TRACE => Ok(RouteFilter::TRACE),
        Method::DELETE => Ok(RouteFilter::DELETE),
        Method::OPTIONS => Ok(RouteFilter::OPTIONS),
        Method::CONNECT => Err(RouteError::UnexpectedMethod),
        Method::Other(_) => Err(RouteError::UnexpectedMethod),
    }
}

/// The OpenAPI path-item type under which `value` is documented.
///
/// # Errors
///
/// `UnexpectedMethod` for an extension method.
pub fn try_convert_path_item_type_from_method(value: &Method) -> (res: Result<PathItemType, RouteError>)
    ensures
        res == spec_path_item_type(*value),
{
    match value {
        Method::GET => Ok(PathItemType::Get),
        Method::PUT => Ok(PathItemType::Put),
        Method::POST => Ok(PathItemType::Post),
        Method::HEAD => Ok(PathItemType::Head),
        Method::PATCH => Ok(PathItemType::Patch),
        Method::TRACE => Ok(PathItemType::Trace),
        Method::DELETE => Ok(PathItemType::Delete),
        Method::OPTIONS => Ok(PathItemType::Options),
        Method::CONNECT => Ok(PathItemType::Connect),
        Method::Other(_) => Err(RouteError::UnexpectedMethod),
    }
}

/// The method filter a handler for `value` is registered with.
///
/// # Errors
///
/// `UnexpectedMethod` for `CONNECT` and for an extension method, which no
/// filter covers.
pub fn try_convert_method_filter_from_method(value: &Method) -> (res: Result<RouteFilter, RouteError>)
    ensures
        res == spec_method_filter(*value),
{
    match value {
        Method::GET => Ok(RouteFilter::GET),
        Method::PUT => Ok(RouteFilter::PUT),
        Method::POST => Ok(RouteFilter::POST),
        Method::HEAD => Ok(RouteFilter::HEAD),
        Method::PATCH => Ok(RouteFilter::PATCH),
        Method::TRACE => Ok(RouteFilter::TRACE),
        Method::DELETE => Ok(RouteFilter::DELETE),
        Method::OPTIONS => Ok(RouteFilter::OPTIONS),
        Method::CONNECT => Err(RouteError::UnexpectedMethod),
        Method::Other(_) => Err(RouteError::UnexpectedMethod),
    }
}


/// The token of `method` as it stands in a request line: `GET`, `PUT`,
/// ..., or the name of an extension method.
pub open spec fn method_token(method: Method) -> Seq<char> {
    match method {
        Method::GET => seq!['G', 'E', 'T'],
        Method::PUT => seq!['P', 'U', 'T'],
        Method::POST => seq!['P', 'O', 'S', 'T'],
        Method::HEAD => seq!['H', 'E', 'A', 'D'],
        Method::PATCH => seq!['P', 'A', 'T', 'C', 'H'],
        Method::TRACE => seq!['T', 'R', 'A', 'C', 'E'],
        Method::DELETE => seq!['D', 'E', 'L', 'E', 'T', 'E'],
        Method::OPTIONS => seq!['O', 'P', 'T', 'I', 'O', 'N', 'S'],
        Method::CONNECT => seq!['C', 'O', 'N', 'N', 'E', 'C', 'T'],
        Method::Other(name) => name@,
    }
}

/// Whether a request with `method` passes `filter`: each filter lets
/// through the one method of its name.
pub open spec fn filter_admits(filter: RouteFilter, method: Method) -> bool {
    match (filter, method) {
        (RouteFilter::GET, Method::GET) => true,
        (RouteFilter::PUT, Method::PUT) => true,
        (RouteFilter::POST, Method::POST) => true,
        (RouteFilter::HEAD, Method::HEAD) => true,
        (RouteFilter::PATCH, Method::PATCH) => true,
        (RouteFilter::TRACE, Method::TRACE) => true,
        (RouteFilter::DELETE, Method::DELETE) => true,
        (RouteFilter::OPTIONS, Method::OPTIONS) => true,
        _ => false,
    }
}

/// A handler is registered for exactly the method of its route: a method
/// other than `CONNECT` or an extension method gets a filter, and that
/// filter lets through that method and no other one. `CONNECT` and the
/// extension methods get none.
pub proof fn law_filter_admits_exactly_its_method(method: Method, other: Method)
    ensures
        spec_method_filter(method) is Ok <==> !(method is CONNECT || method is Other),
        spec_method_filter(method) is Ok ==> (filter_admits(spec_method_filter(method)->Ok_0, other)
            <==> other == method),
{
}

/// Each filter is the filter of one method: different methods are never
/// registered under the same filter, and every filter is used.
pub proof fn law_filters_match_methods_one_to_one(m1: Method, m2: Method, filter: RouteFilter)
    ensures
        spec_method_filter(m1) is Ok && spec_method_filter(m1) == spec_method_filter(m2) ==> m1 == m2,
        exists|m: Method| spec_method_filter(m) == Ok::<RouteFilter, RouteError>(filter),
{
    let m = match filter {
        RouteFilter::GET => Method::GET,
        RouteFilter::PUT => Method::PUT,
        RouteFilter::POST => Method::POST,
        RouteFilter::HEAD => Method::HEAD,
        RouteFilter::PATCH => Method::PATCH,
        RouteFilter::TRACE => Method::TRACE,
        RouteFilter::DELETE => Method::DELETE,
        RouteFilter::OPTIONS => Method::OPTIONS,
    };
    assert(spec_method_filter(m) == Ok::<RouteFilter, RouteError>(filter));
}

/// A route is checked against the documentation of its own method: every
/// method but an extension one is looked up under the path-item type that
/// documents the method of the same token, and different methods under
/// different path-item types.
pub proof fn law_route_checked_under_its_own_method(m1: Method, m2: Method)
    ensures
        spec_path_item_type(m1) is Ok <==> !(m1 is Other),
        spec_path_item_type(m1) is Ok ==> path_item_method_token(spec_path_item_type(m1)->Ok_0)
            == method_token(m1),
        spec_path_item_type(m1) is Ok && spec_path_item_type(m1) == spec_path_item_type(m2) ==> m1
            == m2,
{
}

/// A handler is served under the same method that its route is checked
/// for: the filter it is registered with lets through the method that the
/// path-item type of the check documents.
pub proof fn law_filter_and_check_agree(method: Method)
    ensures
        spec_method_filter(method) is Ok ==> spec_path_item_type(method) is Ok && filter_admits(
            spec_method_filter(method)->Ok_0,
            method,
        ) && path_item_method_token(spec_path_item_type(method)->Ok_0) == method_token(method),
{
}

/// The context path of an API version, put in front of every route.
///
/// An implementation gives `path_spec` as the text that `to_path` returns;
/// the contracts of [`ContextRouter`] speak of the context path through
/// `path_spec`. An implementation that is not verified, and leaves
/// `path_spec` at its empty default while `to_path` returns other text,
/// breaks that promise, and those contracts do not hold for it.
pub trait ApiVersion<'a> {
    /// The context path, as text.
    open spec fn path_spec() -> Seq<char> {
        Seq::<char>::empty()
    }

    /// Provides API context path
    fn to_path() -> (path: &'a str)
        ensures
            path@ == Self::path_spec(),
    ;
}

/// Empty API Context
pub struct NoApi;

impl<'a> ApiVersion<'a> for NoApi {
    open spec fn path_spec() -> Seq<char> {
        Seq::<char>::empty()
    }

    fn to_path() -> (path: &'a str) {
        proof {
            reveal_strlit("");
        }
        ""
    }
}

/// API Context
pub struct ApiGeneric;

impl<'a> ApiVersion<'a> for ApiGeneric {
    open spec fn path_spec() -> Seq<char> {
        seq!['/', 'a', 'p', 'i']
    }

    fn to_path() -> (path: &'a str) {
        proof {
            reveal_strlit("/api");
        }
        "/api"
    }
}

/// What checking a route against the API description finds: whether
/// `route` is documented for `method` with the operation id that the
/// handler named `handler` carries.
pub open spec fn spec_check_route(
    route: Seq<char>,
    method: PathItemType,
    doc: Seq<PathItemView>,
    handler: Seq<char>,
) -> Result<(), RouteError> {
    match lookup_path(doc, route) {
        None => Err(RouteError::NoRoute),
        Some(ops) => match lookup_operation(ops, method) {
            None => Err(RouteError::NoMethod),
            Some(None) => Err(RouteError::NoOperation),
            Some(Some(id)) => match after_last_colon(handler) {
                None => Err(RouteError::InvalidHandler),
                Some(name) => if id == name {
                    Ok(())
                } else {
                    Err(RouteError::NoMatch)
                },
            },
        },
    }
}

/// Check if the following route corresponds with `OpenAPI` declaration:
/// the route `path` under the context path `prefix` must be documented in
/// `doc` for `method`, with an operation id equal to the handler's short name
/// (what follows the last `:` in the handler's full path `handler`).
pub fn check_api(prefix: &str, path: &str, method: PathItemType, doc: &ApiSpec, handler: &str) -> (res:
    Result<(), RouteError>)
    ensures
        res == spec_check_route(route_for(prefix@, path@), method, doc@, handler@),
{
    let route = route_for_exec(prefix, path);
    let item = match doc.get_path_item(&route) {
        Some(item) => item,
        None => {
            return Err(RouteError::NoRoute);
        },
    };
    let operation = match item.get_operation(method) {
        Some(op) => op,
        None => {
            return Err(RouteError::NoMethod);
        },
    };
    let operation_id = match &operation.operation_id {
        Some(id) => id,
        None => {
            return Err(RouteError::NoOperation);
        },
    };
    let handler_name = match handler_short_name(handler) {
        Some(name) => name,
        None => {
            return Err(RouteError::InvalidHandler);
        },
    };
    if *operation_id == handler_name {
        Ok(())
    } else {
        Err(RouteError::NoMatch)
    }
}

/// The errors as a sequence: none for `Ok`, the one error for `Err`.
pub open spec fn errors_of<T>(res: Result<T, RouteError>) -> Seq<RouteError> {
    match res {
        Ok(_) => Seq::<RouteError>::empty(),
        Err(e) => seq![e],
    }
}

/// The errors that checking `path` for `method` against `doc` records.
pub open spec fn spec_check_errors(
    prefix: Seq<char>,
    path: Seq<char>,
    method: Method,
    doc: Seq<PathItemView>,
    handler: Seq<char>,
) -> Seq<RouteError> {
    match spec_path_item_type(method) {
        Ok(t) => errors_of(spec_check_route(route_for(prefix, path), t, doc, handler)),
        Err(e) => seq![e],
    }
}

/// The errors that adding a route for `method` records, in the order they
/// are met: first those of the check against the API description, then that
/// of the registration.
pub open spec fn spec_route_errors(
    prefix: Seq<char>,
    path: Seq<char>,
    method: Method,
    doc: Seq<PathItemView>,
    handler: Seq<char>,
) -> Seq<RouteError> {
    spec_check_errors(prefix, path, method, doc, handler) + errors_of(spec_method_filter(method))
}

/// The attachment that names the route a check failed on.
pub open spec fn route_attachment(route: Seq<char>) -> Seq<char> {
    "route: "@ + route
}

/// The attachment that names the documented operation id (`left`) and the
/// handler's short name (`right`) that did not match.
pub open spec fn mismatch_attachment(left: Seq<char>, right: Seq<char>) -> Seq<char> {
    "left: "@ + left + ", right: "@ + right
}

/// What a failed check of `route` attaches to its error: the two names
/// where they did not match, then the route.
pub open spec fn spec_check_attachments(
    route: Seq<char>,
    method: PathItemType,
    doc: Seq<PathItemView>,
    handler: Seq<char>,
) -> Seq<Seq<char>> {
    if spec_check_route(route, method, doc, handler) == Err::<(), RouteError>(RouteError::NoMatch) {
        seq![
            mismatch_attachment(
                lookup_operation(lookup_path(doc, route)->0, method)->0->0,
                after_last_colon(handler)->0,
            ),
            route_attachment(route),
        ]
    } else {
        seq![route_attachment(route)]
    }
}

/// The attachments of the errors that checking `path` for `method` against
/// `doc` records: none for an error of the method conversion.
pub open spec fn spec_check_attachment_frames(
    prefix: Seq<char>,
    path: Seq<char>,
    method: Method,
    doc: Seq<PathItemView>,
    handler: Seq<char>,
) -> Seq<Seq<Seq<char>>> {
    match spec_path_item_type(method) {
        Ok(t) => if spec_check_route(route_for(prefix, path), t, doc, handler) is Ok {
            Seq::<Seq<Seq<char>>>::empty()
        } else {
            seq![spec_check_attachments(route_for(prefix, path), t, doc, handler)]
        },
        Err(_) => seq![Seq::<Seq<char>>::empty()],
    }
}

/// The attachments of the errors that adding a route records, in the order
/// of the errors; the registration error carries none.
pub open spec fn spec_route_attachments(
    prefix: Seq<char>,
    path: Seq<char>,
    method: Method,
    doc: Seq<PathItemView>,
    handler: Seq<char>,
) -> Seq<Seq<Seq<char>>> {
    spec_check_attachment_frames(prefix, path, method, doc, handler) + match spec_method_filter(
        method,
    ) {
        Ok(_) => Seq::<Seq<Seq<char>>>::empty(),
        Err(_) => seq![Seq::<Seq<char>>::empty()],
    }
}

/// The attachments of a check that failed with `err`: see
/// [`spec_check_attachments`].
pub fn check_attachments(
    prefix: &str,
    path: &str,
    method: PathItemType,
    doc: &ApiSpec,
    handler: &str,
    err: RouteError,
) -> (res: Vec<String>)
    requires
        spec_check_route(route_for(prefix@, path@), method, doc@, handler@) == Err::<(), RouteError>(
            err,
        ),
    ensures
        strings_view(res) == spec_check_attachments(route_for(prefix@, path@), method, doc@, handler@),
{
    let route = route_for_exec(prefix, path);
    let mut route_att = String::from_str("route: ");
    route_att.append(route.as_str());
    let mut res: Vec<String> = Vec::new();
    if err == RouteError::NoMatch {
        let item = match doc.get_path_item(&route) {
            Some(item) => item,
            None => {
                proof {
                    assert(false);
                }
                return res;
            },
        };
        let operation = match item.get_operation(method) {
            Some(op) => op,
            None => {
                proof {
                    assert(false);
                }
                return res;
            },
        };
        let id = match &operation.operation_id {
            Some(id) => id,
            None => {
                proof {
                    assert(false);
                }
                return res;
            },
        };
        let name = match handler_short_name(handler) {
            Some(name) => name,
            None => {
                proof {
                    assert(false);
                }
                return res;
            },
        };
        let mut mismatch = String::from_str("left: ");
        mismatch.append(id.as_str());
        mismatch.append(", right: ");
        mismatch.append(name.as_str());
        res.push(mismatch);
    }
    res.push(route_att);
    proof {
        let expected = spec_check_attachments(route_for(prefix@, path@), method, doc@, handler@);
        assert(strings_view(res) =~= expected);
    }
    res
}

/// The text of each of `v`.
pub open spec fn strings_view(v: Vec<String>) -> Seq<Seq<char>> {
    v@.map_values(|s: String| s@)
}

/// An error together with what was attached to it: the route it was met
/// on and, where an operation id did not match the handler, the two names.
#[derive(Debug)]
pub struct RouteFrame {
    pub error: RouteError,
    pub attachments: Vec<String>,
}

/// The errors met while routes were added, in order, each with its
/// attachments. Never empty.
#[derive(Debug)]
pub struct RouteReport {
    first: RouteFrame,
    rest: Vec<RouteFrame>,
}

impl View for RouteReport {
    type V = Seq<RouteError>;

    closed spec fn view(&self) -> Seq<RouteError> {
        seq![self.first.error] + self.rest@.map_values(|f: RouteFrame| f.error)
    }
}

impl RouteReport {
    /// The attachments of each error, in the order of the errors.
    pub closed spec fn attachments(&self) -> Seq<Seq<Seq<char>>> {
        seq![strings_view(self.first.attachments)] + self.rest@.map_values(
            |f: RouteFrame| strings_view(f.attachments),
        )
    }

    /// A report of the one error `err`, with `attachments`.
    pub fn new(err: RouteError, attachments: Vec<String>) -> (res: Self)
        ensures
            res@ == seq![err],
            res.attachments() == seq![strings_view(attachments)],
    {
        let res = RouteReport { first: RouteFrame { error: err, attachments }, rest: Vec::new() };
        assert(res@ =~= seq![err]);
        assert(res.attachments() =~= seq![strings_view(attachments)]);
        res
    }

    /// Adds `err`, with `attachments`, after the errors already reported.
    pub fn extend_one(&mut self, err: RouteError, attachments: Vec<String>)
        ensures
            final(self)@ == old(self)@.push(err),
            final(self).attachments() == old(self).attachments().push(strings_view(attachments)),
    {
        let ghost atts = strings_view(attachments);
        self.rest.push(RouteFrame { error: err, attachments });
        assert(self@ =~= old(self)@.push(err));
        assert(self.attachments() =~= old(self).attachments().push(atts));
    }

    /// The first error reported.
    pub fn current_context(&self) -> (res: &RouteError)
        ensures
            self@.len() > 0,
            *res == self@[0],
    {
        &self.first.error
    }

    /// All errors reported, the first first.
    pub fn contexts(&self) -> (res: Vec<RouteError>)
        ensures
            res@ == self@,
            self@.len() > 0,
    {
        let mut res: Vec<RouteError> = Vec::new();
        res.push(self.first.error);
        let mut i: usize = 0;
        while i < self.rest.len()
            invariant
                i <= self.rest@.len(),
                res@ == seq![self.first.error] + self.rest@.take(i as int).map_values(
                    |f: RouteFrame| f.error,
                ),
            decreases self.rest.len() - i,
        {
            res.push(self.rest[i].error);
            proof {
                assert(self.rest@.take(i + 1) =~= self.rest@.take(i as int).push(self.rest@[i as int]));
                assert(res@ =~= seq![self.first.error] + self.rest@.take(i + 1).map_values(
                    |f: RouteFrame| f.error,
                ));
            }
            i = i + 1;
        }
        proof {
            assert(self.rest@.take(i as int) =~= self.rest@);
        }
        res
    }

    /// The attachments of the `i`-th error reported, the first being the 0-th.
    pub fn attachments_of(&self, i: usize) -> (res: &Vec<String>)
        requires
            i < self@.len(),
        ensures
            strings_view(*res) == self.attachments()[i as int],
    {
        if i == 0 {
            &self.first.attachments
        } else {
            &self.rest[i - 1].attachments
        }
    }
}

/// An `axum::Router` that adds routes under the context path of `Version`
/// and checks each one against an API description, keeping every error met.
#[verifier::reject_recursive_types(S)]
pub struct ContextRouter<Version, Doc, S = ()> {
    inner: axum::Router<S>,
    context: std::marker::PhantomData<(Version, Doc)>,
    api_errors: Option<RouteReport>,
}

impl<Version, Doc, S> ContextRouter<Version, Doc, S> {
    /// The router that holds the routes added so far.
    pub closed spec fn router(&self) -> axum::Router<S> {
        self.inner
    }

    /// The errors met so far, in order.
    pub closed spec fn errors(&self) -> Seq<RouteError> {
        match self.api_errors {
            Some(r) => r@,
            None => Seq::<RouteError>::empty(),
        }
    }

    /// The attachments of each error met so far, in the order of the errors.
    pub closed spec fn attachments(&self) -> Seq<Seq<Seq<char>>> {
        match self.api_errors {
            Some(r) => r.attachments(),
            None => Seq::<Seq<Seq<char>>>::empty(),
        }
    }

    fn record_error(self, err: RouteError, attachments: Vec<String>) -> (res: Self)
        ensures
            res.router() == self.router(),
            res.errors() == self.errors().push(err),
            res.attachments() == self.attachments().push(strings_view(attachments)),
    {
        let ghost atts = strings_view(attachments);
        let ContextRouter { inner, context, api_errors } = self;
        let api_errors = match api_errors {
            Some(mut report) => {
                report.extend_one(err, attachments);
                Some(report)
            },
            None => {
                let report = RouteReport::new(err, attachments);
                assert(report@ =~= Seq::<RouteError>::empty().push(err));
                assert(report.attachments() =~= Seq::<Seq<Seq<char>>>::empty().push(atts));
                Some(report)
            },
        };
        ContextRouter { inner, context, api_errors }
    }
}

impl<'a, Version, Doc, S> ContextRouter<Version, Doc, S> where
    Version: ApiVersion<'a>,
    S: Clone + Send + Sync + 'static,
 {
    /// Wraps `router`, with no error recorded yet.
    pub fn new(router: axum::Router<S>) -> (res: Self)
        ensures
            res.router() == router,
            res.errors() == Seq::<RouteError>::empty(),
            res.attachments() == Seq::<Seq<Seq<char>>>::empty(),
    {
        ContextRouter { inner: router, context: std::marker::PhantomData, api_errors: None }
    }

    /// Returns `Router` instance with new registred routes
    ///
    /// # Errors
    ///
    /// This function will return an error if one of the previously provided
    /// path/handler/method combinations with `api_route` does not have a corresponding `OpenAPI` declaration.
    /// The returned error report will contain all errors during new API route registrartion.
    pub fn unroll(self) -> (res: Result<axum::Router<S>, RouteReport>)
        ensures
            match res {
                Ok(router) => self.errors().len() == 0 && router == self.router(),
                Err(report) => {
                    &&& self.errors().len() > 0
                    &&& report@ == self.errors()
                    &&& report.attachments() == self.attachments()
                },
            },
    {
        match self.api_errors {
            Some(report) => Err(report),
            None => Ok(self.inner),
        }
    }

    /// The same routes and errors, under another API context.
    pub fn change_context<V, D>(self) -> (res: ContextRouter<V, D, S>)
        ensures
            res.router() == self.router(),
            res.errors() == self.errors(),
            res.attachments() == self.attachments(),
    {
        ContextRouter { inner: self.inner, context: std::marker::PhantomData, api_errors: self.api_errors }
    }

    /// Checks the route `path` for `method` against the API description
    /// `doc`, for the handler whose full path is `handler`, and keeps the
    /// error, with its attachments, if the check fails.
    pub fn check_api(self, path: &str, method: &Method, doc: &ApiSpec, handler: &str) -> (res: Self)
        ensures
            res.router() == self.router(),
            res.errors() == self.errors() + spec_check_errors(
                Version::path_spec(),
                path@,
                *method,
                doc@,
                handler@,
            ),
            res.attachments() == self.attachments() + spec_check_attachment_frames(
                Version::path_spec(),
                path@,
                *method,
                doc@,
                handler@,
            ),
    {
        match try_convert_path_item_type_from_method(method) {
            Ok(path_item_type) => {
                let prefix = Version::to_path();
                match check_api(prefix, path, path_item_type, doc, handler) {
                    Ok(()) => {
                        assert(self.errors() + Seq::<RouteError>::empty() =~= self.errors());
                        assert(self.attachments() + Seq::<Seq<Seq<char>>>::empty()
                            =~= self.attachments());
                        self
                    },
                    Err(err) => {
                        let atts = check_attachments(prefix, path, path_item_type, doc, handler, err);
                        let ghost a = strings_view(atts);
                        let res = self.record_error(err, atts);
                        assert(self.errors().push(err) =~= self.errors() + seq![err]);
                        assert(self.attachments().push(a) =~= self.attachments() + seq![a]);
                        res
                    },
                }
            },
            Err(err) => {
                let none: Vec<String> = Vec::new();
                assert(strings_view(none) =~= Seq::<Seq<char>>::empty());
                let res = self.record_error(err, none);
                assert(self.errors().push(err) =~= self.errors() + seq![err]);
                assert(self.attachments().push(Seq::<Seq<char>>::empty()) =~= self.attachments()
                    + seq![Seq::<Seq<char>>::empty()]);
                res
            },
        }
    }

    /// Registers the handler for `path` and `method` through `register`,
    /// which is given the router, `path` and the `axum` method filter of
    /// `method`; keeps the error if the method has no filter.
    pub fn apply_handler<F>(self, path: &str, method: &Method, register: F) -> (res: Self) where
        F: FnOnce(axum::Router<S>, &str, axum::routing::MethodFilter) -> axum::Router<S>,

        requires
            forall|r: axum::Router<S>, p: &str, f: axum::routing::MethodFilter| register.requires((r, p, f)),
        ensures
            match spec_method_filter(*method) {
                Ok(f) => {
                    &&& res.errors() == self.errors()
                    &&& res.attachments() == self.attachments()
                    &&& register.ensures((self.router(), path, axum_method_filter(f)), res.router())
                },
                Err(e) => {
                    &&& res.errors() == self.errors().push(e)
                    &&& res.attachments() == self.attachments().push(Seq::<Seq<char>>::empty())
                    &&& res.router() == self.router()
                },
            },
    {
        match try_convert_method_filter_from_method(method) {
            Ok(filter) => {
                let ContextRouter { inner, context, api_errors } = self;
                let inner = register(inner, path, axum_filter(filter));
                ContextRouter { inner, context, api_errors }
            },
            Err(err) => {
                let none: Vec<String> = Vec::new();
                assert(strings_view(none) =~= Seq::<Seq<char>>::empty());
                self.record_error(err, none)
            },
        }
    }

    /// Add API Route to the `Router`: checks the route against the API
    /// description `doc` (see [`check_api`]) and registers the handler
    /// whose full path is `handler` for the same `path` through `register`.
    pub fn api_route<F>(
        self,
        path: &str,
        method: &Method,
        doc: &ApiSpec,
        handler: &str,
        register: F,
    ) -> (res: Self) where
        F: FnOnce(axum::Router<S>, &str, axum::routing::MethodFilter) -> axum::Router<S>,

        requires
            forall|r: axum::Router<S>, p: &str, f: axum::routing::MethodFilter| register.requires((r, p, f)),
        ensures
            res.errors() == self.errors() + spec_route_errors(
                Version::path_spec(),
                path@,
                *method,
                doc@,
                handler@,
            ),
            res.attachments() == self.attachments() + spec_route_attachments(
                Version::path_spec(),
                path@,
                *method,
                doc@,
                handler@,
            ),
            match spec_method_filter(*method) {
                Ok(f) => register.ensures((self.router(), path, axum_method_filter(f)), res.router()),
                Err(_) => res.router() == self.router(),
            },
    {
        let checked = self.check_api(path, method, doc, handler);
        let res = checked.apply_handler(path, method, register);
        proof {
            let c = spec_check_errors(Version::path_spec(), path@, *method, doc@, handler@);
            match spec_method_filter(*method) {
                Ok(_) => {
                    assert(self.errors() + c + Seq::<RouteError>::empty() =~= self.errors() + c);
                },
                Err(e) => {
                    assert((self.errors() + c).push(e) =~= self.errors() + (c + seq![e]));
                },
            }
            assert(self.errors() + c + errors_of(spec_method_filter(*method)) =~= self.errors() + (c
                + errors_of(spec_method_filter(*method))));
            let a = spec_check_attachment_frames(Version::path_spec(), path@, *method, doc@, handler@);
            match spec_method_filter(*method) {
                Ok(_) => {
                    assert(self.attachments() + a + Seq::<Seq<Seq<char>>>::empty() =~= self.attachments()
                        + a);
                    assert(spec_route_attachments(Version::path_spec(), path@, *method, doc@, handler@)
                        =~= a + Seq::<Seq<Seq<char>>>::empty());
                },
                Err(_) => {
                    assert((self.attachments() + a).push(Seq::<Seq<char>>::empty()) =~= self.attachments()
                        + (a + seq![Seq::<Seq<char>>::empty()]));
                },
            }
        }
        res
    }
}

/// A route is added without error exactly when its method can be
/// registered, and the route, templated and put under the context path, is
/// documented for the method with an operation id equal to the handler's
/// short name.
pub proof fn law_route_accepted_iff_documented(
    prefix: Seq<char>,
    path: Seq<char>,
    method: Method,
    doc: Seq<PathItemView>,
    handler: Seq<char>,
)
    ensures
        spec_route_errors(prefix, path, method, doc, handler).len() == 0 <==> {
            &&& spec_method_filter(method) is Ok
            &&& spec_path_item_type(method) is Ok
            &&& lookup_path(doc, route_for(prefix, path)) is Some
            &&& after_last_colon(handler) is Some
            &&& lookup_operation(
                lookup_path(doc, route_for(prefix, path))->0,
                spec_path_item_type(method)->Ok_0,
            ) == Some(after_last_colon(handler))
        },
{
    let c = spec_check_errors(prefix, path, method, doc, handler);
    let f = errors_of(spec_method_filter(method));
    assert((c + f).len() == c.len() + f.len());
}

/// Adding a route records at most two errors: one from the check and one
/// from the registration, which is `UnexpectedMethod` for `CONNECT` and for
/// an extension method. An extension method gives that error twice.
pub proof fn law_route_errors_at_most_two(
    prefix: Seq<char>,
    path: Seq<char>,
    method: Method,
    doc: Seq<PathItemView>,
    handler: Seq<char>,
)
    ensures
        spec_route_errors(prefix, path, method, doc, handler).len() <= 2,
        spec_method_filter(method) is Err ==> spec_route_errors(prefix, path, method, doc, handler).len() >= 1
            && spec_route_errors(prefix, path, method, doc, handler).last() == RouteError::UnexpectedMethod,
        method is Other ==> spec_route_errors(prefix, path, method, doc, handler) == seq![
            RouteError::UnexpectedMethod,
            RouteError::UnexpectedMethod,
        ],
{
    let c = spec_check_errors(prefix, path, method, doc, handler);
    let f = errors_of(spec_method_filter(method));
    assert((c + f).len() == c.len() + f.len());
    if method is Other {
        assert(c + f =~= seq![RouteError::UnexpectedMethod, RouteError::UnexpectedMethod]);
    }
}

/// Once an error is recorded, routes added later do not hide it: `unroll`
/// fails, and the report's current context stays the first error.
pub proof fn law_first_error_stays_current(recorded: Seq<RouteError>, later: Seq<RouteError>)
    requires
        recorded.len() > 0,
    ensures
        (recorded + later).len() > 0,
        (recorded + later)[0] == recorded[0],
        (recorded + later).take(recorded.len() as int) == recorded,
{
    assert((recorded + later).take(recorded.len() as int) =~= recorded);
}

/// One addition of a route with `api_route`: the context path current at
/// the call, the path, the method, the API description and the handler's
/// full path.
pub type RouteAddition = (Seq<char>, Seq<char>, Method, Seq<PathItemView>, Seq<char>);

/// The errors that one route addition records.
pub open spec fn addition_errors(a: RouteAddition) -> Seq<RouteError> {
    spec_route_errors(a.0, a.1, a.2, a.3, a.4)
}

/// The errors of a router that held `start` after the route additions
/// `calls`, made one after the other (any `change_context` in between only
/// changes the context path of the later additions).
pub open spec fn errors_after(start: Seq<RouteError>, calls: Seq<RouteAddition>) -> Seq<RouteError>
    decreases calls.len(),
{
    if calls.len() == 0 {
        start
    } else {
        errors_after(start, calls.drop_last()) + addition_errors(calls.last())
    }
}

/// `a` is the beginning of `b`.
pub open spec fn is_prefix(a: Seq<RouteError>, b: Seq<RouteError>) -> bool {
    a.len() <= b.len() && b.take(a.len() as int) == a
}

proof fn lemma_errors_after_prefixes(start: Seq<RouteError>, calls: Seq<RouteAddition>)
    ensures
        forall|i: int|
            0 <= i <= calls.len() ==> is_prefix(
                #[trigger] errors_after(start, calls.take(i)),
                errors_after(start, calls),
            ),
        is_prefix(start, errors_after(start, calls)),
    decreases calls.len(),
{
    let all = errors_after(start, calls);
    assert(calls.take(calls.len() as int) =~= calls);
    assert(all.take(all.len() as int) =~= all);
    if calls.len() == 0 {
        assert forall|i: int| 0 <= i <= calls.len() implies is_prefix(
            #[trigger] errors_after(start, calls.take(i)),
            all,
        ) by {
            assert(calls.take(i) =~= calls);
        }
    } else {
        let init = calls.drop_last();
        let prev = errors_after(start, init);
        lemma_errors_after_prefixes(start, init);
        assert(all == prev + addition_errors(calls.last()));
        assert(all.take(prev.len() as int) =~= prev);
        assert forall|i: int| 0 <= i <= calls.len() implies is_prefix(
            #[trigger] errors_after(start, calls.take(i)),
            all,
        ) by {
            if i < calls.len() {
                assert(init.take(i) =~= calls.take(i));
                let a = errors_after(start, init.take(i));
                assert(is_prefix(a, prev));
                assert(all.take(a.len() as int) =~= prev.take(a.len() as int));
            }
        }
        assert(all.take(start.len() as int) =~= prev.take(start.len() as int));
    }
}

proof fn lemma_errors_after_empty(start: Seq<RouteError>, calls: Seq<RouteAddition>)
    ensures
        errors_after(start, calls).len() == 0 <==> (start.len() == 0 && forall|i: int|
            0 <= i < calls.len() ==> #[trigger] addition_errors(calls[i]).len() == 0),
    decreases calls.len(),
{
    if calls.len() > 0 {
        let init = calls.drop_last();
        lemma_errors_after_empty(start, init);
        assert forall|i: int| 0 <= i < init.len() implies #[trigger] init[i] == calls[i] by {}
        if start.len() == 0 && (forall|i: int|
            0 <= i < calls.len() ==> #[trigger] addition_errors(calls[i]).len() == 0) {
            assert forall|i: int| 0 <= i < init.len() implies #[trigger] addition_errors(
                init[i],
            ).len() == 0 by {
                assert(addition_errors(calls[i]).len() == 0);
            }
            assert(addition_errors(calls[calls.len() - 1]).len() == 0);
        }
        if errors_after(start, calls).len() == 0 {
            assert forall|i: int| 0 <= i < calls.len() implies #[trigger] addition_errors(
                calls[i],
            ).len() == 0 by {
                if i < init.len() {
                    assert(addition_errors(init[i]).len() == 0);
                }
            }
        }
    }
}

proof fn lemma_errors_after_first(start: Seq<RouteError>, calls: Seq<RouteAddition>, i: int)
    requires
        0 <= i < calls.len(),
        start.len() == 0,
        forall|j: int| 0 <= j < i ==> #[trigger] addition_errors(calls[j]).len() == 0,
        addition_errors(calls[i]).len() > 0,
    ensures
        errors_after(start, calls)[0] == addition_errors(calls[i])[0],
    decreases calls.len(),
{
    let init = calls.drop_last();
    let prev = errors_after(start, init);
    if i < init.len() {
        assert(init[i] == calls[i]);
        assert forall|j: int| 0 <= j < i implies #[trigger] addition_errors(init[j]).len() == 0 by {
            assert(init[j] == calls[j]);
            assert(addition_errors(calls[j]).len() == 0);
        }
        lemma_errors_after_first(start, init, i);
        lemma_errors_after_empty(start, init);
        assert(prev.len() > 0);
    } else {
        lemma_errors_after_empty(start, init);
        assert forall|j: int| 0 <= j < init.len() implies #[trigger] addition_errors(init[j]).len()
            == 0 by {
            assert(init[j] == calls[j]);
            assert(addition_errors(calls[j]).len() == 0);
        }
        assert(prev.len() == 0);
        assert(calls.last() == calls[i]);
    }
}

/// Over any number of route additions, every error is kept, in the order of
/// the additions: the errors after the first `i` additions are the beginning
/// of the errors after all of them. No error is recorded exactly when none
/// was there and every addition is accepted; otherwise, starting with no
/// error, the first error is the first error of the first addition that
/// failed, so `unroll` fails with it as the current context.
pub proof fn law_errors_kept_over_many_routes(start: Seq<RouteError>, calls: Seq<RouteAddition>)
    ensures
        forall|i: int|
            0 <= i <= calls.len() ==> is_prefix(
                #[trigger] errors_after(start, calls.take(i)),
                errors_after(start, calls),
            ),
        is_prefix(start, errors_after(start, calls)),
        errors_after(start, calls).len() == 0 <==> (start.len() == 0 && forall|i: int|
            0 <= i < calls.len() ==> #[trigger] addition_errors(calls[i]).len() == 0),
        forall|i: int|
            0 <= i < calls.len() && start.len() == 0 && (forall|j: int|
                0 <= j < i ==> #[trigger] addition_errors(calls[j]).len() == 0) && #[trigger] addition_errors(
                calls[i],
            ).len() > 0 ==> errors_after(start, calls)[0] == addition_errors(calls[i])[0],
{
    lemma_errors_after_prefixes(start, calls);
    lemma_errors_after_empty(start, calls);
    assert forall|i: int|
        0 <= i < calls.len() && start.len() == 0 && (forall|j: int|
            0 <= j < i ==> #[trigger] addition_errors(calls[j]).len() == 0)
            && #[trigger] addition_errors(calls[i]).len() > 0 implies errors_after(start, calls)[0]
        == addition_errors(calls[i])[0] by {
        lemma_errors_after_first(start, calls, i);
    }
}

/// The model follows a run of real calls: a router whose errors are those
/// after `calls`, to which one more route is added with `api_route` (whose
/// contract appends `addition_errors(next)`), holds the errors after
/// `calls` followed by `next`. [`law_run_of_api_routes`] carries this step
/// over a whole run that starts at `with_context`.
pub proof fn law_api_route_follows_model(
    errors: Seq<RouteError>,
    start: Seq<RouteError>,
    calls: Seq<RouteAddition>,
    next: RouteAddition,
)
    requires
        errors == errors_after(start, calls),
    ensures
        errors + addition_errors(next) == errors_after(start, calls.push(next)),
{
    assert(calls.push(next).drop_last() =~= calls);
}

proof fn lemma_run_follows_model(steps: Seq<Seq<RouteError>>, calls: Seq<RouteAddition>, k: int)
    requires
        steps.len() == calls.len() + 1,
        steps[0].len() == 0,
        forall|i: int|
            0 <= i < calls.len() ==> steps[i + 1] == steps[i] + #[trigger] addition_errors(calls[i]),
        0 <= k <= calls.len(),
    ensures
        steps[k] == errors_after(Seq::<RouteError>::empty(), calls.take(k)),
    decreases k,
{
    if k == 0 {
        assert(steps[0] =~= Seq::<RouteError>::empty());
        assert(calls.take(0).len() == 0);
    } else {
        lemma_run_follows_model(steps, calls, k - 1);
        assert(calls.take(k).drop_last() =~= calls.take(k - 1));
        assert(calls.take(k).last() == calls[k - 1]);
        assert(steps[k] == steps[k - 1] + addition_errors(calls[k - 1]));
    }
}

/// A run of real calls: `steps[0]` holds the errors of a router made by
/// `with_context` (none), and each `steps[i + 1]` the errors after one more
/// `api_route` call, as its contract gives them (`change_context` in between
/// keeps them). Then the final router holds exactly the errors of the model
/// for that run: every earlier state's errors are kept at its beginning, in
/// call order; it holds none (and `unroll` succeeds) exactly when every call
/// was accepted; otherwise its first error, the current context of the
/// report that `unroll` returns, is the first error of the first call that
/// failed.
pub proof fn law_run_of_api_routes(steps: Seq<Seq<RouteError>>, calls: Seq<RouteAddition>)
    requires
        steps.len() == calls.len() + 1,
        steps[0].len() == 0,
        forall|i: int|
            0 <= i < calls.len() ==> steps[i + 1] == steps[i] + #[trigger] addition_errors(calls[i]),
    ensures
        steps.last() == errors_after(Seq::<RouteError>::empty(), calls),
        forall|k: int| 0 <= k < steps.len() ==> is_prefix(#[trigger] steps[k], steps.last()),
        steps.last().len() == 0 <==> (forall|i: int|
            0 <= i < calls.len() ==> #[trigger] addition_errors(calls[i]).len() == 0),
        forall|i: int|
            0 <= i < calls.len() && (forall|j: int|
                0 <= j < i ==> #[trigger] addition_errors(calls[j]).len() == 0) && #[trigger] addition_errors(
                calls[i],
            ).len() > 0 ==> steps.last()[0] == addition_errors(calls[i])[0],
{
    let empty = Seq::<RouteError>::empty();
    lemma_run_follows_model(steps, calls, calls.len() as int);
    assert(calls.take(calls.len() as int) =~= calls);
    law_errors_kept_over_many_routes(empty, calls);
    assert forall|k: int| 0 <= k < steps.len() implies is_prefix(#[trigger] steps[k], steps.last()) by {
        lemma_run_follows_model(steps, calls, k);
        assert(is_prefix(errors_after(empty, calls.take(k)), errors_after(empty, calls)));
    }
}

impl<Version, Doc, S> std::ops::Deref for ContextRouter<Version, Doc, S> {
    type Target = axum::Router<S>;

    fn deref(&self) -> (res: &axum::Router<S>)
        ensures
            *res == self.router(),
    {
        &self.inner
    }
}

/// Wraps a router into an API context.
pub trait RouterApiExt<S = (), E = std::convert::Infallible> {
    /// Wraps `Router` with `ApiVersion` and `OpenApi` instances into the new context to call
    /// `api_route` with said context
    fn with_context<'a, Version: ApiVersion<'a>, Doc>(self) -> ContextRouter<Version, Doc, S>;
}

impl<S> RouterApiExt<S, std::convert::Infallible> for axum::Router<S> where
    S: Clone + Send + Sync + 'static,
 {
    fn with_context<'a, Version: ApiVersion<'a>, Doc>(self) -> (res: ContextRouter<Version, Doc, S>)
        ensures
            res.router() == self,
            res.errors() == Seq::<RouteError>::empty(),
            res.attachments() == Seq::<Seq<Seq<char>>>::empty(),
    {
        ContextRouter::new(self)
    }
}

} // verus!
