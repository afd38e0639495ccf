//! The stages that a request passes before an origin is asked, and the one
//! that decorates the response.

use crate::config::{Config, ConfigModel};
use crate::http::{
    header_value, lemma_with_header_keeps, lemma_with_header_sets, reply_model,
    response_from_body, with_header, ReplyModel, Request, RequestModel, Response, ResponseModel,
    TransportError,
};
use crate::origin::{asks_for_db_dump, db_dump_redirect, is_db_dump, redirect_db_dump_to_cloudfront};
use crate::path::{rewrite_urls_with_plus_character, with_encoded_plus};
use crate::text::eq_ignoring_ascii_case;
use vstd::prelude::*;

verus! {

/// The status that answers a method that is not allowed. It is 401 and not
/// 405 on purpose: clients of the service rely on this status.
pub const UNAUTHORIZED: u16 = 401;

/// Whether clients may use the method: only `GET` and `HEAD` read content.
pub open spec fn is_allowed_method(method: Seq<char>) -> bool {
    method == "GET"@ || method == "HEAD"@
}

/// The response to a request whose method is not allowed.
pub open spec fn method_not_allowed() -> ResponseModel {
    ResponseModel { status: UNAUTHORIZED, ..response_from_body("Method not allowed"@) }
}

/// Limits the methods that clients may use. A request with another method
/// than `GET` or `HEAD` is answered here, with status 401 and the body
/// `Method not allowed`; for `GET` and `HEAD` there is nothing to answer yet.
pub fn limit_http_methods(request: &Request) -> (rejection: Option<Response>)
    ensures
        match rejection {
            Some(response) => !is_allowed_method(request@.method) && response@
                == method_not_allowed(),
            None => is_allowed_method(request@.method),
        },
{
    let method = request.method.as_str();
    if !method.eq("GET") && !method.eq("HEAD") {
        return Some(Response::from_body("Method not allowed").with_status(UNAUTHORIZED));
    }
    None
}

/// The request with the cache lifetime `ttl`.
pub open spec fn with_ttl(request: RequestModel, ttl: u32) -> RequestModel {
    RequestModel { ttl: Some(ttl), ..request }
}

/// Stamps the request with the configured cache lifetime. Nothing else of
/// the request changes.
pub fn set_ttl(config: &Config, request: &mut Request)
    ensures
        final(request)@ == with_ttl(old(request)@, config@.static_ttl),
{
    request.ttl = Some(config.static_ttl);
}

/// The model of a routing decision.
pub enum RoutingModel {
    Respond(ResponseModel),
    Forward(RequestModel),
}

/// What is to be done with a request once it has passed the stages.
#[derive(Debug, PartialEq, Eq)]
pub enum Routing {
    /// The request is answered here; no origin is asked.
    Respond(Response),
    /// The request, as the stages left it, goes to the origins.
    Forward(Request),
}

impl View for Routing {
    type V = RoutingModel;

    open spec fn view(&self) -> RoutingModel {
        match self {
            Routing::Respond(response) => RoutingModel::Respond(response@),
            Routing::Forward(request) => RoutingModel::Forward(request@),
        }
    }
}

/// The request as the origins get it: stamped with the cache lifetime, its
/// path normalized.
pub open spec fn prepared(config: ConfigModel, request: RequestModel) -> RequestModel {
    with_encoded_plus(with_ttl(request, config.static_ttl))
}

/// The routing rule. A method that is not allowed is rejected before
/// anything else. The database dump, told by the normalized path, is
/// redirected. Every other request is forwarded as prepared.
pub open spec fn route(config: ConfigModel, request: RequestModel) -> RoutingModel {
    if !is_allowed_method(request.method) {
        RoutingModel::Respond(method_not_allowed())
    } else if is_db_dump(prepared(config, request).url.path) {
        RoutingModel::Respond(db_dump_redirect(config))
    } else {
        RoutingModel::Forward(prepared(config, request))
    }
}

/// Handles a request up to the point where an origin would be asked: the
/// method is checked, the cache lifetime set and the path normalized, in
/// this order. The result is the response, where the request is answered
/// here, or the request that is to be forwarded.
pub fn handle_request(config: &Config, request: Request) -> (routing: Routing)
    ensures
        routing@ == route(config@, request@),
{
    let mut request = request;
    if let Some(response) = limit_http_methods(&request) {
        return Routing::Respond(response);
    }
    set_ttl(config, &mut request);
    rewrite_urls_with_plus_character(&mut request);

    if asks_for_db_dump(&request) {
        Routing::Respond(redirect_db_dump_to_cloudfront(config))
    } else {
        Routing::Forward(request)
    }
}

/// The response with the three headers that let pages of any site read it:
/// every origin allowed, the method `GET`, and 3000 seconds for which the
/// answer may be remembered. Status, declared length and body are untouched.
pub open spec fn with_cors_headers(response: ResponseModel) -> ResponseModel {
    let allow_origin = with_header(response.headers, "Access-Control-Allow-Origin"@, "*"@);
    let allow_methods = with_header(allow_origin, "Access-Control-Allow-Methods"@, "GET"@);
    let max_age = with_header(allow_methods, "Access-Control-Max-Age"@, "3000"@);
    ResponseModel { headers: max_age, ..response }
}

/// What the client is sent where the request named an origin of its own: a
/// response gets the three headers, a failure stays what it is.
pub open spec fn decorated(reply: ReplyModel) -> ReplyModel {
    match reply {
        Ok(response) => Ok(with_cors_headers(response)),
        Err(error) => Err(error),
    }
}

/// A decorated response carries each of the three headers with its value.
pub proof fn lemma_cors_headers_are_set(response: ResponseModel)
    ensures
        header_value(with_cors_headers(response).headers, "Access-Control-Allow-Origin"@) == Some(
            "*"@,
        ),
        header_value(with_cors_headers(response).headers, "Access-Control-Allow-Methods"@) == Some(
            "GET"@,
        ),
        header_value(with_cors_headers(response).headers, "Access-Control-Max-Age"@) == Some(
            "3000"@,
        ),
{
    reveal_strlit("Access-Control-Allow-Origin");
    reveal_strlit("Access-Control-Allow-Methods");
    reveal_strlit("Access-Control-Max-Age");
    let allow_origin = with_header(response.headers, "Access-Control-Allow-Origin"@, "*"@);
    let allow_methods = with_header(allow_origin, "Access-Control-Allow-Methods"@, "GET"@);
    lemma_with_header_sets(response.headers, "Access-Control-Allow-Origin"@, "*"@);
    lemma_with_header_keeps(
        allow_origin,
        "Access-Control-Allow-Methods"@,
        "GET"@,
        "Access-Control-Allow-Origin"@,
    );
    lemma_with_header_keeps(
        allow_methods,
        "Access-Control-Max-Age"@,
        "3000"@,
        "Access-Control-Allow-Origin"@,
    );
    lemma_with_header_sets(allow_origin, "Access-Control-Allow-Methods"@, "GET"@);
    lemma_with_header_keeps(
        allow_methods,
        "Access-Control-Max-Age"@,
        "3000"@,
        "Access-Control-Allow-Methods"@,
    );
    lemma_with_header_sets(allow_methods, "Access-Control-Max-Age"@, "3000"@);
}

/// Decoration leaves every header but the three as it was.
pub proof fn lemma_cors_headers_keep_others(response: ResponseModel, name: Seq<char>)
    requires
        !eq_ignoring_ascii_case("Access-Control-Allow-Origin"@, name),
        !eq_ignoring_ascii_case("Access-Control-Allow-Methods"@, name),
        !eq_ignoring_ascii_case("Access-Control-Max-Age"@, name),
    ensures
        header_value(with_cors_headers(response).headers, name) == header_value(
            response.headers,
            name,
        ),
{
    let allow_origin = with_header(response.headers, "Access-Control-Allow-Origin"@, "*"@);
    let allow_methods = with_header(allow_origin, "Access-Control-Allow-Methods"@, "GET"@);
    lemma_with_header_keeps(response.headers, "Access-Control-Allow-Origin"@, "*"@, name);
    lemma_with_header_keeps(allow_origin, "Access-Control-Allow-Methods"@, "GET"@, name);
    lemma_with_header_keeps(allow_methods, "Access-Control-Max-Age"@, "3000"@, name);
}

/// Adds the cross-origin headers to a response. Where there is no response
/// there is nothing to add them to.
pub fn add_cors_headers(response: &mut Result<Response, TransportError>)
    ensures
        reply_model(*final(response)) == decorated(reply_model(*old(response))),
{
    if let Ok(response) = response {
        response.set_header("Access-Control-Allow-Origin", "*");
        response.set_header("Access-Control-Allow-Methods", "GET");
        response.set_header("Access-Control-Max-Age", "3000");
    }
}

} // verus!
