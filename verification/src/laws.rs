//! What holds of every invocation, proved from the rules of the stages.
//!
//! The laws speak of the [`outcome`] of an invocation: what has happened
//! once the caller has carried out every action that the router asked for.

use crate::config::ConfigModel;
use crate::http::{header_value, lemma_with_header_sets, location, ReplyModel, RequestModel};
use crate::invocation::{has_origin_header, is_purge, outcome, run};
use crate::log_line::LogLineModel;
use crate::logger::{
    log_output, request_phase, response_phase, LogOutputModel, INTERNAL_SERVER_ERROR,
};
use crate::origin::{
    db_dump_redirect, is_db_dump, needs_fallback, primary_failure, without_body, SERVER_ERROR,
};
use crate::path::encode_plus;
use crate::pipeline::{
    decorated, is_allowed_method, lemma_cors_headers_are_set, lemma_cors_headers_keep_others,
    method_not_allowed, prepared, route, UNAUTHORIZED,
};
use time::OffsetDateTime;
use vstd::prelude::*;

verus! {

/// Whether the request is answered without asking an origin.
pub open spec fn answered_here(config: ConfigModel, request: RequestModel) -> bool {
    !is_purge(request.method) && route(config, request) is Respond
}

/// The request that goes to the origins, where one does: an invalidation as
/// it came, any other request as prepared; in both cases without body.
pub open spec fn outgoing(config: ConfigModel, request: RequestModel) -> RequestModel {
    if is_purge(request.method) {
        without_body(request)
    } else {
        without_body(prepared(config, request))
    }
}

/// The result of the invocation before it is decorated: the response that
/// was made here, or what the primary gave, or, where that is a failure,
/// what the fallback gave.
pub open spec fn plain_result(
    config: ConfigModel,
    request: RequestModel,
    primary: ReplyModel,
    fallback: ReplyModel,
) -> ReplyModel {
    if answered_here(config, request) {
        Ok(route(config, request)->Respond_0)
    } else if needs_fallback(primary) {
        fallback
    } else {
        primary
    }
}

/// What the client is sent for `result`: decorated where the request named
/// an origin of its own and is no invalidation, else as it is.
pub open spec fn delivered(request: RequestModel, result: ReplyModel) -> ReplyModel {
    if !is_purge(request.method) && has_origin_header(request) {
        decorated(result)
    } else {
        result
    }
}

/// What is written to the logs where the client is sent `response`: nothing
/// for an invalidation, else the output for the record of the request and
/// that response.
pub open spec fn logged(
    config: ConfigModel,
    request: RequestModel,
    now: OffsetDateTime,
    response: ReplyModel,
) -> Option<LogOutputModel> {
    if is_purge(request.method) {
        None
    } else {
        Some(log_output(response_phase(request_phase(request, now), response), config))
    }
}

/// Every invocation comes to an end after at most two requests to origins,
/// and its outcome is decided as follows.
///
/// A request that is answered here asks no origin. Any other request goes to
/// the primary origin; where that fails, and only then, it goes to the
/// fallback as well, once and with a warning, and what the fallback gives is
/// the result. The client is sent the result, decorated where the request
/// asked for it. The log output is the one for the request and what the
/// client is sent; an invalidation has none.
pub proof fn law_outcome(
    config: ConfigModel,
    request: RequestModel,
    now: OffsetDateTime,
    primary: ReplyModel,
    fallback: ReplyModel,
)
    ensures
        outcome(config, request, now, primary, fallback) matches Some(end) && {
            let first = (config.primary_host, outgoing(config, request));
            let second = (config.fallback_host, outgoing(config, request));
            &&& end.sent == if answered_here(config, request) {
                Seq::empty()
            } else if needs_fallback(primary) {
                seq![first, second]
            } else {
                seq![first]
            }
            &&& end.warnings == if !answered_here(config, request) && needs_fallback(primary) {
                seq![primary_failure(config, primary)]
            } else {
                Seq::empty()
            }
            &&& end.response == delivered(
                request,
                plain_result(config, request, primary, fallback),
            )
            &&& end.log == logged(config, request, now, end.response)
        },
{
    reveal_with_fuel(run, 3);
    let replies = seq![primary, fallback];
    assert(replies[0] == primary);
    assert(replies.drop_first() =~= seq![fallback]);
    assert(replies.drop_first()[0] == fallback);
    let end = outcome(config, request, now, primary, fallback)->0;
    let first = (config.primary_host, outgoing(config, request));
    let second = (config.fallback_host, outgoing(config, request));
    if answered_here(config, request) {
        assert(end.sent =~= Seq::empty());
        assert(end.warnings =~= Seq::empty());
    } else if needs_fallback(primary) {
        assert(end.sent =~= seq![first, second]);
        assert(end.warnings =~= seq![primary_failure(config, primary)]);
    } else {
        assert(end.sent =~= seq![first]);
        assert(end.warnings =~= Seq::empty());
    }
}

/// A request whose method is neither `GET` nor `HEAD` nor `PURGE` is
/// answered with status 401 and the body `Method not allowed`, and no origin
/// is asked.
pub proof fn law_other_methods_are_rejected(
    config: ConfigModel,
    request: RequestModel,
    now: OffsetDateTime,
    primary: ReplyModel,
    fallback: ReplyModel,
)
    requires
        !is_allowed_method(request.method),
        !is_purge(request.method),
    ensures
        outcome(config, request, now, primary, fallback) matches Some(end) && {
            &&& end.sent.len() == 0
            &&& end.response == delivered(request, Ok(method_not_allowed()))
            &&& end.response matches Ok(response) && response.status == UNAUTHORIZED
                && response.body == vstd::utf8::encode_utf8("Method not allowed"@)
        },
{
    law_outcome(config, request, now, primary, fallback);
}

/// Where the primary origin gives a response with a status below 500, the
/// result of the invocation is that response, as it was given, and the
/// fallback is not asked. The client is sent that very response, unless the
/// request asked for the cross-origin headers: then it is sent the response
/// with those headers set.
pub proof fn law_primary_response_is_final(
    config: ConfigModel,
    request: RequestModel,
    now: OffsetDateTime,
    primary: ReplyModel,
    fallback: ReplyModel,
)
    requires
        !answered_here(config, request),
        primary matches Ok(response) && response.status < SERVER_ERROR,
    ensures
        plain_result(config, request, primary, fallback) == primary,
        outcome(config, request, now, primary, fallback) matches Some(end) && {
            &&& end.sent == seq![(config.primary_host, outgoing(config, request))]
            &&& end.response == delivered(request, primary)
            &&& is_purge(request.method) || !has_origin_header(request) ==> end.response
                == primary
        },
{
    law_outcome(config, request, now, primary, fallback);
}

/// Where the primary origin gives a status of 500 or above, or no response,
/// the fallback is asked exactly once, after the primary, and the result of
/// the invocation is what the fallback gives, whatever that is. The client
/// is sent that very result, unless the request asked for the cross-origin
/// headers: then a response is sent with those headers set.
pub proof fn law_fallback_result_is_final(
    config: ConfigModel,
    request: RequestModel,
    now: OffsetDateTime,
    primary: ReplyModel,
    fallback: ReplyModel,
)
    requires
        !answered_here(config, request),
        primary matches Ok(response) ==> response.status >= SERVER_ERROR,
    ensures
        plain_result(config, request, primary, fallback) == fallback,
        outcome(config, request, now, primary, fallback) matches Some(end) && {
            &&& end.sent == seq![
                (config.primary_host, outgoing(config, request)),
                (config.fallback_host, outgoing(config, request)),
            ]
            &&& end.response == delivered(request, fallback)
            &&& is_purge(request.method) || !has_origin_header(request) ==> end.response
                == fallback
        },
{
    law_outcome(config, request, now, primary, fallback);
}

/// A `GET` or `HEAD` request whose normalized path ends with
/// `db-dump.tar.gz` asks no origin: the client gets status 307, with
/// `https://`, the configured host and `/db-dump.tar.gz` as the `Location`.
pub proof fn law_db_dump_is_redirected(
    config: ConfigModel,
    request: RequestModel,
    now: OffsetDateTime,
    primary: ReplyModel,
    fallback: ReplyModel,
)
    requires
        is_allowed_method(request.method),
        is_db_dump(encode_plus(request.url.path)),
    ensures
        outcome(config, request, now, primary, fallback) matches Some(end) && {
            &&& end.sent.len() == 0
            &&& end.response == delivered(request, Ok(db_dump_redirect(config)))
            &&& end.response matches Ok(response) && response.status
                == crate::http::TEMPORARY_REDIRECT && header_value(response.headers, location())
                == Some("https://"@ + config.cloudfront_url + "/db-dump.tar.gz"@)
        },
{
    lemma_allowed_is_not_purge(request.method);
    law_outcome(config, request, now, primary, fallback);
    let redirect = db_dump_redirect(config);
    let target = "https://"@ + config.cloudfront_url + "/db-dump.tar.gz"@;
    assert(header_value(redirect.headers, location()) == Some(target)) by {
        lemma_with_header_sets(Seq::empty(), location(), target);
        reveal(Seq::filter);
        assert(crate::http::with_header(Seq::empty(), location(), target) =~= redirect.headers);
    }
    if has_origin_header(request) {
        reveal_strlit("Location");
        reveal_strlit("Access-Control-Allow-Origin");
        reveal_strlit("Access-Control-Allow-Methods");
        reveal_strlit("Access-Control-Max-Age");
        lemma_cors_headers_keep_others(redirect, location());
    }
}

/// A method that is allowed is not the one that invalidates.
pub proof fn lemma_allowed_is_not_purge(method: Seq<char>)
    requires
        is_allowed_method(method),
    ensures
        !is_purge(method),
{
    reveal_strlit("GET");
    reveal_strlit("HEAD");
    reveal_strlit("PURGE");
    assert("GET"@.len() == 3 && "HEAD"@.len() == 4 && "PURGE"@.len() == 5);
}

/// Where a request that is no invalidation carries an `Origin` header and
/// the client is sent a response, that response carries the three
/// cross-origin headers with their values.
pub proof fn law_cors_headers_are_added(
    config: ConfigModel,
    request: RequestModel,
    now: OffsetDateTime,
    primary: ReplyModel,
    fallback: ReplyModel,
)
    requires
        !is_purge(request.method),
        has_origin_header(request),
    ensures
        outcome(config, request, now, primary, fallback) matches Some(end) && (
        end.response matches Ok(response) ==> {
            &&& header_value(response.headers, "Access-Control-Allow-Origin"@) == Some("*"@)
            &&& header_value(response.headers, "Access-Control-Allow-Methods"@) == Some("GET"@)
            &&& header_value(response.headers, "Access-Control-Max-Age"@) == Some("3000"@)
        }),
{
    law_outcome(config, request, now, primary, fallback);
    match plain_result(config, request, primary, fallback) {
        Ok(response) => {
            lemma_cors_headers_are_set(response);
        },
        Err(_) => {},
    }
}

/// Where a request carries no `Origin` header, the client is sent the result
/// as it is: no header is added to it.
pub proof fn law_no_header_is_added_unasked(
    config: ConfigModel,
    request: RequestModel,
    now: OffsetDateTime,
    primary: ReplyModel,
    fallback: ReplyModel,
)
    requires
        !has_origin_header(request),
    ensures
        outcome(config, request, now, primary, fallback) matches Some(end) && end.response
            == plain_result(config, request, primary, fallback),
{
    law_outcome(config, request, now, primary, fallback);
}

/// An invocation that is no invalidation makes exactly one log output, the
/// record or the warning, whether an origin gave a response or none did. An
/// invalidation makes none.
pub proof fn law_one_log_output(
    config: ConfigModel,
    request: RequestModel,
    now: OffsetDateTime,
    primary: ReplyModel,
    fallback: ReplyModel,
)
    ensures
        outcome(config, request, now, primary, fallback) matches Some(end) && (end.log is Some
            <==> !is_purge(request.method)),
{
    law_outcome(config, request, now, primary, fallback);
}

/// The log output of an invocation that is no invalidation is the record,
/// for the request log. It holds the moment, URL, client address and method
/// of the request. Where the client is sent a response, it holds the status
/// and the declared length of that response; where no origin gave one, it
/// holds status 500 and no length.
pub proof fn law_log_record(
    config: ConfigModel,
    request: RequestModel,
    now: OffsetDateTime,
    primary: ReplyModel,
    fallback: ReplyModel,
)
    requires
        !is_purge(request.method),
    ensures
        outcome(config, request, now, primary, fallback) matches Some(end) && (
        end.log matches Some(LogOutputModel::Line { endpoint, line: LogLineModel::V1(line) }) && {
            &&& endpoint == config.request_logs_endpoint
            &&& line.date_time == now
            &&& line.url == request.url.text()
            &&& line.ip == request.client_ip
            &&& line.method == Some(request.method)
            &&& match end.response {
                Ok(response) => line.status == Some(response.status) && line.bytes
                    == response.content_length,
                Err(_) => line.status == Some(INTERNAL_SERVER_ERROR) && line.bytes is None,
            }
        }),
{
    law_outcome(config, request, now, primary, fallback);
}

/// An invalidation goes to the origins as it came, but for its body, and
/// its result is what the origins gave.
pub proof fn law_purge_is_forwarded(
    config: ConfigModel,
    request: RequestModel,
    now: OffsetDateTime,
    primary: ReplyModel,
    fallback: ReplyModel,
)
    requires
        is_purge(request.method),
    ensures
        outcome(config, request, now, primary, fallback) matches Some(end) && {
            &&& end.sent.len() > 0
            &&& forall|i: int| 0 <= i < end.sent.len() ==> (#[trigger] end.sent[i]).1
                == without_body(request)
            &&& end.response == if needs_fallback(primary) {
                fallback
            } else {
                primary
            }
            &&& end.log is None
        },
{
    law_outcome(config, request, now, primary, fallback);
}

} // verus!
