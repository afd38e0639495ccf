//! One invocation of the router, from the request of a client to the
//! response that the client is sent.
//!
//! The router decides and the caller acts. [`handle`] takes the request and
//! says what is to happen: either the invocation is finished, or a request
//! is to be sent to an origin. What the origin gave goes to [`resume`],
//! which says the same of the next step. An invocation asks at most two
//! origins, one after the other.

use crate::config::{Config, ConfigModel};
use crate::http::{reply_model, ReplyModel, Request, RequestModel, Response, TransportError};
use crate::log_line::{LogLineV1Builder, LogLineV1BuilderModel};
use crate::logger::{
    build_and_send_log, collect_request_at, collect_response, log_output, request_phase,
    response_phase, LogOutput, LogOutputModel,
};
use crate::origin::{
    next_step, send_request_to_s3, Origin, Progress, ProgressModel, Step, StepModel,
};
use crate::pipeline::{
    add_cors_headers, decorated, handle_request, route, Routing, RoutingModel,
};
use crate::warning::{warning_model, Warning, WarningModel};
use time::OffsetDateTime;
use vstd::prelude::*;

verus! {

/// The model of what an invocation keeps for its log.
pub struct RecordModel {
    pub log_line: LogLineV1BuilderModel,
    pub cors: bool,
}

/// What an invocation that is logged keeps while it waits for an origin.
#[derive(Debug, PartialEq, Eq)]
struct Record {
    /// The record so far: what the request gave.
    log_line: LogLineV1Builder,
    /// Whether the request named an origin of its own, so that the response
    /// is to carry the cross-origin headers.
    cors: bool,
}

impl View for Record {
    type V = RecordModel;

    closed spec fn view(&self) -> RecordModel {
        RecordModel { log_line: self.log_line@, cors: self.cors }
    }
}

/// The model of an invocation that waits for an origin.
pub struct InvocationModel {
    pub request: RequestModel,
    pub awaiting: Origin,
    pub record: Option<RecordModel>,
}

/// An invocation that waits for an origin.
#[derive(Debug, PartialEq, Eq)]
pub struct Invocation {
    /// The request that is being forwarded, kept for a second attempt.
    request: Request,
    /// The origin whose reply is awaited.
    awaiting: Origin,
    /// What is kept for the log. An invalidation is not logged and keeps
    /// nothing.
    record: Option<Record>,
}

impl View for Invocation {
    type V = InvocationModel;

    closed spec fn view(&self) -> InvocationModel {
        InvocationModel {
            request: self.request@,
            awaiting: self.awaiting,
            record: match self.record {
                Some(record) => Some(record@),
                None => None,
            },
        }
    }
}

/// The model of an action.
pub enum ActionModel {
    Send {
        invocation: InvocationModel,
        host: Seq<char>,
        request: RequestModel,
        warning: Option<WarningModel>,
    },
    Finish { response: ReplyModel, log: Option<LogOutputModel> },
}

/// What the caller is to do next.
#[derive(Debug, PartialEq, Eq)]
pub enum Action {
    /// Send `request` to `host`, log the warning where there is one, and
    /// hand what the origin gave to [`resume`], together with `invocation`.
    Send { invocation: Invocation, host: String, request: Request, warning: Option<Warning> },
    /// The invocation is over: `response` is its result, and `log`, where
    /// there is one, is to be written.
    Finish { response: Result<Response, TransportError>, log: Option<LogOutput> },
}

impl View for Action {
    type V = ActionModel;

    open spec fn view(&self) -> ActionModel {
        match self {
            Action::Send { invocation, host, request, warning } => ActionModel::Send {
                invocation: invocation@,
                host: host@,
                request: request@,
                warning: warning_model(*warning),
            },
            Action::Finish { response, log } => ActionModel::Finish {
                response: reply_model(*response),
                log: match log {
                    Some(output) => Some(output@),
                    None => None,
                },
            },
        }
    }
}

/// Whether the method is the one that invalidates cached content.
pub open spec fn is_purge(method: Seq<char>) -> bool {
    method == "PURGE"@
}

/// Whether the request names an origin of its own.
pub open spec fn has_origin_header(request: RequestModel) -> bool {
    crate::http::header_value(request.headers, "Origin"@) is Some
}

/// The end of an invocation that is logged: the result is decorated where
/// the request asked for it, the record is completed from what the client
/// is sent, and exactly one log output is made.
pub open spec fn finished(
    config: ConfigModel,
    record: RecordModel,
    result: ReplyModel,
) -> ActionModel {
    let response = if record.cors {
        decorated(result)
    } else {
        result
    };
    ActionModel::Finish {
        response,
        log: Some(log_output(response_phase(record.log_line, response), config)),
    }
}

/// The action that an exchange with the origins leads to: the next request,
/// or the end of the invocation. An invalidation ends with the result as the
/// origin gave it, and without log.
pub open spec fn continued(
    config: ConfigModel,
    request: RequestModel,
    record: Option<RecordModel>,
    step: StepModel,
) -> ActionModel {
    match step {
        StepModel::Send { origin, host, request: outgoing, warning } => ActionModel::Send {
            invocation: InvocationModel { request, awaiting: origin, record },
            host,
            request: outgoing,
            warning,
        },
        StepModel::Done(result) => match record {
            Some(record) => finished(config, record, result),
            None => ActionModel::Finish { response: result, log: None },
        },
    }
}

/// The first action for an invalidation: the request goes to the primary
/// origin as it came, and nothing is kept for the log.
pub open spec fn purge_action(config: ConfigModel, request: RequestModel) -> ActionModel {
    continued(config, request, None, next_step(config, request, ProgressModel::Start))
}

/// The first action of an invocation that is taken up at `now`.
///
/// An invalidation goes to the origins as it is, past every stage. Any other
/// request is recorded, then routed: answered here, or prepared and sent to
/// the primary origin.
pub open spec fn first_action(
    config: ConfigModel,
    request: RequestModel,
    now: OffsetDateTime,
) -> ActionModel {
    if is_purge(request.method) {
        purge_action(config, request)
    } else {
        let record = RecordModel {
            log_line: request_phase(request, now),
            cors: has_origin_header(request),
        };
        match route(config, request) {
            RoutingModel::Respond(response) => finished(config, record, Ok(response)),
            RoutingModel::Forward(forwarded) => continued(
                config,
                forwarded,
                Some(record),
                next_step(config, forwarded, ProgressModel::Start),
            ),
        }
    }
}

/// The action that follows the reply of the origin that the invocation
/// waited for.
pub open spec fn next_action(
    config: ConfigModel,
    invocation: InvocationModel,
    reply: ReplyModel,
) -> ActionModel {
    let progress = match invocation.awaiting {
        Origin::Primary => ProgressModel::PrimaryReplied(reply),
        Origin::Fallback => ProgressModel::FallbackReplied(reply),
    };
    continued(
        config,
        invocation.request,
        invocation.record,
        next_step(config, invocation.request, progress),
    )
}

/// What an invocation has come to at its end.
pub struct Outcome {
    /// The hosts that were asked, each with the request that it was sent, in
    /// the order in which they were asked.
    pub sent: Seq<(Seq<char>, RequestModel)>,
    /// The warnings that came with those requests, in their order.
    pub warnings: Seq<WarningModel>,
    /// What the client is sent.
    pub response: ReplyModel,
    /// What is written to the logs.
    pub log: Option<LogOutputModel>,
}

/// The outcome of carrying out `action` and every action that follows,
/// where the origins give `replies`, one reply for each request in turn.
/// There is no outcome where the replies run out before the invocation is
/// finished.
pub open spec fn run(
    config: ConfigModel,
    action: ActionModel,
    replies: Seq<ReplyModel>,
) -> Option<Outcome>
    decreases replies.len(),
{
    match action {
        ActionModel::Finish { response, log } => Some(
            Outcome { sent: Seq::empty(), warnings: Seq::empty(), response, log },
        ),
        ActionModel::Send { invocation, host, request, warning } => if replies.len() == 0 {
            None
        } else {
            match run(config, next_action(config, invocation, replies[0]), replies.drop_first()) {
                Some(rest) => Some(
                    Outcome {
                        sent: seq![(host, request)] + rest.sent,
                        warnings: match warning {
                            Some(warning) => seq![warning] + rest.warnings,
                            None => rest.warnings,
                        },
                        ..rest
                    },
                ),
                None => None,
            }
        },
    }
}

/// The outcome of the invocation for `request`, taken up at `now`, where the
/// primary origin would give `primary` and the fallback `fallback`.
pub open spec fn outcome(
    config: ConfigModel,
    request: RequestModel,
    now: OffsetDateTime,
    primary: ReplyModel,
    fallback: ReplyModel,
) -> Option<Outcome> {
    run(config, first_action(config, request, now), seq![primary, fallback])
}

fn finish(
    config: &Config,
    record: Record,
    result: Result<Response, TransportError>,
) -> (action: Action)
    ensures
        action@ == finished(config@, record@, reply_model(result)),
{
    let mut response = result;
    if record.cors {
        add_cors_headers(&mut response);
    }
    let mut log_line = record.log_line;
    let log_line = collect_response(&mut log_line, &response);
    let output = build_and_send_log(log_line, config);
    Action::Finish { response, log: Some(output) }
}

fn proceed(
    config: &Config,
    request: Request,
    record: Option<Record>,
    step: Step,
) -> (action: Action)
    ensures
        action@ == continued(
            config@,
            request@,
            match record {
                Some(record) => Some(record@),
                None => None,
            },
            step@,
        ),
{
    match step {
        Step::Send { origin, host, request: outgoing, warning } => Action::Send {
            invocation: Invocation { request, awaiting: origin, record },
            host,
            request: outgoing,
            warning,
        },
        Step::Done(result) => match record {
            Some(record) => finish(config, record, result),
            None => Action::Finish { response: result, log: None },
        },
    }
}

/// Whether the request is an invalidation.
pub fn is_purge_request(request: &Request) -> (purge: bool)
    ensures
        purge == is_purge(request@.method),
{
    request.method.as_str().eq("PURGE")
}

fn forward_purge(config: &Config, request: Request) -> (action: Action)
    ensures
        action@ == purge_action(config@, request@),
{
    let step = send_request_to_s3(config, &request, Progress::Start);
    proceed(config, request, None, step)
}

/// Takes up the request of a client at the moment `now`.
pub fn handle_at(config: &Config, request: Request, now: OffsetDateTime) -> (action: Action)
    ensures
        action@ == first_action(config@, request@, now),
{
    if is_purge_request(&request) {
        return forward_purge(config, request);
    }
    let log_line = collect_request_at(&request, now);
    let cors = request.headers.contains("Origin");
    let record = Record { log_line, cors };
    match handle_request(config, request) {
        Routing::Respond(response) => finish(config, record, Ok(response)),
        Routing::Forward(forwarded) => {
            let step = send_request_to_s3(config, &forwarded, Progress::Start);
            proceed(config, forwarded, Some(record), step)
        },
    }
}

/// Takes up the request of a client. An invalidation is forwarded at once.
/// For any other request the moment that is logged is read from the clock;
/// everything else is decided by the configuration and the request.
pub fn handle(config: &Config, request: Request) -> (action: Action)
    ensures
        is_purge(request@.method) ==> action@ == purge_action(config@, request@),
        exists|now: OffsetDateTime| action@ == first_action(config@, request@, now),
{
    if is_purge_request(&request) {
        let action = forward_purge(config, request);
        assert(action@ == first_action(config@, request@, arbitrary()));
        action
    } else {
        let now = OffsetDateTime::now_utc();
        handle_at(config, request, now)
    }
}

/// Takes the invocation up again with what the origin gave.
pub fn resume(
    config: &Config,
    invocation: Invocation,
    reply: Result<Response, TransportError>,
) -> (action: Action)
    ensures
        action@ == next_action(config@, invocation@, reply_model(reply)),
{
    let progress = match invocation.awaiting {
        Origin::Primary => Progress::PrimaryReplied(reply),
        Origin::Fallback => Progress::FallbackReplied(reply),
    };
    let step = send_request_to_s3(config, &invocation.request, progress);
    proceed(config, invocation.request, invocation.record, step)
}

} // verus!
