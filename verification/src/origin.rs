//! The choice of the origin: the primary is asked first, and the fallback
//! once, when the primary fails.
//!
//! Asking an origin is left to the caller. The selector says which origin to
//! ask with which request, takes what the origin gave, and says how to go on.

use crate::config::{Config, ConfigModel};
use crate::http::{
    reply_model, temporary_redirect_to, ReplyModel, Request, RequestModel, Response,
    ResponseModel, TransportError,
};
use crate::text::{decimal, decimal_text};
use crate::warning::{warning_model, Warning, WarningModel};
use vstd::prelude::*;

verus! {

/// The origins that hold the content.
#[derive(Clone, Copy, Debug, PartialEq, Eq, Structural)]
pub enum Origin {
    Primary,
    Fallback,
}

/// The lowest status that counts as a failure of the origin.
pub const SERVER_ERROR: u16 = 500;

/// Whether what the primary gave sends the request on to the fallback: a
/// status of 500 or above, or no response at all.
pub open spec fn needs_fallback(reply: ReplyModel) -> bool {
    match reply {
        Ok(response) => response.status >= SERVER_ERROR,
        Err(_) => true,
    }
}

/// The warning that records why the primary was given up.
pub open spec fn primary_failure(config: ConfigModel, reply: ReplyModel) -> WarningModel {
    WarningModel {
        endpoint: config.service_logs_endpoint,
        message: match reply {
            Ok(response) => "Request to host "@ + config.primary_host
                + " returned status code "@ + decimal(response.status as nat),
            Err(error) => "Request to host "@ + config.primary_host + " failed: "@ + error,
        },
    }
}

/// The end of the path of the database dump, which is too large to be
/// served from here.
pub open spec fn db_dump_suffix() -> Seq<char> {
    "db-dump.tar.gz"@
}

/// Whether a path is that of the database dump.
pub open spec fn is_db_dump(path: Seq<char>) -> bool {
    db_dump_suffix().is_suffix_of(path)
}

/// The redirect to the distribution that serves the database dump.
pub open spec fn db_dump_redirect(config: ConfigModel) -> ResponseModel {
    temporary_redirect_to("https://"@ + config.cloudfront_url + "/db-dump.tar.gz"@)
}

/// Whether the path of the request is that of the database dump.
pub fn asks_for_db_dump(request: &Request) -> (found: bool)
    ensures
        found == is_db_dump(request@.url.path),
{
    crate::text::ends_with(request.url.path.as_str(), "db-dump.tar.gz")
}

/// Sends the client to the distribution that serves the database dump: a
/// temporary redirect to `/db-dump.tar.gz` on the configured host. No origin
/// is asked.
pub fn redirect_db_dump_to_cloudfront(config: &Config) -> (response: Response)
    ensures
        response@ == db_dump_redirect(config@),
{
    let mut url = String::from_str("https://");
    url.append(config.cloudfront_url.as_str());
    url.append("/db-dump.tar.gz");
    Response::temporary_redirect(url.as_str())
}

/// The model of how far the exchange with the origins has come.
pub enum ProgressModel {
    Start,
    PrimaryReplied(ReplyModel),
    FallbackReplied(ReplyModel),
}

/// How far the exchange with the origins has come.
#[derive(Debug, PartialEq, Eq)]
pub enum Progress {
    /// No origin was asked yet.
    Start,
    /// The primary was asked, and this is what it gave.
    PrimaryReplied(Result<Response, TransportError>),
    /// The fallback was asked, and this is what it gave.
    FallbackReplied(Result<Response, TransportError>),
}

impl View for Progress {
    type V = ProgressModel;

    open spec fn view(&self) -> ProgressModel {
        match self {
            Progress::Start => ProgressModel::Start,
            Progress::PrimaryReplied(reply) => ProgressModel::PrimaryReplied(reply_model(*reply)),
            Progress::FallbackReplied(reply) => ProgressModel::FallbackReplied(
                reply_model(*reply),
            ),
        }
    }
}

/// The model of a step.
pub enum StepModel {
    Send { origin: Origin, host: Seq<char>, request: RequestModel, warning: Option<WarningModel> },
    Done(ReplyModel),
}

/// What is to happen next in the exchange with the origins.
#[derive(Debug, PartialEq, Eq)]
pub enum Step {
    /// `request` is to be sent to `host`; what comes back is to be handed in
    /// as the reply of `origin`. The warning, where there is one, is to be
    /// logged.
    Send { origin: Origin, host: String, request: Request, warning: Option<Warning> },
    /// The exchange is over, with this result.
    Done(Result<Response, TransportError>),
}

impl View for Step {
    type V = StepModel;

    open spec fn view(&self) -> StepModel {
        match self {
            Step::Send { origin, host, request, warning } => StepModel::Send {
                origin: *origin,
                host: host@,
                request: request@,
                warning: warning_model(*warning),
            },
            Step::Done(reply) => StepModel::Done(reply_model(*reply)),
        }
    }
}

/// The request as it goes to an origin: without its body.
pub open spec fn without_body(request: RequestModel) -> RequestModel {
    RequestModel { body: None, ..request }
}

/// The rule of the selector. At the start the request goes to the primary.
/// What the primary gave is final unless it is a failure; then the request
/// goes to the fallback, with a warning. What the fallback gave is final,
/// whatever it is.
pub open spec fn next_step(
    config: ConfigModel,
    request: RequestModel,
    progress: ProgressModel,
) -> StepModel {
    match progress {
        ProgressModel::Start => StepModel::Send {
            origin: Origin::Primary,
            host: config.primary_host,
            request: without_body(request),
            warning: None,
        },
        ProgressModel::PrimaryReplied(reply) => if needs_fallback(reply) {
            StepModel::Send {
                origin: Origin::Fallback,
                host: config.fallback_host,
                request: without_body(request),
                warning: Some(primary_failure(config, reply)),
            }
        } else {
            StepModel::Done(reply)
        },
        ProgressModel::FallbackReplied(reply) => StepModel::Done(reply),
    }
}

fn warn_of_primary_failure(
    config: &Config,
    reply: &Result<Response, TransportError>,
) -> (warning: Warning)
    ensures
        warning@ == primary_failure(config@, reply_model(*reply)),
{
    let mut message = String::from_str("Request to host ");
    message.append(config.primary_host.as_str());
    match reply {
        Ok(response) => {
            message.append(" returned status code ");
            message.append(decimal_text(response.status).as_str());
        },
        Err(error) => {
            message.append(" failed: ");
            message.append(error.message.as_str());
        },
    }
    Warning { endpoint: config.service_logs_endpoint.clone(), message }
}

/// Forwards the request of a client to the origins, one step at a time.
///
/// Called with `Progress::Start`, it asks for the request to be sent to the
/// primary origin. Called with what an origin gave, it either ends the
/// exchange with that result or, after a failure of the primary, asks for
/// the request to be sent to the fallback. The request that goes out is a
/// copy without body; `request` itself is kept for a second attempt.
pub fn send_request_to_s3(config: &Config, request: &Request, progress: Progress) -> (step: Step)
    ensures
        step@ == next_step(config@, request@, progress@),
{
    match progress {
        Progress::Start => Step::Send {
            origin: Origin::Primary,
            host: config.primary_host.clone(),
            request: request.clone_without_body(),
            warning: None,
        },
        Progress::PrimaryReplied(reply) => {
            let failed = match &reply {
                Ok(response) => response.status >= SERVER_ERROR,
                Err(_) => true,
            };
            if failed {
                let warning = warn_of_primary_failure(config, &reply);
                Step::Send {
                    origin: Origin::Fallback,
                    host: config.fallback_host.clone(),
                    request: request.clone_without_body(),
                    warning: Some(warning),
                }
            } else {
                Step::Done(reply)
            }
        },
        Progress::FallbackReplied(reply) => Step::Done(reply),
    }
}

} // verus!
