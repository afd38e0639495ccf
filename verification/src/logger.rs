//! The request log: what is recorded of a request and its response, and
//! what is written out at the end.

use crate::config::{Config, ConfigModel};
use crate::http::{reply_model, ReplyModel, Request, RequestModel, Response, TransportError};
use crate::log_line::{
    error_message, LogLine, LogLineModel, LogLineV1Builder, LogLineV1BuilderModel,
};
use crate::warning::{Warning, WarningModel};
use time::OffsetDateTime;
use vstd::prelude::*;

verus! {

/// The status that is logged where no origin gave a response.
pub const INTERNAL_SERVER_ERROR: u16 = 500;

/// What is known of a request before it is handled: when it was taken up,
/// the URL as the client sent it, the address of the client and the method.
/// Nothing of a response is set.
pub open spec fn request_phase(
    request: RequestModel,
    now: OffsetDateTime,
) -> LogLineV1BuilderModel {
    LogLineV1BuilderModel {
        date_time: Some(now),
        url: Some(request.url.text()),
        ip: Some(request.client_ip),
        method: Some(Some(request.method)),
        bytes: None,
        status: None,
    }
}

/// What the result of the invocation adds to the record. A response gives
/// its declared length and its status. A failure gives status 500 and leaves
/// the length as it was.
pub open spec fn response_phase(
    log_line: LogLineV1BuilderModel,
    reply: ReplyModel,
) -> LogLineV1BuilderModel {
    match reply {
        Ok(response) => LogLineV1BuilderModel {
            bytes: Some(response.content_length),
            status: Some(Some(response.status)),
            ..log_line
        },
        Err(_) => LogLineV1BuilderModel { status: Some(Some(INTERNAL_SERVER_ERROR)), ..log_line },
    }
}

/// Collects data for the log from the request, as of the moment `now`.
pub fn collect_request_at(request: &Request, now: OffsetDateTime) -> (log_line: LogLineV1Builder)
    ensures
        log_line@ == request_phase(request@, now),
{
    let mut log_line = LogLineV1Builder::default();
    log_line.date_time(now).url(request.url.as_text()).ip(request.client_ip).method(
        Some(request.method.clone()),
    );
    log_line
}

/// Collects data for the log from the request, as of now. The moment is
/// read from the clock; everything else is decided by the request.
pub fn collect_request(request: &Request) -> (log_line: LogLineV1Builder)
    ensures
        log_line@.date_time is Some,
        log_line@ == request_phase(request@, log_line@.date_time->0),
{
    collect_request_at(request, OffsetDateTime::now_utc())
}

/// Collects data for the log from the result of the invocation, and hands
/// out a copy of the builder as it then stands.
pub fn collect_response(
    log_line: &mut LogLineV1Builder,
    response: &Result<Response, TransportError>,
) -> (collected: LogLineV1Builder)
    ensures
        final(log_line)@ == response_phase(old(log_line)@, reply_model(*response)),
        collected@ == final(log_line)@,
{
    if let Ok(response) = response {
        log_line.bytes(response.content_length).status(Some(response.status));
    } else {
        log_line.status(Some(INTERNAL_SERVER_ERROR));
    }
    log_line.clone()
}

/// The model of what is written to the logs for one request.
pub enum LogOutputModel {
    Line { endpoint: Seq<char>, line: LogLineModel },
    Warning(WarningModel),
}

/// What is written to the logs for one request: the record, or the warning
/// that stands in for it.
#[derive(Debug, PartialEq, Eq)]
pub enum LogOutput {
    /// The record, for the channel that takes the request log.
    Line { endpoint: String, line: LogLine },
    /// The record could not be built.
    Warning(Warning),
}

impl View for LogOutput {
    type V = LogOutputModel;

    open spec fn view(&self) -> LogOutputModel {
        match self {
            LogOutput::Line { endpoint, line } => LogOutputModel::Line {
                endpoint: endpoint@,
                line: line@,
            },
            LogOutput::Warning(warning) => LogOutputModel::Warning(warning@),
        }
    }
}

/// What finalizing a builder gives. Where the record can be built, it is
/// written, under its version, to the request log. Where a required field
/// is missing, a warning that names the field goes to the service log
/// instead.
pub open spec fn log_output(
    log_line: LogLineV1BuilderModel,
    config: ConfigModel,
) -> LogOutputModel {
    match log_line.build() {
        Ok(line) => LogOutputModel::Line {
            endpoint: config.request_logs_endpoint,
            line: LogLineModel::V1(line),
        },
        Err(error) => LogOutputModel::Warning(
            WarningModel {
                endpoint: config.service_logs_endpoint,
                message: "failed to serialize request log: "@ + error_message(error),
            },
        ),
    }
}

/// Finalizes the builder and says what is to be written: exactly one of the
/// record and the warning. A missing field never fails the invocation.
pub fn build_and_send_log(log_line: LogLineV1Builder, config: &Config) -> (output: LogOutput)
    ensures
        output@ == log_output(log_line@, config@),
{
    match log_line.build() {
        Ok(log) => LogOutput::Line {
            endpoint: config.request_logs_endpoint.clone(),
            line: LogLine::V1(log),
        },
        Err(error) => {
            let mut message = String::from_str("failed to serialize request log: ");
            message.append(error.message().as_str());
            LogOutput::Warning(Warning { endpoint: config.service_logs_endpoint.clone(), message })
        },
    }
}

} // verus!
