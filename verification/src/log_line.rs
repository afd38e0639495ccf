//! The record that is logged for a request, and the builder that gathers its
//! fields while the request is handled.

use crate::http::IpAddress;
use time::OffsetDateTime;
use vstd::prelude::*;

verus! {

/// The model of a finished record.
pub struct LogLineV1Model {
    pub date_time: OffsetDateTime,
    pub url: Seq<char>,
    pub ip: Option<IpAddress>,
    pub method: Option<Seq<char>>,
    pub bytes: Option<usize>,
    pub status: Option<u16>,
}

/// The first version of the record. Its fields are set once, by the builder,
/// and can only be read afterwards.
#[derive(Debug, PartialEq, Eq)]
pub struct LogLineV1 {
    date_time: OffsetDateTime,
    url: String,
    ip: Option<IpAddress>,
    method: Option<String>,
    bytes: Option<usize>,
    status: Option<u16>,
}

impl View for LogLineV1 {
    type V = LogLineV1Model;

    closed spec fn view(&self) -> LogLineV1Model {
        LogLineV1Model {
            date_time: self.date_time,
            url: self.url@,
            ip: self.ip,
            method: match self.method {
                Some(method) => Some(method@),
                None => None,
            },
            bytes: self.bytes,
            status: self.status,
        }
    }
}

impl LogLineV1 {
    /// When the request was taken up.
    pub fn date_time(&self) -> (date_time: OffsetDateTime)
        ensures
            date_time == self@.date_time,
    {
        self.date_time
    }

    /// The URL that the client asked for.
    pub fn url(&self) -> (url: &String)
        ensures
            url@ == self@.url,
    {
        &self.url
    }

    /// The address of the client, where it is known.
    pub fn ip(&self) -> (ip: Option<IpAddress>)
        ensures
            ip == self@.ip,
    {
        self.ip
    }

    /// The method of the request, where it was observed.
    pub fn method(&self) -> (method: Option<&String>)
        ensures
            match method {
                Some(method) => self@.method == Some(method@),
                None => self@.method is None,
            },
    {
        self.method.as_ref()
    }

    /// The length of the response's body, where the response declared it.
    pub fn bytes(&self) -> (bytes: Option<usize>)
        ensures
            bytes == self@.bytes,
    {
        self.bytes
    }

    /// The status of the response, where there was one.
    pub fn status(&self) -> (status: Option<u16>)
        ensures
            status == self@.status,
    {
        self.status
    }
}

/// The model of a versioned record.
pub enum LogLineModel {
    V1(LogLineV1Model),
}

/// A record together with the version of its schema.
#[derive(Debug, PartialEq, Eq)]
pub enum LogLine {
    V1(LogLineV1),
}

impl View for LogLine {
    type V = LogLineModel;

    open spec fn view(&self) -> LogLineModel {
        match self {
            LogLine::V1(line) => LogLineModel::V1(line@),
        }
    }
}

impl LogLine {
    /// The tag that names the schema of the record.
    pub fn version(&self) -> (version: &'static str)
        ensures
            version@ == "V1"@,
    {
        match self {
            LogLine::V1(_) => "V1",
        }
    }
}

/// The fields that a record cannot be built without.
#[derive(Clone, Copy, Debug, PartialEq, Eq, Structural)]
pub enum Field {
    DateTime,
    Url,
    Ip,
    Method,
    Status,
}

/// The name under which a field is logged.
pub open spec fn field_name(field: Field) -> Seq<char> {
    match field {
        Field::DateTime => "date_time"@,
        Field::Url => "url"@,
        Field::Ip => "ip"@,
        Field::Method => "method"@,
        Field::Status => "status"@,
    }
}

impl Field {
    /// The name under which the field is logged.
    pub fn name(&self) -> (name: &'static str)
        ensures
            name@ == field_name(*self),
    {
        match self {
            Field::DateTime => "date_time",
            Field::Url => "url",
            Field::Ip => "ip",
            Field::Method => "method",
            Field::Status => "status",
        }
    }
}

/// Why a record could not be built.
#[derive(Clone, Copy, Debug, PartialEq, Eq, Structural)]
pub enum LogLineV1BuilderError {
    /// The field was never set.
    UninitializedField(Field),
}

/// The sentence that describes the error.
pub open spec fn error_message(error: LogLineV1BuilderError) -> Seq<char> {
    match error {
        LogLineV1BuilderError::UninitializedField(field) => "`"@ + field_name(field)
            + "` must be initialized"@,
    }
}

impl LogLineV1BuilderError {
    /// The sentence that describes the error.
    pub fn message(&self) -> (message: String)
        ensures
            message@ == error_message(*self),
    {
        match self {
            LogLineV1BuilderError::UninitializedField(field) => {
                let mut message = String::from_str("`");
                message.append(field.name());
                message.append("` must be initialized");
                message
            },
        }
    }
}

/// The model of a builder: for each field, whether it was set and to what.
pub struct LogLineV1BuilderModel {
    pub date_time: Option<OffsetDateTime>,
    pub url: Option<Seq<char>>,
    pub ip: Option<Option<IpAddress>>,
    pub method: Option<Option<Seq<char>>>,
    pub bytes: Option<Option<usize>>,
    pub status: Option<Option<u16>>,
}

impl LogLineV1BuilderModel {
    /// The builder on which nothing was set.
    pub open spec fn empty() -> Self {
        LogLineV1BuilderModel {
            date_time: None,
            url: None,
            ip: None,
            method: None,
            bytes: None,
            status: None,
        }
    }

    /// The required field that is missing, the first in the order of the
    /// record where several are.
    pub open spec fn first_missing(self) -> Option<Field> {
        if self.date_time is None {
            Some(Field::DateTime)
        } else if self.url is None {
            Some(Field::Url)
        } else if self.ip is None {
            Some(Field::Ip)
        } else if self.method is None {
            Some(Field::Method)
        } else if self.status is None {
            Some(Field::Status)
        } else {
            None
        }
    }

    /// What building gives: the record of the values that were set, with no
    /// byte count where none was set, or the error that names the first
    /// required field that is missing.
    pub open spec fn build(self) -> Result<LogLineV1Model, LogLineV1BuilderError> {
        match self.first_missing() {
            Some(field) => Err(LogLineV1BuilderError::UninitializedField(field)),
            None => Ok(
                LogLineV1Model {
                    date_time: self.date_time->0,
                    url: self.url->0,
                    ip: self.ip->0,
                    method: self.method->0,
                    bytes: match self.bytes {
                        Some(bytes) => bytes,
                        None => None,
                    },
                    status: self.status->0,
                },
            ),
        }
    }
}

/// Gathers the fields of a record. Each field can be set any number of
/// times, in any order; the last value counts.
#[derive(Debug, PartialEq, Eq)]
pub struct LogLineV1Builder {
    date_time: Option<OffsetDateTime>,
    url: Option<String>,
    ip: Option<Option<IpAddress>>,
    method: Option<Option<String>>,
    bytes: Option<Option<usize>>,
    status: Option<Option<u16>>,
}

impl View for LogLineV1Builder {
    type V = LogLineV1BuilderModel;

    closed spec fn view(&self) -> LogLineV1BuilderModel {
        LogLineV1BuilderModel {
            date_time: self.date_time,
            url: match self.url {
                Some(url) => Some(url@),
                None => None,
            },
            ip: self.ip,
            method: match self.method {
                Some(Some(method)) => Some(Some(method@)),
                Some(None) => Some(None),
                None => None,
            },
            bytes: self.bytes,
            status: self.status,
        }
    }
}

impl Default for LogLineV1Builder {
    fn default() -> (builder: Self)
        ensures
            builder@ == LogLineV1BuilderModel::empty(),
    {
        LogLineV1Builder {
            date_time: None,
            url: None,
            ip: None,
            method: None,
            bytes: None,
            status: None,
        }
    }
}

impl Clone for LogLineV1Builder {
    fn clone(&self) -> (copy: Self)
        ensures
            copy@ == self@,
    {
        LogLineV1Builder {
            date_time: self.date_time,
            url: match &self.url {
                Some(url) => Some(url.clone()),
                None => None,
            },
            ip: self.ip,
            method: match &self.method {
                Some(Some(method)) => Some(Some(method.clone())),
                Some(None) => Some(None),
                None => None,
            },
            bytes: self.bytes,
            status: self.status,
        }
    }
}

impl LogLineV1Builder {
    /// Sets the moment at which the request was taken up.
    pub fn date_time(&mut self, value: OffsetDateTime) -> (builder: &mut Self)
        ensures
            builder@ == (LogLineV1BuilderModel { date_time: Some(value), ..old(self)@ }),
            *final(self) == *final(builder),
    {
        self.date_time = Some(value);
        self
    }

    /// Sets the URL that the client asked for.
    pub fn url(&mut self, value: String) -> (builder: &mut Self)
        ensures
            builder@ == (LogLineV1BuilderModel { url: Some(value@), ..old(self)@ }),
            *final(self) == *final(builder),
    {
        self.url = Some(value);
        self
    }

    /// Sets the address of the client, or that it is not known.
    pub fn ip(&mut self, value: Option<IpAddress>) -> (builder: &mut Self)
        ensures
            builder@ == (LogLineV1BuilderModel { ip: Some(value), ..old(self)@ }),
            *final(self) == *final(builder),
    {
        self.ip = Some(value);
        self
    }

    /// Sets the method of the request, or that none was observed.
    pub fn method(&mut self, value: Option<String>) -> (builder: &mut Self)
        ensures
            builder@ == (LogLineV1BuilderModel {
                method: Some(
                    match value {
                        Some(method) => Some(method@),
                        None => None,
                    },
                ),
                ..old(self)@
            }),
            *final(self) == *final(builder),
    {
        self.method = Some(value);
        self
    }

    /// Sets the length of the response's body, or that it is not known.
    pub fn bytes(&mut self, value: Option<usize>) -> (builder: &mut Self)
        ensures
            builder@ == (LogLineV1BuilderModel { bytes: Some(value), ..old(self)@ }),
            *final(self) == *final(builder),
    {
        self.bytes = Some(value);
        self
    }

    /// Sets the status of the response, or that there is none.
    pub fn status(&mut self, value: Option<u16>) -> (builder: &mut Self)
        ensures
            builder@ == (LogLineV1BuilderModel { status: Some(value), ..old(self)@ }),
            *final(self) == *final(builder),
    {
        self.status = Some(value);
        self
    }

    /// Builds the record, or names the first required field that was never
    /// set. The builder itself is left as it is.
    pub fn build(&self) -> (result: Result<LogLineV1, LogLineV1BuilderError>)
        ensures
            match result {
                Ok(line) => self@.build() == Ok::<LogLineV1Model, LogLineV1BuilderError>(line@),
                Err(error) => self@.build() == Err::<LogLineV1Model, LogLineV1BuilderError>(error),
            },
    {
        let date_time = match self.date_time {
            Some(date_time) => date_time,
            None => {
                return Err(LogLineV1BuilderError::UninitializedField(Field::DateTime));
            },
        };
        let url = match &self.url {
            Some(url) => url.clone(),
            None => {
                return Err(LogLineV1BuilderError::UninitializedField(Field::Url));
            },
        };
        let ip = match self.ip {
            Some(ip) => ip,
            None => {
                return Err(LogLineV1BuilderError::UninitializedField(Field::Ip));
            },
        };
        let method = match &self.method {
            Some(Some(method)) => Some(method.clone()),
            Some(None) => None,
            None => {
                return Err(LogLineV1BuilderError::UninitializedField(Field::Method));
            },
        };
        let bytes = match self.bytes {
            Some(bytes) => bytes,
            None => None,
        };
        let status = match self.status {
            Some(status) => status,
            None => {
                return Err(LogLineV1BuilderError::UninitializedField(Field::Status));
            },
        };
        Ok(LogLineV1 { date_time, url, ip, method, bytes, status })
    }
}

} // verus!
