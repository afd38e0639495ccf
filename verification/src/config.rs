//! The operational parameters of the router.

use vstd::prelude::*;

verus! {

/// The model of a configuration.
pub struct ConfigModel {
    pub static_ttl: u32,
    pub primary_host: Seq<char>,
    pub fallback_host: Seq<char>,
    pub cloudfront_url: Seq<char>,
    pub request_logs_endpoint: Seq<char>,
    pub service_logs_endpoint: Seq<char>,
}

/// A snapshot of the parameters, taken once for an invocation and handed to
/// every stage by shared reference.
#[derive(Debug, PartialEq, Eq)]
pub struct Config {
    /// For how many seconds responses to forwarded requests may be cached.
    pub static_ttl: u32,
    /// The origin that is asked first.
    pub primary_host: String,
    /// The origin that is asked when the primary fails.
    pub fallback_host: String,
    /// The host of the distribution that serves the database dump.
    pub cloudfront_url: String,
    /// The channel that takes the request log.
    pub request_logs_endpoint: String,
    /// The channel that takes the warnings of the service.
    pub service_logs_endpoint: String,
}

impl View for Config {
    type V = ConfigModel;

    open spec fn view(&self) -> ConfigModel {
        ConfigModel {
            static_ttl: self.static_ttl,
            primary_host: self.primary_host@,
            fallback_host: self.fallback_host@,
            cloudfront_url: self.cloudfront_url@,
            request_logs_endpoint: self.request_logs_endpoint@,
            service_logs_endpoint: self.service_logs_endpoint@,
        }
    }
}

impl Clone for Config {
    fn clone(&self) -> (copy: Self)
        ensures
            copy@ == self@,
    {
        Config {
            static_ttl: self.static_ttl,
            primary_host: self.primary_host.clone(),
            fallback_host: self.fallback_host.clone(),
            cloudfront_url: self.cloudfront_url.clone(),
            request_logs_endpoint: self.request_logs_endpoint.clone(),
            service_logs_endpoint: self.service_logs_endpoint.clone(),
        }
    }
}

} // verus!
