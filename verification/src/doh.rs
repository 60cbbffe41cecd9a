//! DNS-over-HTTPS: the request for a query, and what comes of it.

use vstd::prelude::*;

use crate::provider;
use crate::provider::doh_url;
use crate::provider::DnsProvider;
use crate::text;

verus! {

/// The media type of DNS messages.
pub const DNS_MESSAGE: &'static str = "application/dns-message";

/// How a query is sent: a POST of the query itself to a URL, with headers.
#[derive(Debug)]
pub struct DohRequest {
    pub method: &'static str,
    pub url: &'static str,
    pub content_type: &'static str,
    pub accept: &'static str,
}

/// The request that carries a query to a provider.
pub fn doh_request(target: DnsProvider) -> (r: DohRequest)
    ensures
        r.method@ == "POST"@,
        r.url@ == provider::provider_url(target),
        r.content_type@ == DNS_MESSAGE@,
        r.accept@ == DNS_MESSAGE@,
{
    DohRequest {
        method: "POST",
        url: doh_url(target),
        content_type: DNS_MESSAGE,
        accept: DNS_MESSAGE,
    }
}

/// What came of a request.
pub enum DohOutcome {
    /// The body of a successful response.
    Body(Vec<u8>),
    /// A successful response whose body could not be read, for this reason.
    Unread(String),
    /// A response with an error status, and the error in words.
    Status(u16, String),
    /// No response, for this reason.
    Failed(String),
}

/// What came of a query. The body of a successful response is taken as the
/// answer; that a server is overloaded is said in few words.
pub fn doh_resolve_fallible(outcome: DohOutcome) -> (r: Result<Vec<u8>, String>)
    ensures
        match outcome {
            DohOutcome::Body(body) => r == Ok::<Vec<u8>, String>(body),
            DohOutcome::Unread(e) => r matches Err(m) && m@ == "read: "@ + e@,
            DohOutcome::Status(status, e) => r matches Err(m) && m@ == (if status == 503 {
                "server 503"@
            } else {
                e@
            }),
            DohOutcome::Failed(e) => r == Err::<Vec<u8>, String>(e),
        },
{
    match outcome {
        DohOutcome::Body(body) => Ok(body),
        DohOutcome::Unread(e) => Err(text::joined("read: ", e.as_str())),
        DohOutcome::Status(status, e) => {
            if status == 503 {
                Err("server 503".to_owned())
            } else {
                Err(e)
            }
        },
        DohOutcome::Failed(e) => Err(e),
    }
}

} // verus!
