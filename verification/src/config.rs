//! The immutable request configuration, constructed once per invocation.

use vstd::prelude::*;
use crate::header::Header;
use crate::method::RequestMethod;

verus! {

/// Everything the engine needs to know to issue one request.
///
/// - `location`: follow redirects.
/// - `connect_timeout`: bound on connection establishment, in
///   milliseconds.
/// - `data`: optional request body.
/// - `headers`: optional ordered list of header pairs to attach;
///   duplicates permitted, insertion order preserved.
/// - `insecure`: disable TLS peer and host verification.
/// - `max_response_size`: byte ceiling on the response body; crossing it
///   aborts the transfer.
/// - `verbose`: diagnostic passthrough to the transport.
#[derive(Debug, Clone)]
pub struct Config {
    pub location: bool,
    pub connect_timeout: Option<u64>,
    pub request_method: RequestMethod,
    pub data: Option<String>,
    pub headers: Option<Vec<Header>>,
    pub insecure: bool,
    pub url: String,
    pub verbose: bool,
    pub max_response_size: Option<usize>,
}

impl Default for Config {
    /// A GET of the empty URL with every option off.
    fn default() -> (c: Config)
        ensures
            !c.location,
            c.connect_timeout is None,
            c.request_method is Get,
            c.data is None,
            c.headers is None,
            !c.insecure,
            c.url@ == Seq::<char>::empty(),
            !c.verbose,
            c.max_response_size is None,
    {
        Config {
            location: false,
            connect_timeout: None,
            request_method: RequestMethod::Get,
            data: None,
            headers: None,
            insecure: false,
            url: String::new(),
            verbose: false,
            max_response_size: None,
        }
    }
}

} // verus!
