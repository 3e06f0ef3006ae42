//! Request methods: the fixed verbs and free-form custom tokens.

use vstd::prelude::*;
use crate::text::{ascii_upper, spec_upper};

verus! {

/// The request method applied to the transport.
///
/// Any token outside the fixed set is carried as `Custom`, upper-cased.
#[derive(Debug, Clone)]
pub enum RequestMethod {
    Delete,
    Get,
    Head,
    Options,
    Patch,
    Post,
    Put,
    Trace,
    Custom(String),
}

/// The literal token a method puts on the wire.
pub open spec fn spec_token(m: RequestMethod) -> Seq<char> {
    match m {
        RequestMethod::Delete => "DELETE"@,
        RequestMethod::Get => "GET"@,
        RequestMethod::Head => "HEAD"@,
        RequestMethod::Options => "OPTIONS"@,
        RequestMethod::Patch => "PATCH"@,
        RequestMethod::Post => "POST"@,
        RequestMethod::Put => "PUT"@,
        RequestMethod::Trace => "TRACE"@,
        RequestMethod::Custom(t) => t@,
    }
}

/// Which method a token denotes: the token is upper-cased, the eight
/// fixed verbs map to their variants, and anything else becomes a
/// `Custom` method carrying the upper-cased token.
pub open spec fn method_matches(m: RequestMethod, s: Seq<char>) -> bool {
    let u = spec_upper(s);
    if u == "DELETE"@ {
        m is Delete
    } else if u == "GET"@ {
        m is Get
    } else if u == "HEAD"@ {
        m is Head
    } else if u == "OPTIONS"@ {
        m is Options
    } else if u == "PATCH"@ {
        m is Patch
    } else if u == "POST"@ {
        m is Post
    } else if u == "PUT"@ {
        m is Put
    } else if u == "TRACE"@ {
        m is Trace
    } else {
        m matches RequestMethod::Custom(t) && t@ == u
    }
}

impl RequestMethod {
    /// The token this method puts on the wire.
    pub fn as_str(&self) -> (r: &str)
        ensures
            r@ == spec_token(*self),
    {
        match self {
            RequestMethod::Delete => "DELETE",
            RequestMethod::Get => "GET",
            RequestMethod::Head => "HEAD",
            RequestMethod::Options => "OPTIONS",
            RequestMethod::Patch => "PATCH",
            RequestMethod::Post => "POST",
            RequestMethod::Put => "PUT",
            RequestMethod::Trace => "TRACE",
            RequestMethod::Custom(t) => t.as_str(),
        }
    }

    /// Reads a method from its token, as `method_matches` describes.
    pub fn from_token(s: &str) -> (m: RequestMethod)
        ensures
            method_matches(m, s@),
    {
        let u = ascii_upper(s);
        if u == String::from_str("DELETE") {
            RequestMethod::Delete
        } else if u == String::from_str("GET") {
            RequestMethod::Get
        } else if u == String::from_str("HEAD") {
            RequestMethod::Head
        } else if u == String::from_str("OPTIONS") {
            RequestMethod::Options
        } else if u == String::from_str("PATCH") {
            RequestMethod::Patch
        } else if u == String::from_str("POST") {
            RequestMethod::Post
        } else if u == String::from_str("PUT") {
            RequestMethod::Put
        } else if u == String::from_str("TRACE") {
            RequestMethod::Trace
        } else {
            RequestMethod::Custom(u)
        }
    }
}

} // verus!
