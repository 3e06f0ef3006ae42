//! Failure taxonomy of the transfer engine.

use vstd::prelude::*;

verus! {

/// Why a transfer produced no result.
///
/// - `Configuration`: the transport rejected a setting at setup (for
///   instance an invalid URL); fatal to the single request.
/// - `MaxSizeExceeded`: the byte sink refused further body bytes because
///   the configured response-size ceiling was crossed, and the transfer
///   was aborted; kept distinct from a generic transport failure so a
///   caller can give a specific message.
/// - `Transport`: any other failure the transport reported for this
///   transfer (name resolution, connect, TLS, timeout), carrying the
///   transport's own description.
/// - `Parse`: the collected header bytes broke the wire-format contract
///   (a status line with a non-numeric code, or bytes that are not valid
///   text), carrying the offending input.
#[derive(Debug, Clone)]
pub enum HttpstatError {
    Configuration(String),
    MaxSizeExceeded,
    Transport(String),
    Parse(String),
}

/// The human-readable description each error carries.
pub open spec fn spec_message(e: HttpstatError) -> Seq<char> {
    match e {
        HttpstatError::Configuration(d) => d@,
        HttpstatError::MaxSizeExceeded => "Maximum response size reached"@,
        HttpstatError::Transport(d) => d@,
        HttpstatError::Parse(d) => d@,
    }
}

impl HttpstatError {
    /// The description of this error, for display by the caller.
    pub fn message(&self) -> (r: String)
        ensures
            r@ == spec_message(*self),
    {
        match self {
            HttpstatError::Configuration(d) => d.clone(),
            HttpstatError::MaxSizeExceeded => String::from_str("Maximum response size reached"),
            HttpstatError::Transport(d) => d.clone(),
            HttpstatError::Parse(d) => d.clone(),
        }
    }
}

} // verus!
