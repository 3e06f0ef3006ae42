//! The phase timing model: five non-overlapping intervals derived from
//! five cumulative timer readings.

use vstd::prelude::*;

verus! {

/// Cumulative timer readings and the intervals derived from them, in
/// microseconds.
///
/// The transport reports five cumulative durations measured from the
/// start of the request — `namelookup`, `connect`, `pretransfer`,
/// `starttransfer`, `total` — monotonically non-decreasing in that
/// order. Successive subtraction turns them into five non-overlapping
/// phase intervals.
#[derive(Debug, Clone, Copy, PartialEq, Eq, Structural)]
pub struct Timing {
    pub namelookup: u64,
    pub connect: u64,
    pub pretransfer: u64,
    pub starttransfer: u64,
    pub total: u64,
    pub dns_resolution: u64,
    pub tcp_connection: u64,
    pub tls_connection: u64,
    pub server_processing: u64,
    pub content_transfer: u64,
}

/// The cumulative readings are ordered and the intervals are their
/// successive differences.
pub open spec fn derived_consistent(t: Timing) -> bool {
    &&& t.namelookup <= t.connect <= t.pretransfer <= t.starttransfer <= t.total
    &&& t.dns_resolution == t.namelookup
    &&& t.tcp_connection as int == t.connect as int - t.namelookup as int
    &&& t.tls_connection as int == t.pretransfer as int - t.connect as int
    &&& t.server_processing as int == t.starttransfer as int - t.pretransfer as int
    &&& t.content_transfer as int == t.total as int - t.starttransfer as int
}

impl Timing {
    /// Derives the five phase intervals from the five cumulative
    /// readings.
    ///
    /// The ordering demanded here is the transport's contract; a
    /// violation (a clock anomaly) would make a subtraction underflow,
    /// which is surfaced by the caller rather than wrapped silently.
    pub fn new(namelookup: u64, connect: u64, pretransfer: u64, starttransfer: u64, total: u64) -> (t: Timing)
        requires
            namelookup <= connect,
            connect <= pretransfer,
            pretransfer <= starttransfer,
            starttransfer <= total,
        ensures
            t.namelookup == namelookup,
            t.connect == connect,
            t.pretransfer == pretransfer,
            t.starttransfer == starttransfer,
            t.total == total,
            derived_consistent(t),
    {
        Timing {
            namelookup,
            connect,
            pretransfer,
            starttransfer,
            total,
            dns_resolution: namelookup,
            tcp_connection: connect - namelookup,
            tls_connection: pretransfer - connect,
            server_processing: starttransfer - pretransfer,
            content_transfer: total - starttransfer,
        }
    }
}

/// For every monotonically non-decreasing cumulative quintuple, the five
/// derived intervals are each non-negative and sum exactly to the total:
/// the phases partition the whole transfer without overlap.
pub proof fn lemma_intervals_partition_total(t: Timing)
    requires
        derived_consistent(t),
    ensures
        t.dns_resolution as int >= 0,
        t.tcp_connection as int >= 0,
        t.tls_connection as int >= 0,
        t.server_processing as int >= 0,
        t.content_transfer as int >= 0,
        t.dns_resolution as int + t.tcp_connection as int + t.tls_connection as int
            + t.server_processing as int + t.content_transfer as int == t.total as int,
{
}

} // verus!
