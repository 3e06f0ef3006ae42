//! The transfer context: the buffers the engine's callbacks mutate
//! during one transfer, owned exclusively by the engine.

use vstd::prelude::*;
use vstd::utf8::encode_utf8;
use crate::config::Config;

verus! {

/// Collects the bytes of one transfer and serves the outgoing body.
///
/// The body and header buffers start empty and grow only through
/// [`Collector::write`] and [`Collector::header`]; the configured
/// request body, if any, is handed out in order through
/// [`Collector::read`]. Crossing the configured response-size ceiling
/// makes `write` report zero accepted bytes, the abort signal of the
/// transport.
pub struct Collector {
    max_response_size: Option<usize>,
    upload: Option<Vec<u8>>,
    read_pos: usize,
    body: Vec<u8>,
    headers: Vec<u8>,
}

impl Collector {
    /// The collected response body bytes.
    pub closed spec fn spec_body(self) -> Seq<u8> {
        self.body@
    }

    /// The collected raw header bytes.
    pub closed spec fn spec_headers(self) -> Seq<u8> {
        self.headers@
    }

    /// The outgoing body bytes, if a body was configured.
    pub closed spec fn spec_upload(self) -> Option<Seq<u8>> {
        match self.upload {
            Some(u) => Some(u@),
            None => None,
        }
    }

    /// How many outgoing body bytes have been handed out already.
    pub closed spec fn spec_read_pos(self) -> nat {
        self.read_pos as nat
    }

    /// The configured response-size ceiling.
    pub closed spec fn spec_max(self) -> Option<usize> {
        self.max_response_size
    }

    /// A fresh collector for one transfer: empty buffers, the body to
    /// send taken from the configuration as its text's bytes.
    pub fn new(config: &Config) -> (c: Collector)
        ensures
            c.spec_body() == Seq::<u8>::empty(),
            c.spec_headers() == Seq::<u8>::empty(),
            c.spec_read_pos() == 0,
            c.spec_max() == config.max_response_size,
            c.spec_upload() == match config.data {
                Some(d) => Some(encode_utf8(d@)),
                None => None::<Seq<u8>>,
            },
    {
        let upload = match &config.data {
            Some(d) => Some(d.as_str().as_bytes_vec()),
            None => None,
        };
        Collector {
            max_response_size: config.max_response_size,
            upload,
            read_pos: 0,
            body: Vec::new(),
            headers: Vec::new(),
        }
    }

    /// The byte sink. Appends the whole chunk to the body buffer; once
    /// the configured ceiling is crossed by the buffer as appended, it
    /// reports zero accepted bytes, which the transport takes as a write
    /// failure and aborts the transfer.
    pub fn write(&mut self, data: &[u8]) -> (accepted: usize)
        ensures
            final(self).spec_body() == old(self).spec_body() + data@,
            final(self).spec_headers() == old(self).spec_headers(),
            final(self).spec_upload() == old(self).spec_upload(),
            final(self).spec_read_pos() == old(self).spec_read_pos(),
            final(self).spec_max() == old(self).spec_max(),
            accepted == spec_accepted(
                old(self).spec_max(),
                old(self).spec_body().len() + data@.len(),
                data@.len(),
            ),
    {
        self.body.extend_from_slice(data);
        match self.max_response_size {
            Some(m) => if self.body.len() > m {
                0
            } else {
                data.len()
            },
            None => data.len(),
        }
    }

    /// The byte source. Copies up to `max` of the remaining outgoing
    /// body bytes, in order, and advances past them; with no body, or an
    /// exhausted one, it yields nothing.
    pub fn read(&mut self, max: usize) -> (chunk: Vec<u8>)
        ensures
            final(self).spec_body() == old(self).spec_body(),
            final(self).spec_headers() == old(self).spec_headers(),
            final(self).spec_upload() == old(self).spec_upload(),
            final(self).spec_max() == old(self).spec_max(),
            match old(self).spec_upload() {
                None => chunk@ == Seq::<u8>::empty() && final(self).spec_read_pos() == old(
                    self,
                ).spec_read_pos(),
                Some(u) => chunk@ == spec_read_chunk(u, old(self).spec_read_pos(), max as nat)
                    && final(self).spec_read_pos() == spec_read_end(
                    u,
                    old(self).spec_read_pos(),
                    max as nat,
                ),
            },
    {
        let mut chunk: Vec<u8> = Vec::new();
        let new_pos: usize;
        match &self.upload {
            None => {
                new_pos = self.read_pos;
            },
            Some(u) => {
                let ulen = u.len();
                let p = if self.read_pos <= ulen {
                    self.read_pos
                } else {
                    ulen
                };
                let avail = ulen - p;
                let n = if max <= avail {
                    max
                } else {
                    avail
                };
                let mut k: usize = 0;
                while k < n
                    invariant
                        k <= n,
                        ulen == u@.len(),
                        p + n <= ulen,
                        chunk@ == u@.subrange(p as int, p + k),
                    decreases n - k,
                {
                    chunk.push(u[p + k]);
                    proof {
                        assert(chunk@ =~= u@.subrange(p as int, p + k + 1));
                    }
                    k = k + 1;
                }
                new_pos = p + n;
            },
        }
        self.read_pos = new_pos;
        chunk
    }

    /// The header sink. Appends each raw header line's bytes verbatim
    /// and always accepts them; the size ceiling never applies to
    /// headers.
    pub fn header(&mut self, data: &[u8]) -> (accepted: bool)
        ensures
            final(self).spec_headers() == old(self).spec_headers() + data@,
            final(self).spec_body() == old(self).spec_body(),
            final(self).spec_upload() == old(self).spec_upload(),
            final(self).spec_read_pos() == old(self).spec_read_pos(),
            final(self).spec_max() == old(self).spec_max(),
            accepted,
    {
        self.headers.extend_from_slice(data);
        true
    }

    /// Surrenders the collected buffers: the body bytes and the raw
    /// header bytes, in that order.
    pub fn into_parts(self) -> (r: (Vec<u8>, Vec<u8>))
        ensures
            r.0@ == self.spec_body(),
            r.1@ == self.spec_headers(),
    {
        (self.body, self.headers)
    }
}

/// How many bytes the sink reports accepted: all of them, unless a
/// ceiling is configured and the buffer as appended exceeds it, in which
/// case none.
pub open spec fn spec_accepted(max: Option<usize>, total: nat, offered: nat) -> nat {
    match max {
        Some(m) => if total > m {
            0
        } else {
            offered
        },
        None => offered,
    }
}

/// The clamped cursor: never past the end of the outgoing body.
pub open spec fn spec_read_start(u: Seq<u8>, pos: nat) -> nat {
    if pos <= u.len() {
        pos
    } else {
        u.len()
    }
}

/// Where the cursor stands after handing out up to `max` bytes.
pub open spec fn spec_read_end(u: Seq<u8>, pos: nat, max: nat) -> nat {
    let p = spec_read_start(u, pos);
    if max <= u.len() - p {
        p + max
    } else {
        u.len()
    }
}

/// The bytes one read hands out: the outgoing body from the cursor up
/// to `max` bytes or its end.
pub open spec fn spec_read_chunk(u: Seq<u8>, pos: nat, max: nat) -> Seq<u8> {
    u.subrange(spec_read_start(u, pos) as int, spec_read_end(u, pos, max) as int)
}

} // verus!
