//! The parsed head of a request and the rules by which a scan becomes one.

use vstd::prelude::*;
use vstd::std_specs::convert::FromSpec;
use crate::fault::HttpFault;
use crate::method::{verb, Method};
use crate::scan::{fields, request_scan, scan_request, scan_view, Field, Scan, ScanView};

verus! {

/// A request head as mathematical values.
pub struct Head {
    /// The method token as it stands in the buffer.
    pub method: Seq<char>,
    /// The path token.
    pub path: Seq<char>,
    /// The minor version: 0 for HTTP/1.0, 1 for HTTP/1.1.
    pub version: u8,
    /// The header fields in the order of their lines.
    pub headers: Seq<Field>,
    /// The offset in the buffer at which the body begins.
    pub body_offset: nat,
    /// The bytes from that offset to the end of the buffer.
    pub body: Seq<u8>,
}

/// The three outcomes of a parse as mathematical values: a head, `Ok(None)`
/// where more bytes are needed, or the fault that rejects the buffer.
pub type Outcome = Result<Option<Head>, HttpFault>;

/// What a scan of `data` amounts to.
///
/// A fault of the scanner rejects the buffer. A scan that stopped at the end of
/// the buffer, or that lacks the method, the path or the version, asks for more
/// bytes. A version other than 0 and 1 is rejected as `Version`, and an end
/// that lies outside the buffer as `Status`. Every other scan gives a head,
/// whose body is the rest of the buffer.
pub open spec fn outcome_of(data: Seq<u8>, scanned: Result<Option<ScanView>, httparse::Error>)
    -> Outcome {
    match scanned {
        Err(e) => Err(HttpFault::from_spec(e)),
        Ok(None) => Ok(None),
        Ok(Some(s)) => {
            if s.method is None || s.path is None || s.version is None {
                Ok(None)
            } else if s.version->0 > 1 {
                Err(HttpFault::Version)
            } else if s.end > data.len() {
                Err(HttpFault::Status)
            } else {
                Ok(
                    Some(
                        Head {
                            method: s.method->0,
                            path: s.path->0,
                            version: s.version->0,
                            headers: s.headers,
                            body_offset: s.end,
                            body: data.subrange(s.end as int, data.len() as int),
                        },
                    ),
                )
            }
        },
    }
}

/// The head of a request, borrowed from the buffer it was parsed from and from
/// the header storage that the caller supplied.
pub struct Http<'a> {
    method: &'a str,
    path: &'a str,
    version: u8,
    headers: &'a [httparse::Header<'a>],
    body_offset: usize,
    body: &'a [u8],
}

impl<'a> View for Http<'a> {
    type V = Head;

    closed spec fn view(&self) -> Head {
        Head {
            method: self.method@,
            path: self.path@,
            version: self.version,
            headers: fields(self.headers@),
            body_offset: self.body_offset as nat,
            body: self.body@,
        }
    }
}

/// The outcome of a parse as mathematical values.
pub open spec fn outcome_view(r: Result<Option<Http<'_>>, HttpFault>) -> Outcome {
    match r {
        Ok(Some(h)) => Ok(Some(h@)),
        Ok(None) => Ok(None),
        Err(e) => Err(e),
    }
}

impl<'a> Http<'a> {
    /// The version of a head is 0 or 1.
    #[verifier::type_invariant]
    spec fn well_formed(self) -> bool {
        self.version <= 1
    }

    /// Decides what a scan of `data` amounts to: a head whose parts are those
    /// of the scan and whose body is the rest of the buffer, a call for more
    /// bytes, or a fault.
    pub fn assemble(data: &'a [u8], scanned: Result<Option<Scan<'a>>, httparse::Error>) -> (r:
        Result<Option<Http<'a>>, HttpFault>)
        ensures
            outcome_view(r) == outcome_of(data@, scan_view(scanned)),
    {
        let scan = match scanned {
            Err(e) => {
                return Err(HttpFault::from(e));
            },
            Ok(None) => {
                return Ok(None);
            },
            Ok(Some(scan)) => scan,
        };
        let (method, path, version) = match (scan.method, scan.path, scan.version) {
            (Some(m), Some(p), Some(v)) => (m, p, v),
            _ => {
                return Ok(None);
            },
        };
        if version > 1 {
            return Err(HttpFault::Version);
        }
        if scan.end > data.len() {
            return Err(HttpFault::Status);
        }
        let (_, body) = data.split_at(scan.end);
        Ok(
            Some(
                Http {
                    method,
                    path,
                    version,
                    headers: scan.headers,
                    body_offset: scan.end,
                    body,
                },
            ),
        )
    }

    /// Parses the head of a request from `data`, with `headers` as the storage
    /// for its header fields. Every buffer and every storage is accepted.
    ///
    /// The outcome is what the scan of `data` with that many slots amounts to.
    /// The fields of a head are the front of the storage, in the order of their
    /// lines, and never more than it has slots; the slots behind them keep
    /// what they held.
    pub fn new(data: &'a [u8], headers: &'a mut [httparse::Header<'a>]) -> (r: Result<
        Option<Http<'a>>,
        HttpFault,
    >)
        ensures
            outcome_view(r) == outcome_of(data@, request_scan(data@, old(headers)@.len())),
            final(headers)@.len() == old(headers)@.len(),
            r matches Ok(Some(h)) ==> {
                let n = h@.headers.len() as int;
                let slots = old(headers)@.len() as int;
                &&& n <= slots
                &&& h@.headers == fields(final(headers)@.subrange(0, n))
                &&& final(headers)@.subrange(n, slots) == old(headers)@.subrange(n, slots)
            },
    {
        let scanned = scan_request(data, headers);
        Http::assemble(data, scanned)
    }

    /// The method of the request.
    pub fn method(&self) -> (r: Method<'a>)
        ensures
            r@ == verb(self@.method),
    {
        Method::from(self.method)
    }

    /// The path of the request.
    pub fn path(&self) -> (r: &'a str)
        ensures
            r@ == self@.path,
    {
        self.path
    }

    /// The minor version of the request: 0 for HTTP/1.0, 1 for HTTP/1.1.
    pub fn version(&self) -> (r: u8)
        ensures
            r == self@.version,
            r <= 1,
    {
        proof {
            use_type_invariant(self);
        }
        self.version
    }

    /// The header fields in the order of their lines.
    pub fn headers(&'a self) -> (r: &'a [httparse::Header<'a>])
        ensures
            fields(r@) == self@.headers,
    {
        self.headers
    }

    /// The offset in the buffer at which the body begins.
    pub fn body_offset(&self) -> (r: usize)
        ensures
            r == self@.body_offset,
    {
        self.body_offset
    }

    /// The bytes of the buffer that follow the head.
    pub fn body(&self) -> (r: &'a [u8])
        ensures
            r@ == self@.body,
    {
        self.body
    }
}

/// The head and the body of a parsed request fill the buffer: the body starts
/// inside it and runs to its end, and the version is 0 or 1.
pub proof fn lemma_body_is_rest_of_buffer(
    data: Seq<u8>,
    scanned: Result<Option<ScanView>, httparse::Error>,
)
    ensures
        outcome_of(data, scanned) matches Ok(Some(h)) ==> h.body_offset <= data.len()
            && h.version <= 1 && data.subrange(0, h.body_offset as int) + h.body == data,
{
    if let Ok(Some(h)) = outcome_of(data, scanned) {
        assert(data.subrange(0, h.body_offset as int) + h.body =~= data);
    }
}

/// A head holds what the scanner read and nothing else: the tokens, the
/// version, the fields and the offset are those of the scan, unchanged.
pub proof fn lemma_head_keeps_scan(
    data: Seq<u8>,
    scanned: Result<Option<ScanView>, httparse::Error>,
)
    ensures
        outcome_of(data, scanned) matches Ok(Some(h)) ==> scanned matches Ok(Some(s)) && s.method
            == Some(h.method) && s.path == Some(h.path) && s.version == Some(h.version)
            && s.headers == h.headers && s.end == h.body_offset,
{
}

/// A buffer that ends before its head does asks for more bytes. It is never
/// rejected.
pub proof fn lemma_short_buffer_asks_for_more(data: Seq<u8>)
    ensures
        outcome_of(data, Ok(None)) == Ok::<Option<Head>, HttpFault>(None),
{
}

/// A buffer is rejected for its number of header lines exactly when the
/// scanner ran out of slots.
pub proof fn lemma_too_many_headers(
    data: Seq<u8>,
    scanned: Result<Option<ScanView>, httparse::Error>,
)
    ensures
        outcome_of(data, scanned) == Err::<Option<Head>, HttpFault>(HttpFault::TooManyHeaders)
            <==> scanned == Err::<Option<ScanView>, httparse::Error>(
            httparse::Error::TooManyHeaders,
        ),
{
}

/// No buffer is rejected with one of the three faults that are held in reserve.
pub proof fn lemma_reserved_faults_unused(
    data: Seq<u8>,
    scanned: Result<Option<ScanView>, httparse::Error>,
)
    ensures
        outcome_of(data, scanned) matches Err(e) ==> e != HttpFault::InvalidVersion && e
            != HttpFault::InvalidMethod && e != HttpFault::InvalidPath,
{
}

} // verus!
