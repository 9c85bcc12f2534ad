//! The boundary to the byte scanner: what one scan of a buffer yields, as plain
//! borrowed values.

use vstd::prelude::*;

verus! {

/// `httparse::Header`, one header field: its name and its value, both borrowed
/// from the buffer. Verus reads its two fields from the crate that defines it;
/// nothing is claimed of it here.
#[verifier::external_type_specification]
pub struct ExHeader<'a>(httparse::Header<'a>);

/// A header field as a pair of sequences: the name's characters and the
/// value's bytes.
pub type Field = (Seq<char>, Seq<u8>);

/// The fields that a run of header slots holds, in order.
pub open spec fn fields(slots: Seq<httparse::Header<'_>>) -> Seq<Field> {
    Seq::new(slots.len(), |i: int| (slots[i].name@, slots[i].value@))
}

/// What the scanner reports of a buffer in which it found the end of the head.
pub struct Scan<'a> {
    /// The offset just past the blank line that ends the head.
    pub end: usize,
    /// The method token, if one was read.
    pub method: Option<&'a str>,
    /// The path token, if one was read.
    pub path: Option<&'a str>,
    /// The minor version, if one was read.
    pub version: Option<u8>,
    /// The slots that were filled, in the order of the header lines.
    pub headers: &'a [httparse::Header<'a>],
}

/// A scan as mathematical values.
pub struct ScanView {
    pub end: nat,
    pub method: Option<Seq<char>>,
    pub path: Option<Seq<char>>,
    pub version: Option<u8>,
    pub headers: Seq<Field>,
}

impl<'a> View for Scan<'a> {
    type V = ScanView;

    open spec fn view(&self) -> ScanView {
        ScanView {
            end: self.end as nat,
            method: match self.method {
                Some(m) => Some(m@),
                None => None,
            },
            path: match self.path {
                Some(p) => Some(p@),
                None => None,
            },
            version: self.version,
            headers: fields(self.headers@),
        }
    }
}

/// What the scanner makes of `data` when it may fill at most `capacity` header
/// slots: a fault, `Ok(None)` where the buffer ends before the head does, or
/// the scan of a whole head.
pub uninterp spec fn request_scan(data: Seq<u8>, capacity: nat) -> Result<
    Option<ScanView>,
    httparse::Error,
>;

/// The outcome of a scan as mathematical values.
pub open spec fn scan_view(r: Result<Option<Scan<'_>>, httparse::Error>) -> Result<
    Option<ScanView>,
    httparse::Error,
> {
    match r {
        Ok(Some(s)) => Ok(Some(s@)),
        Ok(None) => Ok(None),
        Err(e) => Err(e),
    }
}

/// Runs `httparse::Request::parse` on `data` with `headers` as its storage, and
/// hands on what it reports: its error, `Ok(None)` for a partial result, and
/// for a complete one the offset it returned, the request's method, path and
/// version, and the slots it filled.
///
/// Not proved, and taken from the scanner as it is: that this outcome, as
/// values, depends on the bytes of `data` and on the number of slots alone, so
/// that `request_scan` names it; that the storage keeps its length; and that
/// the filled slots are the front of the storage, while the slots behind them
/// keep what they held. Nothing else is claimed of the scanner.
#[verifier::external_body]
pub(crate) fn scan_request<'a>(data: &'a [u8], headers: &'a mut [httparse::Header<'a>]) -> (r:
    Result<Option<Scan<'a>>, httparse::Error>)
    ensures
        scan_view(r) == request_scan(data@, old(headers)@.len()),
        final(headers)@.len() == old(headers)@.len(),
        r matches Ok(Some(s)) ==> {
            let n = s.headers@.len() as int;
            let slots = old(headers)@.len() as int;
            &&& n <= slots
            &&& final(headers)@ == s.headers@ + old(headers)@.subrange(n, slots)
        },
{
    let mut rq = httparse::Request::new(headers);
    match rq.parse(data)? {
        httparse::Status::Complete(end) => {
            let (method, path, version) = (rq.method, rq.path, rq.version);
            Ok(Some(Scan { end, method, path, version, headers: rq.headers }))
        },
        httparse::Status::Partial => Ok(None),
    }
}

} // verus!
