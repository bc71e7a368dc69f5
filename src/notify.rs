//! Framing of the NOTIFY requests that a device sends to the callback
//! listener: one request per connection, read in chunks until its head is
//! complete and, where it announces a `Content-Length`, its whole body is in.
use vstd::prelude::*;

use crate::text::{decimal_value, is_decimal, parse_decimal};

verus! {

/// One header of a request head: its name and its raw value.
pub struct HeaderField {
    pub name: Vec<u8>,
    pub value: Vec<u8>,
}

/// What the HTTP parser makes of the bytes received so far.
pub enum RequestHead {
    /// The bytes cannot start a valid request.
    Invalid,
    /// No error so far, but the head is not complete yet.
    Partial,
    /// The head is complete; the body starts at `body_start`.
    Complete { body_start: usize, headers: Vec<HeaderField> },
}

/// The name and value of each header, in order.
pub open spec fn header_pairs(headers: Seq<HeaderField>) -> Seq<(Seq<u8>, Seq<u8>)> {
    headers.map_values(|h: HeaderField| (h.name@, h.value@))
}

impl View for RequestHead {
    /// `None` for an invalid head, `Some(None)` for an incomplete one, and for
    /// a complete one the offset of the body with the headers.
    type V = Option<Option<(int, Seq<(Seq<u8>, Seq<u8>)>)>>;

    open spec fn view(&self) -> Self::V {
        match self {
            RequestHead::Invalid => None,
            RequestHead::Partial => Some(None),
            RequestHead::Complete { body_start, headers } => Some(
                Some((*body_start as int, header_pairs(headers@))),
            ),
        }
    }
}

/// How httparse reads a request head out of `buf` (in the shape of
/// `RequestHead`'s view), with room for sixteen headers.
pub uninterp spec fn parsed_head(buf: Seq<u8>) -> Option<Option<(int, Seq<(Seq<u8>, Seq<u8>)>)>>;

/// Relies on `httparse::Request::parse`: an error, `Partial`, or
/// `Complete(n)` where `n` is the offset in `buf` at which the body starts,
/// with the headers filled in.
#[verifier::external_body]
fn parse_head(buf: &[u8]) -> (r: RequestHead)
    ensures
        r@ == parsed_head(buf@),
        r matches RequestHead::Complete { body_start, .. } ==> body_start <= buf.len(),
{
    let mut headers = [httparse::EMPTY_HEADER; 16];
    let mut req = httparse::Request::new(&mut headers);
    match req.parse(buf) {
        Err(_) => RequestHead::Invalid,
        Ok(httparse::Status::Partial) => RequestHead::Partial,
        Ok(httparse::Status::Complete(body_start)) => RequestHead::Complete {
            body_start,
            headers: req.headers.iter().map(
                |h| HeaderField { name: h.name.as_bytes().to_vec(), value: h.value.to_vec() },
            ).collect(),
        },
    }
}

/// The text that `String::from_utf8_lossy` makes of `bytes`.
pub uninterp spec fn lossy_text(bytes: Seq<u8>) -> Seq<char>;

/// Relies on `String::from_utf8_lossy`: the bytes as text, with each invalid
/// sequence replaced; the result depends on the bytes alone.
#[verifier::external_body]
fn text_of(bytes: &[u8]) -> (r: String)
    ensures
        r@ == lossy_text(bytes@),
{
    String::from_utf8_lossy(bytes).into_owned()
}

/// ASCII lower case of a byte.
pub open spec fn ascii_lower(b: u8) -> u8 {
    if 65 <= b && b <= 90 {
        (b + 32) as u8
    } else {
        b
    }
}

/// `content-length`, in lower case.
pub open spec fn content_length_name() -> Seq<u8> {
    seq![99u8, 111, 110, 116, 101, 110, 116, 45, 108, 101, 110, 103, 116, 104]
}

/// Whether a header name is `Content-Length`, in any ASCII case.
pub open spec fn is_content_length_name(name: Seq<u8>) -> bool {
    name.len() == content_length_name().len() && forall|i: int|
        0 <= i < name.len() ==> ascii_lower(#[trigger] name[i]) == content_length_name()[i]
}

/// The value of the first `Content-Length` header, if there is one.
pub open spec fn content_length_value(headers: Seq<(Seq<u8>, Seq<u8>)>) -> Option<Seq<u8>>
    decreases headers.len(),
{
    if headers.len() == 0 {
        None
    } else if is_content_length_name(headers[0].0) {
        Some(headers[0].1)
    } else {
        content_length_value(headers.drop_first())
    }
}

/// What the bytes received on a connection amount to.
pub enum Framing {
    /// More bytes are needed.
    NeedMore,
    /// The request is complete; this is its body.
    Complete(Seq<u8>),
    /// The request is malformed and the connection is dropped.
    Reject,
}

/// The framing of the bytes `buf` received so far. A head that the parser
/// refuses, or a `Content-Length` that is not an unsigned number, rejects the
/// request. With a `Content-Length`, the request is complete once that many
/// bytes follow the head; without one, it is complete as soon as the head is,
/// and its body is whatever follows the head at that moment.
pub open spec fn framing(buf: Seq<u8>) -> Framing {
    match parsed_head(buf) {
        None => Framing::Reject,
        Some(None) => Framing::NeedMore,
        Some(Some((start, headers))) => match content_length_value(headers) {
            None => Framing::Complete(buf.subrange(start, buf.len() as int)),
            Some(v) => if !is_decimal(v) || decimal_value(v) > u64::MAX {
                Framing::Reject
            } else if buf.len() - start < decimal_value(v) {
                Framing::NeedMore
            } else {
                Framing::Complete(buf.subrange(start, buf.len() as int))
            },
        },
    }
}

/// The step that a connection takes after a read.
pub enum ReadStep {
    /// Keep reading.
    NeedMore,
    /// The request is complete; this is its body as text.
    Body(String),
    /// Drop the connection: the request is malformed.
    Reject,
}

/// Whether `step` is what `f` calls for.
pub open spec fn step_follows(step: ReadStep, f: Framing) -> bool {
    match f {
        Framing::NeedMore => step is NeedMore,
        Framing::Reject => step is Reject,
        Framing::Complete(body) => match step {
            ReadStep::Body(text) => text@ == lossy_text(body),
            _ => false,
        },
    }
}

/// Accumulates the bytes of one inbound NOTIFY request.
pub struct NotifyReader {
    buf: Vec<u8>,
}

impl View for NotifyReader {
    /// The bytes received so far.
    type V = Seq<u8>;

    closed spec fn view(&self) -> Seq<u8> {
        self.buf@
    }
}

/// Whether a header name is `Content-Length`, in any ASCII case.
fn names_content_length(name: &Vec<u8>) -> (r: bool)
    ensures
        r == is_content_length_name(name@),
{
    let expected: [u8; 14] = [99u8, 111, 110, 116, 101, 110, 116, 45, 108, 101, 110, 103, 116, 104];
    assert(expected@ =~= content_length_name());
    if name.len() != 14 {
        return false;
    }
    let mut i: usize = 0;
    while i < 14
        invariant
            name.len() == 14,
            expected@ == content_length_name(),
            forall|j: int| 0 <= j < i ==> ascii_lower(#[trigger] name@[j]) == content_length_name()[j],
        decreases 14 - i,
    {
        let b = name[i];
        let lower: u8 = if 65 <= b && b <= 90 { b + 32 } else { b };
        if lower != expected[i] {
            return false;
        }
        i = i + 1;
    }
    true
}

/// The value of the first `Content-Length` header, if there is one.
fn find_content_length(headers: &Vec<HeaderField>) -> (r: Option<&Vec<u8>>)
    ensures
        r matches Some(v) ==> content_length_value(header_pairs(headers@)) == Some(v@),
        r is None ==> content_length_value(header_pairs(headers@)) is None,
{
    let ghost all = header_pairs(headers@);
    let mut i: usize = 0;
    assert(all.subrange(0, all.len() as int) =~= all);
    while i < headers.len()
        invariant
            i <= headers.len(),
            all.len() == headers.len(),
            all == header_pairs(headers@),
            content_length_value(all) == content_length_value(all.subrange(i as int, all.len() as int)),
        decreases headers.len() - i,
    {
        let ghost rest = all.subrange(i as int, all.len() as int);
        assert(rest.drop_first() =~= all.subrange(i + 1, all.len() as int));
        assert(rest[0] == (headers@[i as int].name@, headers@[i as int].value@));
        if names_content_length(&headers[i].name) {
            return Some(&headers[i].value);
        }
        i = i + 1;
    }
    assert(all.subrange(i as int, all.len() as int).len() == 0);
    None
}

/// Copies `buf[start..]`.
fn tail_of(buf: &Vec<u8>, start: usize) -> (r: Vec<u8>)
    requires
        start <= buf.len(),
    ensures
        r@ == buf@.subrange(start as int, buf@.len() as int),
{
    let mut out: Vec<u8> = Vec::new();
    let mut i: usize = start;
    while i < buf.len()
        invariant
            start <= i <= buf.len(),
            out@ == buf@.subrange(start as int, i as int),
        decreases buf.len() - i,
    {
        out.push(buf[i]);
        i = i + 1;
        assert(out@ =~= buf@.subrange(start as int, i as int));
    }
    out
}

impl NotifyReader {
    /// A reader that has received nothing yet.
    pub fn new() -> (r: NotifyReader)
        ensures
            r@ == Seq::<u8>::empty(),
    {
        NotifyReader { buf: Vec::new() }
    }

    /// Adds the bytes of one read and says whether the request is complete.
    pub fn feed(&mut self, chunk: &[u8]) -> (r: ReadStep)
        ensures
            final(self)@ == old(self)@ + chunk@,
            step_follows(r, framing(final(self)@)),
    {
        self.buf.extend_from_slice(chunk);
        let head = parse_head(self.buf.as_slice());
        match head {
            RequestHead::Invalid => ReadStep::Reject,
            RequestHead::Partial => ReadStep::NeedMore,
            RequestHead::Complete { body_start, headers } => {
                let announced = find_content_length(&headers);
                match announced {
                    Some(v) => match parse_decimal(v.as_slice()) {
                        None => {
                            return ReadStep::Reject;
                        },
                        Some(length) => {
                            if ((self.buf.len() - body_start) as u64) < length {
                                return ReadStep::NeedMore;
                            }
                        },
                    },
                    None => {},
                }
                let body = tail_of(&self.buf, body_start);
                ReadStep::Body(text_of(body.as_slice()))
            },
        }
    }
}

/// Where the body starts in `buf`, once the head read from it is complete.
pub open spec fn body_start(buf: Seq<u8>) -> int {
    match parsed_head(buf) {
        Some(Some((start, _))) => start,
        _ => 0,
    }
}

/// The bytes of `chunks`, one after another.
pub open spec fn concat_chunks(chunks: Seq<Seq<u8>>) -> Seq<u8>
    decreases chunks.len(),
{
    if chunks.len() == 0 {
        Seq::empty()
    } else {
        chunks[0] + concat_chunks(chunks.drop_first())
    }
}

/// What a reader that holds `received` makes of the reads `chunks`, fed to
/// it one after another: it stops at the first read after which the request
/// is complete or rejected.
pub open spec fn framing_of_reads(received: Seq<u8>, chunks: Seq<Seq<u8>>) -> Framing
    decreases chunks.len(),
{
    if chunks.len() == 0 {
        Framing::NeedMore
    } else {
        let buf = received + chunks[0];
        match framing(buf) {
            Framing::NeedMore => framing_of_reads(buf, chunks.drop_first()),
            f => f,
        }
    }
}

/// Whether the head read from `prefix` is either not complete yet, or
/// complete with a `Content-Length` that puts the end of the body at `total`.
pub open spec fn announces_end(prefix: Seq<u8>, total: int) -> bool {
    match parsed_head(prefix) {
        None => false,
        Some(None) => true,
        Some(Some((start, headers))) => match content_length_value(headers) {
            Some(v) => is_decimal(v) && decimal_value(v) <= u64::MAX && start + decimal_value(v)
                == total,
            None => false,
        },
    }
}

/// Whether `request` is one whole request with a correct `Content-Length`:
/// its head is complete, and every prefix of it is either an incomplete head
/// or a complete one whose `Content-Length` ends the body where `request`
/// ends.
pub open spec fn correctly_framed(request: Seq<u8>) -> bool {
    &&& parsed_head(request) matches Some(Some(_))
    &&& forall|k: int|
        0 <= k <= request.len() ==> announces_end(#[trigger] request.subrange(0, k), request.len() as int)
}

proof fn lemma_reads_reach_request(request: Seq<u8>, received: Seq<u8>, chunks: Seq<Seq<u8>>)
    requires
        correctly_framed(request),
        chunks.len() > 0,
        received + concat_chunks(chunks) == request,
    ensures
        framing_of_reads(received, chunks) == framing(request),
        framing(request) == Framing::Complete(
            request.subrange(body_start(request), request.len() as int),
        ),
    decreases chunks.len(),
{
    let buf = received + chunks[0];
    let rest = chunks.drop_first();
    assert(request =~= buf + concat_chunks(rest));
    assert(buf =~= request.subrange(0, buf.len() as int));
    assert(request.subrange(0, request.len() as int) =~= request);
    assert(announces_end(request.subrange(0, request.len() as int), request.len() as int));
    assert(announces_end(request.subrange(0, buf.len() as int), request.len() as int));
    if buf.len() < request.len() {
        assert(framing(buf) == Framing::NeedMore);
        if rest.len() == 0 {
            assert(concat_chunks(rest) =~= Seq::<u8>::empty());
        }
        lemma_reads_reach_request(request, buf, rest);
    } else {
        assert(buf =~= request);
    }
}

/// A request split into reads of any sizes is framed exactly as the same
/// request read at once, provided its `Content-Length` is correct: the body
/// is the same, and it is everything after the head.
pub proof fn lemma_chunking_preserves_body(request: Seq<u8>, chunks: Seq<Seq<u8>>)
    requires
        correctly_framed(request),
        chunks.len() > 0,
        concat_chunks(chunks) == request,
    ensures
        framing_of_reads(Seq::empty(), chunks) == framing_of_reads(Seq::empty(), seq![request]),
        framing_of_reads(Seq::empty(), seq![request]) == Framing::Complete(
            request.subrange(body_start(request), request.len() as int),
        ),
{
    assert(Seq::<u8>::empty() + concat_chunks(chunks) =~= request);
    lemma_reads_reach_request(request, Seq::empty(), chunks);
    let single = seq![request];
    assert(single.drop_first() =~= Seq::<Seq<u8>>::empty());
    assert(concat_chunks(single.drop_first()) =~= Seq::<u8>::empty());
    assert(Seq::<u8>::empty() + concat_chunks(single) =~= request);
    lemma_reads_reach_request(request, Seq::empty(), single);
}

/// Without a `Content-Length`, a request is complete as soon as its head is:
/// its body is exactly the bytes already received after the head.
pub proof fn lemma_no_length_takes_what_is_there(buf: Seq<u8>)
    requires
        parsed_head(buf) matches Some(Some((_, headers))) && content_length_value(headers) is None,
    ensures
        framing(buf) == Framing::Complete(
            buf.subrange(body_start(buf), buf.len() as int),
        ),
{
}

} // verus!
