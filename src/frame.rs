//! Reading one frame: a header block ended by an empty line, then a body of
//! the declared length.
//!
//! The reader does no I/O. Its owner feeds it the header bytes one at a time
//! until it reports the header block complete (reading no further, so that
//! no body byte is taken), asks it for the declared length, reads that many
//! bytes, and hands them back.
use vstd::prelude::*;
use vstd::utf8::{decode_utf8, valid_utf8};
use crate::header::{length_outcome, HeaderParser, CONTENT_LENGTH_PATTERN};
use crate::message::{ErrorKind, SbtClientError};

verus! {

/// The bytes that end a header block: CR LF CR LF.
pub open spec fn header_terminator() -> Seq<u8> {
    seq![13u8, 10u8, 13u8, 10u8]
}

pub open spec fn ends_with_terminator(b: Seq<u8>) -> bool {
    b.len() >= 4 && b.subrange(b.len() - 4, b.len() as int) == header_terminator()
}

/// Whether `vec` ends with CR LF CR LF.
pub fn ends_with_double_newline(vec: &Vec<u8>) -> (r: bool)
    ensures
        r == ends_with_terminator(vec@),
{
    let n = vec.len();
    if n < 4 {
        return false;
    }
    let r = vec[n - 4] == 13 && vec[n - 3] == 10 && vec[n - 2] == 13 && vec[n - 1] == 10;
    proof {
        let tail = vec@.subrange(n - 4, n as int);
        if r {
            assert(tail =~= header_terminator());
        } else {
            assert(tail[0] != 13 || tail[1] != 10 || tail[2] != 13 || tail[3] != 10);
        }
    }
    r
}

/// Relies on String::from_utf8: it succeeds exactly when the bytes are valid
/// UTF-8, and the string then holds the characters they encode.
#[verifier::external_body]
fn utf8_to_string(bytes: Vec<u8>) -> (r: Option<String>)
    ensures
        r is Some <==> valid_utf8(bytes@),
        r is Some ==> r->0@ == decode_utf8(bytes@),
{
    String::from_utf8(bytes).ok()
}

/// The header bytes of the frame being read.
pub struct FrameReader {
    headers: Vec<u8>,
}

impl View for FrameReader {
    type V = Seq<u8>;

    closed spec fn view(&self) -> Seq<u8> {
        self.headers@
    }
}

impl FrameReader {
    pub fn new() -> (r: FrameReader)
        ensures
            r@ == Seq::<u8>::empty(),
    {
        FrameReader { headers: Vec::new() }
    }

    /// Whether the header block is complete: the bytes so far end with an
    /// empty line.
    pub fn headers_complete(&self) -> (r: bool)
        ensures
            r == ends_with_terminator(self@),
    {
        ends_with_double_newline(&self.headers)
    }

    /// Adds the next byte read from the stream to the header block.
    pub fn push_header_byte(&mut self, b: u8)
        ensures
            final(self)@ == old(self)@.push(b),
    {
        self.headers.push(b);
    }

    /// The body length that the header block declares. Fails when the
    /// header block is not UTF-8, or declares no length that fits.
    pub fn content_length(&self, parser: &HeaderParser) -> (r: Result<usize, SbtClientError>)
        requires
            parser.pattern() == CONTENT_LENGTH_PATTERN@,
        ensures
            !valid_utf8(self@) ==> r is Err && r->Err_0.kind == ErrorKind::InvalidHeaderEncoding,
            valid_utf8(self@) ==> length_outcome(decode_utf8(self@), r),
    {
        match utf8_to_string(self.headers.clone()) {
            Some(text) => parser.extract_content_length(text),
            None => Err(
                SbtClientError::new(
                    ErrorKind::InvalidHeaderEncoding,
                    "Failed to read headers as a UTF-8 string",
                ),
            ),
        }
    }
}

/// The body of a frame out of the bytes that the stream gave when asked for
/// `content_length` of them: an error when the stream ended early, never a
/// shorter body.
pub fn take_body(content_length: usize, received: Vec<u8>) -> (r: Result<Vec<u8>, SbtClientError>)
    ensures
        received@.len() < content_length <==> r is Err,
        r is Err ==> r->Err_0.kind == ErrorKind::ShortRead,
        r is Ok ==> r->Ok_0@ == received@.subrange(0, content_length as int),
{
    if received.len() < content_length {
        return Err(SbtClientError::new(ErrorKind::ShortRead, "Failed to read bytes from stream"));
    }
    let mut body = received;
    body.truncate(content_length);
    Ok(body)
}

/// The text of a body: its bytes read as UTF-8.
pub fn body_text(body: Vec<u8>) -> (r: Result<String, SbtClientError>)
    ensures
        valid_utf8(body@) ==> r is Ok && r->Ok_0@ == decode_utf8(body@),
        !valid_utf8(body@) ==> r is Err && r->Err_0.kind == ErrorKind::InvalidBodyEncoding,
{
    match utf8_to_string(body) {
        Some(text) => Ok(text),
        None => Err(
            SbtClientError::new(
                ErrorKind::InvalidBodyEncoding,
                "Failed to decode message as UTF-8 string",
            ),
        ),
    }
}

} // verus!
