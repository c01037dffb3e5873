//! Finding the declared body length in a header block.
use vstd::prelude::*;
use vstd::string::StrSliceExecFns;
use regex::Regex;
use crate::message::{ErrorKind, SbtClientError};

verus! {

/// regex's compiled pattern, carried as an opaque value.
#[verifier::external_type_specification]
#[verifier::external_body]
pub struct ExRegex(Regex);

/// The pattern of the length line; the digits are its first group.
pub const CONTENT_LENGTH_PATTERN: &'static str = "Content-Length: ([0-9]+)";

/// The text that starts a length line.
pub open spec fn length_key() -> Seq<char> {
    seq!['C', 'o', 'n', 't', 'e', 'n', 't', '-', 'L', 'e', 'n', 'g', 't', 'h', ':', ' ']
}

pub open spec fn is_digit(c: char) -> bool {
    '0' <= c <= '9'
}

/// The length key stands in `s` at index `i`.
pub open spec fn key_at(s: Seq<char>, i: int) -> bool {
    0 <= i && i + 16 <= s.len() && s.subrange(i, i + 16) == length_key()
}

/// The length key stands at `i`, followed by at least one digit.
pub open spec fn length_line_at(s: Seq<char>, i: int) -> bool {
    key_at(s, i) && i + 16 < s.len() && is_digit(s[i + 16])
}

pub open spec fn has_length_line(s: Seq<char>) -> bool {
    exists|i: int| length_line_at(s, i)
}

/// `i` is the leftmost place where a length line starts.
pub open spec fn is_first_length_line(s: Seq<char>, i: int) -> bool {
    length_line_at(s, i) && forall|j: int| 0 <= j < i ==> !length_line_at(s, j)
}

/// The longest run of digits that starts `s`.
pub open spec fn digit_run(s: Seq<char>) -> Seq<char>
    decreases s.len(),
{
    if s.len() > 0 && is_digit(s[0]) {
        seq![s[0]] + digit_run(s.drop_first())
    } else {
        Seq::empty()
    }
}

pub open spec fn digit_value(c: char) -> nat {
    (c as u32 - '0' as u32) as nat
}

/// The number that a string of decimal digits writes.
pub open spec fn decimal_value(s: Seq<char>) -> nat
    decreases s.len(),
{
    if s.len() == 0 {
        0
    } else {
        decimal_value(s.drop_last()) * 10 + digit_value(s.last())
    }
}

/// The length that the header block `s` declares: the number written by the
/// digits of its leftmost length line.
pub open spec fn declared_length(s: Seq<char>) -> Option<nat> {
    if has_length_line(s) {
        let i = choose|i: int| is_first_length_line(s, i);
        Some(decimal_value(digit_run(s.subrange(i + 16, s.len() as int))))
    } else {
        None
    }
}

/// `r` is what extracting the body length from the header text `s` gives:
/// the declared length, or an error saying why there is none.
pub open spec fn length_outcome(s: Seq<char>, r: Result<usize, SbtClientError>) -> bool {
    match declared_length(s) {
        None => r is Err && r->Err_0.kind == ErrorKind::MissingContentLength,
        Some(n) => if n <= usize::MAX {
            r is Ok && r->Ok_0 == n
        } else {
            r is Err && r->Err_0.kind == ErrorKind::InvalidContentLength
        },
    }
}

/// Reads the declared body length out of raw header text. Holds the length
/// pattern compiled once, to be shared by every frame of a session.
pub struct HeaderParser {
    content_length_header_regex: Regex,
    pattern: Ghost<Seq<char>>,
}

impl HeaderParser {
    /// The pattern that the held regex was compiled from.
    pub closed spec fn pattern(&self) -> Seq<char> {
        self.pattern@
    }
}

/// Relies on regex::Regex::new: CONTENT_LENGTH_PATTERN is a valid pattern, so
/// compiling it succeeds.
#[verifier::external_body]
fn compile_content_length_pattern() -> (r: Regex) {
    Regex::new(CONTENT_LENGTH_PATTERN).unwrap()
}

/// Relies on regex::Regex::captures and Captures::get for the pattern
/// CONTENT_LENGTH_PATTERN, which the parser holds: the match is the
/// leftmost place where the key is followed by a digit, and the group takes
/// every digit that follows (the repetition is greedy).
#[verifier::external_body]
fn capture_length_digits(parser: &HeaderParser, headers: &str) -> (r: Option<String>)
    requires
        parser.pattern() == CONTENT_LENGTH_PATTERN@,
    ensures
        match r {
            Some(d) => exists|i: int|
                is_first_length_line(headers@, i) && d@ == digit_run(
                    #[trigger] headers@.subrange(i + 16, headers@.len() as int),
                ),
            None => !has_length_line(headers@),
        },
{
    let caps = parser.content_length_header_regex.captures(headers)?;
    let group = caps.get(1)?;
    Some(group.as_str().to_string())
}

proof fn lemma_first_length_line_unique(s: Seq<char>, i: int, k: int)
    requires
        is_first_length_line(s, i),
        is_first_length_line(s, k),
    ensures
        i == k,
{
}

proof fn lemma_digit_run_digits(s: Seq<char>)
    ensures
        forall|k: int| 0 <= k < digit_run(s).len() ==> is_digit(#[trigger] digit_run(s)[k]),
        digit_run(s).len() <= s.len(),
    decreases s.len(),
{
    if s.len() > 0 && is_digit(s[0]) {
        lemma_digit_run_digits(s.drop_first());
        assert forall|k: int| 0 <= k < digit_run(s).len() implies is_digit(
            #[trigger] digit_run(s)[k],
        ) by {
            if k > 0 {
                assert(digit_run(s)[k] == digit_run(s.drop_first())[k - 1]);
            }
        }
    }
}

proof fn lemma_decimal_value_grows(s: Seq<char>, k: int, n: int)
    requires
        0 <= k <= n <= s.len(),
    ensures
        decimal_value(s.subrange(0, k)) <= decimal_value(s.subrange(0, n)),
    decreases n - k,
{
    if k < n {
        lemma_decimal_value_grows(s, k, n - 1);
        assert(s.subrange(0, n).drop_last() =~= s.subrange(0, n - 1));
    }
}

/// Parses a string of decimal digits into a `usize`: `None` when the number
/// does not fit.
fn parse_decimal(digits: &str) -> (r: Option<usize>)
    requires
        forall|k: int| 0 <= k < digits@.len() ==> is_digit(#[trigger] digits@[k]),
    ensures
        r == (if decimal_value(digits@) <= usize::MAX {
            Some(decimal_value(digits@) as usize)
        } else {
            None::<usize>
        }),
{
    let n = digits.unicode_len();
    let mut acc: usize = 0;
    let mut i: usize = 0;
    assert(digits@.subrange(0, 0) =~= Seq::<char>::empty());
    while i < n
        invariant
            n == digits@.len(),
            i <= n,
            forall|k: int| 0 <= k < digits@.len() ==> is_digit(#[trigger] digits@[k]),
            acc as nat == decimal_value(digits@.subrange(0, i as int)),
        decreases n - i,
    {
        let c = digits.get_char(i);
        let d = (c as u32 - '0' as u32) as usize;
        proof {
            assert(digits@.subrange(0, i + 1).drop_last() =~= digits@.subrange(0, i as int));
        }
        match acc.checked_mul(10) {
            Some(m) => match m.checked_add(d) {
                Some(next) => {
                    acc = next;
                },
                None => {
                    proof {
                        lemma_decimal_value_grows(digits@, i + 1, n as int);
                        assert(digits@.subrange(0, n as int) =~= digits@);
                    }
                    return None;
                },
            },
            None => {
                proof {
                    lemma_decimal_value_grows(digits@, i + 1, n as int);
                    assert(digits@.subrange(0, n as int) =~= digits@);
                }
                return None;
            },
        }
        i = i + 1;
    }
    assert(digits@.subrange(0, n as int) =~= digits@);
    Some(acc)
}

proof fn lemma_digit_run_stops(ds: Seq<char>, rest: Seq<char>)
    requires
        forall|k: int| 0 <= k < ds.len() ==> is_digit(#[trigger] ds[k]),
        rest.len() > 0,
        !is_digit(rest[0]),
    ensures
        digit_run(ds + rest) == ds,
    decreases ds.len(),
{
    if ds.len() == 0 {
        assert(ds + rest =~= rest);
    } else {
        assert((ds + rest)[0] == ds[0]);
        assert((ds + rest).drop_first() =~= ds.drop_first() + rest);
        lemma_digit_run_stops(ds.drop_first(), rest);
        assert(seq![ds[0]] + ds.drop_first() =~= ds);
    }
}

/// A header block that holds the line `Content-Length: <digits>` declares
/// the number those digits write, whatever other lines stand before or after
/// it, provided no other line holds the text `Content-Length: `. When that
/// number fits in a `usize`, extracting the length gives it.
pub proof fn content_length_found_among_other_lines(
    before: Seq<char>,
    digits: Seq<char>,
    after: Seq<char>,
    r: Result<usize, SbtClientError>,
)
    requires
        digits.len() > 0,
        forall|k: int| 0 <= k < digits.len() ==> is_digit(#[trigger] digits[k]),
        forall|i: int|
            key_at(before + length_key() + digits + seq!['\r', '\n'] + after, i) ==> i
                == before.len(),
        length_outcome(before + length_key() + digits + seq!['\r', '\n'] + after, r),
    ensures
        declared_length(before + length_key() + digits + seq!['\r', '\n'] + after) == Some(
            decimal_value(digits),
        ),
        decimal_value(digits) <= usize::MAX ==> r is Ok && r->Ok_0 == decimal_value(digits),
{
    let s = before + length_key() + digits + seq!['\r', '\n'] + after;
    let p = before.len() as int;
    let rest = seq!['\r', '\n'] + after;
    assert(s =~= before + (length_key() + (digits + rest)));
    assert(s.subrange(p, p + 16) =~= length_key());
    assert(s[p + 16] == digits[0]);
    assert(length_line_at(s, p));
    assert(is_first_length_line(s, p));
    let i = choose|i: int| is_first_length_line(s, i);
    lemma_first_length_line_unique(s, i, p);
    assert(s.subrange(p + 16, s.len() as int) =~= digits + rest);
    lemma_digit_run_stops(digits, rest);
}

impl HeaderParser {
    /// A parser holding the compiled length pattern.
    pub fn new() -> (r: HeaderParser)
        ensures
            r.pattern() == CONTENT_LENGTH_PATTERN@,
    {
        HeaderParser {
            content_length_header_regex: compile_content_length_pattern(),
            pattern: Ghost(CONTENT_LENGTH_PATTERN@),
        }
    }

    /// The body length declared by the leftmost `Content-Length: <digits>`
    /// line of `raw_headers`; other lines are ignored. There is no default:
    /// without such a line the result is an error.
    pub fn extract_content_length(&self, raw_headers: String) -> (r: Result<usize, SbtClientError>)
        requires
            self.pattern() == CONTENT_LENGTH_PATTERN@,
        ensures
            length_outcome(raw_headers@, r),
    {
        match capture_length_digits(self, raw_headers.as_str()) {
            None => Err(
                SbtClientError::new(
                    ErrorKind::MissingContentLength,
                    "Failed to extract content length from headers",
                ),
            ),
            Some(digits) => {
                let ghost s = raw_headers@;
                proof {
                    let i = choose|i: int|
                        is_first_length_line(s, i) && digits@ == digit_run(
                            #[trigger] s.subrange(i + 16, s.len() as int),
                        );
                    let k = choose|k: int| is_first_length_line(s, k);
                    lemma_first_length_line_unique(s, i, k);
                    lemma_digit_run_digits(s.subrange(i + 16, s.len() as int));
                }
                match parse_decimal(digits.as_str()) {
                    Some(n) => Ok(n),
                    None => Err(
                        SbtClientError::new(
                            ErrorKind::InvalidContentLength,
                            "Failed to extract content length from headers: the number does not fit in a usize",
                        ),
                    ),
                }
            },
        }
    }
}

} // verus!
