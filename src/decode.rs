//! Decoding a JSON value into one of the message shapes.
//!
//! The wire format carries no tag naming the shape. A value is tried against
//! the shapes in a fixed order (success response, error response, log
//! message, diagnostics) and the first whose required members are all
//! present, with the right types, wins. Other members are ignored.
use vstd::prelude::*;
use crate::json::{
    as_i32, as_string, as_u8, as_usize, get_member, member, Json, JsonNumber,
};
use crate::message::{
    CommandResult, Diagnostic, ErrorDetails, ErrorKind, LogMessageParams, Message, Position,
    PublishDiagnosticsParams, Range, SbtClientError,
};

verus! {

pub open spec fn field_i32(j: Json, key: Seq<char>) -> Option<i32> {
    match member(j, key) {
        Some(v) => as_i32(v),
        None => None,
    }
}

pub open spec fn field_u8(j: Json, key: Seq<char>) -> Option<u8> {
    match member(j, key) {
        Some(v) => as_u8(v),
        None => None,
    }
}

pub open spec fn field_usize(j: Json, key: Seq<char>) -> Option<usize> {
    match member(j, key) {
        Some(v) => as_usize(v),
        None => None,
    }
}

pub open spec fn field_string(j: Json, key: Seq<char>) -> Option<String> {
    match member(j, key) {
        Some(v) => as_string(v),
        None => None,
    }
}

pub open spec fn spec_command_result(j: Json) -> Option<CommandResult> {
    match (field_string(j, "status"@), field_u8(j, "exitCode"@)) {
        (Some(status), Some(exit_code)) => Some(CommandResult { status, exit_code }),
        _ => None,
    }
}

pub open spec fn spec_error_details(j: Json) -> Option<ErrorDetails> {
    match (field_i32(j, "code"@), field_string(j, "message"@)) {
        (Some(code), Some(message)) => Some(ErrorDetails { code, message }),
        _ => None,
    }
}

pub open spec fn spec_log_params(j: Json) -> Option<LogMessageParams> {
    match (field_u8(j, "type"@), field_string(j, "message"@)) {
        (Some(type_), Some(message)) => Some(LogMessageParams { type_, message }),
        _ => None,
    }
}

pub open spec fn spec_position(j: Json) -> Option<Position> {
    match (field_usize(j, "line"@), field_usize(j, "character"@)) {
        (Some(line), Some(character)) => Some(Position { line, character }),
        _ => None,
    }
}

pub open spec fn spec_range(j: Json) -> Option<Range> {
    match (member(j, "start"@), member(j, "end"@)) {
        (Some(s), Some(e)) => match (spec_position(s), spec_position(e)) {
            (Some(start), Some(end)) => Some(Range { start, end }),
            _ => None,
        },
        _ => None,
    }
}

pub open spec fn spec_diagnostic(j: Json) -> Option<Diagnostic> {
    match (member(j, "range"@), field_u8(j, "severity"@), field_string(j, "message"@)) {
        (Some(r), Some(severity), Some(message)) => match spec_range(r) {
            Some(range) => Some(Diagnostic { range, severity, message }),
            None => None,
        },
        _ => None,
    }
}

/// `ds` is `items` decoded one by one, in order.
pub open spec fn diagnostics_decoded(items: Seq<Json>, ds: Seq<Diagnostic>) -> bool {
    &&& items.len() == ds.len()
    &&& forall|i: int| 0 <= i < items.len() ==> spec_diagnostic(#[trigger] items[i]) == Some(ds[i])
}

pub open spec fn all_diagnostics(items: Seq<Json>) -> bool {
    forall|i: int| 0 <= i < items.len() ==> (#[trigger] spec_diagnostic(items[i])) is Some
}

/// The success response that `j` reads as, if it has that shape.
pub open spec fn success_shape(j: Json) -> Option<Message> {
    match (field_i32(j, "id"@), member(j, "result"@)) {
        (Some(id), Some(r)) => match spec_command_result(r) {
            Some(result) => Some(Message::SuccessResponse { id, result }),
            None => None,
        },
        _ => None,
    }
}

/// The error response that `j` reads as, if it has that shape.
pub open spec fn error_shape(j: Json) -> Option<Message> {
    match (field_i32(j, "id"@), member(j, "error"@)) {
        (Some(id), Some(e)) => match spec_error_details(e) {
            Some(error) => Some(Message::ErrorResponse { id, error }),
            None => None,
        },
        _ => None,
    }
}

/// The log message that `j` reads as, if it has that shape.
pub open spec fn log_shape(j: Json) -> Option<Message> {
    match (field_string(j, "method"@), member(j, "params"@)) {
        (Some(method), Some(p)) => match spec_log_params(p) {
            Some(params) => Some(Message::LogMessage { method, params }),
            None => None,
        },
        _ => None,
    }
}

/// The array of diagnostics inside `j`, if `j` has the outline of a
/// diagnostics notification.
pub open spec fn diagnostics_items(j: Json) -> Option<Seq<Json>> {
    match (field_string(j, "method"@), member(j, "params"@)) {
        (Some(_), Some(p)) => match (field_string(p, "uri"@), member(p, "diagnostics"@)) {
            (Some(_), Some(Json::Array(items))) => Some(items@),
            _ => None,
        },
        _ => None,
    }
}

pub open spec fn has_diagnostics_shape(j: Json) -> bool {
    match diagnostics_items(j) {
        Some(items) => all_diagnostics(items),
        None => false,
    }
}

/// `m` is the diagnostics notification that `j` reads as.
pub open spec fn diagnostics_shape(j: Json, m: Message) -> bool {
    match m {
        Message::PublishDiagnostics { method, params } => {
            &&& field_string(j, "method"@) == Some(method)
            &&& member(j, "params"@) is Some
            &&& field_string(member(j, "params"@)->0, "uri"@) == Some(params.uri)
            &&& diagnostics_items(j) is Some
            &&& diagnostics_decoded(diagnostics_items(j)->0, params.diagnostics@)
        },
        _ => false,
    }
}

/// What decoding `j` gives: the first shape in order that `j` has, or an
/// error of kind `UnrecognizedShape`.
pub open spec fn decodes_as(j: Json, r: Result<Message, SbtClientError>) -> bool {
    if success_shape(j) is Some {
        r == Ok::<Message, SbtClientError>(success_shape(j)->0)
    } else if error_shape(j) is Some {
        r == Ok::<Message, SbtClientError>(error_shape(j)->0)
    } else if log_shape(j) is Some {
        r == Ok::<Message, SbtClientError>(log_shape(j)->0)
    } else if has_diagnostics_shape(j) {
        r is Ok && diagnostics_shape(j, r->Ok_0)
    } else {
        r is Err && r->Err_0.kind == ErrorKind::UnrecognizedShape
    }
}

/// `a` and `b` are the same message, field by field, diagnostics compared
/// as sequences.
pub open spec fn same_message(a: Message, b: Message) -> bool {
    match (a, b) {
        (
            Message::PublishDiagnostics { method: m1, params: p1 },
            Message::PublishDiagnostics { method: m2, params: p2 },
        ) => m1 == m2 && p1.uri == p2.uri && p1.diagnostics@ == p2.diagnostics@,
        _ => a == b,
    }
}

/// A value that has the shape of a success response decodes as that success
/// response, whatever other shapes it also has.
pub proof fn success_response_shape_wins(j: Json, r: Result<Message, SbtClientError>)
    requires
        success_shape(j) is Some,
        decodes_as(j, r),
    ensures
        r is Ok,
        r->Ok_0 is SuccessResponse,
        r->Ok_0 == success_shape(j)->0,
{
}

/// Decoding the same value twice gives the same outcome: equal messages, or
/// errors of the same kind.
pub proof fn decoding_is_deterministic(
    j: Json,
    r1: Result<Message, SbtClientError>,
    r2: Result<Message, SbtClientError>,
)
    requires
        decodes_as(j, r1),
        decodes_as(j, r2),
    ensures
        r1 is Ok <==> r2 is Ok,
        r1 is Ok ==> same_message(r1->Ok_0, r2->Ok_0),
        r1 is Err ==> r1->Err_0.kind == r2->Err_0.kind,
{
    if success_shape(j) is None && error_shape(j) is None && log_shape(j) is None
        && has_diagnostics_shape(j) {
        let items = diagnostics_items(j)->0;
        let d1 = r1->Ok_0->PublishDiagnostics_params.diagnostics@;
        let d2 = r2->Ok_0->PublishDiagnostics_params.diagnostics@;
        assert forall|i: int| 0 <= i < d1.len() implies d1[i] == d2[i] by {
            assert(spec_diagnostic(items[i]) == Some(d1[i]));
        }
        assert(d1 =~= d2);
    }
}

fn integer_member(j: &Json, key: &str) -> (r: Option<JsonNumber>)
    ensures
        match r {
            Some(n) => member(*j, key@) == Some(Json::Number(n)),
            None => !(member(*j, key@) matches Some(Json::Number(_))),
        },
{
    match get_member(j, key) {
        Some(Json::Number(n)) => Some(*n),
        _ => None,
    }
}

fn member_i32(j: &Json, key: &str) -> (r: Option<i32>)
    ensures
        r == field_i32(*j, key@),
{
    match integer_member(j, key) {
        Some(JsonNumber::PosInt(v)) => if v <= i32::MAX as u64 { Some(v as i32) } else { None },
        Some(JsonNumber::NegInt(v)) => if i32::MIN as i64 <= v && v <= i32::MAX as i64 {
            Some(v as i32)
        } else {
            None
        },
        _ => None,
    }
}

fn member_u8(j: &Json, key: &str) -> (r: Option<u8>)
    ensures
        r == field_u8(*j, key@),
{
    match integer_member(j, key) {
        Some(JsonNumber::PosInt(v)) => if v <= u8::MAX as u64 { Some(v as u8) } else { None },
        Some(JsonNumber::NegInt(v)) => if 0 <= v && v <= u8::MAX as i64 {
            Some(v as u8)
        } else {
            None
        },
        _ => None,
    }
}

fn member_usize(j: &Json, key: &str) -> (r: Option<usize>)
    ensures
        r == field_usize(*j, key@),
{
    match integer_member(j, key) {
        Some(JsonNumber::PosInt(v)) => if v as u128 <= usize::MAX as u128 {
            Some(v as usize)
        } else {
            None
        },
        Some(JsonNumber::NegInt(v)) => if 0 <= v && v as u128 <= usize::MAX as u128 {
            Some(v as usize)
        } else {
            None
        },
        _ => None,
    }
}

fn member_string(j: &Json, key: &str) -> (r: Option<String>)
    ensures
        r == field_string(*j, key@),
{
    match get_member(j, key) {
        Some(Json::Str(s)) => Some(s.clone()),
        _ => None,
    }
}

fn decode_success(j: &Json) -> (r: Option<Message>)
    ensures
        r == success_shape(*j),
{
    let id = member_i32(j, "id");
    let body = get_member(j, "result");
    match (id, body) {
        (Some(id), Some(body)) => {
            match (member_string(body, "status"), member_u8(body, "exitCode")) {
                (Some(status), Some(exit_code)) => Some(
                    Message::SuccessResponse { id, result: CommandResult { status, exit_code } },
                ),
                _ => None,
            }
        },
        _ => None,
    }
}

fn decode_error(j: &Json) -> (r: Option<Message>)
    ensures
        r == error_shape(*j),
{
    let id = member_i32(j, "id");
    let body = get_member(j, "error");
    match (id, body) {
        (Some(id), Some(body)) => {
            match (member_i32(body, "code"), member_string(body, "message")) {
                (Some(code), Some(message)) => Some(
                    Message::ErrorResponse { id, error: ErrorDetails { code, message } },
                ),
                _ => None,
            }
        },
        _ => None,
    }
}

fn decode_log(j: &Json) -> (r: Option<Message>)
    ensures
        r == log_shape(*j),
{
    let method = member_string(j, "method");
    let body = get_member(j, "params");
    match (method, body) {
        (Some(method), Some(body)) => {
            match (member_u8(body, "type"), member_string(body, "message")) {
                (Some(type_), Some(message)) => Some(
                    Message::LogMessage { method, params: LogMessageParams { type_, message } },
                ),
                _ => None,
            }
        },
        _ => None,
    }
}

fn decode_position(j: &Json) -> (r: Option<Position>)
    ensures
        r == spec_position(*j),
{
    match (member_usize(j, "line"), member_usize(j, "character")) {
        (Some(line), Some(character)) => Some(Position { line, character }),
        _ => None,
    }
}

fn decode_range(j: &Json) -> (r: Option<Range>)
    ensures
        r == spec_range(*j),
{
    match (get_member(j, "start"), get_member(j, "end")) {
        (Some(s), Some(e)) => match (decode_position(s), decode_position(e)) {
            (Some(start), Some(end)) => Some(Range { start, end }),
            _ => None,
        },
        _ => None,
    }
}

fn decode_diagnostic(j: &Json) -> (r: Option<Diagnostic>)
    ensures
        r == spec_diagnostic(*j),
{
    let range = get_member(j, "range");
    let severity = member_u8(j, "severity");
    let message = member_string(j, "message");
    match (range, severity, message) {
        (Some(range), Some(severity), Some(message)) => match decode_range(range) {
            Some(range) => Some(Diagnostic { range, severity, message }),
            None => None,
        },
        _ => None,
    }
}

/// Decodes every item of `items`, or none if one of them is not a diagnostic.
fn decode_diagnostics(items: &Vec<Json>) -> (r: Option<Vec<Diagnostic>>)
    ensures
        match r {
            Some(ds) => diagnostics_decoded(items@, ds@),
            None => !all_diagnostics(items@),
        },
{
    let mut ds: Vec<Diagnostic> = Vec::new();
    let mut i: usize = 0;
    while i < items.len()
        invariant
            i <= items@.len(),
            diagnostics_decoded(items@.subrange(0, i as int), ds@),
        decreases items@.len() - i,
    {
        match decode_diagnostic(&items[i]) {
            Some(d) => {
                ds.push(d);
                assert(diagnostics_decoded(items@.subrange(0, i + 1), ds@)) by {
                    assert forall|k: int| 0 <= k < i + 1 implies spec_diagnostic(
                        #[trigger] items@.subrange(0, i + 1)[k],
                    ) == Some(ds@[k]) by {
                        if k < i {
                            assert(items@.subrange(0, i as int)[k] == items@.subrange(0, i + 1)[k]);
                        }
                    }
                }
            },
            None => {
                assert(spec_diagnostic(items@[i as int]) is None);
                return None;
            },
        }
        i = i + 1;
    }
    assert(items@.subrange(0, i as int) =~= items@);
    Some(ds)
}

fn decode_publish_diagnostics(j: &Json) -> (r: Option<Message>)
    ensures
        match r {
            Some(m) => has_diagnostics_shape(*j) && diagnostics_shape(*j, m),
            None => !has_diagnostics_shape(*j),
        },
{
    let method = member_string(j, "method");
    let body = get_member(j, "params");
    match (method, body) {
        (Some(method), Some(body)) => {
            match (member_string(body, "uri"), get_member(body, "diagnostics")) {
                (Some(uri), Some(Json::Array(items))) => match decode_diagnostics(items) {
                    Some(diagnostics) => Some(
                        Message::PublishDiagnostics {
                            method,
                            params: PublishDiagnosticsParams { uri, diagnostics },
                        },
                    ),
                    None => None,
                },
                _ => None,
            }
        },
        _ => None,
    }
}

/// Decodes a JSON value into the first message shape that it has, trying
/// success response, error response, log message and diagnostics
/// notification in that order.
pub fn decode_message(j: &Json) -> (r: Result<Message, SbtClientError>)
    ensures
        decodes_as(*j, r),
{
    if let Some(m) = decode_success(j) {
        return Ok(m);
    }
    if let Some(m) = decode_error(j) {
        return Ok(m);
    }
    if let Some(m) = decode_log(j) {
        return Ok(m);
    }
    if let Some(m) = decode_publish_diagnostics(j) {
        return Ok(m);
    }
    Err(SbtClientError::new(ErrorKind::UnrecognizedShape, "Message matches no known shape"))
}

} // verus!
