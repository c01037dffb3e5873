use sbtclient::{
    body_text, decode_message, ends_with_double_newline, is_final_message, take_body, Command,
    CommandResult, Diagnostic, ErrorDetails, ErrorKind, FrameReader, HeaderParser, Json,
    JsonNumber, LogMessageParams, Message, Position, PublishDiagnosticsParams, Range,
    SbtClientError, COMMAND_ID,
};

fn to_json(v: &serde_json::Value) -> Json {
    match v {
        serde_json::Value::Null => Json::Null,
        serde_json::Value::Bool(b) => Json::Bool(*b),
        serde_json::Value::Number(n) => Json::Number(if let Some(u) = n.as_u64() {
            JsonNumber::PosInt(u)
        } else if let Some(i) = n.as_i64() {
            JsonNumber::NegInt(i)
        } else {
            JsonNumber::Fraction
        }),
        serde_json::Value::String(s) => Json::Str(s.clone()),
        serde_json::Value::Array(items) => Json::Array(items.iter().map(to_json).collect()),
        serde_json::Value::Object(members) => Json::Object(
            members.iter().map(|(k, v)| (k.clone(), to_json(v))).collect(),
        ),
    }
}

fn parse(text: &str) -> Json {
    to_json(&serde_json::from_str::<serde_json::Value>(text).unwrap())
}

/// Reads one frame from `input` the way a caller drives the library, and
/// returns the decoded message with whether it ends the session.
fn receive(input: &[u8]) -> Result<(Message, bool), SbtClientError> {
    let parser = HeaderParser::new();
    let mut reader = FrameReader::new();
    let mut pos = 0;
    while !reader.headers_complete() {
        if pos == input.len() {
            return Err(SbtClientError::new(ErrorKind::ShortRead, "end of input in headers"));
        }
        reader.push_header_byte(input[pos]);
        pos += 1;
    }
    let n = reader.content_length(&parser)?;
    let end = std::cmp::min(input.len(), pos.saturating_add(n));
    let body = take_body(n, input[pos..end].to_vec())?;
    let text = body_text(body)?;
    let value = match serde_json::from_str::<serde_json::Value>(&text) {
        Ok(v) => to_json(&v),
        Err(_) => return Err(SbtClientError::new(ErrorKind::MalformedJson, "not JSON")),
    };
    let message = decode_message(&value)?;
    let last = is_final_message(&message);
    Ok((message, last))
}

#[test]
fn receive_successful_result() {
    let lsp_message = "Content-Type: application/vscode-jsonrpc; charset=utf-8\r
Content-Length: 126\r
\r
{\"jsonrpc\":\"2.0\",\"id\":1,\"result\":{\"status\":\"Done\",\"channelName\":\"network-1\",\"execId\":1,\"commandQueue\":[\"shell\"],\"exitCode\":0}}".as_bytes();

    let (msg, received_final_message) = receive(lsp_message).unwrap();
    let expected = Message::SuccessResponse {
        id: 1,
        result: CommandResult { status: "Done".to_string(), exit_code: 0 },
    };
    assert_eq!(expected, msg);
    assert_eq!(true, received_final_message);
}

#[test]
fn receive_log_message() {
    let lsp_message = "Content-Type: application/vscode-jsonrpc; charset=utf-8\r
Content-Length: 89\r
\r
{\"jsonrpc\":\"2.0\",\"method\":\"window/logMessage\",\"params\":{\"type\":4,\"message\":\"Processing\"}}".as_bytes();

    let (msg, received_final_message) = receive(lsp_message).unwrap();
    let expected = Message::LogMessage {
        method: "window/logMessage".to_string(),
        params: LogMessageParams { type_: 4, message: "Processing".to_string() },
    };
    assert_eq!(expected, msg);
    assert_eq!(false, received_final_message);
}

#[test]
fn frame_without_other_headers_is_read() {
    let body = "{\"jsonrpc\":\"2.0\",\"id\":1,\"result\":{\"status\":\"Done\",\"exitCode\":0}}";
    let frame = format!("Content-Length: {}\r\n\r\n{}", body.len(), body);
    let (msg, last) = receive(frame.as_bytes()).unwrap();
    assert_eq!(
        msg,
        Message::SuccessResponse {
            id: 1,
            result: CommandResult { status: "Done".to_string(), exit_code: 0 }
        }
    );
    assert!(last);
}

#[test]
fn reader_stops_at_blank_line() {
    let mut reader = FrameReader::new();
    let input = b"Content-Length: 2\r\n\r\n{}";
    let mut pos = 0;
    while !reader.headers_complete() {
        reader.push_header_byte(input[pos]);
        pos += 1;
    }
    assert_eq!(pos, 21);
    assert_eq!(reader.content_length(&HeaderParser::new()).unwrap(), 2);
}

#[test]
fn extracts_length_among_other_lines() {
    let parser = HeaderParser::new();
    let a = "Content-Type: text/plain\r\nContent-Length: 126\r\n\r\n".to_string();
    let b = "Content-Length: 126\r\nContent-Type: text/plain\r\nX-Other: 9\r\n\r\n".to_string();
    assert_eq!(parser.extract_content_length(a).unwrap(), 126);
    assert_eq!(parser.extract_content_length(b).unwrap(), 126);
    assert_eq!(parser.extract_content_length("Content-Length: 0\r\n\r\n".to_string()).unwrap(), 0);
    assert_eq!(
        parser.extract_content_length("Content-Length: 007\r\n\r\n".to_string()).unwrap(),
        7
    );
}

#[test]
fn leftmost_length_line_wins() {
    let parser = HeaderParser::new();
    let h = "Content-Length: 12\r\nContent-Length: 34\r\n\r\n".to_string();
    assert_eq!(parser.extract_content_length(h).unwrap(), 12);
}

#[test]
fn largest_length_is_accepted() {
    let parser = HeaderParser::new();
    let h = format!("Content-Length: {}\r\n\r\n", usize::MAX);
    assert_eq!(parser.extract_content_length(h).unwrap(), usize::MAX);
}

#[test]
fn missing_length_is_a_framing_error() {
    let parser = HeaderParser::new();
    for h in ["Content-Type: text/plain\r\n\r\n", "\r\n", "Content-Length: x\r\n\r\n", ""] {
        let e = parser.extract_content_length(h.to_string()).unwrap_err();
        assert_eq!(e.kind, ErrorKind::MissingContentLength);
    }
}

#[test]
fn oversized_length_is_invalid() {
    let parser = HeaderParser::new();
    let h = "Content-Length: 99999999999999999999999999\r\n\r\n".to_string();
    let e = parser.extract_content_length(h).unwrap_err();
    assert_eq!(e.kind, ErrorKind::InvalidContentLength);
}

#[test]
fn short_body_is_an_io_error() {
    let e = receive(b"Content-Length: 10\r\n\r\n{}").unwrap_err();
    assert_eq!(e.kind, ErrorKind::ShortRead);
    let e = take_body(3, vec![1, 2]).unwrap_err();
    assert_eq!(e.kind, ErrorKind::ShortRead);
    assert_eq!(take_body(2, vec![1, 2, 3]).unwrap(), vec![1, 2]);
    assert_eq!(take_body(0, vec![]).unwrap(), Vec::<u8>::new());
}

#[test]
fn invalid_header_encoding() {
    let mut reader = FrameReader::new();
    for b in [0xffu8, b'\r', b'\n', b'\r', b'\n'] {
        reader.push_header_byte(b);
    }
    assert!(reader.headers_complete());
    let e = reader.content_length(&HeaderParser::new()).unwrap_err();
    assert_eq!(e.kind, ErrorKind::InvalidHeaderEncoding);
}

#[test]
fn invalid_body_encoding() {
    let e = body_text(vec![b'{', 0xc3]).unwrap_err();
    assert_eq!(e.kind, ErrorKind::InvalidBodyEncoding);
    let e = receive(b"Content-Length: 1\r\n\r\n\xff").unwrap_err();
    assert_eq!(e.kind, ErrorKind::InvalidBodyEncoding);
}

#[test]
fn body_text_decodes_utf8() {
    assert_eq!(body_text(vec![0x22, 0xc3, 0xa9, 0x22]).unwrap(), "\"\u{e9}\"");
    assert_eq!(body_text(vec![]).unwrap(), "");
}

#[test]
fn malformed_json_is_reported() {
    let e = receive(b"Content-Length: 5\r\n\r\n{\"id\"").unwrap_err();
    assert_eq!(e.kind, ErrorKind::MalformedJson);
}

#[test]
fn terminator_detection() {
    assert!(ends_with_double_newline(&vec![13, 10, 13, 10]));
    assert!(ends_with_double_newline(&b"a: b\r\n\r\n".to_vec()));
    assert!(!ends_with_double_newline(&vec![13, 10, 13]));
    assert!(!ends_with_double_newline(&vec![10, 13, 10, 13]));
    assert!(!ends_with_double_newline(&vec![]));
}

#[test]
fn success_shape_takes_precedence() {
    let j = parse(
        "{\"id\":1,\"result\":{\"status\":\"Done\",\"exitCode\":3},\
         \"error\":{\"code\":5,\"message\":\"bad\"},\
         \"method\":\"window/logMessage\",\"params\":{\"type\":1,\"message\":\"m\"}}",
    );
    let m = decode_message(&j).unwrap();
    assert_eq!(
        m,
        Message::SuccessResponse {
            id: 1,
            result: CommandResult { status: "Done".to_string(), exit_code: 3 }
        }
    );
}

#[test]
fn error_response_ends_session() {
    let j = parse("{\"jsonrpc\":\"2.0\",\"id\":1,\"error\":{\"code\":-32600,\"message\":\"bad\"}}");
    let m = decode_message(&j).unwrap();
    assert_eq!(
        m,
        Message::ErrorResponse {
            id: 1,
            error: ErrorDetails { code: -32600, message: "bad".to_string() }
        }
    );
    assert!(is_final_message(&m));
}

#[test]
fn response_to_another_id_does_not_end_session() {
    let j = parse("{\"id\":2,\"result\":{\"status\":\"Done\",\"exitCode\":0}}");
    let m = decode_message(&j).unwrap();
    assert!(!is_final_message(&m));
}

#[test]
fn out_of_range_field_falls_to_next_shape() {
    // exitCode does not fit a u8, so the value is no success response
    let j = parse("{\"id\":1,\"result\":{\"status\":\"Done\",\"exitCode\":256}}");
    assert_eq!(decode_message(&j).unwrap_err().kind, ErrorKind::UnrecognizedShape);
    let j = parse("{\"id\":1,\"result\":{\"status\":\"Done\",\"exitCode\":1.5}}");
    assert_eq!(decode_message(&j).unwrap_err().kind, ErrorKind::UnrecognizedShape);
}

#[test]
fn unrecognized_shape() {
    for text in ["{}", "[1,2]", "null", "{\"id\":1}", "{\"method\":\"m\",\"params\":{}}"] {
        let e = decode_message(&parse(text)).unwrap_err();
        assert_eq!(e.kind, ErrorKind::UnrecognizedShape);
    }
}

#[test]
fn diagnostics_keep_order_and_duplicates() {
    let d = "{\"range\":{\"start\":{\"line\":3,\"character\":4},\"end\":{\"line\":3,\"character\":9}},\
             \"severity\":1,\"message\":\"oops\"}";
    let e = "{\"range\":{\"start\":{\"line\":0,\"character\":0},\"end\":{\"line\":1,\"character\":2}},\
             \"severity\":2,\"message\":\"warn\"}";
    let text = format!(
        "{{\"method\":\"build/publishDiagnostics\",\"params\":{{\"uri\":\"file:///a.scala\",\
         \"diagnostics\":[{},{},{}]}}}}",
        d, e, d
    );
    let m = decode_message(&parse(&text)).unwrap();
    let first = || Diagnostic {
        range: Range {
            start: Position { line: 3, character: 4 },
            end: Position { line: 3, character: 9 },
        },
        severity: 1,
        message: "oops".to_string(),
    };
    let second = Diagnostic {
        range: Range {
            start: Position { line: 0, character: 0 },
            end: Position { line: 1, character: 2 },
        },
        severity: 2,
        message: "warn".to_string(),
    };
    let expected = Message::PublishDiagnostics {
        method: "build/publishDiagnostics".to_string(),
        params: PublishDiagnosticsParams {
            uri: "file:///a.scala".to_string(),
            diagnostics: vec![first(), second, first()],
        },
    };
    assert_eq!(m, expected);
    assert!(!is_final_message(&m));
}

#[test]
fn empty_diagnostics() {
    let j = parse("{\"method\":\"build/publishDiagnostics\",\"params\":{\"uri\":\"u\",\"diagnostics\":[]}}");
    let m = decode_message(&j).unwrap();
    assert_eq!(
        m,
        Message::PublishDiagnostics {
            method: "build/publishDiagnostics".to_string(),
            params: PublishDiagnosticsParams { uri: "u".to_string(), diagnostics: vec![] },
        }
    );
}

#[test]
fn decoding_twice_gives_equal_messages() {
    let frame = b"Content-Length: 73\r\n\r\n{\"method\":\"window/logMessage\",\"params\":{\"type\":4,\"message\":\"Processing\"}}";
    let (a, la) = receive(frame).unwrap();
    let (b, lb) = receive(frame).unwrap();
    assert_eq!(a, b);
    assert_eq!(la, lb);
}

#[test]
fn command_carries_session_id() {
    let c = Command::new("sbt/exec".to_string(), "compile".to_string());
    assert_eq!(c.id, COMMAND_ID);
    assert_eq!(c.id, 1);
    assert_eq!(c.jsonrpc, "2.0");
    assert_eq!(c.method, "sbt/exec");
    assert_eq!(c.params.command_line, "compile");
}
