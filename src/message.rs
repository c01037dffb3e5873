//! The decoded message shapes and the library's error type.
use vstd::prelude::*;

verus! {

/// The correlation id of the single command outstanding in a session.
pub const COMMAND_ID: i32 = 1;

/// What went wrong while receiving a message.
#[derive(Debug, Clone, Copy, PartialEq, Eq, Structural)]
pub enum ErrorKind {
    /// The header block has no `Content-Length: <digits>` line.
    MissingContentLength,
    /// The declared length does not fit in a `usize`.
    InvalidContentLength,
    /// The stream ended before the declared number of body bytes arrived.
    ShortRead,
    /// The stream failed while reading.
    ReadFailed,
    /// The header block is not valid UTF-8.
    InvalidHeaderEncoding,
    /// The body is not valid UTF-8.
    InvalidBodyEncoding,
    /// The body is not JSON.
    MalformedJson,
    /// The body is JSON but matches none of the message shapes.
    UnrecognizedShape,
}

/// An error with its kind and a message for humans.
#[derive(Debug)]
pub struct SbtClientError {
    pub kind: ErrorKind,
    pub message: String,
}

impl SbtClientError {
    pub fn new(kind: ErrorKind, message: &str) -> (r: SbtClientError)
        ensures
            r.kind == kind,
            r.message@ == message@,
    {
        SbtClientError { kind, message: message.to_owned() }
    }
}

/// The parameters of an outbound command request.
#[derive(Debug, PartialEq, Eq)]
pub struct CommandParams {
    pub command_line: String,
}

/// An outbound command request.
#[derive(Debug, PartialEq, Eq)]
pub struct Command {
    pub jsonrpc: String,
    pub id: i32,
    pub method: String,
    pub params: CommandParams,
}

impl Command {
    /// A request to run `command_line` through `method`, carrying the
    /// session's command id, which the reply will echo.
    pub fn new(method: String, command_line: String) -> (r: Command)
        ensures
            r.jsonrpc@ == "2.0"@,
            r.id == COMMAND_ID,
            r.method == method,
            r.params.command_line == command_line,
    {
        Command {
            jsonrpc: "2.0".to_owned(),
            id: COMMAND_ID,
            method,
            params: CommandParams { command_line },
        }
    }
}

/// The result of a command that the server completed.
#[derive(Debug, PartialEq, Eq)]
pub struct CommandResult {
    pub status: String,
    pub exit_code: u8,
}

/// A protocol-level failure of a command.
#[derive(Debug, PartialEq, Eq)]
pub struct ErrorDetails {
    pub code: i32,
    pub message: String,
}

/// A log line pushed by the server.
#[derive(Debug, PartialEq, Eq)]
pub struct LogMessageParams {
    pub type_: u8,
    pub message: String,
}

/// A position in a source file.
#[derive(Debug, Clone, Copy, PartialEq, Eq, Hash, Structural)]
pub struct Position {
    pub line: usize,
    pub character: usize,
}

/// A span of a source file.
#[derive(Debug, Clone, Copy, PartialEq, Eq, Hash, Structural)]
pub struct Range {
    pub start: Position,
    pub end: Position,
}

/// A finding of the build tool about a source file.
#[derive(Debug, PartialEq, Eq, Hash)]
pub struct Diagnostic {
    pub range: Range,
    pub severity: u8,
    pub message: String,
}

/// The diagnostics for one source file, in the order the server sent them.
#[derive(Debug, PartialEq, Eq)]
pub struct PublishDiagnosticsParams {
    pub uri: String,
    pub diagnostics: Vec<Diagnostic>,
}

/// A decoded message: one of four shapes, told apart by their fields.
#[derive(Debug, PartialEq, Eq)]
#[allow(inconsistent_fields)]
pub enum Message {
    SuccessResponse { id: i32, result: CommandResult },
    ErrorResponse { id: i32, error: ErrorDetails },
    LogMessage { method: String, params: LogMessageParams },
    PublishDiagnostics { method: String, params: PublishDiagnosticsParams },
}

/// Whether `m` answers the session's outstanding command.
pub open spec fn answers_command(m: Message) -> bool {
    match m {
        Message::SuccessResponse { id, .. } => id == COMMAND_ID,
        Message::ErrorResponse { id, .. } => id == COMMAND_ID,
        _ => false,
    }
}

/// Whether `m` concludes the session: a success or error response to the
/// outstanding command. Notifications never do.
pub fn is_final_message(m: &Message) -> (r: bool)
    ensures
        r == answers_command(*m),
{
    match m {
        Message::SuccessResponse { id, .. } => *id == COMMAND_ID,
        Message::ErrorResponse { id, .. } => *id == COMMAND_ID,
        _ => false,
    }
}

} // verus!
