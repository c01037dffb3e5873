//! Client side of the length-prefixed JSON-RPC protocol spoken by a build
//! server: frame reading, header parsing, message decoding and the decision
//! whether a message concludes the outstanding command.
pub mod decode;
pub mod frame;
pub mod header;
pub mod json;
pub mod message;

pub use decode::decode_message;
pub use frame::{body_text, ends_with_double_newline, take_body, FrameReader};
pub use header::HeaderParser;
pub use json::{Json, JsonNumber};
pub use message::{
    is_final_message, Command, CommandParams, CommandResult, Diagnostic, ErrorDetails, ErrorKind,
    LogMessageParams, Message, Position, PublishDiagnosticsParams, Range, SbtClientError,
    COMMAND_ID,
};
