//! Typed errors for every failure the protocol core can report.

use vstd::prelude::*;

use crate::strutil::int_str;
use crate::strutil::push_dec_i32;

verus! {

/// Error type covering connection, process, decoding, timeout and protocol
/// failures. Each variant carries a human-readable message; some carry
/// structured detail beside it.
#[derive(Debug, Clone)]
pub enum ClaudeSDKError {
    /// Unable to connect to the child process or its pipes.
    CLIConnection(String),
    /// The executable could not be located, with the attempted path if any.
    CLINotFound { message: String, cli_path: Option<String> },
    /// The child process failed, with exit code and captured stderr when available.
    Process { message: String, exit_code: Option<i32>, stderr: Option<String> },
    /// A line could not be decoded as JSON.
    Json(String),
    /// A decoded JSON value could not be parsed as a message, with the raw text when available.
    MessageParse { message: String, data: Option<String> },
    /// An operation exceeded its deadline.
    Timeout(String),
    /// A read or write on the pipes failed.
    Io(String),
    /// The control protocol was violated (bad shape, missing callback, closed channel).
    ControlProtocol(String),
    /// The caller supplied an invalid configuration.
    InvalidConfig(String),
}

/// The display text of an error: its kind's prefix and its message.
pub open spec fn error_text(e: ClaudeSDKError) -> Seq<char> {
    match e {
        ClaudeSDKError::CLIConnection(m) => "CLI connection error: "@ + m@,
        ClaudeSDKError::CLINotFound { message, .. } => "CLI not found: "@ + message@,
        ClaudeSDKError::Process { message, .. } => "Process error: "@ + message@,
        ClaudeSDKError::Json(m) => "JSON decode error: "@ + m@,
        ClaudeSDKError::MessageParse { message, .. } => "Message parse error: "@ + message@,
        ClaudeSDKError::Timeout(m) => "Timeout error: "@ + m@,
        ClaudeSDKError::Io(m) => "IO error: "@ + m@,
        ClaudeSDKError::ControlProtocol(m) => "Control protocol error: "@ + m@,
        ClaudeSDKError::InvalidConfig(m) => "Invalid configuration: "@ + m@,
    }
}

/// The message of a process error: the base text, then the exit code and the
/// captured stderr when they are known.
pub open spec fn process_error_text(
    message: Seq<char>,
    exit_code: Option<i32>,
    stderr: Option<String>,
) -> Seq<char> {
    (match exit_code {
        Some(code) => message + " (exit code: "@ + int_str(code as int) + ")"@,
        None => message,
    }) + (match stderr {
        Some(err) => "\nError output: "@ + err@,
        None => Seq::empty(),
    })
}

impl ClaudeSDKError {
    /// The error's display text: the kind's prefix and the message.
    pub fn message(&self) -> (r: String)
        ensures
            r@ == error_text(*self),
    {
        let mut s: String;
        match self {
            ClaudeSDKError::CLIConnection(m) => {
                s = String::from_str("CLI connection error: ");
                s.append(m.as_str());
            },
            ClaudeSDKError::CLINotFound { message, .. } => {
                s = String::from_str("CLI not found: ");
                s.append(message.as_str());
            },
            ClaudeSDKError::Process { message, .. } => {
                s = String::from_str("Process error: ");
                s.append(message.as_str());
            },
            ClaudeSDKError::Json(m) => {
                s = String::from_str("JSON decode error: ");
                s.append(m.as_str());
            },
            ClaudeSDKError::MessageParse { message, .. } => {
                s = String::from_str("Message parse error: ");
                s.append(message.as_str());
            },
            ClaudeSDKError::Timeout(m) => {
                s = String::from_str("Timeout error: ");
                s.append(m.as_str());
            },
            ClaudeSDKError::Io(m) => {
                s = String::from_str("IO error: ");
                s.append(m.as_str());
            },
            ClaudeSDKError::ControlProtocol(m) => {
                s = String::from_str("Control protocol error: ");
                s.append(m.as_str());
            },
            ClaudeSDKError::InvalidConfig(m) => {
                s = String::from_str("Invalid configuration: ");
                s.append(m.as_str());
            },
        }
        s
    }

    /// A "not found" error, keeping the attempted path when one was tried.
    pub fn cli_not_found(cli_path: Option<String>) -> (r: ClaudeSDKError)
        ensures
            r matches ClaudeSDKError::CLINotFound { message, cli_path: p } && p == cli_path && (
            match cli_path {
                Some(path) => message@ == "CLI executable not found at: "@ + path@,
                None => message@ == "CLI executable not found; configure its path or name"@,
            }),
    {
        let message = match &cli_path {
            Some(path) => {
                let mut m = String::from_str("CLI executable not found at: ");
                m.append(path.as_str());
                m
            },
            None => String::from_str("CLI executable not found; configure its path or name"),
        };
        ClaudeSDKError::CLINotFound { message, cli_path }
    }

    /// A process error whose message spells out the exit code and the
    /// captured stderr when they are known.
    pub fn process_error(message: &str, exit_code: Option<i32>, stderr: Option<String>) -> (r:
        ClaudeSDKError)
        ensures
            r matches ClaudeSDKError::Process { message: m, exit_code: c, stderr: s } && c
                == exit_code && s == stderr && m@ == process_error_text(
                message@,
                exit_code,
                stderr,
            ),
    {
        let mut m = message.to_owned();
        if let Some(code) = exit_code {
            m.append(" (exit code: ");
            push_dec_i32(&mut m, code);
            m.append(")");
        }
        if let Some(err) = &stderr {
            m.append("\nError output: ");
            m.append(err.as_str());
        }
        proof {
            assert(m@ =~= process_error_text(message@, exit_code, stderr));
        }
        ClaudeSDKError::Process { message: m, exit_code, stderr }
    }

    /// Create a message-parse error.
    pub fn message_parse(message: String, data: Option<String>) -> (r: ClaudeSDKError)
        ensures
            r == (ClaudeSDKError::MessageParse { message, data }),
    {
        ClaudeSDKError::MessageParse { message, data }
    }
}

} // verus!
