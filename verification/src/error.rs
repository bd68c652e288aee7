//! Basic error definitions specific to this crate.

use vstd::prelude::*;

use crate::exec::{Output, StatusCode};
use crate::print::{spec_err_line, write_err, ERROR};
use crate::strings::{decimal, spec_decimal};

verus! {

/// Error type for the `pacaptr` library.
///
/// Errors that come from outside this library (configuration parsing,
/// subprocess handling, input and output) carry the message of the error
/// that caused them.
#[derive(Debug)]
pub enum Error {
    /// Error when parsing CLI arguments.
    ArgParseError { msg: String },
    /// Error when handling a configuration.
    ConfigError(String),
    /// A command failed to finish.
    CmdJoinError(String),
    /// A command failed to spawn.
    CmdSpawnError(String),
    /// Error when trying to get a handle (e.g. `stdout`, `stderr`) out of a
    /// running command.
    CmdNoHandleError { handle: String },
    /// A command failed when waiting for it to finish.
    CmdWaitError(String),
    /// A command exited with an error.
    CmdStatusCodeError { code: StatusCode, output: Output },
    /// A command was interrupted by a signal.
    CmdInterruptedError,
    /// Error while converting bytes to a string.
    FromUtf8Error(String),
    /// Error while rendering a dialog.
    DialogError(String),
    /// A non-specific input or output error.
    IoError(String),
    /// A package manager operation is not implemented.
    OperationUnimplementedError { op: String, pm: String },
    /// Miscellaneous other error.
    OtherError(String),
}

/// The message of an error, as shown to the user. The errors that carry the
/// message of the error that caused them show it as it is.
pub open spec fn spec_message(e: Error) -> Seq<char> {
    match e {
        Error::ArgParseError { msg } => "failed to parse arguments: "@ + msg@,
        Error::ConfigError(_) => "failed to parse config"@,
        Error::CmdJoinError(_) => "failed to get exit code of subprocess"@,
        Error::CmdSpawnError(_) => "failed to spawn subprocess"@,
        Error::CmdNoHandleError { handle } => "subprocess didn't have a handle to "@ + handle@,
        Error::CmdWaitError(_) => "subprocess failed while running"@,
        Error::CmdStatusCodeError { code, .. } => "subprocess exited with code "@ + spec_decimal(code as int),
        Error::CmdInterruptedError => "subprocess interrupted by signal"@,
        Error::FromUtf8Error(m) => m@,
        Error::DialogError(m) => m@,
        Error::IoError(m) => m@,
        Error::OperationUnimplementedError { op, pm } => "operation `"@ + op@ + "` is unimplemented for `"@ + pm@ + "`"@,
        Error::OtherError(m) => m@,
    }
}

impl Error {
    /// The message of the error, as shown to the user.
    pub fn message(&self) -> (res: String)
        ensures
            res@ == spec_message(*self),
    {
        match self {
            Error::ArgParseError { msg } => String::from_str("failed to parse arguments: ").concat(msg.as_str()),
            Error::ConfigError(_) => String::from_str("failed to parse config"),
            Error::CmdJoinError(_) => String::from_str("failed to get exit code of subprocess"),
            Error::CmdSpawnError(_) => String::from_str("failed to spawn subprocess"),
            Error::CmdNoHandleError { handle } => String::from_str("subprocess didn't have a handle to ").concat(handle.as_str()),
            Error::CmdWaitError(_) => String::from_str("subprocess failed while running"),
            Error::CmdStatusCodeError { code, .. } => {
                let n = decimal(*code);
                String::from_str("subprocess exited with code ").concat(n.as_str())
            },
            Error::CmdInterruptedError => String::from_str("subprocess interrupted by signal"),
            Error::FromUtf8Error(m) => m.clone(),
            Error::DialogError(m) => m.clone(),
            Error::IoError(m) => m.clone(),
            Error::OperationUnimplementedError { op, pm } => String::from_str("operation `")
                .concat(op.as_str())
                .concat("` is unimplemented for `")
                .concat(pm.as_str())
                .concat("`"),
            Error::OtherError(m) => m.clone(),
        }
    }
}

/// A specialized `Result` type used by `pacaptr`.
pub type Result<T> = std::result::Result<T, Error>;

/// The result for a finished command according to its exit status code:
/// the output when the code is 0, an error with the code when it is
/// another number, and an interruption when there is no code (the process
/// was ended by a signal).
pub fn exit_result(code: Option<StatusCode>, output: Output) -> (res: Result<Output>)
    ensures
        code == Some(0i32) ==> (res matches Ok(o) && o@ == output@),
        (code matches Some(c) && c != 0) ==> (res matches Err(Error::CmdStatusCodeError { code: c2, output: o }) && c2 == code->0 && o@ == output@),
        code is None ==> (res matches Err(Error::CmdInterruptedError)),
{
    match code {
        Some(0) => Ok(output),
        Some(code) => Err(Error::CmdStatusCodeError { code, output }),
        None => Err(Error::CmdInterruptedError),
    }
}

/// An [`Error`] wrapper designed to be returned in the `main` function.
#[derive(Debug)]
pub struct MainError(pub Error);

/// The exit code reported for an error: the low byte of the status code of
/// a failed command, and 1 otherwise.
pub open spec fn spec_exit_code(e: Error) -> u8 {
    match e {
        Error::CmdStatusCodeError { code, .. } => code as u8,
        _ => 1,
    }
}

impl MainError {
    /// Wraps an [`Error`].
    pub fn from_error(e: Error) -> (res: Self)
        ensures
            res.0 == e,
    {
        MainError(e)
    }

    /// How the error is shown when the program ends with it: a carriage
    /// return, to erase what came before on the line, then the message of
    /// the error after the `Error` prompt.
    pub fn render(&self) -> (res: String)
        ensures
            res@ == "\r"@ + spec_err_line(ERROR@, spec_message(self.0)),
    {
        let msg = self.0.message();
        let line = write_err(ERROR, msg.as_str());
        String::from_str("\r").concat(line.as_str())
    }

    /// The exit code that the program reports for this error.
    pub fn report(&self) -> (res: u8)
        ensures
            res == spec_exit_code(self.0),
    {
        match &self.0 {
            Error::CmdStatusCodeError { code, .. } => *code as u8,
            _ => 1,
        }
    }
}

} // verus!
