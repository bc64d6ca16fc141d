//! What the operator tooling makes of a command that has run.

use crate::text::{debug_quoted, quoted, string_from_utf8, text_view, utf8_error_text};
use vstd::prelude::*;
use vstd::string::*;
use vstd::utf8::*;

verus! {

/// The failure of a command: why it failed, and what it wrote to its error
/// stream where it ran and wrote text there.
#[derive(Clone, Debug, PartialEq, Eq)]
pub struct CmdError {
    stderr: Option<String>,
    source: String,
}

/// A command's failure over mathematical text.
pub struct CmdErrorView {
    pub stderr: Option<Seq<char>>,
    pub source: Seq<char>,
}

impl View for CmdError {
    type V = CmdErrorView;

    closed spec fn view(&self) -> CmdErrorView {
        CmdErrorView { stderr: text_view(self.stderr), source: self.source@ }
    }
}

/// The failure of a command that ran and reported failure: its error stream
/// as text, and a cause that names the command. Where the error stream is no
/// text, the failure is that it is none.
pub open spec fn failed_run(command_text: Seq<char>, stderr: Seq<u8>) -> CmdErrorView {
    if valid_utf8(stderr) {
        CmdErrorView {
            stderr: Some(decode_utf8(stderr)),
            source: "Command failed to run: "@ + command_text,
        }
    } else {
        CmdErrorView { stderr: None, source: utf8_error_text(stderr) }
    }
}

/// What a failure reads as: the cause, then the error stream as a programmer
/// would write it.
pub open spec fn cmd_error_text(e: CmdErrorView) -> Seq<char> {
    "Cmd error: "@ + e.source + " "@ + match e.stderr {
        Some(text) => "Some("@ + quoted(text) + ")"@,
        None => "None"@,
    }
}

impl CmdError {
    /// The failure with this error stream and this cause.
    pub fn new(stderr: Option<String>, source: String) -> (e: CmdError)
        ensures
            e@ == (CmdErrorView { stderr: text_view(stderr), source: source@ }),
    {
        CmdError { stderr, source }
    }

    /// The failure with this cause and no error stream: what becomes of a
    /// failure to start a command, to read its output, or to read it as text.
    pub fn from_source(source: String) -> (e: CmdError)
        ensures
            e@ == (CmdErrorView { stderr: None, source: source@ }),
    {
        CmdError { stderr: None, source }
    }

    /// What the command wrote to its error stream, where that is known.
    pub fn stderr(&self) -> (r: &Option<String>)
        ensures
            text_view(*r) == self@.stderr,
    {
        &self.stderr
    }

    /// Why the command failed.
    pub fn source(&self) -> (r: &String)
        ensures
            r@ == self@.source,
    {
        &self.source
    }

    /// What this failure reads as.
    pub fn message(&self) -> (text: String)
        ensures
            text@ == cmd_error_text(self@),
    {
        let mut text = String::from_str("Cmd error: ");
        text.append(self.source.as_str());
        text.append(" ");
        match &self.stderr {
            Some(said) => {
                let inner = debug_quoted(said.as_str());
                text.append("Some(");
                text.append(inner.as_str());
                text.append(")");
                assert(text@ =~= cmd_error_text(self@));
            },
            None => {
                text.append("None");
            },
        }
        text
    }
}

/// Judges a command that has run: nothing to report where it succeeded, and
/// else the failure made of its name and of its error stream.
pub fn check_output_status(command_text: &str, success: bool, stderr: Vec<u8>) -> (r: Result<(), CmdError>)
    ensures
        success ==> r is Ok,
        !success ==> (r matches Err(e) && e@ == failed_run(command_text@, stderr@)),
{
    if success {
        return Ok(());
    }
    match string_from_utf8(stderr) {
        Ok(said) => {
            let mut source = String::from_str("Command failed to run: ");
            source.append(command_text);
            Err(CmdError { stderr: Some(said), source })
        },
        Err(why) => Err(CmdError::from_source(why)),
    }
}

} // verus!
