//! Diagnostics: one line per error, made of a context and the error's detail.

use vstd::prelude::*;
use vstd::string::StringExecFns;

verus! {

/// The kinds of error the server meets.
#[derive(Clone, Copy, Debug, PartialEq, Eq, Structural)]
pub enum ErrorKind {
    /// The listening socket could not be bound. Fatal.
    Bind,
    /// One attempt to accept a connection failed. The accept loop goes on.
    Accept,
    /// A read on one connection failed. That session ends.
    Read,
    /// A write on one connection failed. That session ends.
    Write,
}

impl ErrorKind {
    /// The words that open a diagnostic of this kind.
    pub open spec fn context_text(self) -> Seq<char> {
        match self {
            ErrorKind::Bind => "Cannot bind to address"@,
            ErrorKind::Accept => "Error in accepting client connection"@,
            ErrorKind::Read => "There was error in read"@,
            ErrorKind::Write => "There was error in write"@,
        }
    }

    /// The words that open a diagnostic of this kind.
    pub fn context(&self) -> (text: &'static str)
        ensures
            text@ == self.context_text(),
    {
        match self {
            ErrorKind::Bind => "Cannot bind to address",
            ErrorKind::Accept => "Error in accepting client connection",
            ErrorKind::Read => "There was error in read",
            ErrorKind::Write => "There was error in write",
        }
    }
}

/// The diagnostic line for `detail` under `context`: the context, a colon and a
/// space, then the detail.
pub open spec fn diagnostic(context: Seq<char>, detail: Seq<char>) -> Seq<char> {
    context + ": "@ + detail
}

/// Formats the diagnostic for an error met under `context`. The caller emits
/// the line; formatting never fails.
pub fn report(context: &str, detail: &str) -> (line: String)
    ensures
        line@ == diagnostic(context@, detail@),
{
    let mut line = String::from_str(context);
    line.append(": ");
    line.append(detail);
    line
}

/// The diagnostic of an error of `kind` that names nothing but its detail.
pub fn report_kind(kind: ErrorKind, detail: &str) -> (line: String)
    ensures
        line@ == diagnostic(kind.context_text(), detail@),
{
    report(kind.context(), detail)
}

} // verus!
