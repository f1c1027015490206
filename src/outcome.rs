use vstd::prelude::*;
use vstd::string::StringExecFns;

verus! {

/// The phase of a transfer in which a failure arose.
#[derive(Clone, Copy, Debug, PartialEq, Eq, Structural)]
pub enum ErrorKind {
    /// A request was refused before any I/O (an empty path).
    Validation,
    /// The source could not be opened.
    SourceOpen,
    /// The size of the source could not be read.
    Metadata,
    /// The destination could not be created or truncated.
    DestinationOpen,
    /// Reading a chunk of the source failed.
    Read,
    /// Writing a chunk to the destination failed.
    Write,
}

/// The short context prefix that names each phase in a failure message.
pub open spec fn kind_label(kind: ErrorKind) -> Seq<char> {
    match kind {
        ErrorKind::Validation => "validation error"@,
        ErrorKind::SourceOpen => "source error"@,
        ErrorKind::Metadata => "metadata error"@,
        ErrorKind::DestinationOpen => "destination error"@,
        ErrorKind::Read => "read error"@,
        ErrorKind::Write => "write error"@,
    }
}

impl ErrorKind {
    pub fn label(&self) -> (r: &'static str)
        ensures
            r@ == kind_label(*self),
    {
        match self {
            ErrorKind::Validation => "validation error",
            ErrorKind::SourceOpen => "source error",
            ErrorKind::Metadata => "metadata error",
            ErrorKind::DestinationOpen => "destination error",
            ErrorKind::Read => "read error",
            ErrorKind::Write => "write error",
        }
    }
}

/// A failed transfer: the phase and the underlying cause, verbatim.
#[derive(Clone, Debug)]
pub struct TransferError {
    pub kind: ErrorKind,
    pub cause: String,
}

/// What a failure message reads: for an I/O phase, its label, a colon and
/// the cause; a refused request reads as its cause alone.
pub open spec fn error_text(kind: ErrorKind, cause: Seq<char>) -> Seq<char> {
    if kind == ErrorKind::Validation {
        cause
    } else {
        kind_label(kind) + ": "@ + cause
    }
}

impl View for TransferError {
    type V = (ErrorKind, Seq<char>);

    open spec fn view(&self) -> (ErrorKind, Seq<char>) {
        (self.kind, self.cause@)
    }
}

impl TransferError {
    pub fn new(kind: ErrorKind, cause: String) -> (r: TransferError)
        ensures
            r.kind == kind,
            r.cause@ == cause@,
    {
        TransferError { kind, cause }
    }

    /// The text shown to the user for this failure.
    pub fn message(&self) -> (r: String)
        ensures
            r@ == error_text(self.kind, self.cause@),
    {
        if self.kind == ErrorKind::Validation {
            return self.cause.clone();
        }
        let head = self.kind.label().to_owned().concat(": ");
        head.concat(self.cause.as_str())
    }
}

/// The view of a terminal outcome, with the failure cause as characters.
pub enum OutcomeView {
    Success,
    Cancelled,
    Failed(ErrorKind, Seq<char>),
}

/// The terminal result of one transfer, produced exactly once.
#[derive(Clone, Debug)]
pub enum TransferOutcome {
    Success,
    Cancelled,
    Failed(TransferError),
}

impl View for TransferOutcome {
    type V = OutcomeView;

    open spec fn view(&self) -> OutcomeView {
        match self {
            TransferOutcome::Success => OutcomeView::Success,
            TransferOutcome::Cancelled => OutcomeView::Cancelled,
            TransferOutcome::Failed(e) => OutcomeView::Failed(e.kind, e.cause@),
        }
    }
}

} // verus!
