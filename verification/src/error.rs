//! What can end a transfer, and how the end is reported.

use vstd::prelude::*;
use vstd::string::StringExecFns;

verus! {

/// The reason a transfer stopped. Every error is final for the transfer in
/// which it occurs.
#[derive(Debug, Clone, PartialEq, Eq)]
pub enum TransferError {
    /// The request could not be decoded; `cause` says why.
    Config { cause: String },
    /// A transfer was asked for before the engine was initialised.
    Lifecycle,
    /// The file to upload holds no bytes.
    EmptyFile,
    /// The backend opened no multipart session.
    SessionInit { cause: String },
    /// The upload of one part failed for good.
    PartTransfer { part_number: i32, cause: String },
    /// The backend refused to complete the multipart session.
    Completion { cause: String },
    /// The local file could not be opened, read or written.
    LocalIo { cause: String },
    /// The object key is not valid percent-encoded UTF-8.
    Decode { cause: String },
    /// The backend failed to hand out the object that a download asked for.
    Download { cause: String },
}

/// Mathematical value of a `TransferError`: the same cases over sequences of
/// characters.
pub enum TransferErrorView {
    Config { cause: Seq<char> },
    Lifecycle,
    EmptyFile,
    SessionInit { cause: Seq<char> },
    PartTransfer { part_number: i32, cause: Seq<char> },
    Completion { cause: Seq<char> },
    LocalIo { cause: Seq<char> },
    Decode { cause: Seq<char> },
    Download { cause: Seq<char> },
}

impl View for TransferError {
    type V = TransferErrorView;

    open spec fn view(&self) -> TransferErrorView {
        match *self {
            TransferError::Config { cause } => TransferErrorView::Config { cause: cause@ },
            TransferError::Lifecycle => TransferErrorView::Lifecycle,
            TransferError::EmptyFile => TransferErrorView::EmptyFile,
            TransferError::SessionInit { cause } => TransferErrorView::SessionInit {
                cause: cause@,
            },
            TransferError::PartTransfer { part_number, cause } => TransferErrorView::PartTransfer {
                part_number,
                cause: cause@,
            },
            TransferError::Completion { cause } => TransferErrorView::Completion { cause: cause@ },
            TransferError::LocalIo { cause } => TransferErrorView::LocalIo { cause: cause@ },
            TransferError::Decode { cause } => TransferErrorView::Decode { cause: cause@ },
            TransferError::Download { cause } => TransferErrorView::Download { cause: cause@ },
        }
    }
}

/// The text shown for an error: a fixed sentence where the error has no
/// cause of its own, the cause behind a fixed prefix for requests that could
/// not be read, and the cause itself for what the backend or the file
/// system reported.
pub open spec fn message_of(error: TransferErrorView) -> Seq<char> {
    match error {
        TransferErrorView::Config { cause } => "parse params failed: "@ + cause,
        TransferErrorView::Lifecycle => "runtime not initialized"@,
        TransferErrorView::EmptyFile => "file size is 0"@,
        TransferErrorView::SessionInit { cause } => cause,
        TransferErrorView::PartTransfer { part_number, cause } => cause,
        TransferErrorView::Completion { cause } => cause,
        TransferErrorView::LocalIo { cause } => cause,
        TransferErrorView::Decode { cause } => "url decode param object failed: "@ + cause,
        TransferErrorView::Download { cause } => cause,
    }
}

impl TransferError {
    /// The text shown for this error.
    pub fn message(&self) -> (text: String)
        ensures
            text@ == message_of(self@),
    {
        match self {
            TransferError::Config { cause } => String::from_str("parse params failed: ").concat(
                cause.as_str(),
            ),
            TransferError::Lifecycle => String::from_str("runtime not initialized"),
            TransferError::EmptyFile => String::from_str("file size is 0"),
            TransferError::SessionInit { cause } => cause.clone(),
            TransferError::PartTransfer { part_number, cause } => cause.clone(),
            TransferError::Completion { cause } => cause.clone(),
            TransferError::LocalIo { cause } => cause.clone(),
            TransferError::Decode { cause } => String::from_str(
                "url decode param object failed: ",
            ).concat(cause.as_str()),
            TransferError::Download { cause } => cause.clone(),
        }
    }
}

/// How a transfer ended, as handed to a completion callback: whether it
/// succeeded, and the error text if it did not.
#[derive(Debug, Clone, PartialEq, Eq)]
pub struct TransferResult {
    pub success: bool,
    pub message: String,
}

impl TransferResult {
    /// Reports an outcome: success with an empty message for any byte count,
    /// failure with the error's text otherwise.
    pub fn from_outcome(outcome: &Result<u64, TransferError>) -> (result: TransferResult)
        ensures
            result.success == outcome.is_ok(),
            outcome.is_ok() ==> result.message@ == Seq::<char>::empty(),
            outcome matches Err(error) ==> result.message@ == message_of(error@),
    {
        match outcome {
            Ok(_) => TransferResult { success: true, message: String::new() },
            Err(error) => TransferResult { success: false, message: error.message() },
        }
    }
}

} // verus!
