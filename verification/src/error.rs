//! The errors of the reader, and the text of each.
use crate::status::{Status, StatusView};
use vstd::prelude::*;

verus! {

/// Why a list query gave no page.
#[derive(Debug)]
pub enum Error {
    /// The query failed; the text says how.
    Internal(String),
    /// The server left more to read and no cursor to read it from, so that nothing can be resumed:
    /// the gRPC code `DATA_LOSS`, with a text.
    DataLoss(String),
    /// The reader was built without the experimental query APIs.
    NotConfigured,
}

/// An `Error` with its text as a sequence of characters.
pub enum ErrorView {
    Internal(Seq<char>),
    DataLoss(Seq<char>),
    NotConfigured,
}

impl View for Error {
    type V = ErrorView;

    open spec fn view(&self) -> ErrorView {
        match self {
            Error::Internal(text) => ErrorView::Internal(text@),
            Error::DataLoss(text) => ErrorView::DataLoss(text@),
            Error::NotConfigured => ErrorView::NotConfigured,
        }
    }
}

impl ErrorView {
    /// The text shown for the error.
    pub open spec fn message(self) -> Seq<char> {
        match self {
            ErrorView::Internal(text) => text,
            ErrorView::DataLoss(text) => text,
            ErrorView::NotConfigured =>
                "Ledger gRPC v2alpha experimental query APIs not configured"@,
        }
    }
}

impl Error {
    /// The text shown for the error.
    pub fn message(&self) -> (text: String)
        ensures
            text@ == self@.message(),
    {
        match self {
            Error::Internal(text) => text.clone(),
            Error::DataLoss(text) => text.clone(),
            Error::NotConfigured => {
                "Ledger gRPC v2alpha experimental query APIs not configured".to_owned()
            },
        }
    }
}

/// Why a checkpoint query gave no answer.
#[derive(Debug)]
pub enum CheckpointError {
    /// The call itself failed.
    Rpc(Status),
    /// The reply carries no checkpoint.
    NoCheckpoint,
    /// The checkpoint carries no encoded summary.
    MissingSummary,
    /// The encoded summary is not one; the text is the decoder's.
    UndecodableSummary(String),
}

/// A `CheckpointError` over the views of what it holds.
pub enum CheckpointErrorView {
    Rpc(StatusView),
    NoCheckpoint,
    MissingSummary,
    UndecodableSummary(Seq<char>),
}

impl View for CheckpointError {
    type V = CheckpointErrorView;

    open spec fn view(&self) -> CheckpointErrorView {
        match self {
            CheckpointError::Rpc(status) => CheckpointErrorView::Rpc(status@),
            CheckpointError::NoCheckpoint => CheckpointErrorView::NoCheckpoint,
            CheckpointError::MissingSummary => CheckpointErrorView::MissingSummary,
            CheckpointError::UndecodableSummary(cause) => {
                CheckpointErrorView::UndecodableSummary(cause@)
            },
        }
    }
}

impl CheckpointErrorView {
    /// The text shown for the error. The text of a failed call is its status's own.
    pub open spec fn context(self) -> Option<Seq<char>> {
        match self {
            CheckpointErrorView::Rpc(_) => None,
            CheckpointErrorView::NoCheckpoint => Some("No checkpoint returned"@),
            CheckpointErrorView::MissingSummary => Some("Missing summary.bcs"@),
            CheckpointErrorView::UndecodableSummary(_) => {
                Some("Failed to deserialize checkpoint summary"@)
            },
        }
    }
}

impl CheckpointError {
    /// The text that the reader itself gives for the error, or `None` for a failed call, whose
    /// status speaks for itself.
    pub fn context(&self) -> (text: Option<&'static str>)
        ensures
            text is Some == self@.context() is Some,
            text matches Some(t) ==> Some(t@) == self@.context(),
    {
        match self {
            CheckpointError::Rpc(_) => None,
            CheckpointError::NoCheckpoint => Some("No checkpoint returned"),
            CheckpointError::MissingSummary => Some("Missing summary.bcs"),
            CheckpointError::UndecodableSummary(_) => {
                Some("Failed to deserialize checkpoint summary")
            },
        }
    }
}

} // verus!
