//! The checkpoint queries: what is asked, and what the reply means.
use crate::error::{CheckpointError, CheckpointErrorView};
use crate::outside::{
    base58, digest_text, encoded_bytes, field_mask_paths, summary_of_bcs,
};
use crate::status::Status;
use bytes::Bytes;
use sui_sdk_types::CheckpointSummary;
use vstd::prelude::*;

verus! {

/// A request for one checkpoint.
#[derive(Clone, Debug)]
pub struct GetCheckpointRequest {
    /// The digest of the checkpoint in Base58, or `None` for the latest checkpoint.
    pub digest: Option<String>,
    /// The paths of the fields to read.
    pub read_mask: Vec<String>,
}

/// A value in its BCS encoding.
#[derive(Clone, Debug)]
pub struct Encoded {
    pub value: Option<Bytes>,
}

/// The summary of a checkpoint, as far as it was asked for.
#[derive(Clone, Debug)]
pub struct SummaryMessage {
    pub bcs: Option<Encoded>,
}

/// A checkpoint, as far as it was asked for.
#[derive(Clone, Debug)]
pub struct Checkpoint {
    pub sequence_number: Option<u64>,
    pub summary: Option<SummaryMessage>,
}

/// The reply to a `GetCheckpointRequest`.
#[derive(Clone, Debug)]
pub struct GetCheckpointResponse {
    pub checkpoint: Option<Checkpoint>,
}

/// The encoded summary in a reply.
pub open spec fn reply_encoding(reply: Result<GetCheckpointResponse, Status>) -> Result<
    Encoded,
    CheckpointErrorView,
> {
    match reply {
        Err(status) => Err(CheckpointErrorView::Rpc(status@)),
        Ok(response) => match response.checkpoint {
            None => Err(CheckpointErrorView::NoCheckpoint),
            Some(checkpoint) => match checkpoint.summary {
                Some(SummaryMessage { bcs: Some(encoded) }) => Ok(encoded),
                _ => Err(CheckpointErrorView::MissingSummary),
            },
        },
    }
}

/// The summary that a decoder's result stands for.
pub open spec fn decoded_summary(decoded: Result<CheckpointSummary, Seq<char>>) -> Result<
    CheckpointSummary,
    CheckpointErrorView,
> {
    match decoded {
        Ok(summary) => Ok(summary),
        Err(cause) => Err(CheckpointErrorView::UndecodableSummary(cause)),
    }
}

/// The checkpoint summary in a reply.
pub open spec fn reply_summary(reply: Result<GetCheckpointResponse, Status>) -> Result<
    CheckpointSummary,
    CheckpointErrorView,
> {
    match reply_encoding(reply) {
        Ok(encoded) => decoded_summary(summary_of_bcs(encoded_bytes(encoded.value))),
        Err(error) => Err(error),
    }
}

/// The sequence number in a reply. That the server knows no such checkpoint is an answer too.
pub open spec fn reply_sequence_number(reply: Result<GetCheckpointResponse, Status>) -> Result<
    Option<u64>,
    CheckpointErrorView,
> {
    match reply {
        Ok(response) => match response.checkpoint {
            Some(checkpoint) => Ok(checkpoint.sequence_number),
            None => Err(CheckpointErrorView::NoCheckpoint),
        },
        Err(status) => if status.code is NotFound {
            Ok(None)
        } else {
            Err(CheckpointErrorView::Rpc(status@))
        },
    }
}

/// A result over the view of its error.
pub open spec fn answer_view<T>(answer: Result<T, CheckpointError>) -> Result<
    T,
    CheckpointErrorView,
> {
    match answer {
        Ok(value) => Ok(value),
        Err(error) => Err(error@),
    }
}

/// Ask for the latest checkpoint's encoded summary, and for nothing else.
pub fn watermark_request() -> (request: GetCheckpointRequest)
    ensures
        request.digest is None,
        request.read_mask.deep_view() == seq!["summary.bcs"@],
{
    let read_mask = field_mask_paths("summary.bcs");
    proof {
        reveal_strlit("summary.bcs");
    }
    GetCheckpointRequest { digest: None, read_mask }
}

/// Ask for the sequence number of the checkpoint with digest `digest`, and for nothing else.
pub fn sequence_number_request(digest: &[u8; 32]) -> (request: GetCheckpointRequest)
    ensures
        request.digest matches Some(text) && text@ == base58(digest@),
        request.read_mask.deep_view() == seq!["sequence_number"@],
{
    let read_mask = field_mask_paths("sequence_number");
    proof {
        reveal_strlit("sequence_number");
    }
    GetCheckpointRequest { digest: Some(digest_text(digest)), read_mask }
}

/// The encoded summary in a reply to `watermark_request`.
pub fn watermark_encoding(reply: Result<GetCheckpointResponse, Status>) -> (encoding: Result<
    Encoded,
    CheckpointError,
>)
    ensures
        answer_view(encoding) == reply_encoding(reply),
{
    match reply {
        Err(status) => Err(CheckpointError::Rpc(status)),
        Ok(response) => match response.checkpoint {
            None => Err(CheckpointError::NoCheckpoint),
            Some(checkpoint) => match checkpoint.summary {
                Some(SummaryMessage { bcs: Some(encoded) }) => Ok(encoded),
                _ => Err(CheckpointError::MissingSummary),
            },
        },
    }
}

/// The summary that the decoder's result stands for.
pub fn watermark_summary(decoded: Result<CheckpointSummary, String>) -> (summary: Result<
    CheckpointSummary,
    CheckpointError,
>)
    ensures
        answer_view(summary) == decoded_summary(
            match decoded {
                Ok(summary) => Ok(summary),
                Err(cause) => Err(cause@),
            },
        ),
{
    match decoded {
        Ok(summary) => Ok(summary),
        Err(cause) => Err(CheckpointError::UndecodableSummary(cause)),
    }
}

} // verus!
