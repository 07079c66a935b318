//! What the reply to a checkpoint query means.
use crate::checkpoint::{
    answer_view, decoded_summary, reply_encoding, reply_sequence_number, reply_summary, Encoded,
    GetCheckpointResponse,
};
use crate::error::CheckpointError;
use crate::outside::{bytes_contents, encoded_bytes, summary_of_bcs};
use crate::status::{Code, Status};
use bytes::Bytes;
use sui_sdk_types::CheckpointSummary;
use vstd::prelude::*;

verus! {

/// The encoded summary that a reply carries.
pub open spec fn sent_encoding(reply: Result<GetCheckpointResponse, Status>) -> Option<Encoded> {
    if reply is Ok && reply->Ok_0.checkpoint is Some && reply->Ok_0.checkpoint->0.summary is Some {
        reply->Ok_0.checkpoint->0.summary->0.bcs
    } else {
        None
    }
}

/// The answer names what a reply without an encoded summary lacks.
pub open spec fn lacks_encoding<T>(
    reply: Result<GetCheckpointResponse, Status>,
    answer: Result<T, CheckpointError>,
) -> bool {
    match reply {
        Err(status) => is_rpc_error(answer, status),
        Ok(response) => if response.checkpoint is None {
            answer is Err && answer->Err_0 is NoCheckpoint
        } else {
            answer is Err && answer->Err_0 is MissingSummary
        },
    }
}

/// The answer is the failed call's own status.
pub open spec fn is_rpc_error<T>(answer: Result<T, CheckpointError>, status: Status) -> bool {
    &&& answer matches Err(CheckpointError::Rpc(given))
    &&& given.code == status.code
    &&& given.message@ == status.message@
}

/// The summary is the decoder's, or the error that holds its complaint.
pub open spec fn is_decoded(
    decoded: Result<CheckpointSummary, Seq<char>>,
    summary: Result<CheckpointSummary, CheckpointError>,
) -> bool {
    match decoded {
        Ok(value) => summary == Ok::<CheckpointSummary, CheckpointError>(value),
        Err(cause) => {
            &&& summary is Err
            &&& summary->Err_0 is UndecodableSummary
            &&& summary->Err_0->UndecodableSummary_0@ == cause
        },
    }
}

/// A digest resolves to the sequence number that the reply's checkpoint carries, whichever it is, and
/// to no number that it does not carry.
pub proof fn law_digest_resolves_to_the_number_sent(
    reply: Result<GetCheckpointResponse, Status>,
    answer: Result<Option<u64>, CheckpointError>,
    number: u64,
)
    requires
        answer_view(answer) == reply_sequence_number(reply),
    ensures
        answer == Ok::<Option<u64>, CheckpointError>(Some(number)) <==> (reply is Ok
            && reply->Ok_0.checkpoint is Some && reply->Ok_0.checkpoint->0.sequence_number == Some(
            number,
        )),
{
}

/// A digest has no sequence number if the reply's checkpoint carries none, or if the call fails with
/// `NotFound`. Without a checkpoint in the reply there is an error that says so, and every other
/// failure of the call is handed on.
pub proof fn law_digest_without_a_number(
    reply: Result<GetCheckpointResponse, Status>,
    answer: Result<Option<u64>, CheckpointError>,
)
    requires
        answer_view(answer) == reply_sequence_number(reply),
    ensures
        match reply {
            Ok(response) => match response.checkpoint {
                Some(checkpoint) => checkpoint.sequence_number is None ==> answer == Ok::<
                    Option<u64>,
                    CheckpointError,
                >(None),
                None => answer is Err && answer->Err_0 is NoCheckpoint,
            },
            Err(status) => if status.code == Code::NotFound {
                answer == Ok::<Option<u64>, CheckpointError>(None)
            } else {
                is_rpc_error(answer, status)
            },
        },
{
}

/// The encoding that a watermark reply carries is handed on as it is, and what is missing on the way
/// to it is named: the call, the checkpoint, or the encoded summary.
pub proof fn law_encoding_is_the_one_sent(
    reply: Result<GetCheckpointResponse, Status>,
    encoding: Result<Encoded, CheckpointError>,
)
    requires
        answer_view(encoding) == reply_encoding(reply),
    ensures
        match sent_encoding(reply) {
            Some(encoded) => encoding == Ok::<Encoded, CheckpointError>(encoded),
            None => lacks_encoding(reply, encoding),
        },
{
}

/// The bytes to decode are those of the value, and none if there is no value.
pub proof fn law_encoded_bytes_are_the_values(value: Option<Bytes>)
    ensures
        value is None ==> encoded_bytes(value).len() == 0,
        value matches Some(bytes) ==> encoded_bytes(value) == bytes_contents(bytes),
{
}

/// The decoder's summary is the answer, and its complaint is the error.
pub proof fn law_decoder_decides(
    decoded: Result<CheckpointSummary, Seq<char>>,
    summary: Result<CheckpointSummary, CheckpointError>,
)
    requires
        answer_view(summary) == decoded_summary(decoded),
    ensures
        is_decoded(decoded, summary),
{
}

/// The watermark is what the encoded summary of the reply decodes to. Without an encoded summary it is
/// the error that says what is missing.
pub proof fn law_watermark_is_the_summary_sent(
    reply: Result<GetCheckpointResponse, Status>,
    summary: Result<CheckpointSummary, CheckpointError>,
)
    requires
        answer_view(summary) == reply_summary(reply),
    ensures
        match sent_encoding(reply) {
            Some(Encoded { value: Some(bytes) }) => is_decoded(
                summary_of_bcs(bytes_contents(bytes)),
                summary,
            ),
            Some(Encoded { value: None }) => is_decoded(summary_of_bcs(Seq::empty()), summary),
            None => lacks_encoding(reply, summary),
        },
{
}

/// Each error that is the reader's own says what was wrong, and a failed call is left to its status.
pub proof fn law_context_says_what_was_wrong(error: CheckpointError)
    ensures
        error is Rpc ==> error@.context() is None,
        error is NoCheckpoint ==> error@.context() == Some("No checkpoint returned"@),
        error is MissingSummary ==> error@.context() == Some("Missing summary.bcs"@),
        error is UndecodableSummary ==> error@.context() == Some(
            "Failed to deserialize checkpoint summary"@,
        ),
{
}

} // verus!
