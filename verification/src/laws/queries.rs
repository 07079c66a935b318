//! What the reader asks, and how it begins and follows a list query.
use super::frames::ran_out;
use super::streams::{is_internal, is_stream_error};
use crate::checkpoint::{sequence_number_request, watermark_request, GetCheckpointRequest};
use crate::drain::DrainStep;
use crate::error::Error;
use crate::frame::FrameKind;
use crate::outside::base58;
use crate::page::StreamPage;
use crate::reader::{LedgerGrpcReader, OutgoingRequest};
use crate::status::{Code, Status};
use bytes::Bytes;
use vstd::prelude::*;

verus! {

/// The mask names one path.
pub open spec fn names_only(read_mask: Vec<String>, path: Seq<char>) -> bool {
    read_mask@.len() == 1 && read_mask@[0]@ == path
}

/// The watermark query names no checkpoint, so that the latest is meant, and reads its encoded summary
/// alone.
pub proof fn law_watermark_query_reads_the_latest_summary(request: GetCheckpointRequest)
    requires
        call_ensures(watermark_request, (), request),
    ensures
        request.digest is None,
        names_only(request.read_mask, "summary.bcs"@),
{
    assert(request.read_mask.deep_view().len() == 1);
    assert(request.read_mask.deep_view()[0] == request.read_mask@[0].deep_view());
}

/// The query for a digest names that digest in Base58, and reads the sequence number alone.
pub proof fn law_digest_query_names_the_digest(digest: &[u8; 32], request: GetCheckpointRequest)
    requires
        call_ensures(sequence_number_request, (digest,), request),
    ensures
        request.digest is Some,
        request.digest->0@ == base58(digest@),
        names_only(request.read_mask, "sequence_number"@),
{
    assert(request.read_mask.deep_view().len() == 1);
    assert(request.read_mask.deep_view()[0] == request.read_mask@[0].deep_view());
}

/// Where there is more to read, the next page begins at the cursor of this one; where the range ran
/// out, there is no next page.
pub proof fn law_next_page_begins_at_the_cursor<I>(page: StreamPage<I>, cursor: Option<&Bytes>)
    requires
        call_ensures(StreamPage::<I>::next_cursor, (&page,), cursor),
    ensures
        ran_out(page.end_reason) ==> cursor is None,
        !ran_out(page.end_reason) ==> cursor is Some && page.end_cursor == Some(*cursor->0),
{
}

/// A request that is made after a test of its timeout is the one that is made without.
pub proof fn law_checked_request_is_the_request<C, A, T>(
    reader: LedgerGrpcReader<C, A>,
    input: T,
    request: Option<OutgoingRequest<T>>,
)
    requires
        call_ensures(LedgerGrpcReader::<C, A>::checked_request::<T>, (&reader, input), request),
    ensures
        request is Some <==> reader.timeout_fits(),
        request is Some ==> reader.is_request(input, request->0),
{
}

/// A list query has the reader's own client for the experimental APIs, or the error that there is
/// none.
pub proof fn law_list_query_needs_the_client<C, A>(
    reader: LedgerGrpcReader<C, A>,
    client: Result<&A, Error>,
)
    requires
        call_ensures(LedgerGrpcReader::<C, A>::list_transactions, (&reader,), client),
    ensures
        client is Ok <==> reader.alpha_client is Some,
        client is Ok ==> reader.alpha_client == Some(*client->Ok_0),
        client is Err ==> client->Err_0 is NotConfigured,
{
}

/// A list query that the service opens begins with nothing, and one that it does not open is over,
/// with the service's message.
pub proof fn law_list_query_begins_with_nothing<C, A, I>(
    reader: LedgerGrpcReader<C, A>,
    opened: Result<(), Status>,
    step: DrainStep<I>,
)
    requires
        call_ensures(
            LedgerGrpcReader::<C, A>::list_transactions_opened::<I>,
            (&reader, opened),
            step,
        ),
    ensures
        match opened {
            Ok(_) => {
                &&& step is Pull
                &&& step->Pull_0.items@.len() == 0
                &&& step->Pull_0.end_cursor is None
                &&& step->Pull_0.end_reason is None
            },
            Err(status) => step is Finished && is_internal(
                step->Finished_0,
                "ListTransactions stream open failed: "@ + status.message@,
            ),
        },
{
}

/// A list query that breaks off for no lack of time is over, with an error that names the query and
/// gives the service's message.
pub proof fn law_list_query_fails_under_its_name<C, A, I>(
    reader: LedgerGrpcReader<C, A>,
    page: StreamPage<I>,
    status: Status,
    step: DrainStep<I>,
)
    requires
        status.code != Code::DeadlineExceeded,
        status.code != Code::Cancelled,
        call_ensures(
            LedgerGrpcReader::<C, A>::list_transactions_event::<I>,
            (&reader, page, Some(Err::<FrameKind<I>, Status>(status))),
            step,
        ),
    ensures
        step is Finished,
        is_stream_error("ListTransactions"@, status, step->Finished_0),
{
}

} // verus!
