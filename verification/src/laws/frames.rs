//! What a message of a list stream means, and what a page makes of it.
use crate::frame::{
    FrameKind, ListTransactionsResponse, Response, TransactionItem, WireFields,
};
use crate::outside::bytes_contents;
use crate::page::{cursor_view, PageView, QueryEndReason, StreamPage};
use bytes::Bytes;
use vstd::prelude::*;

verus! {

/// Both cursors are absent, or both hold the same bytes.
pub open spec fn same_cursor(cursor: Option<Bytes>, other: Option<Bytes>) -> bool {
    match (cursor, other) {
        (Some(cursor), Some(other)) => bytes_contents(cursor) == bytes_contents(other),
        (None, None) => true,
        _ => false,
    }
}

/// Both pages hold the same.
pub open spec fn same_page<I>(page: StreamPage<I>, other: StreamPage<I>) -> bool {
    &&& page.items@ == other.items@
    &&& same_cursor(page.end_cursor, other.end_cursor)
    &&& page.end_reason == other.end_reason
}

/// `reason` is what the number `code` on the wire stands for.
pub open spec fn is_reason(code: i32, reason: QueryEndReason) -> bool {
    &&& reason == QueryEndReason::ItemLimit <==> code == 1
    &&& reason == QueryEndReason::ScanLimit <==> code == 2
    &&& reason == QueryEndReason::CheckpointBound <==> code == 3
    &&& reason == QueryEndReason::CursorBound <==> code == 4
    &&& reason == QueryEndReason::LedgerTip <==> code == 5
}

/// The server said that the requested range holds nothing more.
pub open spec fn ran_out(reason: Option<QueryEndReason>) -> bool {
    ||| reason == Some(QueryEndReason::CheckpointBound)
    ||| reason == Some(QueryEndReason::CursorBound)
    ||| reason == Some(QueryEndReason::LedgerTip)
}

/// `after` is `before` with what one frame brings, and otherwise the same.
pub open spec fn takes_in<I>(
    before: StreamPage<I>,
    frame: FrameKind<I>,
    after: StreamPage<I>,
) -> bool {
    &&& after.items@ == (if frame is Item {
        before.items@ + seq![frame->item]
    } else {
        before.items@
    })
    &&& match frame {
        FrameKind::Item { cursor: Some(cursor), .. } => same_cursor(after.end_cursor, Some(cursor)),
        FrameKind::Watermark { cursor: Some(cursor) } => same_cursor(
            after.end_cursor,
            Some(cursor),
        ),
        _ => same_cursor(after.end_cursor, before.end_cursor),
    }
    &&& if frame is End {
        after.end_reason is Some && is_reason(frame->reason, after.end_reason->0)
    } else {
        after.end_reason == before.end_reason
    }
}

/// The view of a cursor tells its bytes, and an absent cursor from one without bytes.
pub proof fn law_cursor_view_tells_cursors_apart(cursor: Option<Bytes>, other: Option<Bytes>)
    ensures
        cursor_view(cursor) == cursor_view(other) <==> same_cursor(cursor, other),
        cursor_view(cursor) is Some <==> cursor is Some,
        cursor matches Some(bytes) ==> cursor_view(cursor) == Some(bytes_contents(bytes)),
{
}

/// The view of a page tells all that it holds.
pub proof fn law_page_view_tells_pages_apart<I>(page: StreamPage<I>, other: StreamPage<I>)
    ensures
        page@ == other@ <==> same_page(page, other),
        page@.items == page.items@,
        page@.end_cursor == other@.end_cursor <==> same_cursor(page.end_cursor, other.end_cursor),
        page@.end_reason == page.end_reason,
{
}

/// A new page holds nothing.
pub proof fn law_new_page_is_empty<I>(page: StreamPage<I>)
    ensures
        page@ == PageView::<I>::empty() <==> (page.items@.len() == 0 && page.end_cursor is None
            && page.end_reason is None),
{
    assert(page.items@.len() == 0 ==> page.items@ =~= Seq::<I>::empty());
}

/// The wire knows six numbers of end reasons, and each has a reason of its own.
pub proof fn law_end_reasons_are_numbered(code: i32)
    ensures
        QueryEndReason::decoded(code) is Some <==> 0 <= code <= 5,
        QueryEndReason::decoded(code) matches Some(reason) ==> is_reason(code, reason),
        is_reason(code, QueryEndReason::folded(code)),
{
}

/// There is more to read until the server says that the range holds nothing more, and whoever is to
/// read it needs a cursor.
pub proof fn law_more_until_the_range_ran_out<I>(page: StreamPage<I>)
    ensures
        page@.has_more() <==> !ran_out(page.end_reason),
        page@.resumable() <==> ran_out(page.end_reason) || page.end_cursor is Some,
        page@.progressed() <==> page.items@.len() > 0 || page.end_cursor is Some,
{
}

/// A page takes in what a frame brings and keeps everything else: an item goes behind the items, a
/// cursor takes the place of the cursor, and an end leaves its reason.
pub proof fn law_apply_takes_in_the_frame<I>(
    before: StreamPage<I>,
    frame: FrameKind<I>,
    after: StreamPage<I>,
)
    requires
        after@ == before@.applied(frame@),
    ensures
        takes_in(before, frame, after),
{
    if frame is Item {
        assert(after.items@ =~= before.items@ + seq![frame->item]);
    }
}

/// A message's frame is of the kind of its content, and holds that content: the item itself with the
/// cursor of its watermark, the cursor of a watermark, or the number of the end reason. A message that
/// is empty or not recognized has the unknown frame.
pub proof fn law_frame_holds_the_content<T>(
    response: ListTransactionsResponse<T>,
    kind: FrameKind<TransactionItem<T>>,
)
    requires
        kind@ == response.classified(),
    ensures
        match response.response {
            Some(Response::Item(item)) => {
                &&& kind is Item
                &&& kind->item == item
                &&& same_cursor(
                    kind->Item_cursor,
                    match item.watermark {
                        Some(watermark) => watermark.cursor,
                        None => None,
                    },
                )
            },
            Some(Response::Watermark(watermark)) => {
                &&& kind is Watermark
                &&& same_cursor(kind->Watermark_cursor, watermark.cursor)
            },
            Some(Response::End(end)) => kind is End && kind->reason == end.reason,
            Some(Response::Unrecognized) => kind is Unknown,
            None => kind is Unknown,
        },
{
}

/// The message holds an item or a watermark.
pub open spec fn holds_content<T>(message: ListTransactionsResponse<T>) -> bool {
    message.response is Some && (message.response->0 is Item || message.response->0 is Watermark)
}

/// Of a message with a transaction, whatever else it holds, the separated messages hold exactly one
/// item, the first, with that transaction and that watermark, and no watermark alone.
pub proof fn law_separated_transaction_is_one_item<T>(fields: WireFields<T>)
    requires
        fields.transaction is Some,
    ensures
        fields.separated().len() > 0,
        fields.separated()[0].response is Some,
        fields.separated()[0].response->0 is Item,
        fields.separated()[0].response->0->Item_0.transaction == fields.transaction->0,
        fields.separated()[0].response->0->Item_0.watermark == fields.watermark,
        forall|i: int|
            0 < i < fields.separated().len() ==> !holds_content(#[trigger] fields.separated()[i]),
{
}

/// A watermark comes alone only where there is no transaction, and then it is the message's own, and
/// the first of the separated messages. Without either, none of them holds an item or a watermark.
pub proof fn law_separated_watermark_is_alone<T>(fields: WireFields<T>)
    requires
        fields.transaction is None,
    ensures
        fields.watermark matches Some(watermark) ==> fields.separated().len() > 0
            && fields.separated()[0].response == Some(Response::<T>::Watermark(watermark)),
        forall|i: int|
            0 <= i < fields.separated().len() && holds_content(#[trigger] fields.separated()[i])
                ==> i == 0 && fields.watermark is Some,
{
}

/// Whatever else a message holds, its end is separated once, as the last message, with the same
/// reason, and no end appears that is not there. Nothing else appears: a message that holds nothing
/// stays one message that holds nothing.
pub proof fn law_separated_end_comes_last<T>(fields: WireFields<T>)
    ensures
        fields.separated().len() == if (fields.transaction is Some || fields.watermark is Some)
            && fields.end is Some {
            2int
        } else {
            1int
        },
        fields.end matches Some(end) ==> fields.separated().last().response == Some(
            Response::<T>::End(end),
        ),
        forall|i: int|
            0 <= i < fields.separated().len() && #[trigger] fields.separated()[i].response is Some
                && fields.separated()[i].response->0 is End ==> i == fields.separated().len() - 1
                && fields.end is Some,
        forall|i: int|
            0 <= i < fields.separated().len() ==> (#[trigger] fields.separated()[i].response is None
                <==> fields.transaction is None && fields.watermark is None && fields.end is None),
        forall|i: int|
            0 <= i < fields.separated().len() && #[trigger] fields.separated()[i].response is Some
                ==> !(fields.separated()[i].response->0 is Unrecognized),
{
}

} // verus!
