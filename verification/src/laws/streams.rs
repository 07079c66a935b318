//! What a drain gives for the events of a stream.
use super::frames::{is_reason, law_apply_takes_in_the_frame, ran_out, same_page, takes_in};
use super::{
    law_close_keeps_a_resumable_page, law_end_gives_the_page, law_latest_cursor_wins,
    law_nothing_is_read_after_the_end, open_ended, stream_of,
};
use crate::drain::{
    drained, event_view, events_view, frame_cursor, frames_of, items_of, last_cursor,
    lemma_stop_index_unique, outcome_view, page_of, pulled_view, stepped, stop_index,
    DrainStep, EventView,
};
use crate::error::{Error, ErrorView};
use crate::frame::{
    FrameKind, FrameView, ListTransactionsResponse, TransactionItem, WireFields,
};
use crate::outside::bytes_contents;
use crate::page::StreamPage;
use crate::status::{Code, Status};
use vstd::prelude::*;

verus! {

/// The outcome is an error with this text, of a query that failed.
pub open spec fn is_internal<I>(outcome: Result<StreamPage<I>, Error>, text: Seq<char>) -> bool {
    &&& outcome is Err
    &&& outcome->Err_0 is Internal
    &&& outcome->Err_0->Internal_0@ == text
}

/// The outcome is the error of a server that left more to read and no cursor.
pub open spec fn is_data_loss<I>(
    rpc_name: Seq<char>,
    outcome: Result<StreamPage<I>, Error>,
) -> bool {
    &&& outcome is Err
    &&& outcome->Err_0 is DataLoss
    &&& outcome->Err_0->DataLoss_0@ == rpc_name
        + ": server reported more results but did not advance cursor — cannot resume"@
}

/// The outcome is the error of a stream that broke off with this status for no lack of time.
pub open spec fn is_stream_error<I>(
    rpc_name: Seq<char>,
    status: Status,
    outcome: Result<StreamPage<I>, Error>,
) -> bool {
    is_internal(outcome, rpc_name + " stream error: "@ + status.message@)
}

/// The outcome is the error of a stream that broke off with this status for lack of time, and that had
/// brought nothing.
pub open spec fn is_fruitless<I>(
    rpc_name: Seq<char>,
    status: Status,
    outcome: Result<StreamPage<I>, Error>,
) -> bool {
    &&& status.code == Code::DeadlineExceeded ==> is_internal(
        outcome,
        rpc_name + " stream "@ + "DeadlineExceeded"@ + " with no progress: "@ + status.message@,
    )
    &&& status.code == Code::Cancelled ==> is_internal(
        outcome,
        rpc_name + " stream "@ + "Cancelled"@ + " with no progress: "@ + status.message@,
    )
}

/// The cursor that an event brings, as its bytes.
pub open spec fn brought_cursor<I>(event: Result<FrameKind<I>, Status>) -> Option<Seq<u8>> {
    match event {
        Ok(FrameKind::Item { cursor: Some(cursor), .. }) => Some(bytes_contents(cursor)),
        Ok(FrameKind::Watermark { cursor: Some(cursor) }) => Some(bytes_contents(cursor)),
        _ => None,
    }
}

/// Some event brings a cursor.
pub open spec fn bring_a_cursor<I>(events: Seq<Result<FrameKind<I>, Status>>) -> bool {
    exists|i: int| 0 <= i < events.len() && brought_cursor(#[trigger] events[i]) is Some
}

/// The items that events bring, in their order.
pub open spec fn brought_items<I>(events: Seq<Result<FrameKind<I>, Status>>) -> Seq<I>
    decreases events.len(),
{
    if events.len() == 0 {
        Seq::empty()
    } else {
        match events.last() {
            Ok(FrameKind::Item { item, .. }) => brought_items(events.drop_last()).push(item),
            _ => brought_items(events.drop_last()),
        }
    }
}

/// The page holds what the events bring: their items, and the cursor of the last event with one.
pub open spec fn gathers<I>(
    page: StreamPage<I>,
    events: Seq<Result<FrameKind<I>, Status>>,
) -> bool {
    &&& page.items@ == brought_items(events)
    &&& match page.end_cursor {
        Some(cursor) => exists|i: int|
            {
                &&& 0 <= i < events.len()
                &&& brought_cursor(#[trigger] events[i]) == Some(bytes_contents(cursor))
                &&& forall|j: int|
                    i < j < events.len() ==> brought_cursor(#[trigger] events[j]) is None
            },
        None => !bring_a_cursor(events),
    }
}

/// Every event is a frame, and none announces the end.
pub open spec fn go_on<I>(events: Seq<Result<FrameKind<I>, Status>>) -> bool {
    forall|i: int|
        0 <= i < events.len() ==> (#[trigger] events[i]) is Ok && !(events[i]->Ok_0 is End)
}

/// Of all status codes, `DeadlineExceeded` and `Cancelled` alone say that time ran out.
pub proof fn law_two_codes_are_timeouts(code: Code)
    ensures
        code.is_timeout() <==> code == Code::DeadlineExceeded || code == Code::Cancelled,
{
}

/// The text of an error is the one it holds, and a reader without the experimental query APIs says so.
pub proof fn law_error_text(error: Error)
    ensures
        error is Internal ==> error@ == ErrorView::Internal(error->Internal_0@)
            && error@.message() == error->Internal_0@,
        error is DataLoss ==> error@ == ErrorView::DataLoss(error->DataLoss_0@)
            && error@.message() == error->DataLoss_0@,
        error is NotConfigured <==> error@ == ErrorView::NotConfigured,
        error is NotConfigured ==> error@.message()
            == "Ledger gRPC v2alpha experimental query APIs not configured"@,
{
}

/// A frame that does not announce the end is taken into the page, and the drain goes on.
pub proof fn law_step_on_a_frame_goes_on<I>(
    rpc_name: Seq<char>,
    page: StreamPage<I>,
    frame: FrameKind<I>,
    step: DrainStep<I>,
)
    requires
        !(frame is End),
        step@ == stepped(rpc_name, page@, pulled_view(Some(Ok(frame)))),
    ensures
        step is Pull,
        takes_in(page, frame, step->Pull_0),
{
    law_apply_takes_in_the_frame(page, frame, step->Pull_0);
}

/// The announcement of the end finishes the drain with the page and its reason, unless the reason
/// leaves more to read and there is no cursor.
pub proof fn law_step_on_the_end_finishes<I>(
    rpc_name: Seq<char>,
    page: StreamPage<I>,
    code: i32,
    step: DrainStep<I>,
)
    requires
        step@ == stepped(rpc_name, page@, pulled_view(Some(Ok(FrameKind::End { reason: code })))),
    ensures
        step is Finished,
        3 <= code <= 5 || page.end_cursor is Some ==> step->Finished_0 is Ok && takes_in(
            page,
            FrameKind::End { reason: code },
            step->Finished_0->Ok_0,
        ),
        !(3 <= code <= 5) && page.end_cursor is None ==> is_data_loss(rpc_name, step->Finished_0),
{
    if step->Finished_0 is Ok {
        law_apply_takes_in_the_frame(
            page,
            FrameKind::End { reason: code },
            step->Finished_0->Ok_0,
        );
    }
}

/// The close of the stream finishes the drain with the page as it is, unless there is more to read and
/// no cursor.
pub proof fn law_step_on_the_close_finishes<I>(
    rpc_name: Seq<char>,
    page: StreamPage<I>,
    step: DrainStep<I>,
)
    requires
        step@ == stepped(rpc_name, page@, pulled_view(None)),
    ensures
        step is Finished,
        ran_out(page.end_reason) || page.end_cursor is Some ==> step->Finished_0 is Ok
            && same_page(page, step->Finished_0->Ok_0),
        !ran_out(page.end_reason) && page.end_cursor is None ==> is_data_loss(
            rpc_name,
            step->Finished_0,
        ),
{
}

/// A failure finishes the drain. With `DeadlineExceeded` or `Cancelled` it keeps the page as it is, if
/// the page holds an item or a cursor; with any other code it is an error, whatever the page holds.
pub proof fn law_step_on_a_failure_finishes<I>(
    rpc_name: Seq<char>,
    page: StreamPage<I>,
    status: Status,
    step: DrainStep<I>,
)
    requires
        step@ == stepped(rpc_name, page@, pulled_view(Some(Err(status)))),
    ensures
        step is Finished,
        status.code != Code::DeadlineExceeded && status.code != Code::Cancelled
            ==> is_stream_error(rpc_name, status, step->Finished_0),
        status.code == Code::DeadlineExceeded || status.code == Code::Cancelled ==> {
            if page.items@.len() == 0 && page.end_cursor is None {
                is_fruitless(rpc_name, status, step->Finished_0)
            } else if ran_out(page.end_reason) || page.end_cursor is Some {
                step->Finished_0 is Ok && same_page(page, step->Finished_0->Ok_0)
            } else {
                is_data_loss(rpc_name, step->Finished_0)
            }
        },
{
}

proof fn lemma_gathered<I>(events: Seq<Result<FrameKind<I>, Status>>)
    requires
        go_on(events),
    ensures
        items_of(frames_of(events_view(events))) == brought_items(events),
    decreases events.len(),
{
    let frames = frames_of(events_view(events));
    if events.len() > 0 {
        let front = events.drop_last();
        assert forall|i: int| 0 <= i < front.len() implies (#[trigger] front[i]) is Ok && !(
        front[i]->Ok_0 is End) by {
            assert(front[i] == events[i]);
        }
        lemma_gathered(front);
        assert(frames.drop_last() =~= frames_of(events_view(front)));
        assert(events[events.len() - 1] is Ok);
        assert(frames.last() == events.last()->Ok_0@);
    }
}

proof fn lemma_gathers<I>(events: Seq<Result<FrameKind<I>, Status>>, page: StreamPage<I>)
    requires
        go_on(events),
        page@.items == page_of(frames_of(events_view(events))).items,
        page@.end_cursor == page_of(frames_of(events_view(events))).end_cursor,
    ensures
        gathers(page, events),
{
    let frames = frames_of(events_view(events));
    lemma_gathered(events);
    lemma_brought(events);
    law_latest_cursor_wins(frames);
    if let Some(cursor) = page.end_cursor {
        let i = choose|i: int|
            {
                &&& 0 <= i < frames.len()
                &&& frame_cursor(#[trigger] frames[i]) == Some(bytes_contents(cursor))
                &&& forall|j: int|
                    i < j < frames.len() ==> frame_cursor(#[trigger] frames[j]) is None
            };
        assert(brought_cursor(events[i]) == Some(bytes_contents(cursor)));
        assert forall|j: int| i < j < events.len() implies brought_cursor(
            #[trigger] events[j],
        ) is None by {
            assert(frame_cursor(frames[j]) is None);
        }
    }
}

proof fn lemma_brought<I>(events: Seq<Result<FrameKind<I>, Status>>)
    requires
        go_on(events),
    ensures
        forall|i: int|
            #![trigger events[i]]
            #![trigger frames_of(events_view(events))[i]]
            0 <= i < events.len() ==> brought_cursor(events[i]) == frame_cursor(
                frames_of(events_view(events))[i],
            ),
        bring_a_cursor(events) <==> last_cursor(frames_of(events_view(events))) is Some,
{
    let frames = frames_of(events_view(events));
    assert forall|i: int|
        #![trigger events[i]]
        #![trigger frames[i]]
        0 <= i < events.len() implies brought_cursor(events[i]) == frame_cursor(frames[i]) by {
        assert(events[i] is Ok);
        assert(frames[i] == events[i]->Ok_0@);
    }
    law_latest_cursor_wins(frames);
    if last_cursor(frames) is Some {
        let i = choose|i: int|
            {
                &&& 0 <= i < frames.len()
                &&& frame_cursor(#[trigger] frames[i]) == last_cursor(frames)
                &&& forall|j: int|
                    i < j < frames.len() ==> frame_cursor(#[trigger] frames[j]) is None
            };
        assert(brought_cursor(events[i]) is Some);
    } else if bring_a_cursor(events) {
        let i = choose|i: int|
            0 <= i < events.len() && brought_cursor(#[trigger] events[i]) is Some;
        assert(frame_cursor(frames[i]) is None);
    }
}

proof fn lemma_stops<I>(
    before: Seq<Result<FrameKind<I>, Status>>,
    last: Result<FrameKind<I>, Status>,
    rest: Seq<Result<FrameKind<I>, Status>>,
)
    requires
        go_on(before),
        last is Ok ==> last->Ok_0 is End,
    ensures
        ({
            let seen = events_view(before.push(last) + rest);
            let stop = before.len() as int;
            &&& stop_index(seen) == stop
            &&& seen.take(stop) == events_view(before)
            &&& seen[stop] == event_view(last)
        }),
{
    let all = before.push(last) + rest;
    let seen = events_view(all);
    let stop = before.len() as int;
    assert(all[stop] == last);
    assert forall|i: int| 0 <= i < stop implies !(#[trigger] seen[i]).is_terminal() by {
        assert(all[i] == before[i]);
    }
    lemma_stop_index_unique(seen, stop);
    assert(seen.take(stop) =~= events_view(before));
}

/// A stream that breaks off with any code but `DeadlineExceeded` and `Cancelled` drains to an error
/// with its message, whatever came before.
pub proof fn law_failed_stream_is_an_error<I>(
    rpc_name: Seq<char>,
    before: Seq<Result<FrameKind<I>, Status>>,
    status: Status,
    rest: Seq<Result<FrameKind<I>, Status>>,
    outcome: Result<StreamPage<I>, Error>,
)
    requires
        go_on(before),
        status.code != Code::DeadlineExceeded,
        status.code != Code::Cancelled,
        outcome_view(outcome) == drained(rpc_name, events_view(before.push(Err(status)) + rest)),
    ensures
        is_stream_error(rpc_name, status, outcome),
{
    lemma_stops(before, Err(status), rest);
}

/// A stream that breaks off with `DeadlineExceeded` or `Cancelled` drains to what came before, if a
/// cursor came; to data loss, if only items came; and to an error with its code and its message, if
/// nothing came.
pub proof fn law_timed_out_stream_keeps_what_came<I>(
    rpc_name: Seq<char>,
    before: Seq<Result<FrameKind<I>, Status>>,
    status: Status,
    rest: Seq<Result<FrameKind<I>, Status>>,
    outcome: Result<StreamPage<I>, Error>,
)
    requires
        go_on(before),
        status.code == Code::DeadlineExceeded || status.code == Code::Cancelled,
        outcome_view(outcome) == drained(rpc_name, events_view(before.push(Err(status)) + rest)),
    ensures
        if bring_a_cursor(before) {
            outcome is Ok && gathers(outcome->Ok_0, before) && outcome->Ok_0.end_reason is None
        } else if brought_items(before).len() > 0 {
            is_data_loss(rpc_name, outcome)
        } else {
            is_fruitless(rpc_name, status, outcome)
        },
{
    lemma_stops(before, Err(status), rest);
    lemma_brought(before);
    lemma_gathered(before);
    if outcome is Ok {
        lemma_gathers(before, outcome->Ok_0);
    }
}

/// A stream that announces its end drains to what came before, with the reason that was given, if a
/// cursor came or the reason says that there is nothing more; and to data loss otherwise.
pub proof fn law_ended_stream_gives_what_came<I>(
    rpc_name: Seq<char>,
    before: Seq<Result<FrameKind<I>, Status>>,
    code: i32,
    rest: Seq<Result<FrameKind<I>, Status>>,
    outcome: Result<StreamPage<I>, Error>,
)
    requires
        go_on(before),
        outcome_view(outcome) == drained(
            rpc_name,
            events_view(before.push(Ok(FrameKind::End { reason: code })) + rest),
        ),
    ensures
        if bring_a_cursor(before) || 3 <= code <= 5 {
            &&& outcome is Ok
            &&& gathers(outcome->Ok_0, before)
            &&& outcome->Ok_0.end_reason is Some
            &&& is_reason(code, outcome->Ok_0.end_reason->0)
        } else {
            is_data_loss(rpc_name, outcome)
        },
{
    lemma_stops(before, Ok(FrameKind::End { reason: code }), rest);
    lemma_brought(before);
    if outcome is Ok {
        lemma_gathers(before, outcome->Ok_0);
    }
}

/// A stream that closes without an announcement drains to all that came, if a cursor came, and to data
/// loss otherwise.
pub proof fn law_closed_stream_gives_what_came<I>(
    rpc_name: Seq<char>,
    events: Seq<Result<FrameKind<I>, Status>>,
    outcome: Result<StreamPage<I>, Error>,
)
    requires
        go_on(events),
        outcome_view(outcome) == drained(rpc_name, events_view(events)),
    ensures
        if bring_a_cursor(events) {
            outcome is Ok && gathers(outcome->Ok_0, events) && outcome->Ok_0.end_reason is None
        } else {
            is_data_loss(rpc_name, outcome)
        },
{
    let seen = events_view(events);
    let stop = events.len() as int;
    assert forall|i: int| 0 <= i < stop implies !(#[trigger] seen[i]).is_terminal() by {
        assert(events[i] is Ok);
    }
    lemma_stop_index_unique(seen, stop);
    assert(seen.take(stop) =~= seen);
    lemma_brought(events);
    if outcome is Ok {
        lemma_gathers(events, outcome->Ok_0);
    }
}

/// Every stream is of one of the kinds that these laws speak of: it goes on until it closes, or until
/// an event that fails or announces the end.
pub proof fn law_stream_goes_on_until_it_stops<I>(events: Seq<Result<FrameKind<I>, Status>>) -> (stop:
    int)
    ensures
        0 <= stop <= events.len(),
        go_on(events.take(stop)),
        stop < events.len() ==> events == events.take(stop).push(events[stop]) + events.skip(
            stop + 1,
        ),
        stop < events.len() ==> events[stop] is Err || events[stop]->Ok_0 is End,
    decreases events.len(),
{
    if events.len() == 0 {
        0
    } else {
        let front = events.drop_last();
        let last = events.len() - 1;
        let found = law_stream_goes_on_until_it_stops(front);
        let stop = if found == last && events[last] is Ok && !(events[last]->Ok_0 is End) {
            events.len() as int
        } else {
            found
        };
        assert forall|i: int| 0 <= i < stop implies (#[trigger] events.take(stop)[i]) is Ok && !(
        events.take(stop)[i]->Ok_0 is End) by {
            if i < found {
                assert(front.take(found)[i] == events.take(stop)[i]);
            }
        }
        if stop < events.len() {
            assert(events =~= events.take(stop).push(events[stop]) + events.skip(stop + 1));
            if found < front.len() {
                assert(front[found] == events[found]);
            }
        }
        stop
    }
}

/// The frames of wire messages: each is separated, and then each part is classified.
pub open spec fn wire_frames<T>(messages: Seq<WireFields<T>>) -> Seq<
    FrameView<TransactionItem<T>>,
>
    decreases messages.len(),
{
    if messages.len() == 0 {
        Seq::empty()
    } else {
        wire_frames(messages.drop_last()) + messages.last().separated().map_values(
            |part: ListTransactionsResponse<T>| part.classified(),
        )
    }
}

/// The transactions of wire messages, in their order, each with the watermark that came with it.
pub open spec fn wire_items<T>(messages: Seq<WireFields<T>>) -> Seq<TransactionItem<T>>
    decreases messages.len(),
{
    if messages.len() == 0 {
        Seq::empty()
    } else {
        let message = messages.last();
        match message.transaction {
            Some(transaction) => wire_items(messages.drop_last()).push(
                TransactionItem { transaction, watermark: message.watermark },
            ),
            None => wire_items(messages.drop_last()),
        }
    }
}

/// The cursor of the last wire message whose watermark has one, whether it came with a transaction or
/// not.
pub open spec fn wire_cursor<T>(messages: Seq<WireFields<T>>) -> Option<Seq<u8>>
    decreases messages.len(),
{
    if messages.len() == 0 {
        None
    } else {
        let watermark = messages.last().watermark;
        if watermark is Some && watermark->0.cursor is Some {
            Some(bytes_contents(watermark->0.cursor->0))
        } else {
            wire_cursor(messages.drop_last())
        }
    }
}

proof fn lemma_wire_frames<T>(messages: Seq<WireFields<T>>)
    requires
        forall|i: int| 0 <= i < messages.len() ==> (#[trigger] messages[i]).end is None,
    ensures
        items_of(wire_frames(messages)) == wire_items(messages),
        last_cursor(wire_frames(messages)) == wire_cursor(messages),
        open_ended(wire_frames(messages)),
    decreases messages.len(),
{
    if messages.len() > 0 {
        let front = messages.drop_last();
        assert forall|i: int| 0 <= i < front.len() implies (#[trigger] front[i]).end is None by {
            assert(front[i] == messages[i]);
        }
        lemma_wire_frames(front);
        lemma_wire_content(wire_frames(front), messages.last());
        assert(messages[messages.len() - 1].end is None);
    }
}

/// What the frames of one more message without an end add.
proof fn lemma_wire_content<T>(
    frames: Seq<FrameView<TransactionItem<T>>>,
    message: WireFields<T>,
)
    requires
        open_ended(frames),
        message.end is None,
    ensures
        ({
            let parts = message.separated().map_values(
                |part: ListTransactionsResponse<T>| part.classified(),
            );
            let watermark = message.watermark;
            &&& items_of(frames + parts) == match message.transaction {
                Some(transaction) => items_of(frames).push(
                    TransactionItem { transaction, watermark },
                ),
                None => items_of(frames),
            }
            &&& last_cursor(frames + parts) == if watermark is Some
                && watermark->0.cursor is Some {
                Some(bytes_contents(watermark->0.cursor->0))
            } else {
                last_cursor(frames)
            }
            &&& open_ended(frames + parts)
        }),
{
    let parts = message.separated().map_values(
        |part: ListTransactionsResponse<T>| part.classified(),
    );
    assert(parts.len() == 1);
    assert(frames + parts =~= frames.push(parts[0]));
    assert((frames + parts).drop_last() =~= frames);
}

/// A list stream of wire messages, of which at most the last announces the end, drains to the
/// transactions of the messages in their order, each with its watermark, and to the last cursor among
/// the watermarks. Where the end was announced, it is the page's, even if it came in one message with a
/// transaction, and nothing behind it matters.
pub proof fn law_drained_items_are_the_transactions<T>(
    rpc_name: Seq<char>,
    messages: Seq<WireFields<T>>,
    rest: Seq<EventView<TransactionItem<T>>>,
)
    requires
        forall|i: int| 0 <= i < messages.len() - 1 ==> (#[trigger] messages[i]).end is None,
        rest.len() == 0 || (messages.len() > 0 && messages.last().end is Some),
    ensures
        ({
            let outcome = drained(rpc_name, stream_of(wire_frames(messages)) + rest);
            let end = if messages.len() == 0 {
                None
            } else {
                messages.last().end
            };
            &&& outcome is Ok <==> wire_cursor(messages) is Some || (end is Some && 3
                <= end->0.reason <= 5)
            &&& outcome is Ok ==> {
                &&& outcome->Ok_0.items == wire_items(messages)
                &&& outcome->Ok_0.end_cursor == wire_cursor(messages)
                &&& outcome->Ok_0.end_reason is Some <==> end is Some
                &&& end is Some ==> is_reason(end->0.reason, outcome->Ok_0.end_reason->0)
            }
            &&& outcome is Err ==> outcome->Err_0 == ErrorView::DataLoss(
                rpc_name
                    + ": server reported more results but did not advance cursor — cannot resume"@,
            )
        }),
{
    let frames = wire_frames(messages);
    let events = stream_of(frames);
    if messages.len() == 0 || messages.last().end is None {
        assert forall|i: int| 0 <= i < messages.len() implies (#[trigger] messages[i]).end is None by {
            if i == messages.len() - 1 {
                assert(messages[i] == messages.last());
            }
        }
        lemma_wire_frames(messages);
        assert(events + rest =~= events);
        law_close_keeps_a_resumable_page(rpc_name, frames);
    } else {
        let front = messages.drop_last();
        let message = messages.last();
        let open = WireFields { end: None, ..message };
        let code = message.end->0.reason;
        let end = FrameView::<TransactionItem<T>>::End { reason: code };
        assert forall|i: int| 0 <= i < front.len() implies (#[trigger] front[i]).end is None by {
            assert(front[i] == messages[i]);
        }
        lemma_wire_frames(front);
        let classify = |part: ListTransactionsResponse<T>| part.classified();
        let parts = message.separated().map_values(classify);
        let base = wire_frames(front);
        let before = if message.transaction is None && message.watermark is None {
            base
        } else {
            base + open.separated().map_values(classify)
        };
        lemma_wire_content(base, open);
        assert(parts.last() == end);
        assert(frames =~= before.push(end));
        assert(events.last() == EventView::Frame(end));
        assert(events[events.len() - 1].is_terminal());
        law_nothing_is_read_after_the_end(rpc_name, events, rest);
        law_end_gives_the_page(rpc_name, before, code);
    }
}

} // verus!
