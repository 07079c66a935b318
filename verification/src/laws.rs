//! What holds of pages and drains as a whole.
//!
//! The modules below state, over the values that callers hold, what each operation makes of its
//! arguments.
use crate::args::{ConnectionSettings, LedgerGrpcArgs};
use crate::checkpoint::{reply_sequence_number, GetCheckpointResponse};
use crate::drain::{
    closed, drained, frame_cursor, frames_of, items_of, last_cursor, lemma_page_of_push,
    lemma_stop_index, lemma_stop_index_unique, no_progress_error, page_of, stepped, stop_index,
    stopped_page, stream_error, unresumable_error, EventView, StepView,
};
use crate::error::ErrorView;
use crate::frame::FrameView;
use crate::page::{PageView, QueryEndReason};
use crate::reader::{LedgerGrpcReader, OutgoingRequest};
use crate::status::{Status, StatusView};
use vstd::prelude::*;

pub mod checkpoints;
pub mod frames;
pub mod queries;
pub mod requests;
pub mod settings;
pub mod streams;

verus! {

/// A stream that sends these frames and nothing else.
pub open spec fn stream_of<I>(frames: Seq<FrameView<I>>) -> Seq<EventView<I>> {
    frames.map_values(|frame: FrameView<I>| EventView::Frame(frame))
}

/// No frame announces the end.
pub open spec fn open_ended<I>(frames: Seq<FrameView<I>>) -> bool {
    forall|i: int| 0 <= i < frames.len() ==> !((#[trigger] frames[i]) is End)
}

/// The outcome for a driver that hands over the events from `page` on, one by one, for as long as it
/// is told to pull, and then the close of the stream.
pub open spec fn driven<I>(
    rpc_name: Seq<char>,
    page: PageView<I>,
    events: Seq<EventView<I>>,
) -> Result<PageView<I>, ErrorView>
    decreases events.len(),
{
    if events.len() == 0 {
        stepped(rpc_name, page, None)->Finished_0
    } else {
        match stepped(rpc_name, page, Some(events.first())) {
            StepView::Pull(next) => driven(rpc_name, next, events.drop_first()),
            StepView::Finished(outcome) => outcome,
        }
    }
}

/// Every page that a drain returns can be continued from, if there is more: the invariant under which
/// `next_cursor` may be called.
pub proof fn law_drained_page_is_resumable<I>(rpc_name: Seq<char>, events: Seq<EventView<I>>)
    ensures
        drained(rpc_name, events) matches Ok(page) ==> page.resumable(),
{
    lemma_stop_index(events);
}

/// The same holds of a page that a single step ends with, whatever page it began with.
pub proof fn law_finished_page_is_resumable<I>(
    rpc_name: Seq<char>,
    page: PageView<I>,
    event: Option<EventView<I>>,
)
    ensures
        stepped(rpc_name, page, event) matches StepView::Finished(Ok(last)) ==> last.resumable(),
{
}

/// A drain fails with data loss exactly when it stops with more to read and no cursor to read it
/// from, unless the failure that it stops at is an error of its own: one that is no timeout, or a
/// timeout before any progress.
pub proof fn law_unresumable_drain_is_data_loss<I>(rpc_name: Seq<char>, events: Seq<EventView<I>>)
    ensures
        ({
            let stop = stop_index(events) as int;
            let page = stopped_page(events);
            let kept = stop < events.len() && events[stop] is Failed
                ==> events[stop]->Failed_0.code.is_timeout() && page.progressed();
            &&& (drained(rpc_name, events) matches Err(ErrorView::DataLoss(_))) <==> kept
                && page.has_more() && page.end_cursor is None
            &&& drained(rpc_name, events) matches Err(ErrorView::DataLoss(text))
                ==> ErrorView::DataLoss(text) == unresumable_error(rpc_name)
            &&& kept && !(drained(rpc_name, events) matches Err(ErrorView::DataLoss(_)))
                ==> drained(rpc_name, events) == Ok::<PageView<I>, ErrorView>(page)
        }),
{
}

/// A page stays resumable in the hands of a caller that puts other items to its `end_reason` and
/// `end_cursor`.
pub proof fn law_resumable_depends_on_the_end_alone<I, J>(page: PageView<I>, other: PageView<J>)
    requires
        page.resumable(),
        other.end_reason == page.end_reason,
        other.end_cursor == page.end_cursor,
    ensures
        other.resumable(),
{
}

/// A driver that hands the events to `drain_step` one by one ends with the outcome that
/// `drain_list_stream` gives for all of them.
pub proof fn law_steps_make_the_drain<I>(rpc_name: Seq<char>, events: Seq<EventView<I>>)
    ensures
        driven(rpc_name, PageView::empty(), events) == drained(rpc_name, events),
{
    assert(frames_of(events.take(0)) =~= Seq::<FrameView<I>>::empty());
    assert(events.skip(0) =~= events);
    lemma_driven_from(rpc_name, events, 0);
}

proof fn lemma_driven_from<I>(rpc_name: Seq<char>, events: Seq<EventView<I>>, at: int)
    requires
        0 <= at <= events.len(),
        forall|i: int| 0 <= i < at ==> !(#[trigger] events[i]).is_terminal(),
    ensures
        driven(rpc_name, page_of(frames_of(events.take(at))), events.skip(at)) == drained(
            rpc_name,
            events,
        ),
    decreases events.len() - at,
{
    let rest = events.skip(at);
    if at == events.len() || events[at].is_terminal() {
        lemma_stop_index_unique(events, at);
    } else {
        let frames = frames_of(events.take(at));
        lemma_page_of_push(frames, events[at]->Frame_0);
        assert(frames_of(events.take(at + 1)) =~= frames.push(events[at]->Frame_0));
        assert(rest.drop_first() =~= events.skip(at + 1));
        lemma_driven_from(rpc_name, events, at + 1);
    }
}

/// Nothing that a stream sends after its end or its failure has an effect.
pub proof fn law_nothing_is_read_after_the_end<I>(
    rpc_name: Seq<char>,
    events: Seq<EventView<I>>,
    tail: Seq<EventView<I>>,
)
    requires
        exists|i: int| 0 <= i < events.len() && (#[trigger] events[i]).is_terminal(),
    ensures
        drained(rpc_name, events + tail) == drained(rpc_name, events),
{
    lemma_stop_index(events);
    let stop = stop_index(events) as int;
    let first = choose|i: int| 0 <= i < events.len() && (#[trigger] events[i]).is_terminal();
    assert(events[first].is_terminal());
    let all = events + tail;
    assert forall|i: int| 0 <= i < stop implies !(#[trigger] all[i]).is_terminal() by {
        assert(all[i] == events[i]);
    }
    assert(all[stop] == events[stop]);
    lemma_stop_index_unique(all, stop);
    assert(all.take(stop) =~= events.take(stop));
}

/// Frames add to any page what they add to an empty one: their items behind its own, and their last
/// cursor, if they bring one, in place of its own.
pub proof fn law_frames_accumulate<I>(page: PageView<I>, frames: Seq<FrameView<I>>)
    ensures
        page.applied_all(frames).items == page.items + items_of(frames),
        page.applied_all(frames).end_cursor == (if last_cursor(frames) is Some {
            last_cursor(frames)
        } else {
            page.end_cursor
        }),
        open_ended(frames) ==> page.applied_all(frames).end_reason == page.end_reason,
    decreases frames.len(),
{
    if frames.len() > 0 {
        law_frames_accumulate(page, frames.drop_last());
        if open_ended(frames) {
            assert forall|i: int| 0 <= i < frames.len() - 1 implies !((
            #[trigger] frames.drop_last()[i]) is End) by {
                assert(frames.drop_last()[i] == frames[i]);
            }
            assert(!(frames[frames.len() - 1] is End));
        }
    }
    assert(page.applied_all(frames).items =~= page.items + items_of(frames));
}

/// The latest cursor wins, be it an item's or a standalone watermark's: the page's cursor is that of
/// a frame behind which no frame brings one.
pub proof fn law_latest_cursor_wins<I>(frames: Seq<FrameView<I>>)
    ensures
        match last_cursor(frames) {
            Some(cursor) => exists|i: int|
                {
                    &&& 0 <= i < frames.len()
                    &&& frame_cursor(#[trigger] frames[i]) == Some(cursor)
                    &&& forall|j: int|
                        i < j < frames.len() ==> frame_cursor(#[trigger] frames[j]) is None
                },
            None => forall|i: int|
                0 <= i < frames.len() ==> frame_cursor(#[trigger] frames[i]) is None,
        },
    decreases frames.len(),
{
    if frames.len() > 0 {
        let front = frames.drop_last();
        let last = frames.len() - 1;
        if frame_cursor(frames.last()) is Some {
            assert(frame_cursor(frames[last]) == last_cursor(frames));
        } else {
            law_latest_cursor_wins(front);
            match last_cursor(front) {
                Some(cursor) => {
                    let i = choose|i: int|
                        {
                            &&& 0 <= i < front.len()
                            &&& frame_cursor(#[trigger] front[i]) == Some(cursor)
                            &&& forall|j: int|
                                i < j < front.len() ==> frame_cursor(#[trigger] front[j]) is None
                        };
                    assert(frame_cursor(frames[i]) == Some(cursor));
                    assert forall|j: int| i < j < frames.len() implies frame_cursor(
                        #[trigger] frames[j],
                    ) is None by {
                        if j < last {
                            assert(frames[j] == front[j]);
                        }
                    }
                },
                None => {
                    assert forall|i: int| 0 <= i < frames.len() implies frame_cursor(
                        #[trigger] frames[i],
                    ) is None by {
                        if i < last {
                            assert(frames[i] == front[i]);
                        }
                    }
                },
            }
        }
    }
}

/// A page holds the items of the stream, each once and in stream order.
pub proof fn law_items_keep_stream_order<I>(frames: Seq<FrameView<I>>)
    ensures
        items_of(frames) == frames.filter(|frame: FrameView<I>| frame is Item).map_values(
            |frame: FrameView<I>| frame->item,
        ),
    decreases frames.len(),
{
    reveal(Seq::filter);
    let is_item = |frame: FrameView<I>| frame is Item;
    let item = |frame: FrameView<I>| frame->item;
    if frames.len() > 0 {
        law_items_keep_stream_order(frames.drop_last());
        let front = frames.drop_last().filter(is_item);
        if frames.last() is Item {
            assert(front.push(frames.last()).map_values(item) =~= front.map_values(item).push(
                item(frames.last()),
            ));
        }
    } else {
        assert(frames.filter(is_item).map_values(item) =~= Seq::<I>::empty());
    }
}

/// Frames that are empty or not recognized leave no trace in the page.
pub proof fn law_unknown_frames_change_nothing<I>(page: PageView<I>, frames: Seq<FrameView<I>>)
    ensures
        page.applied_all(frames) == page.applied_all(
            frames.filter(|frame: FrameView<I>| !(frame is Unknown)),
        ),
    decreases frames.len(),
{
    reveal(Seq::filter);
    let known = |frame: FrameView<I>| !(frame is Unknown);
    if frames.len() > 0 {
        law_unknown_frames_change_nothing(page, frames.drop_last());
        let front = frames.drop_last().filter(known);
        if known(frames.last()) {
            assert(front.push(frames.last()).drop_last() =~= front);
        }
    }
}

/// A frame takes nothing from a page: its items stay where they are, and a cursor or an end reason
/// once there is only ever replaced by another.
pub proof fn law_frame_keeps_progress<I>(page: PageView<I>, frame: FrameView<I>)
    ensures
        page.items.is_prefix_of(page.applied(frame).items),
        page.end_cursor is Some ==> page.applied(frame).end_cursor is Some,
        page.progressed() ==> page.applied(frame).progressed(),
        page.end_reason is Some ==> page.applied(frame).end_reason is Some,
{
    assert(page.items =~= page.applied(frame).items.subrange(0, page.items.len() as int));
}

/// A drained page lacks an end reason only if the stream stopped before it announced its end.
pub proof fn law_end_reason_tells_of_the_end<I>(rpc_name: Seq<char>, events: Seq<EventView<I>>)
    ensures
        drained(rpc_name, events) matches Ok(page) ==> {
            let stop = stop_index(events) as int;
            page.end_reason is None <==> (stop == events.len() || events[stop] is Failed)
        },
{
    lemma_stop_index(events);
}

/// Only a reason that says so ends the paging: without a reason, or with one that is not known, more
/// may come, so that nothing is cut off in silence.
pub proof fn law_only_exhaustion_ends_paging<I>(page: PageView<I>, code: i32)
    ensures
        page.applied(FrameView::End { reason: code }).has_more() <==> !(3 <= code <= 5),
        page.end_reason is None ==> page.has_more(),
        !(0 <= code <= 5) ==> page.applied(FrameView::End { reason: code }).end_reason == Some(
            QueryEndReason::Unspecified,
        ),
{
}

/// A stream of frames that never announces its end and then closes gives its frames' page, if a
/// cursor came with them.
pub proof fn law_close_keeps_a_resumable_page<I>(rpc_name: Seq<char>, frames: Seq<FrameView<I>>)
    requires
        open_ended(frames),
    ensures
        drained(rpc_name, stream_of(frames)) == (if last_cursor(frames) is Some {
            Ok(page_of(frames))
        } else {
            Err(unresumable_error(rpc_name))
        }),
{
    let events = stream_of(frames);
    lemma_stop_index_unique(events, frames.len() as int);
    assert(frames_of(events.take(frames.len() as int)) =~= frames);
}

/// A stream that announces its end gives its frames' page with that end, unless the end leaves more
/// to read and no cursor came. A range that is exhausted thus always gives a page.
pub proof fn law_end_gives_the_page<I>(rpc_name: Seq<char>, frames: Seq<FrameView<I>>, code: i32)
    requires
        open_ended(frames),
    ensures
        ({
            let events = stream_of(frames.push(FrameView::End { reason: code }));
            let page = PageView {
                end_reason: Some(QueryEndReason::folded(code)),
                ..page_of(frames)
            };
            &&& drained(rpc_name, events) == closed(rpc_name, page)
            &&& QueryEndReason::folded(code).is_exhausted() ==> drained(rpc_name, events)
                == Ok::<PageView<I>, ErrorView>(page)
            &&& last_cursor(frames) is Some ==> drained(rpc_name, events) == Ok::<
                PageView<I>,
                ErrorView,
            >(page)
        }),
{
    let end = FrameView::<I>::End { reason: code };
    let events = stream_of(frames.push(end));
    lemma_stop_index_at_last(frames, EventView::Frame(end));
    assert(events =~= stream_of(frames).push(EventView::Frame(end)));
}

/// A stream that runs out of time gives its frames' page, if a cursor came with them; an error that
/// says so, if nothing came; and an error like that of a close, if items came without a cursor.
pub proof fn law_timeout_keeps_partial_progress<I>(
    rpc_name: Seq<char>,
    frames: Seq<FrameView<I>>,
    status: StatusView,
)
    requires
        open_ended(frames),
        status.code.is_timeout(),
    ensures
        ({
            let events = stream_of(frames).push(EventView::Failed(status));
            &&& last_cursor(frames) is Some ==> drained(rpc_name, events) == Ok::<
                PageView<I>,
                ErrorView,
            >(page_of(frames))
            &&& last_cursor(frames) is None && items_of(frames).len() == 0 ==> drained(
                rpc_name,
                events,
            ) == Err::<PageView<I>, ErrorView>(no_progress_error(rpc_name, status))
            &&& last_cursor(frames) is None && items_of(frames).len() > 0 ==> drained(
                rpc_name,
                events,
            ) == Err::<PageView<I>, ErrorView>(unresumable_error(rpc_name))
        }),
{
    lemma_stop_index_at_last(frames, EventView::Failed(status));
}

/// A stream that fails for any other reason gives an error, whatever it sent before.
pub proof fn law_other_failure_is_an_error<I>(
    rpc_name: Seq<char>,
    frames: Seq<FrameView<I>>,
    status: StatusView,
)
    requires
        open_ended(frames),
        !status.code.is_timeout(),
    ensures
        drained(rpc_name, stream_of(frames).push(EventView::Failed(status))) == Err::<
            PageView<I>,
            ErrorView,
        >(stream_error(rpc_name, status)),
{
    lemma_stop_index_at_last(frames, EventView::Failed(status));
}

proof fn lemma_stop_index_at_last<I>(frames: Seq<FrameView<I>>, last: EventView<I>)
    requires
        open_ended(frames),
        last.is_terminal(),
    ensures
        stop_index(stream_of(frames).push(last)) == frames.len(),
        frames_of(stream_of(frames).push(last).take(frames.len() as int)) == frames,
{
    let events = stream_of(frames).push(last);
    let stop = frames.len() as int;
    assert forall|i: int| 0 <= i < stop implies !(#[trigger] events[i]).is_terminal() by {
        assert(events[i] == EventView::Frame(frames[i]));
    }
    lemma_stop_index_unique(events, stop);
    assert(frames_of(events.take(stop)) =~= frames);
}

/// A reader has the experimental query APIs if and only if its options ask for them, and neither the
/// other options nor the service's address nor the metrics' names matter. The same holds of a clone of
/// the reader.
pub proof fn law_alpha_follows_the_option<C: Clone, A: Clone>(
    args: LedgerGrpcArgs,
    scheme: Option<&str>,
    prefix: Option<&str>,
    settings: ConnectionSettings,
    client: C,
    alpha_client: A,
    copy: LedgerGrpcReader<C, A>,
)
    requires
        settings.follow_from(args, scheme, prefix),
        LedgerGrpcReader::built(settings, client, alpha_client).is_cloned_as(copy),
    ensures
        LedgerGrpcReader::built(settings, client, alpha_client).alpha_configured()
            == args.wants_experimental_query_apis(),
        copy.alpha_configured() == args.wants_experimental_query_apis(),
{
}

/// A clone of any reader, itself a clone or not, has the experimental query APIs if the reader has
/// them, and makes the same requests.
pub proof fn law_clone_reads_alike<C: Clone, A: Clone, T>(
    reader: LedgerGrpcReader<C, A>,
    copy: LedgerGrpcReader<C, A>,
    input: T,
    request: OutgoingRequest<T>,
)
    requires
        reader.is_cloned_as(copy),
    ensures
        copy.alpha_configured() == reader.alpha_configured(),
        copy.timeout_fits() == reader.timeout_fits(),
        copy.is_request(input, request) == reader.is_request(input, request),
{
}

/// A digest has no sequence number if and only if the server does not know it, or knows it and sends
/// none.
pub proof fn law_unknown_digest_is_an_answer(reply: Result<GetCheckpointResponse, Status>)
    ensures
        reply_sequence_number(reply) matches Ok(None) <==> match reply {
            Ok(response) => response.checkpoint matches Some(checkpoint)
                && checkpoint.sequence_number is None,
            Err(status) => status.code is NotFound,
        },
{
}

} // verus!
