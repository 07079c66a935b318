//! Draining one list stream into a page.
//!
//! A driver pulls the stream and hands each event to `drain_step`, which says whether to pull again
//! or what the drain ends with. `drain_list_stream` does the same to a stream whose events are all at
//! hand.
use crate::error::{Error, ErrorView};
use crate::frame::{FrameKind, FrameView};
use crate::page::{PageView, StreamPage};
use crate::status::{Code, Status, StatusView};
use vstd::prelude::*;

verus! {

/// What a driver does after handing over an event.
#[derive(Debug)]
pub enum DrainStep<I> {
    /// Pull the next event, and hand it over with this page.
    Pull(StreamPage<I>),
    /// Stop: this is the outcome of the drain.
    Finished(Result<StreamPage<I>, Error>),
}

/// An event of a stream: a frame, or the failure that it breaks off with.
pub enum EventView<I> {
    Frame(FrameView<I>),
    Failed(StatusView),
}

impl<I> EventView<I> {
    /// Nothing that follows the event is read.
    pub open spec fn is_terminal(self) -> bool {
        match self {
            EventView::Frame(frame) => frame is End,
            EventView::Failed(_) => true,
        }
    }
}

/// The event that a stream yields as `event`.
pub open spec fn event_view<I>(event: Result<FrameKind<I>, Status>) -> EventView<I> {
    match event {
        Ok(frame) => EventView::Frame(frame@),
        Err(status) => EventView::Failed(status@),
    }
}

/// The events of a whole stream.
pub open spec fn events_view<I>(events: Seq<Result<FrameKind<I>, Status>>) -> Seq<EventView<I>> {
    events.map_values(|event: Result<FrameKind<I>, Status>| event_view(event))
}

/// The outcome of a drain over the views of what it holds.
pub open spec fn outcome_view<I>(outcome: Result<StreamPage<I>, Error>) -> Result<
    PageView<I>,
    ErrorView,
> {
    match outcome {
        Ok(page) => Ok(page@),
        Err(error) => Err(error@),
    }
}

/// The name that `{:?}` prints for a code that says that time ran out.
pub open spec fn timeout_name(code: Code) -> Seq<char> {
    if code is DeadlineExceeded {
        "DeadlineExceeded"@
    } else {
        "Cancelled"@
    }
}

/// The error of a stream that ran out of time with nothing to show for it.
pub open spec fn no_progress_error(rpc_name: Seq<char>, status: StatusView) -> ErrorView {
    ErrorView::Internal(
        rpc_name + " stream "@ + timeout_name(status.code) + " with no progress: "@
            + status.message,
    )
}

/// The error of a stream that failed for any other reason.
pub open spec fn stream_error(rpc_name: Seq<char>, status: StatusView) -> ErrorView {
    ErrorView::Internal(rpc_name + " stream error: "@ + status.message)
}

/// The error of a stream that leaves more to read and no cursor to read it from: data loss.
pub open spec fn unresumable_error(rpc_name: Seq<char>) -> ErrorView {
    ErrorView::DataLoss(
        rpc_name
            + ": server reported more results but did not advance cursor — cannot resume"@,
    )
}

/// The outcome of a drain that stopped with `page`: the page itself, or data loss if there is more
/// to read and no cursor to read it from.
pub open spec fn closed<I>(rpc_name: Seq<char>, page: PageView<I>) -> Result<
    PageView<I>,
    ErrorView,
> {
    if page.resumable() {
        Ok(page)
    } else {
        Err(unresumable_error(rpc_name))
    }
}

/// The outcome of a drain that a failure cuts short at `page`. Time running out leaves what was
/// collected, if anything was; any other failure loses it.
pub open spec fn broken_off<I>(rpc_name: Seq<char>, page: PageView<I>, status: StatusView) -> Result<
    PageView<I>,
    ErrorView,
> {
    if !status.code.is_timeout() {
        Err(stream_error(rpc_name, status))
    } else if !page.progressed() {
        Err(no_progress_error(rpc_name, status))
    } else {
        closed(rpc_name, page)
    }
}

/// The items of a sequence of frames, in order.
pub open spec fn items_of<I>(frames: Seq<FrameView<I>>) -> Seq<I>
    decreases frames.len(),
{
    if frames.len() == 0 {
        Seq::empty()
    } else {
        match frames.last() {
            FrameView::Item { item, .. } => items_of(frames.drop_last()).push(item),
            _ => items_of(frames.drop_last()),
        }
    }
}

/// The cursor that a frame brings, if any.
pub open spec fn frame_cursor<I>(frame: FrameView<I>) -> Option<Seq<u8>> {
    match frame {
        FrameView::Item { cursor, .. } => cursor,
        FrameView::Watermark { cursor } => cursor,
        _ => None,
    }
}

/// The cursor of the last frame that brings one.
pub open spec fn last_cursor<I>(frames: Seq<FrameView<I>>) -> Option<Seq<u8>>
    decreases frames.len(),
{
    if frames.len() == 0 {
        None
    } else if frame_cursor(frames.last()) is Some {
        frame_cursor(frames.last())
    } else {
        last_cursor(frames.drop_last())
    }
}

/// The page that frames without an end among them make: their items, and their last cursor.
pub open spec fn page_of<I>(frames: Seq<FrameView<I>>) -> PageView<I> {
    PageView { items: items_of(frames), end_cursor: last_cursor(frames), end_reason: None }
}

/// Where a drain stops reading: at the first terminal event, or behind the last event.
pub open spec fn stop_index<I>(events: Seq<EventView<I>>) -> nat
    decreases events.len(),
{
    if events.len() == 0 || events.first().is_terminal() {
        0
    } else {
        1 + stop_index(events.drop_first())
    }
}

/// The page that a drain of these events stops with, the end included if it was announced.
pub open spec fn stopped_page<I>(events: Seq<EventView<I>>) -> PageView<I> {
    let stop = stop_index(events) as int;
    let page = page_of(frames_of(events.take(stop)));
    if stop < events.len() && events[stop] is Frame {
        page.applied(events[stop]->Frame_0)
    } else {
        page
    }
}

/// The frames of events that are all frames.
pub open spec fn frames_of<I>(events: Seq<EventView<I>>) -> Seq<FrameView<I>> {
    events.map_values(|event: EventView<I>| event->Frame_0)
}

/// The outcome of draining a stream of these events, which then closes.
pub open spec fn drained<I>(rpc_name: Seq<char>, events: Seq<EventView<I>>) -> Result<
    PageView<I>,
    ErrorView,
> {
    let stop = stop_index(events) as int;
    let page = stopped_page(events);
    if stop < events.len() && events[stop] is Failed {
        broken_off(rpc_name, page, events[stop]->Failed_0)
    } else {
        closed(rpc_name, page)
    }
}

/// A step over the views of what it holds.
pub enum StepView<I> {
    Pull(PageView<I>),
    Finished(Result<PageView<I>, ErrorView>),
}

impl<I> View for DrainStep<I> {
    type V = StepView<I>;

    open spec fn view(&self) -> StepView<I> {
        match self {
            DrainStep::Pull(page) => StepView::Pull(page@),
            DrainStep::Finished(outcome) => StepView::Finished(outcome_view(*outcome)),
        }
    }
}

/// The step that follows on an event, or on the close of the stream.
pub open spec fn stepped<I>(
    rpc_name: Seq<char>,
    page: PageView<I>,
    event: Option<EventView<I>>,
) -> StepView<I> {
    match event {
        Some(EventView::Frame(frame)) => {
            if frame is End {
                StepView::Finished(closed(rpc_name, page.applied(frame)))
            } else {
                StepView::Pull(page.applied(frame))
            }
        },
        Some(EventView::Failed(status)) => StepView::Finished(broken_off(rpc_name, page, status)),
        None => StepView::Finished(closed(rpc_name, page)),
    }
}

/// The event that a pull of the stream yields, or `None` when the stream has closed.
pub open spec fn pulled_view<I>(event: Option<Result<FrameKind<I>, Status>>) -> Option<
    EventView<I>,
> {
    match event {
        Some(event) => Some(event_view(event)),
        None => None,
    }
}

/// The outcome of a drain that stops with `page`.
///
/// Pagination cannot be resumed if there is more work at the server but no cursor was received,
/// neither from a standalone watermark nor from an item's. That is data loss.
fn finish<I>(rpc_name: &str, page: StreamPage<I>) -> (outcome: Result<StreamPage<I>, Error>)
    ensures
        outcome_view(outcome) == closed(rpc_name@, page@),
        outcome matches Ok(kept) ==> kept == page,
{
    if page.has_more() && page.end_cursor.is_none() {
        return Err(
            Error::DataLoss(
                rpc_name.to_owned().concat(
                    ": server reported more results but did not advance cursor — cannot resume",
                ),
            ),
        );
    }
    Ok(page)
}

/// The error for time running out with no progress, with the code called `code_name`.
fn no_progress(rpc_name: &str, code_name: &str, message: &str) -> (error: Error)
    ensures
        error@ == ErrorView::Internal(
            rpc_name@ + " stream "@ + code_name@ + " with no progress: "@ + message@,
        ),
{
    Error::Internal(
        rpc_name.to_owned().concat(" stream ").concat(code_name).concat(
            " with no progress: ",
        ).concat(message),
    )
}

/// Take one event of the stream into `page`: a frame, the failure that the stream breaks off with,
/// or `None` when it closes.
///
/// The drain goes on until the end is announced, the stream closes, or it fails. A timeout keeps
/// partial work if any progress was made, and is an error only if there was none.
pub fn drain_step<I>(
    rpc_name: &str,
    page: StreamPage<I>,
    event: Option<Result<FrameKind<I>, Status>>,
) -> (step: DrainStep<I>)
    ensures
        step@ == stepped(rpc_name@, page@, pulled_view(event)),
{
    let mut page = page;
    match event {
        Some(Ok(frame)) => {
            if page.apply(frame) {
                DrainStep::Finished(finish(rpc_name, page))
            } else {
                DrainStep::Pull(page)
            }
        },
        None => DrainStep::Finished(finish(rpc_name, page)),
        Some(Err(status)) => {
            let code_name = match status.code {
                Code::DeadlineExceeded => "DeadlineExceeded",
                Code::Cancelled => "Cancelled",
                _ => {
                    return DrainStep::Finished(
                        Err(
                            Error::Internal(
                                rpc_name.to_owned().concat(" stream error: ").concat(
                                    status.message.as_str(),
                                ),
                            ),
                        ),
                    );
                },
            };
            if page.items.len() == 0 && page.end_cursor.is_none() {
                return DrainStep::Finished(
                    Err(no_progress(rpc_name, code_name, status.message.as_str())),
                );
            }
            DrainStep::Finished(finish(rpc_name, page))
        },
    }
}

/// `stop_index` is the first position that is behind the end or holds a terminal event.
pub(crate) proof fn lemma_stop_index<I>(events: Seq<EventView<I>>)
    ensures
        stop_index(events) <= events.len(),
        forall|i: int| 0 <= i < stop_index(events) ==> !(#[trigger] events[i]).is_terminal(),
        stop_index(events) < events.len() ==> events[stop_index(events) as int].is_terminal(),
    decreases events.len(),
{
    if events.len() != 0 && !events.first().is_terminal() {
        let rest = events.drop_first();
        lemma_stop_index(rest);
        assert forall|i: int| 0 <= i < stop_index(events) implies !(
        #[trigger] events[i]).is_terminal() by {
            if i > 0 {
                assert(rest[i - 1] == events[i]);
            }
        }
    }
}

/// No other position is like `stop_index`.
pub(crate) proof fn lemma_stop_index_unique<I>(events: Seq<EventView<I>>, stop: int)
    requires
        0 <= stop <= events.len(),
        forall|i: int| 0 <= i < stop ==> !(#[trigger] events[i]).is_terminal(),
        stop < events.len() ==> events[stop].is_terminal(),
    ensures
        stop_index(events) == stop,
{
    lemma_stop_index(events);
    let found = stop_index(events) as int;
    if found < stop {
        assert(!events[found].is_terminal());
    }
}

/// One more frame that is no end extends the page as `applied` says.
pub(crate) proof fn lemma_page_of_push<I>(frames: Seq<FrameView<I>>, frame: FrameView<I>)
    requires
        !(frame is End),
    ensures
        page_of(frames.push(frame)) == page_of(frames).applied(frame),
{
    assert(frames.push(frame).drop_last() =~= frames);
}

/// Drain a list stream whose events are all at hand, and which closes after the last of them.
pub fn drain_list_stream<I>(rpc_name: &str, events: Vec<Result<FrameKind<I>, Status>>) -> (outcome:
    Result<StreamPage<I>, Error>)
    ensures
        outcome_view(outcome) == drained(rpc_name@, events_view(events@)),
        outcome matches Ok(page) ==> page@.resumable(),
{
    let ghost seen = events_view(events@);
    let mut page: StreamPage<I> = StreamPage::default();
    assert(frames_of(seen.take(0)) =~= Seq::empty());
    for event in iter: events
        invariant
            seen == events_view(iter.seq()),
            forall|i: int| 0 <= i < iter.index() ==> !(#[trigger] seen[i]).is_terminal(),
            page@ == page_of(frames_of(seen.take(iter.index() as int))),
    {
        let ghost at = iter.index() as int;
        assert(seen[at] == event_view(event));
        proof {
            if seen[at].is_terminal() {
                lemma_stop_index_unique(seen, at);
            } else {
                let frames = frames_of(seen.take(at));
                lemma_page_of_push(frames, seen[at]->Frame_0);
                assert(frames_of(seen.take(at + 1)) =~= frames.push(seen[at]->Frame_0));
            }
        }
        match drain_step(rpc_name, page, Some(event)) {
            DrainStep::Pull(next) => {
                page = next;
            },
            DrainStep::Finished(outcome) => {
                return outcome;
            },
        }
    }
    proof {
        lemma_stop_index_unique(seen, seen.len() as int);
    }
    finish(rpc_name, page)
}

} // verus!
