//! The page that a list stream is drained into.
use crate::frame::{FrameKind, FrameView};
use crate::outside::{bytes_contents, decode_end_reason};
use bytes::Bytes;
use vstd::prelude::*;

verus! {

/// Why the server ended a list stream.
#[derive(Clone, Copy, Debug, PartialEq, Eq, Structural)]
pub enum QueryEndReason {
    /// No reason was given, or one that is not known here.
    Unspecified,
    /// The requested number of items was sent.
    ItemLimit,
    /// The server's scan budget was used up.
    ScanLimit,
    /// The scan reached the checkpoint bound of the request.
    CheckpointBound,
    /// The scan reached the cursor bound of the request.
    CursorBound,
    /// The scan reached the newest indexed checkpoint.
    LedgerTip,
}

impl QueryEndReason {
    /// The reason with number `code` on the wire, if there is one.
    pub open spec fn decoded(code: i32) -> Option<QueryEndReason> {
        if code == 0 {
            Some(QueryEndReason::Unspecified)
        } else if code == 1 {
            Some(QueryEndReason::ItemLimit)
        } else if code == 2 {
            Some(QueryEndReason::ScanLimit)
        } else if code == 3 {
            Some(QueryEndReason::CheckpointBound)
        } else if code == 4 {
            Some(QueryEndReason::CursorBound)
        } else if code == 5 {
            Some(QueryEndReason::LedgerTip)
        } else {
            None
        }
    }

    /// The reason with number `code`, where a number that is not known counts as `Unspecified`.
    pub open spec fn folded(code: i32) -> QueryEndReason {
        match QueryEndReason::decoded(code) {
            Some(reason) => reason,
            None => QueryEndReason::Unspecified,
        }
    }

    /// The requested range holds nothing beyond what was sent.
    pub open spec fn is_exhausted(self) -> bool {
        self is CheckpointBound || self is CursorBound || self is LedgerTip
    }
}

/// The bytes of an optional cursor.
pub open spec fn cursor_view(cursor: Option<Bytes>) -> Option<Seq<u8>> {
    match cursor {
        Some(cursor) => Some(bytes_contents(cursor)),
        None => None,
    }
}

/// A copy of an optional cursor.
pub(crate) fn copied_cursor(cursor: &Option<Bytes>) -> (copy: Option<Bytes>)
    ensures
        cursor_view(copy) == cursor_view(*cursor),
{
    match cursor {
        Some(cursor) => Some(cursor.clone()),
        None => None,
    }
}

/// A page drained from a stream: the items in stream order, the latest cursor to continue from, and
/// why the stream stopped.
///
/// `end_cursor` may be beyond the last item of the page. `end_reason` is `None` only when the stream
/// stopped before its end was announced.
#[derive(Debug)]
pub struct StreamPage<I> {
    pub items: Vec<I>,
    pub end_cursor: Option<Bytes>,
    pub end_reason: Option<QueryEndReason>,
}

/// A `StreamPage` as mathematical values.
#[verifier::ext_equal]
pub struct PageView<I> {
    pub items: Seq<I>,
    pub end_cursor: Option<Seq<u8>>,
    pub end_reason: Option<QueryEndReason>,
}

impl<I> View for StreamPage<I> {
    type V = PageView<I>;

    open spec fn view(&self) -> PageView<I> {
        PageView {
            items: self.items@,
            end_cursor: cursor_view(self.end_cursor),
            end_reason: self.end_reason,
        }
    }
}

impl<I> PageView<I> {
    /// The page before anything was received.
    pub open spec fn empty() -> PageView<I> {
        PageView { items: Seq::empty(), end_cursor: None, end_reason: None }
    }

    /// The server has not exhausted the requested range, as far as the page tells.
    pub open spec fn has_more(self) -> bool {
        !(self.end_reason matches Some(reason) && reason.is_exhausted())
    }

    /// A page with more to come says from where.
    pub open spec fn resumable(self) -> bool {
        self.has_more() ==> self.end_cursor is Some
    }

    /// Something was received that a caller can use: an item or a cursor.
    pub open spec fn progressed(self) -> bool {
        self.items.len() > 0 || self.end_cursor is Some
    }

    /// The page with its cursor moved to `cursor`, if there is one.
    pub open spec fn advanced(self, cursor: Option<Seq<u8>>) -> PageView<I> {
        PageView { end_cursor: if cursor is Some { cursor } else { self.end_cursor }, ..self }
    }

    /// The page after one more frame.
    pub open spec fn applied(self, frame: FrameView<I>) -> PageView<I> {
        match frame {
            FrameView::Item { item, cursor } => {
                PageView { items: self.items.push(item), ..self.advanced(cursor) }
            },
            FrameView::Watermark { cursor } => self.advanced(cursor),
            FrameView::End { reason } => {
                PageView { end_reason: Some(QueryEndReason::folded(reason)), ..self }
            },
            FrameView::Unknown => self,
        }
    }

    /// The page after more frames, one after the other.
    pub open spec fn applied_all(self, frames: Seq<FrameView<I>>) -> PageView<I>
        decreases frames.len(),
    {
        if frames.len() == 0 {
            self
        } else {
            self.applied_all(frames.drop_last()).applied(frames.last())
        }
    }
}

impl<I> StreamPage<I> {
    /// True while the server has not exhausted the requested range.
    pub fn has_more(&self) -> (more: bool)
        ensures
            more == self@.has_more(),
    {
        !matches!(
            self.end_reason,
            Some(
                QueryEndReason::CheckpointBound
                    | QueryEndReason::CursorBound
                    | QueryEndReason::LedgerTip,
            )
        )
    }

    /// The cursor to continue paginating, or `None` if the requested range has been exhausted and no
    /// further pagination is possible.
    ///
    /// Invariant: `has_more()` implies that `end_cursor` is `Some`. Enforced at the page boundary by
    /// `drain_list_stream`, which returns `DataLoss` on violation, and preserved by any caller that
    /// puts together a `StreamPage` from the `end_reason` and `end_cursor` of a page that holds it.
    pub fn next_cursor(&self) -> (cursor: Option<&Bytes>)
        requires
            self@.resumable(),
        ensures
            self@.has_more() ==> cursor is Some && self.end_cursor == Some(*cursor->0),
            !self@.has_more() ==> cursor is None,
    {
        if self.has_more() {
            Some(
                self.end_cursor.as_ref().expect("invariant: has_more implies end_cursor is Some"),
            )
        } else {
            None
        }
    }

    /// Fold one frame into the page. The cursor is updated to that of the incoming item or standalone
    /// watermark.
    ///
    /// Returns `true` when the frame announces the end of the stream.
    pub fn apply(&mut self, frame: FrameKind<I>) -> (ended: bool)
        ensures
            final(self)@ == old(self)@.applied(frame@),
            ended == (frame is End),
    {
        match frame {
            FrameKind::Item { item, cursor } => {
                if cursor.is_some() {
                    self.end_cursor = cursor;
                }
                self.items.push(item);
            },
            FrameKind::Watermark { cursor } => {
                if cursor.is_some() {
                    self.end_cursor = cursor;
                }
            },
            FrameKind::End { reason } => {
                // An unknown reason becomes `Unspecified`, so that `None` keeps meaning that no end
                // was announced.
                self.end_reason = match decode_end_reason(reason) {
                    Some(decoded) => Some(decoded),
                    None => Some(QueryEndReason::Unspecified),
                };
                return true;
            },
            FrameKind::Unknown => {},
        }
        false
    }
}

impl<I: Clone> Clone for StreamPage<I> {
    fn clone(&self) -> (copy: Self)
        ensures
            copy@.end_cursor == self@.end_cursor,
            copy@.end_reason == self@.end_reason,
            copy@.items.len() == self@.items.len(),
            forall|i: int|
                0 <= i < self@.items.len() ==> cloned::<I>(self@.items[i], #[trigger] copy@.items[i]),
    {
        StreamPage {
            items: self.items.clone(),
            end_cursor: copied_cursor(&self.end_cursor),
            end_reason: self.end_reason,
        }
    }
}

impl<I> Default for StreamPage<I> {
    fn default() -> (page: Self)
        ensures
            page@ == PageView::<I>::empty(),
    {
        StreamPage { items: Vec::new(), end_cursor: None, end_reason: None }
    }
}

} // verus!
