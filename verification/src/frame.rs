//! The messages of a list stream, and what each stands for.
use crate::page::{copied_cursor, cursor_view};
use bytes::Bytes;
use vstd::prelude::*;

verus! {

/// How far a scan has come.
#[derive(Clone, Debug)]
pub struct Watermark {
    pub cursor: Option<Bytes>,
}

/// One matching transaction, with the scan's position behind it.
#[derive(Clone, Debug)]
pub struct TransactionItem<T> {
    pub transaction: T,
    pub watermark: Option<Watermark>,
}

/// The server's announcement that it sends nothing more.
#[derive(Clone, Copy, Debug)]
pub struct QueryEnd {
    pub reason: i32,
}

/// What one message of the stream can hold.
#[derive(Clone, Debug)]
pub enum Response<T> {
    Item(TransactionItem<T>),
    Watermark(Watermark),
    End(QueryEnd),
    /// A content that is not known here.
    Unrecognized,
}

/// One message of a transaction list stream. It may be empty.
#[derive(Clone, Debug)]
pub struct ListTransactionsResponse<T> {
    pub response: Option<Response<T>>,
}

/// The fields of a message as the wire has them, where an item and the end can come in one message.
#[derive(Clone, Debug)]
pub struct WireFields<T> {
    pub transaction: Option<T>,
    pub watermark: Option<Watermark>,
    pub end: Option<QueryEnd>,
}

impl<T> WireFields<T> {
    /// What the message holds besides the end: an item with its watermark, or a watermark alone.
    pub open spec fn content(self) -> Option<Response<T>> {
        match (self.transaction, self.watermark) {
            (Some(transaction), watermark) => {
                Some(Response::Item(TransactionItem { transaction, watermark }))
            },
            (None, Some(watermark)) => Some(Response::Watermark(watermark)),
            (None, None) => None,
        }
    }

    /// The message as messages that hold one thing each, with the end last. A message that holds
    /// nothing stays one empty message.
    pub open spec fn separated(self) -> Seq<ListTransactionsResponse<T>> {
        match (self.content(), self.end) {
            (Some(content), Some(end)) => seq![
                ListTransactionsResponse { response: Some(content) },
                ListTransactionsResponse { response: Some(Response::End(end)) },
            ],
            (content, None) => seq![ListTransactionsResponse { response: content }],
            (None, Some(end)) => seq![
                ListTransactionsResponse { response: Some(Response::End(end)) },
            ],
        }
    }

    /// Separate the message into messages that hold one thing each, with the end last.
    pub fn separate(self) -> (messages: Vec<ListTransactionsResponse<T>>)
        ensures
            messages@ == self.separated(),
    {
        let content = match (self.transaction, self.watermark) {
            (Some(transaction), watermark) => {
                Some(Response::Item(TransactionItem { transaction, watermark }))
            },
            (None, Some(watermark)) => Some(Response::Watermark(watermark)),
            (None, None) => None,
        };
        let mut messages: Vec<ListTransactionsResponse<T>> = Vec::new();
        match self.end {
            None => {
                messages.push(ListTransactionsResponse { response: content });
            },
            Some(end) => {
                if content.is_some() {
                    messages.push(ListTransactionsResponse { response: content });
                }
                messages.push(ListTransactionsResponse { response: Some(Response::End(end)) });
            },
        }
        messages
    }
}

/// What one message of a list stream asks of the page.
#[derive(Debug)]
pub enum FrameKind<I> {
    Item { item: I, cursor: Option<Bytes> },
    Watermark { cursor: Option<Bytes> },
    End { reason: i32 },
    Unknown,
}

/// A `FrameKind` with its cursor as a sequence of bytes.
pub enum FrameView<I> {
    Item { item: I, cursor: Option<Seq<u8>> },
    Watermark { cursor: Option<Seq<u8>> },
    End { reason: i32 },
    Unknown,
}

impl<I> View for FrameKind<I> {
    type V = FrameView<I>;

    open spec fn view(&self) -> FrameView<I> {
        match self {
            FrameKind::Item { item, cursor } => {
                FrameView::Item { item: *item, cursor: cursor_view(*cursor) }
            },
            FrameKind::Watermark { cursor } => FrameView::Watermark { cursor: cursor_view(*cursor) },
            FrameKind::End { reason } => FrameView::End { reason: *reason },
            FrameKind::Unknown => FrameView::Unknown,
        }
    }
}

/// The cursor of an optional watermark.
pub open spec fn watermark_cursor(watermark: Option<Watermark>) -> Option<Seq<u8>> {
    match watermark {
        Some(watermark) => cursor_view(watermark.cursor),
        None => None,
    }
}

impl<T> ListTransactionsResponse<T> {
    /// What the message asks of the page. An item's cursor is that of its own watermark.
    pub open spec fn classified(self) -> FrameView<TransactionItem<T>> {
        match self.response {
            Some(Response::Item(item)) => {
                FrameView::Item { item, cursor: watermark_cursor(item.watermark) }
            },
            Some(Response::Watermark(watermark)) => {
                FrameView::Watermark { cursor: cursor_view(watermark.cursor) }
            },
            Some(Response::End(end)) => FrameView::End { reason: end.reason },
            Some(Response::Unrecognized) => FrameView::Unknown,
            None => FrameView::Unknown,
        }
    }
}

/// The cursor of an item's frame is a copy, of which only the bytes are known. So the frame is fixed
/// up to its view, as `from` states, and no equation on `FrameKind` itself is claimed here.
impl<T> vstd::std_specs::convert::FromSpecImpl<ListTransactionsResponse<T>>
    for FrameKind<TransactionItem<T>> {
    open spec fn obeys_from_spec() -> bool {
        false
    }

    open spec fn from_spec(response: ListTransactionsResponse<T>) -> Self {
        arbitrary()
    }
}

impl<T> From<ListTransactionsResponse<T>> for FrameKind<TransactionItem<T>> {
    fn from(response: ListTransactionsResponse<T>) -> (kind: Self)
        ensures
            kind@ == response.classified(),
    {
        let response = match response.response {
            Some(response) => response,
            None => return FrameKind::Unknown,
        };
        match response {
            Response::Item(item) => {
                let cursor = match &item.watermark {
                    Some(watermark) => copied_cursor(&watermark.cursor),
                    None => None,
                };
                FrameKind::Item { item, cursor }
            },
            Response::Watermark(watermark) => FrameKind::Watermark { cursor: watermark.cursor },
            Response::End(end) => FrameKind::End { reason: end.reason },
            Response::Unrecognized => FrameKind::Unknown,
        }
    }
}

} // verus!
