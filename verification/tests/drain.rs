//! Draining list streams into pages.
use bytes::Bytes;
use ledger_grpc_reader::drain::{drain_list_stream, drain_step, DrainStep};
use ledger_grpc_reader::error::Error;
use ledger_grpc_reader::frame::{
    FrameKind, ListTransactionsResponse, QueryEnd, Response, TransactionItem, Watermark,
    WireFields,
};
use ledger_grpc_reader::page::{QueryEndReason, StreamPage};
use ledger_grpc_reader::status::{Code, Status};

type Item = TransactionItem<u32>;
type Message = ListTransactionsResponse<u32>;

fn numbered_item(number: u32, cursor: Option<&[u8]>) -> Message {
    ListTransactionsResponse {
        response: Some(Response::Item(TransactionItem {
            transaction: number,
            watermark: Some(Watermark { cursor: cursor.map(Bytes::copy_from_slice) }),
        })),
    }
}

fn item_response(cursor: &[u8]) -> Message {
    numbered_item(0, Some(cursor))
}

fn watermark_response(cursor: &[u8]) -> Message {
    ListTransactionsResponse {
        response: Some(Response::Watermark(Watermark {
            cursor: Some(Bytes::copy_from_slice(cursor)),
        })),
    }
}

fn end_code(reason: i32) -> Message {
    ListTransactionsResponse { response: Some(Response::End(QueryEnd { reason })) }
}

fn end_response(reason: QueryEndReason) -> Message {
    end_code(match reason {
        QueryEndReason::Unspecified => 0,
        QueryEndReason::ItemLimit => 1,
        QueryEndReason::ScanLimit => 2,
        QueryEndReason::CheckpointBound => 3,
        QueryEndReason::CursorBound => 4,
        QueryEndReason::LedgerTip => 5,
    })
}

fn failure(code: Code, message: &str) -> Status {
    Status { code, message: message.to_owned() }
}

fn drain_iter(responses: Vec<Result<Message, Status>>) -> Result<StreamPage<Item>, Error> {
    let events = responses.into_iter().map(|event| event.map(FrameKind::from)).collect();
    drain_list_stream("ListTransactions", events)
}

fn numbers(page: &StreamPage<Item>) -> Vec<u32> {
    page.items.iter().map(|item| item.transaction).collect()
}

#[test]
fn drains_items_tracking_latest_cursor_and_end_reason() {
    let mut page: StreamPage<Item> = StreamPage::default();
    assert!(!page.apply(item_response(b"c1").into()));
    assert!(!page.apply(watermark_response(b"c2").into()));
    assert!(!page.apply(item_response(b"c3").into()));
    // The terminal frame signals the caller to stop draining.
    assert!(page.apply(end_response(QueryEndReason::ItemLimit).into()));

    assert_eq!(page.items.len(), 2);
    // Latest cursor wins, including a standalone watermark between items.
    assert_eq!(page.end_cursor.as_deref(), Some(b"c3".as_ref()));
    assert_eq!(page.end_reason, Some(QueryEndReason::ItemLimit));
}

#[test]
fn standalone_watermark_advances_cursor_without_items() {
    let mut page: StreamPage<Item> = StreamPage::default();
    assert!(!page.apply(watermark_response(b"w1").into()));
    assert!(page.apply(end_response(QueryEndReason::LedgerTip).into()));

    assert!(page.items.is_empty());
    assert_eq!(page.end_cursor.as_deref(), Some(b"w1".as_ref()));
    assert_eq!(page.end_reason, Some(QueryEndReason::LedgerTip));
}

#[test]
fn has_more_true_when_truncated_or_timed_out() {
    // Both limits signal "we stopped short, resume here".
    for reason in [QueryEndReason::ItemLimit, QueryEndReason::ScanLimit] {
        let mut page: StreamPage<Item> = StreamPage::default();
        page.apply(end_response(reason).into());
        assert!(page.has_more(), "expected has_more for {reason:?}");
    }

    // No end was announced: defaulting to "may have more" avoids silent truncation.
    let page: StreamPage<Item> = StreamPage::default();
    assert!(page.has_more());
}

#[test]
fn has_more_false_when_range_exhausted() {
    for reason in [
        QueryEndReason::CheckpointBound,
        QueryEndReason::CursorBound,
        QueryEndReason::LedgerTip,
    ] {
        let mut page: StreamPage<Item> = StreamPage::default();
        page.apply(end_response(reason).into());
        assert!(!page.has_more(), "expected !has_more for {reason:?}");
    }
}

#[test]
fn apply_end_with_unknown_reason_folds_to_unspecified() {
    let response = end_code(i32::MAX);

    let mut page: StreamPage<Item> = StreamPage::default();
    assert!(page.apply(response.into()));
    assert_eq!(page.end_reason, Some(QueryEndReason::Unspecified));
}

#[test]
fn apply_unknown_frame_continues_draining() {
    let response: Message = ListTransactionsResponse { response: None };

    let mut page: StreamPage<Item> = StreamPage::default();
    assert!(!page.apply(response.into()));
    assert!(page.items.is_empty());
    assert_eq!(page.end_cursor, None);
    assert_eq!(page.end_reason, None);
}

#[test]
fn empty_response_classifies_as_unknown() {
    let response: Message = ListTransactionsResponse { response: None };
    let kind: FrameKind<Item> = response.into();
    assert!(matches!(kind, FrameKind::Unknown));
}

#[test]
fn drain_preserves_partial_progress_on_timeout() {
    // Two items and a server-side deadline. The end was never announced, but `end_cursor` was
    // advanced: the caller can resume from `c2`.
    let page = drain_iter(vec![
        Ok(item_response(b"c1")),
        Ok(item_response(b"c2")),
        Err(failure(Code::DeadlineExceeded, "server budget")),
    ])
    .expect("partial progress should be preserved");

    assert_eq!(page.items.len(), 2);
    assert_eq!(page.end_cursor.as_deref(), Some(b"c2".as_ref()));
    assert_eq!(page.end_reason, None);
    assert!(page.has_more());
}

#[test]
fn drain_errors_on_zero_progress_half_close() {
    // The server opens the stream, sends nothing, half-closes. The page cannot be resumed, so this is
    // an error rather than a silent loss of forward progress.
    let err = drain_iter(vec![]).expect_err("zero-progress half-close should error");
    let msg = err.message();
    assert!(msg.contains("did not advance cursor"), "got: {msg}");
}

#[test]
fn drain_returns_page_on_half_close_after_progress() {
    // The server sent one item, then half-closed without announcing the end. The page is still valid
    // and resumable from the item's watermark.
    let page = drain_iter(vec![Ok(item_response(b"c1"))])
        .expect("partial-progress half-close should succeed");

    assert_eq!(page.items.len(), 1);
    assert_eq!(page.end_cursor.as_deref(), Some(b"c1".as_ref()));
    assert_eq!(page.end_reason, None);
}

#[test]
fn every_known_end_reason_is_decoded() {
    for (code, reason) in [
        (0, QueryEndReason::Unspecified),
        (1, QueryEndReason::ItemLimit),
        (2, QueryEndReason::ScanLimit),
        (3, QueryEndReason::CheckpointBound),
        (4, QueryEndReason::CursorBound),
        (5, QueryEndReason::LedgerTip),
        (6, QueryEndReason::Unspecified),
        (-1, QueryEndReason::Unspecified),
    ] {
        let mut page: StreamPage<Item> = StreamPage::default();
        assert!(page.apply(end_code(code).into()));
        assert_eq!(page.end_reason, Some(reason), "code {code}");
        assert_eq!(page.has_more(), !(3..=5).contains(&code), "code {code}");
    }
}

#[test]
fn messages_are_classified_by_content() {
    let kind: FrameKind<Item> = numbered_item(7, Some(b"at")).into();
    match kind {
        FrameKind::Item { item, cursor } => {
            assert_eq!(item.transaction, 7);
            assert_eq!(cursor.as_deref(), Some(b"at".as_ref()));
            // The item keeps its own watermark.
            assert_eq!(item.watermark.unwrap().cursor, cursor);
        }
        other => panic!("got {other:?}"),
    }

    let kind: FrameKind<Item> = watermark_response(b"w").into();
    assert!(matches!(kind, FrameKind::Watermark { cursor: Some(c) } if c == b"w".as_ref()));

    let kind: FrameKind<Item> = end_code(42).into();
    assert!(matches!(kind, FrameKind::End { reason: 42 }));

    let odd: Message = ListTransactionsResponse { response: Some(Response::Unrecognized) };
    let kind: FrameKind<Item> = odd.into();
    assert!(matches!(kind, FrameKind::Unknown));

    let bare: Message = ListTransactionsResponse {
        response: Some(Response::Item(TransactionItem { transaction: 1, watermark: None })),
    };
    let kind: FrameKind<Item> = bare.into();
    assert!(matches!(kind, FrameKind::Item { cursor: None, .. }));
}

#[test]
fn frames_without_a_cursor_keep_the_old_one() {
    let mut page: StreamPage<Item> = StreamPage::default();
    page.apply(item_response(b"c1").into());
    page.apply(numbered_item(1, None).into());
    page.apply(FrameKind::Watermark { cursor: None });
    page.apply(FrameKind::Unknown);
    assert_eq!(page.end_cursor.as_deref(), Some(b"c1".as_ref()));
    assert_eq!(page.items.len(), 2);
}

#[test]
fn items_keep_stream_order() {
    let page = drain_iter(vec![
        Ok(numbered_item(3, None)),
        Ok(watermark_response(b"w")),
        Ok(numbered_item(1, None)),
        Ok(numbered_item(2, None)),
        Ok(end_response(QueryEndReason::ItemLimit)),
    ])
    .unwrap();
    assert_eq!(numbers(&page), vec![3, 1, 2]);
    assert_eq!(page.end_cursor.as_deref(), Some(b"w".as_ref()));
}

#[test]
fn unknown_frames_leave_no_trace() {
    let empty = || Ok(ListTransactionsResponse { response: None });
    let with = drain_iter(vec![
        empty(),
        Ok(numbered_item(5, Some(b"c"))),
        empty(),
        Ok(end_response(QueryEndReason::ScanLimit)),
    ])
    .unwrap();
    let without = drain_iter(vec![
        Ok(numbered_item(5, Some(b"c"))),
        Ok(end_response(QueryEndReason::ScanLimit)),
    ])
    .unwrap();
    assert_eq!(numbers(&with), numbers(&without));
    assert_eq!(with.end_cursor, without.end_cursor);
    assert_eq!(with.end_reason, without.end_reason);
}

#[test]
fn nothing_is_read_after_the_end() {
    let page = drain_iter(vec![
        Ok(numbered_item(1, Some(b"c1"))),
        Ok(end_response(QueryEndReason::LedgerTip)),
        Ok(numbered_item(2, Some(b"c2"))),
        Err(failure(Code::Internal, "too late")),
    ])
    .unwrap();
    assert_eq!(numbers(&page), vec![1]);
    assert_eq!(page.end_cursor.as_deref(), Some(b"c1".as_ref()));
    assert_eq!(page.end_reason, Some(QueryEndReason::LedgerTip));
}

#[test]
fn timeout_without_progress_is_an_error() {
    let error =
        drain_iter(vec![Err(failure(Code::DeadlineExceeded, "server budget"))]).unwrap_err();
    assert_eq!(
        error.message(),
        "ListTransactions stream DeadlineExceeded with no progress: server budget"
    );
    let error = drain_iter(vec![
        Ok(ListTransactionsResponse { response: None }),
        Err(failure(Code::Cancelled, "Timeout expired")),
    ])
    .unwrap_err();
    assert_eq!(
        error.message(),
        "ListTransactions stream Cancelled with no progress: Timeout expired"
    );
}

#[test]
fn timeout_with_a_watermark_alone_keeps_the_page() {
    let page = drain_iter(vec![
        Ok(watermark_response(b"w1")),
        Err(failure(Code::Cancelled, "Timeout expired")),
    ])
    .unwrap();
    assert!(page.items.is_empty());
    assert_eq!(page.next_cursor().map(|c| c.as_ref()), Some(b"w1".as_ref()));
}

#[test]
fn timeout_with_items_but_no_cursor_cannot_resume() {
    let error = drain_iter(vec![
        Ok(numbered_item(1, None)),
        Err(failure(Code::DeadlineExceeded, "server budget")),
    ])
    .unwrap_err();
    assert!(matches!(error, Error::DataLoss(_)), "got: {error:?}");
    assert_eq!(
        error.message(),
        "ListTransactions: server reported more results but did not advance cursor — cannot resume"
    );
}

#[test]
fn other_failure_loses_the_page() {
    let error = drain_iter(vec![
        Ok(item_response(b"c1")),
        Err(failure(Code::Unavailable, "gone")),
    ])
    .unwrap_err();
    assert!(matches!(error, Error::Internal(_)));
    assert_eq!(error.message(), "ListTransactions stream error: gone");

    // The server's own data loss is a failed stream like any other.
    let error = drain_iter(vec![Err(failure(Code::DataLoss, "torn"))]).unwrap_err();
    assert!(matches!(error, Error::Internal(_)));
    assert_eq!(error.message(), "ListTransactions stream error: torn");
}

#[test]
fn exhausted_range_needs_no_cursor() {
    let page = drain_iter(vec![Ok(end_response(QueryEndReason::CheckpointBound))]).unwrap();
    assert!(!page.has_more());
    assert_eq!(page.end_cursor, None);
    assert_eq!(page.next_cursor(), None);
}

#[test]
fn exhausted_range_offers_no_cursor_even_if_it_has_one() {
    let page = drain_iter(vec![
        Ok(item_response(b"c1")),
        Ok(end_response(QueryEndReason::CursorBound)),
    ])
    .unwrap();
    assert_eq!(page.end_cursor.as_deref(), Some(b"c1".as_ref()));
    assert_eq!(page.next_cursor(), None);
}

#[test]
fn limit_without_a_cursor_cannot_resume() {
    for code in [0, 1, 2, i32::MAX] {
        let error = drain_iter(vec![Ok(end_code(code))]).unwrap_err();
        assert!(matches!(error, Error::DataLoss(_)), "code {code}: {error:?}");
        assert!(error.message().ends_with("cannot resume"));
    }
    assert!(matches!(drain_iter(vec![]), Err(Error::DataLoss(_))));
}

#[test]
fn resynthesized_page_stays_resumable() {
    let page = drain_iter(vec![Ok(item_response(b"c1"))]).unwrap();
    let other: StreamPage<&str> = StreamPage {
        items: vec!["mapped"],
        end_cursor: page.end_cursor.clone(),
        end_reason: page.end_reason,
    };
    assert_eq!(other.next_cursor(), page.next_cursor());
    assert!(other.next_cursor().is_some());
}

#[test]
fn steps_make_the_drain() {
    let events = || {
        vec![
            Ok(numbered_item(1, Some(b"c1"))),
            Ok(watermark_response(b"c2")),
            Ok(end_response(QueryEndReason::ItemLimit)),
        ]
    };
    let mut page: StreamPage<Item> = StreamPage::default();
    let mut stream = events().into_iter();
    let outcome = loop {
        let event: Option<Result<Message, Status>> = stream.next();
        let event = event.map(|event| event.map(FrameKind::from));
        match drain_step("ListTransactions", page, event) {
            DrainStep::Pull(next) => page = next,
            DrainStep::Finished(outcome) => break outcome,
        }
    };
    let stepped = outcome.unwrap();
    let whole = drain_iter(events()).unwrap();
    assert_eq!(numbers(&stepped), numbers(&whole));
    assert_eq!(stepped.end_cursor, whole.end_cursor);
    assert_eq!(stepped.end_reason, whole.end_reason);
    assert!(stream.next().is_none());
}

#[test]
fn item_and_end_of_one_message_are_separated() {
    let watermark = Some(Watermark { cursor: Some(Bytes::from_static(b"c")) });
    let both = WireFields {
        transaction: Some(4),
        watermark: watermark.clone(),
        end: Some(QueryEnd { reason: 1 }),
    };
    let page = drain_iter(both.separate().into_iter().map(Ok).collect()).unwrap();
    assert_eq!(numbers(&page), vec![4]);
    assert_eq!(page.end_cursor.as_deref(), Some(b"c".as_ref()));
    assert_eq!(page.end_reason, Some(QueryEndReason::ItemLimit));

    let progress: Vec<Message> =
        WireFields { transaction: None, watermark, end: None }.separate();
    assert_eq!(progress.len(), 1);
    assert!(matches!(progress[0].response, Some(Response::Watermark(_))));

    let end = WireFields { transaction: None, watermark: None, end: Some(QueryEnd { reason: 5 }) };
    let end: Vec<Message> = end.separate();
    assert_eq!(end.len(), 1);
    assert!(matches!(end[0].response, Some(Response::End(QueryEnd { reason: 5 }))));

    let nothing = WireFields { transaction: None, watermark: None, end: None };
    let nothing: Vec<Message> = nothing.separate();
    assert_eq!(nothing.len(), 1);
    assert!(nothing[0].response.is_none());
}

#[test]
fn cloned_page_is_alike() {
    let page = drain_iter(vec![
        Ok(numbered_item(1, Some(b"c1"))),
        Ok(numbered_item(2, Some(b"c2"))),
        Ok(end_response(QueryEndReason::ScanLimit)),
    ])
    .unwrap();
    let copy = page.clone();
    assert_eq!(numbers(&copy), vec![1, 2]);
    assert_eq!(copy.end_reason, Some(QueryEndReason::ScanLimit));
    assert_eq!(copy.next_cursor(), page.next_cursor());
    assert!(copy.next_cursor().is_some());
}
