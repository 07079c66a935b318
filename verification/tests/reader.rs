//! The reader's settings, requests and answers.
use bytes::Bytes;
use ledger_grpc_reader::args::{LedgerGrpcArgs, DEFAULT_MAX_DECODING_MESSAGE_SIZE};
use ledger_grpc_reader::checkpoint::{
    sequence_number_request, watermark_request, watermark_summary, Checkpoint, Encoded,
    GetCheckpointResponse, SummaryMessage,
};
use ledger_grpc_reader::drain::DrainStep;
use ledger_grpc_reader::error::{CheckpointError, Error};
use ledger_grpc_reader::frame::FrameKind;
use ledger_grpc_reader::reader::LedgerGrpcReader;
use ledger_grpc_reader::status::{Code, Status};
use std::time::Duration;
use sui_rpc::proto::sui::rpc::v2::Bcs;
use sui_sdk_types::{CheckpointSummary, Digest, GasCostSummary};

fn args(timeout_ms: Option<u64>, experimental: Option<bool>) -> LedgerGrpcArgs {
    LedgerGrpcArgs {
        ledger_grpc_statement_timeout_ms: timeout_ms,
        ledger_grpc_max_decoding_message_size: None,
        enable_experimental_query_apis: experimental,
    }
}

fn reader(timeout_ms: Option<u64>, experimental: Option<bool>) -> LedgerGrpcReader<&'static str, u8> {
    let settings = args(timeout_ms, experimental).connection_settings(None, None);
    LedgerGrpcReader::new(&settings, "client", 9)
}

fn failure(code: Code, message: &str) -> Status {
    Status { code, message: message.to_owned() }
}

fn reply(checkpoint: Option<Checkpoint>) -> Result<GetCheckpointResponse, Status> {
    Ok(GetCheckpointResponse { checkpoint })
}

fn encoded_reply(value: Option<Bytes>) -> Result<GetCheckpointResponse, Status> {
    reply(Some(Checkpoint {
        sequence_number: None,
        summary: Some(SummaryMessage { bcs: Some(Encoded { value }) }),
    }))
}

fn summary() -> CheckpointSummary {
    CheckpointSummary {
        epoch: 3,
        sequence_number: 77,
        network_total_transactions: 1_000,
        content_digest: Digest::new([5; 32]),
        previous_digest: None,
        epoch_rolling_gas_cost_summary: GasCostSummary::default(),
        timestamp_ms: 123,
        checkpoint_commitments: vec![],
        end_of_epoch_data: None,
        version_specific_data: vec![],
    }
}

#[test]
fn statement_timeout_is_in_milliseconds() {
    assert_eq!(args(Some(1_500), None).statement_timeout(), Some(Duration::from_micros(1_500_000)));
    assert_eq!(args(None, None).statement_timeout(), None);
}

#[test]
fn unset_options_have_defaults() {
    let settings = LedgerGrpcArgs::default().connection_settings(None, None);
    assert_eq!(settings.timeout, None);
    assert!(!settings.tls);
    assert_eq!(settings.metrics_prefix, "ledger_grpc");
    assert_eq!(settings.max_decoding_message_size, 32 * 1024 * 1024);
    assert_eq!(DEFAULT_MAX_DECODING_MESSAGE_SIZE, 32 * 1024 * 1024);
    assert!(!settings.experimental_query_apis);
}

#[test]
fn set_options_are_kept() {
    let args = LedgerGrpcArgs {
        ledger_grpc_statement_timeout_ms: Some(250),
        ledger_grpc_max_decoding_message_size: Some(7),
        enable_experimental_query_apis: Some(true),
    };
    let settings = args.connection_settings(Some("https"), Some("archive"));
    assert_eq!(settings.timeout, Some(Duration::from_millis(250)));
    assert!(settings.tls);
    assert_eq!(settings.metrics_prefix, "archive");
    assert_eq!(settings.max_decoding_message_size, 7);
    assert!(settings.experimental_query_apis);
}

#[test]
fn only_https_is_encrypted() {
    let args = LedgerGrpcArgs::default();
    for scheme in [None, Some(""), Some("http"), Some("HTTPS"), Some("httpss")] {
        assert!(!args.connection_settings(scheme, None).tls, "{scheme:?}");
    }
}

#[test]
fn alpha_client_is_kept_only_if_enabled() {
    assert!(reader(None, Some(true)).has_alpha());
    assert_eq!(reader(None, Some(true)).alpha_client, Some(9));
    assert!(!reader(None, Some(false)).has_alpha());
    assert!(!reader(None, None).has_alpha());
    assert_eq!(reader(Some(40), None).client, "client");
    assert_eq!(reader(Some(40), None).timeout, Some(Duration::from_millis(40)));
}

#[test]
fn cloned_reader_reads_alike() {
    for experimental in [None, Some(false), Some(true)] {
        let reader = reader(Some(5), experimental);
        let copy = reader.clone();
        assert_eq!(copy.has_alpha(), experimental == Some(true));
        assert_eq!(copy.clone().has_alpha(), reader.has_alpha());
        assert_eq!(copy.client, reader.client);
        assert_eq!(copy.alpha_client, reader.alpha_client);
        assert_eq!(copy.request(()).grpc_timeout.as_deref(), Some("5000000n"));
    }
}

#[test]
fn cloned_options_are_alike() {
    let args = args(Some(3), Some(true)).clone();
    assert_eq!(args.statement_timeout(), Some(Duration::from_millis(3)));
    assert_eq!(args.ledger_grpc_max_decoding_message_size, None);
    assert_eq!(args.enable_experimental_query_apis, Some(true));
}

#[test]
fn request_carries_the_timeout_in_the_most_precise_unit() {
    for (millis, header) in [
        (0, "0n"),
        (5, "5000000n"),
        (99, "99000000n"),
        (100, "100000u"),
        (30_000, "30000000u"),
        (3_600_000, "3600000m"),
        (200_000_000, "200000S"),
        (100_000_000_000, "1666666M"),
        (6_000_000_000_000, "1666666H"),
        (359_999_999_999_999, "99999999H"),
    ] {
        let request = reader(Some(millis), None).request("message");
        assert_eq!(request.message, "message");
        assert_eq!(request.grpc_timeout.as_deref(), Some(header), "{millis} ms");
    }
}

#[test]
fn request_without_timeout_has_no_header() {
    assert_eq!(reader(None, None).request(1).grpc_timeout, None);
    assert_eq!(reader(None, None).checked_request(1).unwrap().message, 1);
}

#[test]
fn timeout_beyond_the_header_is_reported() {
    assert!(reader(Some(359_999_999_999_999), None).checked_request(()).is_some());
    assert!(reader(Some(360_000_000_000_000), None).checked_request(()).is_none());
    assert!(reader(Some(u64::MAX), None).checked_request(()).is_none());
}

#[test]
fn watermark_request_asks_for_the_latest_summary() {
    let request = watermark_request();
    assert_eq!(request.digest, None);
    assert_eq!(request.read_mask, ["summary.bcs"]);
}

#[test]
fn sequence_number_request_names_the_digest_in_base58() {
    let request = sequence_number_request(&[0; 32]);
    assert_eq!(request.digest.as_deref(), Some("11111111111111111111111111111111"));
    assert_eq!(request.read_mask, ["sequence_number"]);

    let mut digest = [0; 32];
    digest[31] = 58;
    let request = sequence_number_request(&digest);
    assert_eq!(request.digest.as_deref(), Some("111111111111111111111111111111121"));

    let mut digest = [0; 32];
    for i in 2..32 {
        digest[i] = i as u8 + 1;
    }
    let request = sequence_number_request(&digest);
    assert_eq!(request.digest.as_deref(), Some("11c3kQNy6QqwgZ51qyKuSxsuJP5s3DpnwJrCGiqfcj"));
}

#[test]
fn watermark_is_the_decoded_summary() {
    let value = Bcs::serialize(&summary()).unwrap().value;
    let answer = reader(None, None).checkpoint_watermark(encoded_reply(value)).unwrap();
    assert_eq!(answer, summary());
}

#[test]
fn undecodable_summary_is_an_error() {
    for value in [None, Some(Bytes::from_static(b"not a summary"))] {
        let error = reader(None, None).checkpoint_watermark(encoded_reply(value)).unwrap_err();
        assert!(matches!(&error, CheckpointError::UndecodableSummary(cause) if !cause.is_empty()));
        assert_eq!(error.context(), Some("Failed to deserialize checkpoint summary"));
    }
}

#[test]
fn decoder_result_becomes_the_answer() {
    assert_eq!(watermark_summary(Ok(summary())).unwrap(), summary());
    let error = watermark_summary(Err("bad length".to_owned())).unwrap_err();
    assert!(matches!(error, CheckpointError::UndecodableSummary(cause) if cause == "bad length"));
}

#[test]
fn missing_parts_of_a_watermark_reply_are_errors() {
    let reader = reader(None, None);
    let error = reader.checkpoint_watermark(reply(None)).unwrap_err();
    assert_eq!(error.context(), Some("No checkpoint returned"));

    for summary in [None, Some(SummaryMessage { bcs: None })] {
        let checkpoint = Checkpoint { sequence_number: Some(1), summary };
        let error = reader.checkpoint_watermark(reply(Some(checkpoint))).unwrap_err();
        assert_eq!(error.context(), Some("Missing summary.bcs"));
    }

    // Even an unknown checkpoint is an error here.
    let error = reader.checkpoint_watermark(Err(failure(Code::NotFound, "none"))).unwrap_err();
    assert!(matches!(&error, CheckpointError::Rpc(status) if status.code == Code::NotFound));
    assert_eq!(error.context(), None);
}

#[test]
fn digest_resolves_to_its_sequence_number() {
    let reader = reader(None, None);
    let checkpoint = Checkpoint { sequence_number: Some(12), summary: None };
    assert_eq!(reader.checkpoint_seq_by_digest(reply(Some(checkpoint))).unwrap(), Some(12));

    let checkpoint = Checkpoint { sequence_number: None, summary: None };
    assert_eq!(reader.checkpoint_seq_by_digest(reply(Some(checkpoint))).unwrap(), None);
}

#[test]
fn unknown_digest_is_an_answer() {
    let answer =
        reader(None, None).checkpoint_seq_by_digest(Err(failure(Code::NotFound, "no such")));
    assert_eq!(answer.unwrap(), None);
}

#[test]
fn failed_digest_lookup_is_an_error() {
    let reader = reader(None, None);
    let error = reader.checkpoint_seq_by_digest(reply(None)).unwrap_err();
    assert!(matches!(error, CheckpointError::NoCheckpoint));

    let error =
        reader.checkpoint_seq_by_digest(Err(failure(Code::Unavailable, "down"))).unwrap_err();
    match error {
        CheckpointError::Rpc(status) => {
            assert_eq!(status.code, Code::Unavailable);
            assert_eq!(status.message, "down");
        }
        other => panic!("got {other:?}"),
    }
}

#[test]
fn list_query_needs_the_experimental_apis() {
    assert_eq!(*reader(None, Some(true)).list_transactions().unwrap(), 9);

    let off = reader(None, None);
    let error = off.list_transactions().unwrap_err();
    assert!(matches!(error, Error::NotConfigured));
    assert_eq!(error.message(), "Ledger gRPC v2alpha experimental query APIs not configured");
}

#[test]
fn opened_list_stream_is_pulled_into_an_empty_page() {
    let step: DrainStep<u8> = reader(None, Some(true)).list_transactions_opened(Ok(()));
    match step {
        DrainStep::Pull(page) => {
            assert!(page.items.is_empty());
            assert_eq!(page.end_cursor, None);
            assert_eq!(page.end_reason, None);
        }
        other => panic!("got {other:?}"),
    }
}

#[test]
fn refused_list_stream_is_an_error() {
    let refused = Err(failure(Code::Unimplemented, "no such method"));
    let step: DrainStep<u8> = reader(None, Some(true)).list_transactions_opened(refused);
    match step {
        DrainStep::Finished(Err(error)) => {
            assert_eq!(error.message(), "ListTransactions stream open failed: no such method");
        }
        other => panic!("got {other:?}"),
    }
}

#[test]
fn list_stream_errors_name_the_query() {
    let reader = reader(None, Some(true));
    let DrainStep::Pull(page) = reader.list_transactions_opened::<u8>(Ok(())) else {
        panic!("an open stream is pulled");
    };
    let frame = FrameKind::Item { item: 1, cursor: None };
    let DrainStep::Pull(page) = reader.list_transactions_event(page, Some(Ok(frame))) else {
        panic!("an item does not end the stream");
    };
    match reader.list_transactions_event(page, Some(Err(failure(Code::Aborted, "retry")))) {
        DrainStep::Finished(Err(error)) => {
            assert_eq!(error.message(), "ListTransactions stream error: retry");
        }
        other => panic!("got {other:?}"),
    }
}
