//! Every call into another crate or into an unspecified part of std, with what is relied on.
//!
//! None of this is proved here. Each item says which outside function it stands for and what it
//! claims of it.
use crate::page::QueryEndReason;
use bytes::Bytes;
use core::time::Duration;
use prost_types::FieldMask;
use sui_rpc::field::FieldMaskUtil;
use sui_rpc::proto::sui::rpc::v2::Bcs;
use sui_rpc::proto::sui::rpc::v2::GetCheckpointRequest as WireCheckpointRequest;
use sui_rpc::proto::sui::rpc::v2::QueryEndReason as WireEndReason;
use sui_sdk_types::CheckpointSummary;
use sui_sdk_types::Digest;
use vstd::prelude::*;

verus! {

/// `bytes::Bytes`, an immutable run of bytes.
#[verifier::external_type_specification]
#[verifier::external_body]
pub struct ExBytes(Bytes);

/// The bytes that a `Bytes` holds.
pub uninterp spec fn bytes_contents(bytes: Bytes) -> Seq<u8>;

/// `<bytes::Bytes as Clone>::clone`: the copy holds the same bytes.
pub assume_specification[ <Bytes as Clone>::clone ](bytes: &Bytes) -> (copy: Bytes)
    ensures
        bytes_contents(copy) == bytes_contents(*bytes),
;

/// The length of a `std::time::Duration` in nanoseconds.
pub uninterp spec fn duration_nanos(duration: Duration) -> nat;

/// `std::time::Duration::from_millis`: a span of that many milliseconds.
pub assume_specification[ Duration::from_millis ](millis: u64) -> (duration: Duration)
    ensures
        duration_nanos(duration) == millis * 1_000_000,
;

/// `std::time::Duration::as_secs`: the number of whole seconds in the span.
pub assume_specification[ Duration::as_secs ](duration: &Duration) -> (seconds: u64)
    ensures
        seconds == duration_nanos(*duration) / 1_000_000_000,
;

/// `TryFrom<i32>` of the wire's `QueryEndReason`: the variant with that number, and an error for a
/// number that no variant has. The variant numbered 0 is `Unspecified` here.
#[verifier::external_body]
pub(crate) fn decode_end_reason(code: i32) -> (reason: Option<QueryEndReason>)
    ensures
        reason == QueryEndReason::decoded(code),
{
    match WireEndReason::try_from(code) {
        Ok(WireEndReason::Unknown) => Some(QueryEndReason::Unspecified),
        Ok(WireEndReason::ItemLimit) => Some(QueryEndReason::ItemLimit),
        Ok(WireEndReason::ScanLimit) => Some(QueryEndReason::ScanLimit),
        Ok(WireEndReason::CheckpointBound) => Some(QueryEndReason::CheckpointBound),
        Ok(WireEndReason::CursorBound) => Some(QueryEndReason::CursorBound),
        Ok(WireEndReason::LedgerTip) => Some(QueryEndReason::LedgerTip),
        _ => None,
    }
}

/// The decimal digits of a number.
pub open spec fn decimal(number: nat) -> Seq<char>
    decreases number,
{
    let digit = (48 + number % 10) as char;
    if number < 10 {
        seq![digit]
    } else {
        decimal(number / 10).push(digit)
    }
}

/// The largest number that a `grpc-timeout` header can hold: eight digits.
pub open spec fn grpc_timeout_limit() -> nat {
    99_999_999
}

/// The timeout can be given as a `grpc-timeout` header: in hours, at the least, it has no more than
/// eight digits.
pub open spec fn grpc_timeout_fits(nanos: nat) -> bool {
    nanos / 1_000_000_000 / 60 / 60 <= grpc_timeout_limit()
}

/// A timeout as the value of a `grpc-timeout` header: at most eight digits and a unit, the most
/// precise that does, of nanoseconds, microseconds, milliseconds, seconds, minutes and hours.
pub open spec fn grpc_timeout_text(nanos: nat) -> Seq<char> {
    let most = grpc_timeout_limit();
    let seconds = nanos / 1_000_000_000;
    if nanos <= most {
        decimal(nanos).push('n')
    } else if nanos / 1_000 <= most {
        decimal(nanos / 1_000).push('u')
    } else if nanos / 1_000_000 <= most {
        decimal(nanos / 1_000_000).push('m')
    } else if seconds <= most {
        decimal(seconds).push('S')
    } else if seconds / 60 <= most {
        decimal(seconds / 60).push('M')
    } else {
        decimal(seconds / 60 / 60).push('H')
    }
}

/// `tonic::Request::set_timeout`: the value of the `grpc-timeout` header that it sets. It panics on a
/// timeout that does not fit.
#[verifier::external_body]
pub(crate) fn grpc_timeout_header(timeout: Duration) -> (value: String)
    requires
        grpc_timeout_fits(duration_nanos(timeout)),
    ensures
        value@ == grpc_timeout_text(duration_nanos(timeout)),
{
    let mut request = tonic::Request::new(());
    request.set_timeout(timeout);
    request.metadata().get("grpc-timeout").unwrap().to_str().unwrap().to_owned()
}

/// `FieldMaskUtil::from_paths` on one path: a mask of that path, or of none if the path is empty. The
/// result is the mask's paths.
#[verifier::external_body]
pub(crate) fn field_mask_paths(path: &str) -> (paths: Vec<String>)
    ensures
        paths.deep_view() == (if path@.len() == 0 {
            Seq::<Seq<char>>::empty()
        } else {
            seq![path@]
        }),
{
    FieldMask::from_paths([path]).paths
}

/// The number that bytes stand for, the most significant first.
pub open spec fn number_of(bytes: Seq<u8>) -> nat
    decreases bytes.len(),
{
    if bytes.len() == 0 {
        0
    } else {
        number_of(bytes.drop_last()) * 256 + bytes.last() as nat
    }
}

/// How many zeros bytes begin with.
pub open spec fn leading_zeros(bytes: Seq<u8>) -> nat
    decreases bytes.len(),
{
    if bytes.len() == 0 || bytes.first() != 0 {
        0
    } else {
        1 + leading_zeros(bytes.drop_first())
    }
}

/// The digits of a number to the base 58, with none for zero.
pub open spec fn base58_digits(number: nat) -> Seq<char>
    decreases number,
{
    if number == 0 {
        Seq::empty()
    } else {
        base58_digits(number / 58).push(
            "123456789ABCDEFGHJKLMNPQRSTUVWXYZabcdefghijkmnopqrstuvwxyz"@[(number % 58) as int],
        )
    }
}

/// The Base58 text of bytes: a `1` for each zero that they begin with, and the digits of the number
/// that they stand for.
pub open spec fn base58(bytes: Seq<u8>) -> Seq<char> {
    Seq::new(leading_zeros(bytes), |i: int| '1') + base58_digits(number_of(bytes))
}

/// `GetCheckpointRequest::by_digest`: the text by which the request names the digest, which is the
/// Base58 text of its bytes.
#[verifier::external_body]
pub(crate) fn digest_text(bytes: &[u8; 32]) -> (text: String)
    ensures
        text@ == base58(bytes@),
{
    WireCheckpointRequest::by_digest(&Digest::new(*bytes)).digest().to_owned()
}

/// `sui_sdk_types::CheckpointSummary`, which is only carried.
#[verifier::external_type_specification]
#[verifier::external_body]
pub struct ExCheckpointSummary(CheckpointSummary);

/// The checkpoint summary that these bytes encode, or the decoder's complaint.
pub uninterp spec fn summary_of_bcs(bytes: Seq<u8>) -> Result<CheckpointSummary, Seq<char>>;

/// The bytes that an optional encoding stands for: none if there is no value.
pub open spec fn encoded_bytes(value: Option<Bytes>) -> Seq<u8> {
    match value {
        Some(bytes) => bytes_contents(bytes),
        None => Seq::empty(),
    }
}

/// `Bcs::deserialize` to a checkpoint summary. What comes out depends on the encoded bytes alone, and
/// a missing value is decoded as no bytes.
#[verifier::external_body]
pub(crate) fn deserialize_summary(value: Option<Bytes>) -> (decoded: Result<
    CheckpointSummary,
    String,
>)
    ensures
        match decoded {
            Ok(summary) => summary_of_bcs(encoded_bytes(value)) == Ok::<
                CheckpointSummary,
                Seq<char>,
            >(summary),
            Err(cause) => summary_of_bcs(encoded_bytes(value)) == Err::<
                CheckpointSummary,
                Seq<char>,
            >(cause@),
        },
{
    let mut bcs = Bcs::default();
    bcs.value = value;
    bcs.deserialize().map_err(|cause| cause.to_string())
}

} // verus!
