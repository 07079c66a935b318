//! The reader of the ledger service.
use crate::args::{timeout_nanos, ConnectionSettings};
use crate::checkpoint::{
    answer_view, reply_sequence_number, reply_summary, watermark_encoding, watermark_summary,
    GetCheckpointResponse,
};
use crate::drain::{drain_step, pulled_view, stepped, DrainStep};
use crate::error::{CheckpointError, Error, ErrorView};
use crate::frame::FrameKind;
use crate::outside::{
    deserialize_summary, grpc_timeout_fits, grpc_timeout_header, grpc_timeout_text,
};
use crate::page::{PageView, StreamPage};
use crate::status::{Code, Status};
use core::time::Duration;
use sui_sdk_types::CheckpointSummary;
use vstd::prelude::*;

verus! {

/// A reader backed by the gRPC ledger service.
///
/// This connects to an archival service that implements the same interface as a full node, but is
/// backed by a store that serves historical data. `C` is the client of the service, and `A` the one
/// dedicated to its experimental APIs; the reader only carries them.
pub struct LedgerGrpcReader<C, A> {
    pub client: C,
    /// Client dedicated to experimental APIs of the service.
    pub alpha_client: Option<A>,
    pub timeout: Option<Duration>,
}

impl<C, A> LedgerGrpcReader<C, A> {
    /// The reader with these settings and clients. The client of the experimental APIs is kept only
    /// if the settings ask for them.
    pub open spec fn built(settings: ConnectionSettings, client: C, alpha_client: A) -> Self {
        LedgerGrpcReader {
            client,
            alpha_client: if settings.experimental_query_apis {
                Some(alpha_client)
            } else {
                None
            },
            timeout: settings.timeout,
        }
    }

    /// The experimental query APIs are configured.
    pub open spec fn alpha_configured(self) -> bool {
        self.alpha_client is Some
    }

    /// The reader's timeout, if it has one, can be sent along with a request.
    pub open spec fn timeout_fits(self) -> bool {
        timeout_nanos(self.timeout) matches Some(nanos) ==> grpc_timeout_fits(nanos)
    }

    /// What `request` makes of a message.
    pub open spec fn is_request<T>(self, input: T, request: OutgoingRequest<T>) -> bool {
        &&& request.message == input
        &&& match (timeout_nanos(self.timeout), request.grpc_timeout) {
            (Some(nanos), Some(header)) => header@ == grpc_timeout_text(nanos),
            (None, None) => true,
            _ => false,
        }
    }
}

impl<C: Clone, A: Clone> LedgerGrpcReader<C, A> {
    /// `copy` is a clone of the reader: its clients are clones, and its timeout is the same.
    pub open spec fn is_cloned_as(self, copy: Self) -> bool {
        &&& cloned::<C>(self.client, copy.client)
        &&& match (self.alpha_client, copy.alpha_client) {
            (Some(alpha_client), Some(copied)) => cloned::<A>(alpha_client, copied),
            (None, None) => true,
            _ => false,
        }
        &&& copy.timeout == self.timeout
    }
}

impl<C: Clone, A: Clone> Clone for LedgerGrpcReader<C, A> {
    fn clone(&self) -> (copy: Self)
        ensures
            self.is_cloned_as(copy),
    {
        LedgerGrpcReader {
            client: self.client.clone(),
            alpha_client: match &self.alpha_client {
                Some(alpha_client) => Some(alpha_client.clone()),
                None => None,
            },
            timeout: self.timeout,
        }
    }
}

/// A message to send, with the headers that go with it.
#[derive(Clone, Debug)]
pub struct OutgoingRequest<T> {
    pub message: T,
    /// The value of the `grpc-timeout` header, if the request carries one.
    pub grpc_timeout: Option<String>,
}

impl<C, A> LedgerGrpcReader<C, A> {
    /// The reader with these settings and clients. The client of the experimental APIs is kept only
    /// if the settings ask for them.
    pub fn new(settings: &ConnectionSettings, client: C, alpha_client: A) -> (reader: Self)
        ensures
            reader == Self::built(*settings, client, alpha_client),
    {
        let alpha_client = if settings.experimental_query_apis {
            Some(alpha_client)
        } else {
            None
        };
        LedgerGrpcReader { client, alpha_client, timeout: settings.timeout }
    }

    /// Whether this reader has v2alpha experimental query APIs configured.
    pub fn has_alpha(&self) -> (configured: bool)
        ensures
            configured == self.alpha_configured(),
    {
        self.alpha_client.is_some()
    }

    /// Create a gRPC request, optionally with the `grpc-timeout` header if configured.
    pub fn request<T>(&self, input: T) -> (request: OutgoingRequest<T>)
        requires
            self.timeout_fits(),
        ensures
            self.is_request(input, request),
    {
        let grpc_timeout = match self.timeout {
            Some(timeout) => Some(grpc_timeout_header(timeout)),
            None => None,
        };
        OutgoingRequest { message: input, grpc_timeout }
    }

    /// Create a gRPC request as `request` does, or `None` if the reader's timeout is too long for a
    /// `grpc-timeout` header.
    pub fn checked_request<T>(&self, input: T) -> (request: Option<OutgoingRequest<T>>)
        ensures
            request is Some <==> self.timeout_fits(),
            request matches Some(request) ==> self.is_request(input, request),
    {
        if let Some(timeout) = &self.timeout {
            if timeout.as_secs() / 60 / 60 > 99_999_999 {
                return None;
            }
        }
        Some(self.request(input))
    }

    /// The summary of the latest checkpoint, from the reply to `watermark_request`.
    pub fn checkpoint_watermark(&self, reply: Result<GetCheckpointResponse, Status>) -> (summary:
        Result<CheckpointSummary, CheckpointError>)
        ensures
            answer_view(summary) == reply_summary(reply),
    {
        match watermark_encoding(reply) {
            Ok(encoded) => watermark_summary(deserialize_summary(encoded.value)),
            Err(error) => Err(error),
        }
    }

    /// Resolve a checkpoint digest to its sequence number, from the reply to
    /// `sequence_number_request`. Returns `None` if no checkpoint with that digest is known.
    pub fn checkpoint_seq_by_digest(
        &self,
        reply: Result<GetCheckpointResponse, Status>,
    ) -> (answer: Result<Option<u64>, CheckpointError>)
        ensures
            answer_view(answer) == reply_sequence_number(reply),
    {
        match reply {
            Ok(response) => match response.checkpoint {
                Some(checkpoint) => Ok(checkpoint.sequence_number),
                None => Err(CheckpointError::NoCheckpoint),
            },
            Err(status) => if status.code == Code::NotFound {
                Ok(None)
            } else {
                Err(CheckpointError::Rpc(status))
            },
        }
    }

    /// Begin a transaction list query: the client to open its stream with.
    pub fn list_transactions(&self) -> (client: Result<&A, Error>)
        ensures
            match (self.alpha_client, client) {
                (Some(alpha_client), Ok(client)) => *client == alpha_client,
                (None, Err(error)) => error@ == ErrorView::NotConfigured,
                _ => false,
            },
    {
        match &self.alpha_client {
            Some(client) => Ok(client),
            None => Err(Error::NotConfigured),
        }
    }

    /// Go on with a transaction list query once the service has answered whether it opens the stream:
    /// pull the stream into an empty page, until server timeout or other terminal condition is met.
    /// The caller is responsible for resuming the next page from the `end_cursor` if there are more
    /// results to yield after the current page.
    pub fn list_transactions_opened<I>(&self, opened: Result<(), Status>) -> (step: DrainStep<I>)
        ensures
            match opened {
                Ok(_) => {
                    step matches DrainStep::Pull(page) && page@ == PageView::<I>::empty()
                },
                Err(status) => {
                    &&& step matches DrainStep::Finished(Err(error))
                    &&& error@ == ErrorView::Internal(
                        "ListTransactions stream open failed: "@ + status.message@,
                    )
                },
            },
    {
        match opened {
            Ok(_) => DrainStep::Pull(StreamPage::default()),
            Err(status) => DrainStep::Finished(
                Err(
                    Error::Internal(
                        "ListTransactions stream open failed: ".to_owned().concat(
                            status.message.as_str(),
                        ),
                    ),
                ),
            ),
        }
    }

    /// Take one event of an open transaction list stream into `page`.
    pub fn list_transactions_event<I>(
        &self,
        page: StreamPage<I>,
        event: Option<Result<FrameKind<I>, Status>>,
    ) -> (step: DrainStep<I>)
        ensures
            step@ == stepped("ListTransactions"@, page@, pulled_view(event)),
    {
        drain_step("ListTransactions", page, event)
    }
}

} // verus!
