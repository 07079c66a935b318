//! The options of the reader, and the connection settings that follow from them.
use crate::outside::duration_nanos;
use core::time::Duration;
use vstd::prelude::*;

verus! {

/// The largest response that is decoded, in bytes, unless the options say otherwise.
pub const DEFAULT_MAX_DECODING_MESSAGE_SIZE: usize = 33_554_432;

/// The options of the reader.
#[derive(Debug)]
pub struct LedgerGrpcArgs {
    /// Timeout for gRPC statements to the ledger service, in milliseconds.
    pub ledger_grpc_statement_timeout_ms: Option<u64>,
    /// Maximum gRPC decoding message size for Ledger service responses, in bytes.
    pub ledger_grpc_max_decoding_message_size: Option<usize>,
    /// Whether the configured ledger gRPC service has v2alpha experimental query APIs enabled (e.g.
    /// bitmap-backed `ListTransactions`). When unset, treated as `false`.
    pub enable_experimental_query_apis: Option<bool>,
}

/// How to connect to the service.
#[derive(Debug, Clone)]
pub struct ConnectionSettings {
    /// How long a call may take, at the channel and in each request.
    pub timeout: Option<Duration>,
    /// Whether the channel is encrypted.
    pub tls: bool,
    /// The prefix of the names of the call metrics.
    pub metrics_prefix: String,
    /// The largest response that is decoded, in bytes.
    pub max_decoding_message_size: usize,
    /// Whether the experimental query APIs are used.
    pub experimental_query_apis: bool,
}

impl ConnectionSettings {
    /// These are the settings for `args`, a URI with the scheme `scheme`, and metrics named by
    /// `prefix`.
    pub open spec fn follow_from(
        self,
        args: LedgerGrpcArgs,
        scheme: Option<&str>,
        prefix: Option<&str>,
    ) -> bool {
        &&& timeout_nanos(self.timeout) == args.statement_timeout_nanos()
        &&& self.tls <==> (scheme matches Some(scheme) && scheme@ == "https"@)
        &&& self.metrics_prefix@ == match prefix {
            Some(prefix) => prefix@,
            None => "ledger_grpc"@,
        }
        &&& self.max_decoding_message_size == match args.ledger_grpc_max_decoding_message_size {
            Some(size) => size,
            None => DEFAULT_MAX_DECODING_MESSAGE_SIZE,
        }
        &&& self.experimental_query_apis == args.wants_experimental_query_apis()
    }
}

/// The length of an optional timeout in nanoseconds.
pub open spec fn timeout_nanos(timeout: Option<Duration>) -> Option<nat> {
    match timeout {
        Some(timeout) => Some(duration_nanos(timeout)),
        None => None,
    }
}

impl Clone for LedgerGrpcArgs {
    fn clone(&self) -> (copy: Self)
        ensures
            copy == *self,
    {
        LedgerGrpcArgs {
            ledger_grpc_statement_timeout_ms: self.ledger_grpc_statement_timeout_ms,
            ledger_grpc_max_decoding_message_size: self.ledger_grpc_max_decoding_message_size,
            enable_experimental_query_apis: self.enable_experimental_query_apis,
        }
    }
}

impl Default for LedgerGrpcArgs {
    fn default() -> (args: Self)
        ensures
            args.ledger_grpc_statement_timeout_ms is None,
            args.ledger_grpc_max_decoding_message_size is None,
            args.enable_experimental_query_apis is None,
    {
        LedgerGrpcArgs {
            ledger_grpc_statement_timeout_ms: None,
            ledger_grpc_max_decoding_message_size: None,
            enable_experimental_query_apis: None,
        }
    }
}

impl LedgerGrpcArgs {
    /// The statement timeout in nanoseconds.
    pub open spec fn statement_timeout_nanos(self) -> Option<nat> {
        match self.ledger_grpc_statement_timeout_ms {
            Some(millis) => Some((millis * 1_000_000) as nat),
            None => None,
        }
    }

    /// The experimental query APIs are asked for. An unset option does not ask.
    pub open spec fn wants_experimental_query_apis(self) -> bool {
        self.enable_experimental_query_apis == Some(true)
    }

    /// The statement timeout as a duration.
    pub fn statement_timeout(&self) -> (timeout: Option<Duration>)
        ensures
            timeout_nanos(timeout) == self.statement_timeout_nanos(),
    {
        match self.ledger_grpc_statement_timeout_ms {
            Some(millis) => Some(Duration::from_millis(millis)),
            None => None,
        }
    }

    /// How to connect to a service whose URI has the scheme `scheme`, with metrics named by `prefix`.
    pub fn connection_settings(&self, scheme: Option<&str>, prefix: Option<&str>) -> (settings:
        ConnectionSettings)
        ensures
            settings.follow_from(*self, scheme, prefix),
    {
        let tls = match scheme {
            Some(scheme) => scheme.to_owned() == "https".to_owned(),
            None => false,
        };
        ConnectionSettings {
            timeout: self.statement_timeout(),
            tls,
            metrics_prefix: prefix.unwrap_or("ledger_grpc").to_owned(),
            max_decoding_message_size: self.ledger_grpc_max_decoding_message_size.unwrap_or(
                DEFAULT_MAX_DECODING_MESSAGE_SIZE,
            ),
            experimental_query_apis: self.enable_experimental_query_apis.unwrap_or(false),
        }
    }
}

} // verus!
