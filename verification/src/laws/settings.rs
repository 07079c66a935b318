//! What the options make of a connection and of a reader.
use crate::args::{timeout_nanos, ConnectionSettings, LedgerGrpcArgs};
use crate::outside::duration_nanos;
use crate::reader::LedgerGrpcReader;
use core::time::Duration;
use vstd::prelude::*;

verus! {

/// `timeout` is a span of `millis` milliseconds, or absent if `millis` is.
pub open spec fn is_millis(timeout: Option<Duration>, millis: Option<u64>) -> bool {
    match millis {
        Some(millis) => timeout matches Some(timeout) && duration_nanos(timeout) == millis
            * 1_000_000,
        None => timeout is None,
    }
}

/// The statement timeout lasts exactly the milliseconds of the option, and there is none without the
/// option.
pub proof fn law_statement_timeout_is_the_option(args: LedgerGrpcArgs, timeout: Option<Duration>)
    requires
        timeout_nanos(timeout) == args.statement_timeout_nanos(),
    ensures
        is_millis(timeout, args.ledger_grpc_statement_timeout_ms),
{
}

/// The decoding limit is the one that the options give, be it below or above the default of 32 MiB,
/// which applies only if they give none.
pub proof fn law_decoding_limit_is_the_option(
    args: LedgerGrpcArgs,
    scheme: Option<&str>,
    prefix: Option<&str>,
    settings: ConnectionSettings,
)
    requires
        settings.follow_from(args, scheme, prefix),
    ensures
        args.ledger_grpc_max_decoding_message_size matches Some(size)
            ==> settings.max_decoding_message_size == size,
        args.ledger_grpc_max_decoding_message_size is None ==> settings.max_decoding_message_size
            == 32 * 1024 * 1024,
{
}

/// Every other setting has one source too: the timeout and the experimental switch the option of that
/// name, encryption the scheme, which must be exactly `https`, and the prefix of the metrics the given
/// one.
pub proof fn law_settings_have_one_source_each(
    args: LedgerGrpcArgs,
    scheme: Option<&str>,
    prefix: Option<&str>,
    settings: ConnectionSettings,
)
    requires
        settings.follow_from(args, scheme, prefix),
    ensures
        is_millis(settings.timeout, args.ledger_grpc_statement_timeout_ms),
        scheme is None ==> !settings.tls,
        scheme matches Some(scheme) ==> settings.tls == (scheme@ == "https"@),
        prefix is None ==> settings.metrics_prefix@ == "ledger_grpc"@,
        prefix matches Some(prefix) ==> settings.metrics_prefix@ == prefix@,
        args.enable_experimental_query_apis is None ==> !settings.experimental_query_apis,
        args.enable_experimental_query_apis matches Some(enabled)
            ==> settings.experimental_query_apis == enabled,
{
}

/// A reader holds the clients and the timeout that it was built with, and the client of the
/// experimental APIs only if these are switched on.
pub proof fn law_reader_holds_what_it_was_built_with<C, A>(
    settings: ConnectionSettings,
    client: C,
    alpha_client: A,
    reader: LedgerGrpcReader<C, A>,
)
    requires
        reader == LedgerGrpcReader::built(settings, client, alpha_client),
    ensures
        reader.client == client,
        reader.timeout == settings.timeout,
        settings.experimental_query_apis ==> reader.alpha_client == Some(alpha_client),
        !settings.experimental_query_apis ==> reader.alpha_client is None,
        reader.alpha_configured() == settings.experimental_query_apis,
{
}

/// Whether the experimental APIs are configured is whether the reader has a client for them.
pub proof fn law_alpha_is_the_client<C, A>(reader: LedgerGrpcReader<C, A>)
    ensures
        reader.alpha_client is Some ==> reader.alpha_configured(),
        reader.alpha_client is None ==> !reader.alpha_configured(),
{
}

/// A clone of a reader holds clones of its clients, has a client for the experimental APIs if the
/// reader has one, and keeps the timeout.
pub proof fn law_clone_holds_clones<C: Clone, A: Clone>(
    reader: LedgerGrpcReader<C, A>,
    copy: LedgerGrpcReader<C, A>,
)
    requires
        reader.is_cloned_as(copy),
    ensures
        cloned::<C>(reader.client, copy.client),
        copy.alpha_client is Some == reader.alpha_client is Some,
        reader.alpha_client is Some ==> cloned::<A>(reader.alpha_client->0, copy.alpha_client->0),
        copy.timeout == reader.timeout,
{
}

} // verus!
