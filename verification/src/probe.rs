use vstd::prelude::*;
use crate::status::DependencyStatus;

verus! {

/// Classification of the cache-store probe: the first failing step decides
/// the outcome.
pub open spec fn cache_status_spec(
    client_opened: bool,
    connection_obtained: bool,
    ping_succeeded: bool,
) -> DependencyStatus {
    if !client_opened {
        DependencyStatus::NotAvailable
    } else if !connection_obtained {
        DependencyStatus::ConnectionFailed
    } else if !ping_succeeded {
        DependencyStatus::Error
    } else {
        DependencyStatus::Connected
    }
}

/// HTTP status codes that the graph-database probe counts as success.
pub open spec fn is_success_code(code: u16) -> bool {
    200 <= code < 300
}

/// Classification of the graph-database probe from the HTTP status code of
/// the response, or from the absence of any response.
pub open spec fn graph_status_spec(response_code: Option<u16>) -> DependencyStatus {
    match response_code {
        None => DependencyStatus::NotAvailable,
        Some(code) => if is_success_code(code) {
            DependencyStatus::Connected
        } else {
            DependencyStatus::Running
        },
    }
}

/// Decides the cache-store status from what the probe observed: whether a
/// client handle was opened, whether a connection was then acquired, and
/// whether the liveness command then succeeded.
pub fn classify_cache_probe(
    client_opened: bool,
    connection_obtained: bool,
    ping_succeeded: bool,
) -> (s: DependencyStatus)
    ensures
        s == cache_status_spec(client_opened, connection_obtained, ping_succeeded),
{
    if !client_opened {
        DependencyStatus::NotAvailable
    } else if !connection_obtained {
        DependencyStatus::ConnectionFailed
    } else if !ping_succeeded {
        DependencyStatus::Error
    } else {
        DependencyStatus::Connected
    }
}

/// Decides the graph-database status from the HTTP status code of the
/// response, or `None` when the request failed entirely.
pub fn classify_graph_probe(response_code: Option<u16>) -> (s: DependencyStatus)
    ensures
        s == graph_status_spec(response_code),
{
    match response_code {
        None => DependencyStatus::NotAvailable,
        Some(code) => {
            if 200 <= code && code < 300 {
                DependencyStatus::Connected
            } else {
                DependencyStatus::Running
            }
        },
    }
}

/// The cache probe can report every outcome except `Running`.
pub proof fn lemma_cache_probe_outcomes(
    client_opened: bool,
    connection_obtained: bool,
    ping_succeeded: bool,
)
    ensures
        cache_status_spec(client_opened, connection_obtained, ping_succeeded)
            != DependencyStatus::Running,
{
}

/// The graph probe reports only `Connected`, `Running` or `NotAvailable`:
/// it has no `ConnectionFailed` or `Error` outcome.
pub proof fn lemma_graph_probe_outcomes(response_code: Option<u16>)
    ensures
        graph_status_spec(response_code) != DependencyStatus::ConnectionFailed,
        graph_status_spec(response_code) != DependencyStatus::Error,
{
}

} // verus!
