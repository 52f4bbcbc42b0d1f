use vstd::prelude::*;
use crate::status::DependencyStatus;
use crate::status::label_spec;

verus! {

/// Body of the health endpoint: a fixed document with a static status string
/// and a static version string.
pub open spec fn health_body_spec() -> Seq<char> {
    "{\"status\":\"healthy\",\"version\":\"0.1.0\"}"@
}

/// The JSON spelling of a boolean.
pub open spec fn bool_text(b: bool) -> Seq<char> {
    if b {
        "true"@
    } else {
        "false"@
    }
}

/// Body of the info endpoint: the dev-mode flag, the two dependency status
/// strings, and the static map of nominal service URIs shown to operators.
pub open spec fn info_body_spec(
    dev_mode: bool,
    redis: DependencyStatus,
    neo4j: DependencyStatus,
) -> Seq<char> {
    "{\"dev_mode\":"@ + bool_text(dev_mode) + ",\"redis_status\":\""@ + label_spec(redis)
        + "\",\"neo4j_status\":\""@ + label_spec(neo4j)
        + "\",\"services\":{\"redis\":\"redis://localhost:6379\",\"neo4j\":\"bolt://localhost:7687\"}}"@
}

/// Renders the health body. Always yields the same document, whatever the
/// state of the dependencies.
pub fn health_body() -> (r: String)
    ensures
        r@ == health_body_spec(),
{
    String::from_str("{\"status\":\"healthy\",\"version\":\"0.1.0\"}")
}

/// Renders the info body for the given dev-mode flag and probe outcomes.
/// Total over all inputs, so a probe failure can never fail the request.
pub fn info_body(dev_mode: bool, redis: DependencyStatus, neo4j: DependencyStatus) -> (r: String)
    ensures
        r@ == info_body_spec(dev_mode, redis, neo4j),
{
    let flag: &str = if dev_mode { "true" } else { "false" };
    let redis_label = redis.label();
    let neo4j_label = neo4j.label();
    let mut r = String::from_str("{\"dev_mode\":");
    r.append(flag);
    r.append(",\"redis_status\":\"");
    r.append(redis_label.as_str());
    r.append("\",\"neo4j_status\":\"");
    r.append(neo4j_label.as_str());
    r.append("\",\"services\":{\"redis\":\"redis://localhost:6379\",\"neo4j\":\"bolt://localhost:7687\"}}");
    proof {
        assert(r@ =~= info_body_spec(dev_mode, redis, neo4j));
    }
    r
}

/// A computed HTTP response: the status code and the JSON body.
pub struct JsonResponse {
    /// HTTP status code of the response.
    pub status: u16,
    /// JSON document sent as the body.
    pub body: String,
}

/// Computes the health endpoint response: always HTTP 200 with the fixed
/// health document, whatever the state of the dependencies.
pub fn health_response() -> (r: JsonResponse)
    ensures
        r.status == 200,
        r.body@ == health_body_spec(),
{
    JsonResponse { status: 200, body: health_body() }
}

/// Computes the info endpoint response: always HTTP 200, for every
/// combination of probe outcomes, so a dependency failure is never
/// propagated as an HTTP error.
pub fn info_response(
    dev_mode: bool,
    redis: DependencyStatus,
    neo4j: DependencyStatus,
) -> (r: JsonResponse)
    ensures
        r.status == 200,
        r.body@ == info_body_spec(dev_mode, redis, neo4j),
{
    JsonResponse { status: 200, body: info_body(dev_mode, redis, neo4j) }
}

} // verus!
