//! The mock registry itself: which paths it answers, and with what.
//!
//! Routing looks at the path of a request and at nothing else. Three prefixes
//! are served with canned JSON objects; every other path gets `404 Not Found`
//! with an empty body.

use vstd::prelude::*;
use crate::json::{pretty_json, serde_to_string_pretty, EntryModel, JsonObject};
use crate::message::{not_found_view, ok_view, Request, RequestView, Response, ResponseView, STATUS_OK};
use crate::router::{first_match, Route};

verus! {

/// Paths below this prefix are answered with the empty object.
pub const SCOPE_PREFIX: &'static str = "/api/scope/";

/// Paths below this prefix are answered with the scope creation report.
pub const SCOPES_PREFIX: &'static str = "/api/scopes/";

/// Paths below this prefix are answered with the publish status report.
pub const PUBLISH_STATUS_PREFIX: &'static str = "/api/publish_status/";

/// The `id` of the scope creation report.
pub const SCOPES_ID: &'static str = "sdfwqer-sffg-qwerasdf";

/// The `id` of the publish status report.
pub const PUBLISH_STATUS_ID: &'static str = "sdfwqer-qwer-qwerasdf";

/// The `status` of both reports.
pub const STATUS_SUCCESS: &'static str = "success";

/// Key of the identifier in a report.
pub const KEY_ID: &'static str = "id";

/// Key of the status in a report.
pub const KEY_STATUS: &'static str = "status";

/// Key of the error in a report; its value is always `null`.
pub const KEY_ERROR: &'static str = "error";

/// What the server loop prefixes to transport errors it reports.
pub const SERVER_ERROR_LABEL: &'static str = "Registry server error";

/// The interface the server listens on: loopback.
pub open spec fn loopback() -> Seq<u8> {
    seq![127u8, 0u8, 0u8, 1u8]
}

/// Where the server listens: an IPv4 host and a TCP port.
#[derive(Debug)]
pub struct ListenAddress {
    pub host: [u8; 4],
    pub port: u16,
}

/// The address to bind for `port`: always on the loopback interface.
pub fn listen_address(port: u16) -> (address: ListenAddress)
    ensures
        address.host@ == loopback(),
        address.port == port,
{
    ListenAddress { host: [127, 0, 0, 1], port }
}

/// The three things the mock registry can be asked for.
#[derive(Clone, Copy, Debug, PartialEq, Eq, Structural)]
pub enum Endpoint {
    Scope,
    Scopes,
    PublishStatus,
}

/// Why a serialisation outcome could not be turned into a response.
#[derive(Debug)]
pub enum RegistryError {
    /// The outcome was an error of `serde_json`.
    Json(serde_json::Error),
}

/// The routing rule: the prefixes are tried in this order, and the first one
/// that the path starts with decides.
pub open spec fn endpoint_of(path: Seq<char>) -> Option<Endpoint> {
    if SCOPE_PREFIX@.is_prefix_of(path) {
        Some(Endpoint::Scope)
    } else if SCOPES_PREFIX@.is_prefix_of(path) {
        Some(Endpoint::Scopes)
    } else if PUBLISH_STATUS_PREFIX@.is_prefix_of(path) {
        Some(Endpoint::PublishStatus)
    } else {
        None
    }
}

/// The members of a report: `id`, then `status: "success"`, then `error: null`.
pub open spec fn report_of(id: Seq<char>) -> Seq<EntryModel> {
    seq![(KEY_ID@, Some(id)), (KEY_STATUS@, Some(STATUS_SUCCESS@)), (KEY_ERROR@, None)]
}

/// The members of the JSON object that each endpoint answers with.
pub open spec fn payload_of(endpoint: Endpoint) -> Seq<EntryModel> {
    match endpoint {
        Endpoint::Scope => Seq::empty(),
        Endpoint::Scopes => report_of(SCOPES_ID@),
        Endpoint::PublishStatus => report_of(PUBLISH_STATUS_ID@),
    }
}

/// The response a request is owed: the pretty-printed payload of its endpoint
/// with `200 OK`, or `404 Not Found` where the path has no endpoint.
pub open spec fn expected_reply(request: RequestView) -> ResponseView {
    match endpoint_of(request.path) {
        Some(endpoint) => ok_view(pretty_json(payload_of(endpoint))),
        None => not_found_view(),
    }
}

/// What becomes of a serialisation outcome: the text is sent with `200 OK`,
/// an error is passed on.
pub open spec fn reply_of(rendered: Result<String, serde_json::Error>) -> Result<
    Response,
    RegistryError,
> {
    match rendered {
        Ok(text) => Ok(Response { status: STATUS_OK, body: text }),
        Err(error) => Err(RegistryError::Json(error)),
    }
}

/// `table` is the registry's routing table, line for line.
pub open spec fn is_registry_table(table: Seq<Route<Endpoint>>) -> bool {
    &&& table.len() == 3
    &&& table[0].prefix@ == SCOPE_PREFIX@
    &&& table[0].target == Endpoint::Scope
    &&& table[1].prefix@ == SCOPES_PREFIX@
    &&& table[1].target == Endpoint::Scopes
    &&& table[2].prefix@ == PUBLISH_STATUS_PREFIX@
    &&& table[2].target == Endpoint::PublishStatus
}

/// The routing table, in the order in which it is consulted.
pub fn routes() -> (table: Vec<Route<Endpoint>>)
    ensures
        is_registry_table(table@),
{
    let mut table: Vec<Route<Endpoint>> = Vec::new();
    table.push(Route { prefix: String::from_str(SCOPE_PREFIX), target: Endpoint::Scope });
    table.push(Route { prefix: String::from_str(SCOPES_PREFIX), target: Endpoint::Scopes });
    table.push(
        Route { prefix: String::from_str(PUBLISH_STATUS_PREFIX), target: Endpoint::PublishStatus },
    );
    table
}

/// Finds the endpoint that `path` belongs to, if any.
pub fn resolve(path: &str) -> (endpoint: Option<Endpoint>)
    ensures
        endpoint == endpoint_of(path@),
{
    let table = routes();
    match first_match(&table, path) {
        Some(at) => Some(table[at].target),
        None => None,
    }
}

/// A report with the given `id`.
fn report(id: &str) -> (object: JsonObject)
    ensures
        object@ == report_of(id@),
{
    JsonObject::new().with_text(KEY_ID, id).with_text(KEY_STATUS, STATUS_SUCCESS).with_null(
        KEY_ERROR,
    )
}

/// The JSON object that `endpoint` answers with.
pub fn payload(endpoint: Endpoint) -> (object: JsonObject)
    ensures
        object@ == payload_of(endpoint),
{
    match endpoint {
        Endpoint::Scope => JsonObject::new(),
        Endpoint::Scopes => report(SCOPES_ID),
        Endpoint::PublishStatus => report(PUBLISH_STATUS_ID),
    }
}

/// Wraps the outcome of serialising a payload into the handler's result.
pub fn reply(rendered: Result<String, serde_json::Error>) -> (res: Result<Response, RegistryError>)
    ensures
        res == reply_of(rendered),
{
    match rendered {
        Ok(text) => Ok(Response::ok(text)),
        Err(error) => Err(RegistryError::Json(error)),
    }
}

/// Answers one request, and never fails to.
///
/// A path with an endpoint gets that endpoint's payload, pretty-printed by
/// `serde_json`, with `200 OK`. Every other path gets `404 Not Found` with an
/// empty body. Nothing but the path is looked at.
pub fn respond(request: &Request) -> (res: Result<Response, RegistryError>)
    ensures
        res is Ok,
        res matches Ok(response) ==> response@ == expected_reply(request@),
{
    match resolve(request.path.as_str()) {
        Some(endpoint) => {
            let object = payload(endpoint);
            reply(serde_to_string_pretty(&object))
        },
        None => Ok(Response::not_found()),
    }
}

/// Every path below `/api/scope/` is answered with `200 OK` and the
/// pretty-printed empty object.
pub proof fn lemma_scope_reply(request: RequestView)
    requires
        SCOPE_PREFIX@.is_prefix_of(request.path),
    ensures
        expected_reply(request) == ok_view(pretty_json(Seq::empty())),
{
}

/// Every path below `/api/scopes/` is answered with `200 OK` and the
/// pretty-printed scope creation report: the earlier route for `/api/scope/`
/// never takes such a path.
pub proof fn lemma_scopes_reply(request: RequestView)
    requires
        SCOPES_PREFIX@.is_prefix_of(request.path),
    ensures
        expected_reply(request) == ok_view(pretty_json(report_of(SCOPES_ID@))),
{
    reveal_strlit("/api/scope/");
    reveal_strlit("/api/scopes/");
    let path = request.path;
    assert(path.subrange(0, 12)[10] == 's');
    if SCOPE_PREFIX@.is_prefix_of(path) {
        assert(path.subrange(0, 11)[10] == '/');
    }
}

/// Every path below `/api/publish_status/` is answered with `200 OK` and the
/// pretty-printed publish status report: neither of the earlier routes takes
/// such a path.
pub proof fn lemma_publish_status_reply(request: RequestView)
    requires
        PUBLISH_STATUS_PREFIX@.is_prefix_of(request.path),
    ensures
        expected_reply(request) == ok_view(pretty_json(report_of(PUBLISH_STATUS_ID@))),
{
    reveal_strlit("/api/scope/");
    reveal_strlit("/api/scopes/");
    reveal_strlit("/api/publish_status/");
    let path = request.path;
    assert(path.subrange(0, 20)[5] == 'p');
    if SCOPE_PREFIX@.is_prefix_of(path) {
        assert(path.subrange(0, 11)[5] == 's');
    }
    if SCOPES_PREFIX@.is_prefix_of(path) {
        assert(path.subrange(0, 12)[5] == 's');
    }
}

/// A path below none of the three prefixes is answered with `404 Not Found`
/// and an empty body.
pub proof fn lemma_unrouted_reply(request: RequestView)
    requires
        !SCOPE_PREFIX@.is_prefix_of(request.path),
        !SCOPES_PREFIX@.is_prefix_of(request.path),
        !PUBLISH_STATUS_PREFIX@.is_prefix_of(request.path),
    ensures
        expected_reply(request) == not_found_view(),
{
}

/// A path of fewer than eleven characters, such as `/` or `/api/`, is too
/// short for any prefix and is answered with `404 Not Found`.
pub proof fn lemma_short_path_unrouted(request: RequestView)
    requires
        request.path.len() < 11,
    ensures
        expected_reply(request) == not_found_view(),
{
    reveal_strlit("/api/scope/");
    reveal_strlit("/api/scopes/");
    reveal_strlit("/api/publish_status/");
}

/// The method plays no part: two requests for the same path are owed the same
/// response.
pub proof fn lemma_method_ignored(a: RequestView, b: RequestView)
    requires
        a.path == b.path,
    ensures
        expected_reply(a) == expected_reply(b),
{
}

} // verus!
