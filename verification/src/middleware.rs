//! The policies of the middleware pipeline that need no more than plain
//! values: the order of the layers, the counter of a response's status
//! class, and the body of a response that was not found.

use crate::error::NOT_FOUND;
use crate::metrics::{MetricSample, MetricValue, Metrics};
use crate::tags::{offer, Tags};
use crate::text::{is_prefix, starts_with};
use vstd::prelude::*;

verus! {

/// One layer of the pipeline.
#[derive(Debug, Clone, Copy, PartialEq, Eq, Structural)]
pub enum Layer {
    /// Gives a response that was not found the body of the service.
    StatusRemap,
    /// Decorates the response with the timestamp of the resource.
    Timestamp,
    /// Correlates tags and reports errors.
    ErrorCorrelation,
    /// Answers denylisted clients without reaching the handler.
    RejectUserAgent,
    /// Applies the policy for requests from other origins.
    Cors,
    /// Counts the response by the class of its status.
    StatusMetrics,
}

/// The layers in the order that is required of them, the outermost first
/// and the innermost, which is next to the handler, last.
pub open spec fn required_layers() -> Seq<Layer> {
    seq![
        Layer::StatusRemap,
        Layer::Timestamp,
        Layer::ErrorCorrelation,
        Layer::RejectUserAgent,
        Layer::Cors,
        Layer::StatusMetrics,
    ]
}

/// The order in which layers run on the way in, given the order in which
/// they were registered: each layer wraps those registered before it, so
/// the last one registered runs first.
pub open spec fn inbound(registered: Seq<Layer>) -> Seq<Layer> {
    registered.reverse()
}

/// The order in which layers run on the way out: the reverse of the way
/// in.
pub open spec fn outbound(registered: Seq<Layer>) -> Seq<Layer> {
    inbound(registered).reverse()
}

/// The layers in the order that is required of them, the outermost first.
pub fn layers_outermost_first() -> (layers: Vec<Layer>)
    ensures
        layers@ == required_layers(),
{
    let mut layers: Vec<Layer> = Vec::new();
    layers.push(Layer::StatusRemap);
    layers.push(Layer::Timestamp);
    layers.push(Layer::ErrorCorrelation);
    layers.push(Layer::RejectUserAgent);
    layers.push(Layer::Cors);
    layers.push(Layer::StatusMetrics);
    assert(layers@ =~= required_layers());
    layers
}

/// The order in which layers run on the way in, given the order in which
/// they were registered.
pub fn inbound_order(registered: &Vec<Layer>) -> (order: Vec<Layer>)
    ensures
        order@ == inbound(registered@),
{
    let mut order: Vec<Layer> = Vec::new();
    let mut i: usize = registered.len();
    while i > 0
        invariant
            i <= registered@.len(),
            order@.len() == registered@.len() - i,
            forall|j: int|
                0 <= j < order@.len() ==> #[trigger] order@[j] == registered@[registered@.len() - 1
                    - j],
        decreases i,
    {
        i -= 1;
        order.push(registered[i]);
    }
    assert(order@ =~= registered@.reverse());
    order
}

/// The order in which the layers are to be registered so that they run
/// in the required order: the innermost first.
pub fn registration_order() -> (order: Vec<Layer>)
    ensures
        inbound(order@) == required_layers(),
        outbound(order@) == required_layers().reverse(),
{
    let order = inbound_order(&layers_outermost_first());
    assert(order@.reverse() =~= required_layers());
    order
}

/// Whatever the order of registration, the layer that runs first on the
/// way in runs last on the way out, and so on through the pipeline.
pub proof fn lemma_way_out_mirrors_way_in(registered: Seq<Layer>, i: int)
    requires
        0 <= i < registered.len(),
    ensures
        inbound(registered).len() == registered.len(),
        outbound(registered).len() == registered.len(),
        outbound(registered)[i] == inbound(registered)[registered.len() - 1 - i],
        inbound(registered)[i] == registered[registered.len() - 1 - i],
{
}

/// The counter of the status class of `status`: `http_1xx` for an
/// informational status, and so on to `http_5xx` for a server error. A
/// status outside these classes has none.
pub open spec fn status_class_label(status: u16) -> Option<Seq<char>> {
    if 100 <= status < 200 {
        Some("http_1xx"@)
    } else if 200 <= status < 300 {
        Some("http_2xx"@)
    } else if 300 <= status < 400 {
        Some("http_3xx"@)
    } else if 400 <= status < 500 {
        Some("http_4xx"@)
    } else if 500 <= status < 600 {
        Some("http_5xx"@)
    } else {
        None
    }
}

/// The counter of the status class of `status`.
pub fn status_label(status: u16) -> (label: Option<&'static str>)
    ensures
        match label {
            Some(l) => status_class_label(status) == Some(l@),
            None => status_class_label(status) is None,
        },
{
    if 100 <= status && status < 200 {
        Some("http_1xx")
    } else if 200 <= status && status < 300 {
        Some("http_2xx")
    } else if 300 <= status && status < 400 {
        Some("http_3xx")
    } else if 400 <= status && status < 500 {
        Some("http_4xx")
    } else if 500 <= status && status < 600 {
        Some("http_5xx")
    } else {
        None
    }
}

/// The key of the tag that names the token server a request came through.
pub const ORIGIN_TAG: &'static str = "tokenserver_origin";

/// The tags of a status counter: the origin of the token, where the
/// request carries one.
pub open spec fn origin_tags(origin: Option<&str>) -> Map<Seq<char>, Seq<char>> {
    match origin {
        Some(o) => offer(Map::empty(), ORIGIN_TAG@, o@),
        None => Map::empty(),
    }
}

/// The server state was not found with the request.
#[derive(Debug, Clone, Copy, PartialEq, Eq, Structural)]
pub struct NoServerState;

/// The counter sample for a response with the status `status`, tagged
/// with the origin of the token where the request carries one. It takes
/// the emitter of the server state and fails where there is none.
pub fn emit_http_status_with_tokenserver_origin(
    status: u16,
    origin: Option<&str>,
    metrics: Option<&Metrics>,
) -> (r: Result<Option<MetricSample>, NoServerState>)
    ensures
        match r {
            Err(_) => metrics is None,
            Ok(sample) => metrics matches Some(m) && match sample {
                Some(s) => m.client && status_class_label(status) is Some && s.is(
                    status_class_label(status)->0,
                    MetricValue::Count(1),
                    crate::metrics::tags_or_empty(m.tags).union_prefer_right(origin_tags(origin)),
                ),
                None => !m.client || status_class_label(status) is None,
            },
        },
{
    let metrics = match metrics {
        Some(m) => m,
        None => {
            return Err(NoServerState);
        },
    };
    let tags = match origin {
        Some(o) => Some(Tags::with_tag(ORIGIN_TAG, o)),
        None => None,
    };
    match status_label(status) {
        Some(label) => Ok(metrics.incr_with_tags(label, tags)),
        None => Ok(None),
    }
}

/// The prefix of the paths of the token server.
pub const TOKENSERVER_PREFIX: &'static str = "/1.0/";

/// The code of an error that the storage protocol does not know.
pub const UNKNOWN_ERROR: u32 = 0;

/// The body of a response that was not found.
#[derive(Debug, Clone, Copy, PartialEq, Eq, Structural)]
pub enum NotFoundBody {
    /// The response goes out as it is.
    Unchanged,
    /// The response gets the status 404 again and, as its body, the JSON
    /// form of this error code.
    ErrorCode(u32),
}

/// What a response that was not found becomes: a request to the token
/// server keeps its response, any other gets the error code of the
/// storage protocol.
pub fn render_404(path: &str) -> (r: (u16, NotFoundBody))
    ensures
        r.0 == NOT_FOUND,
        r.1 == if is_prefix(TOKENSERVER_PREFIX@, path@) {
            NotFoundBody::Unchanged
        } else {
            NotFoundBody::ErrorCode(UNKNOWN_ERROR)
        },
{
    if starts_with(path, TOKENSERVER_PREFIX) {
        (NOT_FOUND, NotFoundBody::Unchanged)
    } else {
        (NOT_FOUND, NotFoundBody::ErrorCode(UNKNOWN_ERROR))
    }
}

/// The text `s` in lower case, as `str::to_lowercase` gives it.
pub uninterp spec fn lowercased(s: Seq<char>) -> Seq<char>;

/// Calls `str::to_lowercase`, which maps each character to its lower case
/// by the Unicode rules.
#[verifier::external_body]
fn to_lowercase(s: &str) -> (lower: String)
    ensures
        lower@ == lowercased(s@),
{
    s.to_lowercase()
}

/// The path is that of an endpoint that tells of the service itself and
/// answers without an identity.
pub open spec fn is_docker_flow(path: Seq<char>) -> bool {
    ||| path == "/__heartbeat__"@
    ||| path == "/__lbheartbeat__"@
    ||| path == "/__version__"@
    ||| path == "/__error__"@
}

/// Whether the path, given in lower case, is that of an endpoint that
/// answers without an identity.
pub fn is_docker_flow_endpoint(path: &str) -> (b: bool)
    ensures
        b == is_docker_flow(path@),
{
    let path = path.to_owned();
    path == "/__heartbeat__".to_owned() || path == "/__lbheartbeat__".to_owned() || path
        == "/__version__".to_owned() || path == "/__error__".to_owned()
}

/// How the identity of a request is to be had.
#[derive(Debug, Clone, Copy, PartialEq, Eq, Structural)]
pub enum IdentityPlan {
    /// The request needs no identity; it gets the dummy.
    Dummy,
    /// The identity cannot be verified: the secrets were not found. The
    /// request fails with an internal error.
    NoSecrets,
    /// The identity is to be verified from the request with the secrets.
    Verify,
}

/// The plan for a request to the path given in lower case.
pub open spec fn plan_for(lowered: Seq<char>, has_secrets: bool) -> IdentityPlan {
    if is_docker_flow(lowered) {
        IdentityPlan::Dummy
    } else if has_secrets {
        IdentityPlan::Verify
    } else {
        IdentityPlan::NoSecrets
    }
}

/// Decides how the identity of a request is to be had, from its path in
/// lower case and from whether the secrets were found.
pub fn plan_for_path(lowered: &str, has_secrets: bool) -> (plan: IdentityPlan)
    ensures
        plan == plan_for(lowered@, has_secrets),
{
    if is_docker_flow_endpoint(lowered) {
        IdentityPlan::Dummy
    } else if has_secrets {
        IdentityPlan::Verify
    } else {
        IdentityPlan::NoSecrets
    }
}

/// Decides how the identity of a request is to be had. The path is
/// compared in lower case.
pub fn identity_plan(path: &str, has_secrets: bool) -> (plan: IdentityPlan)
    ensures
        plan == plan_for(lowercased(path@), has_secrets),
{
    let lowered = to_lowercase(path);
    plan_for_path(lowered.as_str(), has_secrets)
}

} // verus!
