//! What the service decides about its database before and around a call:
//! which backend a database URL names, and how the calls that block are
//! counted while they are in flight.

use crate::deadman::Deadman;
use crate::error::DbError;
use crate::metrics::{tags_or_empty, MetricSample, MetricValue, Metrics};
use crate::pool::{gauge_tags, pool_gauges, GetPoolState, ACTIVE_GAUGE, IDLE_GAUGE};
use crate::tags::{offer, Tags};
use vstd::prelude::*;

verus! {

/// The backends that can stand behind the pool.
#[derive(Debug, Clone, Copy, PartialEq, Eq, Structural)]
pub enum Backend {
    /// The relational backend, which works on connections.
    Mysql,
    /// The distributed backend, which works on sessions.
    Spanner,
}

/// A database URL that names no backend, with the reason: what the parser
/// said of it or, where it could be parsed, the URL itself.
#[derive(Debug)]
pub struct InvalidUrl(pub String);

/// What the crate `url` reads from a text: the scheme of the URL, or the
/// text of the error with which parsing failed.
pub uninterp spec fn url_scheme(url: Seq<char>) -> Result<Seq<char>, Seq<char>>;

/// The text of a result of strings.
pub open spec fn result_text(r: Result<String, String>) -> Result<Seq<char>, Seq<char>> {
    match r {
        Ok(s) => Ok(s@),
        Err(e) => Err(e@),
    }
}

/// Calls `url::Url::parse` and, on the URL that it gives, `scheme`; a
/// failure is given as the text of its error.
#[verifier::external_body]
fn parse_scheme(url: &str) -> (r: Result<String, String>)
    ensures
        result_text(r) == url_scheme(url@),
{
    match url::Url::parse(url) {
        Ok(parsed) => Ok(parsed.scheme().to_owned()),
        Err(e) => Err(e.to_string()),
    }
}

/// The backend that a scheme names.
pub open spec fn backend_of(scheme: Seq<char>) -> Option<Backend> {
    if scheme == "mysql"@ {
        Some(Backend::Mysql)
    } else if scheme == "spanner"@ {
        Some(Backend::Spanner)
    } else {
        None
    }
}

/// `r` is the decision on the database URL `url`, of which `scheme` was
/// read: the backend that the scheme names, or the reason why there is
/// none.
pub open spec fn is_backend_choice(
    r: Result<Backend, InvalidUrl>,
    url: Seq<char>,
    scheme: Result<Seq<char>, Seq<char>>,
) -> bool {
    match r {
        Ok(backend) => scheme matches Ok(s) && backend_of(s) == Some(backend),
        Err(invalid) => match scheme {
            Ok(s) => backend_of(s) is None && invalid.0@ == url,
            Err(e) => invalid.0@ == e,
        },
    }
}

/// Chooses the backend for a database URL of which the scheme was read.
pub fn backend_for_scheme(url: &str, scheme: Result<String, String>) -> (r: Result<
    Backend,
    InvalidUrl,
>)
    ensures
        is_backend_choice(r, url@, result_text(scheme)),
{
    match scheme {
        Ok(s) => {
            proof {
                reveal_strlit("mysql");
                reveal_strlit("spanner");
            }
            if s == "mysql".to_owned() {
                Ok(Backend::Mysql)
            } else if s == "spanner".to_owned() {
                Ok(Backend::Spanner)
            } else {
                Err(InvalidUrl(url.to_owned()))
            }
        },
        Err(e) => Err(InvalidUrl(e)),
    }
}

/// Chooses the backend of the pool from the database URL of the settings.
pub fn pool_from_settings(database_url: &str) -> (r: Result<Backend, InvalidUrl>)
    ensures
        is_backend_choice(r, database_url@, url_scheme(database_url@)),
{
    backend_for_scheme(database_url, parse_scheme(database_url))
}

/// The seconds between two reports of the state of the pool.
pub const REPORT_INTERVAL_SECS: u64 = 10;

/// One round of the periodic reporter, at the clock reading `now`: the
/// pool is asked for its state once, the health monitor takes the state
/// into account, and the two gauges of the pool are the result.
pub fn report_pool_state<P: GetPoolState>(
    pool: &P,
    deadman: &mut Deadman,
    metrics: &Metrics,
    hostname: &str,
    now: u64,
) -> (samples: Vec<MetricSample>)
    ensures
        *final(deadman) == old(deadman).after(pool.snapshot(), now),
        !metrics.client ==> samples@.len() == 0,
        metrics.client ==> samples@.len() == 2 && samples@[0].is(
            ACTIVE_GAUGE@,
            MetricValue::Gauge(pool.snapshot().busy() as u64),
            gauge_tags(*metrics, hostname@),
        ) && samples@[1].is(
            IDLE_GAUGE@,
            MetricValue::Gauge(pool.snapshot().idle() as u64),
            gauge_tags(*metrics, hostname@),
        ),
{
    let state = pool.state();
    deadman.observe(&state, now);
    pool_gauges(metrics, &state, hostname)
}

/// The counter of the calls that block, which rises by one when a call
/// begins and falls by one when it ends.
pub const BLOCKING_TASKS: &'static str = "blocking_tasks";

/// What is said of a call that was given up before it ended.
pub const CANCELED: &'static str = "Db threadpool operation canceled";

/// How a call on the blocking workers ended.
#[derive(Debug)]
pub enum BlockingOutcome<T> {
    /// The call ran and gave this.
    Finished(Result<T, DbError>),
    /// The call was given up.
    Canceled,
}

/// A call that blocks, from the moment it was counted in to the moment
/// it is counted out. It can be counted out only once.
#[derive(Debug)]
pub struct BlockingTask {
    hostname: String,
}

/// The tags of the counter: the default tags with the host name added.
pub open spec fn blocking_tags(metrics: Metrics, hostname: Seq<char>) -> Map<Seq<char>, Seq<char>> {
    tags_or_empty(metrics.tags).union_prefer_right(offer(Map::empty(), "hostname"@, hostname))
}

/// `sample` moves the counter of the calls that block by `by`.
pub open spec fn moves_counter(
    sample: Option<MetricSample>,
    metrics: Metrics,
    hostname: Seq<char>,
    by: i64,
) -> bool {
    match sample {
        Some(s) => metrics.client && s.is(
            BLOCKING_TASKS@,
            MetricValue::Count(by),
            blocking_tags(metrics, hostname),
        ),
        None => !metrics.client,
    }
}

/// The amount by which a sample moves its counter.
pub open spec fn moved_by(sample: Option<MetricSample>) -> int {
    match sample {
        Some(s) => match s.value {
            MetricValue::Count(n) => n as int,
            _ => 0,
        },
        None => 0,
    }
}

impl BlockingTask {
    /// The host that runs the call.
    pub closed spec fn host(&self) -> Seq<char> {
        self.hostname@
    }

    /// Counts a call in, before it is handed to the blocking workers.
    pub fn begin(metrics: &Metrics, hostname: &str) -> (r: (BlockingTask, Option<MetricSample>))
        ensures
            r.0.host() == hostname@,
            moves_counter(r.1, *metrics, hostname@, 1),
    {
        let sample = metrics.incr_with_tag(BLOCKING_TASKS, "hostname", hostname);
        (BlockingTask { hostname: hostname.to_owned() }, sample)
    }

    /// Counts the call out, however it ended, and gives its result. A call
    /// that was given up counts as an internal error of the database.
    pub fn finish<T>(self, metrics: &Metrics, outcome: BlockingOutcome<T>) -> (r: (
        Result<T, DbError>,
        Option<MetricSample>,
    ))
        ensures
            moves_counter(r.1, *metrics, self.host(), -1i64),
            match outcome {
                BlockingOutcome::Finished(result) => r.0 == result,
                BlockingOutcome::Canceled => r.0 matches Err(e) && e.status
                    == crate::error::INTERNAL_SERVER_ERROR && e.description@ == CANCELED@,
            },
    {
        let sample = metrics.count_with_tags(
            BLOCKING_TASKS,
            -1,
            Some(Tags::with_tag("hostname", self.hostname.as_str())),
        );
        let result = match outcome {
            BlockingOutcome::Finished(result) => result,
            BlockingOutcome::Canceled => Err(DbError::internal(CANCELED)),
        };
        (result, sample)
    }
}

/// A call that was counted in and counted out has moved the counter up
/// once and down once, whatever its outcome: in all the counter stands
/// where it stood.
pub proof fn lemma_blocking_counter_balances(
    metrics: Metrics,
    hostname: Seq<char>,
    counted_in: Option<MetricSample>,
    counted_out: Option<MetricSample>,
)
    requires
        moves_counter(counted_in, metrics, hostname, 1),
        moves_counter(counted_out, metrics, hostname, -1i64),
    ensures
        counted_in is Some <==> metrics.client,
        counted_out is Some <==> metrics.client,
        metrics.client ==> moved_by(counted_in) == 1 && moved_by(counted_out) == -1,
        moved_by(counted_in) + moved_by(counted_out) == 0,
{
}

} // verus!
