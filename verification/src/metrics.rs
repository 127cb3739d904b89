//! The metrics emitter. It turns a label, a value and the tags in force
//! into a sample; handing the sample to a sink is the caller's part.

use crate::string_map::{distinct_keys, pairs_map, sorted_by_key};
use crate::tags::{no_empty_pair, Tags};
use vstd::prelude::*;

verus! {

/// What a sample measures.
#[derive(Debug, Clone, Copy, PartialEq, Eq, Structural)]
pub enum MetricValue {
    /// A counter moved by this amount.
    Count(i64),
    /// A duration in milliseconds.
    Time(u64),
    /// The level of a gauge.
    Gauge(u64),
}

/// One submission to the metrics sink.
#[derive(Debug)]
pub struct MetricSample {
    pub label: String,
    pub value: MetricValue,
    /// The tags, in ascending order of their keys.
    pub tags: Vec<(String, String)>,
}

impl MetricSample {
    /// The tags of the sample as a map.
    pub open spec fn tag_map(&self) -> Map<Seq<char>, Seq<char>> {
        pairs_map(self.tags@)
    }

    /// The sample has the given label, value and tags, and its tag list is
    /// in order, without a repeated key or an empty value.
    pub open spec fn is(
        &self,
        label: Seq<char>,
        value: MetricValue,
        tags: Map<Seq<char>, Seq<char>>,
    ) -> bool {
        &&& self.label@ == label
        &&& self.value == value
        &&& self.tag_map() == tags
        &&& sorted_by_key(self.tags@)
        &&& distinct_keys(self.tags@)
        &&& no_empty_pair(self.tags@)
    }
}

/// A timer that has been started and not yet released.
#[derive(Debug)]
pub struct MetricTimer {
    pub label: String,
    /// The clock, in milliseconds, when the timer was started.
    pub start: u64,
    pub tags: Tags,
}

/// A handle for emitting metrics: whether a sink is attached, the default
/// tags, and the timer that is running, if any.
#[derive(Debug)]
pub struct Metrics {
    /// Whether a sink is attached. Without one nothing is emitted.
    pub client: bool,
    pub tags: Option<Tags>,
    pub timer: Option<MetricTimer>,
}

/// The tag map of an optional tag set; none counts as empty.
pub open spec fn tags_or_empty(tags: Option<Tags>) -> Map<Seq<char>, Seq<char>> {
    match tags {
        Some(t) => t.tag_map(),
        None => Map::empty(),
    }
}

/// The extra context of an optional tag set; none counts as empty.
pub open spec fn extra_or_empty(tags: Option<Tags>) -> Map<Seq<char>, Seq<char>> {
    match tags {
        Some(t) => t.extra_map(),
        None => Map::empty(),
    }
}

/// The milliseconds from `start` to `now`, and zero where the clock reads
/// less than at the start.
pub open spec fn elapsed_ms(start: u64, now: u64) -> u64 {
    if now >= start {
        (now - start) as u64
    } else {
        0
    }
}

impl Metrics {
    /// The tags that a sample of this emitter carries when `tags` are given
    /// with the call: the default tags, overridden by the given ones.
    pub open spec fn merged(&self, tags: Option<Tags>) -> Map<Seq<char>, Seq<char>> {
        tags_or_empty(self.tags).union_prefer_right(tags_or_empty(tags))
    }

    /// The extra context that goes with `merged`: the default extra
    /// context, overridden by that of the tags given.
    pub open spec fn merged_extra(&self, tags: Option<Tags>) -> Map<Seq<char>, Seq<char>> {
        extra_or_empty(self.tags).union_prefer_right(extra_or_empty(tags))
    }

    /// An emitter with a sink attached, without default tags or a timer.
    /// It serves for a sink that discards what it is given as for a live one.
    pub fn noop() -> (m: Metrics)
        ensures
            m.client,
            m.tags is None,
            m.timer is None,
    {
        Metrics { client: true, tags: None, timer: None }
    }

    /// The default tags merged with the tags given.
    fn merge_tags(&self, tags: Option<Tags>) -> (r: Tags)
        ensures
            r.tag_map() == self.merged(tags),
            r.extra_map() == self.merged_extra(tags),
    {
        let mut merged = match &self.tags {
            Some(t) => t.clone(),
            None => Tags::default(),
        };
        match tags {
            Some(t) => {
                merged.extend(t);
            },
            None => {
                assert(merged.tag_map().union_prefer_right(Map::empty()) =~= merged.tag_map());
                assert(merged.extra_map().union_prefer_right(Map::empty())
                    =~= merged.extra_map());
            },
        }
        merged
    }

    /// `after` is this emitter once the timer `label` has been started at
    /// the clock reading `now` with `tags`: the timer holds the label, the
    /// reading, and the default tags and extra context overridden by those
    /// given; the rest of the emitter is as it was.
    pub open spec fn starts(
        self,
        after: Metrics,
        label: Seq<char>,
        tags: Option<Tags>,
        now: u64,
    ) -> bool {
        &&& after.client == self.client
        &&& after.tags == self.tags
        &&& after.timer matches Some(t) && t.label@ == label && t.start == now
            && t.tags.tag_map() == self.merged(tags) && t.tags.extra_map() == self.merged_extra(
            tags,
        )
    }

    /// `after` is this emitter once its timer has been released at the
    /// clock reading `now`, and `sample` is what the release emitted: the
    /// one timing sample of the timer where a timer was running and a
    /// sink is attached, and nothing otherwise.
    pub open spec fn releases(
        self,
        after: Metrics,
        now: u64,
        sample: Option<MetricSample>,
    ) -> bool {
        &&& after.client == self.client
        &&& after.tags == self.tags
        &&& after.timer is None
        &&& match self.timer {
            Some(t) if self.client => sample matches Some(s) && s.is(
                t.label@,
                MetricValue::Time(elapsed_ms(t.start, now)),
                t.tags.tag_map(),
            ),
            _ => sample is None,
        }
    }

    /// Starts the timer `label` at the clock reading `now`. The timer keeps
    /// the default tags merged with the tags given; a timer that was
    /// running is replaced.
    pub fn start_timer(&mut self, label: &str, tags: Option<Tags>, now: u64)
        ensures
            old(self).starts(*final(self), label@, tags, now),
    {
        let mtags = self.merge_tags(tags);
        self.timer = Some(MetricTimer { label: label.to_owned(), start: now, tags: mtags });
    }

    /// Releases the timer at the clock reading `now`. Where a timer was
    /// running and a sink is attached, the result is its one timing sample;
    /// in every case no timer is running afterwards.
    pub fn release(&mut self, now: u64) -> (sample: Option<MetricSample>)
        ensures
            old(self).releases(*final(self), now, sample),
    {
        let timer = self.timer.take();
        match timer {
            Some(t) => {
                if self.client {
                    let lapse = if now >= t.start {
                        now - t.start
                    } else {
                        0
                    };
                    Some(
                        MetricSample {
                            label: t.label,
                            value: MetricValue::Time(lapse),
                            tags: t.tags.tag_tree(),
                        },
                    )
                } else {
                    None
                }
            },
            None => None,
        }
    }

    /// Increments the counter `label` by one, with the default tags.
    pub fn incr(&self, label: &str) -> (sample: Option<MetricSample>)
        ensures
            self.counts(sample, label@, 1, None),
    {
        self.incr_with_tags(label, None)
    }

    /// Increments the counter `label` by one, with the tags given.
    pub fn incr_with_tags(&self, label: &str, tags: Option<Tags>) -> (sample: Option<
        MetricSample,
    >)
        ensures
            self.counts(sample, label@, 1, tags),
    {
        self.count_with_tags(label, 1, tags)
    }

    /// Increments the counter `label` by one, with the one tag given.
    pub fn incr_with_tag(&self, label: &str, key: &str, value: &str) -> (sample: Option<
        MetricSample,
    >)
        ensures
            match sample {
                Some(s) => self.client && s.is(
                    label@,
                    MetricValue::Count(1),
                    tags_or_empty(self.tags).union_prefer_right(
                        crate::tags::offer(Map::empty(), key@, value@),
                    ),
                ),
                None => !self.client,
            },
    {
        self.incr_with_tags(label, Some(Tags::with_tag(key, value)))
    }

    /// Moves the counter `label` by `count`, with the default tags.
    pub fn count(&self, label: &str, count: i64) -> (sample: Option<MetricSample>)
        ensures
            self.counts(sample, label@, count, None),
    {
        self.count_with_tags(label, count, None)
    }

    /// `sample` is what moving the counter `label` by `count` with `tags`
    /// emits: one sample where a sink is attached, none otherwise.
    pub open spec fn counts(
        &self,
        sample: Option<MetricSample>,
        label: Seq<char>,
        count: i64,
        tags: Option<Tags>,
    ) -> bool {
        match sample {
            Some(s) => self.client && s.is(label, MetricValue::Count(count), self.merged(tags)),
            None => !self.client,
        }
    }

    /// Moves the counter `label` by `count`. The sample carries the default
    /// tags merged with the tags given, which take precedence.
    pub fn count_with_tags(&self, label: &str, count: i64, tags: Option<Tags>) -> (sample:
        Option<MetricSample>)
        ensures
            self.counts(sample, label@, count, tags),
    {
        if self.client {
            let mtags = self.merge_tags(tags);
            Some(
                MetricSample {
                    label: label.to_owned(),
                    value: MetricValue::Count(count),
                    tags: mtags.tag_tree(),
                },
            )
        } else {
            None
        }
    }

    /// Sets the gauge `label` to `value`, with the one tag given.
    pub fn gauge_with_tag(&self, label: &str, value: u64, key: &str, tag: &str) -> (sample:
        Option<MetricSample>)
        ensures
            match sample {
                Some(s) => self.client && s.is(
                    label@,
                    MetricValue::Gauge(value),
                    tags_or_empty(self.tags).union_prefer_right(
                        crate::tags::offer(Map::empty(), key@, tag@),
                    ),
                ),
                None => !self.client,
            },
    {
        if self.client {
            let mtags = self.merge_tags(Some(Tags::with_tag(key, tag)));
            Some(
                MetricSample {
                    label: label.to_owned(),
                    value: MetricValue::Gauge(value),
                    tags: mtags.tag_tree(),
                },
            )
        } else {
            None
        }
    }
}

/// A timer that was started emits exactly one timing sample: the release
/// that follows the start gives the sample, with the label and the tags of
/// the timer and the time that has passed, and a further release gives
/// nothing.
pub proof fn lemma_started_timer_emits_once(
    idle: Metrics,
    running: Metrics,
    released: Metrics,
    again: Metrics,
    label: Seq<char>,
    tags: Option<Tags>,
    start: u64,
    end: u64,
    later: u64,
    first: Option<MetricSample>,
    second: Option<MetricSample>,
)
    requires
        idle.client,
        idle.starts(running, label, tags, start),
        running.releases(released, end, first),
        released.releases(again, later, second),
    ensures
        first matches Some(s) && s.is(
            label,
            MetricValue::Time(elapsed_ms(start, end)),
            idle.merged(tags),
        ),
        second is None,
{
}

/// The emitter of a request: the sink of the server state, if there is
/// one, and the tags that the request carries or, failing those, the tags
/// derived from its head.
pub fn metrics_from_request(request_tags: Option<&Tags>, head_tags: &Tags, client: bool) -> (m:
    Metrics)
    ensures
        m.client == client,
        m.timer is None,
        m.tags matches Some(t) && t.tag_map() == (match request_tags {
            Some(r) => r.tag_map(),
            None => head_tags.tag_map(),
        }) && t.extra_map() == (match request_tags {
            Some(r) => r.extra_map(),
            None => head_tags.extra_map(),
        }),
{
    let tags = match request_tags {
        Some(t) => t.clone(),
        None => head_tags.clone(),
    };
    Metrics { client, tags: Some(tags), timer: None }
}

} // verus!
