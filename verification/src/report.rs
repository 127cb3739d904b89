//! The exception reporter: from an error and its chain of causes to the
//! event that the error tracker receives.

use crate::error::{text_of, MetricError};
use crate::metrics::{MetricSample, MetricValue, Metrics};
use crate::string_map::{distinct_keys, pairs_map, sorted_by_key};
use crate::tags::{no_empty_pair, Tags};
use crate::pattern::{captures_all, regex_captures_all, texts_of};
use crate::text::{decimal_u64, parse_u64};
use vstd::prelude::*;

verus! {

/// The stack trace of the error tracker's protocol, `sentry::protocol::Stacktrace`.
/// The library carries such a value from the parser to the event and never
/// looks inside.
#[verifier::external_type_specification]
#[verifier::external_body]
pub struct ExStacktrace(sentry::protocol::Stacktrace);

/// The characters at which the name of a type ends in the debug form of
/// a value.
pub open spec fn is_type_delimiter(c: char) -> bool {
    c == ' ' || c == '(' || c == '{' || c == '\r' || c == '\n'
}

/// The characters with the Unicode property `White_Space`.
pub open spec fn is_white_space(c: char) -> bool {
    let n = c as int;
    ||| 0x09 <= n <= 0x0D
    ||| n == 0x20
    ||| n == 0x85
    ||| n == 0xA0
    ||| n == 0x1680
    ||| 0x2000 <= n <= 0x200A
    ||| n == 0x2028
    ||| n == 0x2029
    ||| n == 0x202F
    ||| n == 0x205F
    ||| n == 0x3000
}

/// The number of characters before the first type delimiter.
pub open spec fn segment_len(d: Seq<char>) -> int
    decreases d.len(),
{
    if d.len() == 0 || is_type_delimiter(d[0]) {
        0
    } else {
        1 + segment_len(d.skip(1))
    }
}

/// The text without the white space at its start.
pub open spec fn trim_start(s: Seq<char>) -> Seq<char>
    decreases s.len(),
{
    if s.len() > 0 && is_white_space(s[0]) {
        trim_start(s.skip(1))
    } else {
        s
    }
}

/// The text without the white space at its end.
pub open spec fn trim_end(s: Seq<char>) -> Seq<char>
    decreases s.len(),
{
    if s.len() > 0 && is_white_space(s.last()) {
        trim_end(s.drop_last())
    } else {
        s
    }
}

/// The name of the type in the debug form `d` of a value: what stands
/// before the first delimiter, without white space around it.
pub open spec fn debug_type_name(d: Seq<char>) -> Seq<char> {
    trim_end(trim_start(d.take(segment_len(d))))
}

/// Calls `sentry::parse_type_from_debug`, which cuts the text at the first
/// of the characters ` `, `(`, `{`, `\r`, `\n` and trims white space from
/// what stands before it.
#[verifier::external_body]
fn parse_type_from_debug(d: &str) -> (name: String)
    ensures
        name@ == debug_type_name(d@),
{
    sentry::parse_type_from_debug(d).to_owned()
}

/// The stack trace that `sentry_backtrace::parse_stacktrace` reads from a
/// captured backtrace, or nothing where it finds no frame in it.
pub uninterp spec fn parsed_stacktrace(backtrace: Seq<char>) -> Option<
    sentry::protocol::Stacktrace,
>;

/// The pattern with which `sentry_backtrace::parse_stacktrace` finds the
/// frames of a backtrace, to the letter. The groups `lineno` and `colno`
/// hold the line and the column of a frame.
pub const FRAME_PATTERN: &'static str = r#"(?xm)
        ^
            \s*(?:\d+:)?\s*                      # frame number (missing for inline)

            (?:
                (?P<addr_old>0x[a-f0-9]+)        # old style address prefix
                \s-\s
            )?

            (?P<symbol>[^\r\n\(]+)               # symbol name

            (?:
                \s\((?P<addr_new>0x[a-f0-9]+)\)  # new style address in parens
            )?

            (?:
                \r?\n
                \s+at\s                          # padded "at" in new line
                (?P<path>[^\r\n]+?)              # path to source file
                (?::(?P<lineno>\d+))?            # optional source line
                (?::(?P<colno>\d+))?             # optional source column
            )?
        $
    "#;

/// Every number of the list reads as a `u64`.
pub open spec fn numbers_fit(found: Seq<Option<Seq<char>>>) -> bool {
    forall|i: int|
        0 <= i < found.len() ==> match #[trigger] found[i] {
            Some(number) => decimal_u64(number) is Some,
            None => true,
        }
}

/// The backtrace can be read: what its frames state as their line and as
/// their column reads as a `u64`, frame by frame.
pub open spec fn is_readable_backtrace(s: Seq<char>) -> bool {
    &&& numbers_fit(regex_captures_all(FRAME_PATTERN@, "lineno"@, s))
    &&& numbers_fit(regex_captures_all(FRAME_PATTERN@, "colno"@, s))
}

/// Calls `sentry_backtrace::parse_stacktrace`. That function finds the
/// frames with `FRAME_PATTERN` and reads what the groups `lineno` and
/// `colno` hold with `str::parse::<u64>`; it fails where one of them does
/// not read, and nowhere else. The contract names the result after the
/// text alone, as the function reads nothing else.
#[verifier::external_body]
fn parse_stacktrace(backtrace: &str) -> (r: Option<sentry::protocol::Stacktrace>)
    requires
        is_readable_backtrace(backtrace@),
    ensures
        r == parsed_stacktrace(backtrace@),
{
    sentry_backtrace::parse_stacktrace(backtrace)
}

/// Whether every number of the list reads as a `u64`.
pub fn all_fit(found: &Vec<Option<String>>) -> (b: bool)
    ensures
        b == numbers_fit(texts_of(found@)),
{
    let mut i: usize = 0;
    while i < found.len()
        invariant
            i <= found@.len(),
            forall|j: int|
                0 <= j < i ==> match #[trigger] texts_of(found@)[j] {
                    Some(number) => decimal_u64(number) is Some,
                    None => true,
                },
        decreases found@.len() - i,
    {
        match &found[i] {
            Some(number) => {
                if parse_u64(number.as_str()).is_none() {
                    assert(texts_of(found@)[i as int] == Some(number@));
                    return false;
                }
            },
            None => {},
        }
        i += 1;
    }
    true
}

/// Whether the backtrace can be read.
pub fn backtrace_is_readable(backtrace: &str) -> (b: bool)
    ensures
        b == is_readable_backtrace(backtrace@),
{
    let lines = captures_all(FRAME_PATTERN, "lineno", backtrace);
    let columns = captures_all(FRAME_PATTERN, "colno", backtrace);
    all_fit(&lines) && all_fit(&columns)
}

/// The stack trace of a captured backtrace: what the parser reads from
/// it, and nothing where the parser cannot read it.
pub open spec fn stacktrace_of(backtrace: Option<String>) -> Option<sentry::protocol::Stacktrace> {
    match backtrace {
        Some(text) if is_readable_backtrace(text@) => parsed_stacktrace(text@),
        _ => None,
    }
}

/// An error as the reporter sees it: its debug form, its message, the
/// backtrace that was captured with it, and the error that caused it.
#[derive(Debug)]
pub struct ErrorInfo {
    pub debug: String,
    pub message: String,
    pub backtrace: Option<String>,
    pub source: Option<Box<ErrorInfo>>,
}

impl ErrorInfo {
    /// The error and its causes, the error first and the root cause last.
    pub open spec fn chain(self) -> Seq<ErrorInfo>
        decreases self,
    {
        match self.source {
            None => seq![self],
            Some(cause) => seq![self] + cause.chain(),
        }
    }

    /// The frame that reports this error.
    pub open spec fn frame(self) -> ExceptionView {
        ExceptionView {
            ty: debug_type_name(self.debug@),
            value: Some(self.message@),
            stacktrace: stacktrace_of(self.backtrace),
        }
    }

    /// The frame that reports this error without its backtrace.
    pub open spec fn bare_frame(self) -> ExceptionView {
        ExceptionView {
            ty: debug_type_name(self.debug@),
            value: Some(self.message@),
            stacktrace: None,
        }
    }

    /// The frames that report this error and its causes, the root cause
    /// first and the error itself last.
    pub open spec fn frames(self) -> Seq<ExceptionView> {
        let chain = self.chain();
        Seq::new(chain.len(), |i: int| chain[chain.len() - 1 - i].frame())
    }

    /// The event that reports this error: its frames, at the level of an
    /// error, without tags.
    pub open spec fn event(self) -> EventView {
        EventView {
            exception: self.frames(),
            level: Level::Error,
            tags: Map::empty(),
            extra: Map::empty(),
        }
    }

    /// An error without a cause.
    pub fn new(debug: String, message: String, backtrace: Option<String>) -> (e: ErrorInfo)
        ensures
            e == (ErrorInfo { debug, message, backtrace, source: None }),
    {
        ErrorInfo { debug, message, backtrace, source: None }
    }

    /// This error, caused by `cause`.
    pub fn caused_by(self, cause: ErrorInfo) -> (e: ErrorInfo)
        ensures
            e == (ErrorInfo { source: Some(Box::new(cause)), ..self }),
            e.chain() == seq![e] + cause.chain(),
    {
        ErrorInfo {
            debug: self.debug,
            message: self.message,
            backtrace: self.backtrace,
            source: Some(Box::new(cause)),
        }
    }
}

/// One frame of an error report.
#[derive(Debug, Clone)]
pub struct Exception {
    /// The name of the error's type.
    pub ty: String,
    /// The message of the error.
    pub value: Option<String>,
    pub stacktrace: Option<sentry::protocol::Stacktrace>,
}

/// A frame of an error report, as values.
pub struct ExceptionView {
    pub ty: Seq<char>,
    pub value: Option<Seq<char>>,
    pub stacktrace: Option<sentry::protocol::Stacktrace>,
}

impl View for Exception {
    type V = ExceptionView;

    open spec fn view(&self) -> ExceptionView {
        ExceptionView {
            ty: self.ty@,
            value: match self.value {
                Some(v) => Some(v@),
                None => None,
            },
            stacktrace: self.stacktrace,
        }
    }
}

/// How severe an event is.
#[derive(Debug, Clone, Copy, PartialEq, Eq, Structural)]
pub enum Level {
    Debug,
    Info,
    Warning,
    Error,
    Fatal,
}

/// One report to the error tracker.
#[derive(Debug, Clone)]
pub struct Event {
    /// The frames, the root cause first.
    pub exception: Vec<Exception>,
    pub level: Level,
    /// The tags, in ascending order of their keys.
    pub tags: Vec<(String, String)>,
    /// The extra context, in ascending order of its keys.
    pub extra: Vec<(String, String)>,
}

/// A report to the error tracker, as values.
pub struct EventView {
    pub exception: Seq<ExceptionView>,
    pub level: Level,
    pub tags: Map<Seq<char>, Seq<char>>,
    pub extra: Map<Seq<char>, Seq<char>>,
}

impl View for Event {
    type V = EventView;

    open spec fn view(&self) -> EventView {
        EventView {
            exception: Seq::new(self.exception@.len(), |i: int| self.exception@[i]@),
            level: self.level,
            tags: pairs_map(self.tags@),
            extra: pairs_map(self.extra@),
        }
    }
}

impl Event {
    /// The lists of tags and of extra context are in order, without a
    /// repeated key or an empty value.
    pub open spec fn is_tidy(&self) -> bool {
        &&& sorted_by_key(self.tags@)
        &&& distinct_keys(self.tags@)
        &&& no_empty_pair(self.tags@)
        &&& sorted_by_key(self.extra@)
        &&& distinct_keys(self.extra@)
        &&& no_empty_pair(self.extra@)
    }
}

/// The frame that reports one error, without a stack trace.
pub fn exception_from_error(err: &ErrorInfo) -> (e: Exception)
    ensures
        e@ == err.bare_frame(),
{
    let ty = parse_type_from_debug(err.debug.as_str());
    Exception { ty, value: Some(err.message.clone()), stacktrace: None }
}

/// The frame that reports one error, with the stack trace that the
/// parser reads from its backtrace, where it has one. A backtrace that the
/// parser cannot read, for a line or column number that is no `u64`, gives
/// no stack trace.
pub fn exception_from_error_with_backtrace(err: &ErrorInfo) -> (e: Exception)
    ensures
        e@ == err.frame(),
{
    let mut exception = exception_from_error(err);
    match &err.backtrace {
        Some(text) => {
            if backtrace_is_readable(text.as_str()) {
                exception.stacktrace = parse_stacktrace(text.as_str());
            }
        },
        None => {},
    }
    exception
}

/// The event that reports an error. The chain of causes is walked from
/// the error down to the root cause, one frame for each; the frames are
/// then put in the reverse order, the root cause first.
pub fn event_from_error(err: &ErrorInfo) -> (event: Event)
    ensures
        event@ == err.event(),
        event.exception@.len() == err.chain().len(),
        event.tags@.len() == 0,
        event.extra@.len() == 0,
{
    let mut found: Vec<Exception> = Vec::new();
    let mut current: &ErrorInfo = err;
    let ghost chain = err.chain();
    loop
        invariant_except_break
            chain == err.chain(),
            found@.len() < chain.len(),
            current.chain() == chain.skip(found@.len() as int),
            forall|i: int| 0 <= i < found@.len() ==> (#[trigger] found@[i])@ == chain[i].frame(),
        ensures
            chain == err.chain(),
            found@.len() == chain.len(),
            forall|i: int| 0 <= i < found@.len() ==> (#[trigger] found@[i])@ == chain[i].frame(),
        decreases chain.len() - found@.len(),
    {
        let ghost n = found@.len() as int;
        assert(current.chain()[0] == *current);
        assert(chain[n] == *current);
        found.push(exception_from_error_with_backtrace(current));
        match &current.source {
            Some(cause) => {
                assert(current.chain().skip(1) == cause.chain());
                assert(chain.skip(n).skip(1) == chain.skip(n + 1));
                assert(cause.chain().len() > 0) by {
                    lemma_chain_is_not_empty(**cause);
                }
                current = &**cause;
            },
            None => {
                assert(current.chain().len() == 1);
                break ;
            },
        }
    }
    let ghost walked = found@;
    let mut exception: Vec<Exception> = Vec::new();
    while found.len() > 0
        invariant
            found@.len() + exception@.len() == walked.len(),
            found@ == walked.take(found@.len() as int),
            forall|i: int|
                0 <= i < exception@.len() ==> #[trigger] exception@[i] == walked[walked.len() - 1
                    - i],
        decreases found@.len(),
    {
        let last = found.pop().unwrap();
        exception.push(last);
    }
    let event = Event { exception, level: Level::Error, tags: Vec::new(), extra: Vec::new() };
    assert(event@.exception =~= err.frames());
    event
}

/// The frames of an error are as many as the error and its causes, and
/// they stand in the reverse order: the frame of the root cause first, the
/// frame of the error itself last.
pub proof fn lemma_frames_are_root_cause_first(err: ErrorInfo, i: int)
    requires
        0 <= i < err.chain().len(),
    ensures
        err.frames().len() == err.chain().len(),
        err.frames()[i] == err.chain()[err.chain().len() - 1 - i].frame(),
        err.frames()[err.chain().len() - 1] == err.frame(),
{
    lemma_chain_is_not_empty(err);
}

/// An error has itself in its chain, so the chain is never empty.
pub proof fn lemma_chain_is_not_empty(err: ErrorInfo)
    ensures
        err.chain().len() > 0,
        err.chain()[0] == err,
{
}

/// The event `event` with the tags and the extra context of `tags` in
/// the place of its own.
pub open spec fn tagged(event: EventView, tags: Tags) -> EventView {
    EventView { tags: tags.tag_map(), extra: tags.extra_map(), ..event }
}

/// Makes an event ready for the error tracker: its tags and its extra
/// context become those of the tag set. The rest of the event stays.
pub fn report(tags: &Tags, event: Event) -> (ready: Event)
    ensures
        ready@ == tagged(event@, *tags),
        ready.exception == event.exception,
        ready.is_tidy(),
{
    let tag_tree = tags.clone().tag_tree();
    let extra_tree = tags.clone().extra_tree();
    Event { exception: event.exception, level: event.level, tags: tag_tree, extra: extra_tree }
}

/// What reporting one error comes to: the counter sample to emit and the
/// event to submit, where there is one.
#[derive(Debug)]
pub struct ErrorOutcome {
    pub metric: Option<MetricSample>,
    pub event: Option<Event>,
}

/// There is an emitter, and it has a sink.
pub open spec fn has_sink(metrics: Option<&Metrics>) -> bool {
    match metrics {
        Some(m) => m.client,
        None => false,
    }
}

/// The tag map of a sample for the emitter `metrics`, if there is one,
/// with `tags` given to the call.
pub open spec fn sample_tags(metrics: Option<&Metrics>, tags: Tags) -> Map<Seq<char>, Seq<char>> {
    match metrics {
        Some(m) => m.merged(Some(tags)),
        None => Map::empty(),
    }
}

/// `outcome` is what reporting an error comes to, given the counter it is
/// counted under, whether it is reportable, the emitter and the tags.
///
/// The counter is incremented once where the error has a label and the
/// emitter a sink, whether or not the error is reportable. The event is
/// there exactly where the error is reportable; it holds the frames of the
/// error and the tags and extra context of the tag set.
pub open spec fn is_outcome_of(
    outcome: ErrorOutcome,
    label: Option<Seq<char>>,
    reportable: bool,
    info: ErrorInfo,
    metrics: Option<&Metrics>,
    tags: Tags,
) -> bool {
    &&& match outcome.metric {
        Some(s) => label is Some && has_sink(metrics) && s.is(
            label->0,
            MetricValue::Count(1),
            sample_tags(metrics, tags),
        ),
        None => !(label is Some && has_sink(metrics)),
    }
    &&& match outcome.event {
        Some(e) => reportable && e@ == tagged(info.event(), tags) && e.is_tidy(),
        None => !reportable,
    }
}

/// Reports one error, of which the label and the reportability are known.
pub fn report_classified(
    label: Option<String>,
    reportable: bool,
    info: &ErrorInfo,
    metrics: Option<&Metrics>,
    tags: &Tags,
) -> (outcome: ErrorOutcome)
    ensures
        is_outcome_of(outcome, text_of(label), reportable, *info, metrics, *tags),
{
    let metric = match (metrics, &label) {
        (Some(m), Some(l)) => m.incr_with_tags(l.as_str(), Some(tags.clone())),
        _ => None,
    };
    let event = if reportable {
        Some(report(tags, event_from_error(info)))
    } else {
        None
    };
    ErrorOutcome { metric, event }
}

/// Reports the error `err`, which `info` describes: it is counted under
/// its label, if it has one, and reported if it says so. The error itself
/// answers for its label and for whether it is reportable; what follows
/// from its answers is `report_classified`.
pub fn process_error<E: MetricError>(
    err: &E,
    info: &ErrorInfo,
    metrics: Option<&Metrics>,
    tags: &Tags,
) -> (outcome: ErrorOutcome)
    ensures
        exists|label: Option<Seq<char>>, reportable: bool|
            is_outcome_of(outcome, label, reportable, *info, metrics, *tags),
        outcome.event matches Some(e) ==> e@ == tagged(info.event(), *tags) && e.is_tidy(),
        outcome.metric matches Some(s) ==> has_sink(metrics) && s.value == MetricValue::Count(1)
            && s.tag_map() == sample_tags(metrics, *tags),
{
    let label = err.metric_label();
    let reportable = err.is_reportable();
    let outcome = report_classified(label, reportable, info, metrics, tags);
    assert(is_outcome_of(outcome, text_of(label), reportable, *info, metrics, *tags));
    outcome
}

/// The error with which a response ended.
#[derive(Debug)]
pub enum Failure {
    /// The response carries no error.
    Absent,
    /// The response carries an error of a kind that the reporter does not
    /// know.
    Unclassified,
    /// The response carries an error of the taxonomy.
    Classified { label: Option<String>, reportable: bool, info: ErrorInfo },
}

/// What the outermost middleware finds once the inner chain has answered:
/// the tags and the pending events on the side of the request and on the
/// side of the response, and the error of the response.
#[derive(Debug)]
pub struct Exchange {
    pub request_tags: Option<Tags>,
    pub response_tags: Option<Tags>,
    pub request_events: Vec<Event>,
    pub response_events: Vec<Event>,
    pub failure: Failure,
}

/// What the outermost middleware is to do for one request.
#[derive(Debug)]
pub struct ReportPlan {
    /// The tags of the request, merged from all sides.
    pub tags: Tags,
    /// The counter sample to emit.
    pub metric: Option<MetricSample>,
    /// The events to submit, in this order.
    pub events: Vec<Event>,
}

/// The entries of an optional map; none counts as empty.
pub open spec fn map_or_empty(m: Option<Map<Seq<char>, Seq<char>>>) -> Map<Seq<char>, Seq<char>> {
    match m {
        Some(m) => m,
        None => Map::empty(),
    }
}

/// The merge of the tags of a request: the seed first, then the side of
/// the request, then the side of the response, each overriding what came
/// before it.
pub open spec fn merge_sides(
    seed: Map<Seq<char>, Seq<char>>,
    request: Option<Map<Seq<char>, Seq<char>>>,
    response: Option<Map<Seq<char>, Seq<char>>>,
) -> Map<Seq<char>, Seq<char>> {
    seed.union_prefer_right(map_or_empty(request)).union_prefer_right(map_or_empty(response))
}

/// The tag maps of an optional tag set.
pub open spec fn tag_map_of(tags: Option<Tags>) -> Option<Map<Seq<char>, Seq<char>>> {
    match tags {
        Some(t) => Some(t.tag_map()),
        None => None,
    }
}

/// The extra context of an optional tag set.
pub open spec fn extra_map_of(tags: Option<Tags>) -> Option<Map<Seq<char>, Seq<char>>> {
    match tags {
        Some(t) => Some(t.extra_map()),
        None => None,
    }
}

/// A tag that either side holds is in the merge. The side of the response
/// decides where both hold the key; the side of the request decides where
/// only it does.
pub proof fn lemma_merge_keeps_tags_of_both_sides(
    seed: Map<Seq<char>, Seq<char>>,
    request: Option<Map<Seq<char>, Seq<char>>>,
    response: Option<Map<Seq<char>, Seq<char>>>,
    key: Seq<char>,
)
    ensures
        map_or_empty(response).dom().contains(key) ==> merge_sides(
            seed,
            request,
            response,
        ).dom().contains(key) && merge_sides(seed, request, response)[key] == map_or_empty(
            response,
        )[key],
        map_or_empty(request).dom().contains(key) && !map_or_empty(response).dom().contains(key)
            ==> merge_sides(seed, request, response).dom().contains(key) && merge_sides(
            seed,
            request,
            response,
        )[key] == map_or_empty(request)[key],
        seed.dom().contains(key) ==> merge_sides(seed, request, response).dom().contains(key),
{
}

/// Merges the tags that were attached on the side of the request and on
/// the side of the response into the seed tags of the request.
pub fn merge_side_channels(seed: Tags, request_tags: Option<Tags>, response_tags: Option<Tags>) -> (
    merged: Tags
)
    ensures
        merged.tag_map() == merge_sides(
            seed.tag_map(),
            tag_map_of(request_tags),
            tag_map_of(response_tags),
        ),
        merged.extra_map() == merge_sides(
            seed.extra_map(),
            extra_map_of(request_tags),
            extra_map_of(response_tags),
        ),
{
    let mut merged = seed;
    match request_tags {
        Some(t) => {
            merged.extend(t);
        },
        None => {
            assert(merged.tag_map().union_prefer_right(Map::empty()) =~= merged.tag_map());
            assert(merged.extra_map().union_prefer_right(Map::empty()) =~= merged.extra_map());
        },
    }
    match response_tags {
        Some(t) => {
            merged.extend(t);
        },
        None => {
            assert(merged.tag_map().union_prefer_right(Map::empty()) =~= merged.tag_map());
            assert(merged.extra_map().union_prefer_right(Map::empty()) =~= merged.extra_map());
        },
    }
    merged
}

/// The pending events of one request: those of the side of the request,
/// then those of the side of the response.
pub open spec fn pending(exchange: Exchange) -> Seq<Event> {
    exchange.request_events@ + exchange.response_events@
}

/// `plan` is what the outermost middleware is to do for a request with
/// the seed tags `seed` whose inner chain ended in `exchange`.
///
/// The tags are merged from all sides. Without an error, each pending
/// event is submitted once, with the merged tags. With an error of the
/// taxonomy, the error is counted and, where reportable, submitted. With
/// another error nothing is done.
pub open spec fn is_plan_of(
    plan: ReportPlan,
    seed: Tags,
    metrics: Option<&Metrics>,
    exchange: Exchange,
) -> bool {
    &&& plan.tags.tag_map() == merge_sides(
        seed.tag_map(),
        tag_map_of(exchange.request_tags),
        tag_map_of(exchange.response_tags),
    )
    &&& plan.tags.extra_map() == merge_sides(
        seed.extra_map(),
        extra_map_of(exchange.request_tags),
        extra_map_of(exchange.response_tags),
    )
    &&& forall|i: int| 0 <= i < plan.events@.len() ==> (#[trigger] plan.events@[i]).is_tidy()
    &&& match exchange.failure {
        Failure::Absent => {
            &&& plan.metric is None
            &&& plan.events@.len() == pending(exchange).len()
            &&& forall|i: int|
                0 <= i < plan.events@.len() ==> (#[trigger] plan.events@[i])@ == tagged(
                    pending(exchange)[i]@,
                    plan.tags,
                )
        },
        Failure::Unclassified => plan.metric is None && plan.events@.len() == 0,
        Failure::Classified { label, reportable, info } => {
            &&& is_outcome_of(
                ErrorOutcome {
                    metric: plan.metric,
                    event: if plan.events@.len() == 1 {
                        Some(plan.events@[0])
                    } else {
                        None
                    },
                },
                text_of(label),
                reportable,
                info,
                metrics,
                plan.tags,
            )
            &&& plan.events@.len() <= 1
        },
    }
}

/// Decides what the outermost middleware does once the inner chain has
/// answered.
pub fn report_error(seed: Tags, metrics: Option<&Metrics>, exchange: Exchange) -> (plan:
    ReportPlan)
    ensures
        is_plan_of(plan, seed, metrics, exchange),
{
    let Exchange { request_tags, response_tags, request_events, response_events, failure } =
        exchange;
    let tags = merge_side_channels(seed, request_tags, response_tags);
    let mut events: Vec<Event> = Vec::new();
    let mut metric: Option<MetricSample> = None;
    match failure {
        Failure::Absent => {
            let ghost all = request_events@ + response_events@;
            let ghost first = request_events@;
            let ghost second = response_events@;
            for event in it: request_events
                invariant
                    it.seq() == first,
                    events@.len() == it.index(),
                    forall|j: int| 0 <= j < events@.len() ==> (#[trigger] events@[j]).is_tidy(),
                    forall|j: int|
                        0 <= j < events@.len() ==> (#[trigger] events@[j])@ == tagged(
                            first[j]@,
                            tags,
                        ),
            {
                events.push(report(&tags, event));
            }
            for event in it: response_events
                invariant
                    it.seq() == second,
                    events@.len() == first.len() + it.index(),
                    forall|j: int| 0 <= j < events@.len() ==> (#[trigger] events@[j]).is_tidy(),
                    forall|j: int|
                        0 <= j < first.len() ==> (#[trigger] events@[j])@ == tagged(
                            first[j]@,
                            tags,
                        ),
                    forall|j: int|
                        0 <= j < it.index() ==> (#[trigger] events@[first.len() + j])@ == tagged(
                            second[j]@,
                            tags,
                        ),
            {
                events.push(report(&tags, event));
            }
            assert forall|j: int| 0 <= j < events@.len() implies (#[trigger] events@[j])@
                == tagged(all[j]@, tags) by {
                if j >= first.len() {
                    let d = j - first.len();
                    assert(events@[first.len() + d]@ == tagged(second[d]@, tags));
                }
            }
        },
        Failure::Unclassified => {},
        Failure::Classified { label, reportable, info } => {
            let outcome = report_classified(label, reportable, &info, metrics, &tags);
            metric = outcome.metric;
            match outcome.event {
                Some(e) => {
                    events.push(e);
                },
                None => {},
            }
        },
    }
    ReportPlan { tags, metric, events }
}

} // verus!
