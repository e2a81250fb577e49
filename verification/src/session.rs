//! Whole requests: the pipeline run against everything its driver reports, and
//! what holds of every such run.
//!
//! A run is described by the events the driver hands in, in order. What the
//! file system holds and what the client sends show up only through them: a
//! path that names a regular file is a lookup that says so, a body is the
//! pieces it arrives in.

use vstd::prelude::*;
use crate::config::ConfigView;
use crate::media::media_type_of;
use crate::observe::{
    body_lines,
    failure_line,
    head_lines,
    header_line,
    record_lines,
    rejection_line,
    request_line,
};
use crate::outcome::{acknowledgment, body_too_large, file_read_failure, FileView, OutcomeView};
use crate::pipeline::{ActionView, EventView, PipelineView, Stage, StepView};
use crate::request::{method_class, MethodClass, RequestView};
use crate::resolve::{candidate_paths, joined, ProbeResult};

verus! {

/// The steps the pipeline takes when it is handed the events in order.
pub open spec fn run(state: PipelineView, events: Seq<EventView>) -> Seq<StepView>
    decreases events.len(),
{
    if events.len() == 0 {
        Seq::empty()
    } else {
        let (next, step) = state.advance(events.first());
        seq![step] + run(next, events.drop_first())
    }
}

/// Every step of one request: the first one, then one for each event.
pub open spec fn session(
    config: ConfigView,
    request: RequestView,
    timestamp: Seq<char>,
    events: Seq<EventView>,
) -> Seq<StepView> {
    let (state, step) = PipelineView::begin(config, request, timestamp);
    seq![step] + run(state, events)
}

/// The response that the steps send first, if they send any.
pub open spec fn first_response(steps: Seq<StepView>) -> Option<OutcomeView>
    decreases steps.len(),
{
    if steps.len() == 0 {
        None
    } else {
        match steps.first().action {
            ActionView::Respond(outcome) => Some(outcome),
            _ => first_response(steps.drop_first()),
        }
    }
}

/// All the lines that the steps write, in order.
pub open spec fn written(steps: Seq<StepView>) -> Seq<Seq<char>>
    decreases steps.len(),
{
    if steps.len() == 0 {
        Seq::empty()
    } else {
        steps.first().log + written(steps.drop_first())
    }
}

/// The response to a request, given what the driver reports.
pub open spec fn response_to(
    config: ConfigView,
    request: RequestView,
    timestamp: Seq<char>,
    events: Seq<EventView>,
) -> Option<OutcomeView> {
    first_response(session(config, request, timestamp, events))
}

/// The diagnostic record of a request, given what the driver reports.
pub open spec fn record_of(
    config: ConfigView,
    request: RequestView,
    timestamp: Seq<char>,
    events: Seq<EventView>,
) -> Seq<Seq<char>> {
    written(session(config, request, timestamp, events))
}

/// The pieces of a body as the driver reports them.
pub open spec fn chunk_events(chunks: Seq<Seq<u8>>) -> Seq<EventView> {
    chunks.map_values(|bytes: Seq<u8>| EventView::Chunk(bytes))
}

/// A whole body as the driver reports it: its pieces, then its end.
pub open spec fn body_events(chunks: Seq<Seq<u8>>) -> Seq<EventView> {
    chunk_events(chunks).push(EventView::EndOfBody)
}

/// A run of lookups as the driver reports them.
pub open spec fn probe_events(results: Seq<ProbeResult>) -> Seq<EventView> {
    results.map_values(|result: ProbeResult| EventView::Probed(result))
}

/// A regular file that is found and read, as the driver reports it.
pub open spec fn load_events(bytes: Seq<u8>, last_modified: Seq<char>) -> Seq<EventView> {
    seq![
        EventView::Probed(ProbeResult::RegularFile),
        EventView::FileLoaded { bytes, last_modified },
    ]
}

/// A regular file that is found but cannot be read, as the driver reports it.
pub open spec fn failed_load_events(detail: Seq<char>) -> Seq<EventView> {
    seq![EventView::Probed(ProbeResult::RegularFile), EventView::FileFailed(detail)]
}

/// Whether none of the lookups found a regular file.
pub open spec fn all_miss(results: Seq<ProbeResult>) -> bool {
    forall|i: int| 0 <= i < results.len() ==> !(#[trigger] results[i]).resolves()
}

/// Whether a step asks for the static root to be consulted.
pub open spec fn consults_root(step: StepView) -> bool {
    step.action is Probe || step.action is ReadFile
}

/// The pipeline starts well formed, in the class of the request's method.
pub proof fn lemma_begin_wf(config: ConfigView, request: RequestView, timestamp: Seq<char>)
    ensures
        PipelineView::begin(config, request, timestamp).0.wf(),
        PipelineView::begin(config, request, timestamp).0.class == method_class(request.method),
{
}

/// Every transition keeps the pipeline well formed and keeps the class of the request.
pub proof fn lemma_advance_wf(state: PipelineView, event: EventView)
    requires
        state.wf(),
    ensures
        state.advance(event).0.wf(),
        state.advance(event).0.class == state.class,
{
}

/// The pipeline takes one step for each event.
pub proof fn lemma_run_len(state: PipelineView, events: Seq<EventView>)
    ensures
        run(state, events).len() == events.len(),
    decreases events.len(),
{
    if events.len() > 0 {
        lemma_run_len(state.advance(events.first()).0, events.drop_first());
    }
}

/// A run, taken apart at its first event.
pub proof fn lemma_run_unfolds(state: PipelineView, events: Seq<EventView>)
    requires
        events.len() > 0,
    ensures
        ({
            let (next, step) = state.advance(events.first());
            let rest = run(next, events.drop_first());
            &&& run(state, events) == seq![step] + rest
            &&& run(state, events).len() == events.len()
            &&& run(state, events)[0] == step
            &&& forall|i: int| 0 < i < events.len() ==> run(state, events)[i] == rest[i - 1]
            &&& written(run(state, events)) == step.log + written(rest)
            &&& first_response(run(state, events)) == match step.action {
                ActionView::Respond(outcome) => Some(outcome),
                _ => first_response(rest),
            }
        }),
{
    let (next, step) = state.advance(events.first());
    let rest = run(next, events.drop_first());
    lemma_run_len(next, events.drop_first());
    assert(run(state, events).drop_first() =~= rest);
}

/// A session, taken apart at its first step: the head of the record is
/// written first, and the response is the one that the events lead to.
pub proof fn lemma_session_unfolds(
    config: ConfigView,
    request: RequestView,
    timestamp: Seq<char>,
    events: Seq<EventView>,
)
    ensures
        ({
            let (state, step) = PipelineView::begin(config, request, timestamp);
            let steps = session(config, request, timestamp, events);
            &&& steps.len() == 1 + events.len()
            &&& steps[0] == step
            &&& forall|i: int| 0 < i <= events.len() ==> steps[i] == run(state, events)[i - 1]
            &&& response_to(config, request, timestamp, events) == first_response(
                run(state, events),
            )
            &&& record_of(config, request, timestamp, events) == head_lines(timestamp, request)
                + written(run(state, events))
        }),
{
    let (state, step) = PipelineView::begin(config, request, timestamp);
    lemma_run_len(state, events);
    assert(session(config, request, timestamp, events).drop_first() =~= run(state, events));
}

/// A finished pipeline asks for nothing and writes nothing, whatever it is handed.
pub proof fn lemma_finished_is_silent(state: PipelineView, events: Seq<EventView>)
    requires
        state.stage == Stage::Finished,
    ensures
        first_response(run(state, events)) is None,
        written(run(state, events)) == Seq::<Seq<char>>::empty(),
        forall|i: int|
            0 <= i < events.len() ==> (#[trigger] run(state, events)[i]) == StepView::quiet(
                ActionView::Close,
            ),
    decreases events.len(),
{
    if events.len() > 0 {
        lemma_run_unfolds(state, events);
        lemma_finished_is_silent(state, events.drop_first());
    }
}

/// A request is answered at most once: a step that responds ends the request,
/// and every later step neither responds nor writes.
pub proof fn lemma_at_most_one_response(state: PipelineView, events: Seq<EventView>, i: int)
    requires
        0 <= i < events.len(),
        run(state, events)[i].action is Respond,
    ensures
        forall|j: int|
            i < j < events.len() ==> (#[trigger] run(state, events)[j]) == StepView::quiet(
                ActionView::Close,
            ),
    decreases events.len(),
{
    let next = state.advance(events.first()).0;
    lemma_run_unfolds(state, events);
    if i == 0 {
        lemma_finished_is_silent(next, events.drop_first());
    } else {
        lemma_at_most_one_response(next, events.drop_first(), i - 1);
    }
}

/// The pipeline starts by writing the head of the record, and answers
/// nothing before that is written.
pub proof fn lemma_head_is_written_first(
    config: ConfigView,
    request: RequestView,
    timestamp: Seq<char>,
)
    ensures
        PipelineView::begin(config, request, timestamp).1.log == head_lines(timestamp, request),
        !(PipelineView::begin(config, request, timestamp).1.action is Respond),
        method_class(request.method) == MethodClass::Mutating ==> PipelineView::begin(
            config,
            request,
            timestamp,
        ).1.action == ActionView::ReadBody,
        method_class(request.method) == MethodClass::Safe ==> PipelineView::begin(
            config,
            request,
            timestamp,
        ).1.action == ActionView::Probe(joined(config.static_root, request.path)),
{
}

/// When the client goes away, nothing is sent: the request ends there, whatever
/// stage it is in and whatever is reported afterwards.
pub proof fn lemma_disconnect_sends_nothing(state: PipelineView, more: Seq<EventView>)
    ensures
        first_response(run(state, seq![EventView::Disconnected] + more)) is None,
        written(run(state, seq![EventView::Disconnected] + more)) == Seq::<Seq<char>>::empty(),
        state.advance(EventView::Disconnected).0.stage == Stage::Finished,
{
    let events = seq![EventView::Disconnected] + more;
    lemma_run_unfolds(state, events);
    lemma_finished_is_silent(state.advance(EventView::Disconnected).0, events.drop_first());
}

/// The same lookup, with its first `count` candidates out of the way.
pub open spec fn skipped(state: PipelineView, count: int) -> PipelineView {
    PipelineView { pending: state.pending.skip(count), ..state }
}

/// Candidates that miss are passed over without a word, as long as one is left to try.
pub proof fn lemma_misses_are_passed_over(
    state: PipelineView,
    misses: Seq<ProbeResult>,
    rest: Seq<EventView>,
)
    requires
        state.stage == Stage::Probing,
        misses.len() < state.pending.len(),
        all_miss(misses),
    ensures
        first_response(run(state, probe_events(misses) + rest)) == first_response(
            run(skipped(state, misses.len() as int), rest),
        ),
        written(run(state, probe_events(misses) + rest)) == written(
            run(skipped(state, misses.len() as int), rest),
        ),
    decreases misses.len(),
{
    let events = probe_events(misses) + rest;
    if misses.len() == 0 {
        assert(state.pending.skip(0) =~= state.pending);
    } else {
        let next = state.advance(events.first()).0;
        let tail = misses.drop_first();
        assert(events.drop_first() =~= probe_events(tail) + rest);
        assert(all_miss(tail));
        lemma_run_unfolds(state, events);
        lemma_misses_are_passed_over(next, tail, rest);
        assert(next.pending.skip(tail.len() as int) =~= state.pending.skip(misses.len() as int));
    }
}

/// From a lookup in progress: the first candidate that is a regular file is
/// the one that is read and served, with the content type that its path
/// stands for.
pub proof fn lemma_first_hit_is_served(
    state: PipelineView,
    misses: Seq<ProbeResult>,
    bytes: Seq<u8>,
    last_modified: Seq<char>,
    more: Seq<EventView>,
)
    requires
        state.stage == Stage::Probing,
        misses.len() < state.pending.len(),
        all_miss(misses),
    ensures
        ({
            let events = probe_events(misses) + (load_events(bytes, last_modified) + more);
            let path = state.pending[misses.len() as int];
            let file = FileView { bytes, content_type: media_type_of(path), last_modified };
            &&& first_response(run(state, events)) == Some(OutcomeView::ServedFile(file))
            &&& written(run(state, events)) == Seq::<Seq<char>>::empty()
        }),
{
    let rest = load_events(bytes, last_modified) + more;
    let found = skipped(state, misses.len() as int);
    let reading = found.advance(rest.first()).0;
    let done = reading.advance(rest.drop_first().first()).0;
    lemma_misses_are_passed_over(state, misses, rest);
    lemma_run_unfolds(found, rest);
    lemma_run_unfolds(reading, rest.drop_first());
    lemma_finished_is_silent(done, rest.drop_first().drop_first());
}

/// From a lookup in progress: a regular file that cannot be read ends the
/// request with a failure. The reason is written; it is not sent.
pub proof fn lemma_first_hit_fails(
    state: PipelineView,
    misses: Seq<ProbeResult>,
    detail: Seq<char>,
    more: Seq<EventView>,
)
    requires
        state.stage == Stage::Probing,
        misses.len() < state.pending.len(),
        all_miss(misses),
    ensures
        ({
            let events = probe_events(misses) + (failed_load_events(detail) + more);
            &&& first_response(run(state, events)) == Some(file_read_failure())
            &&& written(run(state, events)) == seq![failure_line(detail)]
        }),
{
    let rest = failed_load_events(detail) + more;
    let found = skipped(state, misses.len() as int);
    let reading = found.advance(rest.first()).0;
    let done = reading.advance(rest.drop_first().first()).0;
    lemma_misses_are_passed_over(state, misses, rest);
    lemma_run_unfolds(found, rest);
    lemma_run_unfolds(reading, rest.drop_first());
    lemma_finished_is_silent(done, rest.drop_first().drop_first());
}

/// From a lookup in progress: when every candidate misses, the request is
/// acknowledged and nothing is written.
pub proof fn lemma_all_misses_are_acknowledged(
    state: PipelineView,
    results: Seq<ProbeResult>,
    more: Seq<EventView>,
)
    requires
        state.stage == Stage::Probing,
        results.len() == state.pending.len(),
        results.len() > 0,
        all_miss(results),
    ensures
        first_response(run(state, probe_events(results) + more)) == Some(acknowledgment()),
        written(run(state, probe_events(results) + more)) == Seq::<Seq<char>>::empty(),
{
    let misses = results.drop_last();
    let rest = seq![EventView::Probed(results.last())] + more;
    let last = skipped(state, misses.len() as int);
    assert(probe_events(results) + more =~= probe_events(misses) + rest);
    assert(all_miss(misses));
    lemma_misses_are_passed_over(state, misses, rest);
    lemma_run_unfolds(last, rest);
    lemma_finished_is_silent(last.advance(rest.first()).0, rest.drop_first());
}

/// A safe request whose path names a regular file that can be read is answered
/// with status 200 and exactly the bytes of that file. The record holds the
/// head of the request and nothing more.
pub proof fn lemma_existing_file_is_served(
    config: ConfigView,
    request: RequestView,
    timestamp: Seq<char>,
    bytes: Seq<u8>,
    last_modified: Seq<char>,
    more: Seq<EventView>,
)
    requires
        method_class(request.method) == MethodClass::Safe,
    ensures
        ({
            let events = load_events(bytes, last_modified) + more;
            let steps = session(config, request, timestamp, events);
            let path = joined(config.static_root, request.path);
            let file = FileView { bytes, content_type: media_type_of(path), last_modified };
            &&& steps[0].action == ActionView::Probe(path)
            &&& steps[1].action == ActionView::ReadFile(path)
            &&& response_to(config, request, timestamp, events) == Some(
                OutcomeView::ServedFile(file),
            )
            &&& OutcomeView::ServedFile(file).status() == 200
            &&& OutcomeView::ServedFile(file).body() == bytes
            &&& record_of(config, request, timestamp, events) == head_lines(timestamp, request)
        }),
{
    let events = load_events(bytes, last_modified) + more;
    let state = PipelineView::begin(config, request, timestamp).0;
    let misses = Seq::<ProbeResult>::empty();
    lemma_session_unfolds(config, request, timestamp, events);
    lemma_run_unfolds(state, events);
    lemma_first_hit_is_served(state, misses, bytes, last_modified, more);
}

/// A safe request is served the first of its candidate paths that names a
/// regular file: the fallback when there is one and the path itself misses.
/// The status is 200 and the body is exactly the bytes of that file.
pub proof fn lemma_resolved_file_is_served(
    config: ConfigView,
    request: RequestView,
    timestamp: Seq<char>,
    misses: Seq<ProbeResult>,
    bytes: Seq<u8>,
    last_modified: Seq<char>,
    more: Seq<EventView>,
)
    requires
        method_class(request.method) == MethodClass::Safe,
        misses.len() < candidate_paths(config.static_root, request.path, config.strategy).len(),
        all_miss(misses),
    ensures
        ({
            let events = probe_events(misses) + (load_events(bytes, last_modified) + more);
            let paths = candidate_paths(config.static_root, request.path, config.strategy);
            let file = FileView {
                bytes,
                content_type: media_type_of(paths[misses.len() as int]),
                last_modified,
            };
            &&& response_to(config, request, timestamp, events) == Some(
                OutcomeView::ServedFile(file),
            )
            &&& OutcomeView::ServedFile(file).status() == 200
            &&& OutcomeView::ServedFile(file).body() == bytes
            &&& record_of(config, request, timestamp, events) == head_lines(timestamp, request)
        }),
{
    let events = probe_events(misses) + (load_events(bytes, last_modified) + more);
    let state = PipelineView::begin(config, request, timestamp).0;
    lemma_session_unfolds(config, request, timestamp, events);
    lemma_first_hit_is_served(state, misses, bytes, last_modified, more);
}

/// A safe request whose resolved file cannot be read is answered with status
/// 500 and a short fixed message. The reason goes to the record only.
pub proof fn lemma_unreadable_file_is_a_server_error(
    config: ConfigView,
    request: RequestView,
    timestamp: Seq<char>,
    misses: Seq<ProbeResult>,
    detail: Seq<char>,
    more: Seq<EventView>,
)
    requires
        method_class(request.method) == MethodClass::Safe,
        misses.len() < candidate_paths(config.static_root, request.path, config.strategy).len(),
        all_miss(misses),
    ensures
        ({
            let events = probe_events(misses) + (failed_load_events(detail) + more);
            &&& response_to(config, request, timestamp, events) == Some(file_read_failure())
            &&& file_read_failure().status() == 500
            &&& record_of(config, request, timestamp, events) == head_lines(
                timestamp,
                request,
            ).push(failure_line(detail))
        }),
{
    let events = probe_events(misses) + (failed_load_events(detail) + more);
    let state = PipelineView::begin(config, request, timestamp).0;
    lemma_session_unfolds(config, request, timestamp, events);
    lemma_first_hit_fails(state, misses, detail, more);
}

/// A safe request whose candidate paths all miss, because nothing is there or
/// because what is there is not a regular file, is answered with status 200
/// and the fixed acknowledgment. It is never an error. The record holds the
/// head of the request and nothing more.
pub proof fn lemma_missing_file_is_acknowledged(
    config: ConfigView,
    request: RequestView,
    timestamp: Seq<char>,
    results: Seq<ProbeResult>,
    more: Seq<EventView>,
)
    requires
        method_class(request.method) == MethodClass::Safe,
        results.len() == candidate_paths(config.static_root, request.path, config.strategy).len(),
        all_miss(results),
    ensures
        response_to(config, request, timestamp, probe_events(results) + more) == Some(
            acknowledgment(),
        ),
        acknowledgment().status() == 200,
        record_of(config, request, timestamp, probe_events(results) + more) == head_lines(
            timestamp,
            request,
        ),
{
    let events = probe_events(results) + more;
    let state = PipelineView::begin(config, request, timestamp).0;
    lemma_session_unfolds(config, request, timestamp, events);
    lemma_all_misses_are_acknowledged(state, results, more);
}

/// From a body in progress: when the pieces still to come fit under the cap,
/// the request is acknowledged once the body ends, and the whole body is
/// written then.
pub proof fn lemma_body_fits(state: PipelineView, chunks: Seq<Seq<u8>>, more: Seq<EventView>)
    requires
        state.wf(),
        state.stage == Stage::ReadingBody,
        !state.body.rejected,
        state.body.bytes.len() + chunks.flatten().len() <= state.body.limit,
    ensures
        first_response(run(state, body_events(chunks) + more)) == Some(acknowledgment()),
        written(run(state, body_events(chunks) + more)) == body_lines(
            state.body.bytes + chunks.flatten(),
        ),
    decreases chunks.len(),
{
    let events = body_events(chunks) + more;
    let next = state.advance(events.first()).0;
    lemma_run_unfolds(state, events);
    if chunks.len() == 0 {
        lemma_finished_is_silent(next, events.drop_first());
    } else {
        let tail = chunks.drop_first();
        assert(events.drop_first() =~= body_events(tail) + more);
        assert(state.body.bytes + chunks.flatten() =~= next.body.bytes + tail.flatten());
        lemma_body_fits(next, tail, more);
    }
}

/// From a body in progress: when the pieces still to come take it over the
/// cap, the request is rejected. The rejection is written; nothing of the body is.
pub proof fn lemma_body_overflows(state: PipelineView, chunks: Seq<Seq<u8>>, more: Seq<EventView>)
    requires
        state.wf(),
        state.stage == Stage::ReadingBody,
        !state.body.rejected,
        state.body.bytes.len() + chunks.flatten().len() > state.body.limit,
    ensures
        first_response(run(state, chunk_events(chunks) + more)) == Some(body_too_large()),
        written(run(state, chunk_events(chunks) + more)) == seq![rejection_line()],
    decreases chunks.len(),
{
    let events = chunk_events(chunks) + more;
    let next = state.advance(events.first()).0;
    let tail = chunks.drop_first();
    assert(events.drop_first() =~= chunk_events(tail) + more);
    lemma_run_unfolds(state, events);
    if next.body.rejected {
        lemma_finished_is_silent(next, events.drop_first());
    } else {
        lemma_body_overflows(next, tail, more);
    }
}

/// A mutating request whose body is no larger than the cap is answered with
/// status 200, whatever the body holds and however it is cut into pieces. The
/// record is the head of the request followed by the body in its frame.
pub proof fn lemma_body_within_cap_is_acknowledged(
    config: ConfigView,
    request: RequestView,
    timestamp: Seq<char>,
    chunks: Seq<Seq<u8>>,
    more: Seq<EventView>,
)
    requires
        method_class(request.method) == MethodClass::Mutating,
        chunks.flatten().len() <= config.body_limit,
    ensures
        response_to(config, request, timestamp, body_events(chunks) + more) == Some(
            acknowledgment(),
        ),
        acknowledgment().status() == 200,
        record_of(config, request, timestamp, body_events(chunks) + more) == record_lines(
            timestamp,
            request,
            chunks.flatten(),
        ),
{
    let events = body_events(chunks) + more;
    let state = PipelineView::begin(config, request, timestamp).0;
    lemma_session_unfolds(config, request, timestamp, events);
    lemma_body_fits(state, chunks, more);
}

/// A mutating request whose body is larger than the cap is answered with
/// status 400. The record holds the head of the request and the rejection:
/// no part of the body reaches it.
pub proof fn lemma_body_over_cap_is_rejected(
    config: ConfigView,
    request: RequestView,
    timestamp: Seq<char>,
    chunks: Seq<Seq<u8>>,
    more: Seq<EventView>,
)
    requires
        method_class(request.method) == MethodClass::Mutating,
        chunks.flatten().len() > config.body_limit,
    ensures
        response_to(config, request, timestamp, chunk_events(chunks) + more) == Some(
            body_too_large(),
        ),
        body_too_large().status() == 400,
        record_of(config, request, timestamp, chunk_events(chunks) + more) == head_lines(
            timestamp,
            request,
        ).push(rejection_line()),
{
    let events = chunk_events(chunks) + more;
    let state = PipelineView::begin(config, request, timestamp).0;
    lemma_session_unfolds(config, request, timestamp, events);
    lemma_body_overflows(state, chunks, more);
}

/// From any state of a mutating request: no step consults the static root,
/// whatever the driver reports.
pub proof fn lemma_mutating_run_never_consults_root(state: PipelineView, events: Seq<EventView>)
    requires
        state.wf(),
        state.class == MethodClass::Mutating,
    ensures
        forall|i: int|
            0 <= i < events.len() ==> !consults_root(#[trigger] run(state, events)[i]),
    decreases events.len(),
{
    if events.len() > 0 {
        lemma_run_unfolds(state, events);
        lemma_advance_wf(state, events.first());
        lemma_mutating_run_never_consults_root(
            state.advance(events.first()).0,
            events.drop_first(),
        );
    }
}

/// A mutating request never has the static root consulted: not when its body
/// is over the cap, and not otherwise.
pub proof fn lemma_mutating_never_consults_root(
    config: ConfigView,
    request: RequestView,
    timestamp: Seq<char>,
    events: Seq<EventView>,
)
    requires
        method_class(request.method) == MethodClass::Mutating,
    ensures
        forall|i: int|
            0 <= i <= events.len() ==> !consults_root(
                #[trigger] session(config, request, timestamp, events)[i],
            ),
{
    let state = PipelineView::begin(config, request, timestamp).0;
    lemma_session_unfolds(config, request, timestamp, events);
    lemma_mutating_run_never_consults_root(state, events);
}

/// The head of a record, line by line: the request line comes first, then one
/// line per header entry in the order of the entries, each entry on its own
/// line even where names repeat, then the query if there is one that is not
/// empty, and nothing else.
pub proof fn lemma_head_lines_layout(timestamp: Seq<char>, request: RequestView)
    ensures
        ({
            let lines = head_lines(timestamp, request);
            let n = request.headers.len() as int;
            let has_query = request.query is Some && request.query->0.len() > 0;
            &&& lines.len() == 1 + n + if has_query {
                1int
            } else {
                0int
            }
            &&& lines[0] == request_line(timestamp, request.method, request.path)
            &&& forall|i: int|
                0 <= i < n ==> #[trigger] lines[1 + i] == header_line(
                    request.headers[i].0,
                    request.headers[i].1,
                )
            &&& has_query ==> lines[1 + n] == request.query->0
        }),
{
}

/// A whole record, part by part: the head always comes first; the body frame
/// follows it exactly when the body is not empty.
pub proof fn lemma_record_lines_layout(timestamp: Seq<char>, request: RequestView, body: Seq<u8>)
    ensures
        ({
            let head = head_lines(timestamp, request);
            let record = record_lines(timestamp, request, body);
            &&& record.len() == head.len() + body_lines(body).len()
            &&& record.subrange(0, head.len() as int) == head
            &&& record.subrange(head.len() as int, record.len() as int) == body_lines(body)
            &&& body.len() == 0 ==> record == head
            &&& body.len() > 0 ==> body_lines(body).len() == 4
        }),
{
}

/// Asking twice gives the same answer: as long as the driver reports the same,
/// the response and every step after the first are the same whenever the
/// request is made. Only the first line of the record carries the time.
pub proof fn lemma_response_is_repeatable(
    config: ConfigView,
    request: RequestView,
    first_time: Seq<char>,
    second_time: Seq<char>,
    events: Seq<EventView>,
)
    ensures
        response_to(config, request, first_time, events) == response_to(
            config,
            request,
            second_time,
            events,
        ),
        record_of(config, request, first_time, events).drop_first() == record_of(
            config,
            request,
            second_time,
            events,
        ).drop_first(),
        PipelineView::begin(config, request, first_time).0 == PipelineView::begin(
            config,
            request,
            second_time,
        ).0,
        PipelineView::begin(config, request, first_time).1.action == PipelineView::begin(
            config,
            request,
            second_time,
        ).1.action,
{
    lemma_session_unfolds(config, request, first_time, events);
    lemma_session_unfolds(config, request, second_time, events);
}

} // verus!
