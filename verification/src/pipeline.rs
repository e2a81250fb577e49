//! The pipeline of one request: observe, resolve if the method is safe, decide.
//!
//! The pipeline does no input or output itself. It is a state machine: each
//! step hands out the lines to write and the next thing to do, and takes back
//! what came of it. Whoever drives it reads the body, looks at the file system
//! and sends the response.

use vstd::prelude::*;
use crate::body::{CaptureView, CapturedBody};
use crate::config::{ConfigView, PipelineConfig};
use crate::media::{content_type_for, media_type_of};
use crate::observe::{
    body_lines,
    failure_line,
    head_lines,
    local_timestamp,
    observe_body,
    observe_head,
    rejection_line,
    render_failure_line,
    render_rejection_line,
};
use crate::outcome::{
    acknowledgment,
    body_too_large,
    file_read_failure,
    FileView,
    OutcomeView,
    ResolvedFile,
    ResponseOutcome,
};
use crate::request::{method_class, IncomingRequest, MethodClass, RequestView};
use crate::resolve::{candidate_paths, ProbeResult};

verus! {

/// Where a request stands in the pipeline.
#[derive(Clone, Copy, Debug, PartialEq, Eq, Structural)]
pub enum Stage {
    /// The body of a mutating request is being read.
    ReadingBody,
    /// A candidate path of a safe request is being looked up.
    Probing,
    /// A candidate path was found to be a regular file and is being read.
    ReadingFile,
    /// The request is done: it was answered, or given up.
    Finished,
}

/// What came of the last thing the pipeline asked for.
#[derive(Clone, Debug, PartialEq, Eq)]
pub enum Event {
    /// The next piece of the body.
    Chunk(Vec<u8>),
    /// The body has ended.
    EndOfBody,
    /// The client has gone away. Nothing more will come of this request.
    Disconnected,
    /// What the file system says of the path that was to be looked up.
    Probed(ProbeResult),
    /// The file that was to be read: its content, and when it was last
    /// modified as the file system reports it.
    FileLoaded { bytes: Vec<u8>, last_modified: String },
    /// The file could not be read; the text says why.
    FileFailed(String),
}

/// Mathematical content of an [`Event`].
pub ghost enum EventView {
    Chunk(Seq<u8>),
    EndOfBody,
    Disconnected,
    Probed(ProbeResult),
    FileLoaded { bytes: Seq<u8>, last_modified: Seq<char> },
    FileFailed(Seq<char>),
}

impl View for Event {
    type V = EventView;

    open spec fn view(&self) -> EventView {
        match self {
            Event::Chunk(bytes) => EventView::Chunk(bytes@),
            Event::EndOfBody => EventView::EndOfBody,
            Event::Disconnected => EventView::Disconnected,
            Event::Probed(result) => EventView::Probed(*result),
            Event::FileLoaded { bytes, last_modified } => EventView::FileLoaded {
                bytes: bytes@,
                last_modified: last_modified@,
            },
            Event::FileFailed(detail) => EventView::FileFailed(detail@),
        }
    }
}

/// What the pipeline asks its driver to do next.
#[derive(Clone, Debug, PartialEq, Eq)]
pub enum Action {
    /// Read the next piece of the body and report it.
    ReadBody,
    /// Look up this path and report what is there.
    Probe(String),
    /// Read the file at this path and report it.
    ReadFile(String),
    /// Send this response. The request is done.
    Respond(ResponseOutcome),
    /// Send nothing. The request is done.
    Close,
}

/// Mathematical content of an [`Action`].
pub ghost enum ActionView {
    ReadBody,
    Probe(Seq<char>),
    ReadFile(Seq<char>),
    Respond(OutcomeView),
    Close,
}

impl View for Action {
    type V = ActionView;

    open spec fn view(&self) -> ActionView {
        match self {
            Action::ReadBody => ActionView::ReadBody,
            Action::Probe(path) => ActionView::Probe(path@),
            Action::ReadFile(path) => ActionView::ReadFile(path@),
            Action::Respond(outcome) => ActionView::Respond(outcome@),
            Action::Close => ActionView::Close,
        }
    }
}

/// One step of the pipeline: lines to write out, then an action to take.
#[derive(Clone, Debug, PartialEq, Eq)]
pub struct Step {
    /// Lines of the diagnostic record, to be written before the action is taken.
    pub log: Vec<String>,
    /// What to do next.
    pub action: Action,
}

/// Mathematical content of a [`Step`].
pub ghost struct StepView {
    pub log: Seq<Seq<char>>,
    pub action: ActionView,
}

impl View for Step {
    type V = StepView;

    open spec fn view(&self) -> StepView {
        StepView { log: self.log.deep_view(), action: self.action@ }
    }
}

impl StepView {
    /// A step that writes nothing.
    pub open spec fn quiet(action: ActionView) -> StepView {
        StepView { log: Seq::empty(), action }
    }
}

/// Mathematical content of a [`Pipeline`].
pub ghost struct PipelineView {
    /// The class of the request's method.
    pub class: MethodClass,
    /// The candidate paths that have not missed yet. The first is the one in hand.
    pub pending: Seq<Seq<char>>,
    /// The body as captured so far.
    pub body: CaptureView,
    /// Where the request stands.
    pub stage: Stage,
}

impl PipelineView {
    /// What always holds of a pipeline: only mutating requests read a body,
    /// only safe requests touch the static root, and a path is in hand
    /// whenever the static root is being consulted.
    pub open spec fn wf(self) -> bool {
        &&& self.body.wf()
        &&& self.stage == Stage::ReadingBody ==> self.class == MethodClass::Mutating
        &&& self.stage == Stage::Probing || self.stage == Stage::ReadingFile ==> {
            &&& self.class == MethodClass::Safe
            &&& self.pending.len() > 0
        }
    }

    /// The same pipeline, done.
    pub open spec fn finished(self) -> PipelineView {
        PipelineView { stage: Stage::Finished, ..self }
    }

    /// The request given up: it is done, and nothing is sent.
    pub open spec fn given_up(self) -> (PipelineView, StepView) {
        (self.finished(), StepView::quiet(ActionView::Close))
    }

    /// The start of the pipeline for a request: the head of the record is
    /// written, then a mutating request has its body read and a safe request
    /// has its first candidate path looked up.
    pub open spec fn begin(config: ConfigView, request: RequestView, timestamp: Seq<char>) -> (
        PipelineView,
        StepView,
    ) {
        let log = head_lines(timestamp, request);
        match method_class(request.method) {
            MethodClass::Mutating => (
                PipelineView {
                    class: MethodClass::Mutating,
                    pending: Seq::empty(),
                    body: CaptureView::empty(config.body_limit),
                    stage: Stage::ReadingBody,
                },
                StepView { log, action: ActionView::ReadBody },
            ),
            MethodClass::Safe => {
                let paths = candidate_paths(config.static_root, request.path, config.strategy);
                (
                    PipelineView {
                        class: MethodClass::Safe,
                        pending: paths,
                        body: CaptureView::empty(config.body_limit),
                        stage: Stage::Probing,
                    },
                    StepView { log, action: ActionView::Probe(paths[0]) },
                )
            },
        }
    }

    /// The transition while a body is read.
    pub open spec fn on_body(self, event: EventView) -> (PipelineView, StepView) {
        match event {
            EventView::Chunk(bytes) => {
                let body = self.body.push(bytes);
                if body.rejected {
                    (
                        PipelineView { body, ..self }.finished(),
                        StepView {
                            log: seq![rejection_line()],
                            action: ActionView::Respond(body_too_large()),
                        },
                    )
                } else {
                    (PipelineView { body, ..self }, StepView::quiet(ActionView::ReadBody))
                }
            },
            EventView::EndOfBody => (
                self.finished(),
                StepView {
                    log: body_lines(self.body.bytes),
                    action: ActionView::Respond(acknowledgment()),
                },
            ),
            _ => self.given_up(),
        }
    }

    /// The transition while a candidate path is looked up.
    pub open spec fn on_probe(self, event: EventView) -> (PipelineView, StepView) {
        match event {
            EventView::Probed(result) => {
                if result.resolves() {
                    (
                        PipelineView { stage: Stage::ReadingFile, ..self },
                        StepView::quiet(ActionView::ReadFile(self.pending[0])),
                    )
                } else {
                    let rest = self.pending.drop_first();
                    if rest.len() > 0 {
                        (
                            PipelineView { pending: rest, ..self },
                            StepView::quiet(ActionView::Probe(rest[0])),
                        )
                    } else {
                        (
                            PipelineView { pending: rest, ..self }.finished(),
                            StepView::quiet(ActionView::Respond(acknowledgment())),
                        )
                    }
                }
            },
            _ => self.given_up(),
        }
    }

    /// The file in hand as it is served: its bytes and modification time as
    /// reported, and the content type that its path stands for.
    pub open spec fn resolved(self, bytes: Seq<u8>, last_modified: Seq<char>) -> FileView {
        FileView { bytes, content_type: media_type_of(self.pending[0]), last_modified }
    }

    /// The transition while a resolved file is read.
    pub open spec fn on_file(self, event: EventView) -> (PipelineView, StepView) {
        match event {
            EventView::FileLoaded { bytes, last_modified } => (
                self.finished(),
                StepView::quiet(
                    ActionView::Respond(
                        OutcomeView::ServedFile(self.resolved(bytes, last_modified)),
                    ),
                ),
            ),
            EventView::FileFailed(detail) => (
                self.finished(),
                StepView {
                    log: seq![failure_line(detail)],
                    action: ActionView::Respond(file_read_failure()),
                },
            ),
            _ => self.given_up(),
        }
    }

    /// The transition function: the next state and the step to take, for every
    /// state and every event. Nothing is tried twice: an event that does not
    /// answer what was asked for, such as the client going away, ends the
    /// request with nothing sent. A finished pipeline stays finished.
    pub open spec fn advance(self, event: EventView) -> (PipelineView, StepView) {
        match self.stage {
            Stage::ReadingBody => self.on_body(event),
            Stage::Probing => self.on_probe(event),
            Stage::ReadingFile => self.on_file(event),
            Stage::Finished => self.given_up(),
        }
    }
}

impl Step {
    /// A step that writes nothing.
    pub fn quiet(action: Action) -> (step: Step)
        ensures
            step@ == StepView::quiet(action@),
    {
        let step = Step { log: Vec::new(), action };
        assert(step.log.deep_view() =~= Seq::empty());
        step
    }
}

/// The state of one request in the pipeline.
#[derive(Debug)]
pub struct Pipeline {
    class: MethodClass,
    candidates: Vec<String>,
    cursor: usize,
    body: CapturedBody,
    stage: Stage,
}

impl View for Pipeline {
    type V = PipelineView;

    closed spec fn view(&self) -> PipelineView {
        PipelineView {
            class: self.class,
            pending: self.candidates.deep_view().skip(self.cursor as int),
            body: self.body@,
            stage: self.stage,
        }
    }
}

impl Pipeline {
    #[verifier::type_invariant]
    spec fn inv(&self) -> bool {
        &&& self.cursor <= self.candidates.len()
        &&& self@.wf()
    }

    /// Starts the pipeline for a request that arrived at the given time.
    pub fn begin(config: &PipelineConfig, request: &IncomingRequest, timestamp: &str) -> (start: (
        Pipeline,
        Step,
    ))
        ensures
            (start.0@, start.1@) == PipelineView::begin(config@, request@, timestamp@),
            start.0@.wf(),
    {
        let log = observe_head(request, timestamp);
        let body = CapturedBody::new(config.body_limit);
        match request.class() {
            MethodClass::Mutating => {
                let pipeline = Pipeline {
                    class: MethodClass::Mutating,
                    candidates: Vec::new(),
                    cursor: 0,
                    body,
                    stage: Stage::ReadingBody,
                };
                assert(pipeline@.pending =~= Seq::empty());
                (pipeline, Step { log, action: Action::ReadBody })
            },
            MethodClass::Safe => {
                let paths = config.static_root.candidates(request.path.as_str(), &config.strategy);
                let first = paths[0].clone();
                let pipeline = Pipeline {
                    class: MethodClass::Safe,
                    candidates: paths,
                    cursor: 0,
                    body,
                    stage: Stage::Probing,
                };
                assert(pipeline@.pending =~= candidate_paths(
                    config@.static_root,
                    request@.path,
                    config@.strategy,
                ));
                (pipeline, Step { log, action: Action::Probe(first) })
            },
        }
    }

    /// Starts the pipeline for a request that arrives now. The time stamp is
    /// read from the clock, so the contract holds for some time stamp.
    pub fn begin_now(config: &PipelineConfig, request: &IncomingRequest) -> (start: (
        Pipeline,
        Step,
    ))
        ensures
            exists|timestamp: Seq<char>|
                (start.0@, start.1@) == #[trigger] PipelineView::begin(
                    config@,
                    request@,
                    timestamp,
                ),
            start.0@.wf(),
    {
        let stamp = local_timestamp();
        Pipeline::begin(config, request, stamp.as_str())
    }

    /// Where the request stands.
    pub fn stage(&self) -> (stage: Stage)
        ensures
            stage == self@.stage,
            self@.wf(),
    {
        proof {
            use_type_invariant(self);
        }
        self.stage
    }

    /// The class of the request's method.
    pub fn class(&self) -> (class: MethodClass)
        ensures
            class == self@.class,
    {
        self.class
    }

    /// Whether the request is done.
    pub fn is_finished(&self) -> (done: bool)
        ensures
            done == (self@.stage == Stage::Finished),
    {
        match self.stage {
            Stage::Finished => true,
            _ => false,
        }
    }

    /// Marks the request as done.
    fn finish(self) -> (done: Pipeline)
        ensures
            done@ == self@.finished(),
    {
        proof {
            use_type_invariant(&self);
        }
        Pipeline { stage: Stage::Finished, ..self }
    }

    /// Ends the request with nothing sent.
    fn give_up(self) -> (next: (Pipeline, Step))
        ensures
            (next.0@, next.1@) == self@.given_up(),
    {
        (self.finish(), Step::quiet(Action::Close))
    }

    /// Takes in an event while a body is read.
    fn on_body(self, event: Event) -> (next: (Pipeline, Step))
        requires
            self@.stage == Stage::ReadingBody,
        ensures
            (next.0@, next.1@) == self@.on_body(event@),
    {
        proof {
            use_type_invariant(&self);
        }
        match event {
            Event::Chunk(bytes) => {
                let Pipeline { class, candidates, cursor, body, stage } = self;
                let mut body = body;
                body.push(bytes.as_slice());
                if body.is_rejected() {
                    let pipeline = Pipeline {
                        class,
                        candidates,
                        cursor,
                        body,
                        stage: Stage::Finished,
                    };
                    let mut log: Vec<String> = Vec::new();
                    log.push(render_rejection_line());
                    assert(log.deep_view() =~= seq![rejection_line()]);
                    let action = Action::Respond(ResponseOutcome::too_large());
                    (pipeline, Step { log, action })
                } else {
                    let pipeline = Pipeline { class, candidates, cursor, body, stage };
                    (pipeline, Step::quiet(Action::ReadBody))
                }
            },
            Event::EndOfBody => {
                let log = observe_body(self.body.bytes());
                let action = Action::Respond(ResponseOutcome::acknowledged());
                (self.finish(), Step { log, action })
            },
            _ => self.give_up(),
        }
    }

    /// Takes in an event while a candidate path is looked up.
    fn on_probe(self, event: Event) -> (next: (Pipeline, Step))
        requires
            self@.stage == Stage::Probing,
        ensures
            (next.0@, next.1@) == self@.on_probe(event@),
    {
        proof {
            use_type_invariant(&self);
        }
        match event {
            Event::Probed(result) => {
                let path = self.candidates[self.cursor].clone();
                let Pipeline { class, candidates, cursor, body, stage } = self;
                let ghost paths = candidates.deep_view();
                assert(paths.skip(cursor as int).drop_first() =~= paths.skip(cursor + 1));
                match result {
                    ProbeResult::RegularFile => {
                        let pipeline = Pipeline {
                            class,
                            candidates,
                            cursor,
                            body,
                            stage: Stage::ReadingFile,
                        };
                        (pipeline, Step::quiet(Action::ReadFile(path)))
                    },
                    _ => {
                        let cursor = cursor + 1;
                        if cursor < candidates.len() {
                            let path = candidates[cursor].clone();
                            let pipeline = Pipeline { class, candidates, cursor, body, stage };
                            (pipeline, Step::quiet(Action::Probe(path)))
                        } else {
                            let pipeline = Pipeline {
                                class,
                                candidates,
                                cursor,
                                body,
                                stage: Stage::Finished,
                            };
                            (
                                pipeline,
                                Step::quiet(Action::Respond(ResponseOutcome::acknowledged())),
                            )
                        }
                    },
                }
            },
            _ => self.give_up(),
        }
    }

    /// Takes in an event while a resolved file is read.
    fn on_file(self, event: Event) -> (next: (Pipeline, Step))
        requires
            self@.stage == Stage::ReadingFile,
        ensures
            (next.0@, next.1@) == self@.on_file(event@),
    {
        proof {
            use_type_invariant(&self);
        }
        match event {
            Event::FileLoaded { bytes, last_modified } => {
                let content_type = content_type_for(self.candidates[self.cursor].as_str());
                let file = ResolvedFile { bytes, content_type, last_modified };
                (self.finish(), Step::quiet(Action::Respond(ResponseOutcome::ServedFile(file))))
            },
            Event::FileFailed(detail) => {
                let mut log: Vec<String> = Vec::new();
                log.push(render_failure_line(detail.as_str()));
                assert(log.deep_view() =~= seq![failure_line(detail@)]);
                let action = Action::Respond(ResponseOutcome::read_failure());
                (self.finish(), Step { log, action })
            },
            _ => self.give_up(),
        }
    }

    /// Takes in what came of the last action and says what to do next.
    pub fn advance(self, event: Event) -> (next: (Pipeline, Step))
        ensures
            (next.0@, next.1@) == self@.advance(event@),
            next.0@.wf(),
    {
        let next = match self.stage {
            Stage::ReadingBody => self.on_body(event),
            Stage::Probing => self.on_probe(event),
            Stage::ReadingFile => self.on_file(event),
            Stage::Finished => self.give_up(),
        };
        proof {
            use_type_invariant(&next.0);
        }
        next
    }
}

} // verus!
