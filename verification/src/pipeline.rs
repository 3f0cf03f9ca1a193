//! The run itself: audio in, reply out, as a machine that is told what
//! happened and says what to do next.
//!
//! A run reads the audio file, asks the speech service for its transcript,
//! asks the chat service for a reply to the transcript, and writes the reply
//! to the output file. The first step that fails ends the run; nothing is
//! tried twice and nothing is skipped.

use crate::completion::{completion_request, completion_request_view, reply_from_response, reply_of};
use crate::failure::{Failure, FailureView};
use crate::http::{HttpRequest, HttpRequestView, HttpResponse, HttpResponseView};
use crate::text::encode;
use crate::transcription::{
    transcript_from_response, transcript_of, transcription_request, transcription_request_view,
};
use vstd::prelude::*;
use vstd::utf8::*;

verus! {

/// How a run ended.
#[derive(Debug, PartialEq, Eq)]
pub enum PipelineOutcome {
    /// The reply was written to the output file.
    Success,
    /// The run stopped at its first failure.
    Failure(Failure),
}

/// What a run is given: the bearer token for both services, the file to
/// read the audio from and the file to write the reply to.
#[derive(Debug, PartialEq, Eq)]
pub struct PipelineRequest {
    pub credential: String,
    pub audio_path: String,
    pub output_path: String,
}

/// Where a run stands, by what it is waiting for.
#[derive(Debug, PartialEq, Eq)]
pub enum Phase {
    /// The audio file is being read.
    ReadingAudio,
    /// The speech service has been asked.
    AwaitingTranscript,
    /// The chat service has been asked.
    AwaitingReply,
    /// The reply is being written.
    WritingOutput,
    /// The reply has been written.
    Succeeded,
    /// A step has failed.
    Failed(Failure),
}

/// The stages of a run.
#[derive(Clone, Copy, Debug, PartialEq, Eq, Structural)]
pub enum Stage {
    Transcribing,
    Generating,
    Writing,
    Succeeded,
    Failed,
}

/// A run in progress.
#[derive(Debug, PartialEq, Eq)]
pub struct Pipeline {
    pub credential: String,
    pub output_path: String,
    pub phase: Phase,
}

/// What the caller is to do next.
#[derive(Debug, PartialEq, Eq)]
pub enum Action {
    /// Read the whole file at `path`, and answer with [`Event::AudioRead`].
    ReadAudio { path: String },
    /// Send the request, and answer with [`Event::Response`].
    Send(HttpRequest),
    /// Create the file at `path`, or empty it if it exists, write `contents`
    /// to it, and answer with [`Event::OutputWritten`].
    WriteOutput { path: String, contents: Vec<u8> },
    /// Nothing: the run is over.
    Finish(PipelineOutcome),
}

/// What came of the action that was asked for. An `Err` holds the
/// description of the error that kept the action from being carried out.
#[derive(Debug, PartialEq, Eq)]
pub enum Event {
    AudioRead(Result<Vec<u8>, String>),
    Response(Result<HttpResponse, String>),
    OutputWritten(Result<(), String>),
}

pub enum PipelineOutcomeView {
    Success,
    Failure(FailureView),
}

pub struct PipelineRequestView {
    pub credential: Seq<char>,
    pub audio_path: Seq<char>,
    pub output_path: Seq<char>,
}

pub enum PhaseView {
    ReadingAudio,
    AwaitingTranscript,
    AwaitingReply,
    WritingOutput,
    Succeeded,
    Failed(FailureView),
}

pub struct PipelineView {
    pub credential: Seq<char>,
    pub output_path: Seq<char>,
    pub phase: PhaseView,
}

pub enum ActionView {
    ReadAudio { path: Seq<char> },
    Send(HttpRequestView),
    WriteOutput { path: Seq<char>, contents: Seq<u8> },
    Finish(PipelineOutcomeView),
}

pub enum EventView {
    AudioRead(Result<Seq<u8>, Seq<char>>),
    Response(Result<HttpResponseView, Seq<char>>),
    OutputWritten(Result<(), Seq<char>>),
}

impl View for PipelineOutcome {
    type V = PipelineOutcomeView;

    open spec fn view(&self) -> PipelineOutcomeView {
        match self {
            PipelineOutcome::Success => PipelineOutcomeView::Success,
            PipelineOutcome::Failure(failure) => PipelineOutcomeView::Failure(failure@),
        }
    }
}

impl View for PipelineRequest {
    type V = PipelineRequestView;

    open spec fn view(&self) -> PipelineRequestView {
        PipelineRequestView {
            credential: self.credential@,
            audio_path: self.audio_path@,
            output_path: self.output_path@,
        }
    }
}

impl View for Phase {
    type V = PhaseView;

    open spec fn view(&self) -> PhaseView {
        match self {
            Phase::ReadingAudio => PhaseView::ReadingAudio,
            Phase::AwaitingTranscript => PhaseView::AwaitingTranscript,
            Phase::AwaitingReply => PhaseView::AwaitingReply,
            Phase::WritingOutput => PhaseView::WritingOutput,
            Phase::Succeeded => PhaseView::Succeeded,
            Phase::Failed(failure) => PhaseView::Failed(failure@),
        }
    }
}

impl View for Pipeline {
    type V = PipelineView;

    open spec fn view(&self) -> PipelineView {
        PipelineView {
            credential: self.credential@,
            output_path: self.output_path@,
            phase: self.phase@,
        }
    }
}

impl View for Action {
    type V = ActionView;

    open spec fn view(&self) -> ActionView {
        match self {
            Action::ReadAudio { path } => ActionView::ReadAudio { path: path@ },
            Action::Send(request) => ActionView::Send(request@),
            Action::WriteOutput { path, contents } => ActionView::WriteOutput {
                path: path@,
                contents: contents@,
            },
            Action::Finish(outcome) => ActionView::Finish(outcome@),
        }
    }
}

impl View for Event {
    type V = EventView;

    open spec fn view(&self) -> EventView {
        match self {
            Event::AudioRead(Ok(audio)) => EventView::AudioRead(Ok(audio@)),
            Event::AudioRead(Err(description)) => EventView::AudioRead(Err(description@)),
            Event::Response(Ok(response)) => EventView::Response(Ok(response@)),
            Event::Response(Err(description)) => EventView::Response(Err(description@)),
            Event::OutputWritten(Ok(())) => EventView::OutputWritten(Ok(())),
            Event::OutputWritten(Err(description)) => EventView::OutputWritten(Err(description@)),
        }
    }
}

impl PhaseView {
    /// The stage that this phase belongs to.
    pub open spec fn stage(self) -> Stage {
        match self {
            PhaseView::ReadingAudio => Stage::Transcribing,
            PhaseView::AwaitingTranscript => Stage::Transcribing,
            PhaseView::AwaitingReply => Stage::Generating,
            PhaseView::WritingOutput => Stage::Writing,
            PhaseView::Succeeded => Stage::Succeeded,
            PhaseView::Failed(_) => Stage::Failed,
        }
    }

    /// Whether the run is over.
    pub open spec fn is_terminal(self) -> bool {
        self is Succeeded || self is Failed
    }

    /// How far along a run in this phase is: the number of steps behind it,
    /// where a run that is over counts as having taken all four.
    pub open spec fn rank(self) -> nat {
        match self {
            PhaseView::ReadingAudio => 0,
            PhaseView::AwaitingTranscript => 1,
            PhaseView::AwaitingReply => 2,
            PhaseView::WritingOutput => 3,
            PhaseView::Succeeded => 4,
            PhaseView::Failed(_) => 4,
        }
    }
}

impl PipelineView {
    /// The run as it begins.
    pub open spec fn begin(request: PipelineRequestView) -> PipelineView {
        PipelineView {
            credential: request.credential,
            output_path: request.output_path,
            phase: PhaseView::ReadingAudio,
        }
    }

    /// This run, moved on to `phase`.
    pub open spec fn at(self, phase: PhaseView) -> PipelineView {
        PipelineView { phase, ..self }
    }

    /// This run, ended by `failure`, and the action that says so.
    pub open spec fn fail(self, failure: FailureView) -> (PipelineView, ActionView) {
        (
            self.at(PhaseView::Failed(failure)),
            ActionView::Finish(PipelineOutcomeView::Failure(failure)),
        )
    }

    /// The run after `event`, and the action that it asks for then.
    ///
    /// While the run goes on, the event that answers the pending action
    /// moves it one step: on success to the next phase and its action, on
    /// failure to its end. Any other event ends it as out of order. Once the
    /// run is over it stays as it is, whatever comes.
    pub open spec fn step(self, event: EventView) -> (PipelineView, ActionView) {
        match self.phase {
            PhaseView::ReadingAudio => match event {
                EventView::AudioRead(Ok(audio)) => (
                    self.at(PhaseView::AwaitingTranscript),
                    ActionView::Send(transcription_request_view(self.credential, audio)),
                ),
                EventView::AudioRead(Err(description)) => self.fail(FailureView::Io(description)),
                _ => self.fail(FailureView::OutOfOrder),
            },
            PhaseView::AwaitingTranscript => match event {
                EventView::Response(Ok(response)) => match transcript_of(response) {
                    Ok(transcript) => (
                        self.at(PhaseView::AwaitingReply),
                        ActionView::Send(completion_request_view(self.credential, transcript)),
                    ),
                    Err(failure) => self.fail(failure),
                },
                EventView::Response(Err(description)) => self.fail(
                    FailureView::Transport(description),
                ),
                _ => self.fail(FailureView::OutOfOrder),
            },
            PhaseView::AwaitingReply => match event {
                EventView::Response(Ok(response)) => match reply_of(response) {
                    Ok(reply) => (
                        self.at(PhaseView::WritingOutput),
                        ActionView::WriteOutput {
                            path: self.output_path,
                            contents: encode_utf8(reply),
                        },
                    ),
                    Err(failure) => self.fail(failure),
                },
                EventView::Response(Err(description)) => self.fail(
                    FailureView::Transport(description),
                ),
                _ => self.fail(FailureView::OutOfOrder),
            },
            PhaseView::WritingOutput => match event {
                EventView::OutputWritten(Ok(())) => (
                    self.at(PhaseView::Succeeded),
                    ActionView::Finish(PipelineOutcomeView::Success),
                ),
                EventView::OutputWritten(Err(description)) => self.fail(
                    FailureView::Io(description),
                ),
                _ => self.fail(FailureView::OutOfOrder),
            },
            PhaseView::Succeeded => (self, ActionView::Finish(PipelineOutcomeView::Success)),
            PhaseView::Failed(failure) => (
                self,
                ActionView::Finish(PipelineOutcomeView::Failure(failure)),
            ),
        }
    }
}

impl Pipeline {
    /// Begins a run: the first thing to do is to read the audio file.
    pub fn start(request: PipelineRequest) -> (started: (Pipeline, Action))
        ensures
            started.0@ == PipelineView::begin(request@),
            started.1@ == (ActionView::ReadAudio { path: request.audio_path@ }),
    {
        let pipeline = Pipeline {
            credential: request.credential,
            output_path: request.output_path,
            phase: Phase::ReadingAudio,
        };
        (pipeline, Action::ReadAudio { path: request.audio_path })
    }

    /// The stage the run is in.
    pub fn stage(&self) -> (stage: Stage)
        ensures
            stage == self@.phase.stage(),
    {
        match self.phase {
            Phase::ReadingAudio => Stage::Transcribing,
            Phase::AwaitingTranscript => Stage::Transcribing,
            Phase::AwaitingReply => Stage::Generating,
            Phase::WritingOutput => Stage::Writing,
            Phase::Succeeded => Stage::Succeeded,
            Phase::Failed(_) => Stage::Failed,
        }
    }

    /// Ends the run with `failure`.
    fn fail(self, failure: Failure) -> (ended: (Pipeline, Action))
        ensures
            (ended.0@, ended.1@) == self@.fail(failure@),
    {
        let outcome = PipelineOutcome::Failure(failure.clone());
        (
            Pipeline {
                credential: self.credential,
                output_path: self.output_path,
                phase: Phase::Failed(failure),
            },
            Action::Finish(outcome),
        )
    }

    /// Moves the run to `phase`.
    fn at(self, phase: Phase) -> (moved: Pipeline)
        ensures
            moved@ == self@.at(phase@),
    {
        Pipeline { credential: self.credential, output_path: self.output_path, phase }
    }

    /// Takes what came of the last action and says what to do next.
    pub fn step(self, event: Event) -> (next: (Pipeline, Action))
        ensures
            (next.0@, next.1@) == self@.step(event@),
    {
        match &self.phase {
            Phase::ReadingAudio => match event {
                Event::AudioRead(Ok(audio)) => {
                    let request = transcription_request(self.credential.as_str(), audio);
                    (self.at(Phase::AwaitingTranscript), Action::Send(request))
                },
                Event::AudioRead(Err(description)) => self.fail(Failure::Io(description)),
                _ => self.fail(Failure::OutOfOrder),
            },
            Phase::AwaitingTranscript => match event {
                Event::Response(Ok(response)) => match transcript_from_response(&response) {
                    Ok(transcript) => {
                        let request = completion_request(self.credential.as_str(), transcript.as_str());
                        (self.at(Phase::AwaitingReply), Action::Send(request))
                    },
                    Err(failure) => self.fail(failure),
                },
                Event::Response(Err(description)) => self.fail(Failure::Transport(description)),
                _ => self.fail(Failure::OutOfOrder),
            },
            Phase::AwaitingReply => match event {
                Event::Response(Ok(response)) => match reply_from_response(&response) {
                    Ok(reply) => {
                        let contents = encode(reply.as_str());
                        let path = self.output_path.clone();
                        (self.at(Phase::WritingOutput), Action::WriteOutput { path, contents })
                    },
                    Err(failure) => self.fail(failure),
                },
                Event::Response(Err(description)) => self.fail(Failure::Transport(description)),
                _ => self.fail(Failure::OutOfOrder),
            },
            Phase::WritingOutput => match event {
                Event::OutputWritten(Ok(())) => (
                    self.at(Phase::Succeeded),
                    Action::Finish(PipelineOutcome::Success),
                ),
                Event::OutputWritten(Err(description)) => self.fail(Failure::Io(description)),
                _ => self.fail(Failure::OutOfOrder),
            },
            Phase::Succeeded => (self, Action::Finish(PipelineOutcome::Success)),
            Phase::Failed(failure) => {
                let outcome = PipelineOutcome::Failure(failure.clone());
                (self, Action::Finish(outcome))
            },
        }
    }
}

} // verus!
