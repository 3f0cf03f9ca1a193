//! Whole runs: everything the machine asks for as the events of a run come
//! in, and what therefore holds of every run.

use crate::completion::{completion_request_view, reply_of};
use crate::failure::{Expected, FailureView};
use crate::http::{is_success, HttpResponseView};
use crate::json::{json_document, JsonView};
use crate::pipeline::{
    ActionView, EventView, PhaseView, PipelineOutcomeView, PipelineRequestView, PipelineView,
};
use crate::text::lossy_text;
use crate::transcription::{transcript_of, transcription_request_view};
use vstd::prelude::*;
use vstd::utf8::*;

verus! {

/// The actions that a run in state `pipeline` asks for, one for each of
/// `events` as they arrive in order.
pub open spec fn actions(pipeline: PipelineView, events: Seq<EventView>) -> Seq<ActionView>
    decreases events.len(),
{
    if events.len() == 0 {
        Seq::empty()
    } else {
        seq![pipeline.step(events[0]).1] + actions(
            pipeline.step(events[0]).0,
            events.drop_first(),
        )
    }
}

/// Everything that a run of `request` asks for when `events` is what
/// happens: to read the audio file, and then one action for each event.
pub open spec fn run(request: PipelineRequestView, events: Seq<EventView>) -> Seq<ActionView> {
    seq![ActionView::ReadAudio { path: request.audio_path }] + actions(
        PipelineView::begin(request),
        events,
    )
}

/// The outcome that a run which is over reports.
pub open spec fn outcome(phase: PhaseView) -> PipelineOutcomeView
    recommends
        phase.is_terminal(),
{
    match phase {
        PhaseView::Failed(failure) => PipelineOutcomeView::Failure(failure),
        _ => PipelineOutcomeView::Success,
    }
}

/// Whether, from the action at index `from` on, each of `all` only reports
/// that the run is over, with this outcome: none of them reads, sends or
/// writes.
pub open spec fn over_from(all: Seq<ActionView>, from: int, end: PipelineOutcomeView) -> bool {
    forall|i: int| from <= i < all.len() ==> #[trigger] all[i] == ActionView::Finish(end)
}

/// The actions for `first` followed by `rest` are the action for `first`,
/// then those that the next state gives for `rest`.
proof fn lemma_actions_unfold(pipeline: PipelineView, first: EventView, rest: Seq<EventView>)
    ensures
        actions(pipeline, seq![first] + rest) == seq![pipeline.step(first).1] + actions(
            pipeline.step(first).0,
            rest,
        ),
{
    let events = seq![first] + rest;
    assert(events.drop_first() =~= rest);
}

/// A run asks for exactly one action in answer to each event.
pub proof fn law_one_action_per_event(pipeline: PipelineView, events: Seq<EventView>)
    ensures
        actions(pipeline, events).len() == events.len(),
    decreases events.len(),
{
    if events.len() > 0 {
        law_one_action_per_event(pipeline.step(events[0]).0, events.drop_first());
    }
}

/// A run that is over asks for nothing more: whatever events still come,
/// each is answered with the outcome that the run ended with.
pub proof fn law_over_stays_over(pipeline: PipelineView, events: Seq<EventView>)
    requires
        pipeline.phase.is_terminal(),
    ensures
        over_from(actions(pipeline, events), 0, outcome(pipeline.phase)),
    decreases events.len(),
{
    if events.len() > 0 {
        law_over_stays_over(pipeline, events.drop_first());
    }
}

/// No step is taken twice and none is left out: an event moves a run that
/// goes on to the next phase or to its end, and leaves a run that is over as
/// it is.
pub proof fn law_each_event_moves_on(pipeline: PipelineView, event: EventView)
    ensures
        pipeline.phase.is_terminal() ==> pipeline.step(event).0 == pipeline,
        !pipeline.phase.is_terminal() ==> {
            ||| pipeline.step(event).0.phase.rank() == pipeline.phase.rank() + 1
            ||| pipeline.step(event).0.phase is Failed
        },
{
}

/// What a run asks for tells where it stands. The speech service is asked
/// only once the audio was read, and for the transcript of that audio; the
/// chat service only once a transcript was read, and for a reply to that
/// transcript; a write is asked for only once a reply was read, and of that
/// reply to the output file; and the end is announced exactly when the run
/// is over.
pub proof fn law_action_fits_phase(pipeline: PipelineView, event: EventView)
    ensures
        match pipeline.step(event).1 {
            ActionView::ReadAudio { .. } => false,
            ActionView::Send(request) => {
                ||| {
                    &&& pipeline.phase is ReadingAudio
                    &&& event matches EventView::AudioRead(Ok(audio))
                    &&& request == transcription_request_view(pipeline.credential, audio)
                    &&& pipeline.step(event).0.phase is AwaitingTranscript
                }
                ||| {
                    &&& pipeline.phase is AwaitingTranscript
                    &&& event matches EventView::Response(Ok(heard))
                    &&& transcript_of(heard) matches Ok(transcript)
                    &&& request == completion_request_view(pipeline.credential, transcript)
                    &&& pipeline.step(event).0.phase is AwaitingReply
                }
            },
            ActionView::WriteOutput { path, contents } => {
                &&& pipeline.phase is AwaitingReply
                &&& event matches EventView::Response(Ok(answered))
                &&& reply_of(answered) matches Ok(reply)
                &&& path == pipeline.output_path
                &&& contents == encode_utf8(reply)
                &&& pipeline.step(event).0.phase is WritingOutput
            },
            ActionView::Finish(end) => {
                &&& pipeline.step(event).0.phase.is_terminal()
                &&& end == outcome(pipeline.step(event).0.phase)
            },
        },
{
}

/// Where the audio is read, both services answer with what was asked of
/// them and the output file can be written, the run asks for the audio file,
/// then for the transcript of the audio, then for a reply to that
/// transcript, then for the reply to be written to the output file, and ends
/// in success. What it has written is the reply in UTF-8 and nothing else:
/// the bytes decode to the reply again.
pub proof fn law_reply_is_written_unchanged(
    request: PipelineRequestView,
    audio: Seq<u8>,
    heard: HttpResponseView,
    answered: HttpResponseView,
)
    requires
        transcript_of(heard) is Ok,
        reply_of(answered) is Ok,
    ensures
        run(
            request,
            seq![
                EventView::AudioRead(Ok(audio)),
                EventView::Response(Ok(heard)),
                EventView::Response(Ok(answered)),
                EventView::OutputWritten(Ok(())),
            ],
        ) == seq![
            ActionView::ReadAudio { path: request.audio_path },
            ActionView::Send(transcription_request_view(request.credential, audio)),
            ActionView::Send(
                completion_request_view(request.credential, transcript_of(heard)->Ok_0),
            ),
            ActionView::WriteOutput {
                path: request.output_path,
                contents: encode_utf8(reply_of(answered)->Ok_0),
            },
            ActionView::Finish(PipelineOutcomeView::Success),
        ],
        valid_utf8(encode_utf8(reply_of(answered)->Ok_0)),
        decode_utf8(encode_utf8(reply_of(answered)->Ok_0)) == reply_of(answered)->Ok_0,
{
    let begun = PipelineView::begin(request);
    let e0 = EventView::AudioRead(Ok(audio));
    let e1 = EventView::Response(Ok(heard));
    let e2 = EventView::Response(Ok(answered));
    let e3 = EventView::OutputWritten(Ok(()));
    let s1 = begun.step(e0).0;
    let s2 = s1.step(e1).0;
    let s3 = s2.step(e2).0;
    lemma_actions_unfold(begun, e0, seq![e1, e2, e3]);
    lemma_actions_unfold(s1, e1, seq![e2, e3]);
    lemma_actions_unfold(s2, e2, seq![e3]);
    lemma_actions_unfold(s3, e3, Seq::empty());
    assert(seq![e0] + seq![e1, e2, e3] =~= seq![e0, e1, e2, e3]);
    assert(seq![e1] + seq![e2, e3] =~= seq![e1, e2, e3]);
    assert(seq![e2] + seq![e3] =~= seq![e2, e3]);
    assert(run(request, seq![e0, e1, e2, e3]) =~= seq![
        ActionView::ReadAudio { path: request.audio_path },
        begun.step(e0).1,
        s1.step(e1).1,
        s2.step(e2).1,
        s3.step(e3).1,
    ]);
    encode_utf8_valid_utf8(reply_of(answered)->Ok_0);
    encode_utf8_decode_utf8(reply_of(answered)->Ok_0);
}

/// Where the audio file cannot be read, the run ends at once with that
/// failure: after the attempt to read it nothing is sent and nothing is
/// written, whatever comes after.
pub proof fn law_unreadable_audio_ends_the_run(
    request: PipelineRequestView,
    description: Seq<char>,
    later: Seq<EventView>,
)
    ensures
        over_from(
            run(request, seq![EventView::AudioRead(Err(description))] + later),
            1,
            PipelineOutcomeView::Failure(FailureView::Io(description)),
        ),
{
    let begun = PipelineView::begin(request);
    let e0 = EventView::AudioRead(Err(description));
    let ended = begun.step(e0).0;
    lemma_actions_unfold(begun, e0, later);
    law_over_stays_over(ended, later);
}

/// Where the speech service answers with a status outside 200..=299, the run
/// ends with that refusal: the request to the speech service is the only
/// one that is sent, the chat service is never asked and nothing is written,
/// whatever comes after.
pub proof fn law_refused_transcription_ends_the_run(
    request: PipelineRequestView,
    audio: Seq<u8>,
    heard: HttpResponseView,
    later: Seq<EventView>,
)
    requires
        !is_success(heard.status),
    ensures
        run(
            request,
            seq![EventView::AudioRead(Ok(audio)), EventView::Response(Ok(heard))] + later,
        )[1] == ActionView::Send(transcription_request_view(request.credential, audio)),
        over_from(
            run(
                request,
                seq![EventView::AudioRead(Ok(audio)), EventView::Response(Ok(heard))] + later,
            ),
            2,
            PipelineOutcomeView::Failure(FailureView::Remote(lossy_text(heard.body))),
        ),
{
    let begun = PipelineView::begin(request);
    let e0 = EventView::AudioRead(Ok(audio));
    let e1 = EventView::Response(Ok(heard));
    let s1 = begun.step(e0).0;
    let ended = s1.step(e1).0;
    assert(seq![e0, e1] + later =~= seq![e0] + (seq![e1] + later));
    lemma_actions_unfold(begun, e0, seq![e1] + later);
    lemma_actions_unfold(s1, e1, later);
    law_over_stays_over(ended, later);
}

/// Where the chat service's answer reads as a failure, the run ends with
/// it: nothing is written, whatever comes after.
pub proof fn law_unread_reply_ends_the_run(
    request: PipelineRequestView,
    audio: Seq<u8>,
    heard: HttpResponseView,
    answered: HttpResponseView,
    later: Seq<EventView>,
)
    requires
        transcript_of(heard) is Ok,
        reply_of(answered) is Err,
    ensures
        over_from(
            run(
                request,
                seq![
                    EventView::AudioRead(Ok(audio)),
                    EventView::Response(Ok(heard)),
                    EventView::Response(Ok(answered)),
                ] + later,
            ),
            3,
            PipelineOutcomeView::Failure(reply_of(answered)->Err_0),
        ),
{
    let begun = PipelineView::begin(request);
    let e0 = EventView::AudioRead(Ok(audio));
    let e1 = EventView::Response(Ok(heard));
    let e2 = EventView::Response(Ok(answered));
    let s1 = begun.step(e0).0;
    let s2 = s1.step(e1).0;
    let ended = s2.step(e2).0;
    assert(seq![e0, e1, e2] + later =~= seq![e0] + (seq![e1] + (seq![e2] + later)));
    lemma_actions_unfold(begun, e0, seq![e1] + (seq![e2] + later));
    lemma_actions_unfold(s1, e1, seq![e2] + later);
    lemma_actions_unfold(s2, e2, later);
    law_over_stays_over(ended, later);
}

/// Where the chat service reports success with a JSON document that has no
/// `choices`, the run ends with the failure that says so: nothing is
/// written, whatever comes after.
pub proof fn law_reply_without_choices_ends_the_run(
    request: PipelineRequestView,
    audio: Seq<u8>,
    heard: HttpResponseView,
    answered: HttpResponseView,
    document: JsonView,
    later: Seq<EventView>,
)
    requires
        transcript_of(heard) is Ok,
        is_success(answered.status),
        json_document(answered.body) == Ok::<JsonView, Seq<char>>(document),
        document.member("choices"@) is None,
    ensures
        over_from(
            run(
                request,
                seq![
                    EventView::AudioRead(Ok(audio)),
                    EventView::Response(Ok(heard)),
                    EventView::Response(Ok(answered)),
                ] + later,
            ),
            3,
            PipelineOutcomeView::Failure(FailureView::Missing(Expected::Choices)),
        ),
{
    law_unread_reply_ends_the_run(request, audio, heard, answered, later);
}

} // verus!
