//! The speech service: what it is asked, and how its answer is read.

use crate::failure::{Expected, Failure, FailureView};
use crate::http::{
    authorization, bearer, document_of, Body, BodyView, Header, HeaderView, HttpRequest,
    HttpRequestView, HttpResponse, HttpResponseView, Part, PartView,
};
use crate::json::{Json, JsonView};
use crate::result_view;
use vstd::prelude::*;

verus! {

/// The request that asks for the transcript of `audio` on behalf of
/// `credential`: a form with the audio as the file field `file` and the
/// model's name as the text field `model`.
pub open spec fn transcription_request_view(credential: Seq<char>, audio: Seq<u8>)
    -> HttpRequestView {
    HttpRequestView {
        url: "https://api.openai.com/v1/audio/transcriptions"@,
        headers: seq![HeaderView { name: "Authorization"@, value: bearer(credential) }],
        body: BodyView::Form(
            seq![
                PartView::File {
                    name: "file"@,
                    file_name: "audio.wav"@,
                    mime: "audio/wav"@,
                    content: audio,
                },
                PartView::Text { name: "model"@, value: "whisper-1"@ },
            ],
        ),
    }
}

/// The transcript that a JSON answer holds: the string under `text`.
pub open spec fn transcript_in(document: JsonView) -> Result<Seq<char>, FailureView> {
    match document.member("text"@) {
        Some(JsonView::Text(transcript)) => Ok(transcript),
        _ => Err(FailureView::Missing(Expected::Text)),
    }
}

/// The transcript that an answer of the speech service brings: that in the
/// document it brings.
pub open spec fn transcript_of(response: HttpResponseView) -> Result<Seq<char>, FailureView> {
    match document_of(response) {
        Ok(document) => transcript_in(document),
        Err(failure) => Err(failure),
    }
}

/// Builds the request that asks for the transcript of `audio`.
pub fn transcription_request(credential: &str, audio: Vec<u8>) -> (request: HttpRequest)
    ensures
        request@ == transcription_request_view(credential@, audio@),
{
    let mut headers: Vec<Header> = Vec::new();
    headers.push(authorization(credential));
    let mut parts: Vec<Part> = Vec::new();
    parts.push(
        Part::File {
            name: String::from_str("file"),
            file_name: String::from_str("audio.wav"),
            mime: String::from_str("audio/wav"),
            content: audio,
        },
    );
    parts.push(Part::Text { name: String::from_str("model"), value: String::from_str("whisper-1") });
    let request = HttpRequest {
        url: String::from_str("https://api.openai.com/v1/audio/transcriptions"),
        headers,
        body: Body::Form(parts),
    };
    proof {
        let expected = transcription_request_view(credential@, audio@);
        assert(request@.headers =~= expected.headers);
        assert(request@.body->Form_0 =~= expected.body->Form_0);
    }
    request
}

/// Reads the transcript out of a parsed answer.
pub fn read_transcript(document: &Json) -> (reading: Result<String, Failure>)
    ensures
        result_view(reading) == transcript_in(document@),
{
    match document.member("text") {
        Some(value) => match value.text() {
            Some(transcript) => Ok(transcript.clone()),
            None => Err(Failure::Missing(Expected::Text)),
        },
        None => Err(Failure::Missing(Expected::Text)),
    }
}

/// Reads the transcript out of the speech service's answer.
pub fn transcript_from_response(response: &HttpResponse) -> (reading: Result<String, Failure>)
    ensures
        result_view(reading) == transcript_of(response@),
{
    match response.document() {
        Ok(document) => read_transcript(&document),
        Err(failure) => Err(failure),
    }
}

} // verus!
