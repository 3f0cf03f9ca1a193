//! The chat service: what it is asked, and how its answer is read.

use crate::failure::{Expected, Failure, FailureView};
use crate::http::{
    authorization, bearer, document_of, Body, BodyView, Header, HeaderView, HttpRequest,
    HttpRequestView, HttpResponse, HttpResponseView,
};
use crate::json::{Json, JsonView, Member, MemberView};
use crate::result_view;
use vstd::prelude::*;

verus! {

/// The chat that consists of `prompt` alone, said by the user:
/// `{"model": "gpt-4o", "messages": [{"role": "user", "content": prompt}]}`.
pub open spec fn chat_document(prompt: Seq<char>) -> JsonView {
    JsonView::Object(
        seq![
            MemberView { key: "model"@, value: JsonView::Text("gpt-4o"@) },
            MemberView {
                key: "messages"@,
                value: JsonView::Array(
                    seq![
                        JsonView::Object(
                            seq![
                                MemberView { key: "role"@, value: JsonView::Text("user"@) },
                                MemberView { key: "content"@, value: JsonView::Text(prompt) },
                            ],
                        ),
                    ],
                ),
            },
        ],
    )
}

/// The request that asks for a reply to `prompt` on behalf of `credential`.
pub open spec fn completion_request_view(credential: Seq<char>, prompt: Seq<char>)
    -> HttpRequestView {
    HttpRequestView {
        url: "https://api.openai.com/v1/chat/completions"@,
        headers: seq![
            HeaderView { name: "Authorization"@, value: bearer(credential) },
            HeaderView { name: "Content-Type"@, value: "application/json"@ },
        ],
        body: BodyView::Json(chat_document(prompt)),
    }
}

/// The reply that one choice holds: the string under `content` of its
/// `message`.
pub open spec fn reply_in_choice(choice: JsonView) -> Result<Seq<char>, FailureView> {
    match choice.member("message"@) {
        Some(message) => match message.member("content"@) {
            Some(JsonView::Text(reply)) => Ok(reply),
            _ => Err(FailureView::Missing(Expected::Content)),
        },
        None => Err(FailureView::Missing(Expected::Message)),
    }
}

/// The reply that a JSON answer holds: that of the first element of the
/// array under `choices`.
pub open spec fn reply_in(document: JsonView) -> Result<Seq<char>, FailureView> {
    match document.member("choices"@) {
        Some(JsonView::Array(choices)) => if choices.len() == 0 {
            Err(FailureView::Missing(Expected::FirstChoice))
        } else {
            reply_in_choice(choices[0])
        },
        _ => Err(FailureView::Missing(Expected::Choices)),
    }
}

/// The reply that an answer of the chat service brings: that in the
/// document it brings.
pub open spec fn reply_of(response: HttpResponseView) -> Result<Seq<char>, FailureView> {
    match document_of(response) {
        Ok(document) => reply_in(document),
        Err(failure) => Err(failure),
    }
}

/// Builds the chat that consists of `prompt` alone, said by the user.
pub fn chat(prompt: &str) -> (document: Json)
    ensures
        document@ == chat_document(prompt@),
{
    let mut message: Vec<Member> = Vec::new();
    message.push(Member::new("role", Json::string("user")));
    message.push(Member::new("content", Json::string(prompt)));
    let message = Json::object(message);
    let mut messages: Vec<Json> = Vec::new();
    messages.push(message);
    let messages = Json::array(messages);
    let mut members: Vec<Member> = Vec::new();
    members.push(Member::new("model", Json::string("gpt-4o")));
    members.push(Member::new("messages", messages));
    let document = Json::object(members);
    proof {
        let expected = chat_document(prompt@);
        let said = expected->Object_0[1].value->Array_0[0];
        assert(message@->Object_0 =~= said->Object_0);
        assert(messages@->Array_0 =~= expected->Object_0[1].value->Array_0);
        assert(document@->Object_0 =~= expected->Object_0);
    }
    document
}

/// Builds the request that asks for a reply to `prompt`.
pub fn completion_request(credential: &str, prompt: &str) -> (request: HttpRequest)
    ensures
        request@ == completion_request_view(credential@, prompt@),
{
    let mut headers: Vec<Header> = Vec::new();
    headers.push(authorization(credential));
    headers.push(
        Header {
            name: String::from_str("Content-Type"),
            value: String::from_str("application/json"),
        },
    );
    let request = HttpRequest {
        url: String::from_str("https://api.openai.com/v1/chat/completions"),
        headers,
        body: Body::Json(chat(prompt)),
    };
    proof {
        let expected = completion_request_view(credential@, prompt@);
        assert(request@.headers =~= expected.headers);
    }
    request
}

/// Reads the reply out of one choice.
fn read_choice(choice: &Json) -> (reading: Result<String, Failure>)
    ensures
        result_view(reading) == reply_in_choice(choice@),
{
    match choice.member("message") {
        Some(message) => match message.member("content") {
            Some(value) => match value.text() {
                Some(reply) => Ok(reply.clone()),
                None => Err(Failure::Missing(Expected::Content)),
            },
            None => Err(Failure::Missing(Expected::Content)),
        },
        None => Err(Failure::Missing(Expected::Message)),
    }
}

/// Reads the reply out of a parsed answer.
pub fn read_reply(document: &Json) -> (reading: Result<String, Failure>)
    ensures
        result_view(reading) == reply_in(document@),
{
    match document.member("choices") {
        Some(choices) => match choices.item(0) {
            Some(first) => read_choice(first),
            None => match choices.len() {
                Some(_) => Err(Failure::Missing(Expected::FirstChoice)),
                None => Err(Failure::Missing(Expected::Choices)),
            },
        },
        None => Err(Failure::Missing(Expected::Choices)),
    }
}

/// Reads the reply out of the chat service's answer.
pub fn reply_from_response(response: &HttpResponse) -> (reading: Result<String, Failure>)
    ensures
        result_view(reading) == reply_of(response@),
{
    match response.document() {
        Ok(document) => read_reply(&document),
        Err(failure) => Err(failure),
    }
}

} // verus!
