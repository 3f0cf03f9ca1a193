use voice_assistant::completion::{chat, completion_request, read_reply, reply_from_response};
use voice_assistant::failure::{Expected, Failure};
use voice_assistant::http::{authorization, Body, Header, HttpRequest, HttpResponse, Part};
use voice_assistant::json::{Json, Member};
use voice_assistant::transcription::{
    read_transcript, transcript_from_response, transcription_request,
};

fn response(status: u16, body: &[u8]) -> HttpResponse {
    HttpResponse { status, body: body.to_vec() }
}

fn object(members: Vec<(&str, Json)>) -> Json {
    Json::Object(
        members
            .into_iter()
            .map(|(key, value)| Member { key: key.to_string(), value })
            .collect(),
    )
}

fn text(chars: &str) -> Json {
    Json::Text(chars.to_string())
}

#[test]
fn the_status_codes_from_200_to_299_report_success() {
    assert!(!response(199, b"").is_success());
    assert!(response(200, b"").is_success());
    assert!(response(204, b"").is_success());
    assert!(response(299, b"").is_success());
    assert!(!response(300, b"").is_success());
    assert!(!response(404, b"").is_success());
    assert!(!response(0, b"").is_success());
    assert!(!response(u16::MAX, b"").is_success());
}

#[test]
fn the_credential_is_presented_as_a_bearer_token() {
    let header = authorization("sk-test");
    assert_eq!(
        header,
        Header { name: "Authorization".to_string(), value: "Bearer sk-test".to_string() }
    );
}

#[test]
fn the_speech_service_is_sent_the_audio_as_a_form() {
    let request = transcription_request("sk-test", vec![1, 2, 3]);
    let expected = HttpRequest {
        url: "https://api.openai.com/v1/audio/transcriptions".to_string(),
        headers: vec![Header {
            name: "Authorization".to_string(),
            value: "Bearer sk-test".to_string(),
        }],
        body: Body::Form(vec![
            Part::File {
                name: "file".to_string(),
                file_name: "audio.wav".to_string(),
                mime: "audio/wav".to_string(),
                content: vec![1, 2, 3],
            },
            Part::Text { name: "model".to_string(), value: "whisper-1".to_string() },
        ]),
    };
    assert_eq!(request, expected);
}

#[test]
fn the_chat_service_is_sent_the_prompt_as_the_user_s_one_message() {
    let request = completion_request("sk-test", "hello world");
    let expected = HttpRequest {
        url: "https://api.openai.com/v1/chat/completions".to_string(),
        headers: vec![
            Header { name: "Authorization".to_string(), value: "Bearer sk-test".to_string() },
            Header { name: "Content-Type".to_string(), value: "application/json".to_string() },
        ],
        body: Body::Json(object(vec![
            ("model", text("gpt-4o")),
            (
                "messages",
                Json::Array(vec![object(vec![
                    ("role", text("user")),
                    ("content", text("hello world")),
                ])]),
            ),
        ])),
    };
    assert_eq!(request, expected);
}

#[test]
fn the_chat_holds_the_prompt_unchanged() {
    let prompt = "say \"hi\"\n\u{e9}";
    let document = chat(prompt);
    let said = document.member("messages").and_then(|messages| messages.item(0));
    assert_eq!(document.member("model"), Some(&text("gpt-4o")));
    assert_eq!(document.member("messages").and_then(|messages| messages.len()), Some(1));
    assert_eq!(said.and_then(|message| message.member("role")), Some(&text("user")));
    assert_eq!(said.and_then(|message| message.member("content")), Some(&text(prompt)));
}

#[test]
fn the_transcript_is_the_string_under_text() {
    let document = object(vec![("language", text("en")), ("text", text("hello world"))]);
    assert_eq!(read_transcript(&document), Ok("hello world".to_string()));
    assert_eq!(read_transcript(&object(vec![("text", text(""))])), Ok(String::new()));
}

#[test]
fn a_document_without_a_string_under_text_holds_no_transcript() {
    let missing = Err(Failure::Missing(Expected::Text));
    assert_eq!(read_transcript(&object(vec![])), missing);
    assert_eq!(read_transcript(&object(vec![("Text", text("hello"))])), missing);
    assert_eq!(read_transcript(&object(vec![("text", Json::Null)])), missing);
    assert_eq!(read_transcript(&object(vec![("text", Json::Number("5".to_string()))])), missing);
    assert_eq!(read_transcript(&Json::Array(vec![text("hello")])), missing);
    assert_eq!(read_transcript(&text("hello")), missing);
}

#[test]
fn a_successful_answer_of_the_speech_service_gives_its_transcript() {
    let answer = response(200, b"{\"text\": \"hello world\"}");
    assert_eq!(transcript_from_response(&answer), Ok("hello world".to_string()));
}

#[test]
fn a_refusal_by_the_speech_service_carries_its_body() {
    let answer = response(401, b"{\"error\": \"invalid api key\"}");
    assert_eq!(
        transcript_from_response(&answer),
        Err(Failure::Remote("{\"error\": \"invalid api key\"}".to_string()))
    );
}

#[test]
fn a_refusal_is_not_read_as_a_document() {
    let answer = response(500, b"{\"text\": \"hello world\"}");
    assert_eq!(
        transcript_from_response(&answer),
        Err(Failure::Remote("{\"text\": \"hello world\"}".to_string()))
    );
    let redirect = response(302, b"");
    assert_eq!(transcript_from_response(&redirect), Err(Failure::Remote(String::new())));
}

#[test]
fn a_refusal_whose_body_is_no_utf8_carries_it_with_marks() {
    let answer = response(502, &[b'o', 0xff, b'k']);
    assert_eq!(
        transcript_from_response(&answer),
        Err(Failure::Remote("o\u{fffd}k".to_string()))
    );
}

#[test]
fn a_successful_answer_that_is_no_document_is_a_parse_failure() {
    let answer = response(200, b"<html>");
    assert_eq!(
        transcript_from_response(&answer),
        Err(Failure::Parse("expected value at line 1 column 1".to_string()))
    );
}

#[test]
fn a_successful_answer_without_text_is_a_missing_part() {
    let answer = response(200, b"{\"transcript\": \"hello world\"}");
    assert_eq!(transcript_from_response(&answer), Err(Failure::Missing(Expected::Text)));
}

fn choice(content: Json) -> Json {
    object(vec![("message", object(vec![("role", text("assistant")), ("content", content)]))])
}

#[test]
fn the_reply_is_the_content_of_the_first_choice_s_message() {
    let document = object(vec![
        ("id", text("chatcmpl-1")),
        ("choices", Json::Array(vec![choice(text("Hi there!")), choice(text("Hello!"))])),
    ]);
    assert_eq!(read_reply(&document), Ok("Hi there!".to_string()));
}

#[test]
fn only_the_first_choice_is_read() {
    let document = object(vec![("choices", Json::Array(vec![choice(text("Hi")), Json::Null]))]);
    assert_eq!(read_reply(&document), Ok("Hi".to_string()));
}

#[test]
fn a_document_without_an_array_under_choices_holds_no_reply() {
    let missing = Err(Failure::Missing(Expected::Choices));
    assert_eq!(read_reply(&object(vec![])), missing);
    assert_eq!(read_reply(&object(vec![("choices", Json::Null)])), missing);
    assert_eq!(read_reply(&object(vec![("choices", choice(text("Hi")))])), missing);
    assert_eq!(read_reply(&Json::Array(vec![choice(text("Hi"))])), missing);
}

#[test]
fn an_empty_array_of_choices_holds_no_reply() {
    let document = object(vec![("choices", Json::Array(vec![]))]);
    assert_eq!(read_reply(&document), Err(Failure::Missing(Expected::FirstChoice)));
}

#[test]
fn a_first_choice_without_a_message_holds_no_reply() {
    let missing = Err(Failure::Missing(Expected::Message));
    let bare = object(vec![("choices", Json::Array(vec![object(vec![])]))]);
    assert_eq!(read_reply(&bare), missing);
    let no_object = object(vec![("choices", Json::Array(vec![text("Hi")]))]);
    assert_eq!(read_reply(&no_object), missing);
}

#[test]
fn a_message_without_a_string_under_content_holds_no_reply() {
    let missing = Err(Failure::Missing(Expected::Content));
    let null = object(vec![("choices", Json::Array(vec![choice(Json::Null)]))]);
    assert_eq!(read_reply(&null), missing);
    let absent = object(vec![(
        "choices",
        Json::Array(vec![object(vec![("message", object(vec![]))])]),
    )]);
    assert_eq!(read_reply(&absent), missing);
    let no_object = object(vec![(
        "choices",
        Json::Array(vec![object(vec![("message", text("Hi"))])]),
    )]);
    assert_eq!(read_reply(&no_object), missing);
}

#[test]
fn a_successful_answer_of_the_chat_service_gives_its_reply() {
    let answer = response(200, b"{\"choices\":[{\"message\":{\"content\":\"Hi there!\"}}]}");
    assert_eq!(reply_from_response(&answer), Ok("Hi there!".to_string()));
}

#[test]
fn a_refusal_by_the_chat_service_carries_its_body() {
    let answer = response(429, b"rate limited");
    assert_eq!(reply_from_response(&answer), Err(Failure::Remote("rate limited".to_string())));
}

#[test]
fn a_successful_answer_without_choices_is_a_missing_part() {
    let answer = response(200, b"{\"id\": \"chatcmpl-1\"}");
    assert_eq!(reply_from_response(&answer), Err(Failure::Missing(Expected::Choices)));
    let empty = response(200, b"{\"choices\": []}");
    assert_eq!(reply_from_response(&empty), Err(Failure::Missing(Expected::FirstChoice)));
}

#[test]
fn a_successful_answer_of_the_chat_service_that_is_no_document_is_a_parse_failure() {
    let answer = response(200, b"{\"choices\": [");
    assert_eq!(
        reply_from_response(&answer),
        Err(Failure::Parse("EOF while parsing a list at line 1 column 13".to_string()))
    );
}
