//! The foreign boundary: what a call from outside is given and what it is
//! told.
//!
//! A foreign caller hands over byte strings, any of which may be absent, and
//! is answered with one line of text, as a string that a NUL ends. This
//! module decides whether a call is taken up at all, words the answer, and
//! makes the bytes that carry it, among which there is never a NUL; the
//! caller's memory is not its business.

use crate::pipeline::{
    Action, ActionView, Pipeline, PipelineOutcome, PipelineOutcomeView, PipelineRequest,
    PipelineRequestView, PipelineView,
};
use crate::result_view;
use crate::text::string_from_utf8;
use vstd::prelude::*;
use vstd::utf8::*;

verus! {

/// Why a call was turned down before anything was done.
#[derive(Clone, Copy, Debug, PartialEq, Eq, Structural)]
pub enum BoundaryError {
    /// An argument was absent.
    NullPointer,
    /// An argument was empty, or was no UTF-8 text.
    EmptyString,
}

/// What a foreign call is answered with.
#[derive(Debug, PartialEq, Eq)]
pub enum CallResult {
    /// The call was turned down.
    Rejected(BoundaryError),
    /// The run was made, and ended so.
    Completed(PipelineOutcome),
    /// The call asks for what this library does not do.
    Unimplemented,
}

impl View for BoundaryError {
    type V = BoundaryError;

    open spec fn view(&self) -> BoundaryError {
        *self
    }
}

pub enum CallResultView {
    Rejected(BoundaryError),
    Completed(PipelineOutcomeView),
    Unimplemented,
}

impl View for CallResult {
    type V = CallResultView;

    open spec fn view(&self) -> CallResultView {
        match self {
            CallResult::Rejected(error) => CallResultView::Rejected(*error),
            CallResult::Completed(outcome) => CallResultView::Completed(outcome@),
            CallResult::Unimplemented => CallResultView::Unimplemented,
        }
    }
}

impl CallResultView {
    /// The line that the caller is told.
    pub open spec fn message(self) -> Seq<char> {
        match self {
            CallResultView::Rejected(BoundaryError::NullPointer) => "Error: Null pointer provided"@,
            CallResultView::Rejected(BoundaryError::EmptyString) => "Error: Empty string provided"@,
            CallResultView::Completed(PipelineOutcomeView::Success) => "Success"@,
            CallResultView::Completed(PipelineOutcomeView::Failure(failure)) => "Error: "@
                + failure.message(),
            CallResultView::Unimplemented => "Image recognition not implemented yet"@,
        }
    }
}

/// The bytes of an argument, if it is present.
pub open spec fn given(argument: Option<Vec<u8>>) -> Option<Seq<u8>> {
    match argument {
        Some(bytes) => Some(bytes@),
        None => None,
    }
}

/// The bytes of `bytes` other than NUL, in their order.
pub open spec fn without_nul(bytes: Seq<u8>) -> Seq<u8> {
    bytes.filter(|byte: u8| byte != 0)
}

/// The bytes that carry `text` to a foreign caller, for whom a NUL ends a
/// string: the UTF-8 bytes of the text, each NUL among them left out.
pub open spec fn carried(text: Seq<char>) -> Seq<u8> {
    without_nul(encode_utf8(text))
}

/// The text that an argument stands for: what its bytes encode, and the
/// empty text if they are no UTF-8.
pub open spec fn argument_text(bytes: Seq<u8>) -> Seq<char> {
    if valid_utf8(bytes) {
        decode_utf8(bytes)
    } else {
        Seq::empty()
    }
}

/// The request that three arguments make, or why they make none. All three
/// have to be present, and then each has to stand for a text that is not
/// empty.
pub open spec fn validated(
    api_key: Option<Seq<u8>>,
    audio_path: Option<Seq<u8>>,
    output_path: Option<Seq<u8>>,
) -> Result<PipelineRequestView, BoundaryError> {
    if api_key is None || audio_path is None || output_path is None {
        Err(BoundaryError::NullPointer)
    } else if argument_text(api_key->0).len() == 0 || argument_text(audio_path->0).len() == 0
        || argument_text(output_path->0).len() == 0 {
        Err(BoundaryError::EmptyString)
    } else {
        Ok(
            PipelineRequestView {
                credential: argument_text(api_key->0),
                audio_path: argument_text(audio_path->0),
                output_path: argument_text(output_path->0),
            },
        )
    }
}

/// What a call to [`process_audio`] with these arguments begins with: the
/// run and its first action, or the answer that turns the call down.
pub open spec fn admission(
    api_key: Option<Seq<u8>>,
    audio_path: Option<Seq<u8>>,
    output_path: Option<Seq<u8>>,
) -> Result<(PipelineView, ActionView), CallResultView> {
    match validated(api_key, audio_path, output_path) {
        Ok(request) => Ok(
            (PipelineView::begin(request), ActionView::ReadAudio { path: request.audio_path }),
        ),
        Err(error) => Err(CallResultView::Rejected(error)),
    }
}

/// Reads one argument as text.
pub fn argument(bytes: Vec<u8>) -> (text: String)
    ensures
        text@ == argument_text(bytes@),
{
    match string_from_utf8(bytes) {
        Some(text) => text,
        None => String::new(),
    }
}

/// Checks the arguments of a call and makes the request out of them.
pub fn validate(
    api_key: Option<Vec<u8>>,
    audio_path: Option<Vec<u8>>,
    output_path: Option<Vec<u8>>,
) -> (checked: Result<PipelineRequest, BoundaryError>)
    ensures
        result_view(checked) == validated(
            given(api_key),
            given(audio_path),
            given(output_path),
        ),
{
    match (api_key, audio_path, output_path) {
        (Some(api_key), Some(audio_path), Some(output_path)) => {
            let credential = argument(api_key);
            let audio_path = argument(audio_path);
            let output_path = argument(output_path);
            if credential.as_str().is_empty() || audio_path.as_str().is_empty()
                || output_path.as_str().is_empty() {
                Err(BoundaryError::EmptyString)
            } else {
                Ok(PipelineRequest { credential, audio_path, output_path })
            }
        },
        _ => Err(BoundaryError::NullPointer),
    }
}

/// Takes up a call that asks for a run: begins the run if the arguments
/// allow it, and else says why not. Nothing has been read or sent when this
/// returns.
pub fn process_audio(
    api_key: Option<Vec<u8>>,
    audio_path: Option<Vec<u8>>,
    output_path: Option<Vec<u8>>,
) -> (begun: Result<(Pipeline, Action), CallResult>)
    ensures
        result_view(begun) == admission(
            given(api_key),
            given(audio_path),
            given(output_path),
        ),
{
    match validate(api_key, audio_path, output_path) {
        Ok(request) => Ok(Pipeline::start(request)),
        Err(error) => Err(CallResult::Rejected(error)),
    }
}

/// Takes up a call that asks for an image to be recognised: there is no such
/// thing here, and the answer says so. The arguments of such a call are not
/// even read, so none is taken.
pub fn recognize_image() -> (answer: CallResult)
    ensures
        answer@ == CallResultView::Unimplemented,
{
    CallResult::Unimplemented
}

/// Makes the bytes that carry `text` to a foreign caller.
pub fn carry(text: &str) -> (bytes: Vec<u8>)
    ensures
        bytes@ == carried(text@),
        forall|i: int| 0 <= i < bytes@.len() ==> bytes@[i] != 0,
        !encode_utf8(text@).contains(0u8) ==> bytes@ == encode_utf8(text@),
{
    let encoded = text.as_bytes();
    let mut bytes: Vec<u8> = Vec::new();
    let mut i: usize = 0;
    while i < encoded.len()
        invariant
            i <= encoded.len(),
            bytes@ == without_nul(encoded@.take(i as int)),
            forall|j: int| 0 <= j < bytes@.len() ==> bytes@[j] != 0,
            (forall|j: int| 0 <= j < i ==> encoded@[j] != 0) ==> bytes@ == encoded@.take(i as int),
        decreases encoded.len() - i,
    {
        proof {
            reveal(Seq::filter);
            assert(encoded@.take(i + 1).drop_last() =~= encoded@.take(i as int));
        }
        if encoded[i] != 0 {
            bytes.push(encoded[i]);
        }
        i = i + 1;
    }
    assert(encoded@.take(i as int) =~= encoded@);
    bytes
}

/// The greeting by which a foreign caller finds out that calls get through.
pub fn hello_rust() -> (greeting: String)
    ensures
        greeting@ == "Hello from Rust!"@,
{
    String::from_str("Hello from Rust!")
}

/// The characters of `text` other than NUL, in their order.
pub open spec fn without_nul_chars(text: Seq<char>) -> Seq<char> {
    text.filter(|c: char| c != '\0')
}

/// What carries one character: nothing for NUL, and else its UTF-8 bytes,
/// none of which is NUL.
proof fn lemma_carried_scalar(c: char)
    ensures
        c == '\0' ==> without_nul(encode_scalar(c as u32)) == Seq::<u8>::empty(),
        c != '\0' ==> without_nul(encode_scalar(c as u32)) == encode_scalar(c as u32),
{
    let v = c as u32;
    let bytes = encode_scalar(v);
    char_is_scalar(c);
    reveal_with_fuel(Seq::filter, 5);
    assert(v <= 0x7F ==> ((v & 0x7F) as u8 == 0 <==> v == 0)) by (bit_vector);
    assert(0xC0 | ((v >> 6) & 0x1F) as u8 != 0) by (bit_vector);
    assert(0xE0 | ((v >> 12) & 0x0F) as u8 != 0) by (bit_vector);
    assert(0xF0 | ((v >> 18) & 0x7) as u8 != 0) by (bit_vector);
    assert(0x80 | (v & 0x3F) as u8 != 0) by (bit_vector);
    assert(0x80 | ((v >> 6) & 0x3F) as u8 != 0) by (bit_vector);
    assert(0x80 | ((v >> 12) & 0x3F) as u8 != 0) by (bit_vector);
    if has_width_3_encoding(v) {
        assert(bytes.drop_last() =~= seq![
            leading_byte_width_3(v),
            second_last_continuation_byte(v),
        ]);
    } else if has_width_4_encoding(v) {
        assert(bytes.drop_last() =~= seq![
            leading_byte_width_4(v),
            third_last_continuation_byte(v),
            second_last_continuation_byte(v),
        ]);
        assert(bytes.drop_last().drop_last() =~= seq![
            leading_byte_width_4(v),
            third_last_continuation_byte(v),
        ]);
    }
}

/// What carries a text is text again: the UTF-8 encoding of the text with
/// its NUL characters left out. So a caller reads the message itself, short
/// of those characters, and where the message holds none, all of it.
pub proof fn law_carried_is_text(text: Seq<char>)
    ensures
        carried(text) == encode_utf8(without_nul_chars(text)),
        valid_utf8(carried(text)),
        decode_utf8(carried(text)) == without_nul_chars(text),
    decreases text.len(),
{
    let keep = |c: char| c != '\0';
    let nonzero = |byte: u8| byte != 0;
    if text.len() == 0 {
        reveal_with_fuel(Seq::filter, 2);
    } else {
        let first = text[0];
        let rest = text.drop_first();
        law_carried_is_text(rest);
        lemma_carried_scalar(first);
        assert(text =~= seq![first] + rest);
        Seq::filter_distributes_over_add(seq![first], rest, keep);
        Seq::filter_distributes_over_add(
            encode_scalar(first as u32),
            encode_utf8(rest),
            nonzero,
        );
        assert(seq![first].filter(keep) =~= if first != '\0' {
            seq![first]
        } else {
            Seq::<char>::empty()
        }) by {
            reveal_with_fuel(Seq::filter, 2);
        }
        if first != '\0' {
            let kept = seq![first] + without_nul_chars(rest);
            assert(kept.drop_first() =~= without_nul_chars(rest));
        }
    }
    encode_utf8_valid_utf8(without_nul_chars(text));
    encode_utf8_decode_utf8(without_nul_chars(text));
}

impl CallResult {
    /// The bytes by which the caller is told: those that carry the message.
    /// There is no NUL among them, whatever a service or the system has put
    /// into the message, so they can always be handed over as one string.
    pub fn bytes(&self) -> (bytes: Vec<u8>)
        ensures
            bytes@ == carried(self@.message()),
            forall|i: int| 0 <= i < bytes@.len() ==> bytes@[i] != 0,
            !encode_utf8(self@.message()).contains(0u8) ==> bytes@ == encode_utf8(
                self@.message(),
            ),
    {
        let message = self.message();
        carry(message.as_str())
    }

    /// The line that the caller is told.
    pub fn message(&self) -> (line: String)
        ensures
            line@ == self@.message(),
    {
        match self {
            CallResult::Rejected(BoundaryError::NullPointer) => String::from_str(
                "Error: Null pointer provided",
            ),
            CallResult::Rejected(BoundaryError::EmptyString) => String::from_str(
                "Error: Empty string provided",
            ),
            CallResult::Completed(PipelineOutcome::Success) => String::from_str("Success"),
            CallResult::Completed(PipelineOutcome::Failure(failure)) => {
                let detail = failure.message();
                String::from_str("Error: ").concat(detail.as_str())
            },
            CallResult::Unimplemented => String::from_str("Image recognition not implemented yet"),
        }
    }
}

} // verus!
