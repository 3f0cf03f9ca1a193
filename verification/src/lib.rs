//! Voice assistant core: an audio file is transcribed by a remote speech
//! service, the transcript is answered by a remote chat service, and the
//! answer is written to a file.
//!
//! This crate holds every decision of that run and performs none of its
//! input or output. A caller drives [`pipeline::Pipeline`] by carrying out
//! the [`pipeline::Action`] it asks for and handing back what happened as a
//! [`pipeline::Event`].

use vstd::prelude::*;

pub mod boundary;
pub mod completion;
pub mod failure;
pub mod http;
pub mod json;
pub mod pipeline;
pub mod run;
pub mod text;
pub mod transcription;

verus! {

/// The mathematical value of a result: that of what it holds, on either
/// side.
pub open spec fn result_view<T: View, E: View>(result: Result<T, E>) -> Result<T::V, E::V> {
    match result {
        Ok(value) => Ok(value@),
        Err(error) => Err(error@),
    }
}

} // verus!
