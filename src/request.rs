//! Preparing the text of a speech request: the user's text without its
//! surrounding whitespace, refused when nothing is left, cut into chunks
//! that the speech service accepts.
use crate::chunking::{chunk_text_unicode, chunk_texts, graphemes_of};
use vstd::prelude::*;

verus! {

/// The largest chunk, in grapheme clusters, sent to the speech service.
pub const MAX_CHUNK_GRAPHEMES: usize = 4096;

/// A text without its leading and trailing whitespace.
pub uninterp spec fn trimmed_of(s: Seq<char>) -> Seq<char>;

/// Relies on `str::trim`: the result depends on the text alone and is never
/// longer than it.
#[verifier::external_body]
fn trim_text(s: &str) -> (r: String)
    ensures
        r@ == trimmed_of(s@),
        r@.len() <= s@.len(),
{
    s.trim().to_string()
}

/// The text to speak, given the user's text already trimmed: that text,
/// or a refusal when nothing is left.
pub fn text_to_speak(trimmed: &str) -> (r: Result<String, RequestError>)
    ensures
        trimmed@.len() == 0 <==> r is Err,
        r is Err ==> r->Err_0 == RequestError::NoText,
        r is Ok ==> r->Ok_0@ == trimmed@,
{
    if trimmed.is_empty() {
        Err(RequestError::NoText)
    } else {
        Ok(String::from_str(trimmed))
    }
}

/// The text to speak for the raw input `input`: the input without its
/// surrounding whitespace; input that is blank is refused.
pub fn prepare_speech_text(input: &str) -> (r: Result<String, RequestError>)
    ensures
        trimmed_of(input@).len() == 0 <==> r is Err,
        r is Err ==> r->Err_0 == RequestError::NoText,
        r is Ok ==> r->Ok_0@ == trimmed_of(input@),
{
    let t = trim_text(input);
    text_to_speak(t.as_str())
}

/// The body of a speech or video request: the text to speak.
#[derive(Debug, Clone)]
pub struct UserInput {
    pub input: String,
}

/// Why a request was refused before any work was done.
#[derive(Debug, Clone, Copy, PartialEq, Eq, Structural)]
pub enum RequestError {
    /// Nothing is left to speak.
    NoText,
}

impl RequestError {
    /// Describes the refusal.
    pub fn message(&self) -> (r: String)
        ensures
            r@ == "No text provided."@,
    {
        String::from_str("No text provided.")
    }
}

/// Cuts the text of a request into chunks of at most `MAX_CHUNK_GRAPHEMES`
/// clusters; an empty text is refused.
pub fn chunk_request_text(text: &str) -> (r: Result<Vec<String>, RequestError>)
    ensures
        r is Err <==> text@.len() == 0,
        r is Err ==> r->Err_0 == RequestError::NoText,
        r is Ok ==> r->Ok_0.deep_view() == chunk_texts(
            graphemes_of(text@),
            MAX_CHUNK_GRAPHEMES as nat,
        ),
        r is Ok ==> r->Ok_0.deep_view().flatten() == text@ && r->Ok_0.len() > 0,
{
    let chunks = chunk_text_unicode(text, MAX_CHUNK_GRAPHEMES);
    match chunks {
        Ok(c) => {
            if c.len() == 0 {
                proof {
                    assert(c.deep_view() =~= Seq::<Seq<char>>::empty());
                }
                Err(RequestError::NoText)
            } else {
                proof {
                    if text@.len() == 0 {
                        assert(c[0]@.len() > 0);
                        c.deep_view().lemma_flatten_length_ge_single_element_length(0);
                        c.deep_view().lemma_flatten_and_flatten_alt_are_equivalent();
                        assert(c.deep_view()[0] == c[0]@);
                    }
                }
                Ok(c)
            }
        },
        // A positive maximum is never refused.
        Err(_) => Err(RequestError::NoText),
    }
}

} // verus!
