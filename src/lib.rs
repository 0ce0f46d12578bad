//! Verified core of a text-to-speech backend: chunking text into
//! grapheme-bounded pieces, retry decisions for the synthesis call,
//! all-or-nothing collection of per-chunk results, byte-exact merging of
//! audio, listing of stored artifacts and the video cache decision.
pub mod chunking;
pub mod dispatch;
pub mod listing;
pub mod merge;
pub mod paths;
pub mod request;
pub mod synthesis;
pub mod text;
pub mod video;
