use speech_backend::chunking::{chunk_graphemes, chunk_text_unicode, ChunkError};
use speech_backend::request::{chunk_request_text, RequestError, MAX_CHUNK_GRAPHEMES};

#[test]
fn ascii_text_is_cut_every_max_graphemes() {
    let chunks = chunk_text_unicode("abcdefg", 3).unwrap();
    assert_eq!(chunks, vec!["abc".to_string(), "def".to_string(), "g".to_string()]);
}

#[test]
fn chunks_join_back_to_the_text() {
    let text = "Hello, wörld! Ünïcödé 🇷🇺🇸🇹 text\r\nwith lines";
    for max in 1..12usize {
        let chunks = chunk_text_unicode(text, max).unwrap();
        assert_eq!(chunks.concat(), text);
        let n = chunks.len();
        for (i, c) in chunks.iter().enumerate() {
            assert!(!c.is_empty());
            let count = unicode_segmentation::UnicodeSegmentation::graphemes(c.as_str(), true).count();
            assert!(count <= max);
            if i + 1 < n {
                assert_eq!(count, max);
            }
        }
    }
}

#[test]
fn combining_marks_are_never_split() {
    let text = "a\u{310}e\u{301}o\u{308}\u{332}";
    let chunks = chunk_text_unicode(text, 2).unwrap();
    assert_eq!(chunks, vec!["a\u{310}e\u{301}".to_string(), "o\u{308}\u{332}".to_string()]);
    let single = chunk_text_unicode(text, 1).unwrap();
    assert_eq!(single.len(), 3);
    assert_eq!(single[2], "o\u{308}\u{332}");
}

#[test]
fn flags_and_crlf_stay_whole() {
    let chunks = chunk_text_unicode("a\r\nb🇷🇺🇸🇹", 1).unwrap();
    assert_eq!(
        chunks,
        vec!["a".to_string(), "\r\n".to_string(), "b".to_string(), "🇷🇺".to_string(), "🇸🇹".to_string()]
    );
}

#[test]
fn empty_text_gives_no_chunks() {
    assert_eq!(chunk_text_unicode("", 5).unwrap(), Vec::<String>::new());
}

#[test]
fn zero_maximum_is_refused() {
    assert_eq!(chunk_text_unicode("abc", 0), Err(ChunkError::ZeroMaxSize));
    assert_eq!(chunk_text_unicode("", 0), Err(ChunkError::ZeroMaxSize));
    assert_eq!(chunk_graphemes(&vec!["a".to_string()], 0), Err(ChunkError::ZeroMaxSize));
}

#[test]
fn text_shorter_than_maximum_is_one_chunk() {
    assert_eq!(chunk_text_unicode("abc", 3).unwrap(), vec!["abc".to_string()]);
    assert_eq!(chunk_text_unicode("abc", 100).unwrap(), vec!["abc".to_string()]);
}

#[test]
fn chunking_is_deterministic() {
    let text = "the same text, chunked twice";
    assert_eq!(chunk_text_unicode(text, 4), chunk_text_unicode(text, 4));
}

#[test]
fn grapheme_lists_are_grouped() {
    let g: Vec<String> = vec!["x", "y\u{301}", "z", "w"].into_iter().map(String::from).collect();
    let chunks = chunk_graphemes(&g, 3).unwrap();
    assert_eq!(chunks, vec!["xy\u{301}z".to_string(), "w".to_string()]);
    assert_eq!(chunk_graphemes(&Vec::new(), 3).unwrap(), Vec::<String>::new());
}

#[test]
fn request_text_is_cut_at_the_service_limit() {
    let text = "ab".repeat(MAX_CHUNK_GRAPHEMES);
    let chunks = chunk_request_text(&text).unwrap();
    assert_eq!(chunks.len(), 2);
    assert_eq!(chunks[0].len(), MAX_CHUNK_GRAPHEMES);
    assert_eq!(chunks.concat(), text);
    assert_eq!(chunk_request_text(""), Err(RequestError::NoText));
    assert_eq!(RequestError::NoText.message(), "No text provided.");
}
