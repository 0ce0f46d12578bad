use speech_backend::paths::{final_audio_path, final_video_path, request_folder, user_dir};
use speech_backend::request::{prepare_speech_text, text_to_speak, RequestError};
use speech_backend::text::decimal;

#[test]
fn input_is_trimmed() {
    assert_eq!(prepare_speech_text("  hello there \n"), Ok("hello there".to_string()));
    assert_eq!(text_to_speak("x"), Ok("x".to_string()));
}

#[test]
fn blank_input_is_refused() {
    assert_eq!(prepare_speech_text(" \t\n "), Err(RequestError::NoText));
    assert_eq!(prepare_speech_text(""), Err(RequestError::NoText));
    assert_eq!(text_to_speak(""), Err(RequestError::NoText));
    assert_eq!(RequestError::NoText.message(), "No text provided.");
}

#[test]
fn storage_layout() {
    assert_eq!(user_dir("u1"), "user_files/u1");
    let folder = request_folder("u1", "2025-04-03-14:03");
    assert_eq!(folder, "user_files/u1/2025-04-03-14:03");
    assert_eq!(final_audio_path(&folder), "user_files/u1/2025-04-03-14:03/final.mp3");
    assert_eq!(final_video_path(&folder), "user_files/u1/2025-04-03-14:03/final.mp4");
}

#[test]
fn decimal_rendering() {
    assert_eq!(decimal(0), "0");
    assert_eq!(decimal(7), "7");
    assert_eq!(decimal(10), "10");
    assert_eq!(decimal(4096), "4096");
    assert_eq!(decimal(u64::MAX), u64::MAX.to_string());
}
