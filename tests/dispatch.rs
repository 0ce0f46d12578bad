use speech_backend::dispatch::{
    chunk_file_name, collect_outcomes, plan_chunk_tasks, synthesis_failed, write_failed,
    DispatchError, TaskOutcome,
};
use speech_backend::merge::concat_mp3;
use speech_backend::synthesis::{AttemptFailure, SynthesisError};

fn saved(p: &str) -> TaskOutcome {
    TaskOutcome::Saved(p.to_string())
}

#[test]
fn chunk_files_are_named_by_index() {
    assert_eq!(chunk_file_name("user_files/u/t", 1), "user_files/u/t/speech-chunk-1.mp3");
    assert_eq!(chunk_file_name("f", 12), "f/speech-chunk-12.mp3");
    assert_eq!(chunk_file_name("f", 0), "f/speech-chunk-0.mp3");
}

#[test]
fn tasks_follow_chunk_order() {
    let chunks = vec!["one".to_string(), "two".to_string(), "three".to_string()];
    let tasks = plan_chunk_tasks("dir", &chunks);
    assert_eq!(tasks.len(), 3);
    for (i, t) in tasks.iter().enumerate() {
        assert_eq!(t.index, (i + 1) as u64);
        assert_eq!(t.text, chunks[i]);
        assert_eq!(t.path, format!("dir/speech-chunk-{}.mp3", i + 1));
    }
}

#[test]
fn all_saved_gives_paths_in_chunk_order() {
    let r = collect_outcomes(vec![saved("a1"), saved("a2"), saved("a3")]).unwrap();
    assert_eq!(r, vec!["a1".to_string(), "a2".to_string(), "a3".to_string()]);
    assert_eq!(collect_outcomes(Vec::new()).unwrap(), Vec::<String>::new());
}

#[test]
fn one_failed_chunk_fails_the_request() {
    let outcomes = vec![saved("a1"), TaskOutcome::Failed("boom".to_string()), saved("a3")];
    let mut merged = false;
    match collect_outcomes(outcomes) {
        Ok(paths) => {
            let parts: Vec<Vec<u8>> = paths.iter().map(|p| p.as_bytes().to_vec()).collect();
            let _ = concat_mp3(&parts);
            merged = true;
        }
        Err(e) => {
            assert_eq!(e.index(), 2);
            assert_eq!(e.message(), "Task #2 error: boom");
        }
    }
    assert!(!merged);
}

#[test]
fn first_failure_in_chunk_order_is_reported() {
    let outcomes = vec![
        saved("a1"),
        saved("a2"),
        TaskOutcome::JoinFailed("panicked".to_string()),
        TaskOutcome::Failed("later".to_string()),
    ];
    let e = collect_outcomes(outcomes).unwrap_err();
    assert!(matches!(e, DispatchError::Join { index: 3, .. }));
    assert_eq!(e.message(), "Join error on task #3: panicked");
}

#[test]
fn task_failure_texts() {
    let err = SynthesisError::Attempt {
        attempt: 2,
        failure: AttemptFailure::Request { cause: "dns".to_string() },
    };
    match synthesis_failed(4, &err) {
        TaskOutcome::Failed(m) => assert_eq!(m, "Chunk #4 TTS error: Request error (attempt #2): dns"),
        other => panic!("unexpected {:?}", other),
    }
    match write_failed("d/x.mp3", "disk full") {
        TaskOutcome::Failed(m) => assert_eq!(m, "Failed to write d/x.mp3: disk full"),
        other => panic!("unexpected {:?}", other),
    }
}
