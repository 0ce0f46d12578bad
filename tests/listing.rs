use speech_backend::listing::{
    collect_final_files, parse_request_timestamp, FinalFile, select_final_files, stamp_leq, ParsedDir,
    RequestTimestamp, StoredDir,
};

fn dir(name: &str, has_final: bool) -> StoredDir {
    StoredDir { dir_name: name.to_string(), has_final }
}

fn stamp(year: i32, month: u32, day: u32, hour: u32, minute: u32) -> RequestTimestamp {
    RequestTimestamp { year, month, day, hour, minute }
}

#[test]
fn listing_skips_garbage_and_sorts_oldest_first() {
    let dirs = vec![
        dir("2025-04-03-14:03", true),
        dir("2025-04-01-09:00", true),
        dir("not-a-date", true),
    ];
    let files = select_final_files("alice", &dirs);
    assert_eq!(files.len(), 2);
    assert_eq!(files[0].dir_name, "2025-04-01-09:00");
    assert_eq!(files[1].dir_name, "2025-04-03-14:03");
    assert_eq!(files[0].file_path, "user_files/alice/2025-04-01-09:00/final.mp3");
    assert_eq!(files[0].timestamp, stamp(2025, 4, 1, 9, 0));
    assert_eq!(files[1].timestamp.to_text(), Some("2025-04-03-14:03".to_string()));
    assert_eq!(files[1].timestamp_text(), "2025-04-03-14:03");
}

#[test]
fn folders_without_audio_are_skipped() {
    let dirs = vec![dir("2025-04-03-14:03", false), dir("2024-12-31-23:59", true)];
    let files = select_final_files("bob", &dirs);
    assert_eq!(files.len(), 1);
    assert_eq!(files[0].dir_name, "2024-12-31-23:59");
}

#[test]
fn no_folders_no_entries() {
    assert!(select_final_files("carol", &Vec::new()).is_empty());
}

#[test]
fn folder_names_parse_as_timestamps() {
    assert_eq!(parse_request_timestamp("2025-04-03-14:03"), Some(stamp(2025, 4, 3, 14, 3)));
    assert_eq!(parse_request_timestamp("not-a-date"), None);
    assert_eq!(parse_request_timestamp("2025-13-03-14:03"), None);
    assert_eq!(parse_request_timestamp("2025-04-03-24:00"), None);
    assert_eq!(parse_request_timestamp(""), None);
}

#[test]
fn timestamps_render_zero_padded() {
    let text = |t: RequestTimestamp| t.to_text().unwrap();
    assert_eq!(text(stamp(2025, 4, 1, 9, 0)), "2025-04-01-09:00");
    assert_eq!(text(stamp(7, 1, 2, 3, 4)), "0007-01-02-03:04");
    assert_eq!(text(stamp(12345, 12, 31, 23, 59)), "+12345-12-31-23:59");
    assert_eq!(text(stamp(-5, 1, 1, 0, 0)), "-0005-01-01-00:00");
}

#[test]
fn impossible_dates_have_no_text() {
    assert_eq!(stamp(2025, 2, 31, 0, 0).to_text(), None);
    let f = FinalFile {
        timestamp: stamp(2025, 2, 31, 0, 0),
        file_path: "p".to_string(),
        dir_name: "odd-name".to_string(),
    };
    assert_eq!(f.timestamp_text(), "odd-name");
}

#[test]
fn timestamps_compare_chronologically() {
    assert!(stamp_leq(&stamp(2025, 4, 1, 9, 0), &stamp(2025, 4, 3, 14, 3)));
    assert!(!stamp_leq(&stamp(2025, 4, 3, 14, 3), &stamp(2025, 4, 1, 9, 0)));
    assert!(stamp_leq(&stamp(2025, 4, 1, 9, 0), &stamp(2025, 4, 1, 9, 0)));
    assert!(stamp_leq(&stamp(2024, 12, 31, 23, 59), &stamp(2025, 1, 1, 0, 0)));
}

#[test]
fn equal_timestamps_keep_their_order() {
    let t = stamp(2025, 1, 1, 0, 0);
    let dirs = vec![
        ParsedDir { dir_name: "b".to_string(), timestamp: Some(t), has_final: true },
        ParsedDir { dir_name: "z".to_string(), timestamp: Some(stamp(2020, 1, 1, 0, 0)), has_final: true },
        ParsedDir { dir_name: "a".to_string(), timestamp: Some(t), has_final: true },
        ParsedDir { dir_name: "x".to_string(), timestamp: None, has_final: true },
    ];
    let files = collect_final_files("u", &dirs);
    let names: Vec<&str> = files.iter().map(|f| f.dir_name.as_str()).collect();
    assert_eq!(names, vec!["z", "b", "a"]);
}

#[test]
fn folder_names_sort_like_timestamps() {
    let stamps = vec![
        stamp(2025, 4, 3, 14, 3),
        stamp(2025, 4, 1, 9, 0),
        stamp(999, 12, 31, 23, 59),
        stamp(2025, 4, 1, 10, 0),
        stamp(2025, 10, 1, 0, 0),
    ];
    for a in &stamps {
        for b in &stamps {
            assert_eq!(a.to_text().unwrap() <= b.to_text().unwrap(), stamp_leq(a, b));
        }
    }
}
