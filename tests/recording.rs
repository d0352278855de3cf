use screen_record::recorder::{
    capture_args, conclude_recording, cycle_stem, initial_file_name, RecorderEvent,
    RecorderState, RecordingError, CAPTURE_FPS, CAPTURE_HEIGHT, CAPTURE_SECS, CAPTURE_WIDTH,
};
use screen_record::search::{file_extension, is_eligible, is_video_name, locate_output, DirEntry};

const NOW: u64 = 1_700_000_000_000_000_000;
const SEC: u64 = 1_000_000_000;

fn entry(name: &str, size: u64, age_secs: Option<u64>) -> DirEntry {
    DirEntry {
        name: name.to_string(),
        size,
        modified_nanos: age_secs.map(|a| NOW - a * SEC),
    }
}

#[test]
fn exact_stem_mp4_wins_over_stale_videos() {
    let entries = vec![
        entry("older.webm", 900_000, Some(30)),
        entry("other.mkv", 2_000_000, Some(5)),
        entry("user20231114T221320.mp4", 10, Some(500)),
        entry("stale.avi", 3_000_000, Some(1)),
    ];
    assert_eq!(locate_output("user20231114T221320", &entries, NOW, 120), Some(2));
}

#[test]
fn exact_phase_tries_webm_before_mp4() {
    let entries = vec![
        entry("s.mp4", 10, Some(1)),
        entry("s.webm", 10, Some(1)),
    ];
    assert_eq!(locate_output("s", &entries, NOW, 120), Some(1));
}

#[test]
fn empty_exact_file_is_passed_over() {
    let entries = vec![
        entry("s.webm", 0, Some(1)),
        entry("s.avi", 7, Some(1)),
    ];
    assert_eq!(locate_output("s", &entries, NOW, 120), Some(1));
}

#[test]
fn fallback_picks_most_recent_eligible_file() {
    let entries = vec![
        entry("a.webm", 5_000, Some(100)),
        entry("b.mp4", 5_000, Some(10)),
        entry("c.mkv", 5_000, Some(50)),
        entry("d.mp4", 500, Some(1)),
        entry("e.txt", 5_000, Some(0)),
        entry("f.avi", 5_000, Some(200)),
        entry("g.webm", 5_000, None),
    ];
    assert_eq!(locate_output("missing", &entries, NOW, 120), Some(1));
}

#[test]
fn fallback_prefers_later_listing_on_equal_times() {
    let entries = vec![
        entry("a.webm", 5_000, Some(10)),
        entry("b.mp4", 5_000, Some(10)),
    ];
    assert_eq!(locate_output("missing", &entries, NOW, 120), Some(1));
}

#[test]
fn nothing_located_without_exact_or_eligible_file() {
    let entries = vec![
        entry("a.webm", 1_000, Some(1)),
        entry("b.mp4", 5_000, Some(120)),
        entry("c.mov", 5_000, Some(1)),
    ];
    assert_eq!(locate_output("missing", &entries, NOW, 120), None);
    assert_eq!(locate_output("missing", &Vec::new(), NOW, 120), None);
}

#[test]
fn window_counts_whole_seconds() {
    let just_inside = DirEntry {
        name: "x.mp4".to_string(),
        size: 1_001,
        modified_nanos: Some(NOW - 120 * SEC + 1),
    };
    assert!(is_eligible(&just_inside, NOW, 120));
    let on_edge = DirEntry { modified_nanos: Some(NOW - 120 * SEC), ..just_inside.clone() };
    assert!(!is_eligible(&on_edge, NOW, 120));
    let future = DirEntry { modified_nanos: Some(NOW + 1), ..just_inside.clone() };
    assert!(!is_eligible(&future, NOW, 120));
    let at_floor = DirEntry { size: 1_000, ..just_inside };
    assert!(!is_eligible(&at_floor, NOW, 120));
}

#[test]
fn extensions_follow_file_name_rules() {
    assert_eq!(file_extension("clip.webm").as_deref(), Some("webm"));
    assert_eq!(file_extension("a.b.mp4").as_deref(), Some("mp4"));
    assert_eq!(file_extension(".webm"), None);
    assert_eq!(file_extension(".."), None);
    assert_eq!(file_extension("noext"), None);
    assert_eq!(file_extension("trailing.").as_deref(), Some(""));
    assert!(is_video_name("x.mkv"));
    assert!(is_video_name("x.avi"));
    assert!(!is_video_name("x.MP4"));
    assert!(!is_video_name(".mp4"));
}

#[test]
fn no_output_error_carries_diagnostics() {
    let entries = vec![entry("unrelated.txt", 10, Some(1))];
    let r = conclude_recording(
        "stem",
        &entries,
        NOW,
        120,
        Some(2),
        "out".to_string(),
        "err".to_string(),
    );
    match r {
        Err(RecordingError::NoOutput { exit_code, stdout, stderr }) => {
            assert_eq!(exit_code, Some(2));
            assert_eq!(stdout, "out");
            assert_eq!(stderr, "err");
        }
        other => panic!("unexpected {:?}", other),
    }
    let found = vec![entry("stem.webm", 10, Some(1))];
    let ok = conclude_recording("stem", &found, NOW, 120, None, String::new(), String::new());
    assert!(matches!(ok, Ok(0)));
}

#[test]
fn recorder_state_transitions() {
    let s = RecorderState::NotStarted;
    assert_eq!(s.advance(RecorderEvent::SpawnFailed), RecorderState::Failed);
    let running = s.advance(RecorderEvent::Spawned);
    assert_eq!(running, RecorderState::Running);
    assert!(!running.is_terminal());
    assert_eq!(running.advance(RecorderEvent::WaitFailed), RecorderState::Failed);
    let with = running.advance(RecorderEvent::Exited { found_output: true });
    assert_eq!(with, RecorderState::CompletedWithOutput);
    assert_eq!(
        running.advance(RecorderEvent::Exited { found_output: false }),
        RecorderState::CompletedNoOutput
    );
    assert!(with.is_terminal());
    assert_eq!(with.advance(RecorderEvent::Spawned), RecorderState::CompletedWithOutput);
    assert_eq!(
        RecorderState::Failed.advance(RecorderEvent::Exited { found_output: true }),
        RecorderState::Failed
    );
}

#[test]
fn capture_command_line() {
    let args = capture_args(
        "temp/u1.webm",
        CAPTURE_SECS,
        CAPTURE_FPS,
        CAPTURE_WIDTH,
        CAPTURE_HEIGHT,
    );
    assert_eq!(
        args,
        vec![
            "--output",
            "temp/u1.webm",
            "--duration",
            "120",
            "--fps",
            "24",
            "--resolution",
            "1280x720"
        ]
    );
}

#[test]
fn cycle_stem_appends_compact_utc_stamp() {
    assert_eq!(cycle_stem("user", 0).as_deref(), Some("user19700101T000000"));
    assert_eq!(cycle_stem("u-", 1_700_000_000).as_deref(), Some("u-20231114T221320"));
    assert_eq!(initial_file_name("u-20231114T221320"), "u-20231114T221320.webm");
}
