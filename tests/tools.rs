use screen_record::muxer::{
    concat_args, concat_manifest, joined_file_name, raw_convert_args, raw_frame_rate,
};
use screen_record::process::{
    chars_of, kill_args, listing_args, listing_mentions, process_listed, VIDEO_RECORDER_EXE,
};
use screen_record::provision::{
    download_verdict, is_success_status, provision_action, tool_file_name, ProvisionAction,
    ProvisionError,
};
use screen_record::report::{registration_body, registration_text, REGISTRATION_ACCOUNT_ID};
use screen_record::text::decimal_text;
use screen_record::upload::{chunk_plan, stream_plan, ChunkRange, StreamItem, CHUNK_SIZE};

#[test]
fn decimal_rendering() {
    assert_eq!(decimal_text(0), "0");
    assert_eq!(decimal_text(7), "7");
    assert_eq!(decimal_text(10), "10");
    assert_eq!(decimal_text(1_234_567_890), "1234567890");
    assert_eq!(decimal_text(u64::MAX), "18446744073709551615");
}

#[test]
fn manifest_lists_clips_in_order() {
    let paths = vec!["C:\\t\\a.webm".to_string(), "b.webm".to_string()];
    assert_eq!(concat_manifest(&paths), "file 'C:\\t\\a.webm'\nfile 'b.webm'\n");
    assert_eq!(concat_manifest(&Vec::new()), "");
}

#[test]
fn muxer_command_lines() {
    assert_eq!(
        concat_args("list.txt", "out.mp4"),
        vec!["-f", "concat", "-safe", "0", "-i", "list.txt", "-c", "copy", "out.mp4"]
    );
    assert_eq!(joined_file_name("u20240101T000000"), "u20240101T000000_joined.mp4");
    assert_eq!(
        raw_convert_args("a.raw", "a.mp4", 1920, 1080, 30),
        vec![
            "-f", "rawvideo", "-pixel_format", "bgra", "-video_size", "1920x1080", "-framerate",
            "30", "-i", "a.raw", "-c:v", "libx264", "-preset", "ultrafast", "-threads", "2",
            "-pix_fmt", "yuv420p", "a.mp4"
        ]
    );
}

#[test]
fn raw_frame_rate_rounds_and_floors_at_one() {
    assert_eq!(raw_frame_rate(2_400, 100_000), 24);
    assert_eq!(raw_frame_rate(3, 2_000), 2);
    assert_eq!(raw_frame_rate(1, 10_000), 1);
    assert_eq!(raw_frame_rate(0, 5_000), 1);
    assert_eq!(raw_frame_rate(0, 0), 1);
    assert_eq!(raw_frame_rate(5, 0), u64::MAX);
}

#[test]
fn process_listing_is_matched_ignoring_case() {
    let listing = "Image Name   PID\n=========\nSCREEN_RECORD.EXE   4242 Console\n";
    assert!(process_listed(listing, VIDEO_RECORDER_EXE));
    assert!(!listing_mentions(listing, VIDEO_RECORDER_EXE));
    assert!(!process_listed("INFO: No tasks are running.", VIDEO_RECORDER_EXE));
    assert!(listing_mentions("abc", ""));
    assert!(!listing_mentions("ab", "abc"));
    assert_eq!(chars_of("héllo"), vec!['h', 'é', 'l', 'l', 'o']);
}

#[test]
fn process_command_lines() {
    assert_eq!(listing_args("screen_record.exe"), vec!["/FI", "IMAGENAME eq screen_record.exe"]);
    assert_eq!(kill_args("screen_record.exe"), vec!["/F", "/IM", "screen_record.exe"]);
}

#[test]
fn tool_name_is_last_locator_segment() {
    assert_eq!(tool_file_name("http://10.209.99.48:9669/screen_record.exe"), "screen_record.exe");
    assert_eq!(tool_file_name("recorder.exe"), "recorder.exe");
    assert_eq!(tool_file_name("http://host/dir/"), "");
}

#[test]
fn provisioning_twice_fetches_at_most_once() {
    assert_eq!(provision_action(false), ProvisionAction::Download);
    assert_eq!(download_verdict(200, Some(69_000_000)), Ok(()));
    assert_eq!(provision_action(true), ProvisionAction::Skip);
    assert_eq!(provision_action(true), ProvisionAction::Skip);
}

#[test]
fn download_verdicts() {
    assert_eq!(download_verdict(404, Some(10)), Err(ProvisionError::Status { code: 404 }));
    assert_eq!(download_verdict(500, None), Err(ProvisionError::Status { code: 500 }));
    assert_eq!(download_verdict(200, None), Err(ProvisionError::Io));
    assert_eq!(download_verdict(200, Some(0)), Err(ProvisionError::Empty));
    assert_eq!(download_verdict(204, Some(1)), Ok(()));
    assert!(!is_success_status(199));
    assert!(is_success_status(200));
    assert!(is_success_status(299));
    assert!(!is_success_status(300));
}

#[test]
fn chunk_plan_cuts_fixed_size_chunks() {
    assert_eq!(CHUNK_SIZE, 1024 * 1024);
    assert!(chunk_plan(0).is_empty());
    assert_eq!(chunk_plan(1), vec![ChunkRange { offset: 0, len: 1 }]);
    assert_eq!(chunk_plan(CHUNK_SIZE), vec![ChunkRange { offset: 0, len: CHUNK_SIZE }]);
    assert_eq!(
        chunk_plan(CHUNK_SIZE + 1),
        vec![ChunkRange { offset: 0, len: CHUNK_SIZE }, ChunkRange { offset: CHUNK_SIZE, len: 1 }]
    );
    let plan = chunk_plan(3 * CHUNK_SIZE + 5);
    assert_eq!(plan.len(), 4);
    assert_eq!(plan[3], ChunkRange { offset: 3 * CHUNK_SIZE, len: 5 });
}

#[test]
fn registration_record_fields() {
    let body = registration_body("fb01-user", "u1_joined.mp4", 0).expect("in range");
    assert_eq!(
        body,
        "{\"employeeId\":\"fb01-user\",\"accountId\":0,\"fileId\":\"u1_joined.mp4\",\"createdAt\":\"1970-01-01T00:00:00+00:00\"}"
    );
    assert_eq!(REGISTRATION_ACCOUNT_ID, 0);
    let escaped = registration_body("a\"b", "f", 1_700_000_000).expect("in range");
    assert_eq!(
        escaped,
        "{\"employeeId\":\"a\\\"b\",\"accountId\":0,\"fileId\":\"f\",\"createdAt\":\"2023-11-14T22:13:20+00:00\"}"
    );
    assert_eq!(registration_text("\"e\"", 7, "\"f\"", "\"c\""), "{\"employeeId\":\"e\",\"accountId\":7,\"fileId\":\"f\",\"createdAt\":\"c\"}");
}

#[test]
fn stream_ends_with_explicit_end_of_file() {
    assert_eq!(stream_plan(0), vec![StreamItem::EndOfFile]);
    assert_eq!(
        stream_plan(CHUNK_SIZE + 2),
        vec![
            StreamItem::Chunk(ChunkRange { offset: 0, len: CHUNK_SIZE }),
            StreamItem::Chunk(ChunkRange { offset: CHUNK_SIZE, len: 2 }),
            StreamItem::EndOfFile,
        ]
    );
}
