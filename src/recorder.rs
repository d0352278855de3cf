//! One capture cycle: the name of its output, the command line of the
//! capture tool, the lifecycle of the tool's process, and the verdict once
//! the process has exited.
use vstd::prelude::*;
use vstd::string::*;

use crate::search::{located, locate_output, DirEntry};
use crate::text::{decimal, decimal_text, views};

verus! {

/// Seconds that one capture cycle records.
pub const CAPTURE_SECS: u64 = 120;

/// Frames per second asked of the capture tool.
pub const CAPTURE_FPS: u64 = 24;

/// Width of the capture, in pixels.
pub const CAPTURE_WIDTH: u64 = 1280;

/// Height of the capture, in pixels.
pub const CAPTURE_HEIGHT: u64 = 720;

/// The last second, counted from the Unix epoch, of the year 9999.
pub const LAST_FOUR_DIGIT_YEAR_SECS: i64 = 253402300799;

/// The UTC date and time of `secs` seconds after the Unix epoch, written as
/// year, month and day, a `T`, then hour, minute and second.
pub uninterp spec fn compact_stamp_of(secs: int) -> Seq<char>;

/// Relies on chrono's `DateTime::from_timestamp` and its `format` with
/// `%Y%m%dT%H%M%S`: the text depends on `secs` alone, and every instant up to
/// the end of year 9999 can be formatted.
#[verifier::external_body]
fn compact_stamp(secs: i64) -> (r: Option<String>)
    ensures
        r is Some ==> r->0@ == compact_stamp_of(secs as int),
        0 <= secs <= LAST_FOUR_DIGIT_YEAR_SECS ==> r is Some,
{
    match chrono::DateTime::from_timestamp(secs, 0) {
        Some(t) => Some(t.format("%Y%m%dT%H%M%S").to_string()),
        None => None,
    }
}

/// The stem of the file a cycle started at `now_secs` records into: the user
/// id followed by the compact UTC stamp of the start.
pub fn cycle_stem(user_id: &str, now_secs: i64) -> (r: Option<String>)
    ensures
        r is Some ==> r->0@ == user_id@ + compact_stamp_of(now_secs as int),
        0 <= now_secs <= LAST_FOUR_DIGIT_YEAR_SECS ==> r is Some,
{
    match compact_stamp(now_secs) {
        Some(stamp) => {
            let mut stem = String::from_str(user_id);
            stem.append(stamp.as_str());
            Some(stem)
        },
        None => None,
    }
}

/// The file name handed to the capture tool for `stem`.
pub fn initial_file_name(stem: &str) -> (r: String)
    ensures
        r@ == stem@ + ".webm"@,
{
    let mut name = String::from_str(stem);
    name.append(".webm");
    name
}

/// The command line of the capture tool, after the program name.
pub open spec fn capture_args_of(output: Seq<char>, secs: nat, fps: nat, width: nat, height: nat) -> Seq<
    Seq<char>,
> {
    seq![
        "--output"@,
        output,
        "--duration"@,
        decimal(secs),
        "--fps"@,
        decimal(fps),
        "--resolution"@,
        decimal(width) + "x"@ + decimal(height),
    ]
}

/// The command line of the capture tool for one cycle.
pub fn capture_args(output: &str, secs: u64, fps: u64, width: u64, height: u64) -> (r: Vec<String>)
    ensures
        views(r@) == capture_args_of(
            output@,
            secs as nat,
            fps as nat,
            width as nat,
            height as nat,
        ),
{
    let mut resolution = decimal_text(width);
    resolution.append("x");
    let h = decimal_text(height);
    resolution.append(h.as_str());
    let r = vec![
        String::from_str("--output"),
        String::from_str(output),
        String::from_str("--duration"),
        decimal_text(secs),
        String::from_str("--fps"),
        decimal_text(fps),
        String::from_str("--resolution"),
        resolution,
    ];
    assert(views(r@) =~= capture_args_of(
        output@,
        secs as nat,
        fps as nat,
        width as nat,
        height as nat,
    ));
    r
}

/// The lifecycle of the capture tool's process in one cycle.
#[derive(PartialEq, Eq, Structural, Clone, Copy, Debug)]
pub enum RecorderState {
    NotStarted,
    Running,
    CompletedWithOutput,
    CompletedNoOutput,
    Failed,
}

/// What happened to the capture tool's process.
#[derive(PartialEq, Eq, Structural, Clone, Copy, Debug)]
pub enum RecorderEvent {
    /// The process was started.
    Spawned,
    /// The process could not be started.
    SpawnFailed,
    /// Waiting for the process failed.
    WaitFailed,
    /// The process exited; `found_output` tells whether its file was located.
    Exited { found_output: bool },
}

/// The next state of the capture tool's process. The three completed states
/// are final, and an event that does not fit the state changes nothing.
pub open spec fn recorder_next(s: RecorderState, e: RecorderEvent) -> RecorderState {
    match (s, e) {
        (RecorderState::NotStarted, RecorderEvent::Spawned) => RecorderState::Running,
        (RecorderState::NotStarted, RecorderEvent::SpawnFailed) => RecorderState::Failed,
        (RecorderState::Running, RecorderEvent::WaitFailed) => RecorderState::Failed,
        (RecorderState::Running, RecorderEvent::Exited { found_output }) => {
            if found_output {
                RecorderState::CompletedWithOutput
            } else {
                RecorderState::CompletedNoOutput
            }
        },
        (s, _) => s,
    }
}

impl RecorderState {
    /// The state after `event`.
    pub fn advance(self, event: RecorderEvent) -> (r: RecorderState)
        ensures
            r == recorder_next(self, event),
    {
        match (self, event) {
            (RecorderState::NotStarted, RecorderEvent::Spawned) => RecorderState::Running,
            (RecorderState::NotStarted, RecorderEvent::SpawnFailed) => RecorderState::Failed,
            (RecorderState::Running, RecorderEvent::WaitFailed) => RecorderState::Failed,
            (RecorderState::Running, RecorderEvent::Exited { found_output }) => {
                if found_output {
                    RecorderState::CompletedWithOutput
                } else {
                    RecorderState::CompletedNoOutput
                }
            },
            (s, _) => s,
        }
    }

    /// Whether no further event can change the state.
    pub fn is_terminal(self) -> (r: bool)
        ensures
            r == (self != RecorderState::NotStarted && self != RecorderState::Running),
    {
        match self {
            RecorderState::NotStarted | RecorderState::Running => false,
            _ => true,
        }
    }
}

/// Why a capture cycle produced no clip.
#[derive(Debug)]
pub enum RecordingError {
    /// The capture tool could not be started.
    SpawnFailed { detail: String },
    /// Waiting for the capture tool failed.
    WaitFailed { detail: String },
    /// The tool exited and no file of the recording was found.
    NoOutput { exit_code: Option<i32>, stdout: String, stderr: String },
}

/// The verdict of a cycle whose capture tool exited with `exit_code`:
/// the index among `entries` of the recording, or the error that carries the
/// exit code and the tool's output for diagnosis.
pub fn conclude_recording(
    stem: &str,
    entries: &Vec<DirEntry>,
    now_nanos: u64,
    window_secs: u64,
    exit_code: Option<i32>,
    stdout: String,
    stderr: String,
) -> (r: Result<usize, RecordingError>)
    ensures
        match r {
            Ok(i) => located(stem@, entries@, now_nanos, window_secs) == Some(i as int),
            Err(e) => located(stem@, entries@, now_nanos, window_secs) is None && e
                == RecordingError::NoOutput { exit_code, stdout, stderr },
        },
{
    match locate_output(stem, entries, now_nanos, window_secs) {
        Some(i) => Ok(i),
        None => Err(RecordingError::NoOutput { exit_code, stdout, stderr }),
    }
}

} // verus!
