//! Locating the file that the capture tool produced.
//!
//! The tool may pick its own extension and may not write exactly at the
//! path it was given, so the output is searched in two phases: first the
//! expected stem with each known video extension, then the newest recent
//! video file in the working directory.
use vstd::prelude::*;
use vstd::string::*;

verus! {

/// One file of the working directory, as read from the file system.
#[derive(Clone, Debug)]
pub struct DirEntry {
    /// The file name, without directory.
    pub name: String,
    /// Its size in bytes.
    pub size: u64,
    /// Its modification time in nanoseconds since the Unix epoch, where known.
    pub modified_nanos: Option<u64>,
}

/// Number of known video extensions.
pub const VIDEO_EXTENSION_COUNT: usize = 4;

/// A file found by the scan phase must be larger than this many bytes.
pub const MIN_SCAN_SIZE: u64 = 1000;

/// Nanoseconds in one second.
pub const NANOS_PER_SEC: u64 = 1_000_000_000;

/// The known video extensions, in the order the exact phase tries them.
pub open spec fn video_ext(k: int) -> Seq<char> {
    if k == 0 {
        "webm"@
    } else if k == 1 {
        "mp4"@
    } else if k == 2 {
        "avi"@
    } else {
        "mkv"@
    }
}

/// The known video extension of rank `k`.
fn video_extension(k: usize) -> (r: &'static str)
    requires
        k < VIDEO_EXTENSION_COUNT,
    ensures
        r@ == video_ext(k as int),
{
    match k {
        0 => "webm",
        1 => "mp4",
        2 => "avi",
        _ => "mkv",
    }
}

/// The index of the last `c` in `s`, or -1.
pub open spec fn last_index_of(s: Seq<char>, c: char) -> int
    decreases s.len(),
{
    if s.len() == 0 {
        -1
    } else if s.last() == c {
        s.len() - 1
    } else {
        last_index_of(s.drop_last(), c)
    }
}

/// The extension of a file name: what follows its last dot, where that dot
/// is not the first character and the name is not `..`.
pub open spec fn extension_of(name: Seq<char>) -> Option<Seq<char>> {
    let d = last_index_of(name, '.');
    if name == ".."@ || d <= 0 {
        None
    } else {
        Some(name.subrange(d + 1, name.len() as int))
    }
}

/// Whether a file name carries one of the known video extensions.
pub open spec fn has_video_ext(name: Seq<char>) -> bool {
    match extension_of(name) {
        Some(e) => exists|k: int| 0 <= k < VIDEO_EXTENSION_COUNT && e == #[trigger] video_ext(k),
        None => false,
    }
}

/// The name that the exact phase looks for with extension rank `k`.
pub open spec fn exact_name(stem: Seq<char>, k: int) -> Seq<char> {
    stem + "."@ + video_ext(k)
}

/// The first of the first `n` entries that is named `name` and is not empty.
pub open spec fn first_exact(entries: Seq<DirEntry>, name: Seq<char>, n: nat) -> Option<int>
    decreases n,
{
    if n == 0 {
        None
    } else {
        match first_exact(entries, name, (n - 1) as nat) {
            Some(i) => Some(i),
            None => {
                let e = entries[n - 1];
                if n <= entries.len() && e.name@ == name && e.size > 0 {
                    Some(n - 1)
                } else {
                    None
                }
            },
        }
    }
}

/// The exact phase from extension rank `k` on.
pub open spec fn exact_pick(entries: Seq<DirEntry>, stem: Seq<char>, k: nat) -> Option<int>
    decreases VIDEO_EXTENSION_COUNT - k,
{
    if k >= VIDEO_EXTENSION_COUNT {
        None
    } else {
        match first_exact(entries, exact_name(stem, k as int), entries.len()) {
            Some(i) => Some(i),
            None => exact_pick(entries, stem, k + 1),
        }
    }
}

/// Whether the scan phase may take `e`: a known video extension, larger than
/// the size floor, and modified no later than `now` and less than `window`
/// whole seconds before it.
pub open spec fn eligible(e: DirEntry, now: u64, window: u64) -> bool {
    &&& has_video_ext(e.name@)
    &&& e.size > MIN_SCAN_SIZE
    &&& e.modified_nanos is Some
    &&& e.modified_nanos->0 <= now
    &&& (now - e.modified_nanos->0) / (NANOS_PER_SEC as int) < window
}

/// The modification time of an entry, zero where unknown.
pub open spec fn mtime(e: DirEntry) -> int {
    match e.modified_nanos {
        Some(m) => m as int,
        None => 0,
    }
}

/// The scan phase over the first `n` entries: the eligible entry modified
/// last, the later one in the listing among equal times.
pub open spec fn newest_eligible(entries: Seq<DirEntry>, now: u64, window: u64, n: nat) -> Option<int>
    decreases n,
{
    if n == 0 {
        None
    } else {
        let prev = newest_eligible(entries, now, window, (n - 1) as nat);
        let e = entries[n - 1];
        if n <= entries.len() && eligible(e, now, window) && (prev is None || mtime(e) >= mtime(
            entries[prev->0],
        )) {
            Some(n - 1)
        } else {
            prev
        }
    }
}

/// The entry that holds the recording: the exact phase, else the scan phase.
pub open spec fn located(stem: Seq<char>, entries: Seq<DirEntry>, now: u64, window: u64) -> Option<
    int,
> {
    match exact_pick(entries, stem, 0) {
        Some(i) => Some(i),
        None => newest_eligible(entries, now, window, entries.len()),
    }
}

proof fn lemma_first_exact_found(entries: Seq<DirEntry>, name: Seq<char>, n: nat)
    requires
        n <= entries.len(),
    ensures
        match first_exact(entries, name, n) {
            Some(i) => 0 <= i < n && entries[i].name@ == name && entries[i].size > 0,
            None => forall|j: int|
                0 <= j < n ==> !(#[trigger] entries[j].name@ == name && entries[j].size > 0),
        },
    decreases n,
{
    if n > 0 {
        lemma_first_exact_found(entries, name, (n - 1) as nat);
    }
}

proof fn lemma_newest_eligible(entries: Seq<DirEntry>, now: u64, window: u64, n: nat)
    requires
        n <= entries.len(),
    ensures
        match newest_eligible(entries, now, window, n) {
            Some(i) => {
                &&& 0 <= i < n
                &&& eligible(entries[i], now, window)
                &&& forall|j: int|
                    0 <= j < n && eligible(#[trigger] entries[j], now, window) ==> mtime(entries[j])
                        <= mtime(entries[i])
                &&& forall|j: int|
                    i < j < n && eligible(#[trigger] entries[j], now, window) ==> mtime(entries[j])
                        < mtime(entries[i])
            },
            None => forall|j: int| 0 <= j < n ==> !eligible(#[trigger] entries[j], now, window),
        },
    decreases n,
{
    if n > 0 {
        lemma_newest_eligible(entries, now, window, (n - 1) as nat);
    }
}

/// Where a non-empty file named after the stem with the `mp4` extension
/// exists and no non-empty one with the `webm` extension (tried before it),
/// the file chosen is a non-empty `stem.mp4`, whatever other video files lie
/// in the directory.
pub proof fn law_exact_stem_wins(
    stem: Seq<char>,
    entries: Seq<DirEntry>,
    now: u64,
    window: u64,
    i: int,
)
    requires
        0 <= i < entries.len(),
        entries[i].name@ == stem + "."@ + "mp4"@,
        entries[i].size > 0,
        forall|j: int|
            0 <= j < entries.len() ==> !(#[trigger] entries[j].name@ == stem + "."@ + "webm"@
                && entries[j].size > 0),
    ensures
        located(stem, entries, now, window) is Some,
        entries[located(stem, entries, now, window)->0].name@ == stem + "."@ + "mp4"@,
        entries[located(stem, entries, now, window)->0].size > 0,
{
    lemma_first_exact_found(entries, exact_name(stem, 0), entries.len());
    lemma_first_exact_found(entries, exact_name(stem, 1), entries.len());
    assert(entries[i].name@ == exact_name(stem, 1));
    assert(first_exact(entries, exact_name(stem, 0), entries.len()) is None);
    assert(first_exact(entries, exact_name(stem, 1), entries.len()) is Some);
    assert(exact_pick(entries, stem, 1) == first_exact(entries, exact_name(stem, 1), entries.len()));
    assert(exact_pick(entries, stem, 0) == exact_pick(entries, stem, 1));
}

/// Where no non-empty file is named after the stem with a known video
/// extension, the file chosen is an eligible one (known video extension,
/// above the size floor, modified within the window) modified no earlier
/// than any other eligible file and strictly later than every eligible file
/// listed after it; none is chosen only where no file is eligible.
pub proof fn law_newest_recent_fallback(
    stem: Seq<char>,
    entries: Seq<DirEntry>,
    now: u64,
    window: u64,
)
    requires
        forall|k: int, j: int|
            0 <= k < VIDEO_EXTENSION_COUNT && 0 <= j < entries.len() ==> !(
            #[trigger] entries[j].name@ == #[trigger] exact_name(stem, k) && entries[j].size > 0),
    ensures
        match located(stem, entries, now, window) {
            Some(i) => {
                &&& 0 <= i < entries.len()
                &&& eligible(entries[i], now, window)
                &&& forall|j: int|
                    0 <= j < entries.len() && eligible(#[trigger] entries[j], now, window)
                        ==> mtime(entries[j]) <= mtime(entries[i])
                &&& forall|j: int|
                    i < j < entries.len() && eligible(#[trigger] entries[j], now, window)
                        ==> mtime(entries[j]) < mtime(entries[i])
            },
            None => forall|j: int|
                0 <= j < entries.len() ==> !eligible(#[trigger] entries[j], now, window),
        },
{
    lemma_first_exact_found(entries, exact_name(stem, 0), entries.len());
    lemma_first_exact_found(entries, exact_name(stem, 1), entries.len());
    lemma_first_exact_found(entries, exact_name(stem, 2), entries.len());
    lemma_first_exact_found(entries, exact_name(stem, 3), entries.len());
    assert(exact_pick(entries, stem, 4) is None);
    assert(exact_pick(entries, stem, 3) is None);
    assert(exact_pick(entries, stem, 2) is None);
    assert(exact_pick(entries, stem, 1) is None);
    assert(exact_pick(entries, stem, 0) is None);
    lemma_newest_eligible(entries, now, window, entries.len());
}

/// The position of the last `c` in `s`, if any.
pub fn last_position(s: &str, c: char) -> (r: Option<usize>)
    ensures
        match r {
            Some(i) => i < s@.len() && i as int == last_index_of(s@, c),
            None => last_index_of(s@, c) == -1,
        },
{
    let n = s.unicode_len();
    let mut i: usize = n;
    assert(s@.subrange(0, n as int) =~= s@);
    while i > 0
        invariant
            i <= n == s@.len(),
            last_index_of(s@, c) == last_index_of(s@.subrange(0, i as int), c),
        decreases i,
    {
        proof {
            assert(s@.subrange(0, i as int).drop_last() =~= s@.subrange(0, i - 1));
        }
        if s.get_char(i - 1) == c {
            return Some(i - 1);
        }
        i = i - 1;
    }
    None
}

/// The extension of a file name, as `extension_of` states it.
pub fn file_extension(name: &str) -> (r: Option<String>)
    ensures
        match r {
            Some(e) => extension_of(name@) == Some(e@),
            None => extension_of(name@) is None,
        },
{
    proof {
        reveal_strlit("..");
    }
    let n = name.unicode_len();
    if n == 2 && name.get_char(0) == '.' && name.get_char(1) == '.' {
        assert(name@ =~= ".."@);
        return None;
    }
    assert(name@ != ".."@) by {
        if name@ == ".."@ {
            assert(name@[0] == '.' && name@[1] == '.');
        }
    }
    match last_position(name, '.') {
        Some(d) => {
            if d == 0 {
                None
            } else {
                Some(String::from_str(name.substring_char(d + 1, n)))
            }
        },
        None => None,
    }
}

/// Whether a file name carries one of the known video extensions.
pub fn is_video_name(name: &str) -> (r: bool)
    ensures
        r == has_video_ext(name@),
{
    match file_extension(name) {
        Some(e) => {
            let mut k: usize = 0;
            while k < VIDEO_EXTENSION_COUNT
                invariant
                    k <= VIDEO_EXTENSION_COUNT,
                    extension_of(name@) == Some(e@),
                    forall|j: int| 0 <= j < k ==> e@ != #[trigger] video_ext(j),
                decreases VIDEO_EXTENSION_COUNT - k,
            {
                if e == String::from_str(video_extension(k)) {
                    return true;
                }
                k = k + 1;
            }
            false
        },
        None => false,
    }
}

/// Whether the scan phase may take `e`.
pub fn is_eligible(e: &DirEntry, now: u64, window: u64) -> (r: bool)
    ensures
        r == eligible(*e, now, window),
{
    match e.modified_nanos {
        Some(m) => {
            is_video_name(e.name.as_str()) && e.size > MIN_SCAN_SIZE && m <= now && (now - m)
                / NANOS_PER_SEC < window
        },
        None => false,
    }
}

fn first_exact_index(entries: &Vec<DirEntry>, name: &String) -> (r: Option<usize>)
    ensures
        match r {
            Some(i) => first_exact(entries@, name@, entries@.len()) == Some(i as int),
            None => first_exact(entries@, name@, entries@.len()) is None,
        },
{
    let mut i: usize = 0;
    while i < entries.len()
        invariant
            i <= entries@.len(),
            first_exact(entries@, name@, i as nat) is None,
        decreases entries@.len() - i,
    {
        if entries[i].name == *name && entries[i].size > 0 {
            assert(first_exact(entries@, name@, (i + 1) as nat) == Some(i as int));
            proof {
                lemma_first_exact_stable(entries@, name@, (i + 1) as nat, entries@.len());
            }
            return Some(i);
        }
        i = i + 1;
    }
    None
}

proof fn lemma_first_exact_stable(entries: Seq<DirEntry>, name: Seq<char>, m: nat, n: nat)
    requires
        m <= n,
        first_exact(entries, name, m) is Some,
    ensures
        first_exact(entries, name, n) == first_exact(entries, name, m),
    decreases n - m,
{
    if m < n {
        lemma_first_exact_stable(entries, name, m, (n - 1) as nat);
    }
}

/// Finds the file that the capture tool wrote for `stem` among `entries`.
///
/// The exact phase tries `stem.webm`, `stem.mp4`, `stem.avi` and `stem.mkv`
/// in that order and takes the first non-empty file so named. Where none
/// exists, the scan phase takes the eligible file modified last.
pub fn locate_output(stem: &str, entries: &Vec<DirEntry>, now_nanos: u64, window_secs: u64) -> (r:
    Option<usize>)
    ensures
        match r {
            Some(i) => located(stem@, entries@, now_nanos, window_secs) == Some(i as int),
            None => located(stem@, entries@, now_nanos, window_secs) is None,
        },
{
    let mut k: usize = 0;
    while k < VIDEO_EXTENSION_COUNT
        invariant
            k <= VIDEO_EXTENSION_COUNT,
            exact_pick(entries@, stem@, 0) == exact_pick(entries@, stem@, k as nat),
        decreases VIDEO_EXTENSION_COUNT - k,
    {
        let mut name = String::from_str(stem);
        name.append(".");
        name.append(video_extension(k));
        assert(name@ == exact_name(stem@, k as int));
        match first_exact_index(entries, &name) {
            Some(i) => {
                return Some(i);
            },
            None => {},
        }
        k = k + 1;
    }
    let mut best: Option<usize> = None;
    let mut i: usize = 0;
    while i < entries.len()
        invariant
            i <= entries@.len(),
            exact_pick(entries@, stem@, 0) is None,
            match best {
                Some(b) => newest_eligible(entries@, now_nanos, window_secs, i as nat) == Some(
                    b as int,
                ) && b < i,
                None => newest_eligible(entries@, now_nanos, window_secs, i as nat) is None,
            },
        decreases entries@.len() - i,
    {
        let e = &entries[i];
        if is_eligible(e, now_nanos, window_secs) {
            let m = match e.modified_nanos {
                Some(m) => m,
                None => 0,
            };
            match best {
                None => {
                    best = Some(i);
                },
                Some(b) => {
                    let bm = match entries[b].modified_nanos {
                        Some(x) => x,
                        None => 0,
                    };
                    if m >= bm {
                        best = Some(i);
                    }
                },
            }
        }
        i = i + 1;
    }
    best
}

} // verus!
