//! Finding and stopping a running capture tool by its executable name.
use vstd::prelude::*;
use vstd::string::*;

use crate::text::views;

verus! {

/// The executable name of the capture tool.
pub const VIDEO_RECORDER_EXE: &'static str = "screen_record.exe";

/// Whether `p` occurs in `s` as a contiguous run.
pub open spec fn contains_text(s: Seq<char>, p: Seq<char>) -> bool {
    exists|i: int| 0 <= i && i + p.len() <= s.len() && #[trigger] s.subrange(i, i + p.len()) == p
}

/// The lower-case form of `s`, as Unicode defines it.
pub uninterp spec fn lower_of(s: Seq<char>) -> Seq<char>;

/// Relies on `str::to_lowercase`: the result depends on the characters alone.
#[verifier::external_body]
fn lowercase(s: &str) -> (r: String)
    ensures
        r@ == lower_of(s@),
{
    s.to_lowercase()
}

/// The characters of `s`.
pub fn chars_of(s: &str) -> (r: Vec<char>)
    ensures
        r@ == s@,
{
    let n = s.unicode_len();
    let mut r: Vec<char> = Vec::new();
    let mut i: usize = 0;
    while i < n
        invariant
            i <= n == s@.len(),
            r@ == s@.subrange(0, i as int),
        decreases n - i,
    {
        r.push(s.get_char(i));
        i = i + 1;
        assert(r@ =~= s@.subrange(0, i as int));
    }
    assert(s@.subrange(0, n as int) =~= s@);
    r
}

fn matches_at(hay: &Vec<char>, needle: &Vec<char>, i: usize) -> (r: bool)
    requires
        i + needle@.len() <= hay@.len(),
    ensures
        r == (hay@.subrange(i as int, i + needle@.len()) == needle@),
{
    let m = needle.len();
    let n = hay.len();
    let mut j: usize = 0;
    while j < m
        invariant
            j <= m == needle@.len(),
            n == hay@.len(),
            i + m <= hay@.len(),
            forall|k: int| 0 <= k < j ==> hay@[i + k] == needle@[k],
        decreases m - j,
    {
        if hay[i + j] != needle[j] {
            assert(hay@.subrange(i as int, i + m)[j as int] != needle@[j as int]);
            return false;
        }
        j = j + 1;
    }
    assert(hay@.subrange(i as int, i + m) =~= needle@);
    true
}

/// Whether `needle` occurs in `hay`, character for character.
pub fn listing_mentions(hay: &str, needle: &str) -> (r: bool)
    ensures
        r == contains_text(hay@, needle@),
{
    let h = chars_of(hay);
    let p = chars_of(needle);
    if p.len() > h.len() {
        return false;
    }
    if p.len() == 0 {
        assert(hay@.subrange(0int, 0int + needle@.len()) =~= needle@);
        return true;
    }
    let n = h.len();
    let last = n - p.len();
    let mut i: usize = 0;
    while i <= last
        invariant
            last + p@.len() == h@.len() == n,
            p@.len() > 0,
            h@ == hay@,
            p@ == needle@,
            forall|k: int| 0 <= k < i ==> #[trigger] hay@.subrange(k, k + needle@.len()) != needle@,
        decreases last + 1 - i,
    {
        if matches_at(&h, &p, i) {
            return true;
        }
        i = i + 1;
    }
    false
}

/// Whether a process listing names `exe_name`, ignoring case.
pub fn process_listed(listing: &str, exe_name: &str) -> (r: bool)
    ensures
        r == contains_text(lower_of(listing@), lower_of(exe_name@)),
{
    let hay = lowercase(listing);
    let needle = lowercase(exe_name);
    listing_mentions(hay.as_str(), needle.as_str())
}

/// The arguments of the process listing filtered to `exe_name`.
pub fn listing_args(exe_name: &str) -> (r: Vec<String>)
    ensures
        views(r@) == seq!["/FI"@, "IMAGENAME eq "@ + exe_name@],
{
    let mut filter = String::from_str("IMAGENAME eq ");
    filter.append(exe_name);
    let r = vec![String::from_str("/FI"), filter];
    assert(views(r@) =~= seq!["/FI"@, "IMAGENAME eq "@ + exe_name@]);
    r
}

/// The arguments that force every process of `exe_name` to end.
pub fn kill_args(exe_name: &str) -> (r: Vec<String>)
    ensures
        views(r@) == seq!["/F"@, "/IM"@, exe_name@],
{
    let r = vec![String::from_str("/F"), String::from_str("/IM"), String::from_str(exe_name)];
    assert(views(r@) =~= seq!["/F"@, "/IM"@, exe_name@]);
    r
}

} // verus!
