//! Text handed to the external muxer: the ordered concat manifest, its
//! command lines, and the name of a joined artifact.
use vstd::prelude::*;
use vstd::string::*;

use crate::text::{decimal, decimal_text, views};

verus! {

/// The manifest line of one clip.
pub open spec fn manifest_line(path: Seq<char>) -> Seq<char> {
    "file '"@ + path + "'\n"@
}

/// The concat manifest of `paths`: one line per clip, in order.
pub open spec fn manifest_of(paths: Seq<Seq<char>>) -> Seq<char>
    decreases paths.len(),
{
    if paths.len() == 0 {
        Seq::empty()
    } else {
        manifest_of(paths.drop_last()) + manifest_line(paths.last())
    }
}

/// Writes the concat manifest that joins `paths` in the given order.
pub fn concat_manifest(paths: &Vec<String>) -> (r: String)
    ensures
        r@ == manifest_of(views(paths@)),
{
    let mut text = String::new();
    let mut i: usize = 0;
    while i < paths.len()
        invariant
            i <= paths@.len(),
            text@ == manifest_of(views(paths@.subrange(0, i as int))),
        decreases paths@.len() - i,
    {
        proof {
            let next = views(paths@.subrange(0, i + 1));
            assert(next.drop_last() =~= views(paths@.subrange(0, i as int)));
            assert(next.last() == paths@[i as int]@);
        }
        text.append("file '");
        text.append(paths[i].as_str());
        text.append("'\n");
        proof {
            let next = views(paths@.subrange(0, i + 1));
            assert(text@ =~= manifest_of(views(paths@.subrange(0, i as int))) + manifest_line(
                next.last(),
            ));
        }
        i = i + 1;
    }
    assert(paths@.subrange(0, paths@.len() as int) =~= paths@);
    text
}

/// The muxer's command line that joins the clips listed in `manifest` into
/// `output` by stream copy.
pub open spec fn concat_args_of(manifest: Seq<char>, output: Seq<char>) -> Seq<Seq<char>> {
    seq!["-f"@, "concat"@, "-safe"@, "0"@, "-i"@, manifest, "-c"@, "copy"@, output]
}

/// The muxer's command line for a join.
pub fn concat_args(manifest: &str, output: &str) -> (r: Vec<String>)
    ensures
        views(r@) == concat_args_of(manifest@, output@),
{
    let r = vec![
        String::from_str("-f"),
        String::from_str("concat"),
        String::from_str("-safe"),
        String::from_str("0"),
        String::from_str("-i"),
        String::from_str(manifest),
        String::from_str("-c"),
        String::from_str("copy"),
        String::from_str(output),
    ];
    assert(views(r@) =~= concat_args_of(manifest@, output@));
    r
}

/// The file name of the artifact joined from a batch whose first clip has
/// stem `stem`.
pub fn joined_file_name(stem: &str) -> (r: String)
    ensures
        r@ == stem@ + "_joined.mp4"@,
{
    let mut name = String::from_str(stem);
    name.append("_joined.mp4");
    name
}

/// The frame rate of a raw capture of `frames` frames over `elapsed_ms`
/// milliseconds: the rate rounded to the nearest whole number, halves up,
/// and at least one. An empty capture of no time has rate one; frames over
/// no time have the largest rate.
pub open spec fn raw_frame_rate_of(frames: nat, elapsed_ms: nat) -> nat {
    if elapsed_ms == 0 {
        if frames == 0 {
            1
        } else {
            u64::MAX as nat
        }
    } else {
        let rounded = (2000 * frames + elapsed_ms) / (2 * elapsed_ms);
        if rounded == 0 {
            1
        } else if rounded > u64::MAX {
            u64::MAX as nat
        } else {
            rounded
        }
    }
}

/// The frame rate of a raw capture.
pub fn raw_frame_rate(frames: u64, elapsed_ms: u64) -> (r: u64)
    ensures
        r as nat == raw_frame_rate_of(frames as nat, elapsed_ms as nat),
{
    if elapsed_ms == 0 {
        if frames == 0 {
            1
        } else {
            u64::MAX
        }
    } else {
        let num: u128 = 2000 * (frames as u128) + elapsed_ms as u128;
        let den: u128 = 2 * (elapsed_ms as u128);
        let rounded = num / den;
        if rounded == 0 {
            1
        } else if rounded > u64::MAX as u128 {
            u64::MAX
        } else {
            rounded as u64
        }
    }
}

/// The muxer's command line that encodes a raw BGRA capture into an H.264
/// file.
pub open spec fn raw_convert_args_of(
    raw: Seq<char>,
    output: Seq<char>,
    width: nat,
    height: nat,
    rate: nat,
) -> Seq<Seq<char>> {
    seq![
        "-f"@,
        "rawvideo"@,
        "-pixel_format"@,
        "bgra"@,
        "-video_size"@,
        decimal(width) + "x"@ + decimal(height),
        "-framerate"@,
        decimal(rate),
        "-i"@,
        raw,
        "-c:v"@,
        "libx264"@,
        "-preset"@,
        "ultrafast"@,
        "-threads"@,
        "2"@,
        "-pix_fmt"@,
        "yuv420p"@,
        output,
    ]
}

/// The muxer's command line for converting a raw capture.
pub fn raw_convert_args(raw: &str, output: &str, width: u64, height: u64, rate: u64) -> (r: Vec<
    String,
>)
    ensures
        views(r@) == raw_convert_args_of(
            raw@,
            output@,
            width as nat,
            height as nat,
            rate as nat,
        ),
{
    let mut size = decimal_text(width);
    size.append("x");
    let h = decimal_text(height);
    size.append(h.as_str());
    let r = vec![
        String::from_str("-f"),
        String::from_str("rawvideo"),
        String::from_str("-pixel_format"),
        String::from_str("bgra"),
        String::from_str("-video_size"),
        size,
        String::from_str("-framerate"),
        decimal_text(rate),
        String::from_str("-i"),
        String::from_str(raw),
        String::from_str("-c:v"),
        String::from_str("libx264"),
        String::from_str("-preset"),
        String::from_str("ultrafast"),
        String::from_str("-threads"),
        String::from_str("2"),
        String::from_str("-pix_fmt"),
        String::from_str("yuv420p"),
        String::from_str(output),
    ];
    assert(views(r@) =~= raw_convert_args_of(
        raw@,
        output@,
        width as nat,
        height as nat,
        rate as nat,
    ));
    r
}

} // verus!
