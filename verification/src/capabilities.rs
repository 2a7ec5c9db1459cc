//! What the installed FFmpeg can do: its version line, its hardware accelerations, and
//! which of the encoders MediaForge uses it lists.

use vstd::prelude::*;
use crate::codec::{has_token, lemma_views_push, listed, str_views, views};
use crate::model::{MediaError};
use crate::text::{chars_of, from_chars_range, has_char, has_char_text, lemma_split_on_nonempty, owned, split_on, split_text, str_eq, trim, trim_text};

verus! {

/// The codecs reported by `capabilities`, each with the encoders that can produce it.
pub open spec fn encoder_rows() -> Seq<(Seq<char>, Seq<Seq<char>>)> {
    seq![
        ("h264"@, seq!["libx264"@, "h264_videotoolbox"@, "h264_nvenc"@, "h264_qsv"@, "h264_amf"@]),
        ("hevc"@, seq!["libx265"@, "hevc_videotoolbox"@, "hevc_nvenc"@, "hevc_qsv"@, "hevc_amf"@]),
        ("vp9"@, seq!["libvpx-vp9"@]),
        ("av1"@, seq!["libaom-av1"@, "libsvtav1"@, "av1_nvenc"@, "av1_qsv"@, "av1_amf"@]),
        ("mpeg4"@, seq!["mpeg4"@, "libxvid"@]),
        ("mpeg2video"@, seq!["mpeg2video"@]),
        ("flv1"@, seq!["flv1"@]),
        ("wmv2"@, seq!["wmv2"@]),
        ("theora"@, seq!["libtheora"@, "theora"@]),
        ("mjpeg"@, seq!["mjpeg"@]),
        ("png"@, seq!["png"@]),
        ("webp"@, seq!["libwebp"@]),
        ("gif"@, seq!["gif"@]),
        ("bmp"@, seq!["bmp"@]),
        ("tiff"@, seq!["tiff"@]),
        ("targa"@, seq!["targa"@]),
        ("libaom-av1-image"@, seq!["libaom-av1"@]),
        ("aac"@, seq!["aac"@, "libfdk_aac"@]),
        ("mp3"@, seq!["libmp3lame"@, "mp3"@]),
        ("opus"@, seq!["libopus"@, "opus"@]),
        ("vorbis"@, seq!["libvorbis"@, "vorbis"@]),
        ("flac"@, seq!["flac"@]),
        ("pcm_s16le"@, seq!["pcm_s16le"@]),
        ("wmav2"@, seq!["wmav2"@]),
        ("alac"@, seq!["alac"@]),
        ("amr_nb"@, seq!["libopencore_amrnb"@, "amr_nb"@]),
        ("ac3"@, seq!["ac3"@]),
        ("mp2"@, seq!["mp2"@]),
    ]
}

/// The rows of `encoder_rows`.
pub fn encoder_table() -> (r: Vec<(&'static str, Vec<&'static str>)>)
    ensures
        r@.len() == encoder_rows().len(),
        forall|i: int|
            0 <= i < r@.len() ==> (#[trigger] r@[i]).0@ == encoder_rows()[i].0 && str_views(
                r@[i].1@,
            ) == encoder_rows()[i].1,
{
    let r = vec![
        ("h264", vec!["libx264", "h264_videotoolbox", "h264_nvenc", "h264_qsv", "h264_amf"]),
        ("hevc", vec!["libx265", "hevc_videotoolbox", "hevc_nvenc", "hevc_qsv", "hevc_amf"]),
        ("vp9", vec!["libvpx-vp9"]),
        ("av1", vec!["libaom-av1", "libsvtav1", "av1_nvenc", "av1_qsv", "av1_amf"]),
        ("mpeg4", vec!["mpeg4", "libxvid"]),
        ("mpeg2video", vec!["mpeg2video"]),
        ("flv1", vec!["flv1"]),
        ("wmv2", vec!["wmv2"]),
        ("theora", vec!["libtheora", "theora"]),
        ("mjpeg", vec!["mjpeg"]),
        ("png", vec!["png"]),
        ("webp", vec!["libwebp"]),
        ("gif", vec!["gif"]),
        ("bmp", vec!["bmp"]),
        ("tiff", vec!["tiff"]),
        ("targa", vec!["targa"]),
        ("libaom-av1-image", vec!["libaom-av1"]),
        ("aac", vec!["aac", "libfdk_aac"]),
        ("mp3", vec!["libmp3lame", "mp3"]),
        ("opus", vec!["libopus", "opus"]),
        ("vorbis", vec!["libvorbis", "vorbis"]),
        ("flac", vec!["flac"]),
        ("pcm_s16le", vec!["pcm_s16le"]),
        ("wmav2", vec!["wmav2"]),
        ("alac", vec!["alac"]),
        ("amr_nb", vec!["libopencore_amrnb", "amr_nb"]),
        ("ac3", vec!["ac3"]),
        ("mp2", vec!["mp2"]),
    ];
    assert forall|i: int| 0 <= i < r@.len() implies (#[trigger] r@[i]).0@ == encoder_rows()[i].0
        && str_views(r@[i].1@) == encoder_rows()[i].1 by {
        assert(str_views(r@[i].1@) =~= encoder_rows()[i].1);
    }
    r
}

/// The encoders among `needles` that the listing names, in needle order.
pub open spec fn listed_among(text: Seq<char>, needles: Seq<Seq<char>>) -> Seq<Seq<char>> {
    needles.filter(|n: Seq<char>| has_token(text, n))
}

/// The encoders among `needles` that the encoder listing `text` names.
pub fn found_encoders(text: &str, needles: &Vec<&'static str>) -> (r: Vec<String>)
    ensures
        views(r@) == listed_among(text@, str_views(needles@)),
{
    let ghost nv = str_views(needles@);
    let mut out: Vec<String> = Vec::new();
    let mut i: usize = 0;
    while i < needles.len()
        invariant
            nv == str_views(needles@),
            0 <= i <= needles@.len(),
            views(out@) == listed_among(text@, nv.take(i as int)),
        decreases needles.len() - i,
    {
        proof {
            assert(nv.take(i + 1).drop_last() =~= nv.take(i as int));
            reveal(Seq::filter);
        }
        if listed(text, needles[i]) {
            let ghost before = out@;
            out.push(owned(needles[i]));
            proof {
                lemma_views_push(before, out@.last());
            }
        }
        i = i + 1;
    }
    assert(nv.take(nv.len() as int) =~= nv);
    out
}

/// The encoders found for each reported codec.
pub fn capability_encoders(text: &str) -> (r: Vec<(String, Vec<String>)>)
    ensures
        r@.len() == encoder_rows().len(),
        forall|i: int|
            0 <= i < r@.len() ==> (#[trigger] r@[i]).0@ == encoder_rows()[i].0 && views(r@[i].1@)
                == listed_among(text@, encoder_rows()[i].1),
{
    let table = encoder_table();
    let mut out: Vec<(String, Vec<String>)> = Vec::new();
    let mut i: usize = 0;
    while i < table.len()
        invariant
            table@.len() == encoder_rows().len(),
            forall|k: int|
                0 <= k < table@.len() ==> (#[trigger] table@[k]).0@ == encoder_rows()[k].0
                    && str_views(table@[k].1@) == encoder_rows()[k].1,
            0 <= i <= table@.len(),
            out@.len() == i,
            forall|k: int|
                0 <= k < i ==> (#[trigger] out@[k]).0@ == encoder_rows()[k].0 && views(out@[k].1@)
                    == listed_among(text@, encoder_rows()[k].1),
        decreases table.len() - i,
    {
        let row = &table[i];
        let found = found_encoders(text, &row.1);
        out.push((owned(row.0), found));
        i = i + 1;
    }
    out
}

// ---------------------------------------------------------------- listings

/// A line without its trailing carriage return.
pub open spec fn strip_cr(line: Seq<char>) -> Seq<char> {
    if line.len() > 0 && line.last() == '\r' {
        line.drop_last()
    } else {
        line
    }
}

/// The first line of a program's output as `str::lines` gives it, or `unknown` when it
/// printed nothing: the text before the first newline, without a carriage return just
/// before that newline; with no newline, the whole text, a final carriage return kept.
pub open spec fn first_line_of(s: Seq<char>) -> Seq<char> {
    if s.len() == 0 {
        "unknown"@
    } else if has_char(s, '\n') {
        strip_cr(split_on(s, '\n')[0])
    } else {
        s
    }
}

/// The version line of `ffmpeg -version` output.
pub fn version_line(stdout: &str) -> (r: String)
    ensures
        r@ == first_line_of(stdout@),
{
    if stdout.is_empty() {
        return owned("unknown");
    }
    if !has_char_text(stdout, '\n') {
        return owned(stdout);
    }
    let pieces = split_text(stdout, '\n');
    proof {
        lemma_split_on_nonempty(stdout@, '\n');
    }
    let first = &pieces[0];
    let v = chars_of(first.as_str());
    if v.len() > 0 && v[v.len() - 1] == '\r' {
        let s = from_chars_range(&v, 0, v.len() - 1);
        assert(s@ =~= v@.drop_last());
        s
    } else {
        owned(first.as_str())
    }
}

/// The acceleration names of `ffmpeg -hwaccels` output: every line after the heading,
/// trimmed, without blank ones.
pub open spec fn hwaccel_lines(s: Seq<char>) -> Seq<Seq<char>> {
    split_on(s, '\n').skip(1).map_values(|l: Seq<char>| trim(l)).filter(
        |l: Seq<char>| l.len() > 0,
    )
}

/// The acceleration names listed by `ffmpeg -hwaccels`.
pub fn hwaccel_names(stdout: &str) -> (r: Vec<String>)
    ensures
        views(r@) == hwaccel_lines(stdout@),
{
    let pieces = split_text(stdout, '\n');
    let ghost p = split_on(stdout@, '\n');
    proof {
        lemma_split_on_nonempty(stdout@, '\n');
    }
    let ghost lines = p.skip(1).map_values(|l: Seq<char>| trim(l));
    let mut out: Vec<String> = Vec::new();
    let mut i: usize = 1;
    while i < pieces.len()
        invariant
            pieces@.len() == p.len(),
            forall|k: int| 0 <= k < pieces@.len() ==> #[trigger] pieces@[k]@ == p[k],
            p.len() >= 1,
            lines == p.skip(1).map_values(|l: Seq<char>| trim(l)),
            1 <= i <= pieces@.len(),
            views(out@) == lines.take(i - 1).filter(|l: Seq<char>| l.len() > 0),
        decreases pieces.len() - i,
    {
        proof {
            assert(lines.take(i as int).drop_last() =~= lines.take(i - 1));
            reveal(Seq::filter);
        }
        let t = trim_text(pieces[i].as_str());
        if !t.as_str().is_empty() {
            let ghost before = out@;
            out.push(t);
            proof {
                lemma_views_push(before, out@.last());
            }
        }
        i = i + 1;
    }
    assert(lines.take(lines.len() as int) =~= lines);
    out
}

/// Which hardware families the installed FFmpeg can use.
#[derive(Clone, Copy, Debug)]
pub struct Acceleration {
    pub videotoolbox: bool,
    pub nvenc: bool,
    pub qsv: bool,
    pub vaapi: bool,
    pub amf: bool,
}

pub open spec fn has_text(s: Seq<Seq<char>>, t: Seq<char>) -> bool {
    exists|i: int| 0 <= i < s.len() && #[trigger] s[i] == t
}

/// Some codec row lists the encoder `e`.
pub open spec fn encoder_found(rows: Seq<(String, Vec<String>)>, e: Seq<char>) -> bool {
    exists|i: int| 0 <= i < rows.len() && has_text(views((#[trigger] rows[i]).1@), e)
}

fn text_in(v: &Vec<String>, t: &str) -> (r: bool)
    ensures
        r == has_text(views(v@), t@),
{
    let mut i: usize = 0;
    while i < v.len()
        invariant
            0 <= i <= v@.len(),
            forall|k: int| 0 <= k < i ==> #[trigger] v@[k]@ != t@,
        decreases v.len() - i,
    {
        if str_eq(v[i].as_str(), t) {
            assert(views(v@)[i as int] == t@);
            return true;
        }
        i = i + 1;
    }
    assert forall|k: int| 0 <= k < views(v@).len() implies #[trigger] views(v@)[k] != t@ by {
        assert(v@[k]@ != t@);
    }
    false
}

fn encoder_in(rows: &Vec<(String, Vec<String>)>, e: &str) -> (r: bool)
    ensures
        r == encoder_found(rows@, e@),
{
    let mut i: usize = 0;
    while i < rows.len()
        invariant
            0 <= i <= rows@.len(),
            forall|k: int| 0 <= k < i ==> !has_text(views((#[trigger] rows@[k]).1@), e@),
        decreases rows.len() - i,
    {
        if text_in(&rows[i].1, e) {
            return true;
        }
        i = i + 1;
    }
    false
}

/// The hardware families that FFmpeg reports, from its acceleration list and the
/// encoders found: VideoToolbox, NVENC (CUDA) and QSV by either, VA-API by acceleration
/// only, AMF by encoder only.
pub fn hardware_acceleration(hwaccels: &Vec<String>, encoders: &Vec<(String, Vec<String>)>) -> (a:
    Acceleration)
    ensures
        a.videotoolbox == (has_text(views(hwaccels@), "videotoolbox"@) || encoder_found(
            encoders@,
            "h264_videotoolbox"@,
        )),
        a.nvenc == (has_text(views(hwaccels@), "cuda"@) || encoder_found(encoders@, "h264_nvenc"@)),
        a.qsv == (has_text(views(hwaccels@), "qsv"@) || encoder_found(encoders@, "h264_qsv"@)),
        a.vaapi == has_text(views(hwaccels@), "vaapi"@),
        a.amf == encoder_found(encoders@, "h264_amf"@),
{
    Acceleration {
        videotoolbox: text_in(hwaccels, "videotoolbox") || encoder_in(encoders, "h264_videotoolbox"),
        nvenc: text_in(hwaccels, "cuda") || encoder_in(encoders, "h264_nvenc"),
        qsv: text_in(hwaccels, "qsv") || encoder_in(encoders, "h264_qsv"),
        vaapi: text_in(hwaccels, "vaapi"),
        amf: encoder_in(encoders, "h264_amf"),
    }
}

/// Whether a filter listing (`ffmpeg -filters`) names the filter `name`.
pub fn ffmpeg_filter_available(listing: &Result<String, MediaError>, name: &str) -> (r: bool)
    ensures
        r == (listing matches Ok(t) && has_token(t@, name@)),
{
    match listing {
        Ok(t) => listed(t.as_str(), name),
        Err(_) => false,
    }
}

} // verus!
