//! Codec rules: container compatibility, defaults, encoder candidates and the
//! FFmpeg encoder arguments for each quality preset.

use vstd::prelude::*;
use crate::model::{Detail, ErrorCode, MediaError, Quality, fails_with_message, refused, text_detail, text_entry};
use crate::names::{codec_display, display_codec, is_canonical_container, is_lit};
use crate::text::{chars_of, concat, ends_with, ends_with_text, is_ws, is_ws_exec, owned, str_eq, to_upper, uppercase};

verus! {

/// Character views of a list of strings.
pub open spec fn views(v: Seq<String>) -> Seq<Seq<char>> {
    v.map_values(|s: String| s@)
}

/// Character views of a list of string slices.
pub open spec fn str_views(v: Seq<&str>) -> Seq<Seq<char>> {
    v.map_values(|s: &str| s@)
}

pub proof fn lemma_views_push(s: Seq<String>, x: String)
    ensures
        views(s.push(x)) == views(s).push(x@),
{
    assert(views(s.push(x)) =~= views(s).push(x@));
}

pub proof fn lemma_str_views_take(s: Seq<&str>, i: int)
    requires
        0 <= i < s.len(),
    ensures
        str_views(s.take(i + 1)) == str_views(s.take(i)).push(s[i]@),
{
    assert(str_views(s.take(i + 1)) =~= str_views(s.take(i)).push(s[i]@));
}

// ---------------------------------------------------------------- encoder listings

/// `t` occurs in `s` at `i` as a whole whitespace-delimited word.
pub open spec fn token_at(s: Seq<char>, t: Seq<char>, i: int) -> bool {
    &&& 0 <= i
    &&& i + t.len() <= s.len()
    &&& s.subrange(i, i + t.len()) == t
    &&& (i == 0 || is_ws(s[i - 1]))
    &&& (i + t.len() == s.len() || is_ws(s[i + t.len()]))
}

/// `t` is one of the whitespace-separated words of `s`.
pub open spec fn has_token(s: Seq<char>, t: Seq<char>) -> bool {
    t.len() > 0 && exists|i: int| token_at(s, t, i)
}

/// Whether `token` appears as a whole word in a program listing such as the output of
/// `ffmpeg -encoders` or `ffmpeg -filters`.
pub fn listed(text: &str, token: &str) -> (r: bool)
    ensures
        r == has_token(text@, token@),
{
    let v = chars_of(text);
    let w = chars_of(token);
    let n = v.len();
    let m = w.len();
    if m == 0 || m > n {
        return false;
    }
    let mut i: usize = 0;
    while i <= n - m
        invariant
            v@ == text@,
            w@ == token@,
            n == v@.len(),
            m == w@.len(),
            0 < m <= n,
            0 <= i <= n,
            forall|k: int| 0 <= k < i ==> !token_at(v@, w@, k),
        decreases n - i,
    {
        let mut ok = true;
        let mut k: usize = 0;
        while k < m
            invariant
                n == v@.len(),
                m == w@.len(),
                0 < m <= n,
                i <= n - m,
                0 <= k <= m,
                ok == (forall|j: int| 0 <= j < k ==> v@[i + j] == w@[j]),
            decreases m - k,
        {
            if v[i + k] != w[k] {
                ok = false;
            }
            k = k + 1;
        }
        if ok {
            assert(v@.subrange(i as int, i + m) =~= w@);
        } else {
            assert(v@.subrange(i as int, i + m) != w@) by {
                let j = choose|j: int| 0 <= j < m && v@[i + j] != w@[j];
                assert(v@.subrange(i as int, i + m)[j] == v@[i + j]);
            }
        }
        let before = i == 0 || is_ws_exec(v[i - 1]);
        let after = i + m == n || is_ws_exec(v[i + m]);
        if ok && before && after {
            assert(token_at(text@, token@, i as int));
            return true;
        }
        i = i + 1;
    }
    false
}

/// The first candidate that the listing names, in candidate order.
pub open spec fn first_listed(cands: Seq<Seq<char>>, text: Seq<char>) -> Option<Seq<char>>
    decreases cands.len(),
{
    if cands.len() == 0 {
        None
    } else if has_token(text, cands[0]) {
        Some(cands[0])
    } else {
        first_listed(cands.drop_first(), text)
    }
}

/// The first of `candidates` that `text` lists.
pub fn first_listed_candidate(candidates: &Vec<&'static str>, text: &str) -> (r: Option<&'static str>)
    ensures
        match first_listed(str_views(candidates@), text@) {
            Some(c) => r matches Some(s) && s@ == c,
            None => r is None,
        },
{
    let ghost c = str_views(candidates@);
    let mut i: usize = 0;
    assert(c.skip(0) =~= c);
    while i < candidates.len()
        invariant
            0 <= i <= candidates@.len(),
            c == str_views(candidates@),
            first_listed(c, text@) == first_listed(c.skip(i as int), text@),
        decreases candidates.len() - i,
    {
        assert(c.skip(i as int).drop_first() =~= c.skip(i + 1));
        if listed(text, candidates[i]) {
            return Some(candidates[i]);
        }
        i = i + 1;
    }
    None
}

// ---------------------------------------------------------------- candidates

pub open spec fn hardware_candidates(codec: Seq<char>) -> Seq<Seq<char>> {
    if codec == "h264"@ {
        seq!["h264_videotoolbox"@, "h264_nvenc"@, "h264_qsv"@, "h264_amf"@]
    } else if codec == "h265"@ || codec == "hevc"@ {
        seq!["hevc_videotoolbox"@, "hevc_nvenc"@, "hevc_qsv"@, "hevc_amf"@]
    } else if codec == "av1"@ {
        seq!["av1_nvenc"@, "av1_qsv"@, "av1_amf"@]
    } else {
        Seq::empty()
    }
}

/// Hardware encoders that can produce a video codec, in preference order.
pub fn hardware_encoder_candidates(codec: &str) -> (r: Vec<&'static str>)
    ensures
        str_views(r@) == hardware_candidates(codec@),
{
    let c = owned(codec);
    let r: Vec<&'static str> = if is_lit(&c, "h264") {
        vec!["h264_videotoolbox", "h264_nvenc", "h264_qsv", "h264_amf"]
    } else if is_lit(&c, "h265") || is_lit(&c, "hevc") {
        vec!["hevc_videotoolbox", "hevc_nvenc", "hevc_qsv", "hevc_amf"]
    } else if is_lit(&c, "av1") {
        vec!["av1_nvenc", "av1_qsv", "av1_amf"]
    } else {
        Vec::new()
    };
    assert(str_views(r@) =~= hardware_candidates(codec@));
    r
}

pub open spec fn software_candidates(codec: Seq<char>) -> Seq<Seq<char>> {
    if codec == "h264"@ {
        seq!["libx264"@]
    } else if codec == "h265"@ || codec == "hevc"@ {
        seq!["libx265"@]
    } else if codec == "vp9"@ {
        seq!["libvpx-vp9"@]
    } else if codec == "av1"@ {
        seq!["libsvtav1"@, "libaom-av1"@]
    } else if codec == "mpeg2video"@ {
        seq!["mpeg2video"@]
    } else if codec == "flv1"@ {
        seq!["flv"@]
    } else if codec == "wmv2"@ {
        seq!["wmv2"@]
    } else if codec == "theora"@ {
        seq!["libtheora"@, "theora"@]
    } else if codec == "mpeg4"@ {
        seq!["mpeg4"@, "libxvid"@]
    } else {
        Seq::empty()
    }
}

/// Software encoders that can produce a video codec, in preference order.
pub fn software_encoder_candidates(codec: &str) -> (r: Vec<&'static str>)
    ensures
        str_views(r@) == software_candidates(codec@),
{
    let c = owned(codec);
    let r: Vec<&'static str> = if is_lit(&c, "h264") {
        vec!["libx264"]
    } else if is_lit(&c, "h265") || is_lit(&c, "hevc") {
        vec!["libx265"]
    } else if is_lit(&c, "vp9") {
        vec!["libvpx-vp9"]
    } else if is_lit(&c, "av1") {
        vec!["libsvtav1", "libaom-av1"]
    } else if is_lit(&c, "mpeg2video") {
        vec!["mpeg2video"]
    } else if is_lit(&c, "flv1") {
        vec!["flv"]
    } else if is_lit(&c, "wmv2") {
        vec!["wmv2"]
    } else if is_lit(&c, "theora") {
        vec!["libtheora", "theora"]
    } else if is_lit(&c, "mpeg4") {
        vec!["mpeg4", "libxvid"]
    } else {
        Vec::new()
    };
    assert(str_views(r@) =~= software_candidates(codec@));
    r
}

// ---------------------------------------------------------------- compatibility

/// Video codecs that each target container can hold.
pub open spec fn video_ok(container: Seq<char>, codec: Seq<char>) -> bool {
    if container == "mp4"@ || container == "mov"@ {
        codec == "h264"@ || codec == "h265"@ || codec == "hevc"@ || codec == "mpeg4"@
            || codec == "av1"@ || codec == "vp9"@
    } else if container == "webm"@ {
        codec == "vp8"@ || codec == "vp9"@ || codec == "av1"@
    } else if container == "mkv"@ || container == "avi"@ {
        true
    } else if container == "wmv"@ {
        codec == "wmv1"@ || codec == "wmv2"@ || codec == "msmpeg4"@ || codec == "msmpeg4v2"@
            || codec == "h264"@
    } else if container == "flv"@ {
        codec == "flv1"@ || codec == "h263"@ || codec == "h264"@
    } else if container == "ogv"@ {
        codec == "theora"@
    } else if container == "3gp"@ {
        codec == "h264"@ || codec == "mpeg4"@ || codec == "h263"@
    } else if container == "mpeg"@ || container == "vob"@ {
        codec == "mpeg1video"@ || codec == "mpeg2video"@
    } else if container == "swf"@ {
        codec == "flv1"@ || codec == "h263"@
    } else {
        false
    }
}

/// The container names that the compatibility tables distinguish.
pub open spec fn container_names() -> Seq<Seq<char>> {
    seq!["mp4"@, "mov"@, "webm"@, "mkv"@, "avi"@, "wmv"@, "flv"@, "ogv"@, "3gp"@, "mpeg"@, "vob"@, "swf"@]
}

proof fn lemma_container_names_distinct()
    ensures
        forall|a: int, b: int|
            0 <= a < container_names().len() && 0 <= b < container_names().len() && a != b
                ==> #[trigger] container_names()[a] != #[trigger] container_names()[b],
{
    reveal_strlit("mp4");
    reveal_strlit("mov");
    reveal_strlit("webm");
    reveal_strlit("mkv");
    reveal_strlit("avi");
    reveal_strlit("wmv");
    reveal_strlit("flv");
    reveal_strlit("ogv");
    reveal_strlit("3gp");
    reveal_strlit("mpeg");
    reveal_strlit("vob");
    reveal_strlit("swf");
    let names = container_names();
    assert forall|a: int, b: int|
        0 <= a < names.len() && 0 <= b < names.len() && a != b implies #[trigger] names[a]
            != #[trigger] names[b] by {
        if names[a].len() == names[b].len() {
            assert(names[a][0] != names[b][0] || names[a][1] != names[b][1] || names[a][2]
                != names[b][2]);
        }
    }
}

/// Which video codecs each container carries: MP4 and MOV take H.264, H.265/HEVC,
/// MPEG-4, AV1 and VP9; WebM VP8, VP9 and AV1; MKV and AVI any codec; WMV the WMV and
/// MS-MPEG-4 codecs and H.264; FLV FLV1, H.263 and H.264; OGV Theora; 3GP H.264, MPEG-4
/// and H.263; MPEG and VOB MPEG-1 and MPEG-2 video; SWF FLV1 and H.263; nothing else.
pub proof fn lemma_video_container_table(container: Seq<char>, codec: Seq<char>)
    ensures
        (container == "mp4"@ || container == "mov"@) ==> (video_ok(container, codec) <==> seq![
            "h264"@,
            "h265"@,
            "hevc"@,
            "mpeg4"@,
            "av1"@,
            "vp9"@,
        ].contains(codec)),
        container == "webm"@ ==> (video_ok(container, codec) <==> seq![
            "vp8"@,
            "vp9"@,
            "av1"@,
        ].contains(codec)),
        (container == "mkv"@ || container == "avi"@) ==> video_ok(container, codec),
        container == "wmv"@ ==> (video_ok(container, codec) <==> seq![
            "wmv1"@,
            "wmv2"@,
            "msmpeg4"@,
            "msmpeg4v2"@,
            "h264"@,
        ].contains(codec)),
        container == "flv"@ ==> (video_ok(container, codec) <==> seq![
            "flv1"@,
            "h263"@,
            "h264"@,
        ].contains(codec)),
        container == "ogv"@ ==> (video_ok(container, codec) <==> codec == "theora"@),
        container == "3gp"@ ==> (video_ok(container, codec) <==> seq![
            "h264"@,
            "mpeg4"@,
            "h263"@,
        ].contains(codec)),
        (container == "mpeg"@ || container == "vob"@) ==> (video_ok(container, codec) <==> seq![
            "mpeg1video"@,
            "mpeg2video"@,
        ].contains(codec)),
        container == "swf"@ ==> (video_ok(container, codec) <==> seq![
            "flv1"@,
            "h263"@,
        ].contains(codec)),
{
    reveal_strlit("mp4");
    reveal_strlit("mov");
    reveal_strlit("webm");
    reveal_strlit("mkv");
    reveal_strlit("avi");
    reveal_strlit("wmv");
    reveal_strlit("flv");
    reveal_strlit("ogv");
    reveal_strlit("3gp");
    reveal_strlit("mpeg");
    reveal_strlit("vob");
    reveal_strlit("swf");
    lemma_container_names_distinct();
    let names = container_names();
    assert(names[0] == "mp4"@ && names[1] == "mov"@ && names[2] == "webm"@ && names[3] == "mkv"@);
    assert(names[4] == "avi"@ && names[5] == "wmv"@ && names[6] == "flv"@ && names[7] == "ogv"@);
    assert(names[8] == "3gp"@ && names[9] == "mpeg"@ && names[10] == "vob"@ && names[11] == "swf"@);
    let l1 = seq!["h264"@, "h265"@, "hevc"@, "mpeg4"@, "av1"@, "vp9"@];
    assert(l1.contains(codec) <==> (codec == l1[0] || codec == l1[1] || codec == l1[2]
        || codec == l1[3] || codec == l1[4] || codec == l1[5]));
    let l2 = seq!["vp8"@, "vp9"@, "av1"@];
    assert(l2.contains(codec) <==> (codec == l2[0] || codec == l2[1] || codec == l2[2]));
    let l3 = seq!["wmv1"@, "wmv2"@, "msmpeg4"@, "msmpeg4v2"@, "h264"@];
    assert(l3.contains(codec) <==> (codec == l3[0] || codec == l3[1] || codec == l3[2]
        || codec == l3[3] || codec == l3[4]));
    let l4 = seq!["flv1"@, "h263"@, "h264"@];
    assert(l4.contains(codec) <==> (codec == l4[0] || codec == l4[1] || codec == l4[2]));
    let l5 = seq!["h264"@, "mpeg4"@, "h263"@];
    assert(l5.contains(codec) <==> (codec == l5[0] || codec == l5[1] || codec == l5[2]));
    let l6 = seq!["mpeg1video"@, "mpeg2video"@];
    assert(l6.contains(codec) <==> (codec == l6[0] || codec == l6[1]));
    let l7 = seq!["flv1"@, "h263"@];
    assert(l7.contains(codec) <==> (codec == l7[0] || codec == l7[1]));
}

/// Which audio codecs each container carries: MP4 and MOV take AAC, MP3, AC-3 and
/// E-AC-3; WebM Opus and Vorbis; MKV and AVI any codec; WMV the WMA codecs, AAC and MP3;
/// FLV MP3 and AAC; OGV Vorbis and Opus; 3GP AAC, AMR and MP3; MPEG and VOB MPEG audio,
/// AC-3, DTS and PCM; SWF MP3; nothing else.
pub proof fn lemma_audio_container_table(container: Seq<char>, codec: Seq<char>)
    ensures
        (container == "mp4"@ || container == "mov"@) ==> (audio_ok(container, codec) <==> seq![
            "aac"@,
            "mp3"@,
            "ac3"@,
            "eac3"@,
        ].contains(codec)),
        container == "webm"@ ==> (audio_ok(container, codec) <==> seq![
            "opus"@,
            "vorbis"@,
        ].contains(codec)),
        (container == "mkv"@ || container == "avi"@) ==> audio_ok(container, codec),
        container == "wmv"@ ==> (audio_ok(container, codec) <==> seq![
            "wmav1"@,
            "wmav2"@,
            "wma"@,
            "aac"@,
            "mp3"@,
        ].contains(codec)),
        container == "flv"@ ==> (audio_ok(container, codec) <==> seq!["mp3"@, "aac"@].contains(
            codec,
        )),
        container == "ogv"@ ==> (audio_ok(container, codec) <==> seq!["vorbis"@, "opus"@].contains(
            codec,
        )),
        container == "3gp"@ ==> (audio_ok(container, codec) <==> seq![
            "aac"@,
            "amr_nb"@,
            "amr_wb"@,
            "mp3"@,
        ].contains(codec)),
        (container == "mpeg"@ || container == "vob"@) ==> (audio_ok(container, codec) <==> seq![
            "mp1"@,
            "mp2"@,
            "mp3"@,
            "ac3"@,
            "dts"@,
            "pcm_s16be"@,
        ].contains(codec)),
        container == "swf"@ ==> (audio_ok(container, codec) <==> codec == "mp3"@),
{
    lemma_container_names_distinct();
    let names = container_names();
    assert(names[0] == "mp4"@ && names[1] == "mov"@ && names[2] == "webm"@ && names[3] == "mkv"@);
    assert(names[4] == "avi"@ && names[5] == "wmv"@ && names[6] == "flv"@ && names[7] == "ogv"@);
    assert(names[8] == "3gp"@ && names[9] == "mpeg"@ && names[10] == "vob"@ && names[11] == "swf"@);
    let l1 = seq!["aac"@, "mp3"@, "ac3"@, "eac3"@];
    assert(l1.contains(codec) <==> (codec == l1[0] || codec == l1[1] || codec == l1[2]
        || codec == l1[3]));
    let l2 = seq!["opus"@, "vorbis"@];
    assert(l2.contains(codec) <==> (codec == l2[0] || codec == l2[1]));
    let l3 = seq!["wmav1"@, "wmav2"@, "wma"@, "aac"@, "mp3"@];
    assert(l3.contains(codec) <==> (codec == l3[0] || codec == l3[1] || codec == l3[2]
        || codec == l3[3] || codec == l3[4]));
    let l4 = seq!["mp3"@, "aac"@];
    assert(l4.contains(codec) <==> (codec == l4[0] || codec == l4[1]));
    let l5 = seq!["vorbis"@, "opus"@];
    assert(l5.contains(codec) <==> (codec == l5[0] || codec == l5[1]));
    let l6 = seq!["aac"@, "amr_nb"@, "amr_wb"@, "mp3"@];
    assert(l6.contains(codec) <==> (codec == l6[0] || codec == l6[1] || codec == l6[2]
        || codec == l6[3]));
    let l7 = seq!["mp1"@, "mp2"@, "mp3"@, "ac3"@, "dts"@, "pcm_s16be"@];
    assert(l7.contains(codec) <==> (codec == l7[0] || codec == l7[1] || codec == l7[2]
        || codec == l7[3] || codec == l7[4] || codec == l7[5]));
}

/// Whether a video codec can be carried by a container.
pub fn is_video_compatible(container: &str, codec: &str) -> (r: bool)
    ensures
        r == video_ok(container@, codec@),
{
    let k = owned(container);
    let c = owned(codec);
    if is_lit(&k, "mp4") || is_lit(&k, "mov") {
        is_lit(&c, "h264") || is_lit(&c, "h265") || is_lit(&c, "hevc") || is_lit(&c, "mpeg4") || is_lit(&c, "av1")
            || is_lit(&c, "vp9")
    } else if is_lit(&k, "webm") {
        is_lit(&c, "vp8") || is_lit(&c, "vp9") || is_lit(&c, "av1")
    } else if is_lit(&k, "mkv") || is_lit(&k, "avi") {
        true
    } else if is_lit(&k, "wmv") {
        is_lit(&c, "wmv1") || is_lit(&c, "wmv2") || is_lit(&c, "msmpeg4") || is_lit(&c, "msmpeg4v2") || is_lit(
            &c,
            "h264",
        )
    } else if is_lit(&k, "flv") {
        is_lit(&c, "flv1") || is_lit(&c, "h263") || is_lit(&c, "h264")
    } else if is_lit(&k, "ogv") {
        is_lit(&c, "theora")
    } else if is_lit(&k, "3gp") {
        is_lit(&c, "h264") || is_lit(&c, "mpeg4") || is_lit(&c, "h263")
    } else if is_lit(&k, "mpeg") || is_lit(&k, "vob") {
        is_lit(&c, "mpeg1video") || is_lit(&c, "mpeg2video")
    } else if is_lit(&k, "swf") {
        is_lit(&c, "flv1") || is_lit(&c, "h263")
    } else {
        false
    }
}

/// Audio codecs that each target container can hold.
pub open spec fn audio_ok(container: Seq<char>, codec: Seq<char>) -> bool {
    if container == "mp4"@ || container == "mov"@ {
        codec == "aac"@ || codec == "mp3"@ || codec == "ac3"@ || codec == "eac3"@
    } else if container == "webm"@ {
        codec == "opus"@ || codec == "vorbis"@
    } else if container == "mkv"@ || container == "avi"@ {
        true
    } else if container == "wmv"@ {
        codec == "wmav1"@ || codec == "wmav2"@ || codec == "wma"@ || codec == "aac"@
            || codec == "mp3"@
    } else if container == "flv"@ {
        codec == "mp3"@ || codec == "aac"@
    } else if container == "ogv"@ {
        codec == "vorbis"@ || codec == "opus"@
    } else if container == "3gp"@ {
        codec == "aac"@ || codec == "amr_nb"@ || codec == "amr_wb"@ || codec == "mp3"@
    } else if container == "mpeg"@ || container == "vob"@ {
        codec == "mp1"@ || codec == "mp2"@ || codec == "mp3"@ || codec == "ac3"@ || codec
            == "dts"@ || codec == "pcm_s16be"@
    } else if container == "swf"@ {
        codec == "mp3"@
    } else {
        false
    }
}

/// Whether an audio codec can be carried by a container.
pub fn is_audio_compatible(container: &str, codec: &str) -> (r: bool)
    ensures
        r == audio_ok(container@, codec@),
{
    let k = owned(container);
    let c = owned(codec);
    if is_lit(&k, "mp4") || is_lit(&k, "mov") {
        is_lit(&c, "aac") || is_lit(&c, "mp3") || is_lit(&c, "ac3") || is_lit(&c, "eac3")
    } else if is_lit(&k, "webm") {
        is_lit(&c, "opus") || is_lit(&c, "vorbis")
    } else if is_lit(&k, "mkv") || is_lit(&k, "avi") {
        true
    } else if is_lit(&k, "wmv") {
        is_lit(&c, "wmav1") || is_lit(&c, "wmav2") || is_lit(&c, "wma") || is_lit(&c, "aac") || is_lit(&c, "mp3")
    } else if is_lit(&k, "flv") {
        is_lit(&c, "mp3") || is_lit(&c, "aac")
    } else if is_lit(&k, "ogv") {
        is_lit(&c, "vorbis") || is_lit(&c, "opus")
    } else if is_lit(&k, "3gp") {
        is_lit(&c, "aac") || is_lit(&c, "amr_nb") || is_lit(&c, "amr_wb") || is_lit(&c, "mp3")
    } else if is_lit(&k, "mpeg") || is_lit(&k, "vob") {
        is_lit(&c, "mp1") || is_lit(&c, "mp2") || is_lit(&c, "mp3") || is_lit(&c, "ac3") || is_lit(&c, "dts") || is_lit(
            &c,
            "pcm_s16be",
        )
    } else if is_lit(&k, "swf") {
        is_lit(&c, "mp3")
    } else {
        false
    }
}

pub open spec fn default_video_codec(container: Seq<char>) -> Seq<char> {
    if container == "webm"@ {
        "vp9"@
    } else if container == "ogv"@ {
        "theora"@
    } else if container == "flv"@ || container == "swf"@ {
        "flv1"@
    } else if container == "wmv"@ {
        "wmv2"@
    } else if container == "mpeg"@ || container == "vob"@ {
        "mpeg2video"@
    } else {
        "h264"@
    }
}

/// Video codec chosen for a container when none is requested.
pub fn default_video_codec_for_container(container: &str) -> (r: &'static str)
    ensures
        r@ == default_video_codec(container@),
{
    let k = owned(container);
    if is_lit(&k, "webm") {
        "vp9"
    } else if is_lit(&k, "ogv") {
        "theora"
    } else if is_lit(&k, "flv") || is_lit(&k, "swf") {
        "flv1"
    } else if is_lit(&k, "wmv") {
        "wmv2"
    } else if is_lit(&k, "mpeg") || is_lit(&k, "vob") {
        "mpeg2video"
    } else {
        "h264"
    }
}

pub open spec fn default_audio_codec(container: Seq<char>) -> Seq<char> {
    if container == "webm"@ || container == "ogv"@ {
        "opus"@
    } else if container == "wmv"@ {
        "wmav2"@
    } else if container == "flv"@ || container == "swf"@ {
        "mp3"@
    } else if container == "mpeg"@ || container == "vob"@ {
        "mp2"@
    } else {
        "aac"@
    }
}

/// Audio codec chosen for a container when none is requested.
pub fn default_audio_codec_for_container(container: &str) -> (r: &'static str)
    ensures
        r@ == default_audio_codec(container@),
{
    let k = owned(container);
    if is_lit(&k, "webm") || is_lit(&k, "ogv") {
        "opus"
    } else if is_lit(&k, "wmv") {
        "wmav2"
    } else if is_lit(&k, "flv") || is_lit(&k, "swf") {
        "mp3"
    } else if is_lit(&k, "mpeg") || is_lit(&k, "vob") {
        "mp2"
    } else {
        "aac"
    }
}

pub open spec fn preferred(requested: Seq<char>, fallback: Seq<char>) -> Seq<char> {
    if requested == "auto"@ || requested == "copy"@ {
        fallback
    } else {
        requested
    }
}

/// The requested codec, or `fallback` when the request is `auto` or `copy`.
pub fn preferred_codec(requested: &str, fallback: &str) -> (r: String)
    ensures
        r@ == preferred(requested@, fallback@),
{
    let q = owned(requested);
    if is_lit(&q, "auto") || is_lit(&q, "copy") {
        owned(fallback)
    } else {
        q
    }
}

pub open spec fn stream_compatible(stream: Seq<char>, codec: Seq<char>, container: Seq<char>) -> bool {
    if stream == "video"@ {
        video_ok(container, codec)
    } else if stream == "audio"@ {
        audio_ok(container, codec)
    } else {
        false
    }
}

/// The details of a refusal about one stream: the stream, its codec and the container.
pub open spec fn stream_details(d: Seq<Detail>, stream: Seq<char>, codec: Seq<char>, container: Seq<char>) -> bool {
    &&& d.len() == 3
    &&& text_entry(d[0], "stream"@, stream)
    &&& text_entry(d[1], "codec"@, codec)
    &&& text_entry(d[2], "container"@, container)
}

/// What a refused transcode of `stream` suggests.
pub open spec fn transcode_suggestions(stream: Seq<char>) -> Seq<Seq<char>> {
    seq![
        if stream == "video"@ {
            "Use --video-codec auto to select a compatible codec."@
        } else {
            "Use --audio-codec auto to select a compatible codec."@
        },
        "Choose a compatible target container."@,
    ]
}

/// Refuses a transcode into a codec that the container cannot hold.
pub fn validate_transcode_compatibility(
    stream: &str,
    action: &str,
    codec: &str,
    container: &str,
) -> (r: Result<(), MediaError>)
    ensures
        (action@ != "transcode"@ || stream_compatible(stream@, codec@, container@)) ==> r is Ok,
        !(action@ != "transcode"@ || stream_compatible(stream@, codec@, container@))
            ==> refused(
            r,
            ErrorCode::UnsupportedCodec,
            "Cannot encode "@ + codec_display(codec@) + " "@ + stream@ + " into "@ + uppercase(
                container@,
            ) + "."@,
            transcode_suggestions(stream@),
        ) && stream_details(r->Err_0.details@, stream@, codec@, container@),
{
    let s = owned(stream);
    let compatible = if is_lit(&s, "video") {
        is_video_compatible(container, codec)
    } else if is_lit(&s, "audio") {
        is_audio_compatible(container, codec)
    } else {
        false
    };
    let a = owned(action);
    if !is_lit(&a, "transcode") || compatible {
        return Ok(());
    }
    let suggestions = if is_lit(&s, "video") {
        vec![
            owned("Use --video-codec auto to select a compatible codec."),
            owned("Choose a compatible target container."),
        ]
    } else {
        vec![
            owned("Use --audio-codec auto to select a compatible codec."),
            owned("Choose a compatible target container."),
        ]
    };
    assert(views(suggestions@) =~= transcode_suggestions(stream@));
    let mut message = owned("Cannot encode ");
    message.append(display_codec(codec).as_str());
    message.append(" ");
    message.append(stream);
    message.append(" into ");
    message.append(to_upper(container).as_str());
    message.append(".");
    let details = vec![
        text_detail("stream", owned(stream)),
        text_detail("codec", owned(codec)),
        text_detail("container", owned(container)),
    ];
    Err(MediaError::new(ErrorCode::UnsupportedCodec, message).with_details(details).with_suggestions(
        suggestions,
    ))
}

/// Encoder names of the hardware families (VideoToolbox, NVENC, QSV, AMF).
pub open spec fn hardware_encoder_name(e: Seq<char>) -> bool {
    ends_with(e, "_videotoolbox"@) || ends_with(e, "_nvenc"@) || ends_with(e, "_qsv"@)
        || ends_with(e, "_amf"@)
}

/// Whether an encoder name belongs to a hardware family.
pub fn is_hardware_encoder(encoder: &str) -> (r: bool)
    ensures
        r == hardware_encoder_name(encoder@),
{
    ends_with_text(encoder, "_videotoolbox") || ends_with_text(encoder, "_nvenc")
        || ends_with_text(encoder, "_qsv") || ends_with_text(encoder, "_amf")
}


// ---------------------------------------------------------------- option removal

/// `s` with every `option value` pair removed, scanning from the front; a trailing
/// option with no value after it is kept.
pub open spec fn without_option(s: Seq<String>, option: Seq<char>) -> Seq<String>
    decreases s.len(),
{
    if s.len() < 2 {
        s
    } else if s[0]@ == option {
        without_option(s.skip(2), option)
    } else {
        seq![s[0]].add(without_option(s.drop_first(), option))
    }
}

/// Removes every occurrence of `option` together with the value that follows it.
pub fn remove_option(args: &mut Vec<String>, option: &str)
    ensures
        final(args)@ == without_option(old(args)@, option@),
{
    let ghost given = args@;
    let mut kept: Vec<String> = Vec::new();
    let n = args.len();
    let mut i: usize = 0;
    assert(given.skip(0) =~= given);
    while i < n
        invariant
            n == args@.len(),
            args@ == given,
            0 <= i <= n,
            kept@ + without_option(given.skip(i as int), option@) == without_option(
                given,
                option@,
            ),
        decreases n - i,
    {
        let ghost rest = given.skip(i as int);
        if i + 1 < n && str_eq(args[i].as_str(), option) {
            assert(rest.skip(2) =~= given.skip(i + 2));
            i = i + 2;
        } else {
            if i + 1 < n {
                assert(rest.drop_first() =~= given.skip(i + 1));
                assert(without_option(rest, option@) == seq![rest[0]].add(
                    without_option(rest.drop_first(), option@),
                ));
                assert(kept@.push(args@[i as int]) + without_option(given.skip(i + 1), option@)
                    =~= kept@ + without_option(rest, option@));
            } else {
                assert(rest.drop_first() =~= given.skip(i + 1));
                assert(without_option(given.skip(i + 1), option@) =~= Seq::<String>::empty());
                assert(kept@.push(args@[i as int]) =~= kept@ + rest);
            }
            kept.push(args[i].clone());
            i = i + 1;
        }
    }
    assert(without_option(given.skip(n as int), option@) =~= Seq::<String>::empty());
    assert(kept@ =~= without_option(given, option@));
    *args = kept;
}

// ---------------------------------------------------------------- video encoder arguments

pub open spec fn pick(q: Seq<char>, v: Seq<Seq<char>>) -> Seq<char>
    recommends
        v.len() == 7,
{
    if q == "lossless"@ {
        v[0]
    } else if q == "very-high"@ {
        v[1]
    } else if q == "high"@ {
        v[2]
    } else if q == "balanced"@ {
        v[3]
    } else if q == "small"@ {
        v[4]
    } else if q == "tiny"@ {
        v[5]
    } else {
        v[6]
    }
}

fn pick_exec(q: &str, v: [&'static str; 7]) -> (r: &'static str)
    ensures
        r@ == pick(q@, seq![v[0]@, v[1]@, v[2]@, v[3]@, v[4]@, v[5]@, v[6]@]),
{
    let s = owned(q);
    if is_lit(&s, "lossless") {
        v[0]
    } else if is_lit(&s, "very-high") {
        v[1]
    } else if is_lit(&s, "high") {
        v[2]
    } else if is_lit(&s, "balanced") {
        v[3]
    } else if is_lit(&s, "small") {
        v[4]
    } else if is_lit(&s, "tiny") {
        v[5]
    } else {
        v[6]
    }
}

/// The quality setting written for a software video codec and quality preset name
/// (CRF for the x264, x265, VP9 and AV1 families, a `-q:v` scale for the others).
pub open spec fn video_quality_value(codec: Seq<char>, q: Seq<char>) -> Seq<char> {
    if codec == "h264"@ {
        pick(q, seq!["0"@, "18"@, "20"@, "23"@, "28"@, "32"@, "23"@])
    } else if codec == "h265"@ || codec == "hevc"@ {
        pick(q, seq!["0"@, "20"@, "23"@, "26"@, "30"@, "34"@, "26"@])
    } else if codec == "vp9"@ {
        pick(q, seq!["0"@, "18"@, "24"@, "30"@, "36"@, "42"@, "30"@])
    } else if codec == "av1"@ {
        pick(q, seq!["0"@, "24"@, "28"@, "30"@, "34"@, "38"@, "30"@])
    } else if codec == "mpeg2video"@ {
        pick(q, seq!["1"@, "2"@, "3"@, "5"@, "7"@, "9"@, "5"@])
    } else {
        pick(q, seq!["1"@, "3"@, "5"@, "7"@, "9"@, "12"@, "7"@])
    }
}

/// Software encoder arguments for a codec that has software candidates.
pub open spec fn software_video_args(codec: Seq<char>, q: Seq<char>, encoder: Seq<char>) -> Seq<Seq<char>> {
    let value = video_quality_value(codec, q);
    if codec == "h264"@ || codec == "h265"@ || codec == "hevc"@ {
        seq!["-c:v"@, encoder, "-preset"@, "medium"@, "-crf"@, value]
    } else if codec == "vp9"@ {
        seq![
            "-c:v"@,
            encoder,
            "-deadline"@,
            "good"@,
            "-cpu-used"@,
            "2"@,
            "-crf"@,
            value,
            "-b:v"@,
            "0"@,
        ]
    } else if codec == "av1"@ {
        if encoder == "libaom-av1"@ {
            seq!["-c:v"@, encoder, "-crf"@, value, "-b:v"@, "0"@]
        } else {
            seq!["-c:v"@, encoder, "-crf"@, value]
        }
    } else {
        seq!["-c:v"@, encoder, "-q:v"@, value]
    }
}

/// What `video_encode_args` produces when it succeeds.
pub open spec fn video_args_for(codec: Seq<char>, q: Seq<char>, encoder_override: Option<Seq<char>>) -> Seq<Seq<char>> {
    let c = preferred(codec, "h264"@);
    match encoder_override {
        Some(e) => if hardware_encoder_name(e) {
            seq!["-c:v"@, e]
        } else {
            software_video_args(c, q, e)
        },
        None => software_video_args(c, q, software_candidates(c)[0]),
    }
}

pub open spec fn opt_view(o: Option<&str>) -> Option<Seq<char>> {
    match o {
        Some(s) => Some(s@),
        None => None,
    }
}

/// FFmpeg arguments that encode video with `codec` at the named quality preset, using
/// `encoder_override` when given (a hardware encoder gets no quality arguments).
pub fn video_encode_args(codec: &str, quality: &str, encoder_override: Option<&str>) -> (r: Result<
    Vec<String>,
    MediaError,
>)
    ensures
        codec@ == "copy"@ ==> fails_with_message(
            r,
            ErrorCode::UnsupportedCodec,
            "Video codec `copy` cannot be used for a transcode plan."@,
        ),
        codec@ != "copy"@ && software_candidates(preferred(codec@, "h264"@)).len() == 0
            ==> fails_with_message(
            r,
            ErrorCode::UnsupportedCodec,
            "Unsupported video codec: "@ + preferred(codec@, "h264"@),
        ),
        codec@ != "copy"@ && software_candidates(preferred(codec@, "h264"@)).len() > 0 ==> (r matches Ok(
            v,
        ) && views(v@) == video_args_for(codec@, quality@, opt_view(encoder_override))),
{
    let c0 = owned(codec);
    if is_lit(&c0, "copy") {
        return Err(MediaError::new(
            ErrorCode::UnsupportedCodec,
            owned("Video codec `copy` cannot be used for a transcode plan."),
        ));
    }
    let c = preferred_codec(codec, "h264");
    let candidates = software_encoder_candidates(c.as_str());
    if candidates.len() == 0 {
        return Err(MediaError::new(
            ErrorCode::UnsupportedCodec,
            concat("Unsupported video codec: ", c.as_str()),
        ));
    }
    let default_encoder = candidates[0];
    if let Some(e) = encoder_override {
        if is_hardware_encoder(e) {
            let v = vec![owned("-c:v"), owned(e)];
            assert(views(v@) =~= seq!["-c:v"@, e@]);
            return Ok(v);
        }
    }
    let encoder = match encoder_override {
        Some(e) => e,
        None => default_encoder,
    };
    let v: Vec<String> = if is_lit(&c, "h264") || is_lit(&c, "h265") || is_lit(&c, "hevc") {
        let value = if is_lit(&c, "h264") {
            pick_exec(quality, ["0", "18", "20", "23", "28", "32", "23"])
        } else {
            pick_exec(quality, ["0", "20", "23", "26", "30", "34", "26"])
        };
        vec![owned("-c:v"), owned(encoder), owned("-preset"), owned("medium"), owned("-crf"), owned(value)]
    } else if is_lit(&c, "vp9") {
        let value = pick_exec(quality, ["0", "18", "24", "30", "36", "42", "30"]);
        vec![
            owned("-c:v"),
            owned(encoder),
            owned("-deadline"),
            owned("good"),
            owned("-cpu-used"),
            owned("2"),
            owned("-crf"),
            owned(value),
            owned("-b:v"),
            owned("0"),
        ]
    } else if is_lit(&c, "av1") {
        let value = pick_exec(quality, ["0", "24", "28", "30", "34", "38", "30"]);
        let mut a = vec![owned("-c:v"), owned(encoder), owned("-crf"), owned(value)];
        if str_eq(encoder, "libaom-av1") {
            a.push(owned("-b:v"));
            a.push(owned("0"));
        }
        a
    } else if is_lit(&c, "mpeg2video") {
        let value = pick_exec(quality, ["1", "2", "3", "5", "7", "9", "5"]);
        vec![owned("-c:v"), owned(encoder), owned("-q:v"), owned(value)]
    } else {
        let value = pick_exec(quality, ["1", "3", "5", "7", "9", "12", "7"]);
        vec![owned("-c:v"), owned(encoder), owned("-q:v"), owned(value)]
    };
    assert(views(v@) =~= video_args_for(codec@, quality@, opt_view(encoder_override)));
    Ok(v)
}

pub open spec fn hardware_bitrate(q: Quality) -> Seq<char> {
    match q {
        Quality::Lossless => "12M"@,
        Quality::VeryHigh => "8M"@,
        Quality::High => "5M"@,
        Quality::Balanced => "3M"@,
        Quality::Small => "2M"@,
        Quality::Tiny => "1M"@,
    }
}

/// Video bitrate used with a hardware encoder for a quality preset.
pub fn hardware_quality_bitrate(quality: Quality) -> (r: &'static str)
    ensures
        r@ == hardware_bitrate(quality),
{
    match quality {
        Quality::Lossless => "12M",
        Quality::VeryHigh => "8M",
        Quality::High => "5M",
        Quality::Balanced => "3M",
        Quality::Small => "2M",
        Quality::Tiny => "1M",
    }
}

// ---------------------------------------------------------------- audio encoder arguments

/// What `audio_encode_args` produces for a codec name, if it knows the codec.
pub open spec fn audio_args_for(codec: Seq<char>, bitrate: Seq<char>) -> Option<Seq<Seq<char>>> {
    let c = preferred(codec, "aac"@);
    if c == "aac"@ {
        Some(seq!["-c:a"@, "aac"@, "-b:a"@, bitrate])
    } else if c == "opus"@ {
        Some(seq!["-c:a"@, "libopus"@, "-b:a"@, bitrate])
    } else if c == "mp3"@ {
        Some(seq!["-c:a"@, "libmp3lame"@, "-b:a"@, bitrate])
    } else if c == "flac"@ {
        Some(seq!["-c:a"@, "flac"@])
    } else if c == "wav"@ {
        Some(seq!["-c:a"@, "pcm_s16le"@])
    } else if c == "vorbis"@ {
        Some(seq!["-strict"@, "-2"@, "-c:a"@, "vorbis"@, "-b:a"@, bitrate])
    } else if c == "wmav2"@ {
        Some(seq!["-c:a"@, "wmav2"@, "-b:a"@, bitrate])
    } else if c == "aiff"@ {
        Some(seq!["-c:a"@, "pcm_s16be"@])
    } else if c == "alac"@ {
        Some(seq!["-c:a"@, "alac"@])
    } else if c == "amr_nb"@ {
        Some(
            seq![
                "-c:a"@,
                "libopencore_amrnb"@,
                "-ar"@,
                "8000"@,
                "-ac"@,
                "1"@,
                "-b:a"@,
                "12.2k"@,
            ],
        )
    } else if c == "ac3"@ {
        Some(seq!["-c:a"@, "ac3"@, "-b:a"@, bitrate])
    } else if c == "mp2"@ {
        Some(seq!["-c:a"@, "mp2"@, "-b:a"@, bitrate])
    } else {
        None
    }
}

/// FFmpeg arguments that encode audio with `codec` at `bitrate` (`auto` means AAC).
pub fn audio_encode_args(codec: &str, bitrate: &str) -> (r: Result<Vec<String>, MediaError>)
    ensures
        codec@ == "copy"@ ==> fails_with_message(
            r,
            ErrorCode::UnsupportedCodec,
            "Audio codec `copy` cannot be used for a transcode plan."@,
        ),
        codec@ != "copy"@ ==> match audio_args_for(codec@, bitrate@) {
            Some(a) => r matches Ok(v) && views(v@) == a,
            None => fails_with_message(
                r,
                ErrorCode::UnsupportedCodec,
                "Unsupported audio codec: "@ + preferred(codec@, "aac"@),
            ),
        },
{
    let c0 = owned(codec);
    if is_lit(&c0, "copy") {
        return Err(MediaError::new(
            ErrorCode::UnsupportedCodec,
            owned("Audio codec `copy` cannot be used for a transcode plan."),
        ));
    }
    let c = preferred_codec(codec, "aac");
    let b = owned(bitrate);
    let v: Vec<String> = if is_lit(&c, "aac") {
        vec![owned("-c:a"), owned("aac"), owned("-b:a"), b]
    } else if is_lit(&c, "opus") {
        vec![owned("-c:a"), owned("libopus"), owned("-b:a"), b]
    } else if is_lit(&c, "mp3") {
        vec![owned("-c:a"), owned("libmp3lame"), owned("-b:a"), b]
    } else if is_lit(&c, "flac") {
        vec![owned("-c:a"), owned("flac")]
    } else if is_lit(&c, "wav") {
        vec![owned("-c:a"), owned("pcm_s16le")]
    } else if is_lit(&c, "vorbis") {
        vec![owned("-strict"), owned("-2"), owned("-c:a"), owned("vorbis"), owned("-b:a"), b]
    } else if is_lit(&c, "wmav2") {
        vec![owned("-c:a"), owned("wmav2"), owned("-b:a"), b]
    } else if is_lit(&c, "aiff") {
        vec![owned("-c:a"), owned("pcm_s16be")]
    } else if is_lit(&c, "alac") {
        vec![owned("-c:a"), owned("alac")]
    } else if is_lit(&c, "amr_nb") {
        vec![
            owned("-c:a"),
            owned("libopencore_amrnb"),
            owned("-ar"),
            owned("8000"),
            owned("-ac"),
            owned("1"),
            owned("-b:a"),
            owned("12.2k"),
        ]
    } else if is_lit(&c, "ac3") {
        vec![owned("-c:a"), owned("ac3"), owned("-b:a"), b]
    } else if is_lit(&c, "mp2") {
        vec![owned("-c:a"), owned("mp2"), owned("-b:a"), b]
    } else {
        return Err(MediaError::new(
            ErrorCode::UnsupportedCodec,
            concat("Unsupported audio codec: ", c.as_str()),
        ));
    };
    assert(views(v@) =~= audio_args_for(codec@, bitrate@).unwrap());
    Ok(v)
}

pub open spec fn audio_container_args_for(format: Seq<char>) -> Seq<Seq<char>> {
    if format == "alac"@ {
        seq!["-f"@, "ipod"@]
    } else {
        Seq::empty()
    }
}

/// Extra muxer arguments for an audio output format (`alac` is written as `ipod`).
pub fn audio_container_args(format: &str) -> (r: Vec<String>)
    ensures
        views(r@) == audio_container_args_for(format@),
{
    let v = if str_eq(format, "alac") {
        vec![owned("-f"), owned("ipod")]
    } else {
        Vec::new()
    };
    assert(views(v@) =~= audio_container_args_for(format@));
    v
}


/// The container defaults are concrete codecs with encoders that MediaForge knows.
pub proof fn lemma_defaults_concrete(c: Seq<char>, bitrate: Seq<char>)
    ensures
        default_video_codec(c) != "auto"@,
        default_video_codec(c) != "copy"@,
        software_candidates(default_video_codec(c)).len() > 0,
        default_audio_codec(c) != "auto"@,
        default_audio_codec(c) != "copy"@,
        audio_args_for(default_audio_codec(c), bitrate) is Some,
{
    reveal_strlit("auto");
    reveal_strlit("copy");
    reveal_strlit("h264");
    reveal_strlit("h265");
    reveal_strlit("hevc");
    reveal_strlit("vp9");
    reveal_strlit("av1");
    reveal_strlit("mpeg2video");
    reveal_strlit("flv1");
    reveal_strlit("wmv2");
    reveal_strlit("theora");
    reveal_strlit("aac");
    reveal_strlit("opus");
    reveal_strlit("mp3");
    reveal_strlit("flac");
    reveal_strlit("wav");
    reveal_strlit("vorbis");
    reveal_strlit("wmav2");
    reveal_strlit("aiff");
    reveal_strlit("alac");
    reveal_strlit("amr_nb");
    reveal_strlit("ac3");
    reveal_strlit("mp2");
    assert("auto"@[0] == 'a' && "copy"@[0] == 'c' && "h264"@[0] == 'h' && "h265"@[0] == 'h');
    assert("hevc"@[0] == 'h' && "flv1"@[0] == 'f' && "wmv2"@[0] == 'w' && "opus"@[0] == 'o');
    assert("h264"@[3] == '4' && "h265"@[3] == '5' && "hevc"@[1] == 'e' && "h264"@[1] == '2');
    assert("aac"@[0] == 'a' && "mp3"@[0] == 'm' && "wav"@[0] == 'w' && "ac3"@[0] == 'a');
    assert("aac"@[1] == 'a' && "ac3"@[1] == 'c' && "mp3"@[2] == '3' && "mp2"@[2] == '2');
    assert("flac"@[0] == 'f' && "aiff"@[0] == 'a' && "alac"@[0] == 'a' && "aiff"@[1] == 'i');
    assert("alac"@[1] == 'l' && "auto"@[1] == 'u' && "vp9"@[0] == 'v' && "av1"@[0] == 'a');
    assert("wmav2"@[0] == 'w' && "vorbis"@[0] == 'v' && "amr_nb"@[0] == 'a');
}


/// The stream and action names that transcode validation distinguishes.
pub proof fn lemma_transcode_literals()
    ensures
        "audio"@ != "video"@,
        "copy"@ != "transcode"@,
        "auto"@ != "copy"@,
{
    reveal_strlit("audio");
    reveal_strlit("video");
    reveal_strlit("copy");
    reveal_strlit("transcode");
    reveal_strlit("auto");
    assert("audio"@[0] != "video"@[0]);
    assert("auto"@[1] != "copy"@[1]);
}

/// A candidate that the listing names first is one of the candidates.
pub proof fn lemma_first_listed_member(cands: Seq<Seq<char>>, e: Seq<char>, text: Seq<char>)
    requires
        first_listed(cands, text) == Some(e),
    ensures
        cands.len() > 0,
        cands.contains(e),
    decreases cands.len(),
{
    if cands.len() > 0 && !has_token(text, cands[0]) {
        lemma_first_listed_member(cands.drop_first(), e, text);
        let k = choose|k: int| 0 <= k < cands.drop_first().len() && cands.drop_first()[k] == e;
        assert(cands[k + 1] == e);
    }
}


/// Every codec with hardware encoders also has software encoders.
pub proof fn lemma_hardware_has_software(c: Seq<char>)
    ensures
        hardware_candidates(c).len() > 0 ==> software_candidates(c).len() > 0,
{
    reveal_strlit("h264");
    reveal_strlit("h265");
    reveal_strlit("hevc");
    reveal_strlit("vp9");
    reveal_strlit("av1");
    assert("vp9"@[0] != "av1"@[0]);
}

} // verus!

verus! {

/// Every canonical target container can hold its own default video and audio codecs.
pub proof fn lemma_defaults_fit_container(c: Seq<char>)
    requires
        is_canonical_container(c),
    ensures
        video_ok(c, default_video_codec(c)),
        audio_ok(c, default_audio_codec(c)),
{
    reveal_strlit("mp4");
    reveal_strlit("mkv");
    reveal_strlit("mov");
    reveal_strlit("webm");
    reveal_strlit("avi");
    reveal_strlit("wmv");
    reveal_strlit("flv");
    reveal_strlit("ogv");
    reveal_strlit("3gp");
    reveal_strlit("mpeg");
    reveal_strlit("vob");
    reveal_strlit("swf");
    assert("mp4"@[0] == 'm' && "mkv"@[1] == 'k' && "mov"@[1] == 'o' && "mp4"@[1] == 'p');
    assert("webm"@[0] == 'w' && "wmv"@[1] == 'm' && "webm"@[1] == 'e' && "mpeg"@[1] == 'p');
    assert("avi"@[0] == 'a' && "flv"@[0] == 'f' && "ogv"@[0] == 'o' && "3gp"@[0] == '3');
    assert("vob"@[0] == 'v' && "swf"@[0] == 's' && "mp4"@[2] == '4' && "mpeg"@[2] == 'e');
}

} // verus!

verus! {

/// After `remove_option` the option no longer occurs with a value after it: only a
/// trailing occurrence can remain.
pub proof fn lemma_remove_option_clears(s: Seq<String>, option: Seq<char>)
    ensures
        forall|i: int|
            0 <= i < without_option(s, option).len() - 1 ==> #[trigger] without_option(
                s,
                option,
            )[i]@ != option,
    decreases s.len(),
{
    if s.len() < 2 {
        assert(without_option(s, option) == s);
    } else if s[0]@ == option {
        lemma_remove_option_clears(s.skip(2), option);
        assert(without_option(s, option) == without_option(s.skip(2), option));
    } else {
        lemma_remove_option_clears(s.drop_first(), option);
        assert(without_option(s, option) == seq![s[0]].add(without_option(s.drop_first(), option)));
        let rest = without_option(s.drop_first(), option);
        assert forall|i: int|
            0 <= i < without_option(s, option).len() - 1 implies #[trigger] without_option(
            s,
            option,
        )[i]@ != option by {
            if i > 0 {
                assert(without_option(s, option)[i] == rest[i - 1]);
                assert(rest[i - 1]@ != option);
            } else {
                assert(without_option(s, option)[0] == s[0]);
            }
        }
    }
}

} // verus!
