//! Reading a probed file: its container label and a summary of each stream; and repairing
//! a damaged file by rewriting its timestamps.

use vstd::prelude::*;
use crate::args::{push_all};
use crate::codec::{opt_view, views};
use crate::convert::{first_format_name, first_piece};
use crate::edit::{string_view};
use crate::encode::{aac_default, aac_default_args, x264_high, x264_high_args};
use crate::model::{ErrorCode, MediaError, StreamInfo, fails_with_message};
use crate::names::{inspect_container_label, inspect_label_for};
use crate::streams::{bit_depth, bit_depth_of, disposition_flag, disposition_set, has_kind, has_stream, hdr_name, hdr_of, is_kind};
use crate::text::{owned, str_eq};

verus! {

/// What `inspect` reports of a video stream (besides what it reads from the raw probe).
#[derive(Debug)]
pub struct VideoSummary {
    pub codec: String,
    pub width: Option<u64>,
    pub height: Option<u64>,
    pub pixel_format: Option<String>,
    pub bit_depth: Option<u8>,
    pub hdr: Option<String>,
    pub default: bool,
}

/// What `inspect` reports of an audio stream.
#[derive(Debug)]
pub struct AudioSummary {
    pub codec: Option<String>,
    pub default: bool,
}

/// What `inspect` reports of a subtitle stream.
#[derive(Debug)]
pub struct SubtitleSummary {
    pub codec: Option<String>,
    pub forced: bool,
    pub default: bool,
}

fn copy_text(o: &Option<String>) -> (r: Option<String>)
    ensures
        string_view(r) == string_view(*o),
{
    match o {
        Some(s) => Some(owned(s.as_str())),
        None => None,
    }
}

/// `v` summarises the video stream `stream`: its codec (`unknown` when unnamed), size,
/// pixel format, bit depth, HDR transfer and default flag.
pub open spec fn summarises_video(v: VideoSummary, stream: StreamInfo) -> bool {
    &&& v.codec@ == (match stream.codec_name {
        Some(c) => c@,
        None => "unknown"@,
    })
    &&& v.width == stream.width
    &&& v.height == stream.height
    &&& string_view(v.pixel_format) == string_view(stream.pix_fmt)
    &&& v.bit_depth == bit_depth_of(stream)
    &&& string_view(v.hdr) == hdr_of(stream)
    &&& v.default == disposition_set(stream, "default"@)
}

/// `a` summarises the audio stream `stream`: its codec and default flag.
pub open spec fn summarises_audio(a: AudioSummary, stream: StreamInfo) -> bool {
    &&& string_view(a.codec) == string_view(stream.codec_name)
    &&& a.default == disposition_set(stream, "default"@)
}

/// `t` summarises the subtitle stream `stream`: its codec and forced and default flags.
pub open spec fn summarises_subtitle(t: SubtitleSummary, stream: StreamInfo) -> bool {
    &&& string_view(t.codec) == string_view(stream.codec_name)
    &&& t.forced == disposition_set(stream, "forced"@)
    &&& t.default == disposition_set(stream, "default"@)
}

/// The summary of a video stream.
pub fn normalize_video(stream: &StreamInfo) -> (v: VideoSummary)
    ensures
        summarises_video(v, *stream),
{
    let hdr = hdr_name(stream);
    VideoSummary {
        codec: match &stream.codec_name {
            Some(c) => owned(c.as_str()),
            None => owned("unknown"),
        },
        width: stream.width,
        height: stream.height,
        pixel_format: copy_text(&stream.pix_fmt),
        bit_depth: bit_depth(stream),
        hdr,
        default: disposition_flag(stream, "default"),
    }
}

/// The summary of an audio stream.
pub fn normalize_audio(stream: &StreamInfo) -> (a: AudioSummary)
    ensures
        summarises_audio(a, *stream),
{
    AudioSummary { codec: copy_text(&stream.codec_name), default: disposition_flag(stream, "default") }
}

/// The summary of a subtitle stream.
pub fn normalize_subtitle(stream: &StreamInfo) -> (s: SubtitleSummary)
    ensures
        summarises_subtitle(s, *stream),
{
    SubtitleSummary {
        codec: copy_text(&stream.codec_name),
        forced: disposition_flag(stream, "forced"),
        default: disposition_flag(stream, "default"),
    }
}

/// The report of `inspect`: the container label and the streams by kind, in probe order.
#[derive(Debug)]
pub struct InspectSummary {
    pub container: String,
    pub video: Vec<VideoSummary>,
    pub audio: Vec<AudioSummary>,
    pub subtitle: Vec<SubtitleSummary>,
}

/// The streams of `kind`, in order.
pub open spec fn of_kind(s: Seq<StreamInfo>, kind: Seq<char>) -> Seq<StreamInfo> {
    s.filter(|st: StreamInfo| is_kind(st, kind))
}

/// Summarises a probed file with `extension`, probed format name `format_name` and
/// `streams`: the container label, and one summary per video, audio and subtitle stream.
pub fn inspect_command(extension: Option<&str>, format_name: Option<&str>, streams: &Vec<StreamInfo>) -> (r:
    InspectSummary)
    ensures
        r.container@ == inspect_label_for(
            opt_view(extension),
            first_piece(
                match format_name {
                    Some(f) => f@,
                    None => "unknown"@,
                },
            ),
        ),
        r.video@.len() == of_kind(streams@, "video"@).len(),
        forall|i: int|
            0 <= i < r.video@.len() ==> summarises_video(
                #[trigger] r.video@[i],
                of_kind(streams@, "video"@)[i],
            ),
        r.audio@.len() == of_kind(streams@, "audio"@).len(),
        forall|i: int|
            0 <= i < r.audio@.len() ==> summarises_audio(
                #[trigger] r.audio@[i],
                of_kind(streams@, "audio"@)[i],
            ),
        r.subtitle@.len() == of_kind(streams@, "subtitle"@).len(),
        forall|i: int|
            0 <= i < r.subtitle@.len() ==> summarises_subtitle(
                #[trigger] r.subtitle@[i],
                of_kind(streams@, "subtitle"@)[i],
            ),
{
    let name = match format_name {
        Some(f) => f,
        None => "unknown",
    };
    let first = first_format_name(name);
    let container = inspect_container_label(extension, first.as_str());
    let mut video: Vec<VideoSummary> = Vec::new();
    let mut audio: Vec<AudioSummary> = Vec::new();
    let mut subtitle: Vec<SubtitleSummary> = Vec::new();
    let ghost vs = of_kind(streams@, "video"@);
    let ghost aus = of_kind(streams@, "audio"@);
    let ghost ss = of_kind(streams@, "subtitle"@);
    let mut i: usize = 0;
    while i < streams.len()
        invariant
            0 <= i <= streams@.len(),
            video@.len() == of_kind(streams@.take(i as int), "video"@).len(),
            forall|k: int|
                0 <= k < video@.len() ==> summarises_video(
                    #[trigger] video@[k],
                    of_kind(streams@.take(i as int), "video"@)[k],
                ),
            audio@.len() == of_kind(streams@.take(i as int), "audio"@).len(),
            forall|k: int|
                0 <= k < audio@.len() ==> summarises_audio(
                    #[trigger] audio@[k],
                    of_kind(streams@.take(i as int), "audio"@)[k],
                ),
            subtitle@.len() == of_kind(streams@.take(i as int), "subtitle"@).len(),
            forall|k: int|
                0 <= k < subtitle@.len() ==> summarises_subtitle(
                    #[trigger] subtitle@[k],
                    of_kind(streams@.take(i as int), "subtitle"@)[k],
                ),
        decreases streams.len() - i,
    {
        let st = &streams[i];
        proof {
            assert(streams@.take(i + 1).drop_last() =~= streams@.take(i as int));
            reveal(Seq::filter);
        }
        let is_video = match &st.codec_type {
            Some(t) => str_eq(t.as_str(), "video"),
            None => false,
        };
        let is_audio = match &st.codec_type {
            Some(t) => str_eq(t.as_str(), "audio"),
            None => false,
        };
        let is_subtitle = match &st.codec_type {
            Some(t) => str_eq(t.as_str(), "subtitle"),
            None => false,
        };
        if is_video {
            video.push(normalize_video(st));
        } else if is_audio {
            audio.push(normalize_audio(st));
        } else if is_subtitle {
            subtitle.push(normalize_subtitle(st));
        }
        proof {
            reveal_strlit("video");
            reveal_strlit("audio");
            reveal_strlit("subtitle");
            assert("video"@[0] != "audio"@[0] && "video"@[0] != "subtitle"@[0]);
            assert("audio"@[0] != "subtitle"@[0]);
        }
        i = i + 1;
    }
    assert(streams@.take(streams@.len() as int) =~= streams@);
    InspectSummary { container, video, audio, subtitle }
}

// ---------------------------------------------------------------- repair

/// The default output name of a repair: `STEM_repaired.EXT`, with `media` and `mp4` when
/// the input has no stem or extension.
pub fn repaired_file_name(stem: Option<&str>, extension: Option<&str>) -> (r: String)
    ensures
        r@ == (match stem {
            Some(s) => s@,
            None => "media"@,
        }) + "_repaired."@ + (match extension {
            Some(e) => e@,
            None => "mp4"@,
        }),
{
    let mut out = match stem {
        Some(s) => owned(s),
        None => owned("media"),
    };
    out.append("_repaired.");
    match extension {
        Some(e) => out.append(e),
        None => out.append("mp4"),
    }
    out
}

/// The plan of a repair.
#[derive(Debug)]
pub struct RepairPlan {
    pub strategy: String,
    pub quality_loss: String,
    pub audio_present: bool,
    pub args: Vec<String>,
}

/// Plans the repair of `input`: regenerate timestamps, drop corrupt packets, ignore
/// decode errors, and either copy every stream or re-encode to H.264 and AAC.
pub fn repair_command(input: &str, reencode: bool, streams: &Vec<StreamInfo>) -> (r: RepairPlan)
    ensures
        r.strategy@ == (if reencode {
            "repair_transcode"@
        } else {
            "repair_copy"@
        }),
        r.quality_loss@ == (if reencode {
            "possible"@
        } else {
            "none"@
        }),
        r.audio_present == has_kind(streams@, "audio"@),
        views(r.args@) == seq![
            "-fflags"@,
            "+genpts+discardcorrupt"@,
            "-err_detect"@,
            "ignore_err"@,
            "-i"@,
            input@,
            "-map"@,
            "0"@,
            "-avoid_negative_ts"@,
            "make_zero"@,
        ] + (if reencode {
            x264_high_args() + aac_default_args()
        } else {
            seq!["-c"@, "copy"@]
        }),
{
    let mut args = vec![
        owned("-fflags"),
        owned("+genpts+discardcorrupt"),
        owned("-err_detect"),
        owned("ignore_err"),
        owned("-i"),
        owned(input),
        owned("-map"),
        owned("0"),
        owned("-avoid_negative_ts"),
        owned("make_zero"),
    ];
    if reencode {
        push_all(&mut args, x264_high());
        push_all(&mut args, aac_default());
    } else {
        push_all(&mut args, vec![owned("-c"), owned("copy")]);
    }
    RepairPlan {
        strategy: if reencode {
            owned("repair_transcode")
        } else {
            owned("repair_copy")
        },
        quality_loss: if reencode {
            owned("possible")
        } else {
            owned("none")
        },
        audio_present: has_stream(streams, "audio"),
        args,
    }
}

/// The arguments of a raw FFmpeg pass-through, which must not be empty.
pub fn raw_ffmpeg_command(args: &Vec<String>) -> (r: Result<(), MediaError>)
    ensures
        args@.len() == 0 ==> fails_with_message(
            r,
            ErrorCode::InvalidArgument,
            "Raw FFmpeg requires arguments after `media ffmpeg --`."@,
        ),
        args@.len() > 0 ==> r is Ok,
{
    if args.len() == 0 {
        return Err(MediaError::new(
            ErrorCode::InvalidArgument,
            owned("Raw FFmpeg requires arguments after `media ffmpeg --`."),
        ));
    }
    Ok(())
}

} // verus!
