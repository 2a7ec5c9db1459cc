//! Clipping a time range out of a video: stream copy when the cut starts at zero in a
//! compatible MP4, a precise software transcode otherwise.

use vstd::prelude::*;
use crate::args::{push_all};
use crate::codec::{audio_ok, first_listed, is_audio_compatible, is_video_compatible, preferred, software_candidates, video_args_for, video_encode_args, video_ok, views};
use crate::convert::{first_codec, first_codec_name, source_container};
use crate::encode::{aac_default, aac_default_args};
use crate::hardware::{Listing, no_software_suggestions, select_software_video_encoder, software_details};
use crate::model::{ErrorCode, MediaError, StreamInfo, copy_error, fails_with_message, refused, same_error};
use crate::names::{is_lit};
use crate::streams::{count_kind, subtitle_codec_args, subtitle_codec_for, subtitle_ffmpeg_args, subtitle_strategy, subtitle_strategy_for, subtitle_warnings, subtitle_warnings_for};
use crate::text::{owned, str_eq};

verus! {

/// The time arguments of a clip, with what reading them gave. Each check is the outcome
/// of parsing the time: for the start, whether it is negative; for the duration, whether
/// it is above zero; for the end, whether it lies after the start, together with the
/// clip length it implies, written with three decimals.
#[derive(Debug)]
pub struct ClipTimes {
    pub start: String,
    pub start_negative: Result<bool, MediaError>,
    pub start_is_zero: bool,
    pub duration: Option<(String, Result<bool, MediaError>)>,
    pub end: Option<(String, Result<bool, MediaError>, String)>,
}

/// Checks the input and the time arguments of a clip.
pub fn clip_preflight(times: &ClipTimes, input_check: Result<(), MediaError>) -> (r: Result<
    (),
    MediaError,
>)
    ensures
        if input_check is Err {
            r matches Err(e) && same_error(e, input_check->Err_0)
        } else if times.duration is None && times.end is None {
            fails_with_message(r, ErrorCode::InvalidArgument, "Provide --duration or --end."@)
        } else if times.duration is Some && times.end is Some {
            fails_with_message(
                r,
                ErrorCode::InvalidArgument,
                "Use only one of --duration or --end."@,
            )
        } else if times.start_negative is Err {
            r matches Err(e) && same_error(e, times.start_negative->Err_0)
        } else if times.start_negative == Ok::<bool, MediaError>(true) {
            fails_with_message(r, ErrorCode::InvalidArgument, "Clip start must not be negative."@)
        } else if times.duration matches Some((_, Err(_))) {
            r matches Err(e) && same_error(e, times.duration->Some_0.1->Err_0)
        } else if times.duration matches Some((_, Ok(false))) {
            fails_with_message(
                r,
                ErrorCode::InvalidArgument,
                "Clip duration must be greater than zero."@,
            )
        } else if times.end matches Some((_, Err(_), _)) {
            r matches Err(e) && same_error(e, times.end->Some_0.1->Err_0)
        } else if times.end matches Some((_, Ok(false), _)) {
            fails_with_message(r, ErrorCode::InvalidArgument, "Clip end must be after start."@)
        } else {
            r is Ok
        },
{
    if let Err(e) = input_check {
        return Err(e);
    }
    if times.duration.is_none() && times.end.is_none() {
        return Err(MediaError::new(
            ErrorCode::InvalidArgument,
            owned("Provide --duration or --end."),
        ));
    }
    if times.duration.is_some() && times.end.is_some() {
        return Err(MediaError::new(
            ErrorCode::InvalidArgument,
            owned("Use only one of --duration or --end."),
        ));
    }
    match &times.start_negative {
        Err(e) => {
            return Err(copy_error(e));
        },
        Ok(negative) => {
            if *negative {
                return Err(MediaError::new(
                    ErrorCode::InvalidArgument,
                    owned("Clip start must not be negative."),
                ));
            }
        },
    }
    if let Some((_, check)) = &times.duration {
        match check {
            Err(e) => {
                return Err(copy_error(e));
            },
            Ok(positive) => {
                if !*positive {
                    return Err(MediaError::new(
                        ErrorCode::InvalidArgument,
                        owned("Clip duration must be greater than zero."),
                    ));
                }
            },
        }
    }
    if let Some((_, check, _)) = &times.end {
        match check {
            Err(e) => {
                return Err(copy_error(e));
            },
            Ok(after) => {
                if !*after {
                    return Err(MediaError::new(
                        ErrorCode::InvalidArgument,
                        owned("Clip end must be after start."),
                    ));
                }
            },
        }
    }
    Ok(())
}

/// The plan of a clip.
#[derive(Debug)]
pub struct ClipPlan {
    pub strategy: String,
    pub stream_copy: bool,
    pub quality_loss: String,
    pub reason: String,
    pub encoder: Option<String>,
    pub subtitle_action: String,
    pub warnings: Vec<String>,
    pub args: Vec<String>,
}

/// A clip is a stream copy when it starts at zero in an MP4 whose video (and audio, if
/// any) MP4 can hold unchanged.
pub open spec fn clip_copies(start_is_zero: bool, container: Seq<char>, s: Seq<StreamInfo>) -> bool {
    &&& start_is_zero
    &&& container == "mp4"@
    &&& video_ok("mp4"@, first_codec(s, "video"@))
    &&& (first_codec(s, "audio"@) == "unknown"@ || audio_ok("mp4"@, first_codec(s, "audio"@)))
}

/// The `-t` length argument of a clip.
pub open spec fn clip_length_args(times: ClipTimes) -> Seq<Seq<char>> {
    match times.duration {
        Some((d, _)) => seq!["-t"@, d@],
        None => match times.end {
            Some((_, _, len)) => seq!["-t"@, len@],
            None => Seq::empty(),
        },
    }
}

/// The FFmpeg arguments of a clip, given its copy decision and encoder.
pub open spec fn clip_args_for(
    times: ClipTimes,
    input: Seq<char>,
    s: Seq<StreamInfo>,
    copy: bool,
    encoder: Seq<char>,
) -> Seq<Seq<char>> {
    (if copy {
        seq!["-map"@, "0"@]
    } else {
        seq!["-ss"@, times.start@, "-i"@, input, "-map"@, "0:v:0"@, "-map"@, "0:a?"@]
    }) + clip_length_args(times) + (if copy {
        seq!["-c"@, "copy"@]
    } else {
        video_args_for("h264"@, "high"@, Some(encoder)) + aac_default_args()
    }) + (if count_kind(s, "subtitle"@) == 0 {
        Seq::empty()
    } else if copy {
        seq!["-c:s"@, subtitle_codec_for("mp4"@)]
    } else {
        seq!["-map"@, "0:s?"@, "-c:s"@, subtitle_codec_for("mp4"@)]
    }) + seq!["-map_metadata"@, "0"@, "-map_chapters"@, "0"@]
}

/// Plans a checked clip of `input` (a `source_container` file with `streams`). A
/// transcode takes the software H.264 encoder that `listing` names.
pub fn clip_command(
    times: &ClipTimes,
    input: &str,
    streams: &Vec<StreamInfo>,
    source_container: &str,
    listing: &Listing,
) -> (r: Result<ClipPlan, MediaError>)
    ensures
        ({
            let copy = clip_copies(times.start_is_zero, source_container@, streams@);
            if copy {
                r matches Ok(p) && p.stream_copy && p.strategy@ == "stream_copy"@
                    && p.quality_loss@ == "none"@ && p.reason@
                    == "Start is at zero and source streams are compatible with MP4; stream copy avoids re-encoding."@
                    && p.encoder is None && views(p.args@)
                    == clip_args_for(*times, input@, streams@, true, Seq::empty())
                    && p.subtitle_action@ == subtitle_strategy_for("mp4"@, streams@) && views(
                    p.warnings@,
                ) == subtitle_warnings_for(streams@, "mp4"@)
            } else {
                match listing {
                    Err(e) => r matches Err(x) && same_error(x, *e),
                    Ok(text) => match first_listed(software_candidates("h264"@), text@) {
                        None => refused(
                    r,
                    ErrorCode::EncoderUnavailable,
                    "No software encoder is available for video codec "@ + "h264"@ + "."@,
                    no_software_suggestions(),
                ) && software_details(r, "h264"@),
                        Some(enc) => r matches Ok(p) && !p.stream_copy && p.strategy@
                            == "precise_transcode"@ && p.quality_loss@ == "video_and_audio"@
                            && p.reason@
                            == "Precise clipping re-encodes to honor the requested boundary."@ && (
                        p.encoder matches Some(x) && x@ == enc) && views(p.args@) == clip_args_for(
                            *times,
                            input@,
                            streams@,
                            false,
                            enc,
                        ) && p.subtitle_action@ == subtitle_strategy_for("mp4"@, streams@)
                            && views(p.warnings@) == subtitle_warnings_for(streams@, "mp4"@),
                    },
                }
            }
        }),
{
    let vcodec = first_codec_name(streams, "video");
    let acodec = first_codec_name(streams, "audio");
    let copy = times.start_is_zero && str_eq(source_container, "mp4") && is_video_compatible(
        "mp4",
        vcodec.as_str(),
    ) && (is_lit(&acodec, "unknown") || is_audio_compatible("mp4", acodec.as_str()));
    let encoder: Option<String> = if copy {
        None
    } else {
        proof {
            reveal_strlit("h264");
            assert(software_candidates("h264"@).len() > 0);
        }
        match select_software_video_encoder("h264", listing) {
            Ok(e) => Some(e),
            Err(e) => {
                return Err(e);
            },
        }
    };
    let mut args: Vec<String> = if copy {
        vec![owned("-map"), owned("0")]
    } else {
        vec![
            owned("-ss"),
            times.start.clone(),
            owned("-i"),
            owned(input),
            owned("-map"),
            owned("0:v:0"),
            owned("-map"),
            owned("0:a?"),
        ]
    };
    let ghost p1 = views(args@);
    if let Some((d, _)) = &times.duration {
        push_all(&mut args, vec![owned("-t"), d.clone()]);
    } else if let Some((_, _, len)) = &times.end {
        push_all(&mut args, vec![owned("-t"), len.clone()]);
    }
    let ghost p2 = views(args@);
    assert(p2 =~= p1 + clip_length_args(*times));
    let ghost enc_view: Seq<char> = match &encoder {
        Some(e) => e@,
        None => Seq::empty(),
    };
    if copy {
        push_all(&mut args, vec![owned("-c"), owned("copy")]);
    } else {
        let e = match &encoder {
            Some(e) => e.as_str(),
            None => "libx264",
        };
        proof {
            lemma_h264_high_encodes(enc_view);
        }
        let video = match video_encode_args("h264", "high", Some(e)) {
            Ok(v) => v,
            Err(_) => {
                assert(false);
                Vec::new()
            },
        };
        push_all(&mut args, video);
        push_all(&mut args, aac_default());
    }
    let ghost p3 = views(args@);
    if copy {
        push_all(&mut args, subtitle_codec_args("mp4", streams));
    } else {
        push_all(&mut args, subtitle_ffmpeg_args("mp4", streams));
    }
    push_all(
        &mut args,
        vec![owned("-map_metadata"), owned("0"), owned("-map_chapters"), owned("0")],
    );
    proof {
        assert(views(args@) =~= clip_args_for(*times, input@, streams@, copy, enc_view));
    }
    let strategy = if copy {
        owned("stream_copy")
    } else {
        owned("precise_transcode")
    };
    let quality_loss = if copy {
        owned("none")
    } else {
        owned("video_and_audio")
    };
    let reason = if copy {
        owned(
            "Start is at zero and source streams are compatible with MP4; stream copy avoids re-encoding.",
        )
    } else {
        owned("Precise clipping re-encodes to honor the requested boundary.")
    };
    Ok(
        ClipPlan {
            strategy,
            stream_copy: copy,
            quality_loss,
            reason,
            encoder,
            subtitle_action: owned(subtitle_strategy("mp4", streams)),
            warnings: subtitle_warnings(streams, "mp4"),
            args,
        },
    )
}

/// H.264 at the `high` preset always has encoder arguments.
proof fn lemma_h264_high_encodes(e: Seq<char>)
    ensures
        "h264"@ != "copy"@,
        software_candidates(preferred("h264"@, "h264"@)).len() > 0,
{
    reveal_strlit("h264");
    reveal_strlit("copy");
    reveal_strlit("auto");
    assert("h264"@[0] != "copy"@[0]);
    assert("h264"@[0] != "auto"@[0]);
}

} // verus!
