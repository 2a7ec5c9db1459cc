//! Resizing a video to a width or a frame height, keeping the aspect ratio and even
//! dimensions.

use vstd::prelude::*;
use crate::args::{push_all, push_arg};
use crate::codec::{first_listed, software_candidates, video_args_for, video_encode_args, views};
use crate::hardware::{Listing, no_software_suggestions, select_software_video_encoder, software_details};
use crate::model::{ErrorCode, MediaError, StreamInfo, fails_with_message, refused, same_error};
use crate::streams::{count_kind, subtitle_codec_for, subtitle_ffmpeg_args, subtitle_strategy, subtitle_strategy_for, subtitle_warnings, subtitle_warnings_for};
use crate::text::{concat, decimal, lowercase, owned, parse_u32_spec, parse_u32_text, str_eq, strip_suffix, strip_suffix_text, to_lower, u64_text};

verus! {

/// The height of a resolution such as `720p` (a trailing `p` is optional), if it reads
/// as a number.
pub open spec fn resolution_number(value: Seq<char>) -> Seq<char> {
    let v = lowercase(value);
    match strip_suffix(v, "p"@) {
        Some(s) => s,
        None => v,
    }
}

/// Reads a resolution such as `1080p` as a frame height.
pub fn parse_resolution(value: &str) -> (r: Result<u32, MediaError>)
    ensures
        ({
            let n = resolution_number(value@);
            match parse_u32_spec(n) {
                None => fails_with_message(
                    r,
                    ErrorCode::InvalidArgument,
                    "Invalid resolution: "@ + n,
                ),
                Some(h) => if h == 0 {
                    fails_with_message(
                        r,
                        ErrorCode::InvalidArgument,
                        "Resolution must be greater than zero."@,
                    )
                } else {
                    r == Ok::<u32, MediaError>(h)
                },
            }
        }),
{
    let v = to_lower(value);
    let n = match strip_suffix_text(v.as_str(), "p") {
        Some(s) => s,
        None => v,
    };
    match parse_u32_text(n.as_str()) {
        None => Err(MediaError::new(
            ErrorCode::InvalidArgument,
            concat("Invalid resolution: ", n.as_str()),
        )),
        Some(h) => {
            if h == 0 {
                Err(MediaError::new(
                    ErrorCode::InvalidArgument,
                    owned("Resolution must be greater than zero."),
                ))
            } else {
                Ok(h)
            }
        },
    }
}

/// Rounds a dimension up to the next even number, as video encoders need; the largest
/// odd `u32` cannot be rounded.
pub fn even_dimension(value: u32) -> (r: Result<u32, MediaError>)
    ensures
        value % 2 == 0 ==> r == Ok::<u32, MediaError>(value),
        value % 2 == 1 && value < u32::MAX ==> r == Ok::<u32, MediaError>((value + 1) as u32),
        value == u32::MAX ==> fails_with_message(
            r,
            ErrorCode::InvalidArgument,
            "Resize dimension is too large to round to an even value."@,
        ),
{
    if value % 2 == 0 {
        return Ok(value);
    }
    if value == u32::MAX {
        return Err(MediaError::new(
            ErrorCode::InvalidArgument,
            owned("Resize dimension is too large to round to an even value."),
        ));
    }
    Ok(value + 1)
}

/// What `even_dimension` gives is even, at least the request, and at most one more.
pub proof fn lemma_even_dimension(value: u32, d: u32)
    requires
        (value % 2 == 0 && d == value) || (value % 2 == 1 && value < u32::MAX && d == value + 1),
    ensures
        d % 2 == 0,
        value <= d <= value + 1,
        value % 2 == 0 ==> d == value,
{
}

/// The dimension a resize aims at.
#[derive(Debug)]
pub struct ResizeTarget {
    pub axis: &'static str,
    pub requested: u32,
    pub effective: u32,
}

/// Checks the input and the requested size of a resize: exactly one of a width and a
/// resolution, above zero, rounded to an even number.
pub fn resize_target(
    input_check: Result<(), MediaError>,
    width: Option<u32>,
    resolution: Option<&str>,
) -> (r: Result<ResizeTarget, MediaError>)
    ensures
        if input_check is Err {
            r matches Err(e) && same_error(e, input_check->Err_0)
        } else if width is None && resolution is None {
            fails_with_message(r, ErrorCode::InvalidArgument, "Provide --width or --resolution."@)
        } else if width is Some && resolution is Some {
            fails_with_message(
                r,
                ErrorCode::InvalidArgument,
                "Use only one of --width or --resolution."@,
            )
        } else if width == Some(0u32) {
            fails_with_message(
                r,
                ErrorCode::InvalidArgument,
                "Resize width must be greater than zero."@,
            )
        } else {
            match width {
                Some(w) => if w == u32::MAX {
                    fails_with_message(
                        r,
                        ErrorCode::InvalidArgument,
                        "Resize dimension is too large to round to an even value."@,
                    )
                } else {
                    r matches Ok(t) && t.axis@ == "width"@ && t.requested == w && t.effective == (
                    if w % 2 == 0 {
                        w
                    } else {
                        (w + 1) as u32
                    })
                },
                None => match parse_u32_spec(resolution_number(resolution->Some_0@)) {
                    None => fails_with_message(
                        r,
                        ErrorCode::InvalidArgument,
                        "Invalid resolution: "@ + resolution_number(resolution->Some_0@),
                    ),
                    Some(h) => if h == 0 {
                        fails_with_message(
                            r,
                            ErrorCode::InvalidArgument,
                            "Resolution must be greater than zero."@,
                        )
                    } else if h == u32::MAX {
                        fails_with_message(
                            r,
                            ErrorCode::InvalidArgument,
                            "Resize dimension is too large to round to an even value."@,
                        )
                    } else {
                        r matches Ok(t) && t.axis@ == "height"@ && t.requested == h && t.effective
                            == (if h % 2 == 0 {
                            h
                        } else {
                            (h + 1) as u32
                        })
                    },
                },
            }
        },
{
    if let Err(e) = input_check {
        return Err(e);
    }
    if width.is_none() && resolution.is_none() {
        return Err(MediaError::new(
            ErrorCode::InvalidArgument,
            owned("Provide --width or --resolution."),
        ));
    }
    if width.is_some() && resolution.is_some() {
        return Err(MediaError::new(
            ErrorCode::InvalidArgument,
            owned("Use only one of --width or --resolution."),
        ));
    }
    if width == Some(0u32) {
        return Err(MediaError::new(
            ErrorCode::InvalidArgument,
            owned("Resize width must be greater than zero."),
        ));
    }
    let (axis, requested): (&'static str, u32) = match width {
        Some(w) => ("width", w),
        None => {
            let h = match resolution {
                Some(res) => match parse_resolution(res) {
                    Ok(h) => h,
                    Err(e) => {
                        return Err(e);
                    },
                },
                None => {
                    return Err(MediaError::new(
                        ErrorCode::InvalidArgument,
                        owned("Provide --width or --resolution."),
                    ));
                },
            };
            ("height", h)
        },
    };
    let effective = match even_dimension(requested) {
        Ok(d) => d,
        Err(e) => {
            return Err(e);
        },
    };
    Ok(ResizeTarget { axis, requested, effective })
}

/// The scale filter of a resize: the other side follows the aspect ratio, kept even.
pub open spec fn resize_filter_for(axis: Seq<char>, effective: u32) -> Seq<char> {
    if axis == "width"@ {
        "scale="@ + decimal(effective as nat) + ":-2"@
    } else {
        "scale=-2:"@ + decimal(effective as nat)
    }
}

/// The FFmpeg arguments of a resize with `encoder`.
pub open spec fn resize_args_for(filter: Seq<char>, encoder: Seq<char>, s: Seq<StreamInfo>) -> Seq<
    Seq<char>,
> {
    seq!["-map"@, "0:v:0"@, "-map"@, "0:a?"@, "-vf"@, filter] + video_args_for(
        "h264"@,
        "high"@,
        Some(encoder),
    ) + seq!["-c:a"@, "copy"@] + (if count_kind(s, "subtitle"@) == 0 {
        Seq::empty()
    } else {
        seq!["-map"@, "0:s?"@, "-c:s"@, subtitle_codec_for("mp4"@)]
    }) + seq!["-map_metadata"@, "0"@, "-map_chapters"@, "0"@]
}

/// A resize hands FFmpeg its scale filter right after the stream maps, whatever the
/// encoder and streams: `-vf` and `scale=W:-2` for a width, `scale=-2:H` for a height, so
/// the named side becomes the effective dimension and the other follows the aspect ratio.
pub proof fn lemma_resize_applies_scale(axis: Seq<char>, effective: u32, encoder: Seq<char>, s: Seq<StreamInfo>)
    ensures
        ({
            let filter = resize_filter_for(axis, effective);
            let args = resize_args_for(filter, encoder, s);
            &&& args.len() > 5
            &&& args[0] == "-map"@ && args[1] == "0:v:0"@ && args[2] == "-map"@ && args[3] == "0:a?"@
            &&& args[4] == "-vf"@
            &&& args[5] == filter
            &&& filter == if axis == "width"@ {
                "scale="@ + decimal(effective as nat) + ":-2"@
            } else {
                "scale=-2:"@ + decimal(effective as nat)
            }
        }),
{
}

/// The plan of a resize.
#[derive(Debug)]
pub struct ResizePlan {
    pub filter: String,
    pub encoder: String,
    pub subtitle_action: String,
    pub warnings: Vec<String>,
    pub args: Vec<String>,
}

/// Plans a checked resize of a probed file with `streams`, with the software H.264
/// encoder that `listing` names.
pub fn resize_command(target: &ResizeTarget, streams: &Vec<StreamInfo>, listing: &Listing) -> (r:
    Result<ResizePlan, MediaError>)
    ensures
        match listing {
            Err(e) => r matches Err(x) && same_error(x, *e),
            Ok(text) => match first_listed(software_candidates("h264"@), text@) {
                None => refused(
                    r,
                    ErrorCode::EncoderUnavailable,
                    "No software encoder is available for video codec "@ + "h264"@ + "."@,
                    no_software_suggestions(),
                ) && software_details(r, "h264"@),
                Some(enc) => {
                    let filter = resize_filter_for(target.axis@, target.effective);
                    let base = subtitle_warnings_for(streams@, "mp4"@);
                    r matches Ok(p) && p.encoder@ == enc && p.filter@ == filter && views(p.args@)
                        == resize_args_for(filter, enc, streams@) && p.subtitle_action@
                        == subtitle_strategy_for("mp4"@, streams@) && views(p.warnings@) == (
                    if target.requested == target.effective {
                        base
                    } else {
                        base.push(
                            "Requested "@ + target.axis@ + " "@ + decimal(target.requested as nat)
                                + " was rounded to "@ + decimal(target.effective as nat)
                                + " for an even encoder-compatible dimension."@,
                        )
                    })
                },
            },
        },
{
    proof {
        reveal_strlit("h264");
        reveal_strlit("copy");
        reveal_strlit("auto");
        assert("h264"@[0] != "copy"@[0]);
        assert("h264"@[0] != "auto"@[0]);
        assert(software_candidates("h264"@).len() > 0);
    }
    let encoder = match select_software_video_encoder("h264", listing) {
        Ok(e) => e,
        Err(e) => {
            return Err(e);
        },
    };
    let mut filter = owned("scale=");
    if str_eq(target.axis, "width") {
        filter.append(u64_text(target.effective as u64).as_str());
        filter.append(":-2");
    } else {
        filter = owned("scale=-2:");
        filter.append(u64_text(target.effective as u64).as_str());
    }
    let mut warnings = subtitle_warnings(streams, "mp4");
    if target.requested != target.effective {
        let mut w = owned("Requested ");
        w.append(target.axis);
        w.append(" ");
        w.append(u64_text(target.requested as u64).as_str());
        w.append(" was rounded to ");
        w.append(u64_text(target.effective as u64).as_str());
        w.append(" for an even encoder-compatible dimension.");
        push_arg(&mut warnings, w);
    }
    let mut args = vec![
        owned("-map"),
        owned("0:v:0"),
        owned("-map"),
        owned("0:a?"),
        owned("-vf"),
        owned(filter.as_str()),
    ];
    let video = match video_encode_args("h264", "high", Some(encoder.as_str())) {
        Ok(v) => v,
        Err(_) => {
            assert(false);
            Vec::new()
        },
    };
    push_all(&mut args, video);
    push_all(&mut args, vec![owned("-c:a"), owned("copy")]);
    push_all(&mut args, subtitle_ffmpeg_args("mp4", streams));
    push_all(
        &mut args,
        vec![owned("-map_metadata"), owned("0"), owned("-map_chapters"), owned("0")],
    );
    assert(views(args@) =~= resize_args_for(filter@, encoder@, streams@));
    Ok(
        ResizePlan {
            filter,
            encoder,
            subtitle_action: owned(subtitle_strategy("mp4", streams)),
            warnings,
            args,
        },
    )
}

} // verus!
