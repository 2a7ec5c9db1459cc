//! Audio operations: converting an audio track to another format with optional bitrate,
//! rate, channel, volume and trim changes; extracting the audio of a video; and grabbing
//! one frame as a thumbnail.

use vstd::prelude::*;
use crate::args::{push_all};
use crate::codec::{audio_args_for, audio_container_args, audio_container_args_for, audio_encode_args, preferred, views};
use crate::convert::{DEFAULT_AUDIO_BITRATE, first_codec, first_codec_name};
use crate::edit::{VolumeChange};
use crate::model::{ErrorCode, MediaError, StreamInfo, copy_error, fails_with_message, same_error};
use crate::names::{audio_codec_for_format, audio_codec_of, audio_copy_compatible, audio_copy_ok, audio_extension_of, audio_output_extension, clean_name, is_audio_format, normalize_audio_format};
use crate::streams::{has_kind, has_stream};
use crate::text::{chars_of, concat, decimal, from_chars_range, owned, trim, trim_text, u64_text};

verus! {

// ---------------------------------------------------------------- bitrates

/// The number and unit of a bitrate text, trimmed: a trailing `k`/`K` is kilo, `M`/`m` is
/// mega, anything else has no unit.
pub open spec fn bitrate_split(t: Seq<char>) -> (Seq<char>, Seq<char>) {
    if t.len() > 0 && (t.last() == 'k' || t.last() == 'K') {
        (t.drop_last(), "k"@)
    } else if t.len() > 0 && (t.last() == 'M' || t.last() == 'm') {
        (t.drop_last(), "M"@)
    } else {
        (t, ""@)
    }
}

/// Splits a bitrate text into its number and its unit; an empty text is refused.
pub fn bitrate_parts(value: &str) -> (r: Result<(String, &'static str), MediaError>)
    ensures
        trim(value@).len() == 0 ==> fails_with_message(
            r,
            ErrorCode::InvalidArgument,
            "Audio bitrate cannot be empty."@,
        ),
        trim(value@).len() > 0 ==> (r matches Ok(p) && p.0@ == bitrate_split(trim(value@)).0
            && p.1@ == bitrate_split(trim(value@)).1),
{
    let t = trim_text(value);
    if t.as_str().is_empty() {
        return Err(MediaError::new(
            ErrorCode::InvalidArgument,
            owned("Audio bitrate cannot be empty."),
        ));
    }
    let v = chars_of(t.as_str());
    let n = v.len();
    let last = v[n - 1];
    if last == 'k' || last == 'K' {
        proof {
            reveal_strlit("k");
        }
        let number = from_chars_range(&v, 0, n - 1);
        assert(number@ =~= t@.drop_last());
        Ok((number, "k"))
    } else if last == 'M' || last == 'm' {
        let number = from_chars_range(&v, 0, n - 1);
        assert(number@ =~= t@.drop_last());
        Ok((number, "M"))
    } else {
        Ok((t, ""))
    }
}

/// Accepts a bitrate whose number part reads as a finite number above zero, written back
/// as the number followed by its unit.
pub fn validate_bitrate(value: &str, number: &str, unit: &str, number_positive: bool) -> (r:
    Result<String, MediaError>)
    ensures
        number_positive ==> (r matches Ok(s) && s@ == number@ + unit@),
        !number_positive ==> fails_with_message(
            r,
            ErrorCode::InvalidArgument,
            "Invalid audio bitrate: "@ + value@,
        ),
{
    if !number_positive {
        return Err(MediaError::new(
            ErrorCode::InvalidArgument,
            concat("Invalid audio bitrate: ", value),
        ));
    }
    concat_ok(number, unit)
}

fn concat_ok(a: &str, b: &str) -> (r: Result<String, MediaError>)
    ensures
        r matches Ok(s) && s@ == a@ + b@,
{
    Ok(concat(a, b))
}

// ---------------------------------------------------------------- audio conversion

/// What an audio conversion asks for. `bitrate` is the checked bitrate, if one was
/// requested; `volume` carries whether the level is in range and its six-decimal text.
#[derive(Debug)]
pub struct AudioRequest {
    pub input: String,
    pub format: String,
    pub bitrate: Option<Result<String, MediaError>>,
    pub sample_rate: Option<u32>,
    pub channels: Option<u8>,
    pub volume: Option<VolumeChange>,
    pub start: Option<String>,
    pub duration: Option<String>,
}

/// The checked parts of an audio conversion, known before its output is chosen.
#[derive(Debug)]
pub struct AudioCheck {
    pub format: String,
    pub extension: String,
    pub source_codec: String,
    pub bitrate: String,
}

/// Checks an audio conversion before its output is chosen.
pub fn audio_preflight(
    req: &AudioRequest,
    input_check: Result<(), MediaError>,
    streams: Result<Vec<StreamInfo>, MediaError>,
) -> (r: Result<AudioCheck, MediaError>)
    ensures
        ({
            let f = clean_name(req.format@);
            if input_check is Err {
                r matches Err(e) && same_error(e, input_check->Err_0)
            } else if !is_audio_format(f) {
                fails_with_message(
                    r,
                    ErrorCode::UnsupportedFormat,
                    "Unsupported audio format: "@ + f,
                )
            } else if streams is Err {
                r matches Err(e) && same_error(e, streams->Err_0)
            } else if !has_kind(streams->Ok_0@, "audio"@) {
                fails_with_message(r, ErrorCode::InvalidMedia, "No audio stream was found."@)
            } else if req.sample_rate == Some(0u32) {
                fails_with_message(
                    r,
                    ErrorCode::InvalidArgument,
                    "Sample rate must be greater than zero."@,
                )
            } else if req.channels == Some(0u8) {
                fails_with_message(
                    r,
                    ErrorCode::InvalidArgument,
                    "Channels must be greater than zero."@,
                )
            } else if req.volume matches Some(v) && !v.in_range {
                fails_with_message(
                    r,
                    ErrorCode::InvalidArgument,
                    "Volume must be between 0 and 10."@,
                )
            } else if req.bitrate matches Some(Err(_)) {
                r matches Err(e) && same_error(e, req.bitrate->Some_0->Err_0)
            } else {
                r matches Ok(c) && c.format@ == f && c.extension@ == audio_extension_of(f)
                    && c.source_codec@ == first_codec(streams->Ok_0@, "audio"@) && c.bitrate@ == (
                match req.bitrate {
                    Some(Ok(b)) => b@,
                    _ => "256k"@,
                })
            }
        }),
{
    if let Err(e) = input_check {
        return Err(e);
    }
    let format = normalize_audio_format(req.format.as_str())?;
    let streams = match streams {
        Ok(s) => s,
        Err(e) => {
            return Err(e);
        },
    };
    if !has_stream(&streams, "audio") {
        return Err(MediaError::new(ErrorCode::InvalidMedia, owned("No audio stream was found.")));
    }
    let source_codec = first_codec_name(&streams, "audio");
    if req.sample_rate == Some(0u32) {
        return Err(MediaError::new(
            ErrorCode::InvalidArgument,
            owned("Sample rate must be greater than zero."),
        ));
    }
    if req.channels == Some(0u8) {
        return Err(MediaError::new(
            ErrorCode::InvalidArgument,
            owned("Channels must be greater than zero."),
        ));
    }
    if let Some(v) = &req.volume {
        if !v.in_range {
            return Err(MediaError::new(
                ErrorCode::InvalidArgument,
                owned("Volume must be between 0 and 10."),
            ));
        }
    }
    let bitrate = match &req.bitrate {
        Some(Ok(b)) => b.clone(),
        Some(Err(e)) => {
            return Err(copy_error(e));
        },
        None => {
            proof {
                reveal_strlit("256k");
            }
            owned(DEFAULT_AUDIO_BITRATE)
        },
    };
    let extension = audio_output_extension(format.as_str());
    Ok(AudioCheck { format, extension, source_codec, bitrate })
}

/// The plan of an audio conversion.
#[derive(Debug)]
pub struct AudioPlan {
    pub copy: bool,
    pub target_codec: String,
    pub strategy: String,
    pub quality_loss: String,
    pub args: Vec<String>,
}

/// An audio conversion copies the track when nothing about it is to change and the
/// format holds the source codec.
pub open spec fn audio_copies(req: AudioRequest, source_codec: Seq<char>, format: Seq<char>) -> bool {
    &&& req.bitrate is None
    &&& req.sample_rate is None
    &&& req.channels is None
    &&& req.volume is None
    &&& req.start is None
    &&& req.duration is None
    &&& audio_copy_ok(source_codec, format)
}

/// The FFmpeg arguments of a checked audio conversion, given its stream arguments.
pub open spec fn audio_args_with(req: AudioRequest, format: Seq<char>, stream_args: Seq<Seq<char>>) -> Seq<
    Seq<char>,
> {
    seq!["-i"@, req.input@, "-map"@, "0:a:0"@, "-vn"@] + (match req.start {
        Some(s) => seq!["-ss"@, s@],
        None => Seq::empty(),
    }) + (match req.duration {
        Some(d) => seq!["-t"@, d@],
        None => Seq::empty(),
    }) + stream_args + audio_tail_for(req, format)
}

/// The arguments after the stream arguments of an audio conversion.
pub open spec fn audio_tail_for(req: AudioRequest, format: Seq<char>) -> Seq<Seq<char>> {
    (match req.sample_rate {
        Some(rate) => seq!["-ar"@, decimal(rate as nat)],
        None => Seq::empty(),
    }) + (match req.channels {
        Some(c) => seq!["-ac"@, decimal(c as nat)],
        None => Seq::empty(),
    }) + (match req.volume {
        Some(v) => seq!["-af"@, "volume="@ + v.level_text@],
        None => Seq::empty(),
    }) + audio_container_args_for(format) + seq!["-map_metadata"@, "0"@]
}

fn audio_tail_args(req: &AudioRequest, format: &str) -> (r: Vec<String>)
    ensures
        views(r@) == audio_tail_for(*req, format@),
{
    let mut args: Vec<String> = Vec::new();
    if let Some(rate) = req.sample_rate {
        push_all(&mut args, vec![owned("-ar"), u64_text(rate as u64)]);
    }
    if let Some(c) = req.channels {
        push_all(&mut args, vec![owned("-ac"), u64_text(c as u64)]);
    }
    if let Some(v) = &req.volume {
        push_all(&mut args, vec![owned("-af"), concat("volume=", v.level_text.as_str())]);
    }
    push_all(&mut args, audio_container_args(format));
    push_all(&mut args, vec![owned("-map_metadata"), owned("0")]);
    assert(views(args@) =~= audio_tail_for(*req, format@));
    args
}

fn audio_stream_args(copy: bool, target: &str, bitrate: &str) -> (r: Result<Vec<String>, MediaError>)
    requires
        target@ != "copy"@,
    ensures
        copy ==> (r matches Ok(v) && views(v@) == seq!["-c:a"@, "copy"@]),
        !copy ==> match audio_args_for(target@, bitrate@) {
            None => fails_with_message(
                r,
                ErrorCode::UnsupportedCodec,
                "Unsupported audio codec: "@ + preferred(target@, "aac"@),
            ),
            Some(a) => r matches Ok(v) && views(v@) == a,
        },
{
    if copy {
        let v = vec![owned("-c:a"), owned("copy")];
        assert(views(v@) =~= seq!["-c:a"@, "copy"@]);
        Ok(v)
    } else {
        audio_encode_args(target, bitrate)
    }
}

/// Plans a checked audio conversion. `start_check` is the outcome of reading the start
/// time, and `duration_positive` that of reading the duration, with whether it is above
/// zero.
pub fn audio_command(
    req: &AudioRequest,
    check: &AudioCheck,
    start_check: Result<(), MediaError>,
    duration_positive: Result<bool, MediaError>,
) -> (r: Result<AudioPlan, MediaError>)
    ensures
        ({
            let copy = audio_copies(*req, check.source_codec@, check.format@);
            let target = audio_codec_of(check.format@);
            if req.start is Some && start_check is Err {
                r matches Err(e) && same_error(e, start_check->Err_0)
            } else if req.duration is Some && duration_positive is Err {
                r matches Err(e) && same_error(e, duration_positive->Err_0)
            } else if req.duration is Some && duration_positive == Ok::<bool, MediaError>(false) {
                fails_with_message(
                    r,
                    ErrorCode::InvalidArgument,
                    "Audio duration must be greater than zero."@,
                )
            } else if copy {
                r matches Ok(p) && p.copy && p.strategy@ == "copy"@ && p.quality_loss@ == "none"@
                    && p.target_codec@ == target && views(p.args@) == audio_args_with(
                    *req,
                    check.format@,
                    seq!["-c:a"@, "copy"@],
                )
            } else {
                match audio_args_for(target, check.bitrate@) {
                    None => fails_with_message(
                        r,
                        ErrorCode::UnsupportedCodec,
                        "Unsupported audio codec: "@ + preferred(target, "aac"@),
                    ),
                    Some(a) => r matches Ok(p) && !p.copy && p.strategy@ == "transcode"@
                        && p.quality_loss@ == "audio_only"@ && p.target_codec@ == target && views(
                        p.args@,
                    ) == audio_args_with(*req, check.format@, a),
                }
            }
        }),
{
    let target = audio_codec_for_format(check.format.as_str());
    proof {
        lemma_audio_codec_not_copy_here(check.format@);
    }
    let copy = req.bitrate.is_none() && req.sample_rate.is_none() && req.channels.is_none()
        && req.volume.is_none() && req.start.is_none() && req.duration.is_none()
        && audio_copy_compatible(check.source_codec.as_str(), check.format.as_str());
    let mut args = vec![owned("-i"), req.input.clone(), owned("-map"), owned("0:a:0"), owned("-vn")];
    let ghost p0 = views(args@);
    if let Some(s) = &req.start {
        if let Err(e) = start_check {
            return Err(e);
        }
        push_all(&mut args, vec![owned("-ss"), s.clone()]);
    }
    if let Some(d) = &req.duration {
        match duration_positive {
            Err(e) => {
                return Err(e);
            },
            Ok(positive) => {
                if !positive {
                    return Err(MediaError::new(
                        ErrorCode::InvalidArgument,
                        owned("Audio duration must be greater than zero."),
                    ));
                }
            },
        }
        push_all(&mut args, vec![owned("-t"), d.clone()]);
    }
    let ghost p1 = views(args@);
    let stream_args = match audio_stream_args(copy, target, check.bitrate.as_str()) {
        Ok(a) => a,
        Err(e) => {
            return Err(e);
        },
    };
    let ghost sa = views(stream_args@);
    push_all(&mut args, stream_args);
    let ghost p2 = views(args@);
    push_all(&mut args, audio_tail_args(req, check.format.as_str()));
    proof {
        assert(p1 =~= seq!["-i"@, req.input@, "-map"@, "0:a:0"@, "-vn"@] + (match req.start {
            Some(s) => seq!["-ss"@, s@],
            None => Seq::empty(),
        }) + (match req.duration {
            Some(d) => seq!["-t"@, d@],
            None => Seq::empty(),
        }));
        assert(views(args@) =~= audio_args_with(*req, check.format@, sa));
    }
    Ok(
        AudioPlan {
            copy,
            target_codec: owned(target),
            strategy: if copy {
                owned("copy")
            } else {
                owned("transcode")
            },
            quality_loss: if copy {
                owned("none")
            } else {
                owned("audio_only")
            },
            args,
        },
    )
}

proof fn lemma_audio_codec_not_copy_here(format: Seq<char>)
    ensures
        audio_codec_of(format) != "copy"@,
{
    reveal_strlit("copy");
    reveal_strlit("aac");
    reveal_strlit("mp3");
    reveal_strlit("flac");
    reveal_strlit("wav");
    reveal_strlit("opus");
    reveal_strlit("vorbis");
    reveal_strlit("wmav2");
    reveal_strlit("aiff");
    reveal_strlit("alac");
    reveal_strlit("amr_nb");
    reveal_strlit("ac3");
    reveal_strlit("mp2");
    assert("flac"@[0] != "copy"@[0] && "opus"@[0] != "copy"@[0]);
    assert("aiff"@[0] != "copy"@[0] && "alac"@[0] != "copy"@[0]);
}

// ---------------------------------------------------------------- audio extraction

/// The format and file extension of an audio extraction.
pub fn extract_audio_target(format: &str, input_check: Result<(), MediaError>) -> (r: Result<
    (String, String),
    MediaError,
>)
    ensures
        input_check is Err ==> (r matches Err(e) && same_error(e, input_check->Err_0)),
        input_check is Ok && is_audio_format(clean_name(format@)) ==> (r matches Ok(p) && p.0@
            == clean_name(format@) && p.1@ == audio_extension_of(clean_name(format@))),
        input_check is Ok && !is_audio_format(clean_name(format@)) ==> fails_with_message(
            r,
            ErrorCode::UnsupportedFormat,
            "Unsupported audio format: "@ + clean_name(format@),
        ),
{
    if let Err(e) = input_check {
        return Err(e);
    }
    let f = normalize_audio_format(format)?;
    let ext = audio_output_extension(f.as_str());
    Ok((f, ext))
}

/// The plan of an audio extraction.
#[derive(Debug)]
pub struct ExtractPlan {
    pub copy: bool,
    pub source_codec: String,
    pub target_codec: String,
    pub args: Vec<String>,
}

/// Plans the extraction of the first audio track of a probed file into `format` (a
/// checked audio format): copied when the format holds its codec, else transcoded.
pub fn extract_audio_command(format: &str, streams: Result<Vec<StreamInfo>, MediaError>) -> (r:
    Result<ExtractPlan, MediaError>)
    ensures
        match streams {
            Err(e) => r matches Err(x) && same_error(x, e),
            Ok(s) => if !has_kind(s@, "audio"@) {
                fails_with_message(r, ErrorCode::InvalidMedia, "No audio stream was found."@)
            } else {
                let src = first_codec(s@, "audio"@);
                let target = audio_codec_of(format@);
                if audio_copy_ok(src, format@) {
                    r matches Ok(p) && p.copy && p.source_codec@ == src && p.target_codec@ == target
                        && views(p.args@) == seq!["-map"@, "0:a:0"@, "-vn"@, "-c:a"@, "copy"@]
                        + audio_container_args_for(format@) + seq!["-map_metadata"@, "0"@]
                } else {
                    match audio_args_for(target, "256k"@) {
                        None => fails_with_message(
                        r,
                        ErrorCode::UnsupportedCodec,
                        "Unsupported audio codec: "@ + preferred(target, "aac"@),
                    ),
                        Some(a) => r matches Ok(p) && !p.copy && p.source_codec@ == src
                            && p.target_codec@ == target && views(p.args@) == seq![
                            "-map"@,
                            "0:a:0"@,
                            "-vn"@,
                        ] + a + audio_container_args_for(format@) + seq!["-map_metadata"@, "0"@],
                    }
                }
            },
        },
{
    let streams = match streams {
        Ok(s) => s,
        Err(e) => {
            return Err(e);
        },
    };
    if !has_stream(&streams, "audio") {
        return Err(MediaError::new(ErrorCode::InvalidMedia, owned("No audio stream was found.")));
    }
    let source = first_codec_name(&streams, "audio");
    let target = audio_codec_for_format(format);
    let copy = audio_copy_compatible(source.as_str(), format);
    let mut args = vec![owned("-map"), owned("0:a:0"), owned("-vn")];
    proof {
        lemma_audio_codec_not_copy_here(format@);
        reveal_strlit("256k");
    }
    if copy {
        push_all(&mut args, vec![owned("-c:a"), owned("copy")]);
    } else {
        let a = match audio_encode_args(target, DEFAULT_AUDIO_BITRATE) {
            Ok(a) => a,
            Err(e) => {
                return Err(e);
            },
        };
        push_all(&mut args, a);
    }
    push_all(&mut args, audio_container_args(format));
    push_all(&mut args, vec![owned("-map_metadata"), owned("0")]);
    Ok(ExtractPlan { copy, source_codec: source, target_codec: owned(target), args })
}

// ---------------------------------------------------------------- thumbnails

/// The FFmpeg arguments that grab one frame of `input` at the checked time `at` as a
/// high-quality JPEG.
pub fn thumbnail_command(at: Result<String, MediaError>, input: &str) -> (r: Result<
    Vec<String>,
    MediaError,
>)
    ensures
        match at {
            Err(e) => r matches Err(x) && same_error(x, e),
            Ok(t) => r matches Ok(v) && views(v@) == seq![
                "-ss"@,
                t@,
                "-i"@,
                input@,
                "-frames:v"@,
                "1"@,
                "-q:v"@,
                "2"@,
            ],
        },
{
    let t = match at {
        Ok(t) => t,
        Err(e) => {
            return Err(e);
        },
    };
    let v = vec![
        owned("-ss"),
        t,
        owned("-i"),
        owned(input),
        owned("-frames:v"),
        owned("1"),
        owned("-q:v"),
        owned("2"),
    ];
    Ok(v)
}

} // verus!
