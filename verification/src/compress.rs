//! Compression to H.264 MP4: by quality preset, or towards a target file size with a
//! bitrate budget and, on a software encoder, two passes.

use vstd::prelude::*;
use crate::args::{push_all};
use crate::codec::{first_listed, hardware_bitrate, hardware_candidates, hardware_encoder_name, hardware_quality_bitrate, preferred, remove_option, software_candidates, video_args_for, video_encode_args, views, without_option};
use crate::encode::{aac_default, aac_default_args};
use crate::hardware::{HardwareSelection, Listing, encoder_refused, reports_selection, select_software_video_encoder, select_video_hardware};
use crate::model::{ErrorCode, HardwareMode, MediaError, Quality, StreamInfo, fails_with_message, same_error};
use crate::names::{quality_name, quality_text};
use crate::streams::{count_kind, first_index, first_stream, has_kind, lemma_first_index, subtitle_codec_for, subtitle_ffmpeg_args, subtitle_strategy, subtitle_strategy_for, subtitle_warnings, subtitle_warnings_for};
use crate::text::{decimal, ends_with, owned, u64_text};

verus! {

/// The name a quality preset is reported under in compression notes.
pub open spec fn quality_label(q: Quality) -> Seq<char> {
    match q {
        Quality::Lossless => "Lossless"@,
        Quality::VeryHigh => "VeryHigh"@,
        Quality::High => "High"@,
        Quality::Balanced => "Balanced"@,
        Quality::Small => "Small"@,
        Quality::Tiny => "Tiny"@,
    }
}

fn quality_label_text(q: Quality) -> (r: &'static str)
    ensures
        r@ == quality_label(q),
{
    match q {
        Quality::Lossless => "Lossless",
        Quality::VeryHigh => "VeryHigh",
        Quality::High => "High",
        Quality::Balanced => "Balanced",
        Quality::Small => "Small",
        Quality::Tiny => "Tiny",
    }
}

/// `s` with every `option value` pair removed, on character views (see `without_option`).
pub open spec fn without_option_views(s: Seq<Seq<char>>, option: Seq<char>) -> Seq<Seq<char>>
    decreases s.len(),
{
    if s.len() < 2 {
        s
    } else if s[0] == option {
        without_option_views(s.skip(2), option)
    } else {
        seq![s[0]].add(without_option_views(s.drop_first(), option))
    }
}

proof fn lemma_without_option_views(s: Seq<String>, option: Seq<char>)
    ensures
        views(without_option(s, option)) == without_option_views(views(s), option),
    decreases s.len(),
{
    if s.len() < 2 {
    } else if s[0]@ == option {
        assert(views(s.skip(2)) =~= views(s).skip(2));
        lemma_without_option_views(s.skip(2), option);
    } else {
        assert(views(s.drop_first()) =~= views(s).drop_first());
        lemma_without_option_views(s.drop_first(), option);
        assert(views(seq![s[0]].add(without_option(s.drop_first(), option))) =~= seq![s[0]@].add(
            views(without_option(s.drop_first(), option)),
        ));
    }
}

/// The H.264 encoder that a compression uses, with whether it is a hardware encoder: on
/// `gpu` the first listed hardware encoder, otherwise the first listed software one.
pub open spec fn h264_encoder_choice(requested: HardwareMode, listing: Listing) -> Option<
    (bool, Seq<char>),
> {
    match listing {
        Err(_) => None,
        Ok(text) => if requested == HardwareMode::Gpu {
            match first_listed(hardware_candidates("h264"@), text@) {
                Some(e) => Some((true, e)),
                None => None,
            }
        } else {
            match first_listed(software_candidates("h264"@), text@) {
                Some(e) => Some((false, e)),
                None => None,
            }
        },
    }
}

/// Twice a bitrate, saturating at the largest `u64`.
pub open spec fn saturating_double(v: u64) -> nat {
    if v * 2 > u64::MAX {
        u64::MAX as nat
    } else {
        (v * 2) as nat
    }
}

/// The FFmpeg arguments of a compression with `encoder` (a hardware one when `hardware`),
/// and a target video bitrate when a target size was given.
pub open spec fn compress_args_for(
    q: Quality,
    encoder: Seq<char>,
    hardware: bool,
    target_bitrate: Option<u64>,
    s: Seq<StreamInfo>,
) -> Seq<Seq<char>> {
    let base = seq!["-map"@, "0:v:0"@, "-map"@, "0:a?"@] + video_args_for(
        "h264"@,
        quality_text(q),
        Some(encoder),
    );
    let rate = match target_bitrate {
        Some(vb) => {
            let with = base + seq![
                "-b:v"@,
                decimal(vb as nat),
                "-maxrate"@,
                decimal(vb as nat),
                "-bufsize"@,
                decimal(saturating_double(vb)),
            ];
            if hardware {
                with
            } else {
                without_option_views(with, "-crf"@)
            }
        },
        None => if hardware {
            base + seq!["-b:v"@, hardware_bitrate(q)]
        } else {
            base
        },
    };
    rate + aac_default_args() + (if count_kind(s, "subtitle"@) == 0 {
        Seq::empty()
    } else {
        seq!["-map"@, "0:s?"@, "-c:s"@, subtitle_codec_for("mp4"@)]
    }) + seq!["-map_metadata"@, "0"@, "-map_chapters"@, "0"@]
}

/// A software H.264 compression without a target size sets the constant rate factor of
/// its quality preset right after the encoder and its preset: 0 for lossless, 18 for
/// very-high, 20 for high, 23 for balanced, 28 for small and 32 for tiny.
pub proof fn lemma_compress_crf_follows_quality(quality: Quality, s: Seq<StreamInfo>)
    ensures
        ({
            let args = compress_args_for(quality, "libx264"@, false, None, s);
            &&& args.len() > 9
            &&& args[4] == "-c:v"@ && args[5] == "libx264"@
            &&& args[6] == "-preset"@ && args[7] == "medium"@
            &&& args[8] == "-crf"@
            &&& args[9] == match quality {
                Quality::Lossless => "0"@,
                Quality::VeryHigh => "18"@,
                Quality::High => "20"@,
                Quality::Balanced => "23"@,
                Quality::Small => "28"@,
                Quality::Tiny => "32"@,
            }
        }),
{
    reveal_strlit("libx264");
    reveal_strlit("_videotoolbox");
    reveal_strlit("_nvenc");
    reveal_strlit("_qsv");
    reveal_strlit("_amf");
    reveal_strlit("h264");
    reveal_strlit("auto");
    reveal_strlit("copy");
    reveal_strlit("lossless");
    reveal_strlit("very-high");
    reveal_strlit("high");
    reveal_strlit("balanced");
    reveal_strlit("small");
    reveal_strlit("tiny");
    let e = "libx264"@;
    assert(!ends_with(e, "_videotoolbox"@));
    assert(e.subrange(e.len() - 6, e.len() as int) != "_nvenc"@) by {
        assert(e.subrange(e.len() - 6, e.len() as int)[0] == 'i');
    }
    assert(e.subrange(e.len() - 4, e.len() as int) != "_qsv"@) by {
        assert(e.subrange(e.len() - 4, e.len() as int)[0] == 'x');
    }
    assert(e.subrange(e.len() - 4, e.len() as int) != "_amf"@) by {
        assert(e.subrange(e.len() - 4, e.len() as int)[0] == 'x');
    }
    assert(!hardware_encoder_name(e));
    assert("h264"@ != "auto"@ && "h264"@ != "copy"@) by {
        assert("h264"@[0] != "auto"@[0] && "h264"@[0] != "copy"@[0]);
    }
    assert("lossless"@[0] != "very-high"@[0] && "lossless"@[0] != "high"@[0]);
    assert("lossless"@[0] != "balanced"@[0] && "lossless"@[0] != "small"@[0]);
    assert("lossless"@[0] != "tiny"@[0] && "very-high"@[0] != "high"@[0]);
    assert("very-high"@[0] != "balanced"@[0] && "very-high"@[0] != "small"@[0]);
    assert("very-high"@[0] != "tiny"@[0] && "high"@[0] != "balanced"@[0]);
    assert("high"@[0] != "small"@[0] && "high"@[0] != "tiny"@[0]);
    assert("balanced"@[0] != "small"@[0] && "balanced"@[0] != "tiny"@[0]);
    assert("small"@[0] != "tiny"@[0]);
}

/// The codec name of the first video stream as probed, or `unknown`.
pub open spec fn probed_video_codec(s: Seq<StreamInfo>) -> Seq<char> {
    match first_index(s, "video"@) {
        Some(i) => match s[i].codec_name {
            Some(c) => c@,
            None => "unknown"@,
        },
        None => "unknown"@,
    }
}

/// A target file size: its parsed byte count, and the video bitrate that fits it, when
/// the duration is known.
#[derive(Debug)]
pub struct TargetSize {
    pub bytes: Result<u64, MediaError>,
    pub video_bitrate: Option<u64>,
}

/// The plan of a compression.
#[derive(Debug)]
pub struct CompressPlan {
    pub hardware: HardwareSelection,
    pub encoder: String,
    pub hardware_encoder: bool,
    pub two_pass: bool,
    pub target_size_bytes: Option<u64>,
    pub notes: Vec<String>,
    pub subtitle_action: String,
    pub warnings: Vec<String>,
    pub args: Vec<String>,
}

proof fn lemma_h264_literals()
    ensures
        preferred("h264"@, "h264"@) == "h264"@,
        hardware_candidates("h264"@).len() > 0,
        software_candidates("h264"@).len() > 0,
        "h264"@ != "copy"@,
{
    reveal_strlit("h264");
    reveal_strlit("copy");
    reveal_strlit("auto");
    assert("h264"@[0] != "copy"@[0]);
    assert("h264"@[0] != "auto"@[0]);
}

fn h264_encoder(requested: HardwareMode, listing: &Listing) -> (r: Result<
    (HardwareSelection, String, bool),
    MediaError,
>)
    ensures
        match h264_encoder_choice(requested, *listing) {
            None => encoder_refused(r, requested, "h264"@, *listing),
            Some((hw, e)) => r matches Ok(t) && t.2 == hw && t.1@ == e && reports_selection(
                t.0,
                requested,
                true,
            ) && (hw <==> t.0.encoder is Some),
        },
{
    proof {
        lemma_h264_literals();
    }
    let selection = match select_video_hardware(requested, "h264", true, listing) {
        Ok(s) => s,
        Err(e) => {
            return Err(e);
        },
    };
    match &selection.encoder {
        Some(e) => {
            let enc = e.clone();
            Ok((selection, enc, true))
        },
        None => {
            let enc = match select_software_video_encoder("h264", listing) {
                Ok(x) => x,
                Err(e) => {
                    return Err(e);
                },
            };
            Ok((selection, enc, false))
        },
    }
}

/// Plans a compression of a probed file with `streams` to H.264 at `quality`, on the
/// encoder hardware `requested` and the encoders that `listing` names, towards `target`
/// when a target size was given.
pub fn compress_command(
    streams: &Vec<StreamInfo>,
    quality: Quality,
    requested: HardwareMode,
    listing: &Listing,
    target: Option<TargetSize>,
) -> (r: Result<CompressPlan, MediaError>)
    ensures
        !has_kind(streams@, "video"@) ==> fails_with_message(
            r,
            ErrorCode::InvalidMedia,
            "No video stream was found."@,
        ),
        has_kind(streams@, "video"@) ==> match h264_encoder_choice(requested, *listing) {
            None => encoder_refused(r, requested, "h264"@, *listing),
            Some((hw, enc)) => match target {
                Some(t) => match t.bytes {
                    Err(e) => r matches Err(x) && same_error(x, e),
                    Ok(bytes) => match t.video_bitrate {
                        None => fails_with_message(
                            r,
                            ErrorCode::InvalidMedia,
                            "Target-size compression requires a known duration."@,
                        ),
                        Some(vb) => r matches Ok(p) && p.encoder@ == enc && p.hardware_encoder == hw
                            && p.two_pass == !hw && p.target_size_bytes == Some(bytes) && views(
                            p.args@,
                        ) == compress_args_for(quality, enc, hw, Some(vb), streams@)
                            && p.notes@.len() == (if hw {
                            2int
                        } else {
                            3int
                        }) && p.notes@[0]@ == "Compressing "@ + probed_video_codec(streams@)
                            + " video with the "@ + quality_label(quality) + " quality preset."@
                            && p.notes@.last()@ == "Target size is approximately "@ + decimal(
                            bytes as nat,
                        ) + " bytes."@ && (!hw ==> p.notes@[1]@
                            == "Using two-pass software encoding to improve target-size accuracy."@),
                    },
                },
                None => r matches Ok(p) && p.encoder@ == enc && p.hardware_encoder == hw
                    && !p.two_pass && p.target_size_bytes is None && views(p.args@)
                    == compress_args_for(quality, enc, hw, None, streams@) && p.notes@.len() == 1
                    && p.notes@[0]@ == "Compressing "@ + probed_video_codec(streams@)
                    + " video with the "@ + quality_label(quality) + " quality preset."@,
            },
        },
        r matches Ok(p) ==> reports_selection(p.hardware, requested, true) && p.subtitle_action@
            == subtitle_strategy_for("mp4"@, streams@) && views(p.warnings@)
            == subtitle_warnings_for(streams@, "mp4"@),
{
    proof {
        lemma_first_index(streams@, "video"@);
    }
    let video = match first_stream(streams, "video") {
        Some(v) => v,
        None => {
            return Err(MediaError::new(
                ErrorCode::InvalidMedia,
                owned("No video stream was found."),
            ));
        },
    };
    let (selection, encoder, hardware) = match h264_encoder(requested, listing) {
        Ok(t) => t,
        Err(e) => {
            return Err(e);
        },
    };
    proof {
        lemma_h264_literals();
    }
    let mut args = vec![owned("-map"), owned("0:v:0"), owned("-map"), owned("0:a?")];
    let video_args = match video_encode_args("h264", quality_name(quality), Some(encoder.as_str())) {
        Ok(v) => v,
        Err(_) => {
            assert(false);
            Vec::new()
        },
    };
    push_all(&mut args, video_args);
    let ghost base = views(args@);
    assert(base =~= seq!["-map"@, "0:v:0"@, "-map"@, "0:a?"@] + video_args_for(
        "h264"@,
        quality_text(quality),
        Some(encoder@),
    ));
    let mut note = owned("Compressing ");
    match &video.codec_name {
        Some(c) => note.append(c.as_str()),
        None => note.append("unknown"),
    }
    note.append(" video with the ");
    note.append(quality_label_text(quality));
    note.append(" quality preset.");
    let mut notes = vec![note];
    let mut two_pass = false;
    let mut target_size_bytes: Option<u64> = None;
    match target {
        Some(t) => {
            let bytes = match t.bytes {
                Ok(b) => b,
                Err(e) => {
                    return Err(e);
                },
            };
            target_size_bytes = Some(bytes);
            let vb = match t.video_bitrate {
                Some(vb) => vb,
                None => {
                    return Err(MediaError::new(
                        ErrorCode::InvalidMedia,
                        owned("Target-size compression requires a known duration."),
                    ));
                },
            };
            let doubled: u64 = if vb > u64::MAX / 2 {
                u64::MAX
            } else {
                vb * 2
            };
            push_all(
                &mut args,
                vec![
                    owned("-b:v"),
                    u64_text(vb),
                    owned("-maxrate"),
                    u64_text(vb),
                    owned("-bufsize"),
                    u64_text(doubled),
                ],
            );
            let ghost with = base + seq![
                "-b:v"@,
                decimal(vb as nat),
                "-maxrate"@,
                decimal(vb as nat),
                "-bufsize"@,
                decimal(saturating_double(vb)),
            ];
            assert(views(args@) =~= with);
            if !hardware {
                let ghost before = args@;
                remove_option(&mut args, "-crf");
                proof {
                    lemma_without_option_views(before, "-crf"@);
                }
            }
            assert(views(args@) == (if hardware {
                with
            } else {
                without_option_views(with, "-crf"@)
            }));
            two_pass = !hardware;
            if two_pass {
                notes.push(owned("Using two-pass software encoding to improve target-size accuracy."));
            }
            let mut last = owned("Target size is approximately ");
            last.append(u64_text(bytes).as_str());
            last.append(" bytes.");
            notes.push(last);
        },
        None => {
            if hardware {
                push_all(&mut args, vec![owned("-b:v"), owned(hardware_quality_bitrate(quality))]);
            }
            assert(views(args@) =~= (if hardware {
                base + seq!["-b:v"@, hardware_bitrate(quality)]
            } else {
                base
            }));
        },
    }
    let ghost rate = views(args@);
    push_all(&mut args, aac_default());
    push_all(&mut args, subtitle_ffmpeg_args("mp4", streams));
    push_all(
        &mut args,
        vec![owned("-map_metadata"), owned("0"), owned("-map_chapters"), owned("0")],
    );
    proof {
        let tb = match target_size_bytes {
            Some(_) => Some(target->Some_0.video_bitrate->Some_0),
            None => None,
        };
        assert(views(args@) =~= compress_args_for(quality, encoder@, hardware, tb, streams@));
    }
    Ok(
        CompressPlan {
            hardware: selection,
            encoder,
            hardware_encoder: hardware,
            two_pass,
            target_size_bytes,
            notes,
            subtitle_action: owned(subtitle_strategy("mp4", streams)),
            warnings: subtitle_warnings(streams, "mp4"),
            args,
        },
    )
}

} // verus!
