//! Encoder selection: which hardware or software encoder a transcode uses, decided from
//! the requested mode and the encoder listing of the installed FFmpeg.

use vstd::prelude::*;
use crate::codec::{first_listed, first_listed_candidate, hardware_candidates, hardware_encoder_candidates, lemma_str_views_take, lemma_views_push, preferred, preferred_codec, software_candidates, software_encoder_candidates, str_views, views};
use crate::model::{Detail, DetailValue, ErrorCode, HardwareMode, MediaError, copy_error, fails_with_message, refused, same_error, text_detail, text_entry, texts_entry};
use crate::names::{format_hardware, hardware_text};
use crate::text::{concat, owned};

verus! {

/// The outcome of encoder hardware selection.
#[derive(Debug)]
pub struct HardwareSelection {
    pub requested: String,
    pub selected: String,
    pub encoder: Option<String>,
    pub reason: String,
}

/// The encoder listing of the installed FFmpeg (`ffmpeg -hide_banner -encoders`), or the
/// error met while obtaining it.
pub type Listing = Result<String, MediaError>;

/// `o` holds a string spelling `e`.
pub open spec fn opt_is(o: Option<String>, e: Seq<char>) -> bool {
    o matches Some(x) && x@ == e
}

/// `r` failed with the same error as the listing did.
pub open spec fn failed_like(r: Result<HardwareSelection, MediaError>, e: MediaError) -> bool {
    r matches Err(x) && same_error(x, e)
}

/// The details of a refused GPU request for `codec`: the hardware asked for, the codec,
/// and, when `candidates` is given, the hardware encoders that were looked for.
pub open spec fn gpu_details<T>(
    r: Result<T, MediaError>,
    codec: Seq<char>,
    candidates: Option<Seq<Seq<char>>>,
) -> bool {
    r matches Err(e) && {
        &&& e.details@.len() == (if candidates is Some {
            3int
        } else {
            2int
        })
        &&& text_entry(e.details@[0], "requested_hardware"@, "gpu"@)
        &&& text_entry(e.details@[1], "requested_codec"@, codec)
        &&& (candidates matches Some(c) ==> texts_entry(e.details@[2], "candidates"@, c))
    }
}

/// The details of a refused software encode of `codec`: the codec and the software
/// encoders that were looked for.
pub open spec fn software_details<T>(r: Result<T, MediaError>, codec: Seq<char>) -> bool {
    r matches Err(e) && {
        &&& e.details@.len() == 2
        &&& text_entry(e.details@[0], "requested_codec"@, codec)
        &&& texts_entry(e.details@[1], "candidates"@, software_candidates(codec))
    }
}

/// What an error suggests when no hardware encoder is mapped for a codec.
pub open spec fn no_mapping_suggestions() -> Seq<Seq<char>> {
    seq![
        "Use --hardware cpu or choose h264, h265, or av1."@,
        "Run media capabilities to inspect available encoders."@,
    ]
}

/// What an error suggests when no mapped hardware encoder is listed.
pub open spec fn no_gpu_suggestions() -> Seq<Seq<char>> {
    seq![
        "Use --hardware cpu for a software encode."@,
        "Run media capabilities to inspect available encoders."@,
    ]
}

/// What an error suggests when no software encoder for a codec is listed.
pub open spec fn no_software_suggestions() -> Seq<Seq<char>> {
    seq![
        "Run media capabilities to inspect available encoders."@,
        "Install an FFmpeg build with the requested software encoder."@,
    ]
}

/// What a successful hardware selection reports: the mode asked for, the kind of encoder
/// chosen and why, and the hardware encoder when `gpu` found one.
pub open spec fn reports_selection(h: HardwareSelection, requested: HardwareMode, needs_encode: bool) -> bool {
    &&& h.requested@ == hardware_text(requested)
    &&& if !needs_encode {
        &&& h.selected@ == "not_applicable"@
        &&& h.encoder is None
        &&& h.reason@ == "Video is copied, so no encoder hardware is required."@
    } else if requested == HardwareMode::Cpu {
        &&& h.selected@ == "cpu"@
        &&& h.encoder is None
        &&& h.reason@ == "Software encoding was explicitly requested."@
    } else if requested == HardwareMode::Auto {
        &&& h.selected@ == "cpu"@
        &&& h.encoder is None
        &&& h.reason@
            == "Auto uses deterministic software encoding; request gpu to opt in to a hardware encoder."@
    } else {
        &&& h.selected@ == "gpu"@
        &&& h.encoder is Some
        &&& h.reason@ == "Using the available "@ + h.encoder->Some_0@ + " hardware encoder."@
    }
}

/// Chooses the video encoder hardware. No encoder is needed when video is copied; `cpu`
/// and `auto` select software encoding; `gpu` takes the first hardware encoder for the
/// codec that the listing names.
pub fn select_video_hardware(
    requested: HardwareMode,
    codec: &str,
    needs_video_encode: bool,
    listing: &Listing,
) -> (r: Result<HardwareSelection, MediaError>)
    ensures
        r matches Ok(h) ==> reports_selection(h, requested, needs_video_encode),
        !needs_video_encode ==> (r matches Ok(h) && h.selected@ == "not_applicable"@
            && h.encoder is None && h.reason@
            == "Video is copied, so no encoder hardware is required."@),
        needs_video_encode && requested == HardwareMode::Cpu ==> (r matches Ok(h) && h.selected@
            == "cpu"@ && h.encoder is None && h.reason@
            == "Software encoding was explicitly requested."@),
        needs_video_encode && requested == HardwareMode::Auto ==> (r matches Ok(h) && h.selected@
            == "cpu"@ && h.encoder is None && h.reason@
            == "Auto uses deterministic software encoding; request gpu to opt in to a hardware encoder."@),
        needs_video_encode && requested == HardwareMode::Gpu ==> ({
            let c = preferred(codec@, "h264"@);
            let cands = hardware_candidates(c);
            if cands.len() == 0 {
                refused(
                    r,
                    ErrorCode::UnsupportedHardware,
                    "No hardware encoder mapping exists for video codec "@ + c + "."@,
                    no_mapping_suggestions(),
                ) && gpu_details(r, c, None)
            } else {
                match listing {
                    Err(e) => failed_like(r, *e),
                    Ok(text) => match first_listed(cands, text@) {
                        Some(enc) => r matches Ok(h) && h.selected@ == "gpu"@ && opt_is(
                            h.encoder,
                            enc,
                        ) && h.reason@ == "Using the available "@ + enc
                            + " hardware encoder."@,
                        None => refused(
                            r,
                            ErrorCode::EncoderUnavailable,
                            "No available GPU encoder was found for "@ + c + "."@,
                            no_gpu_suggestions(),
                        ) && gpu_details(r, c, Some(cands)),
                    },
                }
            }
        }),
{
    let requested_name = owned(format_hardware(requested));
    if !needs_video_encode {
        return Ok(HardwareSelection {
            requested: requested_name,
            selected: owned("not_applicable"),
            encoder: None,
            reason: owned("Video is copied, so no encoder hardware is required."),
        });
    }
    match requested {
        HardwareMode::Cpu => Ok(HardwareSelection {
            requested: requested_name,
            selected: owned("cpu"),
            encoder: None,
            reason: owned("Software encoding was explicitly requested."),
        }),
        HardwareMode::Auto => Ok(HardwareSelection {
            requested: requested_name,
            selected: owned("cpu"),
            encoder: None,
            reason: owned(
                "Auto uses deterministic software encoding; request gpu to opt in to a hardware encoder.",
            ),
        }),
        HardwareMode::Gpu => {
            let normalized = preferred_codec(codec, "h264");
            let candidates = hardware_encoder_candidates(normalized.as_str());
            if candidates.len() == 0 {
                let mut message = owned("No hardware encoder mapping exists for video codec ");
                message.append(normalized.as_str());
                message.append(".");
                let details = vec![
                    text_detail("requested_hardware", owned("gpu")),
                    text_detail("requested_codec", owned(normalized.as_str())),
                ];
                let suggestions = vec![
                    owned("Use --hardware cpu or choose h264, h265, or av1."),
                    owned("Run media capabilities to inspect available encoders."),
                ];
                assert(views(suggestions@) =~= no_mapping_suggestions());
                return Err(MediaError::new(ErrorCode::UnsupportedHardware, message).with_details(
                    details,
                ).with_suggestions(suggestions));
            }
            let text = match listing {
                Ok(t) => t,
                Err(e) => {
                    return Err(copy_error(e));
                },
            };
            match first_listed_candidate(&candidates, text.as_str()) {
                Some(encoder) => {
                    let mut reason = owned("Using the available ");
                    reason.append(encoder);
                    reason.append(" hardware encoder.");
                    Ok(HardwareSelection {
                        requested: requested_name,
                        selected: owned("gpu"),
                        encoder: Some(owned(encoder)),
                        reason,
                    })
                },
                None => {
                    let mut message = owned("No available GPU encoder was found for ");
                    message.append(normalized.as_str());
                    message.append(".");
                    let details = vec![
                        text_detail("requested_hardware", owned("gpu")),
                        text_detail("requested_codec", owned(normalized.as_str())),
                        Detail { key: owned("candidates"), value: DetailValue::Texts(texts_of(&candidates)) },
                    ];
                    let suggestions = vec![
                        owned("Use --hardware cpu for a software encode."),
                        owned("Run media capabilities to inspect available encoders."),
                    ];
                    assert(views(suggestions@) =~= no_gpu_suggestions());
                    Err(MediaError::new(ErrorCode::EncoderUnavailable, message).with_details(
                        details,
                    ).with_suggestions(suggestions))
                },
            }
        },
    }
}

/// Owned copies of string slices.
pub fn texts_of(v: &Vec<&'static str>) -> (r: Vec<String>)
    ensures
        views(r@) == str_views(v@),
{
    let mut out: Vec<String> = Vec::new();
    let mut i: usize = 0;
    while i < v.len()
        invariant
            0 <= i <= v@.len(),
            views(out@) == str_views(v@.take(i as int)),
        decreases v.len() - i,
    {
        let ghost before = out@;
        out.push(owned(v[i]));
        proof {
            lemma_views_push(before, out@.last());
            lemma_str_views_take(v@, i as int);
        }
        i = i + 1;
    }
    assert(v@.take(v@.len() as int) =~= v@);
    out
}

/// Picks the software encoder for a video codec: the first of its candidates that the
/// listing names.
pub fn select_software_video_encoder(codec: &str, listing: &Listing) -> (r: Result<String, MediaError>)
    ensures
        software_candidates(codec@).len() == 0 ==> fails_with_message(
            r,
            ErrorCode::UnsupportedCodec,
            "Unsupported video codec: "@ + codec@,
        ),
        software_candidates(codec@).len() > 0 ==> match listing {
            Err(e) => r matches Err(x) && same_error(x, *e),
            Ok(text) => match first_listed(software_candidates(codec@), text@) {
                Some(enc) => r matches Ok(s) && s@ == enc,
                None => refused(
                    r,
                    ErrorCode::EncoderUnavailable,
                    "No software encoder is available for video codec "@ + codec@ + "."@,
                    no_software_suggestions(),
                ) && software_details(r, codec@),
            },
        },
{
    let candidates = software_encoder_candidates(codec);
    if candidates.len() == 0 {
        return Err(MediaError::new(
            ErrorCode::UnsupportedCodec,
            concat("Unsupported video codec: ", codec),
        ));
    }
    let text = match listing {
        Ok(t) => t,
        Err(e) => {
            return Err(copy_error(e));
        },
    };
    match first_listed_candidate(&candidates, text.as_str()) {
        Some(encoder) => Ok(owned(encoder)),
        None => {
            let mut message = owned("No software encoder is available for video codec ");
            message.append(codec);
            message.append(".");
            let details = vec![
                text_detail("requested_codec", owned(codec)),
                Detail { key: owned("candidates"), value: DetailValue::Texts(texts_of(&candidates)) },
            ];
            let suggestions = vec![
                owned("Run media capabilities to inspect available encoders."),
                owned("Install an FFmpeg build with the requested software encoder."),
            ];
            assert(views(suggestions@) =~= no_software_suggestions());
            Err(MediaError::new(ErrorCode::EncoderUnavailable, message).with_details(details).with_suggestions(
                suggestions,
            ))
        },
    }
}

/// Whether a video transcode into `codec` has an encoder at hand: a listed hardware
/// encoder when `gpu` was asked for, else a listed software encoder.
pub open spec fn encoder_at_hand(hardware: HardwareMode, codec: Seq<char>, listing: Listing) -> bool {
    listing matches Ok(t) && if hardware == HardwareMode::Gpu {
        first_listed(hardware_candidates(codec), t@) is Some
    } else {
        first_listed(software_candidates(codec), t@) is Some
    }
}

/// How the choice of a video encoder for `codec` fails when none is at hand: a codec with
/// no encoder of the asked kind, the listing's own error, or no listed encoder.
pub open spec fn encoder_refused<T>(
    r: Result<T, MediaError>,
    hardware: HardwareMode,
    codec: Seq<char>,
    listing: Listing,
) -> bool {
    if hardware == HardwareMode::Gpu {
        if hardware_candidates(codec).len() == 0 {
            refused(
                r,
                ErrorCode::UnsupportedHardware,
                "No hardware encoder mapping exists for video codec "@ + codec + "."@,
                no_mapping_suggestions(),
            ) && gpu_details(r, codec, None)
        } else {
            match listing {
                Err(e) => r matches Err(x) && same_error(x, e),
                Ok(_) => refused(
                    r,
                    ErrorCode::EncoderUnavailable,
                    "No available GPU encoder was found for "@ + codec + "."@,
                    no_gpu_suggestions(),
                ) && gpu_details(r, codec, Some(hardware_candidates(codec))),
            }
        }
    } else if software_candidates(codec).len() == 0 {
        fails_with_message(r, ErrorCode::UnsupportedCodec, "Unsupported video codec: "@ + codec)
    } else {
        match listing {
            Err(e) => r matches Err(x) && same_error(x, e),
            Ok(_) => refused(
                r,
                ErrorCode::EncoderUnavailable,
                "No software encoder is available for video codec "@ + codec + "."@,
                no_software_suggestions(),
            ) && software_details(r, codec),
        }
    }
}

} // verus!
