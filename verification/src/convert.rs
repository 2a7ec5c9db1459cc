//! Container conversion: the target container, and the copy / remux / transcode plan
//! with its encoder choice and FFmpeg arguments.

use vstd::prelude::*;
use crate::codec::{audio_args_for, audio_encode_args, audio_ok, default_audio_codec, default_audio_codec_for_container, default_video_codec, default_video_codec_for_container, first_listed, hardware_candidates, is_audio_compatible, is_video_compatible, lemma_audio_container_table, lemma_defaults_concrete, lemma_first_listed_member, lemma_hardware_has_software, lemma_transcode_literals, lemma_video_container_table, opt_view, preferred, preferred_codec, software_candidates, stream_details, transcode_suggestions, validate_transcode_compatibility, video_args_for, video_encode_args, video_ok, views};
use crate::hardware::{HardwareSelection, Listing, encoder_at_hand, encoder_refused, opt_is, reports_selection, select_software_video_encoder, select_video_hardware};
use crate::model::{ErrorCode, HardwareMode, MediaError, Quality, StreamInfo, fails_with_message, refused, text_detail};
use crate::names::{clean_name, codec_display, container_for, display_codec, internal_container, internal_container_for, is_lit, normalize_container, quality_name, quality_text};
use crate::presets::{DeviceProfile};
use crate::streams::{count_kind, first_index, first_stream, has_kind, has_stream, lemma_first_index, subtitle_codec_args, subtitle_codec_for, subtitle_strategy, subtitle_strategy_for, subtitle_warnings, subtitle_warnings_for};
use crate::text::{all_ascii, lemma_split_on_nonempty, lower_key, lowercase, owned, split_on, split_text, str_eq, to_lower, to_upper, uppercase};

verus! {

/// The audio bitrate used when MediaForge chooses one.
pub const DEFAULT_AUDIO_BITRATE: &'static str = "256k";

/// The first comma-separated piece of a probed format name (`mov,mp4,m4a` gives `mov`).
pub open spec fn first_piece(s: Seq<char>) -> Seq<char> {
    split_on(s, ',')[0]
}

/// The first comma-separated piece of a format name.
pub fn first_format_name(s: &str) -> (r: String)
    ensures
        r@ == first_piece(s@),
{
    let mut pieces = split_text(s, ',');
    proof {
        lemma_split_on_nonempty(s@, ',');
    }
    pieces.swap_remove(0)
}

/// The source container of a probed file, from its extension and probed format name.
pub open spec fn source_container_for(extension: Option<Seq<char>>, format_name: Option<Seq<char>>) -> Seq<char> {
    let name = match format_name {
        Some(f) => f,
        None => "unknown"@,
    };
    internal_container_for(extension, lowercase(first_piece(name)))
}

/// The container a file is treated as when planning a conversion from it.
pub fn source_container(extension: Option<&str>, format_name: Option<&str>) -> (r: String)
    ensures
        r@ == source_container_for(opt_view(extension), opt_view(format_name)),
{
    let name = match format_name {
        Some(f) => f,
        None => "unknown",
    };
    let first = first_format_name(name);
    let lower = to_lower(first.as_str());
    internal_container(extension, lower.as_str())
}

/// The target container of a conversion: the requested one, else the one named by the
/// output extension, else the source container; normalised.
pub fn convert_target(to: Option<&str>, output_extension: Option<&str>, source: &str) -> (r: Result<
    String,
    MediaError,
>)
    ensures
        ({
            let name = match to {
                Some(t) => t@,
                None => match output_extension {
                    Some(e) => e@,
                    None => source@,
                },
            };
            match container_for(clean_name(name)) {
                Some(c) => r matches Ok(s) && s@ == c,
                None => fails_with_message(
                    r,
                    ErrorCode::UnsupportedFormat,
                    "Unsupported target container: "@ + clean_name(name),
                ),
            }
        }),
{
    let name = match to {
        Some(t) => t,
        None => match output_extension {
            Some(e) => e,
            None => source,
        },
    };
    normalize_container(name)
}

/// The lowercased codec name of the first stream of `kind`, or `unknown`.
pub open spec fn first_codec(s: Seq<StreamInfo>, kind: Seq<char>) -> Seq<char> {
    match first_index(s, kind) {
        Some(i) => match s[i].codec_name {
            Some(c) => lowercase(c@),
            None => lowercase("unknown"@),
        },
        None => lowercase("unknown"@),
    }
}

/// The lowercased codec name of the first stream of `kind`, or `unknown`.
pub fn first_codec_name(streams: &Vec<StreamInfo>, kind: &str) -> (r: String)
    ensures
        r@ == first_codec(streams@, kind@),
{
    proof {
        lemma_first_index(streams@, kind@);
    }
    match first_stream(streams, kind) {
        Some(st) => match &st.codec_name {
            Some(c) => to_lower(c.as_str()),
            None => to_lower("unknown"),
        },
        None => to_lower("unknown"),
    }
}

/// The plan of a conversion.
#[derive(Debug)]
pub struct ConvertPlan {
    pub source_container: String,
    pub target_container: String,
    pub strategy: String,
    pub video_action: String,
    pub video_codec: String,
    pub video_encoder: Option<String>,
    pub audio_action: String,
    pub audio_from: String,
    pub audio_to: Option<String>,
    pub subtitle_action: String,
    pub hardware: HardwareSelection,
    pub quality: Quality,
    pub quality_loss: String,
    pub reasons: Vec<String>,
    pub warnings: Vec<String>,
    pub args: Vec<String>,
    pub device: Option<DeviceProfile>,
}

/// Strategy of a conversion from its two stream actions.
pub open spec fn convert_strategy(video_copy: bool, audio_copy: bool, same_container: bool) -> Seq<char> {
    if video_copy && audio_copy {
        if same_container {
            "copy"@
        } else {
            "remux"@
        }
    } else if video_copy || audio_copy {
        "partial_transcode"@
    } else {
        "transcode"@
    }
}

/// What a conversion loses from its two stream actions.
pub open spec fn convert_quality_loss(video_copy: bool, audio_copy: bool) -> Seq<char> {
    if video_copy && audio_copy {
        "none"@
    } else if video_copy {
        "audio_only"@
    } else if audio_copy {
        "video_only"@
    } else {
        "video_and_audio"@
    }
}

/// The arguments of a conversion, from its decisions.
pub open spec fn convert_args_for(
    video_copy: bool,
    audio_copy: bool,
    video_args: Seq<Seq<char>>,
    audio_args: Seq<Seq<char>>,
    target: Seq<char>,
    streams: Seq<StreamInfo>,
) -> Seq<Seq<char>> {
    seq!["-map"@, "0"@] + (if video_copy {
        seq!["-c:v"@, "copy"@]
    } else {
        video_args
    }) + (if audio_copy {
        seq!["-c:a"@, "copy"@]
    } else {
        audio_args
    }) + seq!["-map_metadata"@, "0"@, "-map_chapters"@, "0"@] + (if count_kind(
        streams,
        "subtitle"@,
    ) == 0 {
        Seq::<Seq<char>>::empty()
    } else {
        seq!["-c:s"@, subtitle_codec_for(target)]
    })
}

/// The error for a stream that was asked to be copied into a container that cannot carry it.
/// What a refused stream copy of `stream` suggests.
pub open spec fn copy_suggestions(stream: Seq<char>) -> Seq<Seq<char>> {
    seq![
        if stream == "video"@ {
            "Use --video-codec auto to let MediaForge choose copy or transcode."@
        } else {
            "Use --audio-codec auto to let MediaForge choose copy or transcode."@
        },
        "Choose a compatible target container."@,
    ]
}

fn copy_refusal(stream: &str, codec: &str, target: &str) -> (e: MediaError)
    ensures
        e.code == ErrorCode::UnsupportedCodec,
        e.message@ == "Cannot copy "@ + codec_display(codec@) + " "@ + stream@ + " into "@
            + uppercase(target@) + "."@,
        views(e.suggestions@) == copy_suggestions(stream@),
        stream_details(e.details@, stream@, codec@, target@),
{
    let mut message = owned("Cannot copy ");
    message.append(display_codec(codec).as_str());
    message.append(" ");
    message.append(stream);
    message.append(" into ");
    message.append(to_upper(target).as_str());
    message.append(".");
    let suggestion = if str_eq(stream, "video") {
        owned("Use --video-codec auto to let MediaForge choose copy or transcode.")
    } else {
        owned("Use --audio-codec auto to let MediaForge choose copy or transcode.")
    };
    MediaError::new(ErrorCode::UnsupportedCodec, message).with_details(
        vec![
            text_detail("stream", owned(stream)),
            text_detail("codec", owned(codec)),
            text_detail("container", owned(target)),
        ],
    ).with_suggestions({
        let suggestions = vec![suggestion, owned("Choose a compatible target container.")];
        assert(views(suggestions@) =~= copy_suggestions(stream@));
        suggestions
    })
}

/// Whether a conversion copies its video stream.
pub open spec fn copies_video(vc: Seq<char>, target: Seq<char>, streams: Seq<StreamInfo>) -> bool {
    (vc == "auto"@ || vc == "copy"@) && video_ok(target, first_codec(streams, "video"@))
}

/// Whether a conversion copies its audio stream.
pub open spec fn copies_audio(ac: Seq<char>, target: Seq<char>, streams: Seq<StreamInfo>) -> bool {
    (ac == "auto"@ || ac == "copy"@) && audio_ok(target, first_codec(streams, "audio"@))
}

/// The video encoder decision of a conversion that transcodes video.
pub open spec fn encoder_choice_ok(
    hardware: HardwareMode,
    codec: Seq<char>,
    listing: Listing,
    encoder: Option<String>,
) -> bool {
    match listing {
        Ok(t) => encoder matches Some(e) && if hardware == HardwareMode::Gpu {
            first_listed(hardware_candidates(codec), t@) == Some(e@)
        } else {
            first_listed(software_candidates(codec), t@) == Some(e@)
        },
        Err(_) => false,
    }
}

/// Hardware selection and encoder for the video stream of a conversion.
fn convert_video_encoder(video_copy: bool, hardware: HardwareMode, codec: &str, listing: &Listing) -> (r: Result<
    (HardwareSelection, Option<String>),
    MediaError,
>)
    requires
        codec@ != "auto"@,
        codec@ != "copy"@,
    ensures
        r matches Ok((h, e)) ==> reports_selection(h, hardware, !video_copy) && (video_copy ==> e is None)
            && (!video_copy ==> encoder_choice_ok(hardware, codec@, *listing, e)),
        (video_copy || encoder_at_hand(hardware, codec@, *listing)) ==> r is Ok,
        !video_copy && !encoder_at_hand(hardware, codec@, *listing) ==> encoder_refused(
            r,
            hardware,
            codec@,
            *listing,
        ),
{
    let selection = match select_video_hardware(hardware, codec, !video_copy, listing) {
        Ok(s) => s,
        Err(e) => {
            return Err(e);
        },
    };
    if video_copy {
        return Ok((selection, None));
    }
    let encoder = match &selection.encoder {
        Some(e) => owned(e.as_str()),
        None => match select_software_video_encoder(codec, listing) {
            Ok(e) => e,
            Err(e) => {
                return Err(e);
            },
        },
    };
    Ok((selection, Some(encoder)))
}

/// Why a conversion copies or transcodes its video: the source codec fits the target,
/// a codec was asked for, or the source codec does not fit.
pub open spec fn video_reason(
    copied: bool,
    requested: Seq<char>,
    source: Seq<char>,
    target: Seq<char>,
) -> Seq<char> {
    if copied {
        codec_display(source) + " video is compatible with "@ + uppercase(target) + "."@
    } else if requested != "auto"@ {
        "Video codec was explicitly requested as "@ + requested + "."@
    } else {
        codec_display(source) + " video is not compatible with "@ + uppercase(target) + "."@
    }
}

/// Why a conversion copies or transcodes its audio, as for its video.
pub open spec fn audio_reason(
    copied: bool,
    requested: Seq<char>,
    source: Seq<char>,
    target: Seq<char>,
) -> Seq<char> {
    if copied {
        codec_display(source) + " audio is compatible with "@ + uppercase(target) + "."@
    } else if requested != "auto"@ {
        "Audio codec was explicitly requested as "@ + requested + "."@
    } else {
        codec_display(source) + " audio is not compatible with "@ + uppercase(target) + "."@
    }
}

/// The two reasons a conversion gives for its stream actions.
fn convert_reasons(
    video_copy: bool,
    audio_copy: bool,
    vc: &str,
    ac: &str,
    source_video: &str,
    source_audio: &str,
    target: &str,
) -> (r: Vec<String>)
    ensures
        r@.len() == 2,
        r@[0]@ == video_reason(video_copy, vc@, source_video@, target@),
        r@[1]@ == audio_reason(audio_copy, ac@, source_audio@, target@),
{
    let upper_target = to_upper(target);
    let mut reasons: Vec<String> = Vec::new();
    if video_copy {
        let mut m = display_codec(source_video);
        m.append(" video is compatible with ");
        m.append(upper_target.as_str());
        m.append(".");
        reasons.push(m);
    } else if !str_eq(vc, "auto") {
        let mut m = owned("Video codec was explicitly requested as ");
        m.append(vc);
        m.append(".");
        reasons.push(m);
    } else {
        let mut m = display_codec(source_video);
        m.append(" video is not compatible with ");
        m.append(upper_target.as_str());
        m.append(".");
        reasons.push(m);
    }
    if audio_copy {
        let mut m = display_codec(source_audio);
        m.append(" audio is compatible with ");
        m.append(upper_target.as_str());
        m.append(".");
        reasons.push(m);
    } else if !str_eq(ac, "auto") {
        let mut m = owned("Audio codec was explicitly requested as ");
        m.append(ac);
        m.append(".");
        reasons.push(m);
    } else {
        let mut m = display_codec(source_audio);
        m.append(" audio is not compatible with ");
        m.append(upper_target.as_str());
        m.append(".");
        reasons.push(m);
    }
    reasons
}

/// The FFmpeg arguments of a conversion.
fn convert_args(
    video_copy: bool,
    audio_copy: bool,
    tv: &str,
    ta: &str,
    quality: Quality,
    encoder: Option<&str>,
    target: &str,
    streams: &Vec<StreamInfo>,
) -> (r: Result<Vec<String>, MediaError>)
    requires
        !video_copy ==> encoder is Some && tv@ != "auto"@ && tv@ != "copy"@ && software_candidates(
            tv@,
        ).len() > 0,
        !audio_copy ==> ta@ != "auto"@ && ta@ != "copy"@,
    ensures
        r matches Ok(v) ==> views(v@) == convert_args_for(
            video_copy,
            audio_copy,
            match encoder {
                Some(e) => video_args_for(tv@, quality_text(quality), Some(e@)),
                None => Seq::empty(),
            },
            audio_args_for(ta@, DEFAULT_AUDIO_BITRATE@).unwrap(),
            target@,
            streams@,
        ),
        (audio_copy || audio_args_for(ta@, DEFAULT_AUDIO_BITRATE@) is Some) ==> r is Ok,
        !audio_copy && audio_args_for(ta@, DEFAULT_AUDIO_BITRATE@) is None ==> fails_with_message(
            r,
            ErrorCode::UnsupportedCodec,
            "Unsupported audio codec: "@ + ta@,
        ),
{
    let mut args: Vec<String> = vec![owned("-map"), owned("0")];
    let ghost a0 = views(args@);
    let ghost vpart: Seq<Seq<char>>;
    if video_copy {
        args.push(owned("-c:v"));
        args.push(owned("copy"));
        proof {
            vpart = seq!["-c:v"@, "copy"@];
        }
    } else {
        let mut v = match video_encode_args(tv, quality_name(quality), encoder) {
            Ok(v) => v,
            Err(e) => {
                return Err(e);
            },
        };
        proof {
            vpart = views(v@);
        }
        args.append(&mut v);
    }
    assert(views(args@) =~= a0 + vpart);
    let ghost a1 = views(args@);
    let ghost apart: Seq<Seq<char>>;
    if audio_copy {
        args.push(owned("-c:a"));
        args.push(owned("copy"));
        proof {
            apart = seq!["-c:a"@, "copy"@];
        }
    } else {
        let mut a = match audio_encode_args(ta, DEFAULT_AUDIO_BITRATE) {
            Ok(a) => a,
            Err(e) => {
                return Err(e);
            },
        };
        proof {
            apart = views(a@);
        }
        args.append(&mut a);
    }
    assert(views(args@) =~= a1 + apart);
    let ghost a2 = views(args@);
    args.push(owned("-map_metadata"));
    args.push(owned("0"));
    args.push(owned("-map_chapters"));
    args.push(owned("0"));
    assert(views(args@) =~= a2 + seq!["-map_metadata"@, "0"@, "-map_chapters"@, "0"@]);
    let ghost a3 = views(args@);
    let mut subs = subtitle_codec_args(target, streams);
    let ghost spart = views(subs@);
    args.append(&mut subs);
    assert(views(args@) =~= a3 + spart);
    Ok(args)
}

/// Plans a conversion of probed `streams` from `source` to the `target` container.
///
/// A stream is copied when its codec was left to `auto` (or asked to be `copy`) and
/// the target container can carry the source codec; otherwise it is transcoded to the
/// requested codec or the container's default. Asking to copy a stream that the
/// container cannot carry is refused, and so is transcoding into a codec it cannot carry.
pub fn build_convert_plan(
    source: &str,
    target: &str,
    streams: &Vec<StreamInfo>,
    video_codec: &str,
    audio_codec: &str,
    hardware: HardwareMode,
    quality: Quality,
    listing: &Listing,
) -> (r: Result<ConvertPlan, MediaError>)
    ensures
        ({
            let vc = lower_key(video_codec@);
            let ac = lower_key(audio_codec@);
            let sv = first_codec(streams@, "video"@);
            let sa = first_codec(streams@, "audio"@);
            let video_copy = copies_video(vc, target@, streams@);
            let audio_copy = copies_audio(ac, target@, streams@);
            let tv = preferred(vc, default_video_codec(target@));
            let ta = preferred(ac, default_audio_codec(target@));
            if vc == "copy"@ && !video_ok(target@, sv) {
                refused(
                    r,
                    ErrorCode::UnsupportedCodec,
                    "Cannot copy "@ + codec_display(sv) + " "@ + "video"@ + " into "@ + uppercase(
                        target@,
                    ) + "."@,
                    copy_suggestions("video"@),
                ) && stream_details(r->Err_0.details@, "video"@, sv, target@)
            } else if ac == "copy"@ && has_kind(streams@, "audio"@) && !audio_ok(target@, sa) {
                refused(
                    r,
                    ErrorCode::UnsupportedCodec,
                    "Cannot copy "@ + codec_display(sa) + " "@ + "audio"@ + " into "@ + uppercase(
                        target@,
                    ) + "."@,
                    copy_suggestions("audio"@),
                ) && stream_details(r->Err_0.details@, "audio"@, sa, target@)
            } else if !video_copy && !video_ok(target@, tv) {
                refused(
                    r,
                    ErrorCode::UnsupportedCodec,
                    "Cannot encode "@ + codec_display(tv) + " "@ + "video"@ + " into "@ + uppercase(
                        target@,
                    ) + "."@,
                    transcode_suggestions("video"@),
                ) && stream_details(r->Err_0.details@, "video"@, tv, target@)
            } else if !audio_copy && !audio_ok(target@, ta) {
                refused(
                    r,
                    ErrorCode::UnsupportedCodec,
                    "Cannot encode "@ + codec_display(ta) + " "@ + "audio"@ + " into "@ + uppercase(
                        target@,
                    ) + "."@,
                    transcode_suggestions("audio"@),
                ) && stream_details(r->Err_0.details@, "audio"@, ta, target@)
            } else if !video_copy && !encoder_at_hand(hardware, tv, *listing) {
                encoder_refused(r, hardware, tv, *listing)
            } else if !audio_copy && audio_args_for(ta, DEFAULT_AUDIO_BITRATE@) is None {
                fails_with_message(r, ErrorCode::UnsupportedCodec, "Unsupported audio codec: "@ + ta)
            } else {
                r matches Ok(p) && {
                    &&& p.source_container@ == source@
                    &&& p.target_container@ == target@
                    &&& p.strategy@ == convert_strategy(video_copy, audio_copy, source@ == target@)
                    &&& p.quality_loss@ == convert_quality_loss(video_copy, audio_copy)
                    &&& p.video_action@ == (if video_copy { "copy"@ } else { "transcode"@ })
                    &&& p.audio_action@ == (if audio_copy { "copy"@ } else { "transcode"@ })
                    &&& p.video_codec@ == (if video_copy { sv } else { tv })
                    &&& p.audio_from@ == sa
                    &&& (if audio_copy { p.audio_to is None } else { opt_is(p.audio_to, ta) })
                    &&& (video_copy ==> p.video_encoder is None)
                    &&& (!video_copy ==> encoder_choice_ok(hardware, tv, *listing, p.video_encoder))
                    &&& reports_selection(p.hardware, hardware, !video_copy)
                    &&& p.quality == quality
                    &&& p.subtitle_action@ == subtitle_strategy_for(target@, streams@)
                    &&& views(p.warnings@) == subtitle_warnings_for(streams@, target@)
                    &&& p.reasons@.len() == 2
                    &&& p.reasons@[0]@ == video_reason(video_copy, vc, sv, target@)
                    &&& p.reasons@[1]@ == audio_reason(audio_copy, ac, sa, target@)
                    &&& p.device is None
                    &&& views(p.args@) == convert_args_for(
                        video_copy,
                        audio_copy,
                        match p.video_encoder {
                            Some(e) => video_args_for(tv, quality_text(quality), Some(e@)),
                            None => Seq::empty(),
                        },
                        audio_args_for(ta, DEFAULT_AUDIO_BITRATE@).unwrap(),
                        target@,
                        streams@,
                    )
                }
            }
        }),
{
    let vc = to_lower(video_codec);
    let ac = to_lower(audio_codec);
    let target_video = preferred_codec(vc.as_str(), default_video_codec_for_container(target));
    let target_audio = preferred_codec(ac.as_str(), default_audio_codec_for_container(target));
    let source_video = first_codec_name(streams, "video");
    let source_audio = first_codec_name(streams, "audio");
    let video_compatible = is_video_compatible(target, source_video.as_str());
    let audio_compatible = is_audio_compatible(target, source_audio.as_str());
    if is_lit(&vc, "copy") && !video_compatible {
        return Err(copy_refusal("video", source_video.as_str(), target));
    }
    if is_lit(&ac, "copy") && has_stream(streams, "audio") && !audio_compatible {
        return Err(copy_refusal("audio", source_audio.as_str(), target));
    }
    let video_copy = (is_lit(&vc, "auto") || is_lit(&vc, "copy")) && video_compatible;
    let audio_copy = (is_lit(&ac, "auto") || is_lit(&ac, "copy")) && audio_compatible;
    proof {
        lemma_defaults_concrete(target@, DEFAULT_AUDIO_BITRATE@);
        lemma_transcode_literals();
    }
    let video_action = if video_copy { "copy" } else { "transcode" };
    let audio_action = if audio_copy { "copy" } else { "transcode" };
    match validate_transcode_compatibility("video", video_action, target_video.as_str(), target) {
        Ok(_) => {
            assert(video_copy || video_ok(target@, target_video@));
        },
        Err(e) => {
            return Err(e);
        },
    }
    match validate_transcode_compatibility("audio", audio_action, target_audio.as_str(), target) {
        Ok(_) => {
            assert(audio_copy || audio_ok(target@, target_audio@));
        },
        Err(e) => {
            return Err(e);
        },
    }
    let (selection, encoder) = match convert_video_encoder(
        video_copy,
        hardware,
        target_video.as_str(),
        listing,
    ) {
        Ok(pair) => pair,
        Err(e) => {
            return Err(e);
        },
    };
    proof {
        if !video_copy {
            let e = encoder.unwrap();
            if hardware == HardwareMode::Gpu {
                lemma_first_listed_member(hardware_candidates(target_video@), e@, listing.unwrap()@);
                lemma_hardware_has_software(target_video@);
            } else {
                lemma_first_listed_member(software_candidates(target_video@), e@, listing.unwrap()@);
            }
        }
    }
    let enc_ref: Option<&str> = match &encoder {
        Some(e) => Some(e.as_str()),
        None => None,
    };
    let args = match convert_args(
        video_copy,
        audio_copy,
        target_video.as_str(),
        target_audio.as_str(),
        quality,
        enc_ref,
        target,
        streams,
    ) {
        Ok(a) => a,
        Err(e) => {
            return Err(e);
        },
    };
    let strategy = if video_copy && audio_copy {
        if str_eq(source, target) {
            "copy"
        } else {
            "remux"
        }
    } else if video_copy || audio_copy {
        "partial_transcode"
    } else {
        "transcode"
    };
    let quality_loss = if video_copy && audio_copy {
        "none"
    } else if video_copy {
        "audio_only"
    } else if audio_copy {
        "video_only"
    } else {
        "video_and_audio"
    };
    let reasons = convert_reasons(
        video_copy,
        audio_copy,
        vc.as_str(),
        ac.as_str(),
        source_video.as_str(),
        source_audio.as_str(),
        target,
    );
    let video_codec_out = if video_copy {
        owned(source_video.as_str())
    } else {
        owned(target_video.as_str())
    };
    Ok(ConvertPlan {
        source_container: owned(source),
        target_container: owned(target),
        strategy: owned(strategy),
        video_action: owned(video_action),
        video_codec: video_codec_out,
        video_encoder: encoder,
        audio_action: owned(audio_action),
        audio_from: source_audio,
        audio_to: if audio_copy {
            None
        } else {
            Some(target_audio)
        },
        subtitle_action: owned(subtitle_strategy(target, streams)),
        hardware: selection,
        quality,
        quality_loss: owned(quality_loss),
        reasons,
        warnings: subtitle_warnings(streams, target),
        args,
        device: None,
    })
}

} // verus!

verus! {

/// With codecs left to `auto`, a conversion into MP4 or MOV copies the video exactly when
/// it is H.264, H.265/HEVC, MPEG-4, AV1 or VP9 and the audio exactly when it is AAC, MP3,
/// AC-3 or E-AC-3; a source with both loses nothing, and is remuxed when the container
/// changes (copied when it stays).
pub proof fn lemma_auto_conversion_into_mp4(
    target: Seq<char>,
    streams: Seq<StreamInfo>,
    same_container: bool,
)
    requires
        target == "mp4"@ || target == "mov"@,
    ensures
        lower_key("auto"@) == "auto"@,
        copies_video("auto"@, target, streams) <==> seq![
            "h264"@,
            "h265"@,
            "hevc"@,
            "mpeg4"@,
            "av1"@,
            "vp9"@,
        ].contains(first_codec(streams, "video"@)),
        copies_audio("auto"@, target, streams) <==> seq![
            "aac"@,
            "mp3"@,
            "ac3"@,
            "eac3"@,
        ].contains(first_codec(streams, "audio"@)),
        copies_video("auto"@, target, streams) && copies_audio("auto"@, target, streams) ==> {
            &&& convert_quality_loss(true, true) == "none"@
            &&& convert_strategy(true, true, same_container) == (if same_container {
                "copy"@
            } else {
                "remux"@
            })
        },
{
    lemma_video_container_table(target, first_codec(streams, "video"@));
    lemma_audio_container_table(target, first_codec(streams, "audio"@));
    reveal_strlit("auto");
    assert(all_ascii("auto"@));
    assert(lower_key("auto"@) =~= "auto"@);
}

/// A conversion loses nothing exactly when it copies both streams, and it is a plain
/// copy or remux exactly then too.
pub proof fn lemma_lossless_iff_copied(video_copy: bool, audio_copy: bool, same_container: bool)
    ensures
        (convert_quality_loss(video_copy, audio_copy) == "none"@) == (video_copy && audio_copy),
        (video_copy && audio_copy) == (convert_strategy(video_copy, audio_copy, same_container)
            == "copy"@ || convert_strategy(video_copy, audio_copy, same_container) == "remux"@),
{
    reveal_strlit("none");
    reveal_strlit("audio_only");
    reveal_strlit("video_only");
    reveal_strlit("video_and_audio");
    reveal_strlit("copy");
    reveal_strlit("remux");
    reveal_strlit("partial_transcode");
    reveal_strlit("transcode");
    assert("none"@.len() != "audio_only"@.len() && "none"@.len() != "video_only"@.len());
    assert("none"@.len() != "video_and_audio"@.len());
    assert("copy"@.len() != "partial_transcode"@.len() && "copy"@.len() != "transcode"@.len());
    assert("remux"@.len() != "partial_transcode"@.len() && "remux"@.len() != "transcode"@.len());
}

} // verus!
