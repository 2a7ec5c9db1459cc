use mediaforge::names::{parse_quality_name, quality_name};
use mediaforge::routing::tool_clip_start;
use mediaforge::verify::{custom_execution_outcome, execution_outcome, VerificationStep};
use mediaforge::batch::{
    batch_files_found, batch_format, batch_summary, collect_inputs, is_media_extension,
    wildcard_match, wildcard_match_bytes, InputKind,
};
use mediaforge::capabilities::{
    capability_encoders, ffmpeg_filter_available, found_encoders, hardware_acceleration,
    hwaccel_names, version_line,
};
use mediaforge::convert::{build_convert_plan, convert_target};
use mediaforge::hardware::select_video_hardware;
use mediaforge::image::{
    gif_command, gif_preflight, image_codec_args, image_command, image_preflight,
    image_quality_args, validate_positive_dimension, TimeFacts,
};
use mediaforge::inspect::{inspect_command, raw_ffmpeg_command, repair_command, repaired_file_name};
use mediaforge::model::{ErrorCode, HardwareMode, MediaError, Quality, StreamInfo};
use mediaforge::routing::{
    convert_request, merge_inputs, plan_merge_mode, plan_operation, plan_route, required_input,
    required_string, tool_request_text, tool_route, Operation, PlanHints,
};
use mediaforge::verify::{
    verify_command, verify_compress_output, verify_operation, verify_resize_output,
    verify_transformed_output, verify_value, PlanFacts, VerifyKind,
};

fn strings(items: &[&str]) -> Vec<String> {
    items.iter().map(|s| s.to_string()).collect()
}

fn av(video: &str, audio: &str) -> Vec<StreamInfo> {
    vec![StreamInfo::new("video").with_codec_name(video), StreamInfo::new("audio").with_codec_name(audio)]
}

fn listing(text: &str) -> Result<String, MediaError> {
    Ok(text.to_string())
}

#[test]
fn tool_routes_aliases_and_refuses_unknown_operations() {
    let route = tool_route("Video-To-GIF", Some("very_high".to_string()), Some("CPU".to_string())).unwrap();
    assert_eq!(route.operation, Operation::Gif);
    assert_eq!(route.name, "video_to_gif");
    assert_eq!(route.quality, Some(Quality::VeryHigh));
    assert_eq!(route.hardware, Some(HardwareMode::Cpu));
    assert_eq!(tool_route("inspect_media", None, None).unwrap().operation, Operation::Inspect);
    assert_eq!(tool_route("dvd", None, None).unwrap().operation, Operation::Disc);
    let unknown = tool_route("explode", None, None).unwrap_err();
    assert_eq!(unknown.message, "Unsupported Tool operation: explode");
    assert_eq!(unknown.suggestions.len(), 1);
    assert_eq!(tool_route("explode", Some("ultra".to_string()), None).unwrap_err().message, "Unsupported quality preset: ultra");
    assert_eq!(tool_route("explode", None, Some("tpu".to_string())).unwrap_err().message, "Unsupported hardware mode: tpu");
}

#[test]
fn tool_requests_need_their_fields() {
    assert_eq!(tool_request_text("   ").unwrap_err().message, "Tool request must be a JSON object.");
    assert!(tool_request_text("{}").is_ok());
    assert_eq!(required_input(Some("  ".to_string())).unwrap_err().message, "Tool requests require input.");
    assert_eq!(required_input(Some("in.mp4".to_string())).unwrap(), "in.mp4");
    assert_eq!(required_string(None, "output").unwrap_err().message, "Tool requests require output.");
    assert_eq!(merge_inputs(Some("a".to_string()), Some(strings(&["b", "c"]))), strings(&["a", "b", "c"]));
    assert_eq!(merge_inputs(None, None), Vec::<String>::new());
}

fn hints() -> PlanHints {
    PlanHints { target_size: false, quality: false, to: false, video_codec: false, audio_codec: false, width: false, resolution: false, start: false, format: false, at: false }
}

#[test]
fn plan_operation_is_inferred_from_the_request() {
    assert_eq!(plan_operation(None, hints()), "convert");
    assert_eq!(plan_operation(None, PlanHints { quality: true, ..hints() }), "compress");
    assert_eq!(plan_operation(None, PlanHints { quality: true, to: true, ..hints() }), "convert");
    assert_eq!(plan_operation(None, PlanHints { resolution: true, start: true, ..hints() }), "resize");
    assert_eq!(plan_operation(None, PlanHints { start: true, ..hints() }), "clip");
    assert_eq!(plan_operation(None, PlanHints { format: true, at: true, ..hints() }), "extract_audio");
    assert_eq!(plan_operation(None, PlanHints { at: true, ..hints() }), "thumbnail");
    assert_eq!(plan_operation(Some("Compress-Media"), hints()), "compress");
    assert_eq!(plan_route(&"mix".to_string()).unwrap(), Operation::Merge);
    assert_eq!(plan_route(&"inspect".to_string()).unwrap_err().message, "Planning operation inspect is not supported.");
    assert_eq!(plan_merge_mode(&"mux".to_string(), "concat"), "mux");
    assert_eq!(plan_merge_mode(&"merge".to_string(), "mix"), "mix");
}

#[test]
fn device_requests_fill_in_target_and_codecs() {
    let request = convert_request(Some("PSP"), None, Some("h265"), None, "auto", "auto").unwrap();
    assert_eq!(request.to.as_deref(), Some("mp4"));
    assert_eq!(request.video_codec, "h265");
    assert_eq!(request.audio_codec, "aac");
    let plain = convert_request(None, Some("mkv"), None, None, "auto", "opus").unwrap();
    assert!(plain.profile.is_none());
    assert_eq!((plain.video_codec.as_str(), plain.audio_codec.as_str()), ("auto", "opus"));
    assert_eq!(convert_request(Some("toaster"), None, None, None, "auto", "auto").unwrap_err().code, ErrorCode::InvalidArgument);
    let profile = request.profile.unwrap();
    assert_eq!((profile.label, profile.max_height), ("PSP", 480));
    let unknown = convert_request(Some("toaster"), None, None, None, "auto", "auto").unwrap_err();
    assert_eq!(unknown.message, "Unknown device preset: toaster");
    assert_eq!(unknown.suggestions, strings(&["Use iphone, ipad, android, psp, or car.", "Run media presets --json to list profiles."]));
}

#[test]
fn auto_hardware_never_selects_a_gpu() {
    let selection = select_video_hardware(HardwareMode::Auto, "h264", true, &listing(" V..... h264_nvenc NVENC")).unwrap();
    assert_eq!(selection.selected, "cpu");
    assert!(selection.encoder.is_none());
}

#[test]
fn conversion_into_compatible_container_copies_losslessly() {
    let plan = build_convert_plan("mkv", "mp4", &av("h264", "aac"), "auto", "auto", HardwareMode::Auto, Quality::Balanced, &listing("")).unwrap();
    assert_eq!(plan.strategy, "remux");
    assert_eq!(plan.quality_loss, "none");
    assert_eq!(plan.args, strings(&["-map", "0", "-c:v", "copy", "-c:a", "copy", "-map_metadata", "0", "-map_chapters", "0"]));
}

#[test]
fn verification_compares_output_with_input() {
    let source = vec![StreamInfo::new("video").with_codec_name("h264").with_dimensions(1920, 1080), StreamInfo::new("audio").with_codec_name("aac")];
    let output = vec![StreamInfo::new("video").with_codec_name("hevc").with_dimensions(1280, 720)];
    let v = verify_value(&source, &output, true, false, 10);
    assert!(!v.valid);
    assert!(!v.checks.audio_match && !v.checks.resolution_match && !v.checks.video_codec_match && !v.checks.stream_counts_match);
    assert_eq!(
        v.warnings,
        strings(&[
            "Output is missing the input audio stream.",
            "Output resolution differs from the input.",
            "Output codec differs from the input.",
            "The output stream counts differ from the input.",
        ])
    );
    let same = verify_value(&source, &source, true, false, 10);
    assert!(same.valid && same.warnings.is_empty());
}

#[test]
fn compressed_output_must_fit_its_target() {
    let mut v = verify_value(&av("h264", "aac"), &av("h264", "aac"), true, false, 2_000);
    let check = verify_compress_output(&mut v, Some(1_000)).unwrap();
    assert!(!check.target_size_match);
    assert!(!v.valid);
    assert_eq!(v.warnings.last().unwrap(), "Output size 2000 exceeds target size 1000.");
    let mut ok = verify_value(&av("h264", "aac"), &av("h264", "aac"), true, false, 500);
    assert!(verify_compress_output(&mut ok, Some(1_000)).unwrap().target_size_match);
    assert!(ok.valid);
}

#[test]
fn resized_output_must_match_the_plan() {
    let source = vec![StreamInfo::new("video").with_dimensions(1920, 1080)];
    let output = vec![StreamInfo::new("video").with_dimensions(1280, 720)];
    let mut v = verify_value(&source, &output, true, false, 10);
    assert_eq!(v.warnings, strings(&["Output resolution differs from the input."]));
    let check = verify_resize_output(&mut v, &output, "height", 720);
    assert!(check.target_dimension_match && check.even_dimensions_match);
    assert!(v.valid && v.warnings.is_empty());
    let odd = vec![StreamInfo::new("video").with_dimensions(1281, 720)];
    let mut w = verify_value(&odd, &odd, true, false, 10);
    let bad = verify_resize_output(&mut w, &odd, "width", 1280);
    assert!(!bad.target_dimension_match && !bad.even_dimensions_match);
    assert_eq!(w.warnings, strings(&["Output resolution does not match the resize plan.", "Output dimensions are not both even."]));
}

#[test]
fn transformed_outputs_need_the_planned_streams() {
    let cd = PlanFacts { disc_cd: true, video_present: None, audio_present: None };
    let audio_only = vec![StreamInfo::new("audio")];
    assert!(verify_transformed_output("disc", cd, &audio_only, false, 5).valid);
    let dvd = PlanFacts { disc_cd: false, ..cd };
    assert!(!verify_transformed_output("disc", dvd, &audio_only, false, 5).valid);
    let edit = PlanFacts { disc_cd: false, video_present: None, audio_present: None };
    assert!(!verify_transformed_output("edit", edit, &vec![StreamInfo::new("video")], false, 5).valid);
    assert_eq!(verify_operation("extract_audio"), VerifyKind::Audio);
    assert_eq!(verify_operation("gif"), VerifyKind::Transformed);
    assert_eq!(verify_operation("convert"), VerifyKind::General);
    assert_eq!(verify_command(Ok(()), Ok(()), Some(false)).unwrap_err().code, ErrorCode::VerifyFailed);
    assert!(verify_command(Ok(()), Ok(()), Some(true)).is_ok());
}

const ENCODERS: &str = "Encoders:\n V....D libx264              libx264 H.264\n V....D h264_videotoolbox    VideoToolbox\n A....D aac                  AAC\n A....D libopus              Opus\n";

#[test]
fn capabilities_read_the_listings() {
    assert_eq!(found_encoders(ENCODERS, &vec!["libx264", "h264_nvenc", "h264_videotoolbox"]), strings(&["libx264", "h264_videotoolbox"]));
    let rows = capability_encoders(ENCODERS);
    assert_eq!(rows.len(), 28);
    assert_eq!(rows[0].0, "h264");
    assert_eq!(rows[0].1, strings(&["libx264", "h264_videotoolbox"]));
    let accels = hwaccel_names("Hardware acceleration methods:\nvideotoolbox\n\n  vaapi \n");
    assert_eq!(accels, strings(&["videotoolbox", "vaapi"]));
    let acceleration = hardware_acceleration(&accels, &rows);
    assert!(acceleration.videotoolbox && acceleration.vaapi);
    assert!(!acceleration.nvenc && !acceleration.qsv && !acceleration.amf);
    assert_eq!(version_line("ffmpeg version 7.1\r\nbuilt with"), "ffmpeg version 7.1");
    assert_eq!(version_line(""), "unknown");
    assert_eq!(version_line("ffmpeg version 7.1\r"), "ffmpeg version 7.1\r");
    assert_eq!(version_line("ffmpeg version 7.1"), "ffmpeg version 7.1");
    assert_eq!(version_line("\nsecond"), "");
    assert!(ffmpeg_filter_available(&Ok(" ... subtitles V->V Render text".to_string()), "subtitles"));
    assert!(!ffmpeg_filter_available(&Ok(" ... ass V->V".to_string()), "subtitles"));
}

#[test]
fn batch_inputs_and_summary() {
    assert!(wildcard_match("CLIP.MOV", "*.mov"));
    assert!(!wildcard_match("a12.mp4", "a?.mp4"));
    assert!(wildcard_match_bytes(b"", b"*"));
    assert!(!wildcard_match_bytes(b"", b"?"));
    assert!(is_media_extension(Some("MKV")));
    assert!(!is_media_extension(Some("txt")));
    assert!(!is_media_extension(None));
    assert_eq!(collect_inputs("x", true, false).unwrap(), InputKind::File);
    assert_eq!(collect_inputs("x", false, true).unwrap(), InputKind::Directory);
    assert_eq!(collect_inputs("v/*.mov", false, false).unwrap(), InputKind::Pattern);
    assert_eq!(collect_inputs("nothing", false, false).unwrap_err().message, "No files matched: nothing");
    assert_eq!(batch_format(None).unwrap_err().message, "Batch currently requires --convert FORMAT.");
    assert_eq!(batch_files_found(0).unwrap_err().code, ErrorCode::FileNotFound);
    assert_eq!(batch_summary(3, 3), ("success", 0));
    assert_eq!(batch_summary(3, 1), ("partial_success", 2));
}

#[test]
fn inspection_summarises_streams_by_kind() {
    let streams = vec![
        StreamInfo::new("video").with_codec_name("h264").with_pix_fmt("yuv420p10le"),
        StreamInfo::new("audio").with_codec_name("aac"),
        StreamInfo::new("data"),
        StreamInfo::new("subtitle").with_codec_name("subrip"),
    ];
    let summary = inspect_command(Some("mkv"), Some("matroska,webm"), &streams);
    assert_eq!(summary.video.len(), 1);
    assert_eq!(summary.video[0].bit_depth, Some(10));
    assert_eq!(summary.audio.len(), 1);
    assert_eq!(summary.subtitle[0].codec.as_deref(), Some("subrip"));
}

#[test]
fn repair_rewrites_timestamps() {
    assert_eq!(repaired_file_name(Some("clip"), None), "clip_repaired.mp4");
    let copy = repair_command("in.mp4", false, &av("h264", "aac"));
    assert_eq!(copy.strategy, "repair_copy");
    assert_eq!(copy.args.last().unwrap(), "copy");
    let encode = repair_command("in.mp4", true, &vec![StreamInfo::new("video")]);
    assert_eq!(encode.quality_loss, "possible");
    assert!(!encode.audio_present);
    assert!(encode.args.contains(&"libx264".to_string()));
    assert!(raw_ffmpeg_command(&vec![]).is_err());
}

#[test]
fn image_settings_map_to_encoder_arguments() {
    assert_eq!(image_quality_args("jpg", 90), strings(&["-q:v", "4"]));
    assert_eq!(image_quality_args("jpg", 100), strings(&["-q:v", "1"]));
    assert_eq!(image_quality_args("png", 40), strings(&["-compression_level", "5"]));
    assert_eq!(image_quality_args("webp", 85), strings(&["-q:v", "85"]));
    assert!(image_quality_args("bmp", 85).is_empty());
    assert_eq!(image_codec_args("tga"), strings(&["-c:v", "targa"]));
    assert!(image_codec_args("raw").is_empty());
    assert_eq!(validate_positive_dimension(Some(0), "Image width").unwrap_err().message, "Image width must be greater than zero.");
    assert_eq!(image_preflight(Ok(()), None, None, None, None, None, Some("JPEG"), Some("png")).unwrap(), "jpg");
    assert_eq!(image_preflight(Ok(()), None, None, Some(0), None, None, None, None).unwrap_err().message, "Image quality must be between 1 and 100.");
    let plan = image_command("in.png", "webp", Some(640), None, Some(90), Some("logo.png"), None).unwrap();
    assert_eq!(plan.quality, 90);
    assert_eq!(plan.quality_loss, "none");
    assert_eq!(
        plan.args,
        strings(&[
            "-i", "in.png", "-i", "logo.png", "-filter_complex",
            "[0:v]scale=640:-1,transpose=1[base];[base][1:v]overlay=W-w-16:H-h-16[v]",
            "-map", "[v]", "-frames:v", "1", "-c:v", "libwebp", "-q:v", "90",
        ])
    );
    assert!(image_command("in.png", "png", None, None, Some(45), None, None).is_err());
}

fn facts(finite: bool, negative: bool, positive: bool, over: bool) -> Result<TimeFacts, MediaError> {
    Ok(TimeFacts { finite, negative, positive, over_gif_limit: over })
}

#[test]
fn gif_limits_are_enforced() {
    let video = || Ok(vec![StreamInfo::new("video")]);
    assert!(gif_preflight(Ok(()), video(), 12, facts(true, false, true, false), facts(true, false, true, false), Some(480)).is_ok());
    assert_eq!(gif_preflight(Ok(()), video(), 61, facts(true, false, true, false), facts(true, false, true, false), None).unwrap_err().message, "GIF FPS must be between 1 and 60.");
    let long = gif_preflight(Ok(()), video(), 12, facts(true, false, true, false), facts(true, false, true, true), None).unwrap_err();
    assert_eq!(long.message, "GIF duration must not exceed 600 seconds.");
    assert_eq!(long.suggestions.len(), 1);
    assert_eq!(gif_preflight(Ok(()), video(), 12, facts(true, false, true, false), facts(true, false, true, false), Some(16385)).unwrap_err().message, "GIF width must not exceed 16384 pixels.");
    assert_eq!(gif_preflight(Ok(()), video(), 12, facts(true, false, true, false), facts(true, false, true, false), Some(0)).unwrap_err().message, "GIF width must be greater than zero.");
    assert_eq!(gif_preflight(Ok(()), video(), 12, facts(true, true, false, false), facts(true, false, true, false), None).unwrap_err().message, "GIF start must not be negative.");
    let (filter, args) = gif_command("1", "3", 12, Some(480), "in.mp4");
    assert_eq!(filter, "fps=12,scale=480:-1:flags=lanczos,split[s0][s1];[s0]palettegen=stats_mode=diff[p];[s1][p]paletteuse=dither=sierra2_4a");
    assert_eq!(args[0..6], strings(&["-ss", "1", "-i", "in.mp4", "-t", "3"])[..]);
}

#[test]
fn conversion_explains_each_stream_decision() {
    let plan = build_convert_plan("mp4", "webm", &av("h264", "aac"), "auto", "auto", HardwareMode::Cpu, Quality::Balanced, &listing(" V..... libvpx-vp9 VP9\n")).unwrap();
    assert_eq!(plan.strategy, "transcode");
    assert_eq!(plan.reasons, strings(&["H.264 video is not compatible with WEBM.", "AAC audio is not compatible with WEBM."]));
    assert_eq!(plan.hardware.selected, "cpu");
    assert_eq!(plan.hardware.reason, "Software encoding was explicitly requested.");
    assert_eq!(plan.video_encoder.as_deref(), Some("libvpx-vp9"));
    let copied = build_convert_plan("mkv", "mp4", &av("h264", "aac"), "auto", "mp3", HardwareMode::Auto, Quality::Balanced, &listing("")).unwrap();
    assert_eq!(copied.reasons, strings(&["H.264 video is compatible with MP4.", "Audio codec was explicitly requested as mp3."]));
    assert_eq!(copied.hardware.selected, "not_applicable");
}

#[test]
fn conversion_refusals_name_the_missing_encoder() {
    let no_mapping = build_convert_plan("mp4", "webm", &av("h264", "aac"), "auto", "auto", HardwareMode::Gpu, Quality::Balanced, &listing("")).unwrap_err();
    assert_eq!(no_mapping.code, ErrorCode::UnsupportedHardware);
    assert_eq!(no_mapping.message, "No hardware encoder mapping exists for video codec vp9.");
    let no_gpu = build_convert_plan("mkv", "mp4", &av("vp9", "aac"), "h265", "auto", HardwareMode::Gpu, Quality::Balanced, &listing(" V..... libx265 x265\n")).unwrap_err();
    assert_eq!(no_gpu.code, ErrorCode::EncoderUnavailable);
    assert_eq!(no_gpu.message, "No available GPU encoder was found for h265.");
    assert_eq!(no_gpu.suggestions, strings(&["Use --hardware cpu for a software encode.", "Run media capabilities to inspect available encoders."]));
    let no_software = build_convert_plan("mp4", "webm", &av("h264", "aac"), "auto", "auto", HardwareMode::Cpu, Quality::Balanced, &listing("")).unwrap_err();
    assert_eq!(no_software.code, ErrorCode::EncoderUnavailable);
    assert_eq!(no_software.message, "No software encoder is available for video codec vp9.");
    let failed = build_convert_plan("mp4", "webm", &av("h264", "aac"), "auto", "auto", HardwareMode::Cpu, Quality::Balanced, &Err(MediaError::new(ErrorCode::FfmpegNotFound, "ffmpeg is missing".to_string()))).unwrap_err();
    assert_eq!(failed.code, ErrorCode::FfmpegNotFound);
    assert_eq!(failed.message, "ffmpeg is missing");
    let audio = build_convert_plan("mp4", "mkv", &av("h264", "aac"), "auto", "xyz", HardwareMode::Auto, Quality::Balanced, &listing("")).unwrap_err();
    assert_eq!(audio.code, ErrorCode::UnsupportedCodec);
    assert_eq!(audio.message, "Unsupported audio codec: xyz");
    let encode = build_convert_plan("mp4", "webm", &av("h264", "aac"), "h264", "auto", HardwareMode::Cpu, Quality::Balanced, &listing(" V..... libx264 x264\n")).unwrap_err();
    assert_eq!(encode.message, "Cannot encode H.264 video into WEBM.");
    assert_eq!(encode.suggestions, strings(&["Use --video-codec auto to select a compatible codec.", "Choose a compatible target container."]));
    assert_eq!(convert_target(Some("xyz"), None, "mp4").unwrap_err().message, "Unsupported target container: xyz");
    assert_eq!(convert_target(None, Some("MKV"), "mp4").unwrap(), "mkv");
}

#[test]
fn a_lone_star_matches_every_name_and_names_match_themselves() {
    for name in ["", "clip.MOV", "a*b?.mp4", "video (1).mkv"] {
        assert!(wildcard_match(name, "*"));
        assert!(wildcard_match(name, name));
    }
    assert!(!wildcard_match("clip.mov", "clip.mp4"));
}

#[test]
fn quality_names_parse_back_to_their_preset() {
    for q in [Quality::Lossless, Quality::VeryHigh, Quality::High, Quality::Balanced, Quality::Small, Quality::Tiny] {
        assert_eq!(parse_quality_name(quality_name(q).to_string()).unwrap(), q);
    }
}

#[test]
fn verification_after_a_run_is_skipped_refused_or_passed() {
    assert_eq!(execution_outcome(false, Some(false)).unwrap(), VerificationStep::Skipped);
    assert_eq!(execution_outcome(true, Some(true)).unwrap(), VerificationStep::Verified);
    assert_eq!(execution_outcome(true, None).unwrap(), VerificationStep::Verified);
    let refused = execution_outcome(true, Some(false)).unwrap_err();
    assert_eq!(refused.code, ErrorCode::VerifyFailed);
    assert_eq!(refused.message, "FFmpeg completed but the output did not pass verification.");
    assert_eq!(
        custom_execution_outcome(true, Some(false)).unwrap_err().message,
        "Operation completed but the output did not pass verification."
    );
    assert_eq!(custom_execution_outcome(false, Some(false)).unwrap(), VerificationStep::Skipped);
}

#[test]
fn tool_clip_requests_need_a_start() {
    assert_eq!(tool_clip_start(Some("00:00:05".to_string())).unwrap(), "00:00:05");
    assert_eq!(tool_clip_start(None).unwrap_err().message, "Tool clip requests require start.");
}
