use mediaforge::batch::wildcard_match;
use mediaforge::codec::{
    audio_encode_args, default_audio_codec_for_container, default_video_codec_for_container,
    hardware_encoder_candidates, hardware_quality_bitrate, is_audio_compatible,
    is_hardware_encoder, is_video_compatible, software_encoder_candidates,
    validate_transcode_compatibility, video_encode_args,
};
use mediaforge::edit::{named_video_filter, parse_crop, rotate_filter, subtitle_filter};
use mediaforge::model::{HardwareMode, Quality, StreamInfo};
use mediaforge::names::{
    audio_codec_for_format, audio_copy_compatible, audio_output_extension, default_disc_kind,
    normalize_audio_format, normalize_container, normalize_disc_action, normalize_image_format,
    normalize_operation, parse_hardware_name, parse_quality_name,
};
use mediaforge::output::build_ffmpeg_args;
use mediaforge::presets::{device_presets, device_profile};
use mediaforge::process::{append_stderr_tail, format_clock, option_value, MAX_CAPTURED_STDERR_BYTES};
use mediaforge::resize::parse_resolution;
use mediaforge::streams::{
    bit_depth, stream_count, subtitle_codec_args, subtitle_ffmpeg_args, subtitle_strategy,
    subtitle_warnings,
};

fn check_ffmpeg_args_require_explicit_overwrite() {
    let operation_args = vec!["-c".to_string(), "copy".to_string()];
    let safe_args = build_ffmpeg_args("input.mp4", "output.mp4", &operation_args, false);
    assert_eq!(safe_args.get(2).map(String::as_str), Some("-n"));
    let overwrite_args = build_ffmpeg_args("input.mp4", "output.mp4", &operation_args, true);
    assert_eq!(overwrite_args.get(2).map(String::as_str), Some("-y"));
}

#[test]
fn tests_ffmpeg_args_require_explicit_overwrite() {
    check_ffmpeg_args_require_explicit_overwrite();
}

#[test]
fn main_ffmpeg_args_require_explicit_overwrite() {
    check_ffmpeg_args_require_explicit_overwrite();
}

fn check_wildcard_match_supports_globs() {
    assert!(wildcard_match("clip-01.mov", "*.mov"));
    assert!(wildcard_match("a1.mp4", "a?.mp4"));
    assert!(!wildcard_match("clip.wav", "*.mov"));
}

#[test]
fn tests_wildcard_match_supports_globs() {
    check_wildcard_match_supports_globs();
}

#[test]
fn main_wildcard_match_supports_globs() {
    check_wildcard_match_supports_globs();
}

fn check_parses_agent_tool_request_and_aliases() {
    let request: serde_json::Value = serde_json::from_str(
        r#"{"operation":"extract-audio","input":"in.mp4","format":"flac","quality":"tiny","dry_run":true,"verify_after_execute":false}"#,
    )
    .unwrap();
    assert_eq!(request["operation"].as_str(), Some("extract-audio"));
    assert_eq!(normalize_operation("convert_media"), "convert");
    assert_eq!(normalize_operation("plan-media-operation"), "plan");
    assert_eq!(normalize_operation("create_thumbnail"), "thumbnail");
    assert_eq!(request["verify_after_execute"].as_bool(), Some(false));
    assert_eq!(request["quality"].as_str(), Some("tiny"));
    assert!(hardware_encoder_candidates("h264").contains(&"h264_videotoolbox"));
    assert_eq!(hardware_quality_bitrate(Quality::Balanced), "3M");
    assert_eq!(
        parse_quality_name("very_high".to_string()).unwrap() as u8,
        Quality::VeryHigh as u8
    );
    assert!(matches!(parse_hardware_name("gpu".to_string()), Ok(HardwareMode::Gpu)));
}

#[test]
fn tests_parses_agent_tool_request_and_aliases() {
    check_parses_agent_tool_request_and_aliases();
}

#[test]
fn main_parses_agent_tool_request_and_aliases() {
    check_parses_agent_tool_request_and_aliases();
}

fn check_audio_extraction_prefers_copy_for_compatible_codecs() {
    assert_eq!(audio_codec_for_format("m4a"), "aac");
    assert!(audio_copy_compatible("aac", "m4a"));
    assert!(audio_copy_compatible("pcm_s16le", "wav"));
    assert!(!audio_copy_compatible("aac", "flac"));
}

#[test]
fn tests_audio_extraction_prefers_copy_for_compatible_codecs() {
    check_audio_extraction_prefers_copy_for_compatible_codecs();
}

#[test]
fn main_audio_extraction_prefers_copy_for_compatible_codecs() {
    check_audio_extraction_prefers_copy_for_compatible_codecs();
}

fn check_progress_duration_and_stream_counts_are_deterministic() {
    let args = vec!["-t".to_string(), "00:01:30".to_string()];
    assert_eq!(option_value(&args, "-t").as_deref(), Some("00:01:30"));
    assert_eq!(format_clock(65), "01:05");
    assert_eq!(format_clock(3661), "01:01:01");
    let streams = vec![
        StreamInfo::new("video"),
        StreamInfo::new("audio"),
        StreamInfo::new("subtitle").with_codec_name("subrip"),
        StreamInfo::new("subtitle").with_codec_name("subrip"),
    ];
    assert_eq!(stream_count(&streams, "video"), 1);
    assert_eq!(stream_count(&streams, "subtitle"), 2);
    assert_eq!(subtitle_strategy("mp4", &streams), "convert_to_mov_text");
    let mut stderr: Vec<u8> = Vec::new();
    append_stderr_tail(&mut stderr, "x".repeat(MAX_CAPTURED_STDERR_BYTES + 10).as_bytes());
    assert_eq!(stderr.len(), MAX_CAPTURED_STDERR_BYTES);
}

#[test]
fn tests_progress_duration_and_stream_counts_are_deterministic() {
    check_progress_duration_and_stream_counts_are_deterministic();
}

#[test]
fn main_progress_duration_and_stream_counts_are_deterministic() {
    check_progress_duration_and_stream_counts_are_deterministic();
}

fn check_validates_numeric_ranges_and_clamps_thumbnail_end() {
    assert!(parse_resolution("0p").is_err());
}

#[test]
fn tests_validates_numeric_ranges_and_clamps_thumbnail_end() {
    check_validates_numeric_ranges_and_clamps_thumbnail_end();
}

#[test]
fn main_validates_numeric_ranges_and_clamps_thumbnail_end() {
    check_validates_numeric_ranges_and_clamps_thumbnail_end();
}

fn check_convert_quality_changes_transcode_crf() {
    for (quality, expected_crf) in [
        ("lossless", "0"),
        ("very-high", "18"),
        ("high", "20"),
        ("balanced", "23"),
        ("small", "28"),
        ("tiny", "32"),
    ] {
        let args = video_encode_args("h264", quality, None).unwrap();
        assert!(args.windows(2).any(|pair| pair == ["-crf", expected_crf]));
    }
}

#[test]
fn tests_convert_quality_changes_transcode_crf() {
    check_convert_quality_changes_transcode_crf();
}

#[test]
fn main_convert_quality_changes_transcode_crf() {
    check_convert_quality_changes_transcode_crf();
}

fn check_software_encoder_overrides_are_reflected_in_codec_args() {
    assert_eq!(software_encoder_candidates("av1"), ["libsvtav1", "libaom-av1"]);
    let args = video_encode_args("av1", "tiny", Some("libsvtav1")).unwrap();
    assert_eq!(args.get(1).map(String::as_str), Some("libsvtav1"));
    let vp9 = video_encode_args("vp9", "balanced", Some("libvpx-vp9")).unwrap();
    assert_eq!(vp9.get(1).map(String::as_str), Some("libvpx-vp9"));
    assert_eq!(default_video_codec_for_container("webm"), "vp9");
    assert_eq!(default_audio_codec_for_container("webm"), "opus");
    assert!(validate_transcode_compatibility("video", "transcode", "h264", "webm").is_err());
    assert!(!is_hardware_encoder("libsvtav1"));
    assert!(is_hardware_encoder("h264_videotoolbox"));
}

#[test]
fn tests_software_encoder_overrides_are_reflected_in_codec_args() {
    check_software_encoder_overrides_are_reflected_in_codec_args();
}

#[test]
fn main_software_encoder_overrides_are_reflected_in_codec_args() {
    check_software_encoder_overrides_are_reflected_in_codec_args();
}

fn check_subtitle_mapping_does_not_duplicate_existing_full_map() {
    let streams = vec![StreamInfo::new("subtitle")];
    assert_eq!(subtitle_ffmpeg_args("mp4", &streams), ["-map", "0:s?", "-c:s", "mov_text"]);
    assert_eq!(subtitle_codec_args("mp4", &streams), ["-c:s", "mov_text"]);
}

#[test]
fn tests_subtitle_mapping_does_not_duplicate_existing_full_map() {
    check_subtitle_mapping_does_not_duplicate_existing_full_map();
}

#[test]
fn main_subtitle_mapping_does_not_duplicate_existing_full_map() {
    check_subtitle_mapping_does_not_duplicate_existing_full_map();
}

fn check_unsupported_subtitle_codecs_are_explicitly_warned() {
    let streams = vec![StreamInfo::new("subtitle").with_codec_name("hdmv_pgs_subtitle")];
    assert_eq!(subtitle_strategy("mp4", &streams), "warning");
    assert_eq!(subtitle_warnings(&streams, "mp4").len(), 1);
}

#[test]
fn tests_unsupported_subtitle_codecs_are_explicitly_warned() {
    check_unsupported_subtitle_codecs_are_explicitly_warned();
}

#[test]
fn main_unsupported_subtitle_codecs_are_explicitly_warned() {
    check_unsupported_subtitle_codecs_are_explicitly_warned();
}

fn check_derives_video_bit_depth_from_pixel_format() {
    assert_eq!(bit_depth(&StreamInfo::unknown().with_pix_fmt("yuv420p10le")), Some(10));
    assert_eq!(bit_depth(&StreamInfo::unknown().with_pix_fmt("yuv420p")), Some(8));
    assert_eq!(bit_depth(&StreamInfo::unknown()), None);
}

#[test]
fn tests_derives_video_bit_depth_from_pixel_format() {
    check_derives_video_bit_depth_from_pixel_format();
}

#[test]
fn main_derives_video_bit_depth_from_pixel_format() {
    check_derives_video_bit_depth_from_pixel_format();
}

fn check_expanded_format_matrix_routes_audio_and_video_codecs() {
    assert_eq!(normalize_container("wmv").unwrap(), "wmv");
    assert_eq!(normalize_container("3gp").unwrap(), "3gp");
    assert_eq!(normalize_audio_format("wma").unwrap(), "wma");
    assert_eq!(audio_codec_for_format("ogg"), "vorbis");
    assert_eq!(audio_output_extension("alac"), "m4a");
    assert!(is_video_compatible("flv", "h264"));
    assert!(is_audio_compatible("wmv", "wmav2"));
    assert!(!is_audio_compatible("mpeg", "aac"));
    assert!(is_audio_compatible("vob", "ac3"));
    assert!(software_encoder_candidates("mpeg2video").contains(&"mpeg2video"));
    assert!(audio_encode_args("vorbis", "96k").unwrap().contains(&"-strict".to_string()));
}

#[test]
fn tests_expanded_format_matrix_routes_audio_and_video_codecs() {
    check_expanded_format_matrix_routes_audio_and_video_codecs();
}

#[test]
fn main_expanded_format_matrix_routes_audio_and_video_codecs() {
    check_expanded_format_matrix_routes_audio_and_video_codecs();
}

fn check_image_and_edit_helpers_validate_safe_operations() {
    assert_eq!(normalize_image_format(".jpeg").unwrap(), "jpg");
    assert_eq!(rotate_filter(90).unwrap(), "transpose=1");
    assert!(rotate_filter(45).is_err());
    assert_eq!(parse_crop("320:240:0:0").unwrap(), "crop=320:240:0:0");
    assert!(parse_crop("320x240").is_err());
    assert_eq!(named_video_filter("grayscale").unwrap(), "hue=s=0");
}

#[test]
fn tests_image_and_edit_helpers_validate_safe_operations() {
    check_image_and_edit_helpers_validate_safe_operations();
}

#[test]
fn main_image_and_edit_helpers_validate_safe_operations() {
    check_image_and_edit_helpers_validate_safe_operations();
}

fn check_subtitle_styles_and_disc_actions_are_bounded() {
    let subtitle =
        subtitle_filter("captions.srt", Some("FontSize=24,PrimaryColour=&H00FFFFFF")).unwrap();
    assert!(subtitle.contains("force_style='FontSize=24,PrimaryColour=&H00FFFFFF'"));
    assert!(subtitle_filter("captions.srt", Some("bad;graph")).is_err());
    assert!(normalize_disc_action("create-iso").is_ok());
    assert_eq!(default_disc_kind("disc"), "dvd");
}

#[test]
fn tests_subtitle_styles_and_disc_actions_are_bounded() {
    check_subtitle_styles_and_disc_actions_are_bounded();
}

#[test]
fn main_subtitle_styles_and_disc_actions_are_bounded() {
    check_subtitle_styles_and_disc_actions_are_bounded();
}

fn check_gif_alias_is_normalized() {
    assert!(normalize_operation("video-to-gif") == "video_to_gif");
    assert_eq!(normalize_operation("gif-convert"), "gif_convert");
}

#[test]
fn tests_gif_alias_is_normalized() {
    check_gif_alias_is_normalized();
}

#[test]
fn main_gif_alias_is_normalized() {
    check_gif_alias_is_normalized();
}

fn check_device_presets_are_explicit_and_deterministic() {
    let profile = device_profile("psp").unwrap();
    assert_eq!(profile.container, "mp4");
    assert_eq!(profile.max_height, 480);
    assert!(device_profile("unknown").is_err());
    assert_eq!(device_presets().len(), 5);
}

#[test]
fn tests_device_presets_are_explicit_and_deterministic() {
    check_device_presets_are_explicit_and_deterministic();
}

#[test]
fn main_device_presets_are_explicit_and_deterministic() {
    check_device_presets_are_explicit_and_deterministic();
}
