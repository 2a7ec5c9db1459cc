use mediaforge::audio::{
    audio_command, audio_preflight, bitrate_parts, extract_audio_command, extract_audio_target,
    thumbnail_command, validate_bitrate, AudioRequest,
};
use mediaforge::clip::{clip_command, clip_preflight, ClipTimes};
use mediaforge::compress::{compress_command, TargetSize};
use mediaforge::disc::{
    create_iso_command, disc_authoring_tool, disc_command, iso_tool_unavailable, DiscStep,
};
use mediaforge::edit::{edit_command, edit_preflight, escape_filter_path, EditRequest, SpeedChange, VolumeChange};
use mediaforge::merge::merge_command;
use mediaforge::model::{ErrorCode, HardwareMode, MediaError, Quality, StreamInfo};
use mediaforge::resize::{even_dimension, parse_resolution, resize_command, resize_target};

fn strings(items: &[&str]) -> Vec<String> {
    items.iter().map(|s| s.to_string()).collect()
}

fn av(video: &str, audio: &str) -> Vec<StreamInfo> {
    vec![StreamInfo::new("video").with_codec_name(video), StreamInfo::new("audio").with_codec_name(audio)]
}

fn audio_only(codec: &str) -> Vec<StreamInfo> {
    vec![StreamInfo::new("audio").with_codec_name(codec)]
}

fn listing(text: &str) -> Result<String, MediaError> {
    Ok(text.to_string())
}

const ENCODERS: &str = " V....D libx264              libx264 H.264\n V....D h264_nvenc           NVIDIA NVENC\n A....D aac                  AAC\n";

#[test]
fn merge_needs_two_inputs_and_a_known_mode() {
    let one = merge_command(&strings(&["a.mp4"]), "concat", Ok(()), Ok(vec![]), false, None);
    assert_eq!(one.unwrap_err().message, "Merge requires at least two input files.");
    let bad = merge_command(&strings(&["a.mp4", "b.mp4"]), "stack", Ok(()), Ok(vec![av("h264", "aac"), av("h264", "aac")]), false, None);
    assert_eq!(bad.unwrap_err().message, "Merge mode must be concat, mux, or mix.");
    let three = merge_command(&strings(&["a", "b", "c"]), "mix", Ok(()), Ok(vec![]), false, None);
    assert_eq!(three.unwrap_err().message, "Mux and mix require exactly two inputs.");
}

#[test]
fn concat_builds_one_filter_graph() {
    let plan = merge_command(&strings(&["a.mp4", "b.mp4"]), "Concat", Ok(()), Ok(vec![av("h264", "aac"), av("h264", "aac")]), false, None).unwrap();
    assert_eq!(plan.mode, "concat");
    assert_eq!(plan.output_extension, "mp4");
    assert_eq!(plan.quality_loss, "possible");
    assert!(plan.video_present && plan.audio_present);
    assert_eq!(
        plan.args,
        strings(&[
            "-i", "a.mp4", "-i", "b.mp4", "-filter_complex",
            "[0:v:0][0:a:0][1:v:0][1:a:0]concat=n=2:v=1:a=1[v][a]",
            "-map", "[v]", "-c:v", "libx264", "-preset", "medium", "-crf", "23",
            "-map", "[a]", "-c:a", "aac", "-b:a", "256k",
        ])
    );
}

#[test]
fn mux_copies_and_checks_stream_order() {
    let plan = merge_command(&strings(&["v.mp4", "a.m4a"]), "MUX", Ok(()), Ok(vec![av("h264", "aac"), audio_only("aac")]), true, Some("mkv")).unwrap();
    assert_eq!(plan.quality_loss, "none");
    assert_eq!(plan.output_extension, "mkv");
    assert_eq!(&plan.args[4..], &strings(&["-map", "0:v:0", "-map", "1:a:0", "-c:v", "copy", "-c:a", "copy"])[..]);
    let wrong = merge_command(&strings(&["a.m4a", "v.mp4"]), "mux", Ok(()), Ok(vec![audio_only("aac"), av("h264", "aac")]), false, None);
    assert_eq!(wrong.unwrap_err().code, ErrorCode::InvalidMedia);
}

#[test]
fn audio_only_mix_writes_m4a() {
    let plan = merge_command(&strings(&["a.wav", "b.wav"]), "mix", Ok(()), Ok(vec![audio_only("pcm_s16le"), audio_only("pcm_s16le")]), false, None).unwrap();
    assert_eq!(plan.output_extension, "m4a");
    assert!(!plan.video_present);
    let silent = merge_command(&strings(&["a.mp4", "b.wav"]), "mix", Ok(()), Ok(vec![vec![StreamInfo::new("video")], audio_only("aac")]), false, None);
    assert_eq!(silent.unwrap_err().message, "Mix expects audio streams in both inputs.");
}

#[test]
fn disc_extraction_routes_by_kind() {
    match disc_command(true, false, "disc", "/dev/sr0", "CD", "extract", None).unwrap() {
        DiscStep::Extract(plan) => {
            assert_eq!(plan.format, "flac");
            assert_eq!(plan.extension, "flac");
            assert_eq!(plan.strategy, "disc_transcode");
            assert_eq!(plan.args, strings(&["-i", "/dev/sr0", "-map", "0:a?", "-vn", "-c:a", "flac"]));
        }
        DiscStep::CreateIso(_) => panic!("expected an extraction"),
    }
    match disc_command(true, false, "img", "img.iso", "iso", "remux", Some("mkv")).unwrap() {
        DiscStep::Extract(plan) => {
            assert_eq!(plan.strategy, "disc_copy");
            assert_eq!(plan.args, strings(&["-i", "img.iso", "-map", "0", "-c", "copy"]));
        }
        DiscStep::CreateIso(_) => panic!("expected an extraction"),
    }
    assert_eq!(disc_command(false, false, "x", "x", "dvd", "extract", None).unwrap_err().message, "Disc source does not exist: x");
    assert_eq!(disc_command(true, false, "x", "x", "bluray", "extract", None).unwrap_err().message, "Disc kind must be dvd, cd, or iso.");
    assert_eq!(disc_command(true, false, "x", "x", "dvd", "author", None).unwrap_err().code, ErrorCode::InvalidArgument);
    assert!(matches!(disc_command(true, true, "x", "x", "dvd", "write-iso", None).unwrap(), DiscStep::CreateIso(k) if k == "dvd"));
}

#[test]
fn iso_authoring_checks_the_label_and_picks_tool_arguments() {
    let plan = create_iso_command("dvd", None, Some("xorriso"), "out.iso", "dir").unwrap();
    assert_eq!(plan.label, "MEDIAFORGE-DVD");
    assert_eq!(plan.tool.as_deref(), Some("xorriso"));
    assert_eq!(plan.tool_args, strings(&["-as", "mkisofs", "-quiet", "-J", "-R", "-V", "MEDIAFORGE-DVD", "-o", "out.iso", "dir"]));
    let none = create_iso_command("cd", Some("MY DISC"), None, "out.iso", "dir").unwrap();
    assert!(none.tool.is_none() && none.tool_args.is_empty());
    assert!(create_iso_command("cd", Some(""), None, "o", "d").is_err());
    assert!(create_iso_command("cd", Some(&"x".repeat(33)), None, "o", "d").is_err());
    assert!(create_iso_command("cd", Some(&"é".repeat(17)), None, "o", "d").is_err());
    assert!(create_iso_command("cd", Some("tab\there"), None, "o", "d").is_err());
    assert_eq!(disc_authoring_tool(false, true, true, true), Some("genisoimage"));
    assert_eq!(disc_authoring_tool(false, false, false, false), None);
    assert_eq!(iso_tool_unavailable("in", "out").code, ErrorCode::DiscToolUnavailable);
}

fn edit_request() -> EditRequest {
    EditRequest {
        input: "in.mp4".to_string(),
        crop: Some("640:360:0:0".to_string()),
        rotate: Some(180),
        filter: Some("Gray".to_string()),
        speed: Some(SpeedChange { in_range: true, factor_text: "2.000000".to_string(), tempo_filter: "atempo=2.000000".to_string() }),
        volume: Some(VolumeChange { in_range: true, level_text: "0.500000".to_string() }),
        subtitle: None,
        subtitle_style: None,
        start: Some("5".to_string()),
        duration: Some("10".to_string()),
    }
}

#[test]
fn edit_chains_filters_in_order() {
    let args = edit_command(&edit_request(), Ok(()), Ok(true)).unwrap();
    assert_eq!(
        args,
        strings(&[
            "-ss", "5", "-i", "in.mp4", "-map", "0:v:0", "-map", "0:a?", "-t", "10",
            "-vf", "crop=640:360:0:0,hflip,vflip,hue=s=0,setpts=PTS/2.000000",
            "-c:v", "libx264", "-preset", "medium", "-crf", "20",
            "-af", "atempo=2.000000,volume=0.500000",
            "-c:a", "aac", "-b:a", "256k",
        ])
    );
    let zero = edit_command(&edit_request(), Ok(()), Ok(false)).unwrap_err();
    assert_eq!(zero.message, "Edit duration must be greater than zero.");
}

#[test]
fn edit_preflight_checks_in_order() {
    let mut req = edit_request();
    assert_eq!(edit_preflight(&req, Ok(()), Ok(audio_only("aac")), Ok(()), true, false, "").unwrap_err().message, "Edit requires a video stream.");
    req.speed = Some(SpeedChange { in_range: false, factor_text: String::new(), tempo_filter: String::new() });
    assert_eq!(edit_preflight(&req, Ok(()), Ok(av("h264", "aac")), Ok(()), true, false, "").unwrap_err().message, "Speed must be between 0.25 and 4.0.");
    req.speed = None;
    req.subtitle_style = Some("FontSize=20".to_string());
    assert_eq!(edit_preflight(&req, Ok(()), Ok(av("h264", "aac")), Ok(()), true, false, "").unwrap_err().message, "Subtitle style requires --subtitle.");
    req.subtitle = Some("subs.srt".to_string());
    let unavailable = edit_preflight(&req, Ok(()), Ok(av("h264", "aac")), Ok(()), false, false, "/abs/subs.srt").unwrap_err();
    assert_eq!(unavailable.code, ErrorCode::FilterUnavailable);
    let planned = edit_preflight(&req, Ok(()), Ok(av("h264", "aac")), Ok(()), false, true, "/abs/subs.srt").unwrap();
    assert_eq!(planned.warnings.len(), 1);
    assert!(planned.audio_present);
}

#[test]
fn filter_paths_are_escaped() {
    assert_eq!(escape_filter_path("C:\\subs\\it's.srt"), "C\\:\\\\subs\\\\it\\'s.srt");
}

fn times(start_negative: bool, duration: Option<bool>, end: Option<bool>) -> ClipTimes {
    ClipTimes {
        start: "0".to_string(),
        start_negative: Ok(start_negative),
        start_is_zero: !start_negative,
        duration: duration.map(|d| ("30".to_string(), Ok(d))),
        end: end.map(|e| ("40".to_string(), Ok(e), "40.000".to_string())),
    }
}

#[test]
fn clip_preflight_rejects_bad_ranges() {
    assert_eq!(clip_preflight(&times(false, None, None), Ok(())).unwrap_err().message, "Provide --duration or --end.");
    assert_eq!(clip_preflight(&times(false, Some(true), Some(true)), Ok(())).unwrap_err().message, "Use only one of --duration or --end.");
    assert_eq!(clip_preflight(&times(true, Some(true), None), Ok(())).unwrap_err().message, "Clip start must not be negative.");
    assert_eq!(clip_preflight(&times(false, Some(false), None), Ok(())).unwrap_err().message, "Clip duration must be greater than zero.");
    assert_eq!(clip_preflight(&times(false, None, Some(false)), Ok(())).unwrap_err().message, "Clip end must be after start.");
    assert!(clip_preflight(&times(false, None, Some(true)), Ok(())).is_ok());
}

#[test]
fn clip_copies_compatible_mp4_from_zero() {
    let plan = clip_command(&times(false, Some(true), None), "in.mp4", &av("h264", "aac"), "mp4", &listing(ENCODERS)).unwrap();
    assert!(plan.stream_copy);
    assert_eq!(plan.args, strings(&["-map", "0", "-t", "30", "-c", "copy", "-map_metadata", "0", "-map_chapters", "0"]));
    let precise = clip_command(&times(false, None, Some(true)), "in.mkv", &av("h264", "aac"), "mkv", &listing(ENCODERS)).unwrap();
    assert!(!precise.stream_copy);
    assert_eq!(precise.encoder.as_deref(), Some("libx264"));
    assert_eq!(&precise.args[..10], &strings(&["-ss", "0", "-i", "in.mkv", "-map", "0:v:0", "-map", "0:a?", "-t", "40.000"])[..]);
    assert!(clip_command(&times(false, None, Some(true)), "in.mkv", &av("h264", "aac"), "mkv", &listing("")).is_err());
}

#[test]
fn bitrates_keep_their_unit() {
    let (number, unit) = bitrate_parts(" 128K ").unwrap();
    assert_eq!((number.as_str(), unit), ("128", "k"));
    assert_eq!(validate_bitrate("128K", &number, unit, true).unwrap(), "128k");
    assert_eq!(validate_bitrate("x", "x", "", false).unwrap_err().message, "Invalid audio bitrate: x");
    assert_eq!(bitrate_parts("  ").unwrap_err().message, "Audio bitrate cannot be empty.");
    assert_eq!(bitrate_parts("2m").unwrap().1, "M");
}

fn audio_request(format: &str) -> AudioRequest {
    AudioRequest {
        input: "in.mp4".to_string(),
        format: format.to_string(),
        bitrate: None,
        sample_rate: None,
        channels: None,
        volume: None,
        start: None,
        duration: None,
    }
}

#[test]
fn audio_conversion_copies_when_nothing_changes() {
    let req = audio_request("M4A");
    let check = audio_preflight(&req, Ok(()), Ok(av("h264", "AAC"))).unwrap();
    assert_eq!((check.format.as_str(), check.extension.as_str(), check.bitrate.as_str()), ("m4a", "m4a", "256k"));
    let plan = audio_command(&req, &check, Ok(()), Ok(true)).unwrap();
    assert!(plan.copy);
    assert_eq!(plan.args, strings(&["-i", "in.mp4", "-map", "0:a:0", "-vn", "-c:a", "copy", "-map_metadata", "0"]));
}

#[test]
fn audio_conversion_transcodes_with_changes() {
    let mut req = audio_request("mp3");
    req.sample_rate = Some(44100);
    req.channels = Some(2);
    req.bitrate = Some(Ok("128k".to_string()));
    let check = audio_preflight(&req, Ok(()), Ok(audio_only("aac"))).unwrap();
    let plan = audio_command(&req, &check, Ok(()), Ok(true)).unwrap();
    assert_eq!(plan.target_codec, "mp3");
    assert_eq!(plan.args, strings(&["-i", "in.mp4", "-map", "0:a:0", "-vn", "-c:a", "libmp3lame", "-b:a", "128k", "-ar", "44100", "-ac", "2", "-map_metadata", "0"]));
    req.channels = Some(0);
    assert_eq!(audio_preflight(&req, Ok(()), Ok(audio_only("aac"))).unwrap_err().message, "Channels must be greater than zero.");
    assert_eq!(audio_preflight(&audio_request("xyz"), Ok(()), Ok(audio_only("aac"))).unwrap_err().code, ErrorCode::UnsupportedFormat);
}

#[test]
fn extraction_copies_compatible_audio() {
    assert_eq!(extract_audio_target(".FLAC", Ok(())).unwrap(), ("flac".to_string(), "flac".to_string()));
    let copy = extract_audio_command("m4a", Ok(av("h264", "aac"))).unwrap();
    assert!(copy.copy);
    assert_eq!(copy.args, strings(&["-map", "0:a:0", "-vn", "-c:a", "copy", "-map_metadata", "0"]));
    let alac = extract_audio_command("alac", Ok(av("h264", "aac"))).unwrap();
    assert_eq!(alac.args, strings(&["-map", "0:a:0", "-vn", "-c:a", "alac", "-f", "ipod", "-map_metadata", "0"]));
    assert_eq!(extract_audio_command("mp3", Ok(vec![StreamInfo::new("video")])).unwrap_err().message, "No audio stream was found.");
    assert_eq!(thumbnail_command(Ok("2.500".to_string()), "in.mp4").unwrap(), strings(&["-ss", "2.500", "-i", "in.mp4", "-frames:v", "1", "-q:v", "2"]));
}

#[test]
fn target_size_compression_uses_two_software_passes() {
    let target = TargetSize { bytes: Ok(10_000_000), video_bitrate: Some(1_000_000) };
    let plan = compress_command(&av("h264", "aac"), Quality::Balanced, HardwareMode::Auto, &listing(ENCODERS), Some(target)).unwrap();
    assert!(plan.two_pass);
    assert!(!plan.hardware_encoder);
    assert!(!plan.args.contains(&"-crf".to_string()));
    assert!(plan.args.windows(2).any(|w| w == ["-bufsize", "2000000"]));
    assert_eq!(plan.notes[0], "Compressing h264 video with the Balanced quality preset.");
    assert_eq!(plan.notes.last().unwrap(), "Target size is approximately 10000000 bytes.");
}

#[test]
fn gpu_compression_is_single_pass_with_a_bitrate() {
    let plan = compress_command(&av("hevc", "aac"), Quality::Balanced, HardwareMode::Gpu, &listing(ENCODERS), None).unwrap();
    assert_eq!(plan.encoder, "h264_nvenc");
    assert!(!plan.two_pass);
    assert_eq!(&plan.args[4..], &strings(&["-c:v", "h264_nvenc", "-b:v", "3M", "-c:a", "aac", "-b:a", "256k", "-map_metadata", "0", "-map_chapters", "0"])[..]);
    let unknown = TargetSize { bytes: Ok(1), video_bitrate: None };
    let error = compress_command(&av("h264", "aac"), Quality::Small, HardwareMode::Cpu, &listing(ENCODERS), Some(unknown)).unwrap_err();
    assert_eq!(error.message, "Target-size compression requires a known duration.");
    assert_eq!(compress_command(&audio_only("aac"), Quality::Small, HardwareMode::Cpu, &listing(ENCODERS), None).unwrap_err().message, "No video stream was found.");
}

#[test]
fn resize_rounds_to_even_dimensions() {
    assert_eq!(parse_resolution("720P").unwrap(), 720);
    assert_eq!(parse_resolution("abc").unwrap_err().message, "Invalid resolution: abc");
    assert_eq!(even_dimension(719).unwrap(), 720);
    assert_eq!(even_dimension(720).unwrap(), 720);
    assert!(even_dimension(u32::MAX).is_err());
    let target = resize_target(Ok(()), Some(1279), None).unwrap();
    assert_eq!((target.axis, target.requested, target.effective), ("width", 1279, 1280));
    assert_eq!(resize_target(Ok(()), Some(0), None).unwrap_err().message, "Resize width must be greater than zero.");
    let plan = resize_command(&target, &av("h264", "aac"), &listing(ENCODERS)).unwrap();
    assert_eq!(plan.filter, "scale=1280:-2");
    assert_eq!(plan.warnings, strings(&["Requested width 1279 was rounded to 1280 for an even encoder-compatible dimension."]));
    let height = resize_target(Ok(()), None, Some("1080p")).unwrap();
    assert_eq!(resize_command(&height, &av("h264", "aac"), &listing(ENCODERS)).unwrap().filter, "scale=-2:1080");
}

#[test]
fn resize_and_disc_refusals_are_exact() {
    assert_eq!(
        resize_target(Ok(()), Some(u32::MAX), None).unwrap_err().message,
        "Resize dimension is too large to round to an even value."
    );
    assert_eq!(resize_target(Ok(()), None, Some("0p")).unwrap_err().message, "Resolution must be greater than zero.");
    assert_eq!(resize_target(Ok(()), None, Some("tall")).unwrap_err().message, "Invalid resolution: tall");
    let cd = disc_command(true, false, "x", "x", "cd", "extract", Some("mkv")).unwrap_err();
    assert_eq!((cd.code, cd.message.as_str()), (ErrorCode::UnsupportedFormat, "Unsupported audio format: mkv"));
    let dvd = disc_command(true, false, "x", "x", "dvd", "extract", Some("xyz")).unwrap_err();
    assert_eq!((dvd.code, dvd.message.as_str()), (ErrorCode::UnsupportedFormat, "Unsupported target container: xyz"));
}
