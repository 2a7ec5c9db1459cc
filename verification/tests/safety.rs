use mediaforge::model::{ErrorCode, HardwareMode, MediaError, Quality};
use mediaforge::output::{
    build_ffmpeg_args, candidate_file_name, ensure_input, first_pass_args, is_passlog_file,
    plan_run_args, resolve_output, second_pass_args, OutputChoice,
};
use mediaforge::process::{
    append_stderr_tail, format_clock, option_value, process_failure_error,
    MAX_CAPTURED_STDERR_BYTES,
};
use mediaforge::routing::{base_context, json_requested, tool_context};

fn strings(items: &[&str]) -> Vec<String> {
    items.iter().map(|s| s.to_string()).collect()
}

#[test]
fn explicit_output_equal_to_input_is_refused() {
    let error = resolve_output(true, true, true, true).unwrap_err();
    assert_eq!(error.code, ErrorCode::OutputConflict);
    assert_eq!(error.message, "Input and output paths must be different.");
    assert_eq!(error.suggestions.len(), 2);
}

#[test]
fn derived_output_equal_to_input_gets_a_numbered_name() {
    assert_eq!(resolve_output(false, true, true, false).unwrap(), OutputChoice::NextAvailable);
    assert_eq!(resolve_output(false, true, false, true).unwrap(), OutputChoice::NextAvailable);
}

#[test]
fn existing_output_is_kept_unless_overwrite_is_explicit() {
    assert_eq!(resolve_output(true, false, true, false).unwrap(), OutputChoice::NextAvailable);
    assert_eq!(resolve_output(true, false, true, true).unwrap(), OutputChoice::Requested);
    assert_eq!(resolve_output(false, false, false, false).unwrap(), OutputChoice::Requested);
}

#[test]
fn numbered_candidates_follow_the_stem() {
    assert_eq!(candidate_file_name("video", 1, Some("mp4")), "video_1.mp4");
    assert_eq!(candidate_file_name("video", 12, None), "video_12");
}

#[test]
fn full_ffmpeg_command_line_is_exact() {
    let args = build_ffmpeg_args("in.mkv", "out.mp4", &strings(&["-c", "copy"]), false);
    assert_eq!(args, strings(&["-hide_banner", "-nostdin", "-n", "-i", "in.mkv", "-c", "copy", "out.mp4"]));
}

#[test]
fn plan_arguments_with_own_inputs_are_not_given_another() {
    let own = plan_run_args("a.mp4", "o.mp4", &strings(&["-i", "a.mp4", "-i", "b.mp4", "-map", "0"]), true);
    assert_eq!(own, strings(&["-hide_banner", "-nostdin", "-y", "-i", "a.mp4", "-i", "b.mp4", "-map", "0", "o.mp4"]));
    let plain = plan_run_args("a.mp4", "o.mp4", &strings(&["-map", "0"]), false);
    assert_eq!(plain, strings(&["-hide_banner", "-nostdin", "-n", "-i", "a.mp4", "-map", "0", "o.mp4"]));
}

#[test]
fn two_pass_arguments_share_the_pass_log() {
    let plan = strings(&["-c:v", "libx264"]);
    assert_eq!(
        first_pass_args(&plan, "/tmp/log"),
        strings(&["-c:v", "libx264", "-pass", "1", "-passlogfile", "/tmp/log", "-an", "-sn", "-f", "null"])
    );
    assert_eq!(
        second_pass_args(&plan, "/tmp/log"),
        strings(&["-c:v", "libx264", "-pass", "2", "-passlogfile", "/tmp/log"])
    );
    assert!(is_passlog_file("mediaforge-pass-1-2-0.log", "mediaforge-pass-1-2"));
    assert!(!is_passlog_file("other.log", "mediaforge-pass-1-2"));
}

#[test]
fn missing_and_non_file_inputs_are_reported() {
    let missing = ensure_input(false, false, "x.mp4").unwrap_err();
    assert_eq!(missing.code, ErrorCode::FileNotFound);
    assert_eq!(missing.message, "Input file does not exist: x.mp4");
    let directory = ensure_input(true, false, "dir").unwrap_err();
    assert_eq!(directory.code, ErrorCode::InvalidArgument);
    assert_eq!(directory.message, "Input is not a file: dir");
    assert!(ensure_input(true, true, "x.mp4").is_ok());
}

fn failure(stderr: &str) -> MediaError {
    process_failure_error("ffmpeg", &strings(&["-i", "x"]), "exit status: 1", stderr)
}

#[test]
fn failed_runs_are_classified_from_their_diagnostics() {
    assert_eq!(failure("Unknown encoder 'libfoo'").code, ErrorCode::EncoderUnavailable);
    assert_eq!(failure("Encoder libx265 NOT FOUND").code, ErrorCode::EncoderUnavailable);
    assert_eq!(failure("Unknown decoder 'x'").code, ErrorCode::DecoderUnavailable);
    let hardware = failure("Error: cannot create compression session");
    assert_eq!(hardware.code, ErrorCode::HardwareUnavailable);
    assert_eq!(hardware.suggestions.len(), 2);
    let plain = failure("Invalid data found when processing input");
    assert_eq!(plain.code, ErrorCode::FfmpegFailed);
    assert_eq!(plain.message, "ffmpeg exited with status exit status: 1.");
    assert!(plain.suggestions.is_empty());
    assert_eq!(plain.details.len(), 3);
}

#[test]
fn diagnostics_tail_is_bounded_and_starts_on_a_character() {
    let mut buffer: Vec<u8> = Vec::new();
    append_stderr_tail(&mut buffer, b"abc");
    assert_eq!(buffer, b"abc".to_vec());
    let long = "é".repeat(MAX_CAPTURED_STDERR_BYTES);
    append_stderr_tail(&mut buffer, long.as_bytes());
    assert!(buffer.len() <= MAX_CAPTURED_STDERR_BYTES);
    assert!(String::from_utf8(buffer.clone()).is_ok());
    assert!(buffer.ends_with("é".as_bytes()));
    let mut wide: Vec<u8> = b"a".to_vec();
    append_stderr_tail(&mut wide, "\u{1F600}".repeat(MAX_CAPTURED_STDERR_BYTES / 4 + 1).as_bytes());
    assert!(wide.len() <= MAX_CAPTURED_STDERR_BYTES);
    assert!(wide.len() + 3 >= MAX_CAPTURED_STDERR_BYTES);
    assert!(String::from_utf8(wide).is_ok());
}

#[test]
fn option_values_come_from_the_first_pair() {
    let args = strings(&["-i", "a", "-t", "5", "-t", "9"]);
    assert_eq!(option_value(&args, "-t").as_deref(), Some("5"));
    assert_eq!(option_value(&args, "-ss"), None);
    assert_eq!(option_value(&strings(&["-t"]), "-t"), None);
}

#[test]
fn clock_times_pad_to_two_digits() {
    assert_eq!(format_clock(0), "00:00");
    assert_eq!(format_clock(59), "00:59");
    assert_eq!(format_clock(3600), "01:00:00");
    assert_eq!(format_clock(360000), "100:00:00");
}

#[test]
fn json_is_requested_by_flag_or_tool_command() {
    assert!(json_requested(&strings(&["convert", "--json"])));
    assert!(json_requested(&strings(&["--verbose", "tool"])));
    assert!(!json_requested(&strings(&["convert", "tool"])));
    assert!(!json_requested(&strings(&[])));
}

#[test]
fn configuration_cannot_switch_on_overwriting() {
    let context = base_context(false, false, false, false, None, false, Some(true), Quality::Balanced, HardwareMode::Auto, None, Some("aac"));
    assert!(!context.overwrite);
    assert!(context.verify_after_execute);
    assert!(context.progress);
    assert_eq!(context.default_video_codec, "auto");
    assert_eq!(context.default_audio_codec, "aac");
    let tool = tool_context(&context, Some(true), None, Some(false), None);
    assert!(tool.json);
    assert!(tool.dry_run);
    assert!(!tool.overwrite);
    assert!(!tool.verify_after_execute);
    let explicit = tool_context(&context, None, Some(true), None, None);
    assert!(explicit.overwrite);
}
