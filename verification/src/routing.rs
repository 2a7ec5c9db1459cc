//! Routing of requests: the settings of one invocation, the operation that an agent's
//! Tool request or a plan request names, and the fields such a request must carry.

use vstd::prelude::*;
use crate::codec::{default_audio_codec, default_video_codec, views};
use crate::edit::{string_view};
use crate::model::{Context, ErrorCode, HardwareMode, MediaError, Quality, fails_with_message, refused};
use crate::names::{hardware_for, is_lit, normalize_operation, normalized_operation, parse_hardware_name, parse_quality_name, quality_for, quality_key};
use crate::presets::{DeviceProfile, device_id_for, device_key, device_label, device_max_height, device_profile, profile_shape};
use crate::text::{concat, lowercase, owned, starts_with, starts_with_text, str_eq, trim, trim_text};

verus! {

/// The operations that MediaForge performs.
#[derive(PartialEq, Eq, Structural, Clone, Copy, Debug)]
pub enum Operation {
    Inspect,
    Plan,
    Convert,
    Compress,
    Resize,
    Clip,
    ExtractAudio,
    Thumbnail,
    Image,
    Gif,
    Edit,
    Merge,
    Audio,
    Repair,
    Disc,
    Batch,
    Verify,
    Capabilities,
    Presets,
    Ffmpeg,
}

/// Format of an audio extraction when none is named.
pub const DEFAULT_EXTRACT_FORMAT: &'static str = "m4a";

/// Time of a thumbnail when none is named.
pub const DEFAULT_THUMBNAIL_AT: &'static str = "0";

/// Start of a clip planned without one.
pub const DEFAULT_CLIP_START: &'static str = "0";

/// Start of a GIF when none is named.
pub const DEFAULT_GIF_START: &'static str = "0";

/// Length of a GIF when none is named.
pub const DEFAULT_GIF_DURATION: &'static str = "3";

/// Frame rate of a GIF when none is named.
pub const DEFAULT_GIF_FPS: u32 = 12;

/// Disc action when none is named.
pub const DEFAULT_DISC_ACTION: &'static str = "extract";

/// Merge mode of a plan request when none is named.
pub const DEFAULT_MERGE_MODE: &'static str = "concat";

// ---------------------------------------------------------------- invocation settings

/// JSON output is wanted when `--json` is among the arguments or the command is `tool`
/// (the first argument that does not start with `-`).
pub open spec fn json_wanted(args: Seq<Seq<char>>) -> bool {
    (exists|i: int| 0 <= i < args.len() && #[trigger] args[i] == "--json"@) || exists|i: int|
        0 <= i < args.len() && #[trigger] args[i] == "tool"@ && !starts_with(args[i], "-"@)
            && forall|j: int| 0 <= j < i ==> starts_with(#[trigger] args[j], "-"@)
}

/// Whether the command line asks for JSON output, read before the arguments are parsed
/// so that a parse error can be reported in JSON.
pub fn json_requested(args: &Vec<String>) -> (r: bool)
    ensures
        r == json_wanted(views(args@)),
{
    let ghost v = views(args@);
    let mut any_json = false;
    let mut command: Option<usize> = None;
    let mut i: usize = 0;
    while i < args.len()
        invariant
            v == views(args@),
            0 <= i <= args@.len(),
            any_json == exists|k: int| 0 <= k < i && #[trigger] v[k] == "--json"@,
            match command {
                Some(c) => c < i && !starts_with(v[c as int], "-"@) && forall|j: int|
                    0 <= j < c ==> starts_with(#[trigger] v[j], "-"@),
                None => forall|j: int| 0 <= j < i ==> starts_with(#[trigger] v[j], "-"@),
            },
        decreases args.len() - i,
    {
        assert(v[i as int] == args@[i as int]@);
        if str_eq(args[i].as_str(), "--json") {
            any_json = true;
        }
        if command.is_none() && !starts_with_text(args[i].as_str(), "-") {
            command = Some(i);
        }
        i = i + 1;
    }
    let tool = match command {
        Some(c) => str_eq(args[c].as_str(), "tool"),
        None => false,
    };
    proof {
        if tool {
            let c = command->Some_0 as int;
            assert(v[c] == "tool"@);
        }
        if !tool && (exists|k: int|
            0 <= k < v.len() && #[trigger] v[k] == "tool"@ && !starts_with(v[k], "-"@) && forall|
                j: int,
            | 0 <= j < k ==> starts_with(#[trigger] v[j], "-"@)) {
            let k = choose|k: int|
                0 <= k < v.len() && #[trigger] v[k] == "tool"@ && !starts_with(v[k], "-"@)
                    && forall|j: int| 0 <= j < k ==> starts_with(#[trigger] v[j], "-"@);
            match command {
                Some(c) => {
                    if (c as int) < k {
                        assert(starts_with(v[c as int], "-"@));
                    } else if k < (c as int) {
                        assert(starts_with(v[k], "-"@));
                    }
                },
                None => {
                    assert(starts_with(v[k], "-"@));
                },
            }
        }
    }
    any_json || tool
}

/// The settings of an invocation, from the command-line flags and the configuration
/// file. Overwriting comes from the command line alone; the configuration cannot enable
/// it.
pub fn base_context(
    json: bool,
    dry_run: bool,
    overwrite: bool,
    verbose: bool,
    config_verify: Option<bool>,
    cli_progress: bool,
    config_progress: Option<bool>,
    default_quality: Quality,
    default_hardware: HardwareMode,
    video_codec: Option<&str>,
    audio_codec: Option<&str>,
) -> (c: Context)
    ensures
        c.json == json,
        c.dry_run == dry_run,
        c.overwrite == overwrite,
        c.verbose == verbose,
        c.verify_after_execute == (match config_verify {
            Some(v) => v,
            None => true,
        }),
        c.progress == (cli_progress || config_progress == Some(true)),
        c.default_quality == default_quality,
        c.default_hardware == default_hardware,
        c.default_video_codec@ == (match video_codec {
            Some(v) => v@,
            None => "auto"@,
        }),
        c.default_audio_codec@ == (match audio_codec {
            Some(a) => a@,
            None => "auto"@,
        }),
{
    Context {
        json,
        dry_run,
        overwrite,
        verbose,
        verify_after_execute: match config_verify {
            Some(v) => v,
            None => true,
        },
        progress: cli_progress || match config_progress {
            Some(p) => p,
            None => false,
        },
        default_quality,
        default_hardware,
        default_video_codec: match video_codec {
            Some(v) => owned(v),
            None => owned("auto"),
        },
        default_audio_codec: match audio_codec {
            Some(a) => owned(a),
            None => owned("auto"),
        },
    }
}

/// The settings of a Tool request: always JSON, with the request's own choices taking the
/// place of the invocation's. Overwriting stays on if the command line allowed it and
/// is otherwise only what the request asks.
pub fn tool_context(
    context: &Context,
    dry_run: Option<bool>,
    overwrite: Option<bool>,
    verify_after_execute: Option<bool>,
    progress: Option<bool>,
) -> (c: Context)
    ensures
        c.json,
        c.dry_run == (match dry_run {
            Some(d) => d,
            None => context.dry_run,
        }),
        c.overwrite == (context.overwrite || overwrite == Some(true)),
        c.verify_after_execute == (match verify_after_execute {
            Some(v) => v,
            None => context.verify_after_execute,
        }),
        c.progress == (match progress {
            Some(p) => p,
            None => context.progress,
        }),
        c.verbose == context.verbose,
        c.default_quality == context.default_quality,
        c.default_hardware == context.default_hardware,
        c.default_video_codec@ == context.default_video_codec@,
        c.default_audio_codec@ == context.default_audio_codec@,
{
    Context {
        json: true,
        dry_run: match dry_run {
            Some(d) => d,
            None => context.dry_run,
        },
        overwrite: context.overwrite || match overwrite {
            Some(o) => o,
            None => false,
        },
        verbose: context.verbose,
        verify_after_execute: match verify_after_execute {
            Some(v) => v,
            None => context.verify_after_execute,
        },
        progress: match progress {
            Some(p) => p,
            None => context.progress,
        },
        default_quality: context.default_quality,
        default_hardware: context.default_hardware,
        default_video_codec: owned(context.default_video_codec.as_str()),
        default_audio_codec: owned(context.default_audio_codec.as_str()),
    }
}

// ---------------------------------------------------------------- Tool requests

/// Refuses an empty Tool request.
pub fn tool_request_text(text: &str) -> (r: Result<(), MediaError>)
    ensures
        trim(text@).len() == 0 ==> fails_with_message(
            r,
            ErrorCode::InvalidArgument,
            "Tool request must be a JSON object."@,
        ),
        trim(text@).len() > 0 ==> r is Ok,
{
    let t = trim_text(text);
    if t.as_str().is_empty() {
        Err(MediaError::new(
            ErrorCode::InvalidArgument,
            owned("Tool request must be a JSON object."),
        ))
    } else {
        Ok(())
    }
}

/// The error of a Tool request that is not valid JSON, with the parser's explanation.
pub fn invalid_tool_request(explanation: &str) -> (e: MediaError)
    ensures
        e.code == ErrorCode::InvalidArgument,
        e.message@ == "Tool request is not valid JSON: "@ + explanation@,
        views(e.suggestions@) == seq!["Send one JSON object with an operation and input field."@],
{
    MediaError::new(
        ErrorCode::InvalidArgument,
        concat("Tool request is not valid JSON: ", explanation),
    ).with_suggestions(vec![owned("Send one JSON object with an operation and input field.")])
}

/// A field that a Tool request must carry, not blank.
pub fn required_string(value: Option<String>, field: &str) -> (r: Result<String, MediaError>)
    ensures
        match value {
            Some(v) => if trim(v@).len() > 0 {
                r matches Ok(s) && s@ == v@
            } else {
                fails_with_message(
                    r,
                    ErrorCode::InvalidArgument,
                    "Tool requests require "@ + field@ + "."@,
                )
            },
            None => fails_with_message(
                r,
                ErrorCode::InvalidArgument,
                "Tool requests require "@ + field@ + "."@,
            ),
        },
{
    if let Some(v) = value {
        let t = trim_text(v.as_str());
        if !t.as_str().is_empty() {
            return Ok(v);
        }
    }
    let mut message = owned("Tool requests require ");
    message.append(field);
    message.append(".");
    Err(MediaError::new(ErrorCode::InvalidArgument, message))
}

/// The input path of a Tool request.
pub fn required_input(input: Option<String>) -> (r: Result<String, MediaError>)
    ensures
        match input {
            Some(v) => if trim(v@).len() > 0 {
                r matches Ok(s) && s@ == v@
            } else {
                fails_with_message(
                    r,
                    ErrorCode::InvalidArgument,
                    "Tool requests require input."@,
                )
            },
            None => fails_with_message(r, ErrorCode::InvalidArgument, "Tool requests require input."@),
        },
{
    proof {
        reveal_strlit("Tool requests require ");
        reveal_strlit("input");
        reveal_strlit(".");
        reveal_strlit("Tool requests require input.");
        assert("Tool requests require "@ + "input"@ + "."@ =~= "Tool requests require input."@);
    }
    required_string(input, "input")
}

/// The operation that a normalised Tool operation name routes to.
pub open spec fn tool_operation_for(op: Seq<char>) -> Option<Operation> {
    if op == "inspect"@ {
        Some(Operation::Inspect)
    } else if op == "plan"@ {
        Some(Operation::Plan)
    } else if op == "convert"@ {
        Some(Operation::Convert)
    } else if op == "compress"@ {
        Some(Operation::Compress)
    } else if op == "resize"@ {
        Some(Operation::Resize)
    } else if op == "clip"@ {
        Some(Operation::Clip)
    } else if op == "extract_audio"@ {
        Some(Operation::ExtractAudio)
    } else if op == "thumbnail"@ {
        Some(Operation::Thumbnail)
    } else if image_alias(op) {
        Some(Operation::Image)
    } else if gif_alias(op) {
        Some(Operation::Gif)
    } else if op == "edit"@ || op == "edit_media"@ {
        Some(Operation::Edit)
    } else if merge_alias(op) {
        Some(Operation::Merge)
    } else if audio_alias(op) {
        Some(Operation::Audio)
    } else if op == "repair"@ || op == "repair_media"@ {
        Some(Operation::Repair)
    } else if disc_alias(op) {
        Some(Operation::Disc)
    } else if op == "batch"@ {
        Some(Operation::Batch)
    } else if op == "verify"@ {
        Some(Operation::Verify)
    } else if op == "capabilities"@ {
        Some(Operation::Capabilities)
    } else if op == "presets"@ || op == "device_presets"@ {
        Some(Operation::Presets)
    } else if op == "ffmpeg"@ {
        Some(Operation::Ffmpeg)
    } else {
        None
    }
}

pub open spec fn image_alias(op: Seq<char>) -> bool {
    op == "image"@ || op == "image_convert"@ || op == "image_compress"@ || op == "compress_image"@
}

pub open spec fn gif_alias(op: Seq<char>) -> bool {
    op == "gif"@ || op == "video_to_gif"@ || op == "gif_convert"@
}

pub open spec fn merge_alias(op: Seq<char>) -> bool {
    op == "merge"@ || op == "concat"@ || op == "mux"@ || op == "mix"@
}

pub open spec fn audio_alias(op: Seq<char>) -> bool {
    op == "audio"@ || op == "audio_convert"@ || op == "compress_audio"@
}

pub open spec fn disc_alias(op: Seq<char>) -> bool {
    op == "disc"@ || op == "dvd"@ || op == "cd"@ || op == "iso"@
}

fn image_alias_exec(op: &String) -> (r: bool)
    ensures
        r == image_alias(op@),
{
    is_lit(op, "image") || is_lit(op, "image_convert") || is_lit(op, "image_compress") || is_lit(
        op,
        "compress_image",
    )
}

fn gif_alias_exec(op: &String) -> (r: bool)
    ensures
        r == gif_alias(op@),
{
    is_lit(op, "gif") || is_lit(op, "video_to_gif") || is_lit(op, "gif_convert")
}

fn merge_alias_exec(op: &String) -> (r: bool)
    ensures
        r == merge_alias(op@),
{
    is_lit(op, "merge") || is_lit(op, "concat") || is_lit(op, "mux") || is_lit(op, "mix")
}

fn audio_alias_exec(op: &String) -> (r: bool)
    ensures
        r == audio_alias(op@),
{
    is_lit(op, "audio") || is_lit(op, "audio_convert") || is_lit(op, "compress_audio")
}

fn disc_alias_exec(op: &String) -> (r: bool)
    ensures
        r == disc_alias(op@),
{
    is_lit(op, "disc") || is_lit(op, "dvd") || is_lit(op, "cd") || is_lit(op, "iso")
}

/// The route of a Tool request: the operation, its normalised name, and the parsed
/// quality and hardware choices.
#[derive(Debug)]
pub struct ToolRoute {
    pub operation: Operation,
    pub name: String,
    pub quality: Option<Quality>,
    pub hardware: Option<HardwareMode>,
}

/// Routes a Tool request by its operation name after parsing its quality and hardware
/// choices (which are checked first).
pub fn tool_route(operation: &str, quality: Option<String>, hardware: Option<String>) -> (r:
    Result<ToolRoute, MediaError>)
    ensures
        quality matches Some(q) && quality_for(quality_key(q@)) is None ==> fails_with_message(
            r,
            ErrorCode::InvalidArgument,
            "Unsupported quality preset: "@ + quality_key(quality->Some_0@),
        ),
        (quality matches Some(q) ==> quality_for(quality_key(q@)) is Some) && (hardware matches Some(
            h,
        ) && hardware_for(lowercase(h@)) is None) ==> fails_with_message(
            r,
            ErrorCode::InvalidArgument,
            "Unsupported hardware mode: "@ + lowercase(hardware->Some_0@),
        ),
        (quality matches Some(q) ==> quality_for(quality_key(q@)) is Some) && (hardware matches Some(
            h,
        ) ==> hardware_for(lowercase(h@)) is Some) ==> match tool_operation_for(
            normalized_operation(operation@),
        ) {
            None => refused(
                r,
                ErrorCode::InvalidArgument,
                "Unsupported Tool operation: "@ + operation@,
                seq![
                    "Use a semantic operation such as inspect_media, plan_media_operation, convert_media, compress_media, resize_media, clip_media, extract_audio, create_thumbnail, image_convert, image_compress, edit_media, merge, audio_convert, repair_media, disc, presets, batch, verify_media, capabilities, or ffmpeg."@,
                ],
            ),
            Some(op) => r matches Ok(route) && route.operation == op && route.name@
                == normalized_operation(operation@) && route.quality == (match quality {
                Some(q) => quality_for(quality_key(q@)),
                None => None,
            }) && route.hardware == (match hardware {
                Some(h) => hardware_for(lowercase(h@)),
                None => None,
            }),
        },
{
    let q = match quality {
        Some(v) => match parse_quality_name(v) {
            Ok(x) => Some(x),
            Err(e) => {
                return Err(e);
            },
        },
        None => None,
    };
    let h = match hardware {
        Some(v) => match parse_hardware_name(v) {
            Ok(x) => Some(x),
            Err(e) => {
                return Err(e);
            },
        },
        None => None,
    };
    let op = normalize_operation(operation);
    let routed = if is_lit(&op, "inspect") {
        Some(Operation::Inspect)
    } else if is_lit(&op, "plan") {
        Some(Operation::Plan)
    } else if is_lit(&op, "convert") {
        Some(Operation::Convert)
    } else if is_lit(&op, "compress") {
        Some(Operation::Compress)
    } else if is_lit(&op, "resize") {
        Some(Operation::Resize)
    } else if is_lit(&op, "clip") {
        Some(Operation::Clip)
    } else if is_lit(&op, "extract_audio") {
        Some(Operation::ExtractAudio)
    } else if is_lit(&op, "thumbnail") {
        Some(Operation::Thumbnail)
    } else if image_alias_exec(&op) {
        Some(Operation::Image)
    } else if gif_alias_exec(&op) {
        Some(Operation::Gif)
    } else if is_lit(&op, "edit") || is_lit(&op, "edit_media") {
        Some(Operation::Edit)
    } else if merge_alias_exec(&op) {
        Some(Operation::Merge)
    } else if audio_alias_exec(&op) {
        Some(Operation::Audio)
    } else if is_lit(&op, "repair") || is_lit(&op, "repair_media") {
        Some(Operation::Repair)
    } else if disc_alias_exec(&op) {
        Some(Operation::Disc)
    } else if is_lit(&op, "batch") {
        Some(Operation::Batch)
    } else if is_lit(&op, "verify") {
        Some(Operation::Verify)
    } else if is_lit(&op, "capabilities") {
        Some(Operation::Capabilities)
    } else if is_lit(&op, "presets") || is_lit(&op, "device_presets") {
        Some(Operation::Presets)
    } else if is_lit(&op, "ffmpeg") {
        Some(Operation::Ffmpeg)
    } else {
        None
    };
    match routed {
        Some(operation) => Ok(ToolRoute { operation, name: op, quality: q, hardware: h }),
        None => {
            let suggestions = vec![
                owned(
                    "Use a semantic operation such as inspect_media, plan_media_operation, convert_media, compress_media, resize_media, clip_media, extract_audio, create_thumbnail, image_convert, image_compress, edit_media, merge, audio_convert, repair_media, disc, presets, batch, verify_media, capabilities, or ffmpeg.",
                ),
            ];
            assert(views(suggestions@) =~= seq![
                "Use a semantic operation such as inspect_media, plan_media_operation, convert_media, compress_media, resize_media, clip_media, extract_audio, create_thumbnail, image_convert, image_compress, edit_media, merge, audio_convert, repair_media, disc, presets, batch, verify_media, capabilities, or ffmpeg."@,
            ]);
            Err(
                MediaError::new(
                    ErrorCode::InvalidArgument,
                    concat("Unsupported Tool operation: ", operation),
                ).with_suggestions(suggestions),
            )
        },
    }
}

/// The start of a Tool clip request, which must be given.
pub fn tool_clip_start(start: Option<String>) -> (r: Result<String, MediaError>)
    ensures
        match start {
            Some(s) => r matches Ok(x) && x@ == s@,
            None => refused(
                r,
                ErrorCode::InvalidArgument,
                "Tool clip requests require start."@,
                Seq::empty(),
            ),
        },
{
    match start {
        Some(s) => Ok(s),
        None => Err(MediaError::new(ErrorCode::InvalidArgument, owned("Tool clip requests require start."))),
    }
}

/// The inputs of a merge request: the single input first, then the list.
pub fn merge_inputs(input: Option<String>, inputs: Option<Vec<String>>) -> (r: Vec<String>)
    ensures
        r@ == (match input {
            Some(i) => seq![i],
            None => Seq::empty(),
        }) + (match inputs {
            Some(v) => v@,
            None => Seq::empty(),
        }),
{
    let mut out: Vec<String> = Vec::new();
    if let Some(i) = input {
        out.push(i);
    }
    let ghost head = out@;
    if let Some(mut v) = inputs {
        let ghost tail = v@;
        out.append(&mut v);
        assert(out@ =~= head + tail);
    } else {
        assert(out@ =~= head + Seq::<String>::empty());
    }
    out
}

// ---------------------------------------------------------------- plan requests

/// Which arguments a plan request carries, for inferring its operation.
#[derive(Clone, Copy, Debug)]
pub struct PlanHints {
    pub target_size: bool,
    pub quality: bool,
    pub to: bool,
    pub video_codec: bool,
    pub audio_codec: bool,
    pub width: bool,
    pub resolution: bool,
    pub start: bool,
    pub format: bool,
    pub at: bool,
}

pub open spec fn inferred_operation(h: PlanHints) -> Seq<char> {
    if h.target_size || (h.quality && !h.to && !h.video_codec && !h.audio_codec) {
        "compress"@
    } else if h.width || h.resolution {
        "resize"@
    } else if h.start {
        "clip"@
    } else if h.format {
        "extract_audio"@
    } else if h.at {
        "thumbnail"@
    } else {
        "convert"@
    }
}

/// The operation of a plan request: the named one, normalised, else the one its
/// arguments imply (a target size, or a quality with no target format or codec, means
/// compression; a width or resolution, resizing; a start, a clip; a format, audio
/// extraction; a time, a thumbnail; otherwise conversion).
pub fn plan_operation(operation: Option<&str>, hints: PlanHints) -> (r: String)
    ensures
        r@ == (match operation {
            Some(o) => normalized_operation(o@),
            None => inferred_operation(hints),
        }),
{
    match operation {
        Some(o) => normalize_operation(o),
        None => {
            let h = hints;
            if h.target_size || (h.quality && !h.to && !h.video_codec && !h.audio_codec) {
                owned("compress")
            } else if h.width || h.resolution {
                owned("resize")
            } else if h.start {
                owned("clip")
            } else if h.format {
                owned("extract_audio")
            } else if h.at {
                owned("thumbnail")
            } else {
                owned("convert")
            }
        },
    }
}

/// The operations that can be planned, by normalised name.
pub open spec fn plan_operation_for(op: Seq<char>) -> Option<Operation> {
    if op == "compress"@ {
        Some(Operation::Compress)
    } else if op == "resize"@ {
        Some(Operation::Resize)
    } else if op == "clip"@ {
        Some(Operation::Clip)
    } else if op == "extract_audio"@ {
        Some(Operation::ExtractAudio)
    } else if op == "thumbnail"@ {
        Some(Operation::Thumbnail)
    } else if image_alias(op) {
        Some(Operation::Image)
    } else if gif_alias(op) {
        Some(Operation::Gif)
    } else if op == "edit"@ || op == "edit_media"@ {
        Some(Operation::Edit)
    } else if merge_alias(op) {
        Some(Operation::Merge)
    } else if audio_alias(op) {
        Some(Operation::Audio)
    } else if op == "repair"@ || op == "repair_media"@ {
        Some(Operation::Repair)
    } else if disc_alias(op) {
        Some(Operation::Disc)
    } else if op == "convert"@ {
        Some(Operation::Convert)
    } else {
        None
    }
}

/// Routes a plan request's operation.
pub fn plan_route(operation: &String) -> (r: Result<Operation, MediaError>)
    ensures
        match plan_operation_for(operation@) {
            Some(op) => r == Ok::<Operation, MediaError>(op),
            None => refused(
                r,
                ErrorCode::InvalidArgument,
                "Planning operation "@ + operation@ + " is not supported."@,
                seq![
                    "Use convert, compress, resize, clip, extract_audio, thumbnail, image, edit, merge, audio, repair, or disc."@,
                ],
            ),
        },
{
    let op = operation;
    if is_lit(op, "compress") {
        Ok(Operation::Compress)
    } else if is_lit(op, "resize") {
        Ok(Operation::Resize)
    } else if is_lit(op, "clip") {
        Ok(Operation::Clip)
    } else if is_lit(op, "extract_audio") {
        Ok(Operation::ExtractAudio)
    } else if is_lit(op, "thumbnail") {
        Ok(Operation::Thumbnail)
    } else if image_alias_exec(op) {
        Ok(Operation::Image)
    } else if gif_alias_exec(op) {
        Ok(Operation::Gif)
    } else if is_lit(op, "edit") || is_lit(op, "edit_media") {
        Ok(Operation::Edit)
    } else if merge_alias_exec(op) {
        Ok(Operation::Merge)
    } else if audio_alias_exec(op) {
        Ok(Operation::Audio)
    } else if is_lit(op, "repair") || is_lit(op, "repair_media") {
        Ok(Operation::Repair)
    } else if disc_alias_exec(op) {
        Ok(Operation::Disc)
    } else if is_lit(op, "convert") {
        Ok(Operation::Convert)
    } else {
        let mut message = owned("Planning operation ");
        message.append(op.as_str());
        message.append(" is not supported.");
        let suggestions = vec![
            owned(
                "Use convert, compress, resize, clip, extract_audio, thumbnail, image, edit, merge, audio, repair, or disc.",
            ),
        ];
        assert(views(suggestions@) =~= seq![
            "Use convert, compress, resize, clip, extract_audio, thumbnail, image, edit, merge, audio, repair, or disc."@,
        ]);
        Err(MediaError::new(ErrorCode::InvalidArgument, message).with_suggestions(suggestions))
    }
}

/// The merge mode of a planned merge: the operation name itself when it names a mode
/// (`concat`, `mux`, `mix`), else the requested mode.
pub fn plan_merge_mode(operation: &String, mode: &str) -> (r: String)
    ensures
        r@ == (if operation@ == "mux"@ || operation@ == "mix"@ || operation@ == "concat"@ {
            operation@
        } else {
            mode@
        }),
{
    if is_lit(operation, "mux") || is_lit(operation, "mix") || is_lit(operation, "concat") {
        owned(operation.as_str())
    } else {
        owned(mode)
    }
}

/// A codec request for a conversion: the explicit one, else the device profile's, else
/// the configured default.
pub fn codec_request(explicit: Option<&str>, profile: Option<&str>, default: &str) -> (r: String)
    ensures
        r@ == (match explicit {
            Some(e) => e@,
            None => match profile {
                Some(p) => p@,
                None => default@,
            },
        }),
{
    match explicit {
        Some(e) => owned(e),
        None => match profile {
            Some(p) => owned(p),
            None => owned(default),
        },
    }
}

} // verus!

verus! {

/// The device profile, target container and codecs that a conversion request names.
#[derive(Debug)]
pub struct ConvertRequest {
    pub profile: Option<DeviceProfile>,
    pub to: Option<String>,
    pub video_codec: String,
    pub audio_codec: String,
}

/// Resolves a conversion request: the device preset (if any) is looked up first, then
/// the explicit target and codecs win over the preset's, and the configured defaults
/// fill in the codecs.
pub fn convert_request(
    device: Option<&str>,
    to: Option<&str>,
    video_codec: Option<&str>,
    audio_codec: Option<&str>,
    default_video_codec: &str,
    default_audio_codec: &str,
) -> (r: Result<ConvertRequest, MediaError>)
    ensures
        device matches Some(d) && device_id_for(device_key(d@)) is None ==> refused(
            r,
            ErrorCode::InvalidArgument,
            "Unknown device preset: "@ + device_key(device->Some_0@),
            seq!["Use iphone, ipad, android, psp, or car."@, "Run media presets --json to list profiles."@],
        ),
        !(device matches Some(d) && device_id_for(device_key(d@)) is None) ==> (r matches Ok(q)
            && (device is None ==> q.profile is None) && (device matches Some(d) ==> (q.profile matches Some(
            p,
        ) && p.id@ == device_id_for(device_key(d@))->Some_0 && profile_shape(p) && p.max_height
            == device_max_height(device_key(d@)) && p.label@ == device_label(device_key(d@))))
            && string_view(
            q.to,
        ) == (match to {
            Some(t) => Some(t@),
            None => match q.profile {
                Some(p) => Some(p.container@),
                None => None,
            },
        }) && q.video_codec@ == (match video_codec {
            Some(v) => v@,
            None => match q.profile {
                Some(p) => p.video_codec@,
                None => default_video_codec@,
            },
        }) && q.audio_codec@ == (match audio_codec {
            Some(a) => a@,
            None => match q.profile {
                Some(p) => p.audio_codec@,
                None => default_audio_codec@,
            },
        })),
{
    let profile = match device {
        Some(d) => Some(device_profile(d)?),
        None => None,
    };
    let target = match to {
        Some(t) => Some(owned(t)),
        None => match profile {
            Some(p) => Some(owned(p.container)),
            None => None,
        },
    };
    let video = codec_request(
        video_codec,
        match profile {
            Some(p) => Some(p.video_codec),
            None => None,
        },
        default_video_codec,
    );
    let audio = codec_request(
        audio_codec,
        match profile {
            Some(p) => Some(p.audio_codec),
            None => None,
        },
        default_audio_codec,
    );
    Ok(ConvertRequest { profile, to: target, video_codec: video, audio_codec: audio })
}

} // verus!
