//! Normalisation of user-supplied names: operations, presets, containers and formats.

use vstd::prelude::*;
use crate::codec::{views};
use crate::model::{ErrorCode, HardwareMode, MediaError, Quality, fails_with_message, refused};
use crate::text::{all_ascii, ascii_lower_char, concat, contains_seq, contains_text, lowercase, owned, replace_char, replace_char_text, starts_with, starts_with_text, str_eq, to_lower, to_upper, trim, trim_start_char, trim_start_char_text, trim_text, uppercase};

verus! {

/// Whether `s` spells the literal `lit`.
pub fn is_lit(s: &String, lit: &str) -> (r: bool)
    ensures
        r == (s@ == lit@),
{
    str_eq(s.as_str(), lit)
}

/// The usual cleaning of a format name: trimmed, leading dots dropped, lowercased.
pub open spec fn clean_name(value: Seq<char>) -> Seq<char> {
    lowercase(trim_start_char(trim(value), '.'))
}

fn clean_name_exec(value: &str) -> (r: String)
    ensures
        r@ == clean_name(value@),
{
    let t = trim_text(value);
    let d = trim_start_char_text(t.as_str(), '.');
    to_lower(d.as_str())
}

// ---------------------------------------------------------------- operations

/// Canonical names of the operation aliases that agents use.
pub open spec fn operation_alias(v: Seq<char>) -> Seq<char> {
    if v == "inspect_media"@ {
        "inspect"@
    } else if v == "plan_media_operation"@ {
        "plan"@
    } else if v == "convert_media"@ {
        "convert"@
    } else if v == "compress_media"@ {
        "compress"@
    } else if v == "resize_media"@ {
        "resize"@
    } else if v == "clip_media"@ {
        "clip"@
    } else if v == "create_thumbnail"@ {
        "thumbnail"@
    } else if v == "verify_media"@ {
        "verify"@
    } else {
        v
    }
}

pub open spec fn normalized_operation(value: Seq<char>) -> Seq<char> {
    operation_alias(replace_char(lowercase(value), '-', '_'))
}

/// Lowercases an operation name, turns `-` into `_`, and maps the agent aliases
/// (`inspect_media`, `convert_media`, ...) to the operation they name.
pub fn normalize_operation(value: &str) -> (r: String)
    ensures
        r@ == normalized_operation(value@),
{
    let lower = to_lower(value);
    let v = replace_char_text(lower.as_str(), '-', '_');
    if is_lit(&v, "inspect_media") {
        owned("inspect")
    } else if is_lit(&v, "plan_media_operation") {
        owned("plan")
    } else if is_lit(&v, "convert_media") {
        owned("convert")
    } else if is_lit(&v, "compress_media") {
        owned("compress")
    } else if is_lit(&v, "resize_media") {
        owned("resize")
    } else if is_lit(&v, "clip_media") {
        owned("clip")
    } else if is_lit(&v, "create_thumbnail") {
        owned("thumbnail")
    } else if is_lit(&v, "verify_media") {
        owned("verify")
    } else {
        v
    }
}

pub open spec fn disc_kind_for(operation: Seq<char>) -> Seq<char> {
    if operation == "dvd"@ || operation == "cd"@ || operation == "iso"@ {
        operation
    } else {
        "dvd"@
    }
}

/// The disc kind implied by an operation name: `dvd`, `cd` or `iso`, else `dvd`.
pub fn default_disc_kind(operation: &str) -> (r: String)
    ensures
        r@ == disc_kind_for(operation@),
{
    let op = owned(operation);
    if is_lit(&op, "dvd") || is_lit(&op, "cd") || is_lit(&op, "iso") {
        op
    } else {
        owned("dvd")
    }
}

// ---------------------------------------------------------------- quality and hardware

pub open spec fn quality_for(v: Seq<char>) -> Option<Quality> {
    if v == "lossless"@ {
        Some(Quality::Lossless)
    } else if v == "very-high"@ {
        Some(Quality::VeryHigh)
    } else if v == "high"@ {
        Some(Quality::High)
    } else if v == "balanced"@ {
        Some(Quality::Balanced)
    } else if v == "small"@ {
        Some(Quality::Small)
    } else if v == "tiny"@ {
        Some(Quality::Tiny)
    } else {
        None
    }
}

pub open spec fn quality_key(value: Seq<char>) -> Seq<char> {
    replace_char(lowercase(value), '_', '-')
}

/// The key of an ASCII quality name: ASCII-lowercased, with `_` read as `-`.
pub open spec fn ascii_quality_key(value: Seq<char>) -> Seq<char> {
    replace_char(value.map_values(|c: char| ascii_lower_char(c)), '_', '-')
}

/// Parses a quality preset name, case-insensitively and with `_` accepted for `-`.
pub fn parse_quality_name(value: String) -> (r: Result<Quality, MediaError>)
    ensures
        match quality_for(quality_key(value@)) {
            Some(q) => r == Ok::<Quality, MediaError>(q),
            None => fails_with_message(
                r,
                ErrorCode::InvalidArgument,
                "Unsupported quality preset: "@ + quality_key(value@),
            ),
        },
        all_ascii(value@) ==> match quality_for(ascii_quality_key(value@)) {
            Some(q) => r == Ok::<Quality, MediaError>(q),
            None => fails_with_message(
                r,
                ErrorCode::InvalidArgument,
                "Unsupported quality preset: "@ + ascii_quality_key(value@),
            ),
        },
{
    let lower = to_lower(value.as_str());
    let v = replace_char_text(lower.as_str(), '_', '-');
    if is_lit(&v, "lossless") {
        Ok(Quality::Lossless)
    } else if is_lit(&v, "very-high") {
        Ok(Quality::VeryHigh)
    } else if is_lit(&v, "high") {
        Ok(Quality::High)
    } else if is_lit(&v, "balanced") {
        Ok(Quality::Balanced)
    } else if is_lit(&v, "small") {
        Ok(Quality::Small)
    } else if is_lit(&v, "tiny") {
        Ok(Quality::Tiny)
    } else {
        Err(MediaError::new(
            ErrorCode::InvalidArgument,
            concat("Unsupported quality preset: ", v.as_str()),
        ))
    }
}

pub open spec fn hardware_for(v: Seq<char>) -> Option<HardwareMode> {
    if v == "auto"@ {
        Some(HardwareMode::Auto)
    } else if v == "cpu"@ {
        Some(HardwareMode::Cpu)
    } else if v == "gpu"@ {
        Some(HardwareMode::Gpu)
    } else {
        None
    }
}

/// Parses a hardware mode name, case-insensitively.
pub fn parse_hardware_name(value: String) -> (r: Result<HardwareMode, MediaError>)
    ensures
        match hardware_for(lowercase(value@)) {
            Some(h) => r == Ok::<HardwareMode, MediaError>(h),
            None => fails_with_message(
                r,
                ErrorCode::InvalidArgument,
                "Unsupported hardware mode: "@ + lowercase(value@),
            ),
        },
{
    let v = to_lower(value.as_str());
    if is_lit(&v, "auto") {
        Ok(HardwareMode::Auto)
    } else if is_lit(&v, "cpu") {
        Ok(HardwareMode::Cpu)
    } else if is_lit(&v, "gpu") {
        Ok(HardwareMode::Gpu)
    } else {
        Err(MediaError::new(
            ErrorCode::InvalidArgument,
            concat("Unsupported hardware mode: ", v.as_str()),
        ))
    }
}

pub open spec fn quality_text(q: Quality) -> Seq<char> {
    match q {
        Quality::Lossless => "lossless"@,
        Quality::VeryHigh => "very-high"@,
        Quality::High => "high"@,
        Quality::Balanced => "balanced"@,
        Quality::Small => "small"@,
        Quality::Tiny => "tiny"@,
    }
}

/// Parsing the name of a quality preset gives that preset back: the name is ASCII, and
/// its key names the same preset.
pub proof fn lemma_quality_name_round_trip(q: Quality)
    ensures
        all_ascii(quality_text(q)),
        quality_for(ascii_quality_key(quality_text(q))) == Some(q),
{
    reveal_strlit("lossless");
    reveal_strlit("very-high");
    reveal_strlit("high");
    reveal_strlit("balanced");
    reveal_strlit("small");
    reveal_strlit("tiny");
    let t = quality_text(q);
    assert(ascii_quality_key(t) =~= t);
    assert("lossless"@[0] != "very-high"@[0] && "lossless"@[0] != "high"@[0]);
    assert("lossless"@[0] != "balanced"@[0] && "lossless"@[0] != "small"@[0]);
    assert("lossless"@[0] != "tiny"@[0] && "very-high"@[0] != "high"@[0]);
    assert("very-high"@[0] != "balanced"@[0] && "very-high"@[0] != "small"@[0]);
    assert("very-high"@[0] != "tiny"@[0] && "high"@[0] != "balanced"@[0]);
    assert("high"@[0] != "small"@[0] && "high"@[0] != "tiny"@[0]);
    assert("balanced"@[0] != "small"@[0] && "balanced"@[0] != "tiny"@[0]);
    assert("small"@[0] != "tiny"@[0]);
}

/// The kebab-case name of a quality preset.
pub fn quality_name(quality: Quality) -> (r: &'static str)
    ensures
        r@ == quality_text(quality),
{
    match quality {
        Quality::Lossless => "lossless",
        Quality::VeryHigh => "very-high",
        Quality::High => "high",
        Quality::Balanced => "balanced",
        Quality::Small => "small",
        Quality::Tiny => "tiny",
    }
}

pub open spec fn hardware_text(mode: HardwareMode) -> Seq<char> {
    match mode {
        HardwareMode::Auto => "auto"@,
        HardwareMode::Cpu => "cpu"@,
        HardwareMode::Gpu => "gpu"@,
    }
}

/// The name of a hardware mode.
pub fn format_hardware(mode: HardwareMode) -> (r: &'static str)
    ensures
        r@ == hardware_text(mode),
{
    match mode {
        HardwareMode::Auto => "auto",
        HardwareMode::Cpu => "cpu",
        HardwareMode::Gpu => "gpu",
    }
}

// ---------------------------------------------------------------- disc actions

pub open spec fn disc_action_for(v: Seq<char>) -> Option<Seq<char>> {
    if v == "extract"@ || v == "convert"@ || v == "remux"@ {
        Some("extract"@)
    } else if v == "create_iso"@ || v == "author"@ || v == "write_iso"@ {
        Some("create_iso"@)
    } else {
        None
    }
}

pub open spec fn disc_action_key(value: Seq<char>) -> Seq<char> {
    replace_char(lowercase(value), '-', '_')
}

/// Maps a disc action name to `extract` or `create_iso`.
pub fn normalize_disc_action(value: &str) -> (r: Result<String, MediaError>)
    ensures
        match disc_action_for(disc_action_key(value@)) {
            Some(a) => r matches Ok(s) && s@ == a,
            None => refused(
                r,
                ErrorCode::InvalidArgument,
                "Unsupported disc action: "@ + disc_action_key(value@),
                seq!["Use --action extract or --action create-iso."@],
            ),
        },
{
    let lower = to_lower(value);
    let v = replace_char_text(lower.as_str(), '-', '_');
    if is_lit(&v, "extract") || is_lit(&v, "convert") || is_lit(&v, "remux") {
        Ok(owned("extract"))
    } else if is_lit(&v, "create_iso") || is_lit(&v, "author") || is_lit(&v, "write_iso") {
        Ok(owned("create_iso"))
    } else {
        let suggestions = vec![owned("Use --action extract or --action create-iso.")];
        assert(views(suggestions@) =~= seq!["Use --action extract or --action create-iso."@]);
        Err(
            MediaError::new(
                ErrorCode::InvalidArgument,
                concat("Unsupported disc action: ", v.as_str()),
            ).with_suggestions(suggestions),
        )
    }
}

// ---------------------------------------------------------------- containers

/// The canonical target container for a cleaned container name.
pub open spec fn container_for(v: Seq<char>) -> Option<Seq<char>> {
    if v == "mp4"@ || v == "m4v"@ {
        Some("mp4"@)
    } else if v == "mkv"@ || v == "matroska"@ {
        Some("mkv"@)
    } else if v == "mov"@ || v == "quicktime"@ {
        Some("mov"@)
    } else if v == "webm"@ {
        Some("webm"@)
    } else if v == "avi"@ {
        Some("avi"@)
    } else if v == "wmv"@ || v == "asf"@ {
        Some("wmv"@)
    } else if v == "flv"@ {
        Some("flv"@)
    } else if v == "ogv"@ || v == "ogg"@ {
        Some("ogv"@)
    } else if v == "3gp"@ || v == "3g2"@ {
        Some("3gp"@)
    } else if v == "mpg"@ || v == "mpeg"@ || v == "mpeg1"@ || v == "mpeg2"@ {
        Some("mpeg"@)
    } else if v == "vob"@ || v == "dvd"@ {
        Some("vob"@)
    } else if v == "swf"@ {
        Some("swf"@)
    } else {
        None
    }
}

/// The canonical containers that target names normalise to.
pub open spec fn is_canonical_container(c: Seq<char>) -> bool {
    c == "mp4"@ || c == "mkv"@ || c == "mov"@ || c == "webm"@ || c == "avi"@ || c == "wmv"@
        || c == "flv"@ || c == "ogv"@ || c == "3gp"@ || c == "mpeg"@ || c == "vob"@
        || c == "swf"@
}

/// Normalises a target container name (`.MKV`, `matroska`, `m4v`, ...) to its canonical name.
pub fn normalize_container(value: &str) -> (r: Result<String, MediaError>)
    ensures
        match container_for(clean_name(value@)) {
            Some(c) => r matches Ok(s) && s@ == c,
            None => fails_with_message(
                r,
                ErrorCode::UnsupportedFormat,
                "Unsupported target container: "@ + clean_name(value@),
            ),
        },
{
    let v = clean_name_exec(value);
    if is_lit(&v, "mp4") || is_lit(&v, "m4v") {
        Ok(owned("mp4"))
    } else if is_lit(&v, "mkv") || is_lit(&v, "matroska") {
        Ok(owned("mkv"))
    } else if is_lit(&v, "mov") || is_lit(&v, "quicktime") {
        Ok(owned("mov"))
    } else if is_lit(&v, "webm") {
        Ok(owned("webm"))
    } else if is_lit(&v, "avi") {
        Ok(owned("avi"))
    } else if is_lit(&v, "wmv") || is_lit(&v, "asf") {
        Ok(owned("wmv"))
    } else if is_lit(&v, "flv") {
        Ok(owned("flv"))
    } else if is_lit(&v, "ogv") || is_lit(&v, "ogg") {
        Ok(owned("ogv"))
    } else if is_lit(&v, "3gp") || is_lit(&v, "3g2") {
        Ok(owned("3gp"))
    } else if is_lit(&v, "mpg") || is_lit(&v, "mpeg") || is_lit(&v, "mpeg1") || is_lit(&v, "mpeg2") {
        Ok(owned("mpeg"))
    } else if is_lit(&v, "vob") || is_lit(&v, "dvd") {
        Ok(owned("vob"))
    } else if is_lit(&v, "swf") {
        Ok(owned("swf"))
    } else {
        Err(MediaError::new(
            ErrorCode::UnsupportedFormat,
            concat("Unsupported target container: ", v.as_str()),
        ))
    }
}

/// Container named by a lowercased file extension, if it names one.
pub open spec fn container_by_extension(ext: Seq<char>) -> Option<Seq<char>> {
    if ext == "mp4"@ || ext == "m4v"@ {
        Some("mp4"@)
    } else if ext == "mkv"@ {
        Some("mkv"@)
    } else if ext == "mov"@ {
        Some("mov"@)
    } else if ext == "webm"@ {
        Some("webm"@)
    } else if ext == "avi"@ {
        Some("avi"@)
    } else if ext == "wmv"@ || ext == "asf"@ {
        Some("wmv"@)
    } else if ext == "flv"@ {
        Some("flv"@)
    } else if ext == "ogv"@ || ext == "ogg"@ {
        Some("ogv"@)
    } else if ext == "3gp"@ || ext == "3g2"@ {
        Some("3gp"@)
    } else if ext == "mpg"@ || ext == "mpeg"@ {
        Some("mpeg"@)
    } else if ext == "vob"@ {
        Some("vob"@)
    } else if ext == "swf"@ {
        Some("swf"@)
    } else {
        None
    }
}

fn container_by_extension_exec(ext: &String) -> (r: Option<String>)
    ensures
        match container_by_extension(ext@) {
            Some(c) => r matches Some(s) && s@ == c,
            None => r is None,
        },
{
    if is_lit(ext, "mp4") || is_lit(ext, "m4v") {
        Some(owned("mp4"))
    } else if is_lit(ext, "mkv") {
        Some(owned("mkv"))
    } else if is_lit(ext, "mov") {
        Some(owned("mov"))
    } else if is_lit(ext, "webm") {
        Some(owned("webm"))
    } else if is_lit(ext, "avi") {
        Some(owned("avi"))
    } else if is_lit(ext, "wmv") || is_lit(ext, "asf") {
        Some(owned("wmv"))
    } else if is_lit(ext, "flv") {
        Some(owned("flv"))
    } else if is_lit(ext, "ogv") || is_lit(ext, "ogg") {
        Some(owned("ogv"))
    } else if is_lit(ext, "3gp") || is_lit(ext, "3g2") {
        Some(owned("3gp"))
    } else if is_lit(ext, "mpg") || is_lit(ext, "mpeg") {
        Some(owned("mpeg"))
    } else if is_lit(ext, "vob") {
        Some(owned("vob"))
    } else if is_lit(ext, "swf") {
        Some(owned("swf"))
    } else {
        None
    }
}

pub open spec fn inspect_label_for(extension: Option<Seq<char>>, format_name: Seq<char>) -> Seq<char> {
    match extension {
        Some(e) => match container_by_extension(lowercase(e)) {
            Some(c) => if c == "mkv"@ { "matroska"@ } else { c },
            None => format_name,
        },
        None => format_name,
    }
}

/// Container label shown by `inspect`: taken from the file extension when it names a
/// known container (`mkv` shown as `matroska`), else the probed format name.
pub fn inspect_container_label(extension: Option<&str>, format_name: &str) -> (r: String)
    ensures
        r@ == inspect_label_for(
            match extension {
                Some(e) => Some(e@),
                None => None,
            },
            format_name@,
        ),
{
    match extension {
        Some(e) => {
            let lower = to_lower(e);
            match container_by_extension_exec(&lower) {
                Some(c) => if is_lit(&c, "mkv") {
                    owned("matroska")
                } else {
                    c
                },
                None => owned(format_name),
            }
        },
        None => owned(format_name),
    }
}

pub open spec fn internal_container_for(
    extension: Option<Seq<char>>,
    format_name: Seq<char>,
) -> Seq<char> {
    let by_ext = match extension {
        Some(e) => container_by_extension(lowercase(e)),
        None => None,
    };
    match by_ext {
        Some(c) => c,
        None => if contains_seq(format_name, "matroska"@) {
            "mkv"@
        } else {
            format_name
        },
    }
}

/// Source container used for planning: from the file extension when it names a known
/// container, else `mkv` for a Matroska probe, else the probed format name.
pub fn internal_container(extension: Option<&str>, format_name: &str) -> (r: String)
    ensures
        r@ == internal_container_for(
            match extension {
                Some(e) => Some(e@),
                None => None,
            },
            format_name@,
        ),
{
    let by_ext = match extension {
        Some(e) => {
            let lower = to_lower(e);
            container_by_extension_exec(&lower)
        },
        None => None,
    };
    match by_ext {
        Some(c) => c,
        None => if contains_text(format_name, "matroska") {
            owned("mkv")
        } else {
            owned(format_name)
        },
    }
}

// ---------------------------------------------------------------- audio and image formats

pub open spec fn is_audio_format(v: Seq<char>) -> bool {
    v == "mp3"@ || v == "aac"@ || v == "m4a"@ || v == "flac"@ || v == "wav"@ || v == "opus"@
        || v == "ogg"@ || v == "wma"@ || v == "aiff"@ || v == "aif"@ || v == "alac"@
        || v == "amr"@ || v == "ac3"@ || v == "mp2"@
}

/// Accepts a supported audio output format name, cleaned.
pub fn normalize_audio_format(value: &str) -> (r: Result<String, MediaError>)
    ensures
        is_audio_format(clean_name(value@)) ==> (r matches Ok(s) && s@ == clean_name(value@)),
        !is_audio_format(clean_name(value@)) ==> fails_with_message(
            r,
            ErrorCode::UnsupportedFormat,
            "Unsupported audio format: "@ + clean_name(value@),
        ),
{
    let v = clean_name_exec(value);
    if is_lit(&v, "mp3") || is_lit(&v, "aac") || is_lit(&v, "m4a") || is_lit(&v, "flac") || is_lit(&v, "wav")
        || is_lit(&v, "opus") || is_lit(&v, "ogg") || is_lit(&v, "wma") || is_lit(&v, "aiff") || is_lit(&v, "aif")
        || is_lit(&v, "alac") || is_lit(&v, "amr") || is_lit(&v, "ac3") || is_lit(&v, "mp2") {
        Ok(v)
    } else {
        Err(MediaError::new(
            ErrorCode::UnsupportedFormat,
            concat("Unsupported audio format: ", v.as_str()),
        ))
    }
}

pub open spec fn audio_codec_of(format: Seq<char>) -> Seq<char> {
    if format == "m4a"@ || format == "aac"@ {
        "aac"@
    } else if format == "mp3"@ {
        "mp3"@
    } else if format == "flac"@ {
        "flac"@
    } else if format == "wav"@ {
        "wav"@
    } else if format == "opus"@ {
        "opus"@
    } else if format == "ogg"@ {
        "vorbis"@
    } else if format == "wma"@ {
        "wmav2"@
    } else if format == "aiff"@ || format == "aif"@ {
        "aiff"@
    } else if format == "alac"@ {
        "alac"@
    } else if format == "amr"@ {
        "amr_nb"@
    } else if format == "ac3"@ {
        "ac3"@
    } else if format == "mp2"@ {
        "mp2"@
    } else {
        "aac"@
    }
}

/// The audio codec written for an audio output format.
pub fn audio_codec_for_format(format: &str) -> (r: &'static str)
    ensures
        r@ == audio_codec_of(format@),
{
    let f = owned(format);
    if is_lit(&f, "m4a") || is_lit(&f, "aac") {
        "aac"
    } else if is_lit(&f, "mp3") {
        "mp3"
    } else if is_lit(&f, "flac") {
        "flac"
    } else if is_lit(&f, "wav") {
        "wav"
    } else if is_lit(&f, "opus") {
        "opus"
    } else if is_lit(&f, "ogg") {
        "vorbis"
    } else if is_lit(&f, "wma") {
        "wmav2"
    } else if is_lit(&f, "aiff") || is_lit(&f, "aif") {
        "aiff"
    } else if is_lit(&f, "alac") {
        "alac"
    } else if is_lit(&f, "amr") {
        "amr_nb"
    } else if is_lit(&f, "ac3") {
        "ac3"
    } else if is_lit(&f, "mp2") {
        "mp2"
    } else {
        "aac"
    }
}

pub open spec fn audio_extension_of(format: Seq<char>) -> Seq<char> {
    if format == "aif"@ || format == "aiff"@ {
        "aiff"@
    } else if format == "alac"@ {
        "m4a"@
    } else {
        format
    }
}

/// File extension for an audio output format.
pub fn audio_output_extension(format: &str) -> (r: String)
    ensures
        r@ == audio_extension_of(format@),
{
    let f = owned(format);
    if is_lit(&f, "aif") || is_lit(&f, "aiff") {
        owned("aiff")
    } else if is_lit(&f, "alac") {
        owned("m4a")
    } else {
        f
    }
}

/// Whether the source audio codec can be copied into the audio output format unchanged.
pub open spec fn audio_copy_ok(codec: Seq<char>, format: Seq<char>) -> bool {
    if format == "m4a"@ || format == "aac"@ {
        codec == "aac"@
    } else if format == "mp3"@ {
        codec == "mp3"@
    } else if format == "flac"@ {
        codec == "flac"@
    } else if format == "wav"@ {
        starts_with(codec, "pcm_"@) || codec == "pcm_s16le"@
    } else if format == "opus"@ {
        codec == "opus"@
    } else if format == "ogg"@ {
        codec == "vorbis"@
    } else if format == "wma"@ {
        codec == "wmav1"@ || codec == "wmav2"@
    } else if format == "aiff"@ || format == "aif"@ {
        starts_with(codec, "pcm_"@) || codec == "alac"@
    } else if format == "alac"@ {
        codec == "alac"@
    } else if format == "amr"@ {
        codec == "amr_nb"@ || codec == "amr_wb"@
    } else if format == "ac3"@ {
        codec == "ac3"@
    } else if format == "mp2"@ {
        codec == "mp2"@
    } else {
        false
    }
}

/// Whether a source audio codec may be stream-copied into an audio output format.
pub fn audio_copy_compatible(codec: &str, format: &str) -> (r: bool)
    ensures
        r == audio_copy_ok(codec@, format@),
{
    let c = owned(codec);
    let f = owned(format);
    if is_lit(&f, "m4a") || is_lit(&f, "aac") {
        is_lit(&c, "aac")
    } else if is_lit(&f, "mp3") {
        is_lit(&c, "mp3")
    } else if is_lit(&f, "flac") {
        is_lit(&c, "flac")
    } else if is_lit(&f, "wav") {
        starts_with_text(codec, "pcm_") || is_lit(&c, "pcm_s16le")
    } else if is_lit(&f, "opus") {
        is_lit(&c, "opus")
    } else if is_lit(&f, "ogg") {
        is_lit(&c, "vorbis")
    } else if is_lit(&f, "wma") {
        is_lit(&c, "wmav1") || is_lit(&c, "wmav2")
    } else if is_lit(&f, "aiff") || is_lit(&f, "aif") {
        starts_with_text(codec, "pcm_") || is_lit(&c, "alac")
    } else if is_lit(&f, "alac") {
        is_lit(&c, "alac")
    } else if is_lit(&f, "amr") {
        is_lit(&c, "amr_nb") || is_lit(&c, "amr_wb")
    } else if is_lit(&f, "ac3") {
        is_lit(&c, "ac3")
    } else if is_lit(&f, "mp2") {
        is_lit(&c, "mp2")
    } else {
        false
    }
}

pub open spec fn image_format_for(v: Seq<char>) -> Option<Seq<char>> {
    if v == "jpg"@ || v == "jpeg"@ {
        Some("jpg"@)
    } else if v == "png"@ {
        Some("png"@)
    } else if v == "webp"@ {
        Some("webp"@)
    } else if v == "gif"@ {
        Some("gif"@)
    } else if v == "bmp"@ {
        Some("bmp"@)
    } else if v == "tif"@ || v == "tiff"@ {
        Some("tiff"@)
    } else if v == "ico"@ {
        Some("ico"@)
    } else if v == "tga"@ {
        Some("tga"@)
    } else if v == "avif"@ {
        Some("avif"@)
    } else {
        None
    }
}

/// Normalises an image format name (`.jpeg` to `jpg`, `tif` to `tiff`, ...).
pub fn normalize_image_format(value: &str) -> (r: Result<String, MediaError>)
    ensures
        match image_format_for(clean_name(value@)) {
            Some(f) => r matches Ok(s) && s@ == f,
            None => fails_with_message(
                r,
                ErrorCode::UnsupportedFormat,
                "Unsupported image format: "@ + clean_name(value@),
            ),
        },
{
    let v = clean_name_exec(value);
    if is_lit(&v, "jpg") || is_lit(&v, "jpeg") {
        Ok(owned("jpg"))
    } else if is_lit(&v, "png") {
        Ok(owned("png"))
    } else if is_lit(&v, "webp") {
        Ok(owned("webp"))
    } else if is_lit(&v, "gif") {
        Ok(owned("gif"))
    } else if is_lit(&v, "bmp") {
        Ok(owned("bmp"))
    } else if is_lit(&v, "tif") || is_lit(&v, "tiff") {
        Ok(owned("tiff"))
    } else if is_lit(&v, "ico") {
        Ok(owned("ico"))
    } else if is_lit(&v, "tga") {
        Ok(owned("tga"))
    } else if is_lit(&v, "avif") {
        Ok(owned("avif"))
    } else {
        Err(MediaError::new(
            ErrorCode::UnsupportedFormat,
            concat("Unsupported image format: ", v.as_str()),
        ))
    }
}

/// File extension for an image format: the format name itself.
pub fn image_output_extension(format: &str) -> (r: String)
    ensures
        r@ == format@,
{
    let f = owned(format);
    if is_lit(&f, "jpg") {
        owned("jpg")
    } else if is_lit(&f, "tiff") {
        owned("tiff")
    } else {
        f
    }
}

// ---------------------------------------------------------------- codec display

pub open spec fn codec_display(codec: Seq<char>) -> Seq<char> {
    if codec == "h264"@ {
        "H.264"@
    } else if codec == "hevc"@ || codec == "h265"@ {
        "HEVC"@
    } else if codec == "aac"@ {
        "AAC"@
    } else if codec == "truehd"@ {
        "TrueHD"@
    } else if codec == "opus"@ {
        "Opus"@
    } else if codec == "flac"@ {
        "FLAC"@
    } else {
        uppercase(codec)
    }
}

/// Human name of a codec: known names spelled out, others uppercased.
pub fn display_codec(codec: &str) -> (r: String)
    ensures
        r@ == codec_display(codec@),
{
    let c = owned(codec);
    if is_lit(&c, "h264") {
        owned("H.264")
    } else if is_lit(&c, "hevc") || is_lit(&c, "h265") {
        owned("HEVC")
    } else if is_lit(&c, "aac") {
        owned("AAC")
    } else if is_lit(&c, "truehd") {
        owned("TrueHD")
    } else if is_lit(&c, "opus") {
        owned("Opus")
    } else if is_lit(&c, "flac") {
        owned("FLAC")
    } else {
        to_upper(codec)
    }
}

} // verus!
