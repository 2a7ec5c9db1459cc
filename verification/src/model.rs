//! Shared data model: quality and hardware choices, the run context, probed streams,
//! and the error type that every operation reports.

use vstd::prelude::*;
use crate::codec::{default_audio_codec, default_video_codec, views};

verus! {

/// Compression and transcode quality preset.
#[derive(PartialEq, Eq, Structural, Clone, Copy, Debug)]
pub enum Quality {
    Lossless,
    VeryHigh,
    High,
    Balanced,
    Small,
    Tiny,
}

/// Requested video encoder hardware.
#[derive(PartialEq, Eq, Structural, Clone, Copy, Debug)]
pub enum HardwareMode {
    Auto,
    Cpu,
    Gpu,
}

/// Machine-readable error category.
#[derive(PartialEq, Eq, Structural, Clone, Copy, Debug)]
pub enum ErrorCode {
    InvalidArgument,
    InvalidMedia,
    UnsupportedFormat,
    UnsupportedCodec,
    UnsupportedHardware,
    EncoderUnavailable,
    DecoderUnavailable,
    HardwareUnavailable,
    FilterUnavailable,
    FileNotFound,
    OutputConflict,
    OutputUnwritable,
    DiscToolUnavailable,
    DiscToolFailed,
    VerifyFailed,
    FfmpegFailed,
    FfmpegNotFound,
}

/// A value attached to an error or a plan for machine-readable detail.
#[derive(Debug)]
pub enum DetailValue {
    Text(String),
    Texts(Vec<String>),
    Flag(bool),
    Null,
}

/// One named detail.
#[derive(Debug)]
pub struct Detail {
    pub key: String,
    pub value: DetailValue,
}

/// An operation failure: a code, a human message, details and suggestions.
#[derive(Debug)]
pub struct MediaError {
    pub code: ErrorCode,
    pub message: String,
    pub details: Vec<Detail>,
    pub suggestions: Vec<String>,
}

/// Whether `r` failed with code `code`.
pub open spec fn fails_with<T>(r: Result<T, MediaError>, code: ErrorCode) -> bool {
    r matches Err(e) && e.code == code
}

/// Whether `r` failed with code `code` and message `message`.
pub open spec fn fails_with_message<T>(
    r: Result<T, MediaError>,
    code: ErrorCode,
    message: Seq<char>,
) -> bool {
    r matches Err(e) && e.code == code && e.message@ == message
}

/// The detail `d` is named `key` and holds the text `value`.
pub open spec fn text_entry(d: Detail, key: Seq<char>, value: Seq<char>) -> bool {
    d.key@ == key && (d.value matches DetailValue::Text(t) && t@ == value)
}

/// The detail `d` is named `key` and holds the texts `values`.
pub open spec fn texts_entry(d: Detail, key: Seq<char>, values: Seq<Seq<char>>) -> bool {
    d.key@ == key && (d.value matches DetailValue::Texts(v) && views(v@) == values)
}

/// Whether `r` failed with code `code`, message `message` and the suggestions
/// `suggestions`, in order.
pub open spec fn refused<T>(
    r: Result<T, MediaError>,
    code: ErrorCode,
    message: Seq<char>,
    suggestions: Seq<Seq<char>>,
) -> bool {
    r matches Err(e) && e.code == code && e.message@ == message && views(e.suggestions@)
        == suggestions
}

impl MediaError {
    /// An error with no details and no suggestions.
    pub fn new(code: ErrorCode, message: String) -> (e: MediaError)
        ensures
            e.code == code,
            e.message == message,
            e.details@.len() == 0,
            e.suggestions@.len() == 0,
            views(e.suggestions@) == Seq::<Seq<char>>::empty(),
    {
        let e = MediaError { code, message, details: Vec::new(), suggestions: Vec::new() };
        assert(views(e.suggestions@) =~= Seq::<Seq<char>>::empty());
        e
    }

    /// The same error with its suggestions replaced.
    pub fn with_suggestions(self, suggestions: Vec<String>) -> (e: MediaError)
        ensures
            e.code == self.code,
            e.message == self.message,
            e.details == self.details,
            e.suggestions == suggestions,
    {
        MediaError { suggestions, ..self }
    }

    /// The same error with its details replaced.
    pub fn with_details(self, details: Vec<Detail>) -> (e: MediaError)
        ensures
            e.code == self.code,
            e.message == self.message,
            e.details == details,
            e.suggestions == self.suggestions,
    {
        MediaError { details, ..self }
    }
}

/// A text detail.
pub fn text_detail(key: &str, value: String) -> (d: Detail)
    ensures
        d.key@ == key@,
        d.value == DetailValue::Text(value),
{
    Detail { key: key.to_owned(), value: DetailValue::Text(value) }
}

/// Settings that apply to one invocation.
#[derive(Debug)]
pub struct Context {
    pub json: bool,
    pub dry_run: bool,
    pub overwrite: bool,
    pub verbose: bool,
    pub verify_after_execute: bool,
    pub progress: bool,
    pub default_quality: Quality,
    pub default_hardware: HardwareMode,
    pub default_video_codec: String,
    pub default_audio_codec: String,
}

/// One stream as reported by the media probe.
#[derive(Debug)]
pub struct StreamInfo {
    pub codec_type: Option<String>,
    pub codec_name: Option<String>,
    pub width: Option<u64>,
    pub height: Option<u64>,
    pub pix_fmt: Option<String>,
    pub bits_per_raw_sample_text: Option<String>,
    pub bits_per_raw_sample_number: Option<u64>,
    pub color_transfer: Option<String>,
    pub color_primaries: Option<String>,
    pub disposition_default: Option<u64>,
    pub disposition_forced: Option<u64>,
}

/// What the media probe reported about one file, without its float fields.
#[derive(Debug)]
pub struct ProbeInfo {
    pub format_name: Option<String>,
    pub streams: Vec<StreamInfo>,
}

} // verus!

verus! {

/// Two detail values that hold the same text.
pub open spec fn same_value(a: DetailValue, b: DetailValue) -> bool {
    match (a, b) {
        (DetailValue::Text(x), DetailValue::Text(y)) => x@ == y@,
        (DetailValue::Texts(x), DetailValue::Texts(y)) => x@ == y@,
        (DetailValue::Flag(x), DetailValue::Flag(y)) => x == y,
        (DetailValue::Null, DetailValue::Null) => true,
        _ => false,
    }
}

/// Two detail lists with the same keys and values, in order.
pub open spec fn same_details(a: Seq<Detail>, b: Seq<Detail>) -> bool {
    a.len() == b.len() && forall|i: int|
        0 <= i < a.len() ==> #[trigger] a[i].key@ == b[i].key@ && same_value(a[i].value, b[i].value)
}

/// Two errors that report the same thing.
pub open spec fn same_error(a: MediaError, b: MediaError) -> bool {
    &&& a.code == b.code
    &&& a.message@ == b.message@
    &&& same_details(a.details@, b.details@)
    &&& a.suggestions@ == b.suggestions@
}

/// A copy of a list of strings.
pub fn copy_strings(v: &Vec<String>) -> (r: Vec<String>)
    ensures
        r@ == v@,
{
    let mut out: Vec<String> = Vec::new();
    let mut i: usize = 0;
    while i < v.len()
        invariant
            0 <= i <= v@.len(),
            out@ == v@.take(i as int),
        decreases v.len() - i,
    {
        out.push(v[i].clone());
        i = i + 1;
        assert(out@ =~= v@.take(i as int));
    }
    assert(v@.take(v@.len() as int) =~= v@);
    out
}

/// A copy of a detail value.
pub fn copy_detail_value(v: &DetailValue) -> (r: DetailValue)
    ensures
        same_value(r, *v),
{
    match v {
        DetailValue::Text(s) => DetailValue::Text(String::clone(s)),
        DetailValue::Texts(items) => DetailValue::Texts(copy_strings(items)),
        DetailValue::Flag(b) => DetailValue::Flag(*b),
        DetailValue::Null => DetailValue::Null,
    }
}

/// A copy of a list of details.
pub fn copy_details(v: &Vec<Detail>) -> (r: Vec<Detail>)
    ensures
        same_details(r@, v@),
{
    let mut out: Vec<Detail> = Vec::new();
    let mut i: usize = 0;
    while i < v.len()
        invariant
            0 <= i <= v@.len(),
            out@.len() == i,
            forall|k: int|
                0 <= k < i ==> #[trigger] out@[k].key@ == v@[k].key@ && same_value(
                    out@[k].value,
                    v@[k].value,
                ),
        decreases v.len() - i,
    {
        let d = Detail { key: v[i].key.clone(), value: copy_detail_value(&v[i].value) };
        out.push(d);
        i = i + 1;
    }
    out
}

/// A copy of an error.
pub fn copy_error(e: &MediaError) -> (r: MediaError)
    ensures
        same_error(r, *e),
{
    MediaError {
        code: e.code,
        message: e.message.clone(),
        details: copy_details(&e.details),
        suggestions: copy_strings(&e.suggestions),
    }
}

} // verus!

verus! {

/// The wire name of an error code.
pub open spec fn code_text(code: ErrorCode) -> Seq<char> {
    match code {
        ErrorCode::InvalidArgument => "INVALID_ARGUMENT"@,
        ErrorCode::InvalidMedia => "INVALID_MEDIA"@,
        ErrorCode::UnsupportedFormat => "UNSUPPORTED_FORMAT"@,
        ErrorCode::UnsupportedCodec => "UNSUPPORTED_CODEC"@,
        ErrorCode::UnsupportedHardware => "UNSUPPORTED_HARDWARE"@,
        ErrorCode::EncoderUnavailable => "ENCODER_UNAVAILABLE"@,
        ErrorCode::DecoderUnavailable => "DECODER_UNAVAILABLE"@,
        ErrorCode::HardwareUnavailable => "HARDWARE_UNAVAILABLE"@,
        ErrorCode::FilterUnavailable => "FILTER_UNAVAILABLE"@,
        ErrorCode::FileNotFound => "FILE_NOT_FOUND"@,
        ErrorCode::OutputConflict => "OUTPUT_CONFLICT"@,
        ErrorCode::OutputUnwritable => "OUTPUT_UNWRITABLE"@,
        ErrorCode::DiscToolUnavailable => "DISC_TOOL_UNAVAILABLE"@,
        ErrorCode::DiscToolFailed => "DISC_TOOL_FAILED"@,
        ErrorCode::VerifyFailed => "VERIFY_FAILED"@,
        ErrorCode::FfmpegFailed => "FFMPEG_FAILED"@,
        ErrorCode::FfmpegNotFound => "FFMPEG_NOT_FOUND"@,
    }
}

/// The name under which an error code is reported.
pub fn code_name(code: ErrorCode) -> (r: &'static str)
    ensures
        r@ == code_text(code),
{
    match code {
        ErrorCode::InvalidArgument => "INVALID_ARGUMENT",
        ErrorCode::InvalidMedia => "INVALID_MEDIA",
        ErrorCode::UnsupportedFormat => "UNSUPPORTED_FORMAT",
        ErrorCode::UnsupportedCodec => "UNSUPPORTED_CODEC",
        ErrorCode::UnsupportedHardware => "UNSUPPORTED_HARDWARE",
        ErrorCode::EncoderUnavailable => "ENCODER_UNAVAILABLE",
        ErrorCode::DecoderUnavailable => "DECODER_UNAVAILABLE",
        ErrorCode::HardwareUnavailable => "HARDWARE_UNAVAILABLE",
        ErrorCode::FilterUnavailable => "FILTER_UNAVAILABLE",
        ErrorCode::FileNotFound => "FILE_NOT_FOUND",
        ErrorCode::OutputConflict => "OUTPUT_CONFLICT",
        ErrorCode::OutputUnwritable => "OUTPUT_UNWRITABLE",
        ErrorCode::DiscToolUnavailable => "DISC_TOOL_UNAVAILABLE",
        ErrorCode::DiscToolFailed => "DISC_TOOL_FAILED",
        ErrorCode::VerifyFailed => "VERIFY_FAILED",
        ErrorCode::FfmpegFailed => "FFMPEG_FAILED",
        ErrorCode::FfmpegNotFound => "FFMPEG_NOT_FOUND",
    }
}

} // verus!
