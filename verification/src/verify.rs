//! Verification of a written output against its input and its plan: presence and shape of
//! the streams, size, decodability, and the checks particular to each operation.

use vstd::prelude::*;
use crate::args::{push_arg};
use crate::codec::{lemma_views_push, views};
use crate::model::{ErrorCode, MediaError, StreamInfo, fails_with_message, refused, same_error};
use crate::names::{is_lit};
use crate::streams::{count_kind, first_index, first_stream, has_kind, has_stream, lemma_first_index, stream_count};
use crate::text::{decimal, owned, str_eq, u64_text};

verus! {

/// The general checks of an output.
#[derive(Debug)]
pub struct Checks {
    pub size_bytes: u64,
    pub size_positive: bool,
    pub duration_match: bool,
    pub video_present: bool,
    pub audio_present: bool,
    pub audio_expected: bool,
    pub audio_match: bool,
    pub resolution_match: bool,
    pub video_codec_match: bool,
    pub audio_codec_match: bool,
    pub stream_counts_match: bool,
    pub decode_errors: bool,
}

/// The outcome of verifying an output.
#[derive(Debug)]
pub struct Verification {
    pub valid: bool,
    pub checks: Checks,
    pub warnings: Vec<String>,
}

/// The first stream of `kind`, if any.
pub open spec fn first_of(s: Seq<StreamInfo>, kind: Seq<char>) -> Option<StreamInfo> {
    match first_index(s, kind) {
        Some(i) => Some(s[i]),
        None => None,
    }
}

pub open spec fn same_text(a: Option<String>, b: Option<String>) -> bool {
    match (a, b) {
        (Some(x), Some(y)) => x@ == y@,
        (None, None) => true,
        _ => false,
    }
}

/// Two first streams agree on a property when either is missing or both agree.
pub open spec fn first_streams_agree(
    a: Seq<StreamInfo>,
    b: Seq<StreamInfo>,
    kind: Seq<char>,
    dims: bool,
) -> bool {
    match (first_of(a, kind), first_of(b, kind)) {
        (Some(x), Some(y)) => if dims {
            x.width == y.width && x.height == y.height
        } else {
            same_text(x.codec_name, y.codec_name)
        },
        _ => true,
    }
}

/// The checks of an output against its input, from the probed streams of both and what
/// was measured of the output (duration agreement, decode errors, size).
pub open spec fn checks_for(
    source: Seq<StreamInfo>,
    output: Seq<StreamInfo>,
    duration_match: bool,
    decode_errors: bool,
    size_bytes: u64,
) -> Checks {
    let audio_expected = has_kind(source, "audio"@);
    let audio_present = has_kind(output, "audio"@);
    Checks {
        size_bytes,
        size_positive: size_bytes > 0,
        duration_match,
        video_present: has_kind(output, "video"@),
        audio_present,
        audio_expected,
        audio_match: !audio_expected || audio_present,
        resolution_match: first_streams_agree(source, output, "video"@, true),
        video_codec_match: first_streams_agree(source, output, "video"@, false),
        audio_codec_match: first_streams_agree(source, output, "audio"@, false),
        stream_counts_match: count_kind(source, "video"@) == count_kind(output, "video"@)
            && count_kind(source, "audio"@) == count_kind(output, "audio"@) && count_kind(
            source,
            "subtitle"@,
        ) == count_kind(output, "subtitle"@),
        decode_errors,
    }
}

/// The warnings that a set of checks raises, in order.
pub open spec fn check_warnings(c: Checks) -> Seq<Seq<char>> {
    (if !c.audio_match {
        seq!["Output is missing the input audio stream."@]
    } else {
        Seq::empty()
    }) + (if !c.resolution_match {
        seq!["Output resolution differs from the input."@]
    } else {
        Seq::empty()
    }) + (if !c.video_codec_match || !c.audio_codec_match {
        seq!["Output codec differs from the input."@]
    } else {
        Seq::empty()
    }) + (if !c.stream_counts_match {
        seq!["The output stream counts differ from the input."@]
    } else {
        Seq::empty()
    }) + (if !c.duration_match {
        seq!["Output duration differs materially from the input."@]
    } else {
        Seq::empty()
    })
}

fn first_agree(a: &Vec<StreamInfo>, b: &Vec<StreamInfo>, kind: &str, dims: bool) -> (r: bool)
    ensures
        r == first_streams_agree(a@, b@, kind@, dims),
{
    proof {
        lemma_first_index(a@, kind@);
        lemma_first_index(b@, kind@);
    }
    match (first_stream(a, kind), first_stream(b, kind)) {
        (Some(x), Some(y)) => {
            if dims {
                x.width == y.width && x.height == y.height
            } else {
                match (&x.codec_name, &y.codec_name) {
                    (Some(p), Some(q)) => str_eq(p.as_str(), q.as_str()),
                    (None, None) => true,
                    _ => false,
                }
            }
        },
        _ => true,
    }
}

/// Verifies an output against its input. `duration_match` says whether the durations
/// agree within tolerance, `decode_errors` whether decoding a sample of the output
/// failed, and `size_bytes` is the output's size. The output is valid when it is not
/// empty, its duration agrees, it has video, it keeps the input's audio, and it decodes.
#[verifier::rlimit(40)]
pub fn verify_value(
    source: &Vec<StreamInfo>,
    output: &Vec<StreamInfo>,
    duration_match: bool,
    decode_errors: bool,
    size_bytes: u64,
) -> (v: Verification)
    ensures
        v.checks == checks_for(source@, output@, duration_match, decode_errors, size_bytes),
        v.valid == (v.checks.size_positive && v.checks.duration_match && v.checks.video_present
            && v.checks.audio_match && !v.checks.decode_errors),
        views(v.warnings@) == check_warnings(v.checks),
{
    let audio_expected = has_stream(source, "audio");
    let audio_present = has_stream(output, "audio");
    let checks = Checks {
        size_bytes,
        size_positive: size_bytes > 0,
        duration_match,
        video_present: has_stream(output, "video"),
        audio_present,
        audio_expected,
        audio_match: !audio_expected || audio_present,
        resolution_match: first_agree(source, output, "video", true),
        video_codec_match: first_agree(source, output, "video", false),
        audio_codec_match: first_agree(source, output, "audio", false),
        stream_counts_match: stream_count(source, "video") == stream_count(output, "video")
            && stream_count(source, "audio") == stream_count(output, "audio") && stream_count(
            source,
            "subtitle",
        ) == stream_count(output, "subtitle"),
        decode_errors,
    };
    let mut warnings: Vec<String> = Vec::new();
    if !checks.audio_match {
        warnings.push(owned("Output is missing the input audio stream."));
    }
    if !checks.resolution_match {
        warnings.push(owned("Output resolution differs from the input."));
    }
    if !checks.video_codec_match || !checks.audio_codec_match {
        warnings.push(owned("Output codec differs from the input."));
    }
    if !checks.stream_counts_match {
        warnings.push(owned("The output stream counts differ from the input."));
    }
    if !checks.duration_match {
        warnings.push(owned("Output duration differs materially from the input."));
    }
    assert(views(warnings@) =~= check_warnings(checks));
    let valid = checks.size_positive && checks.duration_match && checks.video_present
        && checks.audio_match && !checks.decode_errors;
    Verification { valid, checks, warnings }
}

/// The size check of a compression towards a target size.
#[derive(Debug)]
pub struct TargetSizeCheck {
    pub target_size_bytes: u64,
    pub target_size_match: bool,
}

/// Adds the target-size check of a compression: the output may not be larger than the
/// target; a larger output is reported and makes the verification fail.
pub fn verify_compress_output(v: &mut Verification, target_size_bytes: Option<u64>) -> (r: Option<
    TargetSizeCheck,
>)
    ensures
        match target_size_bytes {
            None => r is None && final(v).valid == old(v).valid && final(v).warnings@ == old(
                v,
            ).warnings@,
            Some(t) => {
                let fits = old(v).checks.size_bytes <= t;
                r matches Some(c) && c.target_size_bytes == t && c.target_size_match == fits
                    && final(v).valid == (old(v).valid && fits) && views(final(v).warnings@) == (
                if fits {
                    views(old(v).warnings@)
                } else {
                    views(old(v).warnings@).push(
                        "Output size "@ + decimal(old(v).checks.size_bytes as nat)
                            + " exceeds target size "@ + decimal(t as nat) + "."@,
                    )
                })
            },
        },
        final(v).checks == old(v).checks,
{
    let t = match target_size_bytes {
        Some(t) => t,
        None => {
            return None;
        },
    };
    let actual = v.checks.size_bytes;
    let fits = actual <= t;
    if !fits {
        let mut w = owned("Output size ");
        w.append(u64_text(actual).as_str());
        w.append(" exceeds target size ");
        w.append(u64_text(t).as_str());
        w.append(".");
        push_arg(&mut v.warnings, w);
    }
    v.valid = v.valid && fits;
    Some(TargetSizeCheck { target_size_bytes: t, target_size_match: fits })
}

/// The dimension checks of a resize.
#[derive(Debug)]
pub struct DimensionCheck {
    pub width: Option<u64>,
    pub height: Option<u64>,
    pub target_dimension_match: bool,
    pub even_dimensions_match: bool,
}

/// `s` without the elements spelling `w`.
pub open spec fn without_text(s: Seq<Seq<char>>, w: Seq<char>) -> Seq<Seq<char>> {
    s.filter(|x: Seq<char>| x != w)
}

/// Adds the dimension checks of a resize: the output video's `axis` dimension must be the
/// planned one and both its dimensions even. The general resolution warning is replaced
/// by these.
pub fn verify_resize_output(
    v: &mut Verification,
    output: &Vec<StreamInfo>,
    axis: &str,
    effective: u64,
) -> (r: DimensionCheck)
    ensures
        ({
            let video = first_of(output@, "video"@);
            let width = match video {
                Some(s) => s.width,
                None => None,
            };
            let height = match video {
                Some(s) => s.height,
                None => None,
            };
            let actual = if axis@ == "width"@ {
                width
            } else if axis@ == "height"@ {
                height
            } else {
                None
            };
            let target_match = actual == Some(effective);
            let even = width matches Some(w) && height matches Some(h) && w % 2 == 0 && h % 2 == 0;
            &&& r.width == width
            &&& r.height == height
            &&& r.target_dimension_match == target_match
            &&& r.even_dimensions_match == even
            &&& final(v).valid == (old(v).valid && target_match && even)
            &&& views(final(v).warnings@) == without_text(
                views(old(v).warnings@),
                "Output resolution differs from the input."@,
            ) + (if target_match {
                Seq::empty()
            } else {
                seq!["Output resolution does not match the resize plan."@]
            }) + (if even {
                Seq::empty()
            } else {
                seq!["Output dimensions are not both even."@]
            })
        }),
        final(v).checks == old(v).checks,
{
    proof {
        lemma_first_index(output@, "video"@);
    }
    let (width, height) = match first_stream(output, "video") {
        Some(s) => (s.width, s.height),
        None => (None, None),
    };
    let actual = if str_eq(axis, "width") {
        width
    } else if str_eq(axis, "height") {
        height
    } else {
        None
    };
    let target_match = match actual {
        Some(a) => a == effective,
        None => false,
    };
    let even = match (width, height) {
        (Some(w), Some(h)) => w % 2 == 0 && h % 2 == 0,
        _ => false,
    };
    let ghost old_views = views(v.warnings@);
    let mut kept: Vec<String> = Vec::new();
    let mut i: usize = 0;
    while i < v.warnings.len()
        invariant
            old_views == views(v.warnings@),
            0 <= i <= v.warnings@.len(),
            views(kept@) == without_text(
                old_views.take(i as int),
                "Output resolution differs from the input."@,
            ),
        decreases v.warnings.len() - i,
    {
        proof {
            assert(old_views.take(i + 1).drop_last() =~= old_views.take(i as int));
            reveal(Seq::filter);
        }
        if !str_eq(v.warnings[i].as_str(), "Output resolution differs from the input.") {
            let ghost before = kept@;
            kept.push(v.warnings[i].clone());
            proof {
                lemma_views_push(before, kept@.last());
            }
        }
        i = i + 1;
    }
    assert(old_views.take(old_views.len() as int) =~= old_views);
    if !target_match {
        push_arg(&mut kept, owned("Output resolution does not match the resize plan."));
    }
    if !even {
        push_arg(&mut kept, owned("Output dimensions are not both even."));
    }
    v.warnings = kept;
    v.valid = v.valid && target_match && even;
    proof {
        assert(views(v.warnings@) =~= without_text(
            old_views,
            "Output resolution differs from the input."@,
        ) + (if target_match {
            Seq::<Seq<char>>::empty()
        } else {
            seq!["Output resolution does not match the resize plan."@]
        }) + (if even {
            Seq::<Seq<char>>::empty()
        } else {
            seq!["Output dimensions are not both even."@]
        }));
    }
    DimensionCheck { width, height, target_dimension_match: target_match, even_dimensions_match: even }
}

// ---------------------------------------------------------------- transformed outputs

/// What the plan of a transforming operation recorded that its verification reads.
#[derive(Clone, Copy, Debug)]
pub struct PlanFacts {
    pub disc_cd: bool,
    pub video_present: Option<bool>,
    pub audio_present: Option<bool>,
}

/// Whether an operation's output must carry video.
pub open spec fn video_required(operation: Seq<char>, facts: PlanFacts) -> bool {
    if operation == "audio"@ {
        false
    } else if operation == "disc"@ {
        !facts.disc_cd
    } else if operation == "merge"@ {
        facts.video_present == Some(true)
    } else {
        true
    }
}

/// Whether an operation's output must carry audio.
pub open spec fn audio_required(operation: Seq<char>, facts: PlanFacts) -> bool {
    if operation == "image"@ || operation == "gif"@ {
        false
    } else if operation == "edit"@ || operation == "repair"@ {
        facts.audio_present != Some(false)
    } else if operation == "merge"@ {
        facts.audio_present == Some(true)
    } else if operation == "disc"@ {
        facts.disc_cd
    } else {
        false
    }
}

/// The checks of a transformed output (image, GIF, edit, merge, repair, disc).
#[derive(Debug)]
pub struct TransformChecks {
    pub valid: bool,
    pub size_bytes: u64,
    pub size_positive: bool,
    pub video_present: bool,
    pub video_match: bool,
    pub audio_present: bool,
    pub audio_match: bool,
    pub decode_errors: bool,
}

/// Verifies the output of a transforming operation: not empty, decodable, and carrying
/// the streams that the operation's plan requires.
pub fn verify_transformed_output(
    operation: &str,
    facts: PlanFacts,
    output: &Vec<StreamInfo>,
    decode_errors: bool,
    size_bytes: u64,
) -> (c: TransformChecks)
    ensures
        c.video_present == has_kind(output@, "video"@),
        c.audio_present == has_kind(output@, "audio"@),
        c.video_match == (!video_required(operation@, facts) || c.video_present),
        c.audio_match == (!audio_required(operation@, facts) || c.audio_present),
        c.size_bytes == size_bytes,
        c.size_positive == (size_bytes > 0),
        c.decode_errors == decode_errors,
        c.valid == (c.size_positive && c.video_match && c.audio_match && !decode_errors),
{
    let op = owned(operation);
    let video_needed = if is_lit(&op, "audio") {
        false
    } else if is_lit(&op, "disc") {
        !facts.disc_cd
    } else if is_lit(&op, "merge") {
        facts.video_present == Some(true)
    } else {
        true
    };
    let audio_needed = if is_lit(&op, "image") || is_lit(&op, "gif") {
        false
    } else if is_lit(&op, "edit") || is_lit(&op, "repair") {
        facts.audio_present != Some(false)
    } else if is_lit(&op, "merge") {
        facts.audio_present == Some(true)
    } else if is_lit(&op, "disc") {
        facts.disc_cd
    } else {
        false
    };
    let video_present = has_stream(output, "video");
    let audio_present = has_stream(output, "audio");
    let video_match = !video_needed || video_present;
    let audio_match = !audio_needed || audio_present;
    TransformChecks {
        valid: size_bytes > 0 && video_match && audio_match && !decode_errors,
        size_bytes,
        size_positive: size_bytes > 0,
        video_present,
        video_match,
        audio_present,
        audio_match,
        decode_errors,
    }
}

/// The validity of an audio output: it has audio, decodes, and is not empty.
pub fn verify_audio_output(output: &Vec<StreamInfo>, decode_errors: bool, size_bytes: u64) -> (r:
    bool)
    ensures
        r == (has_kind(output@, "audio"@) && !decode_errors && size_bytes > 0),
{
    has_stream(output, "audio") && !decode_errors && size_bytes > 0
}

/// The validity of a thumbnail: it has a frame, decodes, and is not empty.
pub fn verify_thumbnail_output(output: &Vec<StreamInfo>, decode_errors: bool, size_bytes: u64) -> (r:
    bool)
    ensures
        r == (has_kind(output@, "video"@) && !decode_errors && size_bytes > 0),
{
    has_stream(output, "video") && !decode_errors && size_bytes > 0
}

/// The validity of a clip: it has video, decodes, lasts as planned (within tolerance),
/// and is not empty.
pub fn verify_clip_output(
    output: &Vec<StreamInfo>,
    decode_errors: bool,
    duration_match: bool,
    size_bytes: u64,
) -> (r: bool)
    ensures
        r == (has_kind(output@, "video"@) && !decode_errors && duration_match && size_bytes > 0),
{
    has_stream(output, "video") && !decode_errors && duration_match && size_bytes > 0
}

/// How an operation's output is verified.
#[derive(PartialEq, Eq, Structural, Clone, Copy, Debug)]
pub enum VerifyKind {
    Compress,
    Resize,
    Audio,
    Thumbnail,
    Clip,
    Transformed,
    General,
}

pub open spec fn verify_kind_for(operation: Seq<char>) -> VerifyKind {
    if operation == "compress"@ {
        VerifyKind::Compress
    } else if operation == "resize"@ {
        VerifyKind::Resize
    } else if operation == "extract_audio"@ || operation == "audio"@ {
        VerifyKind::Audio
    } else if operation == "thumbnail"@ {
        VerifyKind::Thumbnail
    } else if operation == "clip"@ {
        VerifyKind::Clip
    } else if operation == "image"@ || operation == "gif"@ || operation == "edit"@ || operation
        == "merge"@ || operation == "repair"@ || operation == "disc"@ {
        VerifyKind::Transformed
    } else {
        VerifyKind::General
    }
}

/// Which verification an operation's output gets.
pub fn verify_operation(operation: &str) -> (k: VerifyKind)
    ensures
        k == verify_kind_for(operation@),
{
    let op = owned(operation);
    if is_lit(&op, "compress") {
        VerifyKind::Compress
    } else if is_lit(&op, "resize") {
        VerifyKind::Resize
    } else if is_lit(&op, "extract_audio") || is_lit(&op, "audio") {
        VerifyKind::Audio
    } else if is_lit(&op, "thumbnail") {
        VerifyKind::Thumbnail
    } else if is_lit(&op, "clip") {
        VerifyKind::Clip
    } else if is_lit(&op, "image") || is_lit(&op, "gif") || is_lit(&op, "edit") || is_lit(
        &op,
        "merge",
    ) || is_lit(&op, "repair") || is_lit(&op, "disc") {
        VerifyKind::Transformed
    } else {
        VerifyKind::General
    }
}

/// The outcome of `verify` on a finished verification: success when it is valid, else a
/// verification failure.
pub fn verify_command(input_check: Result<(), MediaError>, output_check: Result<(), MediaError>, valid: Option<bool>) -> (r:
    Result<(), MediaError>)
    ensures
        input_check is Err ==> (r matches Err(e) && same_error(e, input_check->Err_0)),
        input_check is Ok && output_check is Err ==> (r matches Err(e) && same_error(
            e,
            output_check->Err_0,
        )),
        input_check is Ok && output_check is Ok ==> (valid == Some(true) <==> r is Ok),
        input_check is Ok && output_check is Ok && valid == Some(false) ==> fails_with_message(
            r,
            ErrorCode::VerifyFailed,
            "One or more output checks failed."@,
        ),
        input_check is Ok && output_check is Ok && valid is None ==> fails_with_message(
            r,
            ErrorCode::VerifyFailed,
            "Could not complete output verification."@,
        ),
{
    if let Err(e) = input_check {
        return Err(e);
    }
    if let Err(e) = output_check {
        return Err(e);
    }
    match valid {
        Some(true) => Ok(()),
        Some(false) => Err(MediaError::new(
            ErrorCode::VerifyFailed,
            owned("One or more output checks failed."),
        )),
        None => Err(MediaError::new(
            ErrorCode::VerifyFailed,
            owned("Could not complete output verification."),
        )),
    }
}

/// What became of the verification that follows a run.
#[derive(PartialEq, Eq, Structural, Clone, Copy, Debug)]
pub enum VerificationStep {
    /// Verification is disabled for this run.
    Skipped,
    /// The output was checked and not found invalid.
    Verified,
}

/// The verification decision after FFmpeg completed a plan: skipped when verification
/// is disabled; refused when it found the output invalid (`valid` is what it reported);
/// verified otherwise.
pub fn execution_outcome(verify_after_execute: bool, valid: Option<bool>) -> (r: Result<
    VerificationStep,
    MediaError,
>)
    ensures
        !verify_after_execute ==> r == Ok::<VerificationStep, MediaError>(VerificationStep::Skipped),
        verify_after_execute && valid == Some(false) ==> refused(
            r,
            ErrorCode::VerifyFailed,
            "FFmpeg completed but the output did not pass verification."@,
            Seq::empty(),
        ),
        verify_after_execute && valid != Some(false) ==> r == Ok::<VerificationStep, MediaError>(
            VerificationStep::Verified,
        ),
{
    if !verify_after_execute {
        return Ok(VerificationStep::Skipped);
    }
    if valid == Some(false) {
        return Err(
            MediaError::new(
                ErrorCode::VerifyFailed,
                owned("FFmpeg completed but the output did not pass verification."),
            ),
        );
    }
    Ok(VerificationStep::Verified)
}

/// The same decision after a run of a plan that names its own inputs, which reports the
/// refusal as the operation's rather than FFmpeg's.
pub fn custom_execution_outcome(verify_after_execute: bool, valid: Option<bool>) -> (r: Result<
    VerificationStep,
    MediaError,
>)
    ensures
        !verify_after_execute ==> r == Ok::<VerificationStep, MediaError>(VerificationStep::Skipped),
        verify_after_execute && valid == Some(false) ==> refused(
            r,
            ErrorCode::VerifyFailed,
            "Operation completed but the output did not pass verification."@,
            Seq::empty(),
        ),
        verify_after_execute && valid != Some(false) ==> r == Ok::<VerificationStep, MediaError>(
            VerificationStep::Verified,
        ),
{
    if !verify_after_execute {
        return Ok(VerificationStep::Skipped);
    }
    if valid == Some(false) {
        return Err(
            MediaError::new(
                ErrorCode::VerifyFailed,
                owned("Operation completed but the output did not pass verification."),
            ),
        );
    }
    Ok(VerificationStep::Verified)
}

} // verus!
