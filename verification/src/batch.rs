//! Batch conversion: which inputs a batch takes (a file, a directory of media files, or a
//! wildcard pattern), and the summary of its results.

use vstd::prelude::*;
use crate::model::{ErrorCode, MediaError, fails_with_message};
use crate::names::{is_lit};
use crate::text::{all_ascii, ascii_lower_char, concat, has_char, has_char_text, lower_key, lowercase, owned, to_lower};
use vstd::string::StringSliceAdditionalSpecFns;

verus! {

/// ASCII lowercase of one byte.
pub open spec fn lower_byte(b: u8) -> u8 {
    if 65 <= b <= 90 {
        (b + 32) as u8
    } else {
        b
    }
}

/// Shell-style matching of bytes: `*` matches any run, `?` any one byte, and other bytes
/// match themselves ignoring ASCII case.
pub open spec fn wild(v: Seq<u8>, p: Seq<u8>) -> bool
    decreases p.len() + v.len(),
{
    if p.len() == 0 {
        v.len() == 0
    } else if p[0] == 42u8 {
        wild(v, p.drop_first()) || (v.len() > 0 && wild(v.drop_first(), p))
    } else if p[0] == 63u8 {
        v.len() > 0 && wild(v.drop_first(), p.drop_first())
    } else {
        v.len() > 0 && lower_byte(v[0]) == lower_byte(p[0]) && wild(v.drop_first(), p.drop_first())
    }
}

/// A lone `*` matches every name.
pub proof fn lemma_star_matches_everything(v: Seq<u8>)
    ensures
        wild(v, seq![42u8]),
    decreases v.len(),
{
    let p = seq![42u8];
    assert(p.drop_first() =~= Seq::<u8>::empty());
    assert(p[0] == 42u8);
    if v.len() > 0 {
        lemma_star_matches_everything(v.drop_first());
    } else {
        assert(wild(v, p.drop_first()));
    }
}

/// Every name matches itself taken as a pattern.
pub proof fn lemma_name_matches_itself(v: Seq<u8>)
    ensures
        wild(v, v),
    decreases v.len(),
{
    if v.len() > 0 {
        lemma_name_matches_itself(v.drop_first());
        if v[0] == 42u8 {
            assert(wild(v.drop_first(), v));
        }
    }
}

fn lower_byte_exec(b: u8) -> (r: u8)
    ensures
        r == lower_byte(b),
{
    if 65 <= b && b <= 90 {
        b + 32
    } else {
        b
    }
}

fn wild_from(value: &[u8], i: usize, pattern: &[u8], j: usize) -> (r: bool)
    requires
        i <= value@.len(),
        j <= pattern@.len(),
    ensures
        r == wild(value@.skip(i as int), pattern@.skip(j as int)),
    decreases (pattern@.len() - j) + (value@.len() - i),
{
    let ghost v = value@.skip(i as int);
    let ghost p = pattern@.skip(j as int);
    if j == pattern.len() {
        return i == value.len();
    }
    assert(p.drop_first() =~= pattern@.skip(j + 1));
    if i < value.len() {
        assert(v.drop_first() =~= value@.skip(i + 1));
    }
    let c = pattern[j];
    if c == 42u8 {
        wild_from(value, i, pattern, j + 1) || (i < value.len() && wild_from(
            value,
            i + 1,
            pattern,
            j,
        ))
    } else if c == 63u8 {
        i < value.len() && wild_from(value, i + 1, pattern, j + 1)
    } else {
        i < value.len() && lower_byte_exec(value[i]) == lower_byte_exec(c) && wild_from(
            value,
            i + 1,
            pattern,
            j + 1,
        )
    }
}

/// Whether `value` matches the byte pattern (`*`, `?`, ASCII case ignored).
pub fn wildcard_match_bytes(value: &[u8], pattern: &[u8]) -> (r: bool)
    ensures
        r == wild(value@, pattern@),
{
    assert(value@.skip(0) =~= value@);
    assert(pattern@.skip(0) =~= pattern@);
    wild_from(value, 0, pattern, 0)
}

/// Whether a file name matches a wildcard pattern, compared byte by byte.
pub fn wildcard_match(value: &str, pattern: &str) -> (r: bool)
    ensures
        r == wild(value.spec_bytes(), pattern.spec_bytes()),
{
    wildcard_match_bytes(value.as_bytes(), pattern.as_bytes())
}

/// The extensions of the files a directory batch takes.
pub open spec fn media_extension(e: Seq<char>) -> bool {
    e == "mp4"@ || e == "mkv"@ || e == "mov"@ || e == "webm"@ || e == "avi"@ || e == "wmv"@
        || e == "asf"@ || e == "flv"@ || e == "ogv"@ || e == "3gp"@ || e == "mpg"@ || e == "mpeg"@
        || e == "vob"@ || e == "swf"@ || e == "m4v"@ || e == "mts"@ || e == "m2ts"@ || e == "mp3"@
        || e == "wav"@ || e == "flac"@ || e == "m4a"@ || e == "aac"@ || e == "opus"@ || e == "ogg"@
        || e == "wma"@ || e == "aiff"@ || e == "aif"@ || e == "alac"@ || e == "amr"@ || e == "ac3"@
        || e == "mp2"@ || e == "png"@ || e == "jpg"@ || e == "jpeg"@ || e == "webp"@ || e == "gif"@
        || e == "bmp"@ || e == "tif"@ || e == "tiff"@ || e == "ico"@ || e == "tga"@ || e == "avif"@
}

/// The extensions a directory batch takes, as written in lowercase: video containers,
/// audio formats and image formats.
pub open spec fn taken_extensions() -> Seq<Seq<char>> {
seq![
    "mp4"@,
    "mkv"@,
    "mov"@,
    "webm"@,
    "avi"@,
    "wmv"@,
    "asf"@,
    "flv"@,
    "ogv"@,
    "3gp"@,
    "mpg"@,
    "mpeg"@,
    "vob"@,
    "swf"@,
    "m4v"@,
    "mts"@,
    "m2ts"@,
    "mp3"@,
    "wav"@,
    "flac"@,
    "m4a"@,
    "aac"@,
    "opus"@,
    "ogg"@,
    "wma"@,
    "aiff"@,
    "aif"@,
    "alac"@,
    "amr"@,
    "ac3"@,
    "mp2"@,
    "png"@,
    "jpg"@,
    "jpeg"@,
    "webp"@,
    "gif"@,
    "bmp"@,
    "tif"@,
    "tiff"@,
    "ico"@,
    "tga"@,
    "avif"@,
]
}

/// A directory batch takes a file exactly when its extension, lowercased, is one of the
/// listed video, audio and image extensions; so `.MOV`, `.mov` and `.Mov` files are all
/// taken.
pub proof fn lemma_batch_takes_listed_extensions(e: Seq<char>)
    ensures
        media_extension(lower_key(e)) <==> taken_extensions().contains(lower_key(e)),
        all_ascii(e) ==> lower_key(e) == e.map_values(|c: char| ascii_lower_char(c)),
{
    let x = lower_key(e);
    let l = taken_extensions();
    assert(l.contains(x) <==> exists|k: int| 0 <= k < 42 && l[k] == x);
    if media_extension(x) {
        assert(exists|k: int| 0 <= k < 42 && l[k] == x);
    }
    if l.contains(x) {
        let k = choose|k: int| 0 <= k < 42 && l[k] == x;
        assert(media_extension(l[k]));
    }
}

/// Whether a file with this extension (any case) is a media file a batch takes.
pub fn is_media_extension(extension: Option<&str>) -> (r: bool)
    ensures
        r == (extension matches Some(e) && media_extension(lowercase(e@))),
        r == (extension matches Some(e) && media_extension(lower_key(e@))),
{
    let e = match extension {
        Some(e) => to_lower(e),
        None => {
            return false;
        },
    };
    is_lit(&e, "mp4") || is_lit(&e, "mkv") || is_lit(&e, "mov") || is_lit(&e, "webm")
        || is_lit(&e, "avi") || is_lit(&e, "wmv") || is_lit(&e, "asf") || is_lit(&e, "flv")
        || is_lit(&e, "ogv") || is_lit(&e, "3gp") || is_lit(&e, "mpg") || is_lit(&e, "mpeg")
        || is_lit(&e, "vob") || is_lit(&e, "swf") || is_lit(&e, "m4v") || is_lit(&e, "mts")
        || is_lit(&e, "m2ts") || is_lit(&e, "mp3") || is_lit(&e, "wav") || is_lit(&e, "flac")
        || is_lit(&e, "m4a") || is_lit(&e, "aac") || is_lit(&e, "opus") || is_lit(&e, "ogg")
        || is_lit(&e, "wma") || is_lit(&e, "aiff") || is_lit(&e, "aif") || is_lit(&e, "alac")
        || is_lit(&e, "amr") || is_lit(&e, "ac3") || is_lit(&e, "mp2") || is_lit(&e, "png")
        || is_lit(&e, "jpg") || is_lit(&e, "jpeg") || is_lit(&e, "webp") || is_lit(&e, "gif")
        || is_lit(&e, "bmp") || is_lit(&e, "tif") || is_lit(&e, "tiff") || is_lit(&e, "ico")
        || is_lit(&e, "tga") || is_lit(&e, "avif")
}

/// How a batch input is read.
#[derive(PartialEq, Eq, Structural, Clone, Copy, Debug)]
pub enum InputKind {
    /// One file.
    File,
    /// The media files of a directory.
    Directory,
    /// The files of the parent directory whose names match the last path component.
    Pattern,
}

/// Decides how a batch input is read: a file, a directory, or a wildcard pattern (one
/// holding `*` or `?`); anything else matches nothing.
pub fn collect_inputs(input: &str, is_file: bool, is_dir: bool) -> (r: Result<InputKind, MediaError>)
    ensures
        is_file ==> r == Ok::<InputKind, MediaError>(InputKind::File),
        !is_file && is_dir ==> r == Ok::<InputKind, MediaError>(InputKind::Directory),
        !is_file && !is_dir && (has_char(input@, '*') || has_char(input@, '?')) ==> r == Ok::<
            InputKind,
            MediaError,
        >(InputKind::Pattern),
        !is_file && !is_dir && !(has_char(input@, '*') || has_char(input@, '?'))
            ==> fails_with_message(r, ErrorCode::FileNotFound, "No files matched: "@ + input@),
{
    if is_file {
        return Ok(InputKind::File);
    }
    if is_dir {
        return Ok(InputKind::Directory);
    }
    if has_char_text(input, '*') || has_char_text(input, '?') {
        return Ok(InputKind::Pattern);
    }
    Err(MediaError::new(ErrorCode::FileNotFound, concat("No files matched: ", input)))
}

/// The target format of a batch, which must be named.
pub fn batch_format(convert: Option<String>) -> (r: Result<String, MediaError>)
    ensures
        match convert {
            Some(f) => r matches Ok(s) && s@ == f@,
            None => fails_with_message(
                r,
                ErrorCode::InvalidArgument,
                "Batch currently requires --convert FORMAT."@,
            ),
        },
{
    match convert {
        Some(f) => Ok(f),
        None => Err(MediaError::new(
            ErrorCode::InvalidArgument,
            owned("Batch currently requires --convert FORMAT."),
        )),
    }
}

/// Refuses a batch whose input matched no file.
pub fn batch_files_found(count: usize) -> (r: Result<(), MediaError>)
    ensures
        count == 0 ==> fails_with_message(
            r,
            ErrorCode::FileNotFound,
            "No media files matched the batch input."@,
        ),
        count > 0 ==> r is Ok,
{
    if count == 0 {
        return Err(MediaError::new(
            ErrorCode::FileNotFound,
            owned("No media files matched the batch input."),
        ));
    }
    Ok(())
}

/// The summary of a batch: `success` when every conversion succeeded, else
/// `partial_success`, with the number that failed.
pub fn batch_summary(total: usize, succeeded: usize) -> (r: (&'static str, usize))
    ensures
        r.1 == (if succeeded <= total {
            total - succeeded
        } else {
            0
        }),
        r.0@ == (if r.1 == 0 {
            "success"@
        } else {
            "partial_success"@
        }),
{
    let failed = if succeeded <= total {
        total - succeeded
    } else {
        0
    };
    if failed == 0 {
        ("success", failed)
    } else {
        ("partial_success", failed)
    }
}

} // verus!
