//! Still images and animations: converting, resizing, rotating and watermarking an
//! image, and turning a video range into a palette-optimised GIF.

use vstd::prelude::*;
use crate::args::{push_all};
use crate::codec::{opt_view, views};
use crate::edit::{rotate_filter, rotation_filter_for};
use crate::model::{ErrorCode, MediaError, StreamInfo, fails_with_message, refused, same_error};
use crate::names::{clean_name, image_format_for, is_lit, normalize_image_format};
use crate::streams::{has_kind, has_stream};
use crate::text::{concat, decimal, join_seqs, join_text, owned, u64_text};

verus! {

/// Refuses a dimension of zero; `field` names it in the message.
pub fn validate_positive_dimension(value: Option<u32>, field: &str) -> (r: Result<(), MediaError>)
    ensures
        value == Some(0u32) ==> fails_with_message(
            r,
            ErrorCode::InvalidArgument,
            field@ + " must be greater than zero."@,
        ),
        value != Some(0u32) ==> r is Ok,
{
    if value == Some(0u32) {
        return Err(MediaError::new(
            ErrorCode::InvalidArgument,
            concat(field, " must be greater than zero."),
        ));
    }
    Ok(())
}

// ---------------------------------------------------------------- image encoders

pub open spec fn image_codec_for(format: Seq<char>) -> Option<Seq<char>> {
    if format == "jpg"@ {
        Some("mjpeg"@)
    } else if format == "png"@ {
        Some("png"@)
    } else if format == "webp"@ {
        Some("libwebp"@)
    } else if format == "gif"@ {
        Some("gif"@)
    } else if format == "bmp"@ {
        Some("bmp"@)
    } else if format == "tiff"@ {
        Some("tiff"@)
    } else if format == "ico"@ {
        Some("bmp"@)
    } else if format == "tga"@ {
        Some("targa"@)
    } else if format == "avif"@ {
        Some("libaom-av1"@)
    } else {
        None
    }
}

/// The encoder arguments of an image format.
pub fn image_codec_args(format: &str) -> (r: Vec<String>)
    ensures
        views(r@) == match image_codec_for(format@) {
            Some(c) => seq!["-c:v"@, c],
            None => Seq::empty(),
        },
{
    let f = owned(format);
    let codec = if is_lit(&f, "jpg") {
        "mjpeg"
    } else if is_lit(&f, "png") {
        "png"
    } else if is_lit(&f, "webp") {
        "libwebp"
    } else if is_lit(&f, "gif") {
        "gif"
    } else if is_lit(&f, "bmp") {
        "bmp"
    } else if is_lit(&f, "tiff") {
        "tiff"
    } else if is_lit(&f, "ico") {
        "bmp"
    } else if is_lit(&f, "tga") {
        "targa"
    } else if is_lit(&f, "avif") {
        "libaom-av1"
    } else {
        let v: Vec<String> = Vec::new();
        assert(views(v@) =~= Seq::<Seq<char>>::empty());
        return v;
    };
    let v = vec![owned("-c:v"), owned(codec)];
    assert(views(v@) =~= seq!["-c:v"@, codec@]);
    v
}

/// The JPEG quantiser for a quality from 1 to 100: 31 down to 1.
pub open spec fn jpeg_quantizer(quality: u8) -> nat {
    let step = (quality as nat * 30) / 100;
    let q = if step > 31 {
        0
    } else {
        (31 - step) as nat
    };
    if q < 1 {
        1
    } else {
        q
    }
}

/// The PNG compression level for a quality: 0 to 9, higher for lower quality.
pub open spec fn png_compression(quality: u8) -> nat {
    let left = if quality > 100 {
        0
    } else {
        (100 - quality) as nat
    };
    if left / 12 > 9 {
        9
    } else {
        left / 12
    }
}

pub open spec fn image_quality_for(format: Seq<char>, quality: u8) -> Seq<Seq<char>> {
    if format == "jpg"@ {
        seq!["-q:v"@, decimal(jpeg_quantizer(quality))]
    } else if format == "webp"@ || format == "avif"@ {
        seq!["-q:v"@, decimal(quality as nat)]
    } else if format == "png"@ {
        seq!["-compression_level"@, decimal(png_compression(quality))]
    } else {
        Seq::empty()
    }
}

/// The quality arguments of an image format.
pub fn image_quality_args(format: &str, quality: u8) -> (r: Vec<String>)
    ensures
        views(r@) == image_quality_for(format@, quality),
{
    let f = owned(format);
    let v = if is_lit(&f, "jpg") {
        let step: u16 = (quality as u16 * 30) / 100;
        let q: u16 = if step > 31 {
            0
        } else {
            31 - step
        };
        let q: u16 = if q < 1 {
            1
        } else {
            q
        };
        vec![owned("-q:v"), u64_text(q as u64)]
    } else if is_lit(&f, "webp") || is_lit(&f, "avif") {
        vec![owned("-q:v"), u64_text(quality as u64)]
    } else if is_lit(&f, "png") {
        let left: u16 = if quality > 100 {
            0
        } else {
            100 - quality as u16
        };
        let level: u16 = if left / 12 > 9 {
            9
        } else {
            left / 12
        };
        vec![owned("-compression_level"), u64_text(level as u64)]
    } else {
        Vec::new()
    };
    assert(views(v@) =~= image_quality_for(format@, quality));
    v
}

// ---------------------------------------------------------------- image operations

/// The format an image is written in: the requested one, else the output's extension,
/// else the input's, else PNG.
pub open spec fn image_format_name(
    to: Option<Seq<char>>,
    output_extension: Option<Seq<char>>,
    input_extension: Option<Seq<char>>,
) -> Seq<char> {
    match to {
        Some(t) => t,
        None => match output_extension {
            Some(e) => e,
            None => match input_extension {
                Some(e) => e,
                None => "png"@,
            },
        },
    }
}

/// Checks an image request before its output is chosen and picks its format.
/// `watermark_check` is the outcome of checking the watermark file, when one is given.
pub fn image_preflight(
    input_check: Result<(), MediaError>,
    width: Option<u32>,
    height: Option<u32>,
    quality: Option<u8>,
    watermark_check: Option<Result<(), MediaError>>,
    to: Option<&str>,
    output_extension: Option<&str>,
    input_extension: Option<&str>,
) -> (r: Result<String, MediaError>)
    ensures
        ({
            let name = image_format_name(
                opt_view(to),
                opt_view(output_extension),
                opt_view(input_extension),
            );
            if input_check is Err {
                r matches Err(e) && same_error(e, input_check->Err_0)
            } else if width == Some(0u32) {
                fails_with_message(
                    r,
                    ErrorCode::InvalidArgument,
                    "Image width must be greater than zero."@,
                )
            } else if height == Some(0u32) {
                fails_with_message(
                    r,
                    ErrorCode::InvalidArgument,
                    "Image height must be greater than zero."@,
                )
            } else if quality matches Some(q) && !(1 <= q <= 100) {
                fails_with_message(
                    r,
                    ErrorCode::InvalidArgument,
                    "Image quality must be between 1 and 100."@,
                )
            } else if watermark_check matches Some(Err(_)) {
                r matches Err(e) && same_error(e, watermark_check->Some_0->Err_0)
            } else {
                match image_format_for(clean_name(name)) {
                    Some(f) => r matches Ok(s) && s@ == f,
                    None => fails_with_message(
                        r,
                        ErrorCode::UnsupportedFormat,
                        "Unsupported image format: "@ + clean_name(name),
                    ),
                }
            }
        }),
{
    if let Err(e) = input_check {
        return Err(e);
    }
    proof {
        reveal_strlit("Image width");
        reveal_strlit("Image height");
        reveal_strlit(" must be greater than zero.");
        reveal_strlit("Image width must be greater than zero.");
        reveal_strlit("Image height must be greater than zero.");
        assert("Image width"@ + " must be greater than zero."@
            =~= "Image width must be greater than zero."@);
        assert("Image height"@ + " must be greater than zero."@
            =~= "Image height must be greater than zero."@);
    }
    validate_positive_dimension(width, "Image width")?;
    validate_positive_dimension(height, "Image height")?;
    if let Some(q) = quality {
        if !(1 <= q && q <= 100) {
            return Err(MediaError::new(
                ErrorCode::InvalidArgument,
                owned("Image quality must be between 1 and 100."),
            ));
        }
    }
    if let Some(check) = watermark_check {
        if let Err(e) = check {
            return Err(e);
        }
    }
    let name = match to {
        Some(t) => t,
        None => match output_extension {
            Some(e) => e,
            None => match input_extension {
                Some(e) => e,
                None => "png",
            },
        },
    };
    normalize_image_format(name)
}

/// The scale filter of an image resize, when a width or a height is given.
pub open spec fn image_scale(width: Option<u32>, height: Option<u32>) -> Seq<Seq<char>> {
    match (width, height) {
        (Some(w), Some(h)) => seq!["scale="@ + decimal(w as nat) + ":"@ + decimal(h as nat)],
        (Some(w), None) => seq!["scale="@ + decimal(w as nat) + ":-1"@],
        (None, Some(h)) => seq!["scale=-1:"@ + decimal(h as nat)],
        (None, None) => Seq::empty(),
    }
}

/// The filter arguments of an image: a watermark overlay in the bottom-right corner over
/// the (filtered) picture, or the plain filter chain.
pub open spec fn image_filter_args(filters: Seq<Seq<char>>, watermark: Option<Seq<char>>) -> Seq<
    Seq<char>,
> {
    match watermark {
        Some(w) => seq!["-i"@, w, "-filter_complex"@, if filters.len() == 0 {
            "[0:v][1:v]overlay=W-w-16:H-h-16[v]"@
        } else {
            "[0:v]"@ + join_seqs(filters, ","@) + "[base];[base][1:v]overlay=W-w-16:H-h-16[v]"@
        }, "-map"@, "[v]"@],
        None => if filters.len() == 0 {
            Seq::empty()
        } else {
            seq!["-vf"@, join_seqs(filters, ","@)]
        },
    }
}

/// The plan of an image operation.
#[derive(Debug)]
pub struct ImagePlan {
    pub quality: u8,
    pub quality_loss: String,
    pub args: Vec<String>,
}

/// Plans a checked image operation on `input` into `format`.
pub fn image_command(
    input: &str,
    format: &str,
    width: Option<u32>,
    height: Option<u32>,
    rotate: Option<u16>,
    watermark: Option<&str>,
    quality: Option<u8>,
) -> (r: Result<ImagePlan, MediaError>)
    ensures
        rotate matches Some(d) && rotation_filter_for(d) is None ==> fails_with_message(
            r,
            ErrorCode::InvalidArgument,
            "Rotation must be 90, 180, or 270 degrees."@,
        ),
        !(rotate matches Some(d) && rotation_filter_for(d) is None) ==> ({
            let filters = image_scale(width, height) + match rotate {
                Some(d) => seq![rotation_filter_for(d)->Some_0],
                None => Seq::empty(),
            };
            let q = match quality {
                Some(q) => q,
                None => 90u8,
            };
            r matches Ok(p) && p.quality == q && p.quality_loss@ == (if quality is Some {
                "possible"@
            } else {
                "none"@
            }) && views(p.args@) == seq!["-i"@, input@] + image_filter_args(
                filters,
                opt_view(watermark),
            ) + seq!["-frames:v"@, "1"@] + (match image_codec_for(format@) {
                Some(c) => seq!["-c:v"@, c],
                None => Seq::empty(),
            }) + image_quality_for(format@, q)
        }),
{
    let mut filters: Vec<String> = Vec::new();
    match (width, height) {
        (Some(w), Some(h)) => {
            let mut f = owned("scale=");
            f.append(u64_text(w as u64).as_str());
            f.append(":");
            f.append(u64_text(h as u64).as_str());
            filters.push(f);
        },
        (Some(w), None) => {
            let mut f = owned("scale=");
            f.append(u64_text(w as u64).as_str());
            f.append(":-1");
            filters.push(f);
        },
        (None, Some(h)) => {
            filters.push(concat("scale=-1:", u64_text(h as u64).as_str()));
        },
        (None, None) => {},
    }
    if let Some(d) = rotate {
        let f = rotate_filter(d)?;
        filters.push(owned(f));
    }
    let ghost fv = views(filters@);
    assert(fv =~= image_scale(width, height) + match rotate {
        Some(d) => seq![rotation_filter_for(d)->Some_0],
        None => Seq::<Seq<char>>::empty(),
    });
    let mut args = vec![owned("-i"), owned(input)];
    match watermark {
        Some(w) => {
            let complex = if filters.len() == 0 {
                owned("[0:v][1:v]overlay=W-w-16:H-h-16[v]")
            } else {
                let mut c = owned("[0:v]");
                c.append(join_text(&filters, ",").as_str());
                c.append("[base];[base][1:v]overlay=W-w-16:H-h-16[v]");
                c
            };
            push_all(
                &mut args,
                vec![owned("-i"), owned(w), owned("-filter_complex"), complex, owned("-map"), owned("[v]")],
            );
        },
        None => {
            if filters.len() > 0 {
                push_all(&mut args, vec![owned("-vf"), join_text(&filters, ",")]);
            }
        },
    }
    assert(views(args@) =~= seq!["-i"@, input@] + image_filter_args(fv, opt_view(watermark)));
    push_all(&mut args, vec![owned("-frames:v"), owned("1")]);
    push_all(&mut args, image_codec_args(format));
    let q: u8 = match quality {
        Some(q) => q,
        None => 90,
    };
    push_all(&mut args, image_quality_args(format, q));
    Ok(
        ImagePlan {
            quality: q,
            quality_loss: if quality.is_some() {
                owned("possible")
            } else {
                owned("none")
            },
            args,
        },
    )
}

// ---------------------------------------------------------------- GIF

/// Longest GIF, in seconds.
pub const MAX_GIF_DURATION_SECONDS: u32 = 600;

/// Widest GIF, in pixels.
pub const MAX_GIF_WIDTH: u32 = 16384;

/// What reading a time gave: whether it is finite, below zero, above zero, and above the
/// longest GIF.
#[derive(Clone, Copy, Debug)]
pub struct TimeFacts {
    pub finite: bool,
    pub negative: bool,
    pub positive: bool,
    pub over_gif_limit: bool,
}

/// Checks a GIF request before its output is chosen.
pub fn gif_preflight(
    input_check: Result<(), MediaError>,
    streams: Result<Vec<StreamInfo>, MediaError>,
    fps: u32,
    start: Result<TimeFacts, MediaError>,
    duration: Result<TimeFacts, MediaError>,
    width: Option<u32>,
) -> (r: Result<(), MediaError>)
    ensures
        if input_check is Err {
            r matches Err(e) && same_error(e, input_check->Err_0)
        } else if streams is Err {
            r matches Err(e) && same_error(e, streams->Err_0)
        } else if !has_kind(streams->Ok_0@, "video"@) {
            fails_with_message(
                r,
                ErrorCode::InvalidMedia,
                "GIF conversion requires a video stream."@,
            )
        } else if !(1 <= fps <= 60) {
            fails_with_message(r, ErrorCode::InvalidArgument, "GIF FPS must be between 1 and 60."@)
        } else if start is Err {
            r matches Err(e) && same_error(e, start->Err_0)
        } else if !start->Ok_0.finite {
            fails_with_message(
                r,
                ErrorCode::InvalidArgument,
                "GIF start must be a finite timestamp."@,
            )
        } else if start->Ok_0.negative {
            fails_with_message(r, ErrorCode::InvalidArgument, "GIF start must not be negative."@)
        } else if duration is Err {
            r matches Err(e) && same_error(e, duration->Err_0)
        } else if !duration->Ok_0.finite {
            fails_with_message(
                r,
                ErrorCode::InvalidArgument,
                "GIF duration must be a finite value."@,
            )
        } else if !duration->Ok_0.positive {
            fails_with_message(
                r,
                ErrorCode::InvalidArgument,
                "GIF duration must be greater than zero."@,
            )
        } else if duration->Ok_0.over_gif_limit {
            refused(
                r,
                ErrorCode::InvalidArgument,
                "GIF duration must not exceed 600 seconds."@,
                seq!["Use a shorter clip or split a long animation into multiple GIFs."@],
            )
        } else if width matches Some(w) && w > MAX_GIF_WIDTH {
            fails_with_message(
                r,
                ErrorCode::InvalidArgument,
                "GIF width must not exceed 16384 pixels."@,
            )
        } else if width == Some(0u32) {
            fails_with_message(
                r,
                ErrorCode::InvalidArgument,
                "GIF width must be greater than zero."@,
            )
        } else {
            r is Ok
        },
{
    if let Err(e) = input_check {
        return Err(e);
    }
    let streams = match streams {
        Ok(s) => s,
        Err(e) => {
            return Err(e);
        },
    };
    if !has_stream(&streams, "video") {
        return Err(MediaError::new(
            ErrorCode::InvalidMedia,
            owned("GIF conversion requires a video stream."),
        ));
    }
    if !(1 <= fps && fps <= 60) {
        return Err(MediaError::new(
            ErrorCode::InvalidArgument,
            owned("GIF FPS must be between 1 and 60."),
        ));
    }
    let s = match start {
        Ok(s) => s,
        Err(e) => {
            return Err(e);
        },
    };
    if !s.finite {
        return Err(MediaError::new(
            ErrorCode::InvalidArgument,
            owned("GIF start must be a finite timestamp."),
        ));
    }
    if s.negative {
        return Err(MediaError::new(
            ErrorCode::InvalidArgument,
            owned("GIF start must not be negative."),
        ));
    }
    let d = match duration {
        Ok(d) => d,
        Err(e) => {
            return Err(e);
        },
    };
    if !d.finite {
        return Err(MediaError::new(
            ErrorCode::InvalidArgument,
            owned("GIF duration must be a finite value."),
        ));
    }
    if !d.positive {
        return Err(MediaError::new(
            ErrorCode::InvalidArgument,
            owned("GIF duration must be greater than zero."),
        ));
    }
    if d.over_gif_limit {
        let mut message = owned("GIF duration must not exceed ");
        message.append(u64_text(MAX_GIF_DURATION_SECONDS as u64).as_str());
        message.append(" seconds.");
        proof {
            reveal_strlit("GIF duration must not exceed ");
            reveal_strlit(" seconds.");
            reveal_strlit("GIF duration must not exceed 600 seconds.");
            reveal_with_fuel(decimal, 4);
            assert(message@ =~= "GIF duration must not exceed 600 seconds."@);
        }
        let suggestions = vec![owned("Use a shorter clip or split a long animation into multiple GIFs.")];
        assert(views(suggestions@) =~= seq![
            "Use a shorter clip or split a long animation into multiple GIFs."@,
        ]);
        return Err(MediaError::new(ErrorCode::InvalidArgument, message).with_suggestions(suggestions));
    }
    if let Some(w) = width {
        if w > MAX_GIF_WIDTH {
            let mut message = owned("GIF width must not exceed ");
            message.append(u64_text(MAX_GIF_WIDTH as u64).as_str());
            message.append(" pixels.");
            proof {
                reveal_strlit("GIF width must not exceed ");
                reveal_strlit(" pixels.");
                reveal_strlit("GIF width must not exceed 16384 pixels.");
                reveal_with_fuel(decimal, 6);
                assert(message@ =~= "GIF width must not exceed 16384 pixels."@);
            }
            return Err(MediaError::new(ErrorCode::InvalidArgument, message));
        }
    }
    proof {
        reveal_strlit("GIF width");
        reveal_strlit(" must be greater than zero.");
        reveal_strlit("GIF width must be greater than zero.");
        assert("GIF width"@ + " must be greater than zero."@
            =~= "GIF width must be greater than zero."@);
    }
    validate_positive_dimension(width, "GIF width")
}

/// The filter graph of a GIF: frame rate, optional Lanczos scale, then a generated
/// palette applied with dithering.
pub open spec fn gif_filter_for(fps: u32, width: Option<u32>) -> Seq<char> {
    "fps="@ + decimal(fps as nat) + (match width {
        Some(w) => ",scale="@ + decimal(w as nat) + ":-1:flags=lanczos"@,
        None => Seq::empty(),
    }) + ",split[s0][s1];[s0]palettegen=stats_mode=diff[p];[s1][p]paletteuse=dither=sierra2_4a"@
}

/// The filter graph and FFmpeg arguments of a checked GIF.
pub fn gif_command(start: &str, duration: &str, fps: u32, width: Option<u32>, input: &str) -> (r: (
    String,
    Vec<String>,
))
    ensures
        r.0@ == gif_filter_for(fps, width),
        views(r.1@) == seq![
            "-ss"@,
            start@,
            "-i"@,
            input@,
            "-t"@,
            duration@,
            "-an"@,
            "-vf"@,
            gif_filter_for(fps, width),
            "-loop"@,
            "0"@,
            "-f"@,
            "gif"@,
        ],
{
    let mut filter = concat("fps=", u64_text(fps as u64).as_str());
    if let Some(w) = width {
        filter.append(",scale=");
        filter.append(u64_text(w as u64).as_str());
        filter.append(":-1:flags=lanczos");
    }
    filter.append(
        ",split[s0][s1];[s0]palettegen=stats_mode=diff[p];[s1][p]paletteuse=dither=sierra2_4a",
    );
    let args = vec![
        owned("-ss"),
        owned(start),
        owned("-i"),
        owned(input),
        owned("-t"),
        owned(duration),
        owned("-an"),
        owned("-vf"),
        owned(filter.as_str()),
        owned("-loop"),
        owned("0"),
        owned("-f"),
        owned("gif"),
    ];
    (filter, args)
}

} // verus!
