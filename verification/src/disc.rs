//! Disc operations: extracting a DVD, CD or ISO source into a media file, and authoring an
//! ISO image from a directory with an installed authoring tool.

use vstd::prelude::*;
use crate::args::{push_all};
use crate::codec::{audio_args_for, audio_container_args, audio_container_args_for, audio_encode_args, opt_view, preferred, views};
use crate::convert::{DEFAULT_AUDIO_BITRATE};
use crate::encode::{aac_default, aac_default_args, x264_high, x264_high_args};
use crate::model::{Detail, DetailValue, ErrorCode, MediaError, fails_with_message, refused, text_detail};
use crate::names::{audio_codec_for_format, audio_codec_of, audio_extension_of, audio_output_extension, clean_name, container_for, disc_action_for, disc_action_key, is_audio_format, is_lit, normalize_audio_format, normalize_container, normalize_disc_action};
use crate::text::{chars_of, concat, lowercase, owned, to_lower, to_upper, uppercase};

verus! {

/// The plan of a disc extraction.
#[derive(Debug)]
pub struct DiscPlan {
    pub kind: String,
    pub action: String,
    pub format: String,
    pub extension: String,
    pub strategy: String,
    pub args: Vec<String>,
}

/// What a disc request turns into.
#[derive(Debug)]
pub enum DiscStep {
    /// Extraction, with its plan.
    Extract(DiscPlan),
    /// ISO authoring of the directory, for the disc kind given.
    CreateIso(String),
}

pub open spec fn disc_kind_ok(k: Seq<char>) -> bool {
    k == "dvd"@ || k == "cd"@ || k == "iso"@
}

/// The FFmpeg arguments of an extraction of `input` as `kind` into `format`, when the
/// encoders are known.
pub open spec fn disc_args_for(kind: Seq<char>, input: Seq<char>, format: Seq<char>) -> Option<
    Seq<Seq<char>>,
> {
    if kind == "cd"@ {
        match audio_args_for(audio_codec_of(format), "256k"@) {
            Some(a) => Some(
                seq!["-i"@, input, "-map"@, "0:a?"@, "-vn"@] + a + audio_container_args_for(format),
            ),
            None => None,
        }
    } else if kind == "dvd"@ {
        Some(seq!["-i"@, input, "-map"@, "0"@] + x264_high_args() + aac_default_args())
    } else {
        Some(seq!["-i"@, input, "-map"@, "0"@, "-c"@, "copy"@])
    }
}

/// Checks a disc request and plans an extraction, or routes it to ISO authoring.
/// `input_exists` and `input_is_dir` describe the source path, shown as `input_display`
/// in messages and passed to FFmpeg as `input`.
pub fn disc_command(
    input_exists: bool,
    input_is_dir: bool,
    input_display: &str,
    input: &str,
    kind: &str,
    action: &str,
    to: Option<&str>,
) -> (r: Result<DiscStep, MediaError>)
    ensures
        ({
            let k = lowercase(kind@);
            if !input_exists {
                fails_with_message(
                    r,
                    ErrorCode::FileNotFound,
                    "Disc source does not exist: "@ + input_display@,
                )
            } else if !disc_kind_ok(k) {
                fails_with_message(
                    r,
                    ErrorCode::InvalidArgument,
                    "Disc kind must be dvd, cd, or iso."@,
                )
            } else {
                match disc_action_for(disc_action_key(action@)) {
                    None => refused(
                        r,
                        ErrorCode::InvalidArgument,
                        "Unsupported disc action: "@ + disc_action_key(action@),
                        seq!["Use --action extract or --action create-iso."@],
                    ),
                    Some(a) => if a == "create_iso"@ {
                        if input_is_dir {
                            r matches Ok(DiscStep::CreateIso(s)) && s@ == k
                        } else {
                            refused(
                                r,
                                ErrorCode::InvalidArgument,
                                "ISO creation requires a directory containing the disc files."@,
                                seq![
                                    "Mount or stage the DVD/CD contents in a directory, then pass that directory as input."@,
                                    "Use --action extract when the input is an existing ISO or media file."@,
                                ],
                            )
                        }
                    } else {
                        let target = match to {
                            Some(t) => t@,
                            None => if k == "cd"@ {
                                "flac"@
                            } else {
                                "mp4"@
                            },
                        };
                        if k == "cd"@ && !is_audio_format(clean_name(target)) {
                            fails_with_message(
                                r,
                                ErrorCode::UnsupportedFormat,
                                "Unsupported audio format: "@ + clean_name(target),
                            )
                        } else if k != "cd"@ && container_for(clean_name(target)) is None {
                            fails_with_message(
                                r,
                                ErrorCode::UnsupportedFormat,
                                "Unsupported target container: "@ + clean_name(target),
                            )
                        } else {
                            let format = if k == "cd"@ {
                                clean_name(target)
                            } else {
                                container_for(clean_name(target))->Some_0
                            };
                            match disc_args_for(k, input@, format) {
                                None => fails_with_message(
                                    r,
                                    ErrorCode::UnsupportedCodec,
                                    "Unsupported audio codec: "@ + preferred(
                                        audio_codec_of(format),
                                        "aac"@,
                                    ),
                                ),
                                Some(args) => r matches Ok(DiscStep::Extract(p)) && p.kind@ == k
                                    && p.action@ == "extract"@ && p.format@ == format
                                    && p.extension@ == (if k == "cd"@ {
                                    audio_extension_of(format)
                                } else {
                                    format
                                }) && p.strategy@ == (if k == "iso"@ {
                                    "disc_copy"@
                                } else {
                                    "disc_transcode"@
                                }) && views(p.args@) == args,
                            }
                        }
                    },
                }
            }
        }),
{
    if !input_exists {
        return Err(MediaError::new(
            ErrorCode::FileNotFound,
            concat("Disc source does not exist: ", input_display),
        ));
    }
    let k = to_lower(kind);
    if !(is_lit(&k, "dvd") || is_lit(&k, "cd") || is_lit(&k, "iso")) {
        return Err(MediaError::new(
            ErrorCode::InvalidArgument,
            owned("Disc kind must be dvd, cd, or iso."),
        ));
    }
    let a = match normalize_disc_action(action) {
        Ok(a) => a,
        Err(e) => {
            return Err(e);
        },
    };
    if is_lit(&a, "create_iso") {
        if !input_is_dir {
            let suggestions = vec![
                owned(
                    "Mount or stage the DVD/CD contents in a directory, then pass that directory as input.",
                ),
                owned("Use --action extract when the input is an existing ISO or media file."),
            ];
            assert(views(suggestions@) =~= seq![
                "Mount or stage the DVD/CD contents in a directory, then pass that directory as input."@,
                "Use --action extract when the input is an existing ISO or media file."@,
            ]);
            return Err(
                MediaError::new(
                    ErrorCode::InvalidArgument,
                    owned("ISO creation requires a directory containing the disc files."),
                ).with_suggestions(suggestions),
            );
        }
        return Ok(DiscStep::CreateIso(k));
    }
    let is_cd = is_lit(&k, "cd");
    let target = match to {
        Some(t) => t,
        None => if is_cd {
            "flac"
        } else {
            "mp4"
        },
    };
    let checked = if is_cd {
        normalize_audio_format(target)
    } else {
        normalize_container(target)
    };
    let format = match checked {
        Ok(f) => f,
        Err(e) => {
            return Err(e);
        },
    };
    let extension = if is_cd {
        audio_output_extension(format.as_str())
    } else {
        owned(format.as_str())
    };
    let mut args = vec![owned("-i"), owned(input)];
    proof {
        lemma_audio_codec_not_copy(format@);
    }
    if is_cd {
        push_all(&mut args, vec![owned("-map"), owned("0:a?"), owned("-vn")]);
        let audio = match audio_encode_args(
            audio_codec_for_format(format.as_str()),
            DEFAULT_AUDIO_BITRATE,
        ) {
            Ok(a) => a,
            Err(e) => {
                return Err(e);
            },
        };
        push_all(&mut args, audio);
        push_all(&mut args, audio_container_args(format.as_str()));
    } else if is_lit(&k, "dvd") {
        push_all(&mut args, vec![owned("-map"), owned("0")]);
        push_all(&mut args, x264_high());
        push_all(&mut args, aac_default());
    } else {
        push_all(&mut args, vec![owned("-map"), owned("0"), owned("-c"), owned("copy")]);
    }
    proof {
        reveal_strlit("256k");
        assert(DEFAULT_AUDIO_BITRATE@ == "256k"@);
        assert(views(args@) =~= disc_args_for(k@, input@, format@)->Some_0);
    }
    let strategy = if is_lit(&k, "iso") {
        owned("disc_copy")
    } else {
        owned("disc_transcode")
    };
    Ok(
        DiscStep::Extract(
            DiscPlan { kind: k, action: a, format, extension, strategy, args },
        ),
    )
}

proof fn lemma_audio_codec_not_copy(format: Seq<char>)
    ensures
        audio_codec_of(format) != "copy"@,
{
    reveal_strlit("copy");
    reveal_strlit("aac");
    reveal_strlit("mp3");
    reveal_strlit("flac");
    reveal_strlit("wav");
    reveal_strlit("opus");
    reveal_strlit("vorbis");
    reveal_strlit("wmav2");
    reveal_strlit("aiff");
    reveal_strlit("alac");
    reveal_strlit("amr_nb");
    reveal_strlit("ac3");
    reveal_strlit("mp2");
    assert("flac"@[0] != "copy"@[0] && "opus"@[0] != "copy"@[0]);
    assert("aiff"@[0] != "copy"@[0] && "alac"@[0] != "copy"@[0]);
}

// ---------------------------------------------------------------- ISO authoring

/// Bytes that a character takes in UTF-8.
pub open spec fn utf8_width(c: char) -> nat {
    if (c as u32) < 0x80 {
        1
    } else if (c as u32) < 0x800 {
        2
    } else if (c as u32) < 0x10000 {
        3
    } else {
        4
    }
}

/// Bytes that a text takes in UTF-8.
pub open spec fn utf8_len(s: Seq<char>) -> nat
    decreases s.len(),
{
    if s.len() == 0 {
        0
    } else {
        utf8_len(s.drop_last()) + utf8_width(s.last())
    }
}

/// A control character (`char::is_control`: the C0 and C1 ranges and DEL).
pub open spec fn is_control(c: char) -> bool {
    (c as u32) <= 0x1f || (0x7f <= (c as u32) && (c as u32) <= 0x9f)
}

/// An ISO volume label: 1 to 32 bytes, with no control characters.
pub open spec fn label_ok(l: Seq<char>) -> bool {
    1 <= utf8_len(l) <= 32 && forall|i: int| 0 <= i < l.len() ==> !is_control(#[trigger] l[i])
}

proof fn lemma_utf8_len_take(s: Seq<char>, i: int)
    requires
        0 <= i < s.len(),
    ensures
        utf8_len(s.take(i + 1)) == utf8_len(s.take(i)) + utf8_width(s[i]),
{
    assert(s.take(i + 1).drop_last() =~= s.take(i));
}

proof fn lemma_utf8_len_positive(s: Seq<char>)
    requires
        s.len() > 0,
    ensures
        utf8_len(s) >= 1,
{
}

fn char_width(c: char) -> (r: u64)
    ensures
        r == utf8_width(c),
{
    let u = c as u32;
    if u < 0x80 {
        1
    } else if u < 0x800 {
        2
    } else if u < 0x10000 {
        3
    } else {
        4
    }
}

fn label_valid(label: &str) -> (r: bool)
    ensures
        r == label_ok(label@),
{
    let v = chars_of(label);
    let mut total: u64 = 0;
    let mut i: usize = 0;
    while i < v.len()
        invariant
            v@ == label@,
            0 <= i <= v@.len(),
            total == utf8_len(v@.take(i as int)),
            total <= 32,
            forall|k: int| 0 <= k < i ==> !is_control(#[trigger] v@[k]),
        decreases v.len() - i,
    {
        proof {
            lemma_utf8_len_take(v@, i as int);
        }
        total = total + char_width(v[i]);
        let u = v[i] as u32;
        if total > 32 || u <= 0x1f || (0x7f <= u && u <= 0x9f) {
            proof {
                if total > 32 {
                    lemma_utf8_prefix_bound(v@, i as int + 1);
                }
            }
            return false;
        }
        i = i + 1;
    }
    assert(v@.take(v@.len() as int) =~= v@);
    if v.len() > 0 {
        proof {
            lemma_utf8_len_positive(v@);
        }
    }
    total >= 1
}

proof fn lemma_utf8_prefix_bound(s: Seq<char>, j: int)
    requires
        0 <= j <= s.len(),
    ensures
        utf8_len(s.take(j)) <= utf8_len(s),
    decreases s.len() - j,
{
    if j < s.len() {
        lemma_utf8_prefix_bound(s, j + 1);
        lemma_utf8_len_take(s, j);
    } else {
        assert(s.take(j) =~= s);
    }
}

/// The label written on an authored ISO: the requested one, else `MEDIAFORGE-KIND`.
pub open spec fn iso_label_for(volume_label: Option<Seq<char>>, kind: Seq<char>) -> Seq<char> {
    match volume_label {
        Some(l) => l,
        None => "MEDIAFORGE-"@ + uppercase(kind),
    }
}

/// The first installed ISO authoring tool, in preference order.
pub open spec fn authoring_tool_for(
    xorriso: bool,
    genisoimage: bool,
    mkisofs: bool,
    hdiutil: bool,
) -> Option<Seq<char>> {
    if xorriso {
        Some("xorriso"@)
    } else if genisoimage {
        Some("genisoimage"@)
    } else if mkisofs {
        Some("mkisofs"@)
    } else if hdiutil {
        Some("hdiutil"@)
    } else {
        None
    }
}

/// Picks the ISO authoring tool from which of `xorriso`, `genisoimage`, `mkisofs` and
/// `hdiutil` are installed.
pub fn disc_authoring_tool(xorriso: bool, genisoimage: bool, mkisofs: bool, hdiutil: bool) -> (r:
    Option<&'static str>)
    ensures
        opt_view(r) == authoring_tool_for(xorriso, genisoimage, mkisofs, hdiutil),
{
    if xorriso {
        Some("xorriso")
    } else if genisoimage {
        Some("genisoimage")
    } else if mkisofs {
        Some("mkisofs")
    } else if hdiutil {
        Some("hdiutil")
    } else {
        None
    }
}

/// The arguments of each authoring tool; an unknown tool gets none.
pub open spec fn iso_tool_args_for(
    tool: Seq<char>,
    label: Seq<char>,
    output: Seq<char>,
    input: Seq<char>,
) -> Seq<Seq<char>> {
    if tool == "xorriso"@ {
        seq!["-as"@, "mkisofs"@, "-quiet"@, "-J"@, "-R"@, "-V"@, label, "-o"@, output, input]
    } else if tool == "genisoimage"@ || tool == "mkisofs"@ {
        seq!["-quiet"@, "-J"@, "-R"@, "-V"@, label, "-o"@, output, input]
    } else if tool == "hdiutil"@ {
        seq![
            "makehybrid"@,
            "-ov"@,
            "-o"@,
            output,
            "-hfs"@,
            "-joliet"@,
            "-iso"@,
            "-default-volume-name"@,
            label,
            input,
        ]
    } else {
        Seq::empty()
    }
}

/// The plan of an ISO authoring run.
#[derive(Debug)]
pub struct IsoPlan {
    pub label: String,
    pub tool: Option<String>,
    pub tool_args: Vec<String>,
}

/// Plans ISO authoring of the directory `input` into `output` with `tool` (the installed
/// authoring tool, if any): checks the volume label and builds the tool's arguments.
pub fn create_iso_command(
    kind: &str,
    volume_label: Option<&str>,
    tool: Option<&str>,
    output: &str,
    input: &str,
) -> (r: Result<IsoPlan, MediaError>)
    ensures
        ({
            let label = iso_label_for(opt_view(volume_label), kind@);
            if !label_ok(label) {
                fails_with_message(
                    r,
                    ErrorCode::InvalidArgument,
                    "ISO volume label must be 1-32 printable characters."@,
                )
            } else {
                r matches Ok(p) && p.label@ == label && match tool {
                    Some(t) => {
                        let known = t@ == "xorriso"@ || t@ == "genisoimage"@ || t@ == "mkisofs"@
                            || t@ == "hdiutil"@;
                        (known ==> (p.tool matches Some(s) && s@ == t@)) && (!known ==> p.tool is None)
                            && views(p.tool_args@) == iso_tool_args_for(t@, label, output@, input@)
                    },
                    None => p.tool is None && p.tool_args@.len() == 0,
                }
            }
        }),
{
    let label = match volume_label {
        Some(l) => owned(l),
        None => concat("MEDIAFORGE-", to_upper(kind).as_str()),
    };
    if !label_valid(label.as_str()) {
        return Err(MediaError::new(
            ErrorCode::InvalidArgument,
            owned("ISO volume label must be 1-32 printable characters."),
        ));
    }
    let (program, tool_args): (Option<String>, Vec<String>) = match tool {
        Some(t) => {
            let name = owned(t);
            if is_lit(&name, "xorriso") {
                (
                    Some(name),
                    vec![
                        owned("-as"),
                        owned("mkisofs"),
                        owned("-quiet"),
                        owned("-J"),
                        owned("-R"),
                        owned("-V"),
                        owned(label.as_str()),
                        owned("-o"),
                        owned(output),
                        owned(input),
                    ],
                )
            } else if is_lit(&name, "genisoimage") || is_lit(&name, "mkisofs") {
                (
                    Some(name),
                    vec![
                        owned("-quiet"),
                        owned("-J"),
                        owned("-R"),
                        owned("-V"),
                        owned(label.as_str()),
                        owned("-o"),
                        owned(output),
                        owned(input),
                    ],
                )
            } else if is_lit(&name, "hdiutil") {
                (
                    Some(name),
                    vec![
                        owned("makehybrid"),
                        owned("-ov"),
                        owned("-o"),
                        owned(output),
                        owned("-hfs"),
                        owned("-joliet"),
                        owned("-iso"),
                        owned("-default-volume-name"),
                        owned(label.as_str()),
                        owned(input),
                    ],
                )
            } else {
                (None, Vec::new())
            }
        },
        None => (None, Vec::new()),
    };
    proof {
        if tool is Some {
            assert(views(tool_args@) =~= iso_tool_args_for(
                tool->Some_0@,
                label@,
                output@,
                input@,
            ));
        }
    }
    Ok(IsoPlan { label, tool: program, tool_args })
}

/// The error of an ISO authoring run when no authoring tool is installed.
pub fn iso_tool_unavailable(input_display: &str, output_display: &str) -> (e: MediaError)
    ensures
        e.code == ErrorCode::DiscToolUnavailable,
        e.message@ == "No ISO authoring utility was found on PATH."@,
        e.details@.len() == 3,
        e.details@[0].key@ == "candidates"@,
        e.details@[0].value matches DetailValue::Texts(v) && views(v@) == seq![
            "xorriso"@,
            "genisoimage"@,
            "mkisofs"@,
            "hdiutil"@,
        ],
        e.details@[1].key@ == "input"@,
        e.details@[1].value matches DetailValue::Text(t) && t@ == input_display@,
        e.details@[2].key@ == "output"@,
        e.details@[2].value matches DetailValue::Text(t) && t@ == output_display@,
        views(e.suggestions@) == seq![
            "Install xorriso, genisoimage, or mkisofs, then retry."@,
            "On macOS, hdiutil is normally available when the system permits it."@,
        ],
{
    let candidates = vec![owned("xorriso"), owned("genisoimage"), owned("mkisofs"), owned("hdiutil")];
    assert(views(candidates@) =~= seq!["xorriso"@, "genisoimage"@, "mkisofs"@, "hdiutil"@]);
    MediaError::new(
        ErrorCode::DiscToolUnavailable,
        owned("No ISO authoring utility was found on PATH."),
    ).with_details(
        vec![
            Detail { key: owned("candidates"), value: DetailValue::Texts(candidates) },
            text_detail("input", owned(input_display)),
            text_detail("output", owned(output_display)),
        ],
    ).with_suggestions(
        vec![
            owned("Install xorriso, genisoimage, or mkisofs, then retry."),
            owned("On macOS, hdiutil is normally available when the system permits it."),
        ],
    )
}

} // verus!
