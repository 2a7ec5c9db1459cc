//! Merging several inputs into one output: concatenation, muxing a video with an audio
//! track, or mixing two audio tracks.

use vstd::prelude::*;
use crate::args::{push_all};
use crate::codec::{opt_view, views};
use crate::convert::{DEFAULT_AUDIO_BITRATE};
use crate::model::{ErrorCode, MediaError, StreamInfo, fails_with_message, same_error};
use crate::names::{is_lit};
use crate::streams::{has_kind, has_stream};
use crate::text::{decimal, eq_ignore_ascii, eq_ignore_ascii_text, lowercase, owned, to_lower, u64_text};

verus! {

/// The plan of a merge.
#[derive(Debug)]
pub struct MergePlan {
    pub mode: String,
    pub input_count: usize,
    pub output_extension: String,
    pub quality_loss: String,
    pub video_present: bool,
    pub audio_present: bool,
    pub args: Vec<String>,
}

/// Some input has a stream of `kind`.
pub open spec fn any_has(ss: Seq<Vec<StreamInfo>>, kind: Seq<char>) -> bool {
    exists|i: int| 0 <= i < ss.len() && has_kind(#[trigger] ss[i]@, kind)
}

/// Every input has a stream of `kind`.
pub open spec fn all_have(ss: Seq<Vec<StreamInfo>>, kind: Seq<char>) -> bool {
    forall|i: int| 0 <= i < ss.len() ==> has_kind(#[trigger] ss[i]@, kind)
}

/// `-i path` for every input, in order.
pub open spec fn input_pairs(inputs: Seq<Seq<char>>) -> Seq<Seq<char>>
    decreases inputs.len(),
{
    if inputs.len() == 0 {
        Seq::empty()
    } else {
        input_pairs(inputs.drop_last()) + seq!["-i"@, inputs.last()]
    }
}

/// `[k:v:0]` and `[k:a:0]` pads of the first `n` inputs, for the kinds present in all.
pub open spec fn concat_pads(n: nat, video: bool, audio: bool) -> Seq<char>
    decreases n,
{
    if n == 0 {
        Seq::empty()
    } else {
        let k = decimal((n - 1) as nat);
        concat_pads((n - 1) as nat, video, audio) + (if video {
            "["@ + k + ":v:0]"@
        } else {
            Seq::empty()
        }) + (if audio {
            "["@ + k + ":a:0]"@
        } else {
            Seq::empty()
        })
    }
}

pub open spec fn flag_digit(b: bool) -> Seq<char> {
    if b {
        "1"@
    } else {
        "0"@
    }
}

/// The `concat` filter graph over `n` inputs.
pub open spec fn concat_filter(n: nat, video: bool, audio: bool) -> Seq<char> {
    concat_pads(n, video, audio) + "concat=n="@ + decimal(n) + ":v="@ + flag_digit(video) + ":a="@
        + flag_digit(audio) + (if video {
        "[v]"@
    } else {
        Seq::empty()
    }) + (if audio {
        "[a]"@
    } else {
        Seq::empty()
    })
}

/// The FFmpeg arguments of a merge in `mode`.
pub open spec fn merge_args_for(
    mode: Seq<char>,
    inputs: Seq<Seq<char>>,
    ss: Seq<Vec<StreamInfo>>,
) -> Seq<Seq<char>> {
    let all_video = all_have(ss, "video"@);
    let all_audio = all_have(ss, "audio"@);
    let tail = if mode == "concat"@ {
        seq!["-filter_complex"@, concat_filter(inputs.len(), all_video, all_audio)] + (if all_video {
            seq!["-map"@, "[v]"@, "-c:v"@, "libx264"@, "-preset"@, "medium"@, "-crf"@, "23"@]
        } else {
            Seq::empty()
        }) + (if all_audio {
            seq!["-map"@, "[a]"@, "-c:a"@, "aac"@, "-b:a"@, "256k"@]
        } else {
            Seq::empty()
        })
    } else if mode == "mux"@ {
        seq!["-map"@, "0:v:0"@, "-map"@, "1:a:0"@, "-c:v"@, "copy"@, "-c:a"@, "copy"@]
    } else {
        seq!["-filter_complex"@, "[0:a:0][1:a:0]amix=inputs=2:duration=longest[a]"@] + (if any_has(
            ss,
            "video"@,
        ) {
            seq!["-map"@, "0:v:0"@, "-c:v"@, "copy"@]
        } else {
            Seq::empty()
        }) + seq!["-map"@, "[a]"@, "-c:a"@, "aac"@, "-b:a"@, "256k"@]
    };
    input_pairs(inputs) + tail
}

pub open spec fn merge_mode_ok(mode: Seq<char>) -> bool {
    mode == "concat"@ || mode == "mux"@ || mode == "mix"@
}

/// The output extension of a merge: that of the named output (else `mp4`); without a
/// named output, `m4a` for a mix of audio-only inputs and `mp4` otherwise.
pub open spec fn merge_extension_for(
    explicit_output: bool,
    output_extension: Option<Seq<char>>,
    mode: Seq<char>,
    has_video: bool,
) -> Seq<char> {
    if explicit_output {
        match output_extension {
            Some(e) => e,
            None => "mp4"@,
        }
    } else if mode == "mix"@ && !has_video {
        "m4a"@
    } else {
        "mp4"@
    }
}

fn inputs_args(inputs: &Vec<String>) -> (r: Vec<String>)
    ensures
        views(r@) == input_pairs(views(inputs@)),
{
    let mut out: Vec<String> = Vec::new();
    let mut i: usize = 0;
    while i < inputs.len()
        invariant
            0 <= i <= inputs@.len(),
            views(out@) == input_pairs(views(inputs@.take(i as int))),
        decreases inputs.len() - i,
    {
        let ghost before = views(out@);
        out.push(owned("-i"));
        out.push(inputs[i].clone());
        proof {
            assert(views(inputs@.take(i + 1)).drop_last() =~= views(inputs@.take(i as int)));
            assert(views(out@) =~= before + seq!["-i"@, inputs@[i as int]@]);
        }
        i = i + 1;
    }
    assert(inputs@.take(inputs@.len() as int) =~= inputs@);
    out
}

fn concat_filter_text(n: usize, video: bool, audio: bool) -> (r: String)
    ensures
        r@ == concat_filter(n as nat, video, audio),
{
    let mut filter = String::new();
    let mut k: usize = 0;
    while k < n
        invariant
            0 <= k <= n,
            filter@ == concat_pads(k as nat, video, audio),
        decreases n - k,
    {
        let index = u64_text(k as u64);
        if video {
            filter.append("[");
            filter.append(index.as_str());
            filter.append(":v:0]");
        }
        if audio {
            filter.append("[");
            filter.append(index.as_str());
            filter.append(":a:0]");
        }
        k = k + 1;
        assert(filter@ =~= concat_pads(k as nat, video, audio));
    }
    filter.append("concat=n=");
    filter.append(u64_text(n as u64).as_str());
    filter.append(":v=");
    filter.append(if video { "1" } else { "0" });
    filter.append(":a=");
    filter.append(if audio { "1" } else { "0" });
    if video {
        filter.append("[v]");
    }
    if audio {
        filter.append("[a]");
    }
    filter
}

fn any_input_has(probes: &Vec<Vec<StreamInfo>>, kind: &str) -> (r: bool)
    ensures
        r == any_has(probes@, kind@),
{
    let mut i: usize = 0;
    while i < probes.len()
        invariant
            0 <= i <= probes@.len(),
            forall|k: int| 0 <= k < i ==> !has_kind(#[trigger] probes@[k]@, kind@),
        decreases probes.len() - i,
    {
        if has_stream(&probes[i], kind) {
            return true;
        }
        i = i + 1;
    }
    false
}

fn all_inputs_have(probes: &Vec<Vec<StreamInfo>>, kind: &str) -> (r: bool)
    ensures
        r == all_have(probes@, kind@),
{
    let mut i: usize = 0;
    while i < probes.len()
        invariant
            0 <= i <= probes@.len(),
            forall|k: int| 0 <= k < i ==> has_kind(#[trigger] probes@[k]@, kind@),
        decreases probes.len() - i,
    {
        if !has_stream(&probes[i], kind) {
            return false;
        }
        i = i + 1;
    }
    true
}

/// Plans a merge of `inputs` in `mode` (`concat`, `mux` or `mix`, any case).
/// `input_check` is the outcome of checking that every input is a readable file,
/// `probes` the streams probed from each input in order, and `explicit_output` with
/// `output_extension` whether an output was named and the extension it has.
pub fn merge_command(
    inputs: &Vec<String>,
    mode: &str,
    input_check: Result<(), MediaError>,
    probes: Result<Vec<Vec<StreamInfo>>, MediaError>,
    explicit_output: bool,
    output_extension: Option<&str>,
) -> (r: Result<MergePlan, MediaError>)
    requires
        probes matches Ok(p) ==> p@.len() == inputs@.len(),
    ensures
        ({
            let m = lowercase(mode@);
            if inputs@.len() < 2 {
                fails_with_message(
                    r,
                    ErrorCode::InvalidArgument,
                    "Merge requires at least two input files."@,
                )
            } else if !merge_mode_ok(m) {
                fails_with_message(
                    r,
                    ErrorCode::InvalidArgument,
                    "Merge mode must be concat, mux, or mix."@,
                )
            } else if input_check is Err {
                r matches Err(e) && same_error(e, input_check->Err_0)
            } else if m != "concat"@ && inputs@.len() != 2 {
                fails_with_message(
                    r,
                    ErrorCode::InvalidArgument,
                    "Mux and mix require exactly two inputs."@,
                )
            } else if probes is Err {
                r matches Err(e) && same_error(e, probes->Err_0)
            } else {
                let ss = probes->Ok_0@;
                if m == "mux"@ && (!has_kind(ss[0]@, "video"@) || !has_kind(ss[1]@, "audio"@)) {
                    fails_with_message(
                        r,
                        ErrorCode::InvalidMedia,
                        "Mux expects a video input followed by an audio input."@,
                    )
                } else if m == "mix"@ && !all_have(ss, "audio"@) {
                    fails_with_message(
                        r,
                        ErrorCode::InvalidMedia,
                        "Mix expects audio streams in both inputs."@,
                    )
                } else {
                    r matches Ok(plan) && plan.mode@ == m && plan.input_count == inputs@.len()
                        && plan.output_extension@ == merge_extension_for(
                        explicit_output,
                        opt_view(output_extension),
                        m,
                        any_has(ss, "video"@),
                    ) && plan.quality_loss@ == (if eq_ignore_ascii(mode@, "mux"@) {
                        "none"@
                    } else {
                        "possible"@
                    }) && plan.video_present == any_has(ss, "video"@) && plan.audio_present == (
                    if m == "concat"@ {
                        all_have(ss, "audio"@)
                    } else {
                        any_has(ss, "audio"@)
                    }) && views(plan.args@) == merge_args_for(m, views(inputs@), ss)
                }
            }
        }),
{
    if inputs.len() < 2 {
        return Err(MediaError::new(
            ErrorCode::InvalidArgument,
            owned("Merge requires at least two input files."),
        ));
    }
    let m = to_lower(mode);
    if !(is_lit(&m, "concat") || is_lit(&m, "mux") || is_lit(&m, "mix")) {
        return Err(MediaError::new(
            ErrorCode::InvalidArgument,
            owned("Merge mode must be concat, mux, or mix."),
        ));
    }
    if let Err(e) = input_check {
        return Err(e);
    }
    if !is_lit(&m, "concat") && inputs.len() != 2 {
        return Err(MediaError::new(
            ErrorCode::InvalidArgument,
            owned("Mux and mix require exactly two inputs."),
        ));
    }
    let probes = match probes {
        Ok(p) => p,
        Err(e) => {
            return Err(e);
        },
    };
    let has_video = any_input_has(&probes, "video");
    let has_audio = any_input_has(&probes, "audio");
    if is_lit(&m, "mux") && (!has_stream(&probes[0], "video") || !has_stream(&probes[1], "audio")) {
        return Err(MediaError::new(
            ErrorCode::InvalidMedia,
            owned("Mux expects a video input followed by an audio input."),
        ));
    }
    let all_audio = all_inputs_have(&probes, "audio");
    if is_lit(&m, "mix") && !all_audio {
        return Err(MediaError::new(
            ErrorCode::InvalidMedia,
            owned("Mix expects audio streams in both inputs."),
        ));
    }
    let extension = if explicit_output {
        match output_extension {
            Some(e) => owned(e),
            None => owned("mp4"),
        }
    } else if is_lit(&m, "mix") && !has_video {
        owned("m4a")
    } else {
        owned("mp4")
    };
    let mut args = inputs_args(inputs);
    let ghost head = views(args@);
    if is_lit(&m, "concat") {
        let all_video = all_inputs_have(&probes, "video");
        let filter = concat_filter_text(inputs.len(), all_video, all_audio);
        push_all(&mut args, vec![owned("-filter_complex"), filter]);
        if all_video {
            push_all(
                &mut args,
                vec![
                    owned("-map"),
                    owned("[v]"),
                    owned("-c:v"),
                    owned("libx264"),
                    owned("-preset"),
                    owned("medium"),
                    owned("-crf"),
                    owned("23"),
                ],
            );
        }
        if all_audio {
            push_all(
                &mut args,
                vec![
                    owned("-map"),
                    owned("[a]"),
                    owned("-c:a"),
                    owned("aac"),
                    owned("-b:a"),
                    owned(DEFAULT_AUDIO_BITRATE),
                ],
            );
        }
    } else if is_lit(&m, "mux") {
        push_all(
            &mut args,
            vec![
                owned("-map"),
                owned("0:v:0"),
                owned("-map"),
                owned("1:a:0"),
                owned("-c:v"),
                owned("copy"),
                owned("-c:a"),
                owned("copy"),
            ],
        );
    } else {
        push_all(
            &mut args,
            vec![
                owned("-filter_complex"),
                owned("[0:a:0][1:a:0]amix=inputs=2:duration=longest[a]"),
            ],
        );
        if has_video {
            push_all(&mut args, vec![owned("-map"), owned("0:v:0"), owned("-c:v"), owned("copy")]);
        }
        push_all(
            &mut args,
            vec![
                owned("-map"),
                owned("[a]"),
                owned("-c:a"),
                owned("aac"),
                owned("-b:a"),
                owned(DEFAULT_AUDIO_BITRATE),
            ],
        );
    }
    proof {
        reveal_strlit("256k");
        assert(DEFAULT_AUDIO_BITRATE@ == "256k"@);
        assert(views(args@) =~= merge_args_for(m@, views(inputs@), probes@));
    }
    let quality_loss = if eq_ignore_ascii_text(mode, "mux") {
        owned("none")
    } else {
        owned("possible")
    };
    let audio_present = if is_lit(&m, "concat") {
        all_audio
    } else {
        has_audio
    };
    Ok(MergePlan {
        mode: m,
        input_count: inputs.len(),
        output_extension: extension,
        quality_loss,
        video_present: has_video,
        audio_present,
        args,
    })
}

} // verus!
