//! Output safety and FFmpeg command lines: whether a requested output may be written,
//! the numbered name that avoids a clash, and the argument list of one FFmpeg run.

use vstd::prelude::*;
use crate::args::{push_all, push_arg};
use crate::codec::{opt_view, views};
use crate::model::{ErrorCode, MediaError, copy_strings, fails_with_message, text_detail, text_entry};
use crate::text::{concat, decimal, owned, starts_with, starts_with_text, str_eq, u64_text};

verus! {

/// Which path an operation writes to.
#[derive(PartialEq, Eq, Structural, Clone, Copy, Debug)]
pub enum OutputChoice {
    /// The requested (or derived) path itself.
    Requested,
    /// The first free numbered sibling of the requested path.
    NextAvailable,
}

/// The decision of `resolve_output`; `None` is a refusal (an explicit output that is the
/// input itself).
pub open spec fn output_choice(
    explicit: bool,
    same_as_input: bool,
    occupied: bool,
    overwrite: bool,
) -> Option<OutputChoice> {
    if same_as_input {
        if explicit {
            None
        } else {
            Some(OutputChoice::NextAvailable)
        }
    } else if occupied && !overwrite {
        Some(OutputChoice::NextAvailable)
    } else {
        Some(OutputChoice::Requested)
    }
}

/// Decides where an operation writes. `explicit` says the user named the output,
/// `same_as_input` that the requested path is the input, `occupied` that something is
/// already there, and `overwrite` that replacing it was allowed.
pub fn resolve_output(explicit: bool, same_as_input: bool, occupied: bool, overwrite: bool) -> (r:
    Result<OutputChoice, MediaError>)
    ensures
        match output_choice(explicit, same_as_input, occupied, overwrite) {
            Some(c) => r == Ok::<OutputChoice, MediaError>(c),
            None => fails_with_message(
                r,
                ErrorCode::OutputConflict,
                "Input and output paths must be different."@,
            ) && views(r->Err_0.suggestions@) == seq![
                "Choose a different --output path."@,
                "MediaForge never replaces the input in place."@,
            ],
        },
{
    if same_as_input {
        if explicit {
            return Err(MediaError::new(
                ErrorCode::OutputConflict,
                owned("Input and output paths must be different."),
            ).with_suggestions(
                vec![
                    owned("Choose a different --output path."),
                    owned("MediaForge never replaces the input in place."),
                ],
            ));
        }
        return Ok(OutputChoice::NextAvailable);
    }
    if occupied && !overwrite {
        return Ok(OutputChoice::NextAvailable);
    }
    Ok(OutputChoice::Requested)
}

/// The output safety rule: MediaForge writes the requested path only when it is not the
/// input and either nothing is there or overwriting was allowed.
pub proof fn lemma_output_never_replaces(
    explicit: bool,
    same_as_input: bool,
    occupied: bool,
    overwrite: bool,
)
    ensures
        (output_choice(explicit, same_as_input, occupied, overwrite) == Some(OutputChoice::Requested))
            ==> (!same_as_input && (!occupied || overwrite)),
        same_as_input ==> (output_choice(explicit, same_as_input, occupied, overwrite) != Some(
            OutputChoice::Requested,
        )),
{
}

/// Checks that an input path names an existing file; `display` is how the path is shown.
pub fn ensure_input(exists: bool, is_file: bool, display: &str) -> (r: Result<(), MediaError>)
    ensures
        !exists ==> fails_with_message(
            r,
            ErrorCode::FileNotFound,
            "Input file does not exist: "@ + display@,
        ),
        !exists ==> (r matches Err(e) && e.details@.len() == 1 && text_entry(
            e.details@[0],
            "path"@,
            display@,
        )),
        exists && !is_file ==> fails_with_message(
            r,
            ErrorCode::InvalidArgument,
            "Input is not a file: "@ + display@,
        ),
        exists && is_file ==> r is Ok,
{
    if !exists {
        return Err(MediaError::new(
            ErrorCode::FileNotFound,
            concat("Input file does not exist: ", display),
        ).with_details(vec![text_detail("path", owned(display))]));
    }
    if !is_file {
        return Err(MediaError::new(
            ErrorCode::InvalidArgument,
            concat("Input is not a file: ", display),
        ));
    }
    Ok(())
}

/// `stem_N.ext`, or `stem_N` without an extension.
pub open spec fn numbered_name(stem: Seq<char>, index: nat, extension: Option<Seq<char>>) -> Seq<
    char,
> {
    match extension {
        Some(e) => stem + "_"@ + decimal(index) + "."@ + e,
        None => stem + "_"@ + decimal(index),
    }
}

/// The file name of the numbered candidate `index` for a file named `stem.ext`.
pub fn candidate_file_name(stem: &str, index: u64, extension: Option<&str>) -> (r: String)
    ensures
        r@ == numbered_name(stem@, index as nat, opt_view(extension)),
{
    let mut out = owned(stem);
    out.append("_");
    out.append(u64_text(index).as_str());
    match extension {
        Some(e) => {
            out.append(".");
            out.append(e);
        },
        None => {},
    }
    out
}

/// The argument list of one FFmpeg run: banner and stdin off, `-n` (never overwrite)
/// unless overwriting was allowed, the input, the operation's arguments and the output.
pub open spec fn ffmpeg_args_for(
    input: Seq<char>,
    output: Seq<char>,
    operation: Seq<Seq<char>>,
    overwrite: bool,
) -> Seq<Seq<char>> {
    seq![
        "-hide_banner"@,
        "-nostdin"@,
        if overwrite {
            "-y"@
        } else {
            "-n"@
        },
        "-i"@,
        input,
    ] + operation + seq![output]
}

/// The full FFmpeg argument list for reading `input` and writing `output`.
pub fn build_ffmpeg_args(input: &str, output: &str, operation_args: &Vec<String>, overwrite: bool) -> (r:
    Vec<String>)
    ensures
        views(r@) == ffmpeg_args_for(input@, output@, views(operation_args@), overwrite),
{
    let mut args: Vec<String> = vec![
        owned("-hide_banner"),
        owned("-nostdin"),
        if overwrite {
            owned("-y")
        } else {
            owned("-n")
        },
        owned("-i"),
        owned(input),
    ];
    push_all(&mut args, copy_strings(operation_args));
    push_arg(&mut args, owned(output));
    assert(views(args@) =~= ffmpeg_args_for(input@, output@, views(operation_args@), overwrite));
    args
}

/// Overwrite safety of every FFmpeg run: the third argument is `-y` exactly when
/// overwriting was allowed and `-n` (never overwrite) otherwise, for plain runs and for
/// plans that name their own inputs; the output is always the last argument.
pub proof fn lemma_ffmpeg_overwrite_flag(
    input: Seq<char>,
    output: Seq<char>,
    operation: Seq<Seq<char>>,
    overwrite: bool,
)
    ensures
        ffmpeg_args_for(input, output, operation, overwrite)[2] == (if overwrite {
            "-y"@
        } else {
            "-n"@
        }),
        ffmpeg_args_for(input, output, operation, overwrite)[3] == "-i"@,
        ffmpeg_args_for(input, output, operation, overwrite)[4] == input,
        ffmpeg_args_for(input, output, operation, overwrite).last() == output,
        plan_run_args_for(input, output, operation, overwrite)[2] == (if overwrite {
            "-y"@
        } else {
            "-n"@
        }),
        plan_run_args_for(input, output, operation, overwrite).last() == output,
{
}

/// Whether some element of `s` spells `t`.
pub open spec fn has_arg(s: Seq<Seq<char>>, t: Seq<char>) -> bool {
    exists|i: int| 0 <= i < s.len() && #[trigger] s[i] == t
}

fn contains_arg(args: &Vec<String>, t: &str) -> (r: bool)
    ensures
        r == has_arg(views(args@), t@),
{
    let mut i: usize = 0;
    while i < args.len()
        invariant
            0 <= i <= args@.len(),
            forall|k: int| 0 <= k < i ==> #[trigger] args@[k]@ != t@,
        decreases args.len() - i,
    {
        if str_eq(args[i].as_str(), t) {
            assert(views(args@)[i as int] == t@);
            return true;
        }
        i = i + 1;
    }
    assert forall|k: int| 0 <= k < views(args@).len() implies #[trigger] views(args@)[k] != t@ by {
        assert(args@[k]@ != t@);
    }
    false
}

/// The argument list of a plan that may name its own inputs: as `ffmpeg_args_for`, but the
/// input is added only when the plan's arguments hold no `-i`.
pub open spec fn plan_run_args_for(
    input: Seq<char>,
    output: Seq<char>,
    plan: Seq<Seq<char>>,
    overwrite: bool,
) -> Seq<Seq<char>> {
    let head = seq![
        "-hide_banner"@,
        "-nostdin"@,
        if overwrite {
            "-y"@
        } else {
            "-n"@
        },
    ];
    let with_input = if has_arg(plan, "-i"@) {
        head
    } else {
        head + seq!["-i"@, input]
    };
    with_input + plan + seq![output]
}

/// The FFmpeg argument list of a plan that may carry its own `-i` arguments (merge,
/// edit, image and the like).
pub fn plan_run_args(input: &str, output: &str, plan_args: &Vec<String>, overwrite: bool) -> (r: Vec<
    String,
>)
    ensures
        views(r@) == plan_run_args_for(input@, output@, views(plan_args@), overwrite),
{
    let mut args: Vec<String> = vec![
        owned("-hide_banner"),
        owned("-nostdin"),
        if overwrite {
            owned("-y")
        } else {
            owned("-n")
        },
    ];
    let has_input = contains_arg(plan_args, "-i");
    if !has_input {
        push_arg(&mut args, owned("-i"));
        push_arg(&mut args, owned(input));
    }
    push_all(&mut args, copy_strings(plan_args));
    push_arg(&mut args, owned(output));
    assert(views(args@) =~= plan_run_args_for(input@, output@, views(plan_args@), overwrite));
    args
}

/// Operation arguments of the first pass of a two-pass encode: analysis only, written to
/// the null muxer.
pub open spec fn first_pass_for(plan: Seq<Seq<char>>, passlog: Seq<char>) -> Seq<Seq<char>> {
    plan + seq!["-pass"@, "1"@, "-passlogfile"@, passlog, "-an"@, "-sn"@, "-f"@, "null"@]
}

/// Operation arguments of the second pass of a two-pass encode.
pub open spec fn second_pass_for(plan: Seq<Seq<char>>, passlog: Seq<char>) -> Seq<Seq<char>> {
    plan + seq!["-pass"@, "2"@, "-passlogfile"@, passlog]
}

/// The operation arguments of the first pass.
pub fn first_pass_args(plan_args: &Vec<String>, passlog: &str) -> (r: Vec<String>)
    ensures
        views(r@) == first_pass_for(views(plan_args@), passlog@),
{
    let mut args = copy_strings(plan_args);
    push_all(
        &mut args,
        vec![
            owned("-pass"),
            owned("1"),
            owned("-passlogfile"),
            owned(passlog),
            owned("-an"),
            owned("-sn"),
            owned("-f"),
            owned("null"),
        ],
    );
    proof {
        assert(views(args@) =~= first_pass_for(views(plan_args@), passlog@));
    }
    args
}

/// The operation arguments of the second pass.
pub fn second_pass_args(plan_args: &Vec<String>, passlog: &str) -> (r: Vec<String>)
    ensures
        views(r@) == second_pass_for(views(plan_args@), passlog@),
{
    let mut args = copy_strings(plan_args);
    push_all(&mut args, vec![owned("-pass"), owned("2"), owned("-passlogfile"), owned(passlog)]);
    proof {
        assert(views(args@) =~= second_pass_for(views(plan_args@), passlog@));
    }
    args
}

/// Whether a file left in the pass-log directory belongs to the pass log `passlog_name`
/// (FFmpeg appends its own suffixes to that name).
pub fn is_passlog_file(file_name: &str, passlog_name: &str) -> (r: bool)
    ensures
        r == starts_with(file_name@, passlog_name@),
{
    starts_with_text(file_name, passlog_name)
}

} // verus!
