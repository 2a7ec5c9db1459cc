//! What MediaForge makes of a finished FFmpeg run: the error of a failed run, the bounded
//! tail of its diagnostics, option lookup in an argument list, and clock-style times.

use vstd::prelude::*;
use crate::codec::{views};
use crate::model::{Detail, DetailValue, ErrorCode, MediaError, copy_strings, text_detail};
use crate::text::{concat, contains_seq, contains_text, decimal, lowercase, owned, str_eq, to_lower, u64_text};

verus! {

/// Most bytes of FFmpeg diagnostics kept for an error report.
pub const MAX_CAPTURED_STDERR_BYTES: usize = 262144;

/// The error code that a failed run's (lowercased) diagnostics point to.
pub open spec fn failure_code_for(lower: Seq<char>) -> ErrorCode {
    if contains_seq(lower, "unknown encoder"@) || (contains_seq(lower, "encoder"@) && contains_seq(
        lower,
        "not found"@,
    )) || contains_seq(lower, "experimental feature"@) || contains_seq(lower, "only supports"@)
        || contains_seq(lower, "does not support"@) {
        ErrorCode::EncoderUnavailable
    } else if contains_seq(lower, "unknown decoder"@) {
        ErrorCode::DecoderUnavailable
    } else if contains_seq(lower, "cannot create compression session"@) || contains_seq(
        lower,
        "no capable devices found"@,
    ) || contains_seq(lower, "hardware encoder"@) {
        ErrorCode::HardwareUnavailable
    } else {
        ErrorCode::FfmpegFailed
    }
}

fn failure_code(lower: &str) -> (c: ErrorCode)
    ensures
        c == failure_code_for(lower@),
{
    if contains_text(lower, "unknown encoder") || (contains_text(lower, "encoder") && contains_text(
        lower,
        "not found",
    )) || contains_text(lower, "experimental feature") || contains_text(lower, "only supports")
        || contains_text(lower, "does not support") {
        ErrorCode::EncoderUnavailable
    } else if contains_text(lower, "unknown decoder") {
        ErrorCode::DecoderUnavailable
    } else if contains_text(lower, "cannot create compression session") || contains_text(
        lower,
        "no capable devices found",
    ) || contains_text(lower, "hardware encoder") {
        ErrorCode::HardwareUnavailable
    } else {
        ErrorCode::FfmpegFailed
    }
}

/// The error reported for a program that exited unsuccessfully: its code is read from the
/// diagnostics, its details hold the command, its arguments and the diagnostics, and a
/// hardware failure suggests a software retry.
pub fn process_failure_error(program: &str, args: &Vec<String>, status: &str, stderr: &str) -> (e:
    MediaError)
    ensures
        e.code == failure_code_for(lowercase(stderr@)),
        e.message@ == program@ + " exited with status "@ + status@ + "."@,
        e.details@.len() == 3,
        e.details@[0].key@ == "command"@,
        e.details@[0].value matches DetailValue::Text(t) && t@ == program@,
        e.details@[1].key@ == "arguments"@,
        e.details@[1].value matches DetailValue::Texts(v) && v@ == args@,
        e.details@[2].key@ == "stderr"@,
        e.details@[2].value matches DetailValue::Text(t) && t@ == stderr@,
        e.code == ErrorCode::HardwareUnavailable ==> views(e.suggestions@) == seq![
            "Retry with --hardware cpu."@,
            "Run media capabilities to inspect available hardware encoders."@,
        ],
        e.code != ErrorCode::HardwareUnavailable ==> e.suggestions@.len() == 0,
{
    let lower = to_lower(stderr);
    let code = failure_code(lower.as_str());
    let mut message = owned(program);
    message.append(" exited with status ");
    message.append(status);
    message.append(".");
    let details = vec![
        text_detail("command", owned(program)),
        Detail { key: owned("arguments"), value: DetailValue::Texts(copy_strings(args)) },
        text_detail("stderr", owned(stderr)),
    ];
    let error = MediaError::new(code, message).with_details(details);
    if code == ErrorCode::HardwareUnavailable {
        error.with_suggestions(
            vec![
                owned("Retry with --hardware cpu."),
                owned("Run media capabilities to inspect available hardware encoders."),
            ],
        )
    } else {
        error
    }
}

// ---------------------------------------------------------------- diagnostics tail

/// A UTF-8 continuation byte: not the first byte of a character.
pub open spec fn is_continuation(b: u8) -> bool {
    0x80 <= b && b < 0xc0
}

/// The first character boundary at or after `from`.
pub open spec fn boundary_from(s: Seq<u8>, from: int) -> int
    decreases s.len() - from,
{
    if 0 <= from < s.len() && is_continuation(s[from]) {
        boundary_from(s, from + 1)
    } else {
        from
    }
}

/// At most the last `MAX_CAPTURED_STDERR_BYTES` bytes of `s`, starting on a character
/// boundary.
pub open spec fn stderr_tail(s: Seq<u8>) -> Seq<u8> {
    if s.len() <= MAX_CAPTURED_STDERR_BYTES {
        s
    } else {
        s.skip(boundary_from(s, s.len() - MAX_CAPTURED_STDERR_BYTES))
    }
}

proof fn lemma_boundary_from(s: Seq<u8>, from: int)
    requires
        0 <= from <= s.len(),
    ensures
        from <= boundary_from(s, from) <= s.len(),
        forall|k: int| from <= k < boundary_from(s, from) ==> is_continuation(#[trigger] s[k]),
        boundary_from(s, from) < s.len() ==> !is_continuation(s[boundary_from(s, from)]),
    decreases s.len() - from,
{
    if from < s.len() && is_continuation(s[from]) {
        lemma_boundary_from(s, from + 1);
    }
}

/// The kept tail is never longer than the limit, and it ends where the text ended; text
/// within the limit is kept whole.
pub proof fn lemma_stderr_tail_bounded(s: Seq<u8>)
    ensures
        s.len() <= MAX_CAPTURED_STDERR_BYTES ==> stderr_tail(s) == s,
        stderr_tail(s).len() <= MAX_CAPTURED_STDERR_BYTES,
        stderr_tail(s).len() <= s.len(),
        stderr_tail(s) == s.skip(s.len() - stderr_tail(s).len()),
{
    if s.len() > MAX_CAPTURED_STDERR_BYTES {
        lemma_boundary_from(s, s.len() - MAX_CAPTURED_STDERR_BYTES);
    } else {
        assert(s.skip(0) =~= s);
    }
}

/// No four continuation bytes stand in a row, as in any UTF-8 text, where a character
/// takes at most four bytes.
pub open spec fn short_continuation_runs(s: Seq<u8>) -> bool {
    forall|i: int|
        #![trigger s[i]]
        0 <= i && i + 3 < s.len() ==> !(is_continuation(s[i]) && is_continuation(s[i + 1])
            && is_continuation(s[i + 2]) && is_continuation(s[i + 3]))
}

/// On UTF-8 text longer than the limit, cutting at a character boundary drops at most
/// three bytes more than the limit asks: the kept tail is at least the limit less three.
pub proof fn lemma_stderr_tail_keeps_enough(s: Seq<u8>)
    requires
        short_continuation_runs(s),
        s.len() > MAX_CAPTURED_STDERR_BYTES,
    ensures
        stderr_tail(s).len() + 3 >= MAX_CAPTURED_STDERR_BYTES,
{
    let from = s.len() - MAX_CAPTURED_STDERR_BYTES;
    lemma_boundary_from(s, from);
    let b = boundary_from(s, from);
    if b > from + 3 {
        assert(is_continuation(s[from]));
        assert(is_continuation(s[from + 1]));
        assert(is_continuation(s[from + 2]));
        assert(is_continuation(s[from + 3]));
        assert(false);
    }
}

/// Appends `text` to the captured diagnostics and keeps only their bounded tail.
pub fn append_stderr_tail(buffer: &mut Vec<u8>, text: &[u8])
    requires
        old(buffer)@.len() + text@.len() <= usize::MAX,
    ensures
        final(buffer)@ == stderr_tail(old(buffer)@ + text@),
{
    let ghost whole = buffer@ + text@;
    let mut i: usize = 0;
    while i < text.len()
        invariant
            0 <= i <= text@.len(),
            buffer@ == old(buffer)@ + text@.take(i as int),
            whole == old(buffer)@ + text@,
            old(buffer)@.len() + text@.len() <= usize::MAX,
        decreases text.len() - i,
    {
        buffer.push(text[i]);
        i = i + 1;
        assert(buffer@ =~= old(buffer)@ + text@.take(i as int));
    }
    assert(text@.take(text@.len() as int) =~= text@);
    assert(buffer@ == whole);
    let n = buffer.len();
    if n <= MAX_CAPTURED_STDERR_BYTES {
        return;
    }
    let mut start = n - MAX_CAPTURED_STDERR_BYTES;
    proof {
        lemma_boundary_from(whole, start as int);
    }
    while start < n && 0x80u8 <= buffer[start] && buffer[start] < 0xc0u8
        invariant
            n == buffer@.len(),
            buffer@ == whole,
            n - MAX_CAPTURED_STDERR_BYTES <= start <= n,
            boundary_from(whole, start as int) == boundary_from(
                whole,
                n - MAX_CAPTURED_STDERR_BYTES,
            ),
        decreases n - start,
    {
        start = start + 1;
    }
    let mut kept: Vec<u8> = Vec::new();
    let mut j = start;
    while j < n
        invariant
            n == buffer@.len(),
            buffer@ == whole,
            start <= j <= n,
            kept@ == whole.subrange(start as int, j as int),
        decreases n - j,
    {
        kept.push(buffer[j]);
        j = j + 1;
        assert(kept@ =~= whole.subrange(start as int, j as int));
    }
    assert(kept@ =~= whole.skip(start as int));
    *buffer = kept;
}

// ---------------------------------------------------------------- argument lookup

/// The value after the first `option` in an argument list that has one (the first
/// window `[option, value]`).
pub fn option_value(args: &Vec<String>, option: &str) -> (r: Option<String>)
    ensures
        match r {
            Some(v) => exists|i: int|
                0 <= i < args@.len() - 1 && #[trigger] args@[i]@ == option@ && v@ == args@[i
                    + 1]@ && forall|j: int| 0 <= j < i ==> #[trigger] args@[j]@ != option@,
            None => forall|i: int| 0 <= i < args@.len() - 1 ==> #[trigger] args@[i]@ != option@,
        },
{
    if args.len() < 2 {
        return None;
    }
    let mut i: usize = 0;
    while i < args.len() - 1
        invariant
            2 <= args@.len(),
            0 <= i <= args@.len() - 1,
            forall|j: int| 0 <= j < i ==> #[trigger] args@[j]@ != option@,
        decreases args.len() - i,
    {
        if str_eq(args[i].as_str(), option) {
            return Some(args[i + 1].clone());
        }
        i = i + 1;
    }
    None
}

// ---------------------------------------------------------------- clock times

/// A number written with at least two digits.
pub open spec fn two_digits(n: nat) -> Seq<char> {
    if n < 10 {
        "0"@ + decimal(n)
    } else {
        decimal(n)
    }
}

/// `MM:SS`, or `HH:MM:SS` from one hour on.
pub open spec fn clock_text(total: nat) -> Seq<char> {
    let hours = total / 3600;
    let minutes = (total % 3600) / 60;
    let seconds = total % 60;
    if hours > 0 {
        two_digits(hours) + ":"@ + two_digits(minutes) + ":"@ + two_digits(seconds)
    } else {
        two_digits(minutes) + ":"@ + two_digits(seconds)
    }
}

fn two_digit_text(n: u64) -> (r: String)
    ensures
        r@ == two_digits(n as nat),
{
    if n < 10 {
        concat("0", u64_text(n).as_str())
    } else {
        u64_text(n)
    }
}

/// A whole number of seconds as a clock time, as progress reports show it.
pub fn format_clock(total_seconds: u64) -> (r: String)
    ensures
        r@ == clock_text(total_seconds as nat),
{
    let hours = total_seconds / 3600;
    let minutes = (total_seconds % 3600) / 60;
    let seconds = total_seconds % 60;
    let mut out = String::new();
    if hours > 0 {
        out.append(two_digit_text(hours).as_str());
        out.append(":");
    }
    out.append(two_digit_text(minutes).as_str());
    out.append(":");
    out.append(two_digit_text(seconds).as_str());
    out
}

} // verus!
