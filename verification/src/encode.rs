//! The fixed encodes that several operations share.

use vstd::prelude::*;
use crate::codec::{preferred, software_candidates, video_args_for, video_encode_args, views};
use crate::convert::{DEFAULT_AUDIO_BITRATE};
use crate::text::{ends_with, owned};

verus! {

/// H.264 through libx264 at the `high` preset: what edits, repairs and DVD transcodes use.
pub open spec fn x264_high_args() -> Seq<Seq<char>> {
    seq!["-c:v"@, "libx264"@, "-preset"@, "medium"@, "-crf"@, "20"@]
}

/// AAC at the default bitrate.
pub open spec fn aac_default_args() -> Seq<Seq<char>> {
    seq!["-c:a"@, "aac"@, "-b:a"@, "256k"@]
}

proof fn lemma_x264_high()
    ensures
        "h264"@ != "copy"@,
        preferred("h264"@, "h264"@) == "h264"@,
        software_candidates("h264"@).len() > 0,
        video_args_for("h264"@, "high"@, Some("libx264"@)) == x264_high_args(),
{
    reveal_strlit("h264");
    reveal_strlit("copy");
    reveal_strlit("auto");
    reveal_strlit("libx264");
    reveal_strlit("_videotoolbox");
    reveal_strlit("_nvenc");
    reveal_strlit("_qsv");
    reveal_strlit("_amf");
    reveal_strlit("high");
    reveal_strlit("lossless");
    reveal_strlit("very-high");
    assert("h264"@[0] != "copy"@[0]);
    assert("h264"@[0] != "auto"@[0]);
    assert("libx264"@.subrange(1, 7)[0] != "_nvenc"@[0]);
    assert("libx264"@.subrange(3, 7)[0] != "_qsv"@[0]);
    assert("libx264"@.subrange(3, 7)[0] != "_amf"@[0]);
    assert(!ends_with("libx264"@, "_videotoolbox"@));
    assert(!ends_with("libx264"@, "_nvenc"@));
    assert(!ends_with("libx264"@, "_qsv"@));
    assert(!ends_with("libx264"@, "_amf"@));
    assert("high"@.len() != "lossless"@.len());
    assert("high"@.len() != "very-high"@.len());
}

/// The `x264_high_args` arguments.
pub fn x264_high() -> (r: Vec<String>)
    ensures
        views(r@) == x264_high_args(),
{
    proof {
        lemma_x264_high();
    }
    match video_encode_args("h264", "high", Some("libx264")) {
        Ok(v) => v,
        Err(_) => {
            assert(false);
            Vec::new()
        },
    }
}

/// The `aac_default_args` arguments.
pub fn aac_default() -> (r: Vec<String>)
    ensures
        views(r@) == aac_default_args(),
{
    let v = vec![owned("-c:a"), owned("aac"), owned("-b:a"), owned(DEFAULT_AUDIO_BITRATE)];
    proof {
        reveal_strlit("256k");
        assert(views(v@) =~= aac_default_args());
    }
    v
}

} // verus!
