//! Facts about probed streams: which streams exist, how subtitles are carried into a
//! target container, and the video properties that `inspect` reports.

use vstd::prelude::*;
use crate::codec::{views};
use crate::model::{StreamInfo};
use crate::names::{is_lit};
use crate::text::{contains_seq, contains_text, lowercase, owned, parse_u32_spec, parse_u32_text, str_eq, to_lower};

verus! {

/// The stream's type is `kind` (`video`, `audio`, `subtitle`).
pub open spec fn is_kind(st: StreamInfo, kind: Seq<char>) -> bool {
    st.codec_type matches Some(t) && t@ == kind
}

/// Index of the first stream of `kind`.
pub open spec fn first_index(s: Seq<StreamInfo>, kind: Seq<char>) -> Option<int>
    decreases s.len(),
{
    if s.len() == 0 {
        None
    } else if is_kind(s[0], kind) {
        Some(0)
    } else {
        match first_index(s.drop_first(), kind) {
            Some(i) => Some(i + 1),
            None => None,
        }
    }
}

pub proof fn lemma_first_index(s: Seq<StreamInfo>, kind: Seq<char>)
    ensures
        first_index(s, kind) matches Some(i) ==> 0 <= i < s.len() && is_kind(s[i], kind) && forall|
            j: int,
        | 0 <= j < i ==> !is_kind(#[trigger] s[j], kind),
        first_index(s, kind) is None <==> forall|j: int| 0 <= j < s.len() ==> !is_kind(#[trigger] s[j], kind),
    decreases s.len(),
{
    if s.len() > 0 {
        lemma_first_index(s.drop_first(), kind);
        if !is_kind(s[0], kind) {
            assert forall|j: int| 0 < j < s.len() implies #[trigger] s[j] == s.drop_first()[j - 1] by {}
        }
    }
}

/// Number of streams of `kind`.
pub open spec fn count_kind(s: Seq<StreamInfo>, kind: Seq<char>) -> nat
    decreases s.len(),
{
    if s.len() == 0 {
        0
    } else {
        count_kind(s.drop_last(), kind) + if is_kind(s.last(), kind) { 1nat } else { 0nat }
    }
}

fn kind_matches(st: &StreamInfo, kind: &str) -> (r: bool)
    ensures
        r == is_kind(*st, kind@),
{
    match &st.codec_type {
        Some(t) => str_eq(t.as_str(), kind),
        None => false,
    }
}

/// Index of the first stream of `kind`, if any.
pub fn first_stream_index(streams: &Vec<StreamInfo>, kind: &str) -> (r: Option<usize>)
    ensures
        r matches Some(j) ==> first_index(streams@, kind@) == Some(j as int),
        r is None ==> first_index(streams@, kind@) is None,
{
    let mut i: usize = 0;
    assert(streams@.skip(0) =~= streams@);
    while i < streams.len()
        invariant
            0 <= i <= streams@.len(),
            first_index(streams@, kind@) == match first_index(streams@.skip(i as int), kind@) {
                Some(k) => Some(k + i),
                None => None,
            },
        decreases streams.len() - i,
    {
        assert(streams@.skip(i as int).drop_first() =~= streams@.skip(i + 1));
        if kind_matches(&streams[i], kind) {
            return Some(i);
        }
        i = i + 1;
    }
    None
}

/// The first stream of `kind`, if any.
pub fn first_stream<'a>(streams: &'a Vec<StreamInfo>, kind: &str) -> (r: Option<&'a StreamInfo>)
    ensures
        match first_index(streams@, kind@) {
            Some(i) => r matches Some(x) && *x == streams@[i],
            None => r is None,
        },
{
    proof {
        lemma_first_index(streams@, kind@);
    }
    match first_stream_index(streams, kind) {
        Some(i) => {
            assert(i < streams@.len());
            Some(&streams[i])
        },
        None => None,
    }
}

/// Whether some stream has type `kind`.
pub open spec fn has_kind(s: Seq<StreamInfo>, kind: Seq<char>) -> bool {
    first_index(s, kind) is Some
}

/// Whether some stream has type `kind`.
pub fn has_stream(streams: &Vec<StreamInfo>, kind: &str) -> (r: bool)
    ensures
        r == has_kind(streams@, kind@),
{
    first_stream_index(streams, kind).is_some()
}

/// Number of streams of `kind`.
pub fn stream_count(streams: &Vec<StreamInfo>, kind: &str) -> (r: usize)
    ensures
        r == count_kind(streams@, kind@),
{
    let mut n: usize = 0;
    let mut i: usize = 0;
    while i < streams.len()
        invariant
            0 <= i <= streams@.len(),
            n == count_kind(streams@.take(i as int), kind@),
            n <= i,
        decreases streams.len() - i,
    {
        assert(streams@.take(i + 1).drop_last() =~= streams@.take(i as int));
        if kind_matches(&streams[i], kind) {
            n = n + 1;
        }
        i = i + 1;
    }
    assert(streams@.take(streams@.len() as int) =~= streams@);
    n
}

/// The lowercased codec name of a stream, empty when unknown.
pub open spec fn codec_lower(st: StreamInfo) -> Seq<char> {
    match st.codec_name {
        Some(c) => lowercase(c@),
        None => lowercase(Seq::empty()),
    }
}

/// Subtitle codecs that convert to the text subtitle format of MP4 or WebM.
pub open spec fn subtitle_ok(container: Seq<char>, codec: Seq<char>) -> bool {
    if container == "mp4"@ {
        codec == "subrip"@ || codec == "srt"@ || codec == "ass"@ || codec == "ssa"@ || codec
            == "webvtt"@ || codec == "mov_text"@ || codec == "text"@
    } else if container == "webm"@ {
        codec == "subrip"@ || codec == "srt"@ || codec == "ass"@ || codec == "ssa"@ || codec
            == "webvtt"@ || codec == "text"@
    } else {
        true
    }
}

/// Whether a subtitle stream can be converted for the container.
pub fn subtitle_conversion_supported(container: &str, stream: &StreamInfo) -> (r: bool)
    ensures
        r == subtitle_ok(container@, codec_lower(*stream)),
{
    let codec = match &stream.codec_name {
        Some(c) => to_lower(c.as_str()),
        None => {
            let empty = String::new();
            to_lower(empty.as_str())
        },
    };
    let k = owned(container);
    if is_lit(&k, "mp4") {
        is_lit(&codec, "subrip") || is_lit(&codec, "srt") || is_lit(&codec, "ass") || is_lit(
            &codec,
            "ssa",
        ) || is_lit(&codec, "webvtt") || is_lit(&codec, "mov_text") || is_lit(&codec, "text")
    } else if is_lit(&k, "webm") {
        is_lit(&codec, "subrip") || is_lit(&codec, "srt") || is_lit(&codec, "ass") || is_lit(
            &codec,
            "ssa",
        ) || is_lit(&codec, "webvtt") || is_lit(&codec, "text")
    } else {
        true
    }
}

/// Some subtitle stream cannot be converted for the container.
pub open spec fn unconvertible_subtitle(s: Seq<StreamInfo>, container: Seq<char>) -> bool {
    exists|i: int|
        0 <= i < s.len() && is_kind(#[trigger] s[i], "subtitle"@) && !subtitle_ok(
            container,
            codec_lower(s[i]),
        )
}

fn any_unconvertible_subtitle(streams: &Vec<StreamInfo>, container: &str) -> (r: bool)
    ensures
        r == unconvertible_subtitle(streams@, container@),
{
    let mut i: usize = 0;
    while i < streams.len()
        invariant
            0 <= i <= streams@.len(),
            forall|k: int|
                0 <= k < i ==> !(is_kind(#[trigger] streams@[k], "subtitle"@) && !subtitle_ok(
                    container@,
                    codec_lower(streams@[k]),
                )),
        decreases streams.len() - i,
    {
        if kind_matches(&streams[i], "subtitle") && !subtitle_conversion_supported(container, &streams[i]) {
            assert(is_kind(streams@[i as int], "subtitle"@));
            return true;
        }
        i = i + 1;
    }
    false
}

/// Whether the container converts subtitles to a text format of its own.
pub open spec fn converting_container(container: Seq<char>) -> bool {
    container == "mp4"@ || container == "webm"@
}

/// Warnings about how subtitle streams fare in the target container.
pub open spec fn subtitle_warnings_for(s: Seq<StreamInfo>, container: Seq<char>) -> Seq<Seq<char>> {
    if count_kind(s, "subtitle"@) == 0 {
        Seq::empty()
    } else if converting_container(container) && unconvertible_subtitle(s, container) {
        if container == "mp4"@ {
            seq![
                "Some subtitle streams cannot be safely converted to mov_text; review the plan before execution."@,
            ]
        } else {
            seq![
                "Some subtitle streams cannot be safely converted to WebVTT; review the plan before execution."@,
            ]
        }
    } else if container == "mp4"@ {
        seq!["Subtitle streams will be converted to mov_text for MP4 compatibility."@]
    } else if container == "webm"@ {
        seq!["Subtitle streams will be converted to WebVTT for WebM compatibility."@]
    } else {
        Seq::empty()
    }
}

/// Warnings about subtitle handling for a target container.
pub fn subtitle_warnings(streams: &Vec<StreamInfo>, container: &str) -> (r: Vec<String>)
    ensures
        views(r@) == subtitle_warnings_for(streams@, container@),
{
    let k = owned(container);
    let r: Vec<String> = if stream_count(streams, "subtitle") == 0 {
        Vec::new()
    } else if (is_lit(&k, "mp4") || is_lit(&k, "webm")) && any_unconvertible_subtitle(streams, container) {
        if is_lit(&k, "mp4") {
            vec![owned("Some subtitle streams cannot be safely converted to mov_text; review the plan before execution.")]
        } else {
            vec![owned("Some subtitle streams cannot be safely converted to WebVTT; review the plan before execution.")]
        }
    } else if is_lit(&k, "mp4") {
        vec![owned("Subtitle streams will be converted to mov_text for MP4 compatibility.")]
    } else if is_lit(&k, "webm") {
        vec![owned("Subtitle streams will be converted to WebVTT for WebM compatibility.")]
    } else {
        Vec::new()
    };
    assert(views(r@) =~= subtitle_warnings_for(streams@, container@));
    r
}

/// How subtitle streams are handled for a target container.
pub open spec fn subtitle_strategy_for(container: Seq<char>, s: Seq<StreamInfo>) -> Seq<char> {
    if count_kind(s, "subtitle"@) == 0 {
        "none"@
    } else if converting_container(container) && unconvertible_subtitle(s, container) {
        "warning"@
    } else if container == "mp4"@ {
        "convert_to_mov_text"@
    } else if container == "webm"@ {
        "convert_to_webvtt"@
    } else {
        "copy"@
    }
}

/// How subtitle streams are handled for a target container.
pub fn subtitle_strategy(container: &str, streams: &Vec<StreamInfo>) -> (r: &'static str)
    ensures
        r@ == subtitle_strategy_for(container@, streams@),
{
    let k = owned(container);
    if stream_count(streams, "subtitle") == 0 {
        "none"
    } else if (is_lit(&k, "mp4") || is_lit(&k, "webm")) && any_unconvertible_subtitle(streams, container) {
        "warning"
    } else if is_lit(&k, "mp4") {
        "convert_to_mov_text"
    } else if is_lit(&k, "webm") {
        "convert_to_webvtt"
    } else {
        "copy"
    }
}

/// Subtitle codec written for a container.
pub open spec fn subtitle_codec_for(container: Seq<char>) -> Seq<char> {
    if container == "mp4"@ {
        "mov_text"@
    } else if container == "webm"@ {
        "webvtt"@
    } else {
        "copy"@
    }
}

fn subtitle_codec_exec(container: &str) -> (r: String)
    ensures
        r@ == subtitle_codec_for(container@),
{
    let k = owned(container);
    if is_lit(&k, "mp4") {
        owned("mov_text")
    } else if is_lit(&k, "webm") {
        owned("webvtt")
    } else {
        owned("copy")
    }
}

/// Arguments that map and convert subtitle streams, when there are any.
pub fn subtitle_ffmpeg_args(container: &str, streams: &Vec<StreamInfo>) -> (r: Vec<String>)
    ensures
        views(r@) == if count_kind(streams@, "subtitle"@) == 0 {
            Seq::<Seq<char>>::empty()
        } else {
            seq!["-map"@, "0:s?"@, "-c:s"@, subtitle_codec_for(container@)]
        },
{
    if stream_count(streams, "subtitle") == 0 {
        let r: Vec<String> = Vec::new();
        assert(views(r@) =~= Seq::<Seq<char>>::empty());
        return r;
    }
    let r = vec![owned("-map"), owned("0:s?"), owned("-c:s"), subtitle_codec_exec(container)];
    assert(views(r@) =~= seq!["-map"@, "0:s?"@, "-c:s"@, subtitle_codec_for(container@)]);
    r
}

/// Arguments that convert subtitle streams already mapped by a full `-map 0`.
pub fn subtitle_codec_args(container: &str, streams: &Vec<StreamInfo>) -> (r: Vec<String>)
    ensures
        views(r@) == if count_kind(streams@, "subtitle"@) == 0 {
            Seq::<Seq<char>>::empty()
        } else {
            seq!["-c:s"@, subtitle_codec_for(container@)]
        },
{
    if stream_count(streams, "subtitle") == 0 {
        let r: Vec<String> = Vec::new();
        assert(views(r@) =~= Seq::<Seq<char>>::empty());
        return r;
    }
    let r = vec![owned("-c:s"), subtitle_codec_exec(container)];
    assert(views(r@) =~= seq!["-c:s"@, subtitle_codec_for(container@)]);
    r
}

// ---------------------------------------------------------------- video properties

/// `u8::from_str`.
pub open spec fn parse_u8_spec(s: Seq<char>) -> Option<u8> {
    match parse_u32_spec(s) {
        Some(v) => if v <= 255 {
            Some(v as u8)
        } else {
            None
        },
        None => None,
    }
}

/// The bit depth that the pixel format name suggests.
pub open spec fn depth_from_pixel_format(p: Seq<char>) -> Option<u8> {
    if contains_seq(p, "16"@) {
        Some(16)
    } else if contains_seq(p, "14"@) {
        Some(14)
    } else if contains_seq(p, "12"@) {
        Some(12)
    } else if contains_seq(p, "10"@) {
        Some(10)
    } else if contains_seq(p, "9"@) {
        Some(9)
    } else if contains_seq(p, "8"@) {
        Some(8)
    } else if p.len() > 0 {
        Some(8)
    } else {
        None
    }
}

/// The bit depth reported for a video stream.
pub open spec fn bit_depth_of(st: StreamInfo) -> Option<u8> {
    let from_text = match st.bits_per_raw_sample_text {
        Some(t) => parse_u8_spec(t@),
        None => None,
    };
    let from_number = match st.bits_per_raw_sample_number {
        Some(n) => if n <= 255 {
            Some(n as u8)
        } else {
            None
        },
        None => None,
    };
    if from_text is Some {
        from_text
    } else if from_number is Some {
        from_number
    } else {
        depth_from_pixel_format(
            match st.pix_fmt {
                Some(p) => p@,
                None => Seq::empty(),
            },
        )
    }
}

/// Bit depth of a video stream: the probed `bits_per_raw_sample` when it holds a byte
/// value, else the depth named in the pixel format, else 8 for any named pixel format.
pub fn bit_depth(stream: &StreamInfo) -> (r: Option<u8>)
    ensures
        r == bit_depth_of(*stream),
{
    let from_text = match &stream.bits_per_raw_sample_text {
        Some(t) => match parse_u32_text(t.as_str()) {
            Some(v) => if v <= 255 {
                Some(v as u8)
            } else {
                None
            },
            None => None,
        },
        None => None,
    };
    if from_text.is_some() {
        return from_text;
    }
    let from_number = match stream.bits_per_raw_sample_number {
        Some(n) => if n <= 255 {
            Some(n as u8)
        } else {
            None
        },
        None => None,
    };
    if from_number.is_some() {
        return from_number;
    }
    let p = match &stream.pix_fmt {
        Some(p) => owned(p.as_str()),
        None => String::new(),
    };
    let ps = p.as_str();
    if contains_text(ps, "16") {
        Some(16)
    } else if contains_text(ps, "14") {
        Some(14)
    } else if contains_text(ps, "12") {
        Some(12)
    } else if contains_text(ps, "10") {
        Some(10)
    } else if contains_text(ps, "9") {
        Some(9)
    } else if contains_text(ps, "8") {
        Some(8)
    } else if ps.unicode_len() > 0 {
        Some(8)
    } else {
        None
    }
}

/// Whether a disposition flag (`default` or `forced`) is set to 1.
pub open spec fn disposition_set(st: StreamInfo, key: Seq<char>) -> bool {
    if key == "default"@ {
        st.disposition_default == Some(1u64)
    } else if key == "forced"@ {
        st.disposition_forced == Some(1u64)
    } else {
        false
    }
}

/// Whether a stream's disposition flag `key` is set.
pub fn disposition_flag(stream: &StreamInfo, key: &str) -> (r: bool)
    ensures
        r == disposition_set(*stream, key@),
{
    let k = owned(key);
    if is_lit(&k, "default") {
        stream.disposition_default == Some(1u64)
    } else if is_lit(&k, "forced") {
        stream.disposition_forced == Some(1u64)
    } else {
        false
    }
}

/// HDR family named by the transfer characteristics and colour primaries.
pub open spec fn hdr_of(st: StreamInfo) -> Option<Seq<char>> {
    let transfer = match st.color_transfer {
        Some(t) => t@,
        None => Seq::empty(),
    };
    let primaries = match st.color_primaries {
        Some(p) => p@,
        None => Seq::empty(),
    };
    if contains_seq(transfer, "smpte2084"@) {
        Some("HDR10"@)
    } else if contains_seq(transfer, "arib-std-b67"@) {
        Some("HLG"@)
    } else if contains_seq(primaries, "bt2020"@) {
        Some("HDR"@)
    } else {
        None
    }
}

/// HDR label of a video stream: `HDR10` (PQ), `HLG`, `HDR` (BT.2020 primaries) or none.
pub fn hdr_name(stream: &StreamInfo) -> (r: Option<String>)
    ensures
        match hdr_of(*stream) {
            Some(h) => r matches Some(s) && s@ == h,
            None => r is None,
        },
{
    let transfer = match &stream.color_transfer {
        Some(t) => owned(t.as_str()),
        None => String::new(),
    };
    let primaries = match &stream.color_primaries {
        Some(p) => owned(p.as_str()),
        None => String::new(),
    };
    if contains_text(transfer.as_str(), "smpte2084") {
        Some(owned("HDR10"))
    } else if contains_text(transfer.as_str(), "arib-std-b67") {
        Some(owned("HLG"))
    } else if contains_text(primaries.as_str(), "bt2020") {
        Some(owned("HDR"))
    } else {
        None
    }
}

impl StreamInfo {
    /// A stream of type `codec_type` with every other field unknown.
    pub fn new(codec_type: &str) -> (r: StreamInfo)
        ensures
            r.codec_type matches Some(t) && t@ == codec_type@,
            r.codec_name is None,
            r.width is None && r.height is None && r.pix_fmt is None,
            r.bits_per_raw_sample_text is None && r.bits_per_raw_sample_number is None,
            r.color_transfer is None && r.color_primaries is None,
            r.disposition_default is None && r.disposition_forced is None,
    {
        StreamInfo { codec_type: Some(owned(codec_type)), ..StreamInfo::unknown() }
    }

    /// A stream about which nothing is known.
    pub fn unknown() -> (r: StreamInfo)
        ensures
            r.codec_type is None && r.codec_name is None && r.width is None && r.height is None,
            r.pix_fmt is None && r.bits_per_raw_sample_text is None
                && r.bits_per_raw_sample_number is None,
            r.color_transfer is None && r.color_primaries is None,
            r.disposition_default is None && r.disposition_forced is None,
    {
        StreamInfo {
            codec_type: None,
            codec_name: None,
            width: None,
            height: None,
            pix_fmt: None,
            bits_per_raw_sample_text: None,
            bits_per_raw_sample_number: None,
            color_transfer: None,
            color_primaries: None,
            disposition_default: None,
            disposition_forced: None,
        }
    }

    /// The same stream with its codec name set.
    pub fn with_codec_name(self, codec_name: &str) -> (r: StreamInfo)
        ensures
            r.codec_name matches Some(c) && c@ == codec_name@,
            (r == StreamInfo { codec_name: r.codec_name, ..self }),
    {
        StreamInfo { codec_name: Some(owned(codec_name)), ..self }
    }

    /// The same stream with its pixel format set.
    pub fn with_pix_fmt(self, pix_fmt: &str) -> (r: StreamInfo)
        ensures
            r.pix_fmt matches Some(p) && p@ == pix_fmt@,
            (r == StreamInfo { pix_fmt: r.pix_fmt, ..self }),
    {
        StreamInfo { pix_fmt: Some(owned(pix_fmt)), ..self }
    }

    /// The same stream with its dimensions set.
    pub fn with_dimensions(self, width: u64, height: u64) -> (r: StreamInfo)
        ensures
            (r == StreamInfo { width: Some(width), height: Some(height), ..self }),
    {
        StreamInfo { width: Some(width), height: Some(height), ..self }
    }
}

} // verus!

verus! {

/// Subtitle handling is never silent: whenever subtitles are present and will be
/// converted or cannot be, the plan carries a warning; a `warning` strategy always comes
/// with exactly one.
pub proof fn lemma_subtitle_warnings_explain_strategy(container: Seq<char>, s: Seq<StreamInfo>)
    ensures
        subtitle_strategy_for(container, s) == "warning"@ ==> subtitle_warnings_for(s, container).len()
            == 1,
        count_kind(s, "subtitle"@) > 0 && converting_container(container) ==> subtitle_warnings_for(
            s,
            container,
        ).len() == 1,
        count_kind(s, "subtitle"@) == 0 ==> subtitle_strategy_for(container, s) == "none"@
            && subtitle_warnings_for(s, container).len() == 0,
{
    reveal_strlit("warning");
    reveal_strlit("none");
    reveal_strlit("convert_to_mov_text");
    reveal_strlit("convert_to_webvtt");
    reveal_strlit("copy");
    assert("warning"@.len() != "none"@.len());
    assert("warning"@.len() != "copy"@.len());
    assert("warning"@.len() != "convert_to_mov_text"@.len());
    assert("warning"@.len() != "convert_to_webvtt"@.len());
}

} // verus!
