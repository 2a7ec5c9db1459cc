//! Editing a video: crop, rotation, named looks, speed and volume changes, burned-in
//! subtitles and trimming, as one filter transcode.

use vstd::prelude::*;
use crate::args::{push_all};
use crate::codec::{opt_view, views};
use crate::encode::{aac_default, aac_default_args, x264_high, x264_high_args};
use crate::model::{ErrorCode, MediaError, StreamInfo, fails_with_message, refused, same_error, text_detail, text_entry};
use crate::names::{is_lit};
use crate::streams::{has_kind, has_stream};
use crate::text::{chars_of, concat, has_char, has_char_text, join_seqs, join_text, lowercase, owned, parse_u32_spec, parse_u32_text, push_char, split_on, split_text, to_lower, trim, trim_text};

verus! {

// ---------------------------------------------------------------- single filters

pub open spec fn rotation_filter_for(value: u16) -> Option<Seq<char>> {
    if value == 90 {
        Some("transpose=1"@)
    } else if value == 180 {
        Some("hflip,vflip"@)
    } else if value == 270 {
        Some("transpose=2"@)
    } else {
        None
    }
}

/// Exactly the clockwise rotations of 90, 180 and 270 degrees are accepted: 90 is one
/// clockwise transpose, 180 a flip both ways, 270 one counter-clockwise transpose; two
/// different accepted angles never give the same filter.
pub proof fn lemma_rotations_are_distinct(a: u16, b: u16)
    ensures
        rotation_filter_for(a) is Some <==> (a == 90 || a == 180 || a == 270),
        a == 90 ==> rotation_filter_for(a) == Some("transpose=1"@),
        a == 180 ==> rotation_filter_for(a) == Some("hflip,vflip"@),
        a == 270 ==> rotation_filter_for(a) == Some("transpose=2"@),
        rotation_filter_for(a) is Some && rotation_filter_for(b) is Some && a != b
            ==> rotation_filter_for(a) != rotation_filter_for(b),
{
    reveal_strlit("transpose=1");
    reveal_strlit("transpose=2");
    reveal_strlit("hflip,vflip");
    assert("transpose=1"@[10] != "transpose=2"@[10]);
    assert("transpose=1"@[0] != "hflip,vflip"@[0]);
    assert("transpose=2"@[0] != "hflip,vflip"@[0]);
}

/// The filter for a clockwise rotation of 90, 180 or 270 degrees.
pub fn rotate_filter(value: u16) -> (r: Result<&'static str, MediaError>)
    ensures
        match rotation_filter_for(value) {
            Some(f) => r matches Ok(s) && s@ == f,
            None => refused(
                r,
                ErrorCode::InvalidArgument,
                "Rotation must be 90, 180, or 270 degrees."@,
                Seq::empty(),
            ),
        },
{
    if value == 90 {
        Ok("transpose=1")
    } else if value == 180 {
        Ok("hflip,vflip")
    } else if value == 270 {
        Ok("transpose=2")
    } else {
        Err(MediaError::new(
            ErrorCode::InvalidArgument,
            owned("Rotation must be 90, 180, or 270 degrees."),
        ))
    }
}

/// Why a crop value is refused, if it is.
pub open spec fn crop_problem(value: Seq<char>) -> Option<Seq<char>> {
    let parts = split_on(value, ':');
    if parts.len() != 4 || exists|i: int| 0 <= i < parts.len() && #[trigger] trim(parts[i]).len() == 0 {
        Some("Crop must use WIDTH:HEIGHT:X:Y."@)
    } else if exists|i: int| 0 <= i < parts.len() && #[trigger] parse_u32_spec(parts[i]) is None {
        Some("Crop dimensions and offsets must be non-negative integers."@)
    } else {
        None
    }
}

/// The crop filter for `WIDTH:HEIGHT:X:Y`.
pub fn parse_crop(value: &str) -> (r: Result<String, MediaError>)
    ensures
        match crop_problem(value@) {
            Some(m) => refused(r, ErrorCode::InvalidArgument, m, Seq::empty()),
            None => r matches Ok(s) && s@ == "crop="@ + join_seqs(split_on(value@, ':'), ":"@),
        },
{
    let parts = split_text(value, ':');
    assert(views(parts@) =~= split_on(value@, ':'));
    let n = parts.len();
    let mut blank = false;
    let mut i: usize = 0;
    while i < n
        invariant
            views(parts@) == split_on(value@, ':'),
            n == parts@.len(),
            0 <= i <= n,
            blank == exists|k: int| 0 <= k < i && #[trigger] trim(views(parts@)[k]).len() == 0,
        decreases n - i,
    {
        let t = trim_text(parts[i].as_str());
        if t.as_str().is_empty() {
            assert(trim(views(parts@)[i as int]).len() == 0);
            blank = true;
        }
        i = i + 1;
    }
    if n != 4 || blank {
        return Err(MediaError::new(
            ErrorCode::InvalidArgument,
            owned("Crop must use WIDTH:HEIGHT:X:Y."),
        ));
    }
    let mut j: usize = 0;
    while j < n
        invariant
            views(parts@) == split_on(value@, ':'),
            n == parts@.len(),
            0 <= j <= n,
            n == 4,
            !(exists|k: int| 0 <= k < n && #[trigger] trim(views(parts@)[k]).len() == 0),
            forall|k: int| 0 <= k < j ==> #[trigger] parse_u32_spec(views(parts@)[k]) is Some,
        decreases n - j,
    {
        if parse_u32_text(parts[j].as_str()).is_none() {
            assert(parse_u32_spec(views(parts@)[j as int]) is None);
            return Err(MediaError::new(
                ErrorCode::InvalidArgument,
                owned("Crop dimensions and offsets must be non-negative integers."),
            ));
        }
        j = j + 1;
    }
    Ok(concat("crop=", join_text(&parts, ":").as_str()))
}

pub open spec fn named_filter_for(v: Seq<char>) -> Option<Seq<char>> {
    if v == "grayscale"@ || v == "gray"@ {
        Some("hue=s=0"@)
    } else if v == "blur"@ {
        Some("boxblur=2:1"@)
    } else if v == "sharpen"@ {
        Some("unsharp=5:5:1.0:5:5:0.0"@)
    } else if v == "vintage"@ {
        Some("curves=vintage"@)
    } else {
        None
    }
}

/// The filter of a named look (`grayscale`, `blur`, `sharpen`, `vintage`), any case.
pub fn named_video_filter(value: &str) -> (r: Result<&'static str, MediaError>)
    ensures
        match named_filter_for(lowercase(value@)) {
            Some(f) => r matches Ok(s) && s@ == f,
            None => refused(
                r,
                ErrorCode::InvalidArgument,
                "Unsupported named filter: "@ + lowercase(value@),
                Seq::empty(),
            ),
        },
{
    let v = to_lower(value);
    if is_lit(&v, "grayscale") || is_lit(&v, "gray") {
        Ok("hue=s=0")
    } else if is_lit(&v, "blur") {
        Ok("boxblur=2:1")
    } else if is_lit(&v, "sharpen") {
        Ok("unsharp=5:5:1.0:5:5:0.0")
    } else if is_lit(&v, "vintage") {
        Ok("curves=vintage")
    } else {
        Err(MediaError::new(
            ErrorCode::InvalidArgument,
            concat("Unsupported named filter: ", v.as_str()),
        ))
    }
}

// ---------------------------------------------------------------- subtitles

/// One character of a path as written inside a filter graph.
pub open spec fn escape_char(c: char) -> Seq<char> {
    if c == '\\' {
        seq!['\\', '\\']
    } else if c == ':' {
        seq!['\\', ':']
    } else if c == '\'' {
        seq!['\\', '\'']
    } else {
        seq![c]
    }
}

/// A path with backslashes, colons and quotes escaped for a filter graph.
pub open spec fn escaped(s: Seq<char>) -> Seq<char>
    decreases s.len(),
{
    if s.len() == 0 {
        Seq::empty()
    } else {
        escaped(s.drop_last()) + escape_char(s.last())
    }
}

/// Escapes a path for use inside a filter graph.
pub fn escape_filter_path(path: &str) -> (r: String)
    ensures
        r@ == escaped(path@),
{
    let v = chars_of(path);
    let mut out = String::new();
    let mut i: usize = 0;
    while i < v.len()
        invariant
            v@ == path@,
            0 <= i <= v@.len(),
            out@ == escaped(v@.take(i as int)),
        decreases v.len() - i,
    {
        let c = v[i];
        if c == '\\' {
            push_char(&mut out, '\\');
            push_char(&mut out, '\\');
        } else if c == ':' {
            push_char(&mut out, '\\');
            push_char(&mut out, ':');
        } else if c == '\'' {
            push_char(&mut out, '\\');
            push_char(&mut out, '\'');
        } else {
            push_char(&mut out, c);
        }
        proof {
            assert(v@.take(i + 1).drop_last() =~= v@.take(i as int));
            assert(out@ =~= escaped(v@.take(i + 1)));
        }
        i = i + 1;
    }
    assert(v@.take(v@.len() as int) =~= v@);
    out
}

/// A character allowed in a subtitle style: ASCII letters and digits and ` =,.:_&#%+-/`.
pub open spec fn style_char_ok(c: char) -> bool {
    ('a' <= c <= 'z') || ('A' <= c <= 'Z') || ('0' <= c <= '9') || c == ' ' || c == '='
        || c == ',' || c == '.' || c == ':' || c == '_' || c == '&' || c == '#' || c == '%'
        || c == '+' || c == '-' || c == '/'
}

/// Why a subtitle style is refused, if it is.
pub open spec fn style_problem(style: Seq<char>) -> Option<Seq<char>> {
    let s = trim(style);
    if s.len() == 0 || !has_char(s, '=') {
        Some("Subtitle style must contain comma-separated key=value pairs."@)
    } else if exists|i: int| 0 <= i < s.len() && !style_char_ok(#[trigger] s[i]) {
        Some("Subtitle style contains unsupported filter characters."@)
    } else {
        None
    }
}

/// What the refusal of a subtitle style suggests: a well-formed example, when the style
/// has pairs but a character outside the accepted set.
pub open spec fn style_suggestions(style: Seq<char>) -> Seq<Seq<char>> {
    let s = trim(style);
    if s.len() == 0 || !has_char(s, '=') {
        Seq::empty()
    } else {
        seq!["Use values such as FontName=Arial,FontSize=24,PrimaryColour=&H00FFFFFF."@]
    }
}

fn style_char_exec(c: char) -> (r: bool)
    ensures
        r == style_char_ok(c),
{
    ('a' <= c && c <= 'z') || ('A' <= c && c <= 'Z') || ('0' <= c && c <= '9') || c == ' '
        || c == '=' || c == ',' || c == '.' || c == ':' || c == '_' || c == '&' || c == '#'
        || c == '%' || c == '+' || c == '-' || c == '/'
}

/// The subtitle burn-in filter for the subtitle file at `path`, with an optional
/// `force_style` list of `key=value` pairs.
pub fn subtitle_filter(path: &str, style: Option<&str>) -> (r: Result<String, MediaError>)
    ensures
        match style {
            None => r matches Ok(s) && s@ == "subtitles="@ + escaped(path@),
            Some(st) => match style_problem(st@) {
                Some(m) => refused(r, ErrorCode::InvalidArgument, m, style_suggestions(st@)),
                None => r matches Ok(s) && s@ == "subtitles="@ + escaped(path@) + ":force_style='"@
                    + trim(st@) + "'"@,
            },
        },
{
    let mut filter = concat("subtitles=", escape_filter_path(path).as_str());
    if let Some(st) = style {
        let s = trim_text(st);
        if s.as_str().is_empty() || !has_char_text(s.as_str(), '=') {
            let e = MediaError::new(
                ErrorCode::InvalidArgument,
                owned("Subtitle style must contain comma-separated key=value pairs."),
            );
            assert(views(e.suggestions@) =~= Seq::<Seq<char>>::empty());
            return Err(e);
        }
        let v = chars_of(s.as_str());
        let mut i: usize = 0;
        while i < v.len()
            invariant
                v@ == s@,
                style == Some(st),
                s@ == trim(st@),
                s@.len() > 0,
                has_char(s@, '='),
                0 <= i <= v@.len(),
                forall|k: int| 0 <= k < i ==> style_char_ok(#[trigger] v@[k]),
            decreases v.len() - i,
        {
            if !style_char_exec(v[i]) {
                let suggestions = vec![
                    owned("Use values such as FontName=Arial,FontSize=24,PrimaryColour=&H00FFFFFF."),
                ];
                assert(views(suggestions@) =~= style_suggestions(st@));
                return Err(
                    MediaError::new(
                        ErrorCode::InvalidArgument,
                        owned("Subtitle style contains unsupported filter characters."),
                    ).with_suggestions(suggestions),
                );
            }
            i = i + 1;
        }
        filter.append(":force_style='");
        filter.append(s.as_str());
        filter.append("'");
    }
    Ok(filter)
}

// ---------------------------------------------------------------- the edit

/// A speed change: whether the factor lies in the accepted range 0.25 to 4, the factor
/// written with six decimals, and the `atempo` chain that keeps the audio in step.
#[derive(Debug)]
pub struct SpeedChange {
    pub in_range: bool,
    pub factor_text: String,
    pub tempo_filter: String,
}

/// A volume change: whether the level lies in the accepted range 0 to 10, and the level
/// written with six decimals.
#[derive(Debug)]
pub struct VolumeChange {
    pub in_range: bool,
    pub level_text: String,
}

/// What an edit asks for.
#[derive(Debug)]
pub struct EditRequest {
    pub input: String,
    pub crop: Option<String>,
    pub rotate: Option<u16>,
    pub filter: Option<String>,
    pub speed: Option<SpeedChange>,
    pub volume: Option<VolumeChange>,
    pub subtitle: Option<String>,
    pub subtitle_style: Option<String>,
    pub start: Option<String>,
    pub duration: Option<String>,
}

/// The checks of an edit that come before its output is chosen.
#[derive(Debug)]
pub struct EditCheck {
    pub audio_present: bool,
    pub warnings: Vec<String>,
}

pub open spec fn speed_refused(req: EditRequest) -> bool {
    req.speed matches Some(s) && !s.in_range
}

pub open spec fn volume_refused(req: EditRequest) -> bool {
    req.volume matches Some(v) && !v.in_range
}

/// Checks an edit before its output is chosen. `input_check` and `subtitle_check` are the
/// outcomes of checking that the input and the subtitle file are readable files,
/// `streams` the probed streams of the input, and `filter_available` whether the
/// installed FFmpeg has the subtitles filter.
pub fn edit_preflight(
    req: &EditRequest,
    input_check: Result<(), MediaError>,
    streams: Result<Vec<StreamInfo>, MediaError>,
    subtitle_check: Result<(), MediaError>,
    filter_available: bool,
    dry_run: bool,
    subtitle_display: &str,
) -> (r: Result<EditCheck, MediaError>)
    ensures
        input_check is Err ==> (r matches Err(e) && same_error(e, input_check->Err_0)),
        input_check is Ok && streams is Err ==> (r matches Err(e) && same_error(
            e,
            streams->Err_0,
        )),
        input_check is Ok && streams is Ok ==> ({
            let s = streams->Ok_0@;
            if !has_kind(s, "video"@) {
                fails_with_message(r, ErrorCode::InvalidMedia, "Edit requires a video stream."@)
            } else if speed_refused(*req) {
                fails_with_message(
                    r,
                    ErrorCode::InvalidArgument,
                    "Speed must be between 0.25 and 4.0."@,
                )
            } else if volume_refused(*req) {
                fails_with_message(
                    r,
                    ErrorCode::InvalidArgument,
                    "Volume must be between 0 and 10."@,
                )
            } else if req.subtitle is Some && subtitle_check is Err {
                r matches Err(e) && same_error(e, subtitle_check->Err_0)
            } else if req.subtitle is None && req.subtitle_style is Some {
                fails_with_message(
                    r,
                    ErrorCode::InvalidArgument,
                    "Subtitle style requires --subtitle."@,
                )
            } else if req.subtitle is Some && !filter_available && !dry_run {
                refused(
                    r,
                    ErrorCode::FilterUnavailable,
                    "The installed FFmpeg build does not include the subtitles/libass filter."@,
                    seq![
                        "Install an FFmpeg build compiled with libass, then retry."@,
                        "Use a subtitle stream conversion operation when burn-in is not required."@,
                    ],
                ) && r->Err_0.details@.len() == 2 && text_entry(
                    r->Err_0.details@[0],
                    "filter"@,
                    "subtitles"@,
                ) && text_entry(r->Err_0.details@[1], "subtitle"@, subtitle_display@)
            } else {
                r matches Ok(c) && c.audio_present == has_kind(s, "audio"@) && views(c.warnings@)
                    == (if req.subtitle is Some && !filter_available {
                    seq![
                        "The current FFmpeg build lacks the subtitles/libass filter; execution is unavailable."@,
                    ]
                } else {
                    Seq::empty()
                })
            }
        }),
{
    if let Err(e) = input_check {
        return Err(e);
    }
    let streams = match streams {
        Ok(s) => s,
        Err(e) => {
            return Err(e);
        },
    };
    if !has_stream(&streams, "video") {
        return Err(MediaError::new(
            ErrorCode::InvalidMedia,
            owned("Edit requires a video stream."),
        ));
    }
    if let Some(s) = &req.speed {
        if !s.in_range {
            return Err(MediaError::new(
                ErrorCode::InvalidArgument,
                owned("Speed must be between 0.25 and 4.0."),
            ));
        }
    }
    if let Some(v) = &req.volume {
        if !v.in_range {
            return Err(MediaError::new(
                ErrorCode::InvalidArgument,
                owned("Volume must be between 0 and 10."),
            ));
        }
    }
    if req.subtitle.is_some() {
        if let Err(e) = subtitle_check {
            return Err(e);
        }
    }
    if req.subtitle.is_none() && req.subtitle_style.is_some() {
        return Err(MediaError::new(
            ErrorCode::InvalidArgument,
            owned("Subtitle style requires --subtitle."),
        ));
    }
    if req.subtitle.is_some() && !filter_available && !dry_run {
        return Err(MediaError::new(
            ErrorCode::FilterUnavailable,
            owned("The installed FFmpeg build does not include the subtitles/libass filter."),
        ).with_details(
            vec![
                text_detail("filter", owned("subtitles")),
                text_detail("subtitle", owned(subtitle_display)),
            ],
        ).with_suggestions({
            let suggestions = vec![
                owned("Install an FFmpeg build compiled with libass, then retry."),
                owned("Use a subtitle stream conversion operation when burn-in is not required."),
            ];
            assert(views(suggestions@) =~= seq![
                "Install an FFmpeg build compiled with libass, then retry."@,
                "Use a subtitle stream conversion operation when burn-in is not required."@,
            ]);
            suggestions
        }));
    }
    let warnings = if req.subtitle.is_some() && !filter_available {
        let w = vec![
            owned(
                "The current FFmpeg build lacks the subtitles/libass filter; execution is unavailable.",
            ),
        ];
        assert(views(w@) =~= seq![
            "The current FFmpeg build lacks the subtitles/libass filter; execution is unavailable."@,
        ]);
        w
    } else {
        let w: Vec<String> = Vec::new();
        assert(views(w@) =~= Seq::<Seq<char>>::empty());
        w
    };
    Ok(EditCheck { audio_present: has_stream(&streams, "audio"), warnings })
}

pub open spec fn opt_item(o: Option<Seq<char>>) -> Seq<Seq<char>> {
    match o {
        Some(x) => seq![x],
        None => Seq::empty(),
    }
}

pub open spec fn string_view(o: Option<String>) -> Option<Seq<char>> {
    match o {
        Some(s) => Some(s@),
        None => None,
    }
}

pub open spec fn crop_piece(req: EditRequest) -> Seq<Seq<char>> {
    match req.crop {
        Some(c) => seq!["crop="@ + join_seqs(split_on(c@, ':'), ":"@)],
        None => Seq::empty(),
    }
}

pub open spec fn rotate_piece(req: EditRequest) -> Seq<Seq<char>> {
    match req.rotate {
        Some(d) => opt_item(rotation_filter_for(d)),
        None => Seq::empty(),
    }
}

pub open spec fn look_piece(req: EditRequest) -> Seq<Seq<char>> {
    match req.filter {
        Some(f) => opt_item(named_filter_for(lowercase(f@))),
        None => Seq::empty(),
    }
}

pub open spec fn speed_piece(req: EditRequest) -> Seq<Seq<char>> {
    match req.speed {
        Some(s) => seq!["setpts=PTS/"@ + s.factor_text@],
        None => Seq::empty(),
    }
}

pub open spec fn subtitle_piece(req: EditRequest) -> Seq<Seq<char>> {
    match req.subtitle {
        Some(p) => seq![
            "subtitles="@ + escaped(p@) + (match req.subtitle_style {
                Some(st) => ":force_style='"@ + trim(st@) + "'"@,
                None => Seq::empty(),
            }),
        ],
        None => Seq::empty(),
    }
}

/// The video filter chain of a checked edit, in order: crop, rotation, named look, speed,
/// subtitles.
pub open spec fn edit_video_filters(req: EditRequest) -> Seq<Seq<char>> {
    crop_piece(req) + rotate_piece(req) + look_piece(req) + speed_piece(req) + subtitle_piece(req)
}

pub open spec fn crop_bad(req: EditRequest) -> bool {
    req.crop matches Some(c) && crop_problem(c@) is Some
}

pub open spec fn rotate_bad(req: EditRequest) -> bool {
    req.rotate matches Some(d) && rotation_filter_for(d) is None
}

pub open spec fn look_bad(req: EditRequest) -> bool {
    req.filter matches Some(f) && named_filter_for(lowercase(f@)) is None
}

pub open spec fn style_bad(req: EditRequest) -> bool {
    req.subtitle is Some && (req.subtitle_style matches Some(st) && style_problem(st@) is Some)
}

/// The first refusal among the edit's filters, as code-less message, if any.
pub open spec fn filter_refusal(req: EditRequest) -> Option<Seq<char>> {
    if crop_bad(req) {
        crop_problem(req.crop->Some_0@)
    } else if rotate_bad(req) {
        Some("Rotation must be 90, 180, or 270 degrees."@)
    } else if look_bad(req) {
        Some("Unsupported named filter: "@ + lowercase(req.filter->Some_0@))
    } else if style_bad(req) {
        style_problem(req.subtitle_style->Some_0@)
    } else {
        None
    }
}

/// What the refusal of an edit's filter settings suggests: an example style when the
/// subtitle style is the first refused setting, else nothing.
pub open spec fn filter_suggestions(req: EditRequest) -> Seq<Seq<char>> {
    if crop_bad(req) || rotate_bad(req) || look_bad(req) {
        Seq::empty()
    } else {
        style_suggestions(req.subtitle_style->Some_0@)
    }
}

fn video_filters(req: &EditRequest) -> (r: Result<Vec<String>, MediaError>)
    ensures
        match filter_refusal(*req) {
            Some(m) => refused(r, ErrorCode::InvalidArgument, m, filter_suggestions(*req)),
            None => r matches Ok(v) && views(v@) == edit_video_filters(*req),
        },
{
    let mut filters: Vec<String> = Vec::new();
    if let Some(c) = &req.crop {
        let f = parse_crop(c.as_str())?;
        filters.push(f);
    }
    assert(views(filters@) =~= crop_piece(*req));
    if let Some(d) = req.rotate {
        let f = rotate_filter(d)?;
        filters.push(owned(f));
    }
    assert(views(filters@) =~= crop_piece(*req) + rotate_piece(*req));
    if let Some(name) = &req.filter {
        let f = named_video_filter(name.as_str())?;
        filters.push(owned(f));
    }
    assert(views(filters@) =~= crop_piece(*req) + rotate_piece(*req) + look_piece(*req));
    if let Some(s) = &req.speed {
        filters.push(concat("setpts=PTS/", s.factor_text.as_str()));
    }
    assert(views(filters@) =~= crop_piece(*req) + rotate_piece(*req) + look_piece(*req)
        + speed_piece(*req));
    if let Some(p) = &req.subtitle {
        let style = match &req.subtitle_style {
            Some(st) => Some(st.as_str()),
            None => None,
        };
        assert(opt_view(style) == string_view(req.subtitle_style));
        let f = match subtitle_filter(p.as_str(), style) {
            Ok(f) => f,
            Err(e) => {
                return Err(e);
            },
        };
        assert(req.subtitle_style matches Some(st) ==> style_problem(st@) is None);
        assert(req.subtitle == Some(*p));
        assert(f@ == "subtitles="@ + escaped(p@) + (match req.subtitle_style {
            Some(st) => ":force_style='"@ + trim(st@) + "'"@,
            None => Seq::<char>::empty(),
        }));
        assert(seq![f@] =~= subtitle_piece(*req));
        filters.push(f);
    }
    assert(views(filters@) =~= edit_video_filters(*req));
    Ok(filters)
}

/// The audio filter chain of a checked edit: tempo, then volume.
pub open spec fn edit_audio_filters(req: EditRequest) -> Seq<Seq<char>> {
    (match req.speed {
        Some(s) => seq![s.tempo_filter@],
        None => Seq::empty(),
    }) + (match req.volume {
        Some(v) => seq!["volume="@ + v.level_text@],
        None => Seq::empty(),
    })
}

/// The FFmpeg arguments of a checked edit.
pub open spec fn edit_args_for(req: EditRequest) -> Seq<Seq<char>> {
    let vf = edit_video_filters(req);
    let af = edit_audio_filters(req);
    (match req.start {
        Some(s) => seq!["-ss"@, s@],
        None => Seq::empty(),
    }) + seq!["-i"@, req.input@, "-map"@, "0:v:0"@, "-map"@, "0:a?"@] + (match req.duration {
        Some(d) => seq!["-t"@, d@],
        None => Seq::empty(),
    }) + (if vf.len() > 0 {
        seq!["-vf"@, join_seqs(vf, ","@)]
    } else {
        Seq::empty()
    }) + x264_high_args() + (if af.len() > 0 {
        seq!["-af"@, join_seqs(af, ","@)]
    } else {
        Seq::empty()
    }) + aac_default_args()
}

/// Builds the FFmpeg arguments of an edit whose preflight passed. `start_check` is the
/// outcome of reading the start time, and `duration_positive` that of reading the
/// duration, with whether it is above zero.
pub fn edit_command(
    req: &EditRequest,
    start_check: Result<(), MediaError>,
    duration_positive: Result<bool, MediaError>,
) -> (r: Result<Vec<String>, MediaError>)
    ensures
        match filter_refusal(*req) {
            Some(m) => refused(r, ErrorCode::InvalidArgument, m, filter_suggestions(*req)),
            None => if req.start is Some && start_check is Err {
                r matches Err(e) && same_error(e, start_check->Err_0)
            } else if req.duration is Some && duration_positive is Err {
                r matches Err(e) && same_error(e, duration_positive->Err_0)
            } else if req.duration is Some && duration_positive == Ok::<bool, MediaError>(false) {
                fails_with_message(
                    r,
                    ErrorCode::InvalidArgument,
                    "Edit duration must be greater than zero."@,
                )
            } else {
                r matches Ok(v) && views(v@) == edit_args_for(*req)
            },
        },
{
    let filters = video_filters(req)?;
    let mut args: Vec<String> = Vec::new();
    if let Some(s) = &req.start {
        if let Err(e) = start_check {
            return Err(e);
        }
        push_all(&mut args, vec![owned("-ss"), s.clone()]);
    }
    let ghost p1 = views(args@);
    push_all(
        &mut args,
        vec![
            owned("-i"),
            req.input.clone(),
            owned("-map"),
            owned("0:v:0"),
            owned("-map"),
            owned("0:a?"),
        ],
    );
    let ghost p2 = views(args@);
    if let Some(d) = &req.duration {
        match duration_positive {
            Err(e) => {
                return Err(e);
            },
            Ok(positive) => {
                if !positive {
                    return Err(MediaError::new(
                        ErrorCode::InvalidArgument,
                        owned("Edit duration must be greater than zero."),
                    ));
                }
            },
        }
        push_all(&mut args, vec![owned("-t"), d.clone()]);
    }
    let ghost p3 = views(args@);
    if filters.len() > 0 {
        push_all(&mut args, vec![owned("-vf"), join_text(&filters, ",")]);
    }
    let ghost p4 = views(args@);
    push_all(&mut args, x264_high());
    let audio = audio_filters(req);
    let ghost p5 = views(args@);
    if audio.len() > 0 {
        push_all(&mut args, vec![owned("-af"), join_text(&audio, ",")]);
    }
    let ghost p6 = views(args@);
    push_all(&mut args, aac_default());
    proof {
        let vf = edit_video_filters(*req);
        let af = edit_audio_filters(*req);
        assert(p1 =~= (match req.start {
            Some(s) => seq!["-ss"@, s@],
            None => Seq::empty(),
        }));
        assert(p3 =~= p1 + seq!["-i"@, req.input@, "-map"@, "0:v:0"@, "-map"@, "0:a?"@] + (
        match req.duration {
            Some(d) => seq!["-t"@, d@],
            None => Seq::empty(),
        }));
        assert(p4 =~= p3 + (if vf.len() > 0 {
            seq!["-vf"@, join_seqs(vf, ","@)]
        } else {
            Seq::empty()
        }));
        assert(p6 =~= p4 + x264_high_args() + (if af.len() > 0 {
            seq!["-af"@, join_seqs(af, ","@)]
        } else {
            Seq::empty()
        }));
        assert(views(args@) =~= edit_args_for(*req));
    }
    Ok(args)
}

fn audio_filters(req: &EditRequest) -> (r: Vec<String>)
    ensures
        views(r@) == edit_audio_filters(*req),
{
    let mut audio: Vec<String> = Vec::new();
    if let Some(s) = &req.speed {
        audio.push(s.tempo_filter.clone());
    }
    if let Some(v) = &req.volume {
        audio.push(concat("volume=", v.level_text.as_str()));
    }
    assert(views(audio@) =~= edit_audio_filters(*req));
    audio
}

} // verus!
