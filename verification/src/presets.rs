//! Device output presets.

use vstd::prelude::*;
use crate::codec::{views};
use crate::convert::{ConvertPlan};
use crate::model::{ErrorCode, MediaError, refused};
use crate::names::{is_lit};
use crate::text::{concat, decimal, lowercase, owned, replace_char, replace_char_text, to_lower, u64_text};

verus! {

/// A device output profile: container, codecs and the largest frame height it plays.
#[derive(Clone, Copy, Debug)]
pub struct DeviceProfile {
    pub id: &'static str,
    pub label: &'static str,
    pub container: &'static str,
    pub video_codec: &'static str,
    pub audio_codec: &'static str,
    pub max_height: u32,
}

/// The preset id named by a cleaned device name.
pub open spec fn device_id_for(v: Seq<char>) -> Option<Seq<char>> {
    if v == "iphone"@ {
        Some("iphone"@)
    } else if v == "ipad"@ {
        Some("ipad"@)
    } else if v == "android"@ {
        Some("android"@)
    } else if v == "psp"@ {
        Some("psp"@)
    } else if v == "car"@ || v == "car-player"@ {
        Some("car"@)
    } else {
        None
    }
}

/// Largest frame height of the preset named by a cleaned device name.
pub open spec fn device_max_height(v: Seq<char>) -> u32 {
    if v == "iphone"@ {
        1080
    } else if v == "ipad"@ {
        1440
    } else if v == "android"@ {
        1080
    } else if v == "psp"@ {
        480
    } else {
        720
    }
}

/// Display label of the preset named by a cleaned device name.
pub open spec fn device_label(v: Seq<char>) -> Seq<char> {
    if v == "iphone"@ {
        "iPhone"@
    } else if v == "ipad"@ {
        "iPad"@
    } else if v == "android"@ {
        "Android"@
    } else if v == "psp"@ {
        "PSP"@
    } else {
        "车载通用"@
    }
}

/// Every preset writes H.264 video and AAC audio into MP4.
pub open spec fn profile_shape(p: DeviceProfile) -> bool {
    p.container@ == "mp4"@ && p.video_codec@ == "h264"@ && p.audio_codec@ == "aac"@
}

pub open spec fn device_key(value: Seq<char>) -> Seq<char> {
    replace_char(lowercase(value), '_', '-')
}

fn make_profile(id: &'static str, label: &'static str, max_height: u32) -> (p: DeviceProfile)
    ensures
        profile_shape(p),
        p.id == id,
        p.label == label,
        p.max_height == max_height,
{
    DeviceProfile {
        id,
        label,
        container: "mp4",
        video_codec: "h264",
        audio_codec: "aac",
        max_height,
    }
}

/// Looks up a device preset by name (case-insensitive, `_` accepted for `-`).
pub fn device_profile(value: &str) -> (r: Result<DeviceProfile, MediaError>)
    ensures
        match device_id_for(device_key(value@)) {
            Some(id) => r matches Ok(p) && p.id@ == id && profile_shape(p) && p.max_height
                == device_max_height(device_key(value@)) && p.label@ == device_label(
                device_key(value@),
            ),
            None => refused(
                r,
                ErrorCode::InvalidArgument,
                "Unknown device preset: "@ + device_key(value@),
                seq!["Use iphone, ipad, android, psp, or car."@, "Run media presets --json to list profiles."@],
            ),
        },
{
    let lower = to_lower(value);
    let v = replace_char_text(lower.as_str(), '_', '-');
    if is_lit(&v, "iphone") {
        Ok(make_profile("iphone", "iPhone", 1080))
    } else if is_lit(&v, "ipad") {
        Ok(make_profile("ipad", "iPad", 1440))
    } else if is_lit(&v, "android") {
        Ok(make_profile("android", "Android", 1080))
    } else if is_lit(&v, "psp") {
        Ok(make_profile("psp", "PSP", 480))
    } else if is_lit(&v, "car") || is_lit(&v, "car-player") {
        Ok(make_profile("car", "车载通用", 720))
    } else {
        let suggestions = vec![
            owned("Use iphone, ipad, android, psp, or car."),
            owned("Run media presets --json to list profiles."),
        ];
        assert(views(suggestions@) =~= seq![
            "Use iphone, ipad, android, psp, or car."@,
            "Run media presets --json to list profiles."@,
        ]);
        Err(
            MediaError::new(
                ErrorCode::InvalidArgument,
                concat("Unknown device preset: ", v.as_str()),
            ).with_suggestions(suggestions),
        )
    }
}

/// All device presets, in listing order.
pub fn device_presets() -> (r: Vec<DeviceProfile>)
    ensures
        r@.len() == 5,
        forall|i: int| 0 <= i < r@.len() ==> profile_shape(#[trigger] r@[i]),
        r@[0].id@ == "iphone"@ && r@[1].id@ == "ipad"@ && r@[2].id@ == "android"@ && r@[3].id@
            == "psp"@ && r@[4].id@ == "car"@,
        r@[0].max_height == 1080 && r@[1].max_height == 1440 && r@[2].max_height == 1080
            && r@[3].max_height == 480 && r@[4].max_height == 720,
        r@[0].label@ == "iPhone"@ && r@[1].label@ == "iPad"@ && r@[2].label@ == "Android"@
            && r@[3].label@ == "PSP"@ && r@[4].label@ == "车载通用"@,
{
    vec![
        make_profile("iphone", "iPhone", 1080),
        make_profile("ipad", "iPad", 1440),
        make_profile("android", "Android", 1080),
        make_profile("psp", "PSP", 480),
        make_profile("car", "车载通用", 720),
    ]
}

/// Scales a conversion plan to the device's largest frame height and records the
/// profile on it.
pub fn apply_device_profile(plan: &mut ConvertPlan, profile: DeviceProfile)
    ensures
        views(final(plan).args@) == views(old(plan).args@) + seq![
            "-vf"@,
            "scale=-2:"@ + decimal(profile.max_height as nat),
        ],
        final(plan).device == Some(profile),
        final(plan).quality_loss@ == "video_and_audio"@,
        views(final(plan).reasons@) == seq!["Applied "@ + profile.label@ + " device profile."@],
        final(plan).strategy == old(plan).strategy,
        final(plan).video_action == old(plan).video_action,
        final(plan).audio_action == old(plan).audio_action,
        final(plan).target_container == old(plan).target_container,
{
    let ghost before = views(plan.args@);
    let mut scale = owned("scale=-2:");
    scale.append(u64_text(profile.max_height as u64).as_str());
    plan.args.push(owned("-vf"));
    plan.args.push(scale);
    assert(views(plan.args@) =~= before + seq![
        "-vf"@,
        "scale=-2:"@ + decimal(profile.max_height as nat),
    ]);
    plan.device = Some(profile);
    plan.quality_loss = owned("video_and_audio");
    let mut reason = owned("Applied ");
    reason.append(profile.label);
    reason.append(" device profile.");
    plan.reasons = vec![reason];
    assert(views(plan.reasons@) =~= seq!["Applied "@ + profile.label@ + " device profile."@]);
}

} // verus!
