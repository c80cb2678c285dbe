//! The legacy configuration's shape, and its conversion to the current one.
//!
//! The legacy file keyed everything by streamer; the current format keeps a
//! template per name. Deciding whether to convert, and mapping one streamer
//! record to a template, is done here; parsing the legacy file and walking
//! its streamer map is the caller's business.

use vstd::prelude::*;
use std::collections::HashMap;
use crate::config::{Subtitle, TemplateConfig, VideoInfo};

verus! {

/// The account block of the legacy configuration.
pub struct LegacyUserAccount {
    pub username: String,
    pub password: String,
}

/// The user block of the legacy configuration.
pub struct LegacyUser {
    pub account: LegacyUserAccount,
}

/// One video record of a legacy streamer entry.
pub struct LegacyVideoInfo {
    pub title: String,
    pub filename: String,
    pub desc: String,
}

/// One streamer entry of the legacy configuration.
pub struct LegacyStreamerConfig {
    pub copyright: u8,
    pub source: String,
    pub tid: u32,
    pub cover: String,
    pub title: String,
    pub desc_format_id: u32,
    pub desc: String,
    pub desc_v2: Option<String>,
    pub dynamic: String,
    pub subtitle: Subtitle,
    pub tag: String,
    pub videos: Vec<LegacyVideoInfo>,
    pub dtime: Option<u32>,
    pub open_subtitle: bool,
    pub interactive: u8,
    pub mission_id: Option<u32>,
    pub dolby: u8,
    pub lossless_music: u8,
    pub no_reprint: u8,
    pub open_elec: u8,
    pub aid: Option<u64>,
    pub up_selection_reply: bool,
    pub up_close_reply: bool,
    pub up_close_danmu: bool,
    pub atomic_int: u32,
    pub changed: Option<bool>,
}

/// The whole legacy configuration file.
pub struct LegacyConfig {
    pub user: LegacyUser,
    pub line: Option<String>,
    pub limit: u32,
    pub streamers: HashMap<String, LegacyStreamerConfig>,
}

/// Conversion from the legacy configuration.
pub struct CompatibilityConverter;

impl CompatibilityConverter {
    /// Whether the legacy file should be converted: only when the current
    /// configuration file does not exist but the legacy one does.
    pub fn should_convert_old_config(json_exists: bool, yaml_exists: bool) -> (r: bool)
        ensures
            r == (!json_exists && yaml_exists),
    {
        !json_exists && yaml_exists
    }

    /// Maps one legacy streamer entry to a template. Every carried-over
    /// field keeps its value; booleans become the flags the current format
    /// uses; a video's identifier is its file name, as the legacy format
    /// had no separate identifier; fields the legacy format lacked are
    /// empty, zero or absent.
    pub fn convert_streamer(s: LegacyStreamerConfig) -> (r: TemplateConfig)
        ensures
            r.copyright == s.copyright,
            r.source == s.source,
            r.tid == s.tid,
            r.cover == s.cover,
            r.title == s.title,
            r.desc == s.desc,
            r.desc_v2 == s.desc_v2,
            r.dynamic == s.dynamic,
            r.subtitle == s.subtitle,
            r.tag == s.tag,
            r.videos@.len() == s.videos@.len(),
            forall|i: int|
                0 <= i < s.videos@.len() ==> {
                    let v = #[trigger] r.videos@[i];
                    &&& v.title == s.videos@[i].title
                    &&& v.id == s.videos@[i].filename
                    &&& v.filename == s.videos@[i].filename
                    &&& v.desc == s.videos@[i].desc
                    &&& v.path@ == Seq::<char>::empty()
                    &&& v.finished_at == 0
                },
            r.dtime == s.dtime,
            r.open_subtitle == s.open_subtitle,
            r.interactive == s.interactive,
            r.mission_id == s.mission_id,
            r.topic_id is None,
            r.season_id is None,
            r.section_id is None,
            r.is_only_self == 0,
            r.dolby == s.dolby,
            r.lossless_music == s.lossless_music,
            r.no_reprint == s.no_reprint,
            r.open_elec == s.open_elec,
            r.aid == s.aid,
            r.up_selection_reply == (if s.up_selection_reply { 1u8 } else { 0u8 }),
            r.up_close_reply == (if s.up_close_reply { 1u8 } else { 0u8 }),
            r.up_close_danmu == (if s.up_close_danmu { 1u8 } else { 0u8 }),
            r.atomic_int == s.atomic_int,
            r.watermark == 0,
    {
        let mut vids: Vec<VideoInfo> = Vec::new();
        let n = s.videos.len();
        let mut i: usize = 0;
        while i < n
            invariant
                n == s.videos@.len(),
                i <= n,
                vids@.len() == i,
                forall|j: int|
                    0 <= j < i ==> {
                        let v = #[trigger] vids@[j];
                        &&& v.title == s.videos@[j].title
                        &&& v.id == s.videos@[j].filename
                        &&& v.filename == s.videos@[j].filename
                        &&& v.desc == s.videos@[j].desc
                        &&& v.path@ == Seq::<char>::empty()
                        &&& v.finished_at == 0
                    },
            decreases n - i,
        {
            let v = &s.videos[i];
            vids.push(
                VideoInfo {
                    title: v.title.clone(),
                    id: v.filename.clone(),
                    filename: v.filename.clone(),
                    desc: v.desc.clone(),
                    path: String::new(),
                    finished_at: 0,
                },
            );
            i += 1;
        }
        TemplateConfig {
            copyright: s.copyright,
            source: s.source,
            tid: s.tid,
            cover: s.cover,
            title: s.title,
            desc: s.desc,
            desc_v2: s.desc_v2,
            dynamic: s.dynamic,
            subtitle: s.subtitle,
            tag: s.tag,
            videos: vids,
            dtime: s.dtime,
            open_subtitle: s.open_subtitle,
            interactive: s.interactive,
            mission_id: s.mission_id,
            topic_id: None,
            season_id: None,
            section_id: None,
            is_only_self: 0,
            dolby: s.dolby,
            lossless_music: s.lossless_music,
            no_reprint: s.no_reprint,
            open_elec: s.open_elec,
            aid: s.aid,
            up_selection_reply: if s.up_selection_reply { 1 } else { 0 },
            up_close_reply: if s.up_close_reply { 1 } else { 0 },
            up_close_danmu: if s.up_close_danmu { 1 } else { 0 },
            atomic_int: s.atomic_int,
            watermark: 0,
        }
    }
}

} // verus!
