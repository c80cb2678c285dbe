//! Per-user configuration model: video descriptors and upload templates.
//!
//! Only the in-memory shape lives here; reading and writing the backing
//! configuration file is the caller's business.

use vstd::prelude::*;

verus! {

/// Subtitle switch of a template: whether subtitles are open, and the language.
pub struct Subtitle {
    pub open: u8,
    pub lan: String,
}

impl Subtitle {
    pub fn new(open: u8, lan: String) -> (r: Subtitle)
        ensures
            r.open == open,
            r.lan == lan,
    {
        Subtitle { open, lan }
    }
}

impl Clone for Subtitle {
    fn clone(&self) -> (r: Self)
        ensures
            r == *self,
    {
        Subtitle { open: self.open, lan: self.lan.clone() }
    }
}

impl Default for Subtitle {
    fn default() -> (r: Subtitle)
        ensures
            r.open == 0,
            r.lan@ == Seq::<char>::empty(),
    {
        Subtitle { open: 0, lan: String::new() }
    }
}

/// Descriptor of one source video: its stable identifier, display title,
/// server-side file name, description, local path, and completion stamp.
pub struct VideoInfo {
    pub id: String,
    pub title: String,
    pub filename: String,
    pub desc: String,
    pub path: String,
    pub finished_at: u64,
}

impl Clone for VideoInfo {
    fn clone(&self) -> (r: Self)
        ensures
            r == *self,
    {
        VideoInfo {
            id: self.id.clone(),
            title: self.title.clone(),
            filename: self.filename.clone(),
            desc: self.desc.clone(),
            path: self.path.clone(),
            finished_at: self.finished_at,
        }
    }
}

/// One saved submission template of a user.
pub struct TemplateConfig {
    pub copyright: u8,
    pub source: String,
    pub tid: u32,
    pub cover: String,
    pub title: String,
    pub desc: String,
    pub desc_v2: Option<String>,
    pub dynamic: String,
    pub subtitle: Subtitle,
    pub tag: String,
    pub videos: Vec<VideoInfo>,
    pub dtime: Option<u32>,
    pub open_subtitle: bool,
    pub interactive: u8,
    pub mission_id: Option<u32>,
    pub topic_id: Option<u32>,
    pub season_id: Option<u64>,
    pub section_id: Option<u64>,
    pub dolby: u8,
    pub lossless_music: u8,
    pub no_reprint: u8,
    pub open_elec: u8,
    pub aid: Option<u64>,
    pub up_selection_reply: u8,
    pub up_close_reply: u8,
    pub up_close_danmu: u8,
    pub atomic_int: u32,
    pub is_only_self: u8,
    pub watermark: u8,
}

impl Default for TemplateConfig {
    /// A fresh template: self-made copyright, everything else empty or off.
    fn default() -> (r: TemplateConfig)
        ensures
            r.copyright == 1,
            r.source@ == Seq::<char>::empty(),
            r.tid == 0,
            r.cover@ == Seq::<char>::empty(),
            r.title@ == Seq::<char>::empty(),
            r.desc@ == Seq::<char>::empty(),
            r.desc_v2 is None,
            r.dynamic@ == Seq::<char>::empty(),
            r.subtitle.open == 0,
            r.subtitle.lan@ == Seq::<char>::empty(),
            r.tag@ == Seq::<char>::empty(),
            r.videos@ == Seq::<VideoInfo>::empty(),
            r.dtime is None,
            !r.open_subtitle,
            r.interactive == 0,
            r.mission_id is None,
            r.topic_id is None,
            r.season_id is None,
            r.section_id is None,
            r.dolby == 0,
            r.lossless_music == 0,
            r.no_reprint == 0,
            r.open_elec == 0,
            r.aid is None,
            r.up_selection_reply == 0,
            r.up_close_reply == 0,
            r.up_close_danmu == 0,
            r.atomic_int == 0,
            r.is_only_self == 0,
            r.watermark == 0,
    {
        TemplateConfig {
            copyright: 1,
            source: String::new(),
            tid: 0,
            cover: String::new(),
            title: String::new(),
            desc: String::new(),
            desc_v2: None,
            dynamic: String::new(),
            subtitle: Subtitle { open: 0, lan: String::new() },
            tag: String::new(),
            videos: Vec::new(),
            dtime: None,
            open_subtitle: false,
            interactive: 0,
            mission_id: None,
            topic_id: None,
            season_id: None,
            section_id: None,
            dolby: 0,
            lossless_music: 0,
            no_reprint: 0,
            open_elec: 0,
            aid: None,
            up_selection_reply: 0,
            up_close_reply: 0,
            up_close_danmu: 0,
            atomic_int: 0,
            is_only_self: 0,
            watermark: 0,
        }
    }
}

} // verus!
