//! The submission form as the GUI sends it, and its mapping to the shape
//! the remote submission endpoint expects.
//!
//! Video entries arrive as raw JSON values and pass through untouched; the
//! caller serializes the mapped form for the wire.

use vstd::prelude::*;
use serde_json::Value;

verus! {

#[verifier::external_type_specification]
#[verifier::external_body]
pub struct ExValue(Value);

/// The result of replacing, left to right and without overlap, every
/// occurrence of a non-empty pattern.
pub open spec fn replace_seq(s: Seq<char>, pat: Seq<char>, rep: Seq<char>) -> Seq<char>
    decreases s.len(),
{
    if pat.len() == 0 || s.len() < pat.len() {
        s
    } else if s.take(pat.len() as int) == pat {
        rep + replace_seq(s.skip(pat.len() as int), pat, rep)
    } else {
        seq![s[0]] + replace_seq(s.skip(1), pat, rep)
    }
}

/// Relies on `str::replace`: every occurrence of the pattern, found left to
/// right without overlap, is replaced.
#[verifier::external_body]
fn replace_all(s: &str, pat: &str, rep: &str) -> (r: String)
    requires
        pat@.len() > 0,
    ensures
        r@ == replace_seq(s@, pat@, rep@),
{
    s.replace(pat, rep)
}

/// Topic reference attached to a submission.
pub struct TopicDetail {
    pub from_topic_id: Option<u32>,
    pub from_source: Option<String>,
}

/// Watermark switch attached to a submission.
pub struct Watermark {
    pub state: u8,
}

/// Subtitle switch attached to a submission.
pub struct Subtitle {
    pub open: u8,
    pub lan: String,
}

/// The fields the submission endpoint takes outside its fixed form.
pub struct ExtraFields {
    pub topic_id: Option<u32>,
    pub topic_detail: Option<TopicDetail>,
    pub is_only_self: u8,
    pub is_360: i8,
    pub watermark: Watermark,
}

/// The form as the GUI fills it in.
pub struct UploadForm {
    pub title: String,
    pub cover: String,
    pub copyright: u8,
    pub source: String,
    pub aid: Option<u64>,
    pub tid: u32,
    pub tag: String,
    pub desc: String,
    pub dynamic: String,
    pub videos: Vec<Value>,
    pub dtime: Option<u32>,
    pub open_subtitle: bool,
    pub interactive: u8,
    pub mission_id: Option<u32>,
    pub topic_id: Option<u32>,
    pub season_id: Option<u32>,
    pub section_id: Option<u32>,
    pub dolby: u8,
    pub lossless_music: u8,
    pub no_reprint: u8,
    pub open_elec: u8,
    pub up_selection_reply: u8,
    pub up_close_reply: u8,
    pub up_close_danmu: u8,
    pub is_only_self: u8,
}

/// The form as the submission endpoint expects it.
pub struct BilibiliForm {
    pub copyright: u8,
    pub source: String,
    pub tid: u16,
    pub cover: String,
    pub title: String,
    pub desc_format_id: u32,
    pub desc: String,
    pub desc_v2: Option<String>,
    pub dynamic: String,
    pub subtitle: Subtitle,
    pub tag: String,
    pub videos: Vec<Value>,
    pub dtime: Option<u32>,
    pub open_subtitle: bool,
    pub interactive: u8,
    pub mission_id: Option<u32>,
    pub dolby: u8,
    pub lossless_music: u8,
    pub no_reprint: u8,
    pub open_elec: u8,
    pub aid: Option<u64>,
    pub up_selection_reply: bool,
    pub up_close_reply: bool,
    pub up_close_danmu: bool,
    pub extra_fields: Option<ExtraFields>,
}

impl UploadForm {
    /// Maps the filled-in form to the endpoint's shape. Plain fields carry
    /// over; the scheme prefix is stripped from the cover address; the flag
    /// numbers become the booleans the endpoint takes; the topic, when one
    /// was picked, rides along in the extra fields, beside the defaults the
    /// endpoint wants spelled out.
    pub fn into_bilibili_form(self) -> (r: BilibiliForm)
        ensures
            r.copyright == self.copyright,
            r.source == self.source,
            r.tid == self.tid as u16,
            r.cover@ == replace_seq(self.cover@, "https:"@, Seq::<char>::empty()),
            r.title == self.title,
            r.desc_format_id == 0,
            r.desc == self.desc,
            r.desc_v2 is None,
            r.dynamic == self.dynamic,
            r.subtitle.open == (if self.open_subtitle { 1u8 } else { 0u8 }),
            r.subtitle.lan@ == Seq::<char>::empty(),
            r.tag == self.tag,
            r.videos == self.videos,
            r.dtime == self.dtime,
            r.open_subtitle == self.open_subtitle,
            r.interactive == self.interactive,
            r.mission_id == self.mission_id,
            r.dolby == self.dolby,
            r.lossless_music == self.lossless_music,
            r.no_reprint == self.no_reprint,
            r.open_elec == self.open_elec,
            r.aid == self.aid,
            r.up_selection_reply == (self.up_selection_reply > 0),
            r.up_close_reply == (self.up_close_reply > 0),
            r.up_close_danmu == (self.up_close_danmu > 0),
            r.extra_fields matches Some(x) && {
                &&& x.topic_id == self.topic_id
                &&& (self.topic_id matches Some(id) ==> x.topic_detail matches Some(d)
                    && d.from_topic_id == Some(id) && d.from_source is None)
                &&& (self.topic_id is None ==> x.topic_detail is None)
                &&& x.is_only_self == self.is_only_self
                &&& x.is_360 == -1
                &&& x.watermark.state == 1
            },
    {
        proof {
            reveal_strlit("https:");
            reveal_strlit("");
            assert(""@ =~= Seq::<char>::empty());
        }
        let tid_short: u16 = #[verifier::truncate] (self.tid as u16);
        let topic_detail = match self.topic_id {
            Some(id) => Some(TopicDetail { from_topic_id: Some(id), from_source: None }),
            None => None,
        };
        let extra_fields = Some(
            ExtraFields {
                topic_id: self.topic_id,
                topic_detail,
                is_only_self: self.is_only_self,
                is_360: -1,
                watermark: Watermark { state: 1 },
            },
        );
        BilibiliForm {
            copyright: self.copyright,
            source: self.source,
            tid: tid_short,
            cover: replace_all(self.cover.as_str(), "https:", ""),
            title: self.title,
            desc_format_id: 0,
            desc: self.desc,
            desc_v2: None,
            dynamic: self.dynamic,
            subtitle: Subtitle {
                open: if self.open_subtitle { 1 } else { 0 },
                lan: String::new(),
            },
            tag: self.tag,
            videos: self.videos,
            dtime: self.dtime,
            open_subtitle: self.open_subtitle,
            interactive: self.interactive,
            mission_id: self.mission_id,
            dolby: self.dolby,
            lossless_music: self.lossless_music,
            no_reprint: self.no_reprint,
            open_elec: self.open_elec,
            aid: self.aid,
            up_selection_reply: self.up_selection_reply > 0,
            up_close_reply: self.up_close_reply > 0,
            up_close_danmu: self.up_close_danmu > 0,
            extra_fields,
        }
    }
}

} // verus!
