use biliup_app::compat::{
    CompatibilityConverter, LegacyStreamerConfig, LegacyVideoInfo,
};
use biliup_app::config::Subtitle;
use biliup_app::files::{
    get_config_json_path, get_config_yaml_path, is_hidden_or_system_name, str_contains,
    FileEntry,
};
use biliup_app::form::UploadForm;
use biliup_app::responses::{LoginResponse, TemplateCommandResponse};
use serde_json::Value;

fn form() -> UploadForm {
    UploadForm {
        title: "A title".to_string(),
        cover: "https://i0.example.com/cover.jpg".to_string(),
        copyright: 2,
        source: "https://example.com/src".to_string(),
        aid: Some(77),
        tid: 17,
        tag: "a,b".to_string(),
        desc: "words".to_string(),
        dynamic: "dyn".to_string(),
        videos: vec![Value::String("part1.mp4".to_string())],
        dtime: Some(99),
        open_subtitle: true,
        interactive: 0,
        mission_id: None,
        topic_id: Some(5),
        season_id: None,
        section_id: None,
        dolby: 1,
        lossless_music: 0,
        no_reprint: 1,
        open_elec: 0,
        up_selection_reply: 1,
        up_close_reply: 0,
        up_close_danmu: 2,
        is_only_self: 1,
    }
}

#[test]
fn form_mapping_keeps_fields_and_strips_cover_scheme() {
    let b = form().into_bilibili_form();
    assert_eq!(b.copyright, 2);
    assert_eq!(b.source, "https://example.com/src");
    assert_eq!(b.tid, 17);
    assert_eq!(b.cover, "//i0.example.com/cover.jpg");
    assert_eq!(b.title, "A title");
    assert_eq!(b.desc_format_id, 0);
    assert_eq!(b.desc, "words");
    assert!(b.desc_v2.is_none());
    assert_eq!(b.subtitle.open, 1);
    assert_eq!(b.subtitle.lan, "");
    assert_eq!(b.tag, "a,b");
    assert_eq!(b.videos, vec![Value::String("part1.mp4".to_string())]);
    assert_eq!(b.dtime, Some(99));
    assert_eq!(b.aid, Some(77));
    assert!(b.up_selection_reply);
    assert!(!b.up_close_reply);
    assert!(b.up_close_danmu);
    let x = b.extra_fields.unwrap();
    assert_eq!(x.topic_id, Some(5));
    let d = x.topic_detail.unwrap();
    assert_eq!(d.from_topic_id, Some(5));
    assert!(d.from_source.is_none());
    assert_eq!(x.is_only_self, 1);
    assert_eq!(x.is_360, -1);
    assert_eq!(x.watermark.state, 1);
}

#[test]
fn form_mapping_without_topic_has_no_topic_detail() {
    let mut f = form();
    f.topic_id = None;
    let b = f.into_bilibili_form();
    let x = b.extra_fields.unwrap();
    assert!(x.topic_id.is_none());
    assert!(x.topic_detail.is_none());
}

#[test]
fn should_convert_only_when_json_missing_and_yaml_present() {
    assert!(CompatibilityConverter::should_convert_old_config(false, true));
    assert!(!CompatibilityConverter::should_convert_old_config(true, true));
    assert!(!CompatibilityConverter::should_convert_old_config(false, false));
    assert!(!CompatibilityConverter::should_convert_old_config(true, false));
}

#[test]
fn legacy_streamer_maps_to_template() {
    let legacy = LegacyStreamerConfig {
        copyright: 2,
        source: "src".to_string(),
        tid: 21,
        cover: "c.png".to_string(),
        title: "T".to_string(),
        desc_format_id: 3,
        desc: "d".to_string(),
        desc_v2: Some("d2".to_string()),
        dynamic: "dy".to_string(),
        subtitle: Subtitle::new(1, "zh".to_string()),
        tag: "x,y".to_string(),
        videos: vec![LegacyVideoInfo {
            title: "p1".to_string(),
            filename: "f1.mp4".to_string(),
            desc: "pd".to_string(),
        }],
        dtime: Some(4),
        open_subtitle: true,
        interactive: 0,
        mission_id: Some(8),
        dolby: 1,
        lossless_music: 0,
        no_reprint: 1,
        open_elec: 0,
        aid: Some(11),
        up_selection_reply: true,
        up_close_reply: false,
        up_close_danmu: true,
        atomic_int: 6,
        changed: Some(false),
    };
    let t = CompatibilityConverter::convert_streamer(legacy);
    assert_eq!(t.copyright, 2);
    assert_eq!(t.tid, 21);
    assert_eq!(t.title, "T");
    assert_eq!(t.desc_v2.as_deref(), Some("d2"));
    assert_eq!(t.subtitle.open, 1);
    assert_eq!(t.subtitle.lan, "zh");
    assert_eq!(t.videos.len(), 1);
    // The legacy format had no video identifier: the file name stands in.
    assert_eq!(t.videos[0].id, "f1.mp4");
    assert_eq!(t.videos[0].filename, "f1.mp4");
    assert_eq!(t.videos[0].title, "p1");
    assert_eq!(t.videos[0].desc, "pd");
    assert_eq!(t.videos[0].path, "");
    assert_eq!(t.videos[0].finished_at, 0);
    assert!(t.topic_id.is_none());
    assert!(t.season_id.is_none());
    assert!(t.section_id.is_none());
    assert_eq!(t.up_selection_reply, 1);
    assert_eq!(t.up_close_reply, 0);
    assert_eq!(t.up_close_danmu, 1);
    assert_eq!(t.atomic_int, 6);
    assert_eq!(t.watermark, 0);
    assert_eq!(t.is_only_self, 0);
}

#[test]
fn default_template_is_self_made_and_empty() {
    let t = biliup_app::config::TemplateConfig::default();
    assert_eq!(t.copyright, 1);
    assert_eq!(t.title, "");
    assert!(t.videos.is_empty());
    assert!(t.aid.is_none());
    assert_eq!(t.watermark, 0);
}

#[test]
fn config_paths_are_formed_under_the_directory() {
    assert_eq!(
        get_config_json_path("/home/u/.config/biliup"),
        "/home/u/.config/biliup/config.json"
    );
    assert_eq!(
        get_config_yaml_path("/home/u/.config/biliup"),
        "/home/u/.config/biliup/config.yaml"
    );
}

#[test]
fn hidden_and_system_names_are_skipped() {
    assert!(is_hidden_or_system_name(".bashrc"));
    assert!(is_hidden_or_system_name("System Volume Information"));
    // Case-insensitive: only holds if the name really was lowercased.
    assert!(is_hidden_or_system_name("SYSTEM32"));
    assert!(is_hidden_or_system_name("$RECYCLE.BIN"));
    assert!(is_hidden_or_system_name("C_Windows_Backup"));
    assert!(!is_hidden_or_system_name("movie.mp4"));
    assert!(!is_hidden_or_system_name("work"));
    assert!(!is_hidden_or_system_name(""));
}

#[test]
fn substring_search_finds_exact_occurrences() {
    assert!(str_contains("abcdef", "cde"));
    assert!(str_contains("abcdef", ""));
    assert!(str_contains("abcdef", "abcdef"));
    assert!(!str_contains("abcdef", "abcdefg"));
    assert!(!str_contains("abcdef", "ce"));
    assert!(!str_contains("", "a"));
    assert!(str_contains("aaab", "aab"));
}

#[test]
fn file_entry_clones_fully() {
    let e = FileEntry {
        name: "a.mp4".to_string(),
        path: "/v/a.mp4".to_string(),
        is_directory: false,
    };
    let c = e.clone();
    assert_eq!(c.name, e.name);
    assert_eq!(c.path, e.path);
    assert_eq!(c.is_directory, e.is_directory);
}

#[test]
fn responses_carry_their_payloads() {
    let l = LoginResponse::new(true, "ok".to_string());
    assert!(l.success);
    assert_eq!(l.message, "ok");
    let t = TemplateCommandResponse::new(false, "missing".to_string(), None);
    assert!(!t.success);
    assert!(t.template.is_none());
}
