use seamui::cards::card_rows;
use seamui::config::{AppConfig, PlayState, SavedState};
use seamui::lookup::{Format, LiveNode, StreamUrl};
use seamui::models::{AnchorInfo, Node, SeamInfo, ShowType};
use seamui::platform::Platform;

fn text(v: &serde_json::Value, key: &str) -> String {
    v.get(key).and_then(|x| x.as_str()).unwrap_or_default().to_string()
}

#[test]
fn test_encode_decode() {
    let parsed: serde_json::Value = serde_json::from_str(
        r#"
        {
            "title": "ttttt",
            "nodes": [
              {
                "format": "flv",
                "url": "ddddddd"
              }
            ]
        }"#,
    )
    .unwrap();
    let nodes = parsed.get("nodes").and_then(|n| n.as_array()).map(|list| {
        list.iter().map(|n| Node { format: text(n, "format"), url: text(n, "url") }).collect()
    });
    let info = SeamInfo { title: text(&parsed, "title"), nodes };
    println!("{:?}", info);
    assert_eq!(
        info,
        SeamInfo {
            title: "ttttt".to_string(),
            nodes: Some(vec![Node { format: "flv".to_string(), url: "ddddddd".to_string() }]),
        }
    );
    let copy = info.clone();
    assert_eq!(copy, info);
}

fn node(urls: Vec<StreamUrl>) -> LiveNode {
    LiveNode {
        rid: "123".to_string(),
        title: "T".to_string(),
        cover: "http://x/cover.jpg".to_string(),
        anchor: "name".to_string(),
        head: "http://x/head.png".to_string(),
        urls,
    }
}

#[test]
fn answer_with_streams_is_live() {
    let answer = node(vec![
        StreamUrl { format: Format::Flv, url: "http://x/a.flv".to_string() },
        StreamUrl { format: Format::M3U, url: "http://x/a.m3u8".to_string() },
        StreamUrl { format: Format::Rtmp, url: "rtmp://x/a".to_string() },
        StreamUrl { format: Format::Other("dash".to_string()), url: "http://x/a.mpd".to_string() },
    ]);
    let info = AnchorInfo::from_node(Platform::HuYa, "123", &answer);
    assert!(info.is_live());
    assert_eq!(info.platform, Platform::HuYa);
    assert_eq!(info.rid, "123");
    assert_eq!(info.title, "T");
    assert_eq!(info.cover, "http://x/cover.jpg");
    assert_eq!(info.anchor, "name");
    assert_eq!(info.head, "http://x/head.png");
    assert_eq!(info.cover_path, None);
    assert_eq!(info.head_path, None);
    let formats: Vec<String> = answer.nodes().into_iter().map(|n| n.format).collect();
    assert_eq!(formats, vec!["flv", "m3u", "rtmp", "dash"]);
    match info.show_type {
        Some(ShowType::On(seam)) => {
            assert_eq!(seam.title, "T");
            let nodes = seam.nodes.unwrap();
            assert_eq!(nodes.len(), 4);
            assert_eq!(nodes[0], Node { format: "flv".to_string(), url: "http://x/a.flv".to_string() });
            assert_eq!(nodes[3].url, "http://x/a.mpd");
        }
        other => panic!("expected a live status, got {:?}", other),
    }
}

#[test]
fn record_is_that_of_the_room_asked_for() {
    let answer = node(vec![StreamUrl { format: Format::Flv, url: "u".to_string() }]);
    assert_eq!(answer.rid, "123");
    let info = AnchorInfo::from_node(Platform::HuYa, "alias-of-123", &answer);
    assert_eq!(info.rid, "alias-of-123");
    assert_eq!(info.platform, Platform::HuYa);
    assert_eq!(info.title, "T");
    let off = AnchorInfo::from_node(Platform::HuYa, "other", &node(Vec::new()));
    assert_eq!(off.rid, "other");
}

#[test]
fn answer_without_streams_is_not_live() {
    let info = AnchorInfo::from_node(Platform::DouYu, "123", &node(Vec::new()));
    assert!(!info.is_live());
    assert_eq!(info.show_type, Some(ShowType::Off));
}

#[test]
fn format_names() {
    assert_eq!(Format::Flv.name(), "flv");
    assert_eq!(Format::M3U.name(), "m3u");
    assert_eq!(Format::Rtmp.name(), "rtmp");
    assert_eq!(Format::Other("x-y".to_string()).name(), "x-y");
}

#[test]
fn urls_keep_the_order_of_the_answer() {
    let info = AnchorInfo::from_node(
        Platform::HuYa,
        "123",
        &node(vec![
            StreamUrl { format: Format::Flv, url: "u1".to_string() },
            StreamUrl { format: Format::Flv, url: "u0".to_string() },
            StreamUrl { format: Format::M3U, url: "u2".to_string() },
        ]),
    );
    assert_eq!(info.show_type.unwrap().get_urls_as_model(), vec!["u1", "u0", "u2"]);
    assert!(ShowType::Off.get_urls_as_model().is_empty());
    assert!(ShowType::Error("e".to_string()).get_urls_as_model().is_empty());
    let no_nodes = ShowType::On(SeamInfo { title: "t".to_string(), nodes: None });
    assert!(no_nodes.get_urls_as_model().is_empty());
}

fn cached(rid: &str) -> AnchorInfo {
    let mut info = AnchorInfo::from_node(
        Platform::HuYa,
        rid,
        &node(vec![StreamUrl { format: Format::Flv, url: format!("http://x/{}.flv", rid) }]),
    );
    info.rid = rid.to_string();
    info.cover_path = Some(format!("/cache/{}-cover.png", rid));
    info.head_path = Some(format!("/cache/{}-head.png", rid));
    info
}

#[test]
fn card_needs_both_images() {
    let full = cached("1");
    let card = full.to_card_info().unwrap();
    assert_eq!(card.anchor, "name");
    assert_eq!(card.title, "T");
    assert_eq!(card.avatar, "/cache/1-head.png");
    assert_eq!(card.cover, "/cache/1-cover.png");
    assert_eq!(card.urls, vec!["http://x/1.flv"]);
    let mut no_cover = cached("1");
    no_cover.cover_path = None;
    assert_eq!(no_cover.to_card_info(), None);
    let mut no_head = cached("1");
    no_head.head_path = None;
    assert_eq!(no_head.to_card_info(), None);
    let mut no_status = cached("1");
    no_status.show_type = None;
    assert!(no_status.to_card_info().unwrap().urls.is_empty());
}

#[test]
fn cards_come_three_to_a_row() {
    assert!(card_rows(&Vec::new()).is_empty());
    for n in 1..=10usize {
        let living: Vec<AnchorInfo> = (0..n).map(|i| cached(&i.to_string())).collect();
        let rows = card_rows(&living);
        assert_eq!(rows.len(), (n + 2) / 3);
        let flat: Vec<String> = rows.iter().flatten().map(|c| c.cover.clone()).collect();
        let expected: Vec<String> = (0..n).map(|i| format!("/cache/{}-cover.png", i)).collect();
        assert_eq!(flat, expected);
        for (r, row) in rows.iter().enumerate() {
            if r + 1 < rows.len() {
                assert_eq!(row.len(), 3);
            } else {
                assert_eq!(row.len(), n - 3 * r);
            }
        }
    }
}

#[test]
fn anchors_without_images_get_no_card() {
    let mut second = cached("2");
    second.head_path = None;
    let rows = card_rows(&vec![cached("1"), second, cached("3"), cached("4"), cached("5")]);
    assert_eq!(rows.len(), 2);
    let first: Vec<&str> = rows[0].iter().map(|c| c.cover.as_str()).collect();
    assert_eq!(first, vec!["/cache/1-cover.png", "/cache/3-cover.png", "/cache/4-cover.png"]);
    assert_eq!(rows[1].len(), 1);
    assert_eq!(rows[1][0].cover, "/cache/5-cover.png");
}

#[test]
fn bare_record() {
    let info = AnchorInfo::bare(Platform::CC, "42");
    assert_eq!(info.rid, "42");
    assert_eq!(info.platform, Platform::CC);
    assert_eq!(info.show_type, Some(ShowType::Off));
    assert_eq!(info.title, "");
    assert_eq!(info.cover_path, None);
    assert!(!info.is_live());
}

#[test]
fn default_config_plays_with_mpv() {
    assert_eq!(AppConfig::default().player_path, "mpv");
    assert!(AppConfig::default() == AppConfig::default());
    assert!(AppConfig::default() != AppConfig { player_path: "vlc".to_string() });
    assert_eq!(AppConfig { player_path: "vlc".to_string() }.clone().player_path, "vlc");
}

#[test]
fn unreadable_configuration_counts_as_empty() {
    let fresh = SavedState::load(None);
    assert!(fresh.anchors.is_empty());
    assert_eq!(fresh.config.player_path, "mpv");
    let kept = SavedState::load(Some(SavedState {
        anchors: vec![AnchorInfo::bare(Platform::Now, "1")],
        config: AppConfig { player_path: "vlc".to_string() },
    }));
    assert_eq!(kept.anchors, vec![AnchorInfo::bare(Platform::Now, "1")]);
    assert_eq!(kept.config.player_path, "vlc");
}

#[test]
fn player_gets_the_address_as_its_only_argument() {
    let cmd = PlayState::play(
        &Node { format: "flv".to_string(), url: "http://x/a.flv".to_string() },
        &AppConfig { player_path: "/usr/bin/vlc".to_string() },
    );
    assert_eq!(cmd.program, "/usr/bin/vlc");
    assert_eq!(cmd.args, vec!["http://x/a.flv"]);
}
