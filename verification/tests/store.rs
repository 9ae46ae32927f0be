use seamui::error::{AssetError, PersistenceError};
use seamui::models::{AnchorInfo, Node, SeamInfo, ShowType};
use seamui::platform::Platform;
use seamui::store::AnchorMgr;

fn live(platform: Platform, rid: &str, title: &str) -> AnchorInfo {
    AnchorInfo {
        rid: rid.to_string(),
        title: title.to_string(),
        cover: format!("http://img/{}/cover.jpg", rid),
        anchor: format!("anchor-{}", rid),
        head: format!("http://img/{}/head.png", rid),
        platform,
        show_type: Some(ShowType::On(SeamInfo {
            title: title.to_string(),
            nodes: Some(vec![Node { format: "flv".to_string(), url: format!("http://x/{}.flv", rid) }]),
        })),
        cover_path: None,
        head_path: None,
    }
}

fn offline(platform: Platform, rid: &str) -> AnchorInfo {
    let mut a = live(platform, rid, "");
    a.show_type = Some(ShowType::Off);
    a
}

fn take_in(mgr: &mut AnchorMgr, a: AnchorInfo) -> Result<Option<AnchorInfo>, AssetError> {
    mgr.add_living(a, Ok("cover.png".to_string()), Ok("head.png".to_string()))
}

#[test]
fn new_store_is_empty() {
    let mgr = AnchorMgr::new();
    assert!(mgr.get_all_living().is_empty());
    assert!(mgr.get_all_config().is_empty());
}

#[test]
fn admitted_live_anchor_is_in_both_lists() {
    let mut mgr = AnchorMgr::new();
    let prev = take_in(&mut mgr, live(Platform::HuYa, "123", "T"));
    assert_eq!(prev, Ok(None));
    let living = mgr.get_all_living();
    let config = mgr.get_all_config();
    assert_eq!(living.len(), 1);
    assert_eq!(config.len(), 1);
    assert_eq!(living[0].rid, "123");
    assert_eq!(living[0].platform, Platform::HuYa);
    assert_eq!(living[0].cover_path, Some("cover.png".to_string()));
    assert_eq!(living[0].head_path, Some("head.png".to_string()));
    assert_eq!(living[0], config[0]);
}

#[test]
fn same_key_admitted_many_times_is_one_entry() {
    let mut mgr = AnchorMgr::new();
    for i in 0..10 {
        let title = format!("t{}", i);
        let prev = take_in(&mut mgr, live(Platform::DouYu, "9", &title)).unwrap();
        if i == 0 {
            assert_eq!(prev, None);
        } else {
            assert_eq!(prev.unwrap().title, format!("t{}", i - 1));
        }
        assert_eq!(mgr.get_all_living().len(), 1);
        assert_eq!(mgr.get_all_config().len(), 1);
    }
    assert_eq!(mgr.get_all_living()[0].title, "t9");
    assert_eq!(mgr.get_all_config()[0].title, "t9");
}

#[test]
fn same_room_on_two_platforms_is_two_anchors() {
    let mut mgr = AnchorMgr::new();
    take_in(&mut mgr, live(Platform::DouYu, "9", "a")).unwrap();
    take_in(&mut mgr, live(Platform::HuYa, "9", "b")).unwrap();
    assert_eq!(mgr.get_all_living().len(), 2);
    assert_eq!(mgr.get_all_config().len(), 2);
}

#[test]
fn replaced_anchor_keeps_its_place() {
    let mut mgr = AnchorMgr::new();
    take_in(&mut mgr, live(Platform::DouYu, "1", "a")).unwrap();
    take_in(&mut mgr, live(Platform::DouYu, "2", "b")).unwrap();
    take_in(&mut mgr, live(Platform::DouYu, "3", "c")).unwrap();
    take_in(&mut mgr, live(Platform::DouYu, "2", "again")).unwrap();
    let rids: Vec<String> = mgr.get_all_living().into_iter().map(|a| a.rid).collect();
    assert_eq!(rids, vec!["1", "2", "3"]);
    assert_eq!(mgr.get_all_living()[1].title, "again");
}

#[test]
fn failed_cover_blocks_admission() {
    let mut mgr = AnchorMgr::new();
    take_in(&mut mgr, live(Platform::DouYu, "1", "old")).unwrap();
    let r = mgr.add_living(
        live(Platform::DouYu, "1", "new"),
        Err(AssetError::Download),
        Ok("head.png".to_string()),
    );
    assert_eq!(r, Err(AssetError::Download));
    assert_eq!(mgr.get_all_living()[0].title, "old");
    assert_eq!(mgr.get_all_config()[0].title, "old");
    let r = mgr.add_living(
        live(Platform::DouYu, "2", "new"),
        Err(AssetError::BadUrl),
        Err(AssetError::Decode),
    );
    assert_eq!(r, Err(AssetError::BadUrl));
    assert_eq!(mgr.get_all_config().len(), 1);
}

#[test]
fn failed_avatar_blocks_admission() {
    let mut mgr = AnchorMgr::new();
    let r = mgr.add_living(
        live(Platform::DouYu, "1", "new"),
        Ok("cover.png".to_string()),
        Err(AssetError::Decode),
    );
    assert_eq!(r, Err(AssetError::Decode));
    assert!(mgr.get_all_living().is_empty());
    assert!(mgr.get_all_config().is_empty());
}

#[test]
fn anchor_that_is_not_live_leaves_the_live_list() {
    let mut mgr = AnchorMgr::new();
    take_in(&mut mgr, live(Platform::DouYu, "1", "a")).unwrap();
    take_in(&mut mgr, live(Platform::DouYu, "2", "b")).unwrap();
    let prev = take_in(&mut mgr, offline(Platform::DouYu, "1")).unwrap();
    assert_eq!(prev.unwrap().title, "a");
    let living = mgr.get_all_living();
    assert_eq!(living.len(), 1);
    assert_eq!(living[0].rid, "2");
    let config = mgr.get_all_config();
    assert_eq!(config.len(), 2);
    assert_eq!(config[0].show_type, Some(ShowType::Off));
}

#[test]
fn live_list_never_holds_an_offline_anchor() {
    let mut mgr = AnchorMgr::new();
    take_in(&mut mgr, offline(Platform::DouYu, "1")).unwrap();
    let mut failed = live(Platform::DouYu, "2", "x");
    failed.show_type = Some(ShowType::Error("boom".to_string()));
    take_in(&mut mgr, failed).unwrap();
    let mut unknown = live(Platform::DouYu, "3", "x");
    unknown.show_type = None;
    take_in(&mut mgr, unknown).unwrap();
    assert!(mgr.get_all_living().is_empty());
    assert_eq!(mgr.get_all_config().len(), 3);
}

#[test]
fn admission_hands_back_what_the_live_list_held() {
    let mut mgr = AnchorMgr::new();
    mgr.add_config(offline(Platform::DouYu, "1"));
    assert_eq!(take_in(&mut mgr, live(Platform::DouYu, "1", "first")), Ok(None));
    let prev = take_in(&mut mgr, live(Platform::DouYu, "1", "second")).unwrap().unwrap();
    assert_eq!(prev.title, "first");
    assert_eq!(prev.cover_path, Some("cover.png".to_string()));
    let prev = take_in(&mut mgr, offline(Platform::DouYu, "1")).unwrap().unwrap();
    assert_eq!(prev.title, "second");
    assert_eq!(take_in(&mut mgr, offline(Platform::DouYu, "1")), Ok(None));
    assert_eq!(take_in(&mut mgr, live(Platform::DouYu, "1", "third")), Ok(None));
    assert_eq!(mgr.get_all_config().len(), 1);
}

#[test]
fn add_config_leaves_the_live_list_alone() {
    let mut mgr = AnchorMgr::new();
    mgr.add_config(live(Platform::CC, "5", "t"));
    assert!(mgr.get_all_living().is_empty());
    assert_eq!(mgr.get_all_config().len(), 1);
    mgr.add_config(live(Platform::CC, "5", "u"));
    assert_eq!(mgr.get_all_config().len(), 1);
    assert_eq!(mgr.get_all_config()[0].title, "u");
}

#[test]
fn set_offline_marks_a_configured_anchor() {
    let mut mgr = AnchorMgr::new();
    take_in(&mut mgr, live(Platform::DouYu, "1", "a")).unwrap();
    mgr.set_offline(Platform::DouYu, "1");
    assert!(mgr.get_all_living().is_empty());
    let config = mgr.get_all_config();
    assert_eq!(config.len(), 1);
    assert_eq!(config[0].show_type, Some(ShowType::Off));
    assert_eq!(config[0].title, "a");
    assert_eq!(config[0].cover_path, Some("cover.png".to_string()));
}

#[test]
fn set_offline_adds_an_unknown_room() {
    let mut mgr = AnchorMgr::new();
    mgr.set_offline(Platform::Now, "77");
    assert!(mgr.get_all_living().is_empty());
    assert_eq!(mgr.get_all_config(), vec![AnchorInfo::bare(Platform::Now, "77")]);
    assert_eq!(mgr.get_all_config()[0].show_type, Some(ShowType::Off));
}

#[test]
fn remove_takes_the_key_from_both_lists() {
    let mut mgr = AnchorMgr::new();
    take_in(&mut mgr, live(Platform::DouYu, "1", "a")).unwrap();
    take_in(&mut mgr, live(Platform::DouYu, "2", "b")).unwrap();
    mgr.remove(&live(Platform::DouYu, "1", "whatever"));
    let living = mgr.get_all_living();
    let config = mgr.get_all_config();
    assert_eq!(living.len(), 1);
    assert_eq!(config.len(), 1);
    assert_eq!(living[0].rid, "2");
    assert_eq!(config[0].rid, "2");
}

#[test]
fn remove_twice_is_remove_once() {
    let mut once = AnchorMgr::new();
    let mut twice = AnchorMgr::new();
    for mgr in [&mut once, &mut twice] {
        take_in(mgr, live(Platform::DouYu, "1", "a")).unwrap();
        take_in(mgr, live(Platform::HuYa, "1", "b")).unwrap();
        mgr.add_config(offline(Platform::CC, "3"));
    }
    let gone = live(Platform::DouYu, "1", "a");
    once.remove(&gone);
    twice.remove(&gone);
    twice.remove(&gone);
    assert_eq!(once.get_all_living(), twice.get_all_living());
    assert_eq!(once.get_all_config(), twice.get_all_config());
    assert_eq!(twice.get_all_config().len(), 2);
}

#[test]
fn remove_of_an_absent_key_changes_nothing() {
    let mut mgr = AnchorMgr::new();
    take_in(&mut mgr, live(Platform::DouYu, "1", "a")).unwrap();
    mgr.remove(&live(Platform::HuYa, "1", "a"));
    mgr.remove(&live(Platform::DouYu, "2", "a"));
    assert_eq!(mgr.get_all_living().len(), 1);
    assert_eq!(mgr.get_all_config().len(), 1);
}

#[test]
fn load_config_merges_by_key() {
    let mut mgr = AnchorMgr::new();
    let r = mgr.load_config(Ok(vec![
        offline(Platform::DouYu, "1"),
        offline(Platform::DouYu, "2"),
        live(Platform::DouYu, "1", "later"),
    ]));
    assert_eq!(r, Ok(()));
    assert!(mgr.get_all_living().is_empty());
    let config = mgr.get_all_config();
    assert_eq!(config.len(), 2);
    assert_eq!(config[0].rid, "1");
    assert_eq!(config[0].title, "later");
    assert_eq!(config[1].rid, "2");
}

#[test]
fn failed_read_changes_nothing() {
    let mut mgr = AnchorMgr::new();
    mgr.add_config(offline(Platform::DouYu, "1"));
    assert_eq!(mgr.load_config(Err(PersistenceError::Unreadable)), Err(PersistenceError::Unreadable));
    assert_eq!(mgr.load_config(Err(PersistenceError::Corrupt)), Err(PersistenceError::Corrupt));
    assert_eq!(mgr.get_all_config().len(), 1);
    assert!(mgr.get_all_living().is_empty());
}

#[test]
fn key_is_platform_and_room() {
    let a = live(Platform::Afreeca, "abc", "t");
    assert_eq!(AnchorMgr::key(&a), (Platform::Afreeca, "abc".to_string()));
}
