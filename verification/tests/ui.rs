use seamui::config::{AppConfig, SavedState};
use seamui::models::{AnchorInfo, Node, SeamInfo, ShowType};
use seamui::platform::Platform;
use seamui::ui::anchor_input::{AnchorInputMessage, AnchorInputOutput, AnchorInputState};
use seamui::ui::anchor_item::{
    AnchorItem, AnchorItemMessage, AnchorItemOutput, AnchorItemState, AnchorItemUpdateType,
};
use seamui::ui::cfg_panel::{CfgPanelMessage, CfgPanelState};
use seamui::ui::window::{Command, Message, SeamUI};

fn entry(platform: Platform, rid: &str, name: &str) -> AnchorInfo {
    let mut info = AnchorInfo::bare(platform, rid);
    info.anchor = name.to_string();
    info.show_type = None;
    info
}

fn with_streams(n: usize) -> AnchorInfo {
    let mut info = entry(Platform::HuYa, "1", "one");
    info.show_type = Some(ShowType::On(SeamInfo {
        title: "t".to_string(),
        nodes: Some(
            (0..n).map(|i| Node { format: "flv".to_string(), url: format!("u{}", i) }).collect(),
        ),
    }));
    info
}

#[test]
fn input_line_is_filled_when_first_shown() {
    let mut state = AnchorInputState::default();
    assert!(state.pick_list_item.is_empty());
    state.prepare();
    assert_eq!(
        state.pick_list_item,
        vec!["BiliBili", "DouYu", "DouYin", "HuYa", "KuaiShou", "CC", "HuaJiao", "Now", "Afreeca"]
    );
    assert_eq!(state.pick_list_selected, "BiliBili");
    state.update(AnchorInputMessage::Selected("HuYa".to_string()));
    state.pick_list_item.clear();
    state.prepare();
    assert_eq!(state.pick_list_selected, "HuYa");
    assert!(state.pick_list_item.is_empty());
}

#[test]
fn input_line_submits_the_typed_room() {
    let mut state = AnchorInputState::default();
    state.prepare();
    assert_eq!(state.update(AnchorInputMessage::OnSubmit), None);
    assert_eq!(state.update(AnchorInputMessage::Selected("DouYin".to_string())), None);
    assert_eq!(state.update(AnchorInputMessage::OnInput("4567".to_string())), None);
    assert_eq!(state.input, "4567");
    let out = state.update(AnchorInputMessage::OnSubmit);
    let expected = AnchorInfo {
        rid: "4567".to_string(),
        title: String::new(),
        cover: String::new(),
        anchor: "4567".to_string(),
        head: String::new(),
        platform: Platform::DouYin,
        show_type: None,
        cover_path: None,
        head_path: None,
    };
    assert_eq!(out, Some(AnchorInputOutput::Submit(expected)));
    assert_eq!(state.input, "");
    assert_eq!(state.pick_list_selected, "DouYin");
    assert_eq!(state.update(AnchorInputMessage::OnSubmit), None);
    assert_eq!(state.update(AnchorInputMessage::OnFlush), Some(AnchorInputOutput::Flush));
}

#[test]
fn list_entry_plays_the_picked_stream() {
    let info = with_streams(3);
    let mut item = AnchorItem::new();
    let mut state = AnchorItemState::default();
    let play = |item: &mut AnchorItem, state: &mut AnchorItemState, info: &AnchorInfo| {
        item.update(info, state, AnchorItemMessage::OnPlay)
    };
    assert_eq!(
        play(&mut item, &mut state, &info),
        Some(AnchorItemOutput::Play(Node { format: "flv".to_string(), url: "u0".to_string() }))
    );
    state.live_line = 2;
    assert_eq!(
        play(&mut item, &mut state, &info),
        Some(AnchorItemOutput::Play(Node { format: "flv".to_string(), url: "u2".to_string() }))
    );
    state.live_line = 3;
    assert_eq!(play(&mut item, &mut state, &info), None);
    state.live_line = 0;
    assert_eq!(play(&mut item, &mut state, &entry(Platform::HuYa, "1", "x")), None);
    let mut off = with_streams(1);
    off.show_type = Some(ShowType::Off);
    assert_eq!(play(&mut item, &mut state, &off), None);
}

#[test]
fn list_entry_switches_streams_round() {
    let info = with_streams(3);
    let mut item = AnchorItem::new();
    let mut state = AnchorItemState::default();
    let mut seen = Vec::new();
    for _ in 0..4 {
        assert_eq!(item.update(&info, &mut state, AnchorItemMessage::OnLiveLineSwitch(1)), None);
        seen.push(state.live_line);
    }
    assert_eq!(seen, vec![1, 2, 0, 1]);
    seen.clear();
    for _ in 0..4 {
        item.update(&info, &mut state, AnchorItemMessage::OnLiveLineSwitch(-1));
        seen.push(state.live_line);
    }
    assert_eq!(seen, vec![0, 2, 1, 0]);
    item.update(&info, &mut state, AnchorItemMessage::OnLiveLineSwitch(0));
    assert_eq!(state.live_line, 2);
    state.live_line = usize::MAX;
    item.update(&info, &mut state, AnchorItemMessage::OnLiveLineSwitch(-1));
    assert_eq!(state.live_line, (usize::MAX % 3 + 2) % 3);
    state.live_line = usize::MAX;
    item.update(&info, &mut state, AnchorItemMessage::OnLiveLineSwitch(1));
    assert_eq!(state.live_line, (usize::MAX % 3 + 1) % 3);
    state.live_line = 7;
    item.update(&with_streams(0), &mut state, AnchorItemMessage::OnLiveLineSwitch(1));
    assert_eq!(state.live_line, 7);
    item.update(&entry(Platform::HuYa, "1", "x"), &mut state, AnchorItemMessage::OnLiveLineSwitch(1));
    assert_eq!(state.live_line, 7);
}

#[test]
fn list_entry_editor() {
    let info = entry(Platform::HuYa, "1", "old name");
    let mut item = AnchorItem::new();
    let mut state = AnchorItemState::default();
    assert!(!item.show_edit);
    assert_eq!(item.update(&info, &mut state, AnchorItemMessage::OnEdit), None);
    assert!(item.show_edit);
    assert_eq!(item.name_editor, "old name");
    assert_eq!(item.update(&info, &mut state, AnchorItemMessage::OnEditSubmit), None);
    assert!(!item.show_edit);

    item.update(&info, &mut state, AnchorItemMessage::OnEdit);
    item.update(&info, &mut state, AnchorItemMessage::OnEditInput("new name".to_string()));
    assert_eq!(item.name_editor, "new name");
    let out = item.update(&info, &mut state, AnchorItemMessage::OnEditSubmit);
    assert_eq!(
        out,
        Some(AnchorItemOutput::Update(AnchorItemUpdateType::Update(entry(
            Platform::HuYa,
            "1",
            "new name"
        ))))
    );
    assert!(!item.show_edit);

    item.update(&info, &mut state, AnchorItemMessage::OnEdit);
    assert_eq!(item.update(&info, &mut state, AnchorItemMessage::CloseEdit), None);
    assert!(!item.show_edit);
    item.update(&info, &mut state, AnchorItemMessage::OnEdit);
    assert_eq!(
        item.update(&info, &mut state, AnchorItemMessage::OnDel),
        Some(AnchorItemOutput::Update(AnchorItemUpdateType::Del))
    );
    assert!(!item.show_edit);
    assert_eq!(item.update(&info, &mut state, AnchorItemMessage::Noop("x".to_string())), None);
    assert_eq!(state, AnchorItemState { live_line: 0 });
}

#[test]
fn settings_panel() {
    let current = AppConfig { player_path: "mpv".to_string() };
    let mut state = CfgPanelState::default();
    assert!(!state.inited);
    assert_eq!(state.update(&current, CfgPanelMessage::Noop), None);
    assert!(state.inited);
    assert_eq!(state.cfg.player_path, "mpv");

    assert_eq!(state.update(&current, CfgPanelMessage::OnSave), Some(None));
    assert!(state.inited);

    assert_eq!(state.update(&current, CfgPanelMessage::OninputPlayerPath("vlc".to_string())), None);
    assert_eq!(state.cfg.player_path, "vlc");
    assert_eq!(state.update(&current, CfgPanelMessage::OnInputSeamPath("seam".to_string())), None);
    assert_eq!(state.cfg.player_path, "vlc");
    let out = state.update(&current, CfgPanelMessage::OnSave);
    assert_eq!(out.unwrap().unwrap().player_path, "vlc");
    assert!(!state.inited);
    assert_eq!(state.cfg.player_path, "mpv");

    let other = AppConfig { player_path: "iina".to_string() };
    state.update(&other, CfgPanelMessage::OninputPlayerPath("x".to_string()));
    assert_eq!(state.update(&other, CfgPanelMessage::OnOff), Some(None));
    assert!(!state.inited);
    assert_eq!(state.cfg.player_path, "mpv");

    let mut fresh = CfgPanelState::default();
    assert_eq!(fresh.update(&other, CfgPanelMessage::OnSave), Some(None));
    assert!(fresh.inited);
    assert_eq!(fresh.cfg.player_path, "iina");
}

fn rids(ui: &SeamUI) -> Vec<String> {
    ui.anchor_list.iter().map(|a| a.rid.clone()).collect()
}

fn saved_rids(c: &Command) -> Vec<String> {
    match c {
        Command::Save(s) => s.anchors.iter().map(|a| a.rid.clone()).collect(),
        other => panic!("expected a save, got {:?}", other),
    }
}

fn task_rids(cs: &[Command]) -> Vec<String> {
    cs.iter()
        .map(|c| match c {
            Command::Task(a, cfg) => format!("{}@{}", a.rid, cfg.player_path),
            other => panic!("expected a task, got {:?}", other),
        })
        .collect()
}

fn loaded() -> SeamUI {
    let mut ui = SeamUI::new();
    let cs = ui.update(Message::Loaded(SavedState {
        anchors: vec![
            entry(Platform::HuYa, "1", "a"),
            entry(Platform::DouYu, "2", "b"),
            entry(Platform::HuYa, "1", "again"),
        ],
        config: AppConfig { player_path: "vlc".to_string() },
    }));
    assert_eq!(task_rids(&cs), vec!["1@vlc", "2@vlc", "1@vlc"]);
    ui
}

#[test]
fn window_starts_empty() {
    let ui = SeamUI::new();
    assert!(!ui.loaded);
    assert!(!ui.show_setting);
    assert!(ui.anchor_list.is_empty());
    assert_eq!(ui.config.player_path, "mpv");
    assert_eq!(ui.title(), "seamui");
}

#[test]
fn window_loads_and_looks_every_anchor_up() {
    let mut ui = loaded();
    assert!(ui.loaded);
    assert_eq!(rids(&ui), vec!["1", "2", "1"]);
    assert_eq!(ui.config.player_path, "vlc");
    let cs = ui.update(Message::OnFlush);
    assert_eq!(task_rids(&cs), vec!["1@vlc", "2@vlc", "1@vlc"]);
    assert!(ui.update(Message::Saved).is_empty());
    assert!(ui.update(Message::Ignore).is_empty());
    assert_eq!(rids(&ui), vec!["1", "2", "1"]);
}

#[test]
fn window_takes_a_submitted_anchor() {
    let mut ui = loaded();
    let cs = ui.update(Message::SubmitAnchor(entry(Platform::CC, "9", "n")));
    assert_eq!(rids(&ui), vec!["1", "2", "1", "9"]);
    assert_eq!(cs.len(), 2);
    assert_eq!(task_rids(&cs[..1]), vec!["9@vlc"]);
    assert_eq!(saved_rids(&cs[1]), vec!["1", "2", "1", "9"]);
}

#[test]
fn window_changes_an_entry() {
    let mut ui = loaded();
    let cs = ui.update(Message::OnItemUpdate(1, AnchorItemUpdateType::Del));
    assert_eq!(rids(&ui), vec!["1", "1"]);
    assert_eq!(saved_rids(&cs[0]), vec!["1", "1"]);
    let cs = ui.update(Message::OnItemUpdate(
        0,
        AnchorItemUpdateType::Update(entry(Platform::Now, "5", "five")),
    ));
    assert_eq!(rids(&ui), vec!["5", "1"]);
    assert_eq!(ui.anchor_list[0].platform, Platform::Now);
    assert_eq!(saved_rids(&cs[0]), vec!["5", "1"]);
    let cs = ui.update(Message::OnItemUpdate(2, AnchorItemUpdateType::Del));
    assert_eq!(rids(&ui), vec!["5", "1"]);
    assert_eq!(cs.len(), 1);
    assert_eq!(saved_rids(&cs[0]), vec!["5", "1"]);
}

#[test]
fn window_takes_a_result_into_every_entry_of_the_room() {
    let mut ui = loaded();
    let mut result = with_streams(2);
    result.anchor = "ignored".to_string();
    let cs = ui.update(Message::TaskResult(result));
    assert!(cs.is_empty());
    assert!(ui.anchor_list[0].is_live());
    assert!(!ui.anchor_list[1].is_live());
    assert!(ui.anchor_list[2].is_live());
    assert_eq!(ui.anchor_list[0].anchor, "a");
    assert_eq!(ui.anchor_list[2].anchor, "again");
    let mut off = entry(Platform::HuYa, "1", "x");
    off.show_type = Some(ShowType::Off);
    ui.update(Message::TaskResult(off));
    assert_eq!(ui.anchor_list[0].show_type, Some(ShowType::Off));
    assert_eq!(ui.anchor_list[1].show_type, None);
    assert_eq!(ui.anchor_list[2].show_type, Some(ShowType::Off));
}

#[test]
fn window_plays_with_the_configured_player() {
    let mut ui = loaded();
    let node = Node { format: "flv".to_string(), url: "u".to_string() };
    let cs = ui.update(Message::OnPlay(7, node));
    assert_eq!(cs.len(), 1);
    match &cs[0] {
        Command::Play(n, cfg) => {
            assert_eq!(n.url, "u");
            assert_eq!(cfg.player_path, "vlc");
        }
        other => panic!("expected a play, got {:?}", other),
    }
}

#[test]
fn window_settings() {
    let mut ui = loaded();
    assert!(ui.update(Message::OnSetting).is_empty());
    assert!(ui.show_setting);
    assert!(ui.update(Message::OnSettingUpdate(None)).is_empty());
    assert!(!ui.show_setting);
    assert_eq!(ui.config.player_path, "vlc");
    ui.update(Message::OnSetting);
    let cs = ui.update(Message::OnSettingUpdate(Some(AppConfig { player_path: "mpv".to_string() })));
    assert!(!ui.show_setting);
    assert_eq!(ui.config.player_path, "mpv");
    assert_eq!(cs.len(), 1);
    match &cs[0] {
        Command::Save(s) => {
            assert_eq!(s.config.player_path, "mpv");
            assert_eq!(s.anchors.len(), 3);
        }
        other => panic!("expected a save, got {:?}", other),
    }
}
