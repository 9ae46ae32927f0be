//! The saved configuration: the player to start and the anchors to track.

use vstd::prelude::*;
use vstd::std_specs::cmp::PartialEqSpecImpl;
use crate::models::{AnchorInfo, AnchorInfoView, Node, info_views, string_views};

verus! {

/// The settings of the tool.
#[derive(Debug)]
pub struct AppConfig {
    /// The program that plays a stream.
    pub player_path: String,
}

pub struct AppConfigView {
    pub player_path: Seq<char>,
}

impl View for AppConfig {
    type V = AppConfigView;

    open spec fn view(&self) -> AppConfigView {
        AppConfigView { player_path: self.player_path@ }
    }
}

impl AppConfigView {
    /// The settings of a fresh installation: the player is `mpv`.
    pub open spec fn initial() -> AppConfigView {
        AppConfigView { player_path: "mpv"@ }
    }
}

impl Default for AppConfig {
    fn default() -> (r: Self)
        ensures
            r@ == AppConfigView::initial(),
    {
        AppConfig { player_path: "mpv".to_owned() }
    }
}

impl Clone for AppConfig {
    fn clone(&self) -> (r: Self)
        ensures
            r@ == self@,
    {
        AppConfig { player_path: self.player_path.clone() }
    }
}

impl PartialEq for AppConfig {
    fn eq(&self, other: &Self) -> (r: bool) {
        self.player_path == other.player_path
    }
}

impl PartialEqSpecImpl for AppConfig {
    open spec fn obeys_eq_spec() -> bool {
        true
    }

    open spec fn eq_spec(&self, other: &Self) -> bool {
        self.player_path@ == other.player_path@
    }
}

/// What is written to the configuration file.
#[derive(Debug)]
pub struct SavedState {
    pub anchors: Vec<AnchorInfo>,
    pub config: AppConfig,
}

pub struct SavedStateView {
    pub anchors: Seq<AnchorInfoView>,
    pub config: AppConfigView,
}

impl View for SavedState {
    type V = SavedStateView;

    open spec fn view(&self) -> SavedStateView {
        SavedStateView { anchors: info_views(self.anchors@), config: self.config@ }
    }
}

impl SavedStateView {
    /// No anchors, and the settings of a fresh installation.
    pub open spec fn initial() -> SavedStateView {
        SavedStateView { anchors: Seq::empty(), config: AppConfigView::initial() }
    }
}

impl Default for SavedState {
    fn default() -> (r: Self)
        ensures
            r@ == SavedStateView::initial(),
    {
        let r = SavedState { anchors: Vec::new(), config: AppConfig::default() };
        assert(info_views(r.anchors@) =~= Seq::<AnchorInfoView>::empty());
        r
    }
}

impl SavedState {
    /// What the engine starts from, given what could be read of the
    /// configuration file: a file that could not be read or understood
    /// counts as no saved anchors.
    pub fn load(read: Option<SavedState>) -> (r: SavedState)
        ensures
            r@ == match read {
                Some(s) => s@,
                None => SavedStateView::initial(),
            },
    {
        match read {
            Some(s) => s,
            None => SavedState::default(),
        }
    }
}

/// The command line that starts the player.
#[derive(Debug, PartialEq, Eq)]
pub struct PlayCommand {
    pub program: String,
    pub args: Vec<String>,
}

/// Starting the player on a stream.
pub struct PlayState {}

impl PlayState {
    /// The command that plays `node`: the configured player, with the
    /// stream's address as its only argument.
    pub fn play(node: &Node, cfg: &AppConfig) -> (r: PlayCommand)
        ensures
            r.program@ == cfg.player_path@,
            string_views(r.args@) == seq![node.url@],
    {
        let mut args: Vec<String> = Vec::new();
        args.push(node.url.clone());
        assert(string_views(args@) =~= seq![node.url@]);
        PlayCommand { program: cfg.player_path.clone(), args }
    }
}

} // verus!
