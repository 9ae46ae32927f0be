//! The window as a whole: the list of anchors, the settings, and what each
//! message does to them.

use vstd::prelude::*;
use crate::config::{AppConfig, AppConfigView, SavedState, SavedStateView};
use crate::models::{AnchorInfo, AnchorInfoView, Node, NodeView, info_views};
use crate::ui::anchor_item::AnchorItemUpdateType;

verus! {

/// A message to the window.
#[derive(Debug)]
pub enum Message {
    Loaded(SavedState),
    Saved,
    SubmitAnchor(AnchorInfo),
    OnPlay(usize, Node),
    OnItemUpdate(usize, AnchorItemUpdateType),
    OnFlush,
    OnSetting,
    OnSettingUpdate(Option<AppConfig>),
    TaskResult(AnchorInfo),
    Ignore,
}

/// Something the window wants done.
#[derive(Debug)]
pub enum Command {
    /// Look this anchor up.
    Task(AnchorInfo, AppConfig),
    /// Write this to the configuration file.
    Save(SavedState),
    /// Play this stream with the player of these settings.
    Play(Node, AppConfig),
}

pub enum CommandView {
    Task(AnchorInfoView, AppConfigView),
    Save(SavedStateView),
    Play(NodeView, AppConfigView),
}

impl View for Command {
    type V = CommandView;

    open spec fn view(&self) -> CommandView {
        match self {
            Command::Task(a, c) => CommandView::Task(a@, c@),
            Command::Save(s) => CommandView::Save(s@),
            Command::Play(n, c) => CommandView::Play(n@, c@),
        }
    }
}

/// The views of a sequence of commands, in order.
pub open spec fn command_views(s: Seq<Command>) -> Seq<CommandView> {
    Seq::new(s.len(), |i: int| s[i]@)
}

/// The window's state.
#[derive(Debug)]
pub struct SeamUI {
    pub loaded: bool,
    pub anchor_list: Vec<AnchorInfo>,
    pub config: AppConfig,
    pub show_setting: bool,
}

pub struct SeamUIView {
    pub loaded: bool,
    pub anchor_list: Seq<AnchorInfoView>,
    pub config: AppConfigView,
    pub show_setting: bool,
}

impl View for SeamUI {
    type V = SeamUIView;

    open spec fn view(&self) -> SeamUIView {
        SeamUIView {
            loaded: self.loaded,
            anchor_list: info_views(self.anchor_list@),
            config: self.config@,
            show_setting: self.show_setting,
        }
    }
}

impl SeamUIView {
    /// One lookup for each anchor of the list, in order.
    pub open spec fn tasks(self) -> Seq<CommandView> {
        Seq::new(
            self.anchor_list.len(),
            |i: int| CommandView::Task(self.anchor_list[i], self.config),
        )
    }

    /// Saving the list and the settings.
    pub open spec fn save(self) -> Seq<CommandView> {
        seq![
            CommandView::Save(SavedStateView { anchors: self.anchor_list, config: self.config }),
        ]
    }

    /// The list after a lookup's result was taken in: every entry with the
    /// result's platform and room gets the result's status.
    pub open spec fn with_result(self, result: AnchorInfoView) -> Seq<AnchorInfoView> {
        Seq::new(
            self.anchor_list.len(),
            |i: int|
                if self.anchor_list[i].key() == result.key() {
                    AnchorInfoView { show_type: result.show_type, ..self.anchor_list[i] }
                } else {
                    self.anchor_list[i]
                },
        )
    }

    /// The list after an entry was changed: an entry that is in the list is
    /// taken out or replaced; otherwise the list stays as it is.
    pub open spec fn with_item(self, i: int, update: AnchorItemUpdateType) -> Seq<AnchorInfoView> {
        if 0 <= i < self.anchor_list.len() {
            match update {
                AnchorItemUpdateType::Del => self.anchor_list.remove(i),
                AnchorItemUpdateType::Update(n) => self.anchor_list.update(i, n@),
            }
        } else {
            self.anchor_list
        }
    }

    /// The state after a message.
    pub open spec fn after(self, message: Message) -> SeamUIView {
        match message {
            Message::Loaded(s) => SeamUIView {
                loaded: true,
                anchor_list: s@.anchors,
                config: s@.config,
                show_setting: self.show_setting,
            },
            Message::SubmitAnchor(a) => SeamUIView {
                anchor_list: self.anchor_list.push(a@),
                ..self
            },
            Message::OnItemUpdate(i, t) => SeamUIView {
                anchor_list: self.with_item(i as int, t),
                ..self
            },
            Message::TaskResult(info) => SeamUIView {
                anchor_list: self.with_result(info@),
                ..self
            },
            Message::OnSetting => SeamUIView { show_setting: true, ..self },
            Message::OnSettingUpdate(s) => match s {
                Some(c) => SeamUIView { show_setting: false, config: c@, ..self },
                None => SeamUIView { show_setting: false, ..self },
            },
            _ => self,
        }
    }

    /// What the window wants done on a message, `self` being the state
    /// before it.
    pub open spec fn commands(self, message: Message) -> Seq<CommandView> {
        match message {
            Message::Loaded(_) => self.after(message).tasks(),
            Message::SubmitAnchor(a) => seq![CommandView::Task(a@, self.config)] + self.after(
                message,
            ).save(),
            Message::OnPlay(_, node) => seq![CommandView::Play(node@, self.config)],
            Message::OnItemUpdate(_, _) => self.after(message).save(),
            Message::OnFlush => self.tasks(),
            Message::OnSettingUpdate(Some(_)) => self.after(message).save(),
            _ => Seq::empty(),
        }
    }
}

fn clone_list(v: &Vec<AnchorInfo>) -> (r: Vec<AnchorInfo>)
    ensures
        info_views(r@) == info_views(v@),
{
    let mut out: Vec<AnchorInfo> = Vec::new();
    let mut i: usize = 0;
    while i < v.len()
        invariant
            i <= v.len(),
            out.len() == i,
            forall|j: int| 0 <= j < i ==> out[j]@ == v[j]@,
        decreases v.len() - i,
    {
        out.push(v[i].clone());
        i += 1;
    }
    assert(info_views(out@) =~= info_views(v@));
    out
}

impl SeamUI {
    /// The window before anything was loaded.
    pub fn new() -> (r: Self)
        ensures
            r@ == (SeamUIView {
                loaded: false,
                anchor_list: Seq::empty(),
                config: AppConfigView::initial(),
                show_setting: false,
            }),
    {
        let r = SeamUI {
            loaded: false,
            anchor_list: Vec::new(),
            config: AppConfig::default(),
            show_setting: false,
        };
        assert(info_views(r.anchor_list@) =~= Seq::<AnchorInfoView>::empty());
        r
    }

    /// The window's title.
    pub fn title(&self) -> (r: String)
        ensures
            r@ == "seamui"@,
    {
        "seamui".to_owned()
    }

    fn tasks(&self) -> (r: Vec<Command>)
        ensures
            command_views(r@) == self@.tasks(),
    {
        let mut out: Vec<Command> = Vec::new();
        let mut i: usize = 0;
        while i < self.anchor_list.len()
            invariant
                i <= self.anchor_list.len(),
                out.len() == i,
                forall|j: int|
                    0 <= j < i ==> out[j]@ == CommandView::Task(self.anchor_list[j]@, self.config@),
            decreases self.anchor_list.len() - i,
        {
            out.push(Command::Task(self.anchor_list[i].clone(), self.config.clone()));
            i += 1;
        }
        assert(command_views(out@) =~= self@.tasks());
        out
    }

    fn save(&self) -> (r: Command)
        ensures
            seq![r@] == self@.save(),
    {
        let c = Command::Save(
            SavedState { anchors: clone_list(&self.anchor_list), config: self.config.clone() },
        );
        assert(seq![c@] =~= self@.save());
        c
    }

    fn take_result(&mut self, result: &AnchorInfo)
        ensures
            final(self)@ == (SeamUIView { anchor_list: old(self)@.with_result(result@), ..old(self)@ }),
    {
        let ghost before = self@;
        let mut i: usize = 0;
        while i < self.anchor_list.len()
            invariant
                i <= self.anchor_list.len(),
                self.anchor_list.len() == before.anchor_list.len(),
                self.loaded == before.loaded,
                self.config@ == before.config,
                self.show_setting == before.show_setting,
                forall|j: int| 0 <= j < i ==> self.anchor_list[j]@ == before.with_result(result@)[j],
                forall|j: int|
                    i <= j < self.anchor_list.len() ==> self.anchor_list[j]@
                        == before.anchor_list[j],
            decreases self.anchor_list.len() - i,
        {
            if self.anchor_list[i].platform == result.platform && self.anchor_list[i].rid
                == result.rid {
                let mut entry = self.anchor_list[i].clone();
                entry.show_type = match &result.show_type {
                    Some(s) => Some(s.clone()),
                    None => None,
                };
                self.anchor_list.set(i, entry);
            }
            i += 1;
        }
        assert(info_views(self.anchor_list@) =~= before.with_result(result@));
    }

    /// Applies a message to the window and says what is to be done.
    ///
    /// A loaded configuration replaces the list and the settings, and every
    /// anchor is looked up. A submitted anchor is added at the end, looked
    /// up, and the configuration is saved. A change to an entry that is in
    /// the list is made, and the configuration is saved. A lookup's result
    /// sets the status of every entry of its room. A flush looks every
    /// anchor up. Closing the settings with new ones puts them in force and
    /// saves.
    pub fn update(&mut self, message: Message) -> (r: Vec<Command>)
        ensures
            final(self)@ == old(self)@.after(message),
            command_views(r@) == old(self)@.commands(message),
    {
        let mut out: Vec<Command> = Vec::new();
        match message {
            Message::Loaded(s) => {
                self.anchor_list = s.anchors;
                self.config = s.config;
                self.loaded = true;
                out = self.tasks();
            },
            Message::SubmitAnchor(anchor) => {
                let ghost before = info_views(self.anchor_list@);
                self.anchor_list.push(anchor.clone());
                assert(info_views(self.anchor_list@) =~= before.push(anchor@));
                out.push(Command::Task(anchor, self.config.clone()));
                out.push(self.save());
                assert(command_views(out@) =~= old(self)@.commands(message));
            },
            Message::OnPlay(_, node) => {
                out.push(Command::Play(node, self.config.clone()));
                assert(command_views(out@) =~= old(self)@.commands(message));
            },
            Message::OnItemUpdate(i, typ) => {
                let ghost before = info_views(self.anchor_list@);
                if i < self.anchor_list.len() {
                    match typ {
                        AnchorItemUpdateType::Del => {
                            let _ = self.anchor_list.remove(i);
                            assert(info_views(self.anchor_list@) =~= before.remove(i as int));
                        },
                        AnchorItemUpdateType::Update(n) => {
                            let ghost v = n@;
                            self.anchor_list.set(i, n);
                            assert(info_views(self.anchor_list@) =~= before.update(i as int, v));
                        },
                    }
                }
                out.push(self.save());
                assert(command_views(out@) =~= old(self)@.commands(message));
            },
            Message::TaskResult(info) => {
                self.take_result(&info);
                assert(command_views(out@) =~= old(self)@.commands(message));
            },
            Message::OnFlush => {
                out = self.tasks();
            },
            Message::OnSetting => {
                self.show_setting = true;
                assert(command_views(out@) =~= old(self)@.commands(message));
            },
            Message::OnSettingUpdate(s) => {
                self.show_setting = false;
                match s {
                    Some(setting) => {
                        self.config = setting;
                        out.push(self.save());
                        assert(command_views(out@) =~= old(self)@.commands(message));
                    },
                    None => {
                        assert(command_views(out@) =~= old(self)@.commands(message));
                    },
                }
            },
            Message::Saved => {
                assert(command_views(out@) =~= old(self)@.commands(message));
            },
            Message::Ignore => {
                assert(command_views(out@) =~= old(self)@.commands(message));
            },
        }
        out
    }
}

} // verus!
