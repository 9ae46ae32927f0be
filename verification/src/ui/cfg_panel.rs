//! The settings panel.

use vstd::prelude::*;
use crate::config::{AppConfig, AppConfigView};

verus! {

/// An event of the settings panel.
#[derive(Debug, PartialEq, Eq)]
pub enum CfgPanelMessage {
    OnSave,
    OnOff,
    OnInputSeamPath(String),
    OninputPlayerPath(String),
    Noop,
}

/// What the panel holds while it is open: the settings as edited so far.
#[derive(Debug)]
pub struct CfgPanelState {
    /// Whether the edited settings were taken from the current ones yet.
    pub inited: bool,
    pub cfg: AppConfig,
}

pub struct CfgPanelStateView {
    pub inited: bool,
    pub cfg: AppConfigView,
}

impl View for CfgPanelState {
    type V = CfgPanelStateView;

    open spec fn view(&self) -> CfgPanelStateView {
        CfgPanelStateView { inited: self.inited, cfg: self.cfg@ }
    }
}

impl CfgPanelStateView {
    /// The panel before its first event.
    pub open spec fn initial() -> CfgPanelStateView {
        CfgPanelStateView { inited: false, cfg: AppConfigView::initial() }
    }

    /// The panel once it has taken over the current settings, which it does
    /// on its first event.
    pub open spec fn opened(self, current: AppConfigView) -> CfgPanelStateView {
        if self.inited {
            self
        } else {
            CfgPanelStateView { inited: true, cfg: current }
        }
    }
}

impl Default for CfgPanelState {
    fn default() -> (r: Self)
        ensures
            r@ == CfgPanelStateView::initial(),
    {
        CfgPanelState { inited: false, cfg: AppConfig::default() }
    }
}

impl CfgPanelState {
    /// Applies an event to the panel, `current` being the settings in
    /// force.
    ///
    /// The result is what the panel tells the window: `Some(None)` to close
    /// without a change, `Some(Some(..))` to close and put the edited
    /// settings in force. Closing with the cross forgets the edits. Saving
    /// settings equal to the current ones closes without a change and
    /// keeps the panel's state. The settings hold no path of a lookup
    /// tool, so typing one changes nothing.
    pub fn update(&mut self, current: &AppConfig, event: CfgPanelMessage) -> (r: Option<
        Option<AppConfig>,
    >)
        ensures
            match event {
                CfgPanelMessage::OnOff => {
                    &&& final(self)@ == CfgPanelStateView::initial()
                    &&& r matches Some(None)
                },
                CfgPanelMessage::OnSave => {
                    let opened = old(self)@.opened(current@);
                    if opened.cfg == current@ {
                        final(self)@ == opened && r matches Some(None)
                    } else {
                        &&& final(self)@ == CfgPanelStateView::initial()
                        &&& r matches Some(Some(cfg))
                        &&& r->0->0@ == opened.cfg
                    }
                },
                CfgPanelMessage::OnInputSeamPath(_) => {
                    &&& final(self)@ == old(self)@.opened(current@)
                    &&& r is None
                },
                CfgPanelMessage::OninputPlayerPath(s) => {
                    &&& final(self)@ == (CfgPanelStateView {
                        inited: true,
                        cfg: AppConfigView { player_path: s@ },
                    })
                    &&& r is None
                },
                CfgPanelMessage::Noop => {
                    &&& final(self)@ == old(self)@.opened(current@)
                    &&& r is None
                },
            },
    {
        if !self.inited {
            self.inited = true;
            self.cfg = current.clone();
        }
        match event {
            CfgPanelMessage::OnOff => {
                *self = CfgPanelState::default();
                Some(None)
            },
            CfgPanelMessage::OnSave => {
                if self.cfg == *current {
                    return Some(None);
                }
                let edited = self.cfg.clone();
                *self = CfgPanelState::default();
                Some(Some(edited))
            },
            CfgPanelMessage::OnInputSeamPath(_) => None,
            CfgPanelMessage::OninputPlayerPath(s) => {
                self.cfg.player_path = s;
                None
            },
            CfgPanelMessage::Noop => None,
        }
    }
}

} // verus!
