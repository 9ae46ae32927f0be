//! One entry of the anchor list, with its editor.

use vstd::prelude::*;
use crate::models::{AnchorInfo, AnchorInfoView, Node, NodeView, ShowType, ShowTypeView};

verus! {

/// An event of a list entry.
#[derive(Debug, PartialEq, Eq)]
pub enum AnchorItemMessage {
    OnPlay,
    OnEdit,
    CloseEdit,
    OnDel,
    OnEditSubmit,
    OnEditInput(String),
    OnLiveLineSwitch(i32),
    Noop(String),
}

/// A change to a list entry that the window has to make.
#[derive(Debug, PartialEq, Eq)]
pub enum AnchorItemUpdateType {
    /// Take the entry out.
    Del,
    /// Put this record in its place.
    Update(AnchorInfo),
}

/// What a list entry asks of the window.
#[derive(Debug, PartialEq, Eq)]
pub enum AnchorItemOutput {
    Play(Node),
    Update(AnchorItemUpdateType),
}

/// Which stream of the entry is picked.
#[derive(Debug, Clone, Copy, PartialEq, Eq)]
pub struct AnchorItemState {
    pub live_line: usize,
}

impl Default for AnchorItemState {
    fn default() -> (r: Self)
        ensures
            r.live_line == 0,
    {
        AnchorItemState { live_line: 0 }
    }
}

/// The editor of a list entry.
#[derive(Debug)]
pub struct AnchorItem {
    pub show_edit: bool,
    pub name_editor: String,
}

pub struct AnchorItemView {
    pub show_edit: bool,
    pub name_editor: Seq<char>,
}

impl View for AnchorItem {
    type V = AnchorItemView;

    open spec fn view(&self) -> AnchorItemView {
        AnchorItemView { show_edit: self.show_edit, name_editor: self.name_editor@ }
    }
}

impl AnchorInfoView {
    /// The streams of a record that is on the air and has some.
    pub open spec fn streams(self) -> Option<Seq<NodeView>> {
        match self.show_type {
            Some(ShowTypeView::On(info)) => info.nodes,
            _ => None,
        }
    }
}

/// The stream picked after a step forward (`step` above zero) or backward
/// among `n` streams, from the one at `line`: the next or the previous
/// one, going round at the ends.
pub open spec fn switched(line: int, n: int, step: int) -> int {
    if step > 0 {
        (line + 1) % n
    } else {
        (line + n - 1) % n
    }
}

proof fn lemma_switched(line: int, n: int)
    requires
        0 <= line,
        0 < n,
    ensures
        (line + 1) % n == if line % n + 1 == n {
            0
        } else {
            line % n + 1
        },
        (line + n - 1) % n == if line % n == 0 {
            n - 1
        } else {
            line % n - 1
        },
{
    vstd::arithmetic::div_mod::lemma_fundamental_div_mod(line, n);
    let q = line / n;
    let m = line % n;
    assert(0 <= m < n) by {
        vstd::arithmetic::div_mod::lemma_mod_bound(line, n);
    }
    assert(q * n == n * q && (q + 1) * n == q * n + n) by (nonlinear_arith);
    if m + 1 == n {
        vstd::arithmetic::div_mod::lemma_fundamental_div_mod_converse(line + 1, n, q + 1, 0);
    } else {
        vstd::arithmetic::div_mod::lemma_fundamental_div_mod_converse(line + 1, n, q, m + 1);
    }
    if m == 0 {
        vstd::arithmetic::div_mod::lemma_fundamental_div_mod_converse(line + n - 1, n, q, n - 1);
    } else {
        vstd::arithmetic::div_mod::lemma_fundamental_div_mod_converse(
            line + n - 1,
            n,
            q + 1,
            m - 1,
        );
    }
}

impl AnchorItem {
    /// The editor of an entry, closed.
    pub fn new() -> (r: Self)
        ensures
            r@ == (AnchorItemView { show_edit: false, name_editor: Seq::empty() }),
    {
        AnchorItem { show_edit: false, name_editor: String::new() }
    }

    /// Applies an event to the entry of the record `info`.
    ///
    /// Playing hands out the picked stream, if the record is on the air
    /// and has a stream at the picked place. Opening the editor starts it
    /// with the record's name. Submitting a changed name hands out the
    /// record under the new name. Switching streams moves the pick round
    /// the record's streams.
    pub fn update(&mut self, info: &AnchorInfo, state: &mut AnchorItemState, event: AnchorItemMessage)
        -> (r: Option<AnchorItemOutput>)
        ensures
            match event {
                AnchorItemMessage::OnPlay => {
                    &&& final(self)@ == old(self)@
                    &&& *final(state) == *old(state)
                    &&& match info@.streams() {
                        Some(nodes) => if old(state).live_line < nodes.len() {
                            r matches Some(AnchorItemOutput::Play(n)) && n@ == nodes[old(
                                state,
                            ).live_line as int]
                        } else {
                            r is None
                        },
                        None => r is None,
                    }
                },
                AnchorItemMessage::OnEdit => {
                    &&& final(self)@ == (AnchorItemView {
                        show_edit: true,
                        name_editor: info@.anchor,
                    })
                    &&& *final(state) == *old(state)
                    &&& r is None
                },
                AnchorItemMessage::CloseEdit => {
                    &&& final(self)@ == (AnchorItemView { show_edit: false, ..old(self)@ })
                    &&& *final(state) == *old(state)
                    &&& r is None
                },
                AnchorItemMessage::OnDel => {
                    &&& final(self)@ == (AnchorItemView { show_edit: false, ..old(self)@ })
                    &&& *final(state) == *old(state)
                    &&& r matches Some(AnchorItemOutput::Update(AnchorItemUpdateType::Del))
                },
                AnchorItemMessage::OnEditSubmit => {
                    &&& final(self)@ == (AnchorItemView { show_edit: false, ..old(self)@ })
                    &&& *final(state) == *old(state)
                    &&& if old(self)@.name_editor == info@.anchor {
                        r is None
                    } else {
                        r matches Some(AnchorItemOutput::Update(AnchorItemUpdateType::Update(n)))
                            && n@ == (AnchorInfoView { anchor: old(self)@.name_editor, ..info@ })
                    }
                },
                AnchorItemMessage::OnEditInput(s) => {
                    &&& final(self)@ == (AnchorItemView { name_editor: s@, ..old(self)@ })
                    &&& *final(state) == *old(state)
                    &&& r is None
                },
                AnchorItemMessage::Noop(_) => {
                    &&& final(self)@ == old(self)@
                    &&& *final(state) == *old(state)
                    &&& r is None
                },
                AnchorItemMessage::OnLiveLineSwitch(step) => {
                    &&& final(self)@ == old(self)@
                    &&& r is None
                    &&& final(state).live_line == match info@.streams() {
                        Some(nodes) => if nodes.len() > 0 {
                            switched(
                                old(state).live_line as int,
                                nodes.len() as int,
                                step as int,
                            )
                        } else {
                            old(state).live_line as int
                        },
                        None => old(state).live_line as int,
                    }
                },
            },
    {
        match event {
            AnchorItemMessage::OnPlay => {
                if let Some(ShowType::On(seam_info)) = &info.show_type {
                    if let Some(nodes) = &seam_info.nodes {
                        if state.live_line < nodes.len() {
                            return Some(AnchorItemOutput::Play(nodes[state.live_line].clone()));
                        }
                        return None;
                    }
                }
                None
            },
            AnchorItemMessage::OnEdit => {
                self.name_editor = info.anchor.clone();
                self.show_edit = true;
                None
            },
            AnchorItemMessage::CloseEdit => {
                self.show_edit = false;
                None
            },
            AnchorItemMessage::OnDel => {
                self.show_edit = false;
                Some(AnchorItemOutput::Update(AnchorItemUpdateType::Del))
            },
            AnchorItemMessage::OnEditSubmit => {
                self.show_edit = false;
                if self.name_editor == info.anchor {
                    return None;
                }
                let mut new_item = info.clone();
                new_item.anchor = self.name_editor.clone();
                Some(AnchorItemOutput::Update(AnchorItemUpdateType::Update(new_item)))
            },
            AnchorItemMessage::OnEditInput(s) => {
                self.name_editor = s;
                None
            },
            AnchorItemMessage::Noop(_) => None,
            AnchorItemMessage::OnLiveLineSwitch(step) => {
                if let Some(ShowType::On(s)) = &info.show_type {
                    if let Some(nodes) = &s.nodes {
                        let n = nodes.len();
                        if n > 0 {
                            proof {
                                lemma_switched(state.live_line as int, n as int);
                            }
                            let m = state.live_line % n;
                            if step > 0 {
                                state.live_line = if m + 1 == n {
                                    0
                                } else {
                                    m + 1
                                };
                            } else {
                                state.live_line = if m == 0 {
                                    n - 1
                                } else {
                                    m - 1
                                };
                            }
                        }
                    }
                }
                None
            },
        }
    }
}

} // verus!
