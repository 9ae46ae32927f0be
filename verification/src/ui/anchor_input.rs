//! The line in which the user picks a platform and types a room.

use vstd::prelude::*;
use crate::models::{AnchorInfo, AnchorInfoView, string_views};
use crate::platform::Platform;

verus! {

/// What the input line holds.
#[derive(Debug)]
pub struct AnchorInputState {
    /// The entries of the platform list.
    pub pick_list_item: Vec<String>,
    /// The entry that is picked.
    pub pick_list_selected: String,
    /// The room typed so far.
    pub input: String,
}

pub struct AnchorInputStateView {
    pub pick_list_item: Seq<Seq<char>>,
    pub pick_list_selected: Seq<char>,
    pub input: Seq<char>,
}

impl View for AnchorInputState {
    type V = AnchorInputStateView;

    open spec fn view(&self) -> AnchorInputStateView {
        AnchorInputStateView {
            pick_list_item: string_views(self.pick_list_item@),
            pick_list_selected: self.pick_list_selected@,
            input: self.input@,
        }
    }
}

/// An event of the input line.
#[derive(Debug, PartialEq, Eq)]
pub enum AnchorInputMessage {
    Selected(String),
    OnInput(String),
    OnSubmit,
    OnFlush,
}

/// What the input line asks of the window.
#[derive(Debug, PartialEq, Eq)]
pub enum AnchorInputOutput {
    /// Track this anchor.
    Submit(AnchorInfo),
    /// Look all anchors up again.
    Flush,
}

/// The names of all platforms, in declaration order.
pub open spec fn platform_names() -> Seq<Seq<char>> {
    seq![
        Platform::BiliBili.variant_name(),
        Platform::DouYu.variant_name(),
        Platform::DouYin.variant_name(),
        Platform::HuYa.variant_name(),
        Platform::KuaiShou.variant_name(),
        Platform::CC.variant_name(),
        Platform::HuaJiao.variant_name(),
        Platform::Now.variant_name(),
        Platform::Afreeca.variant_name(),
    ]
}

/// The anchor that a submitted room stands for: the text is both its room
/// and its name, and nothing else is known of it.
pub open spec fn submitted(input: Seq<char>, selected: Seq<char>) -> AnchorInfoView {
    AnchorInfoView {
        rid: input,
        title: Seq::empty(),
        cover: Seq::empty(),
        anchor: input,
        head: Seq::empty(),
        platform: Platform::from_name(selected),
        show_type: None,
        cover_path: None,
        head_path: None,
    }
}

impl Default for AnchorInputState {
    fn default() -> (r: Self)
        ensures
            r@ == (AnchorInputStateView {
                pick_list_item: Seq::empty(),
                pick_list_selected: Seq::empty(),
                input: Seq::empty(),
            }),
    {
        let r = AnchorInputState {
            pick_list_item: Vec::new(),
            pick_list_selected: String::new(),
            input: String::new(),
        };
        assert(string_views(r.pick_list_item@) =~= Seq::<Seq<char>>::empty());
        r
    }
}

impl AnchorInputState {
    /// Gets the line ready to be shown: where no platform is picked yet,
    /// the list is filled with all platforms and the first is picked.
    pub fn prepare(&mut self)
        ensures
            final(self)@ == if old(self)@.pick_list_selected.len() == 0 {
                AnchorInputStateView {
                    pick_list_item: platform_names(),
                    pick_list_selected: Platform::BiliBili.variant_name(),
                    input: old(self)@.input,
                }
            } else {
                old(self)@
            },
    {
        if self.pick_list_selected.as_str().is_empty() {
            let all = Platform::all();
            let mut names: Vec<String> = Vec::new();
            let mut i: usize = 0;
            while i < all.len()
                invariant
                    i <= all.len(),
                    names.len() == i,
                    forall|j: int| 0 <= j < i ==> names[j]@ == all[j].variant_name(),
                decreases all.len() - i,
            {
                names.push(all[i].name().to_owned());
                i += 1;
            }
            assert(string_views(names@) =~= platform_names());
            self.pick_list_selected = names[0].clone();
            self.pick_list_item = names;
        }
    }

    /// Applies an event to the line.
    ///
    /// Picking and typing are recorded. Submitting an empty room does
    /// nothing; submitting a room hands out its anchor and empties the
    /// line. A flush is handed on.
    pub fn update(&mut self, event: AnchorInputMessage) -> (r: Option<AnchorInputOutput>)
        ensures
            match event {
                AnchorInputMessage::Selected(s) => {
                    &&& final(self)@ == (AnchorInputStateView {
                        pick_list_selected: s@,
                        ..old(self)@
                    })
                    &&& r is None
                },
                AnchorInputMessage::OnInput(s) => {
                    &&& final(self)@ == (AnchorInputStateView { input: s@, ..old(self)@ })
                    &&& r is None
                },
                AnchorInputMessage::OnSubmit => if old(self)@.input.len() == 0 {
                    final(self)@ == old(self)@ && r is None
                } else {
                    &&& final(self)@ == (AnchorInputStateView {
                        input: Seq::empty(),
                        ..old(self)@
                    })
                    &&& r matches Some(AnchorInputOutput::Submit(info))
                    &&& r->0->Submit_0@ == submitted(
                        old(self)@.input,
                        old(self)@.pick_list_selected,
                    )
                },
                AnchorInputMessage::OnFlush => {
                    &&& final(self)@ == old(self)@
                    &&& r matches Some(AnchorInputOutput::Flush)
                },
            },
    {
        match event {
            AnchorInputMessage::Selected(s) => {
                self.pick_list_selected = s;
                None
            },
            AnchorInputMessage::OnInput(s) => {
                self.input = s;
                None
            },
            AnchorInputMessage::OnSubmit => {
                if self.input.as_str().is_empty() {
                    return None;
                }
                let info = AnchorInfo {
                    rid: self.input.clone(),
                    title: String::new(),
                    cover: String::new(),
                    anchor: self.input.clone(),
                    head: String::new(),
                    platform: Platform::from(self.pick_list_selected.as_str()),
                    show_type: None,
                    cover_path: None,
                    head_path: None,
                };
                self.input = String::new();
                Some(AnchorInputOutput::Submit(info))
            },
            AnchorInputMessage::OnFlush => Some(AnchorInputOutput::Flush),
        }
    }
}

} // verus!
