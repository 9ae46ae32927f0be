//! The records the engine keeps for each anchor, and their mathematical
//! views.

use vstd::prelude::*;
use crate::platform::Platform;

verus! {

/// The characters of each string of a sequence.
pub open spec fn string_views(s: Seq<String>) -> Seq<Seq<char>> {
    Seq::new(s.len(), |i: int| s[i]@)
}

/// The characters of an optional string.
pub open spec fn opt_view(o: Option<String>) -> Option<Seq<char>> {
    match o {
        Some(s) => Some(s@),
        None => None,
    }
}

/// Copies an optional string.
pub fn clone_opt(o: &Option<String>) -> (r: Option<String>)
    ensures
        opt_view(r) == opt_view(*o),
{
    match o {
        Some(s) => Some(s.clone()),
        None => None,
    }
}

/// Copies a list of strings.
pub fn clone_strings(v: &Vec<String>) -> (r: Vec<String>)
    ensures
        string_views(r@) == string_views(v@),
{
    let mut out: Vec<String> = Vec::new();
    let mut i: usize = 0;
    while i < v.len()
        invariant
            i <= v.len(),
            out.len() == i,
            forall|j: int| 0 <= j < i ==> out[j]@ == v[j]@,
        decreases v.len() - i,
    {
        out.push(v[i].clone());
        i += 1;
    }
    assert(string_views(out@) =~= string_views(v@));
    out
}

/// One playable stream of a live room.
#[derive(Debug, PartialEq, Eq)]
pub struct Node {
    pub format: String,
    pub url: String,
}

pub struct NodeView {
    pub format: Seq<char>,
    pub url: Seq<char>,
}

impl View for Node {
    type V = NodeView;

    open spec fn view(&self) -> NodeView {
        NodeView { format: self.format@, url: self.url@ }
    }
}

impl Clone for Node {
    fn clone(&self) -> (r: Self)
        ensures
            r@ == self@,
    {
        Node { format: self.format.clone(), url: self.url.clone() }
    }
}

/// The views of a sequence of streams, in order.
pub open spec fn node_views(s: Seq<Node>) -> Seq<NodeView> {
    Seq::new(s.len(), |i: int| s[i]@)
}

/// The addresses of a sequence of streams, in order.
pub open spec fn node_urls(s: Seq<NodeView>) -> Seq<Seq<char>> {
    Seq::new(s.len(), |i: int| s[i].url)
}

/// Copies a list of streams, keeping their order.
pub fn clone_nodes(v: &Vec<Node>) -> (r: Vec<Node>)
    ensures
        node_views(r@) == node_views(v@),
{
    let mut out: Vec<Node> = Vec::new();
    let mut i: usize = 0;
    while i < v.len()
        invariant
            i <= v.len(),
            out.len() == i,
            forall|j: int| 0 <= j < i ==> out[j]@ == v[j]@,
        decreases v.len() - i,
    {
        out.push(v[i].clone());
        i += 1;
    }
    assert(node_views(out@) =~= node_views(v@));
    out
}

/// What a lookup reports of a room that is live.
#[derive(Debug, PartialEq, Eq)]
pub struct SeamInfo {
    pub title: String,
    pub nodes: Option<Vec<Node>>,
}

pub struct SeamInfoView {
    pub title: Seq<char>,
    pub nodes: Option<Seq<NodeView>>,
}

impl View for SeamInfo {
    type V = SeamInfoView;

    open spec fn view(&self) -> SeamInfoView {
        SeamInfoView {
            title: self.title@,
            nodes: match self.nodes {
                Some(v) => Some(node_views(v@)),
                None => None,
            },
        }
    }
}

impl Clone for SeamInfo {
    fn clone(&self) -> (r: Self)
        ensures
            r@ == self@,
    {
        let nodes = match &self.nodes {
            Some(v) => Some(clone_nodes(v)),
            None => None,
        };
        SeamInfo { title: self.title.clone(), nodes }
    }
}

/// Whether an anchor is on the air.
#[derive(Debug, PartialEq, Eq)]
pub enum ShowType {
    /// Live, with what the lookup reported.
    On(SeamInfo),
    /// Not live.
    Off,
    /// The lookup failed, with its message.
    Error(String),
}

pub enum ShowTypeView {
    On(SeamInfoView),
    Off,
    Error(Seq<char>),
}

impl View for ShowType {
    type V = ShowTypeView;

    open spec fn view(&self) -> ShowTypeView {
        match self {
            ShowType::On(info) => ShowTypeView::On(info@),
            ShowType::Off => ShowTypeView::Off,
            ShowType::Error(msg) => ShowTypeView::Error(msg@),
        }
    }
}

impl Clone for ShowType {
    fn clone(&self) -> (r: Self)
        ensures
            r@ == self@,
    {
        match self {
            ShowType::On(info) => ShowType::On(info.clone()),
            ShowType::Off => ShowType::Off,
            ShowType::Error(msg) => ShowType::Error(msg.clone()),
        }
    }
}

impl ShowTypeView {
    /// The stream addresses a status carries: those of a live room, in the
    /// order the lookup gave them; none otherwise.
    pub open spec fn urls(self) -> Seq<Seq<char>> {
        match self {
            ShowTypeView::On(info) => match info.nodes {
                Some(nodes) => node_urls(nodes),
                None => Seq::empty(),
            },
            _ => Seq::empty(),
        }
    }
}

impl ShowType {
    /// The stream addresses to hand to the display layer.
    pub fn get_urls_as_model(&self) -> (r: Vec<String>)
        ensures
            string_views(r@) == self@.urls(),
    {
        let mut out: Vec<String> = Vec::new();
        match self {
            ShowType::On(info) => match &info.nodes {
                Some(nodes) => {
                    let mut i: usize = 0;
                    while i < nodes.len()
                        invariant
                            i <= nodes.len(),
                            out.len() == i,
                            forall|j: int| 0 <= j < i ==> out[j]@ == nodes[j].url@,
                        decreases nodes.len() - i,
                    {
                        out.push(nodes[i].url.clone());
                        i += 1;
                    }
                    assert(string_views(out@) =~= self@.urls());
                },
                None => {
                    assert(string_views(out@) =~= self@.urls());
                },
            },
            _ => {
                assert(string_views(out@) =~= self@.urls());
            },
        }
        out
    }
}

/// The identity of an anchor: its platform and its room.
pub type AnchorKey = (Platform, Seq<char>);

/// Everything the engine knows of one anchor.
#[derive(Debug, PartialEq, Eq)]
pub struct AnchorInfo {
    /// Room identifier on the platform.
    pub rid: String,
    /// Title of the current broadcast.
    pub title: String,
    /// Address of the cover image.
    pub cover: String,
    /// Display name of the anchor.
    pub anchor: String,
    /// Address of the avatar image.
    pub head: String,
    pub platform: Platform,
    pub show_type: Option<ShowType>,
    /// Where the cover image lies in the asset cache, once fetched.
    pub cover_path: Option<String>,
    /// Where the avatar image lies in the asset cache, once fetched.
    pub head_path: Option<String>,
}

pub struct AnchorInfoView {
    pub rid: Seq<char>,
    pub title: Seq<char>,
    pub cover: Seq<char>,
    pub anchor: Seq<char>,
    pub head: Seq<char>,
    pub platform: Platform,
    pub show_type: Option<ShowTypeView>,
    pub cover_path: Option<Seq<char>>,
    pub head_path: Option<Seq<char>>,
}

impl AnchorInfoView {
    pub open spec fn key(self) -> AnchorKey {
        (self.platform, self.rid)
    }

    /// The anchor is known to be on the air.
    pub open spec fn is_live(self) -> bool {
        self.show_type matches Some(ShowTypeView::On(_))
    }

    /// Both images lie in the asset cache.
    pub open spec fn has_assets(self) -> bool {
        self.cover_path is Some && self.head_path is Some
    }

    /// The same record, not on the air.
    pub open spec fn offline(self) -> AnchorInfoView {
        AnchorInfoView { show_type: Some(ShowTypeView::Off), ..self }
    }

    /// The same record with both images in the asset cache.
    pub open spec fn with_assets(self, cover: Seq<char>, head: Seq<char>) -> AnchorInfoView {
        AnchorInfoView { cover_path: Some(cover), head_path: Some(head), ..self }
    }

    /// The record of a room of which only its identity is known.
    pub open spec fn bare(platform: Platform, rid: Seq<char>) -> AnchorInfoView {
        AnchorInfoView {
            rid,
            title: Seq::empty(),
            cover: Seq::empty(),
            anchor: Seq::empty(),
            head: Seq::empty(),
            platform,
            show_type: Some(ShowTypeView::Off),
            cover_path: None,
            head_path: None,
        }
    }
}

impl View for AnchorInfo {
    type V = AnchorInfoView;

    open spec fn view(&self) -> AnchorInfoView {
        AnchorInfoView {
            rid: self.rid@,
            title: self.title@,
            cover: self.cover@,
            anchor: self.anchor@,
            head: self.head@,
            platform: self.platform,
            show_type: match self.show_type {
                Some(s) => Some(s@),
                None => None,
            },
            cover_path: opt_view(self.cover_path),
            head_path: opt_view(self.head_path),
        }
    }
}

impl Clone for AnchorInfo {
    fn clone(&self) -> (r: Self)
        ensures
            r@ == self@,
    {
        let show_type = match &self.show_type {
            Some(s) => Some(s.clone()),
            None => None,
        };
        AnchorInfo {
            rid: self.rid.clone(),
            title: self.title.clone(),
            cover: self.cover.clone(),
            anchor: self.anchor.clone(),
            head: self.head.clone(),
            platform: self.platform,
            show_type,
            cover_path: clone_opt(&self.cover_path),
            head_path: clone_opt(&self.head_path),
        }
    }
}

/// The views of a sequence of records, in order.
pub open spec fn info_views(s: Seq<AnchorInfo>) -> Seq<AnchorInfoView> {
    Seq::new(s.len(), |i: int| s[i]@)
}

/// What the display layer draws for one live anchor.
#[derive(Debug, PartialEq, Eq)]
pub struct CardInfo {
    pub anchor: String,
    /// Local file of the avatar image.
    pub avatar: String,
    /// Local file of the cover image.
    pub cover: String,
    pub title: String,
    pub urls: Vec<String>,
}

pub struct CardInfoView {
    pub anchor: Seq<char>,
    pub avatar: Seq<char>,
    pub cover: Seq<char>,
    pub title: Seq<char>,
    pub urls: Seq<Seq<char>>,
}

impl View for CardInfo {
    type V = CardInfoView;

    open spec fn view(&self) -> CardInfoView {
        CardInfoView {
            anchor: self.anchor@,
            avatar: self.avatar@,
            cover: self.cover@,
            title: self.title@,
            urls: string_views(self.urls@),
        }
    }
}

impl AnchorInfoView {
    /// The card of a record: there is one exactly when both images lie in
    /// the asset cache.
    pub open spec fn card(self) -> Option<CardInfoView> {
        if self.has_assets() {
            Some(
                CardInfoView {
                    anchor: self.anchor,
                    avatar: self.head_path->0,
                    cover: self.cover_path->0,
                    title: self.title,
                    urls: match self.show_type {
                        Some(s) => s.urls(),
                        None => Seq::empty(),
                    },
                },
            )
        } else {
            None
        }
    }
}

impl AnchorInfo {
    /// The record of a room of which only its identity is known.
    pub fn bare(platform: Platform, rid: &str) -> (r: AnchorInfo)
        ensures
            r@ == AnchorInfoView::bare(platform, rid@),
    {
        AnchorInfo {
            rid: rid.to_owned(),
            title: String::new(),
            cover: String::new(),
            anchor: String::new(),
            head: String::new(),
            platform,
            show_type: Some(ShowType::Off),
            cover_path: None,
            head_path: None,
        }
    }

    /// Whether the record says the anchor is on the air.
    pub fn is_live(&self) -> (r: bool)
        ensures
            r == self@.is_live(),
    {
        match &self.show_type {
            Some(ShowType::On(_)) => true,
            _ => false,
        }
    }

    /// The card to draw for this anchor, if both of its images are cached.
    pub fn to_card_info(&self) -> (r: Option<CardInfo>)
        ensures
            match r {
                Some(c) => self@.card() == Some(c@),
                None => self@.card() is None,
            },
    {
        let avatar = match &self.head_path {
            Some(p) => p.clone(),
            None => {
                return None;
            },
        };
        let cover = match &self.cover_path {
            Some(p) => p.clone(),
            None => {
                return None;
            },
        };
        let urls = match &self.show_type {
            Some(st) => st.get_urls_as_model(),
            None => {
                let v: Vec<String> = Vec::new();
                assert(string_views(v@) =~= Seq::<Seq<char>>::empty());
                v
            },
        };
        Some(CardInfo { anchor: self.anchor.clone(), avatar, cover, title: self.title.clone(), urls })
    }
}

} // verus!
