//! What a platform lookup answers, and how an answer becomes an anchor
//! record.

use vstd::prelude::*;
use crate::models::{
    AnchorInfo,
    AnchorInfoView,
    Node,
    NodeView,
    SeamInfo,
    SeamInfoView,
    ShowType,
    ShowTypeView,
    node_views,
};
use crate::platform::Platform;

verus! {

/// The container of a stream, as a lookup reports it.
#[derive(Debug, PartialEq, Eq)]
pub enum Format {
    Flv,
    M3U,
    Rtmp,
    Other(String),
}

pub enum FormatView {
    Flv,
    M3U,
    Rtmp,
    Other(Seq<char>),
}

impl FormatView {
    /// The name under which a stream's container is recorded.
    pub open spec fn name(self) -> Seq<char> {
        match self {
            FormatView::Flv => "flv"@,
            FormatView::M3U => "m3u"@,
            FormatView::Rtmp => "rtmp"@,
            FormatView::Other(s) => s,
        }
    }
}

impl View for Format {
    type V = FormatView;

    open spec fn view(&self) -> FormatView {
        match self {
            Format::Flv => FormatView::Flv,
            Format::M3U => FormatView::M3U,
            Format::Rtmp => FormatView::Rtmp,
            Format::Other(s) => FormatView::Other(s@),
        }
    }
}

impl Format {
    /// The name under which the container is recorded.
    pub fn name(&self) -> (r: String)
        ensures
            r@ == self@.name(),
    {
        match self {
            Format::Flv => "flv".to_owned(),
            Format::M3U => "m3u".to_owned(),
            Format::Rtmp => "rtmp".to_owned(),
            Format::Other(s) => s.clone(),
        }
    }
}

/// One stream of a lookup's answer.
#[derive(Debug, PartialEq, Eq)]
pub struct StreamUrl {
    pub format: Format,
    pub url: String,
}

pub struct StreamUrlView {
    pub format: FormatView,
    pub url: Seq<char>,
}

impl StreamUrlView {
    /// The stream as the anchor record keeps it.
    pub open spec fn node(self) -> NodeView {
        NodeView { format: self.format.name(), url: self.url }
    }
}

impl View for StreamUrl {
    type V = StreamUrlView;

    open spec fn view(&self) -> StreamUrlView {
        StreamUrlView { format: self.format@, url: self.url@ }
    }
}

/// The views of a sequence of answered streams, in order.
pub open spec fn stream_views(s: Seq<StreamUrl>) -> Seq<StreamUrlView> {
    Seq::new(s.len(), |i: int| s[i]@)
}

/// The answer of a platform lookup for a room.
#[derive(Debug, PartialEq, Eq)]
pub struct LiveNode {
    pub rid: String,
    pub title: String,
    pub cover: String,
    pub anchor: String,
    pub head: String,
    pub urls: Vec<StreamUrl>,
}

pub struct LiveNodeView {
    pub rid: Seq<char>,
    pub title: Seq<char>,
    pub cover: Seq<char>,
    pub anchor: Seq<char>,
    pub head: Seq<char>,
    pub urls: Seq<StreamUrlView>,
}

impl View for LiveNode {
    type V = LiveNodeView;

    open spec fn view(&self) -> LiveNodeView {
        LiveNodeView {
            rid: self.rid@,
            title: self.title@,
            cover: self.cover@,
            anchor: self.anchor@,
            head: self.head@,
            urls: stream_views(self.urls@),
        }
    }
}

impl LiveNodeView {
    /// The streams of the answer as the anchor record keeps them, in the
    /// order of the answer.
    pub open spec fn nodes(self) -> Seq<NodeView> {
        Seq::new(self.urls.len(), |i: int| self.urls[i].node())
    }

    /// The status the answer stands for: on the air with its streams, or,
    /// where it names no stream, not on the air.
    pub open spec fn show_type(self) -> ShowTypeView {
        if self.urls.len() == 0 {
            ShowTypeView::Off
        } else {
            ShowTypeView::On(SeamInfoView { title: self.title, nodes: Some(self.nodes()) })
        }
    }

    /// The anchor record that the answer to a lookup of the room `rid` on
    /// `platform` stands for. The record is that of the room that was asked
    /// for, whatever room the answer names. No image of it is cached yet.
    pub open spec fn anchor_info(self, platform: Platform, rid: Seq<char>) -> AnchorInfoView {
        AnchorInfoView {
            rid,
            title: self.title,
            cover: self.cover,
            anchor: self.anchor,
            head: self.head,
            platform,
            show_type: Some(self.show_type()),
            cover_path: None,
            head_path: None,
        }
    }
}

impl LiveNode {
    /// The streams of the answer as the anchor record keeps them.
    pub fn nodes(&self) -> (r: Vec<Node>)
        ensures
            node_views(r@) == self@.nodes(),
    {
        let mut out: Vec<Node> = Vec::new();
        let mut i: usize = 0;
        while i < self.urls.len()
            invariant
                i <= self.urls.len(),
                out.len() == i,
                forall|j: int| 0 <= j < i ==> out[j]@ == self.urls[j]@.node(),
            decreases self.urls.len() - i,
        {
            let u = &self.urls[i];
            out.push(Node { format: u.format.name(), url: u.url.clone() });
            i += 1;
        }
        assert(node_views(out@) =~= self@.nodes());
        out
    }
}

impl AnchorInfo {
    /// Builds the anchor record from the answer to a lookup of the room
    /// `rid` on `platform`.
    pub fn from_node(platform: Platform, rid: &str, node: &LiveNode) -> (r: AnchorInfo)
        ensures
            r@ == node@.anchor_info(platform, rid@),
    {
        let show_type = if node.urls.len() == 0 {
            ShowType::Off
        } else {
            ShowType::On(SeamInfo { title: node.title.clone(), nodes: Some(node.nodes()) })
        };
        AnchorInfo {
            rid: rid.to_owned(),
            title: node.title.clone(),
            cover: node.cover.clone(),
            anchor: node.anchor.clone(),
            head: node.head.clone(),
            platform,
            show_type: Some(show_type),
            cover_path: None,
            head_path: None,
        }
    }
}

} // verus!
