//! The scheduler: what the engine does on each command, on each refresh
//! tick and on each result that comes back. It performs nothing itself; it
//! changes its state and says which actions are to be taken.

use vstd::prelude::*;
use crate::dispatch::{PoolView, SeamServer, lemma_burst_is_bounded};
use crate::error::{AssetError, LookupError, PersistenceError};
use crate::lookup::LiveNode;
use crate::models::{AnchorInfo, AnchorInfoView, AnchorKey, info_views};
use crate::platform::Platform;
use crate::store::{AnchorMgr, admit_living, marked_offline, upsert, upsert_all, without};

verus! {

/// A command to the engine.
#[derive(Debug, PartialEq, Eq)]
pub enum Msg {
    /// Track the room with this platform name and room identifier.
    Follow(String, String),
    /// Play the first of these stream addresses.
    Play(Vec<String>),
    /// Stop.
    Exit,
}

/// Something the engine wants done.
#[derive(Debug, PartialEq, Eq)]
pub enum Action {
    /// Look this room up, and report the answer.
    Lookup(Platform, String),
    /// Bring the two images of this anchor into the asset cache, and report
    /// where they lie.
    Resolve(AnchorInfo),
    /// Write the configured anchors to the saved configuration.
    Save(Vec<AnchorInfo>),
    /// Show these live anchors.
    Notify(Vec<AnchorInfo>),
    /// Start the player on this stream address.
    Play(String),
}

pub enum ActionView {
    Lookup(Platform, Seq<char>),
    Resolve(AnchorInfoView),
    Save(Seq<AnchorInfoView>),
    Notify(Seq<AnchorInfoView>),
    Play(Seq<char>),
}

impl View for Action {
    type V = ActionView;

    open spec fn view(&self) -> ActionView {
        match self {
            Action::Lookup(p, rid) => ActionView::Lookup(*p, rid@),
            Action::Resolve(info) => ActionView::Resolve(info@),
            Action::Save(v) => ActionView::Save(info_views(v@)),
            Action::Notify(v) => ActionView::Notify(info_views(v@)),
            Action::Play(url) => ActionView::Play(url@),
        }
    }
}

/// The views of a sequence of actions, in order.
pub open spec fn action_views(s: Seq<Action>) -> Seq<ActionView> {
    Seq::new(s.len(), |i: int| s[i]@)
}

/// The keys of a sequence of records, in order.
pub open spec fn keys_of(s: Seq<AnchorInfoView>) -> Seq<AnchorKey> {
    Seq::new(s.len(), |i: int| s[i].key())
}

/// One lookup for each key, in order.
pub open spec fn lookups(keys: Seq<AnchorKey>) -> Seq<ActionView> {
    Seq::new(keys.len(), |i: int| ActionView::Lookup(keys[i].0, keys[i].1))
}

/// The lookup that takes over a slot that has come free, if one waits.
pub open spec fn next_lookup(p: PoolView) -> Seq<ActionView> {
    match p.next_up() {
        Some(k) => seq![ActionView::Lookup(k.0, k.1)],
        None => Seq::empty(),
    }
}

/// What follows a merge into the store: the configured anchors are saved
/// and the live anchors are shown.
pub open spec fn after_merge(
    configured: Seq<AnchorInfoView>,
    living: Seq<AnchorInfoView>,
) -> Seq<ActionView> {
    seq![ActionView::Save(configured), ActionView::Notify(living)]
}

/// The engine's state.
pub struct Server {
    anchor_mgr: AnchorMgr,
    pool: SeamServer,
    running: bool,
}

impl Server {
    /// The anchor store.
    pub closed spec fn store(&self) -> AnchorMgr {
        self.anchor_mgr
    }

    /// The dispatcher of lookups.
    pub closed spec fn pool(&self) -> PoolView {
        self.pool@
    }

    /// No `Exit` was processed yet.
    pub closed spec fn running(&self) -> bool {
        self.running
    }

    /// The live anchors.
    pub open spec fn living(&self) -> Seq<AnchorInfoView> {
        self.store().living()
    }

    /// The configured anchors.
    pub open spec fn configured(&self) -> Seq<AnchorInfoView> {
        self.store().configured()
    }

    /// The store and the dispatcher are in order.
    pub open spec fn wf(&self) -> bool {
        self.store().wf() && self.pool().wf()
    }

    /// Nothing of `self` differs from `other`.
    pub open spec fn same_as(&self, other: &Server) -> bool {
        &&& self.living() == other.living()
        &&& self.configured() == other.configured()
        &&& self.pool() == other.pool()
        &&& self.running() == other.running()
    }

    /// An engine that tracks nothing yet and lets `limit` lookups run at a
    /// time.
    pub fn new(limit: usize) -> (r: Self)
        ensures
            r.wf(),
            r.running(),
            r.living() == Seq::<AnchorInfoView>::empty(),
            r.configured() == Seq::<AnchorInfoView>::empty(),
            r.pool() == (PoolView { limit: limit as nat, in_flight: 0, waiting: Seq::empty() }),
    {
        Server { anchor_mgr: AnchorMgr::new(), pool: SeamServer::new(limit), running: true }
    }

    /// Whether the engine still runs.
    pub fn is_running(&self) -> (r: bool)
        ensures
            r == self.running(),
    {
        self.running
    }

    /// How many lookups are in flight.
    pub fn in_flight(&self) -> (r: usize)
        ensures
            r == self.pool().in_flight,
    {
        self.pool.in_flight()
    }

    /// The live anchors, as they stand.
    pub fn get_all_living(&self) -> (r: Vec<AnchorInfo>)
        ensures
            info_views(r@) == self.living(),
    {
        self.anchor_mgr.get_all_living()
    }

    /// The configured anchors, as they stand.
    pub fn get_all_config(&self) -> (r: Vec<AnchorInfo>)
        ensures
            info_views(r@) == self.configured(),
    {
        self.anchor_mgr.get_all_config()
    }

    /// Takes what was read of the saved configuration into the store. A
    /// configuration that could not be read counts as no saved anchors.
    pub fn load_config(&mut self, read: Result<Vec<AnchorInfo>, PersistenceError>)
        requires
            old(self).wf(),
        ensures
            final(self).wf(),
            final(self).living() == old(self).living(),
            final(self).configured() == match read {
                Ok(anchors) => upsert_all(old(self).configured(), info_views(anchors@)),
                Err(_) => old(self).configured(),
            },
            final(self).pool() == old(self).pool(),
            final(self).running() == old(self).running(),
    {
        let _ = self.anchor_mgr.load_config(read);
    }

    fn merge_actions(&self) -> (r: Vec<Action>)
        ensures
            action_views(r@) == after_merge(self.configured(), self.living()),
    {
        let mut actions: Vec<Action> = Vec::new();
        actions.push(Action::Save(self.anchor_mgr.get_all_config()));
        actions.push(Action::Notify(self.anchor_mgr.get_all_living()));
        assert(action_views(actions@) =~= after_merge(self.configured(), self.living()));
        actions
    }

    /// Processes a command.
    ///
    /// After `Exit` nothing happens any more. Before it: `Exit` stops the
    /// engine; `Play` asks for the player on the first address, if there is
    /// one; `Follow` asks the dispatcher for a lookup of the room, which
    /// starts at once where a slot is free, and does nothing where the
    /// platform is none of those that can be followed.
    pub fn push_msg(&mut self, msg: Msg) -> (r: Vec<Action>)
        requires
            old(self).wf(),
        ensures
            final(self).wf(),
            final(self).living() == old(self).living(),
            final(self).configured() == old(self).configured(),
            !old(self).running() ==> final(self).same_as(old(self)) && r@.len() == 0,
            old(self).running() ==> match msg {
                Msg::Exit => {
                    &&& !final(self).running()
                    &&& final(self).pool() == old(self).pool()
                    &&& r@.len() == 0
                },
                Msg::Play(urls) => {
                    &&& final(self).same_as(old(self))
                    &&& action_views(r@) == if urls@.len() > 0 {
                        seq![ActionView::Play(urls@[0]@)]
                    } else {
                        Seq::empty()
                    }
                },
                Msg::Follow(name, rid) => {
                    &&& final(self).running()
                    &&& match Platform::parse_follow(name@) {
                        Some(p) => {
                            &&& final(self).pool() == old(self).pool().submit((p, rid@))
                            &&& action_views(r@) == if old(self).pool().has_free() {
                                seq![ActionView::Lookup(p, rid@)]
                            } else {
                                Seq::empty()
                            }
                        },
                        None => final(self).pool() == old(self).pool() && r@.len() == 0,
                    }
                },
            },
    {
        let mut actions: Vec<Action> = Vec::new();
        if !self.running {
            return actions;
        }
        match msg {
            Msg::Exit => {
                self.running = false;
            },
            Msg::Play(urls) => {
                if urls.len() > 0 {
                    actions.push(Action::Play(urls[0].clone()));
                    assert(action_views(actions@) =~= seq![ActionView::Play(urls@[0]@)]);
                } else {
                    assert(action_views(actions@) =~= Seq::<ActionView>::empty());
                }
            },
            Msg::Follow(name, rid) => {
                match Platform::from_follow(name.as_str()) {
                    Some(p) => {
                        match self.pool.submit(p, rid) {
                            Some(t) => {
                                actions.push(Action::Lookup(t.0, t.1));
                                assert(action_views(actions@) =~= seq![
                                    ActionView::Lookup(p, rid@),
                                ]);
                            },
                            None => {
                                assert(action_views(actions@) =~= Seq::<ActionView>::empty());
                            },
                        }
                    },
                    None => {},
                }
            },
        }
        actions
    }

    /// Processes a refresh tick: asks the dispatcher for a lookup of every
    /// configured anchor, in order. Those for which a slot is free start at
    /// once; the others wait. After `Exit` nothing happens.
    pub fn on_tick(&mut self) -> (r: Vec<Action>)
        requires
            old(self).wf(),
        ensures
            final(self).wf(),
            final(self).living() == old(self).living(),
            final(self).configured() == old(self).configured(),
            final(self).running() == old(self).running(),
            !old(self).running() ==> final(self).same_as(old(self)) && r@.len() == 0,
            old(self).running() ==> {
                let keys = keys_of(old(self).configured());
                &&& final(self).pool() == old(self).pool().submit_all(keys)
                &&& action_views(r@) == lookups(old(self).pool().started(keys))
                &&& final(self).pool().in_flight <= final(self).pool().limit
            },
    {
        let mut actions: Vec<Action> = Vec::new();
        if !self.running {
            return actions;
        }
        let all = self.anchor_mgr.get_all_config();
        let ghost keys = keys_of(self.configured());
        let ghost pool0 = self.pool();
        let mut i: usize = 0;
        assert(keys.take(0) =~= Seq::<AnchorKey>::empty());
        assert(action_views(actions@) =~= lookups(pool0.started(keys.take(0))));
        while i < all.len()
            invariant
                i <= all.len(),
                info_views(all@) == self.configured(),
                keys == keys_of(self.configured()),
                self.wf(),
                self.running(),
                self.living() == old(self).living(),
                self.configured() == old(self).configured(),
                self.pool() == pool0.submit_all(keys.take(i as int)),
                action_views(actions@) == lookups(pool0.started(keys.take(i as int))),
            decreases all.len() - i,
        {
            let ghost done = action_views(actions@);
            proof {
                let t = keys.take(i + 1);
                assert(t.drop_last() =~= keys.take(i as int));
                assert(info_views(all@)[i as int] == all[i as int]@);
                assert(t.last() == all[i as int]@.key());
            }
            let ghost before = pool0.started(keys.take(i as int));
            let ghost k = keys.take(i + 1).last();
            match self.pool.submit(all[i].platform, all[i].rid.clone()) {
                Some(t) => {
                    actions.push(Action::Lookup(t.0, t.1));
                    assert(pool0.started(keys.take(i + 1)) == before.push(k));
                    assert(action_views(actions@) =~= done.push(ActionView::Lookup(k.0, k.1)));
                    assert(lookups(before.push(k)) =~= lookups(before).push(
                        ActionView::Lookup(k.0, k.1),
                    ));
                },
                None => {
                    assert(pool0.started(keys.take(i + 1)) == before);
                },
            }
            i += 1;
        }
        proof {
            assert(keys.take(all.len() as int) =~= keys);
            lemma_burst_is_bounded(pool0, keys);
        }
        actions
    }

    /// Processes the answer of a lookup of the room `rid` on `platform`.
    ///
    /// The lookup's slot goes to the first lookup in line, which starts.
    /// The anchor is that of the room that was asked for, whatever room the
    /// answer names. An answer with streams asks for the images of the
    /// anchor; the store stays as it is until they are there. An answer
    /// without streams, or
    /// the platform's word that the room is not live, marks the anchor as
    /// not live, takes it from the live anchors, and has the store saved
    /// and the live anchors shown. A failed lookup changes nothing in the
    /// store. After `Exit` nothing happens.
    pub fn on_lookup(&mut self, platform: Platform, rid: &str, answer: Result<LiveNode, LookupError>)
        -> (r: Vec<Action>)
        requires
            old(self).wf(),
        ensures
            final(self).wf(),
            final(self).running() == old(self).running(),
            !old(self).running() ==> final(self).same_as(old(self)) && r@.len() == 0,
            old(self).running() ==> {
                let next = next_lookup(old(self).pool());
                &&& final(self).pool() == old(self).pool().complete()
                &&& match answer {
                    Ok(node) => {
                        let info = node@.anchor_info(platform, rid@);
                        if info.is_live() {
                            &&& final(self).living() == old(self).living()
                            &&& final(self).configured() == old(self).configured()
                            &&& action_views(r@) == next + seq![ActionView::Resolve(info)]
                        } else {
                            &&& final(self).configured() == marked_offline(
                                old(self).configured(),
                                info.key(),
                            )
                            &&& final(self).living() == without(old(self).living(), info.key())
                            &&& action_views(r@) == next + after_merge(
                                final(self).configured(),
                                final(self).living(),
                            )
                        }
                    },
                    Err(LookupError::NotLive) => {
                        &&& final(self).configured() == marked_offline(
                            old(self).configured(),
                            (platform, rid@),
                        )
                        &&& final(self).living() == without(old(self).living(), (platform, rid@))
                        &&& action_views(r@) == next + after_merge(
                            final(self).configured(),
                            final(self).living(),
                        )
                    },
                    Err(LookupError::Failed(_)) => {
                        &&& final(self).living() == old(self).living()
                        &&& final(self).configured() == old(self).configured()
                        &&& action_views(r@) == next
                    },
                }
            },
    {
        let mut actions: Vec<Action> = Vec::new();
        if !self.running {
            return actions;
        }
        let ghost next = next_lookup(self.pool());
        match self.pool.complete() {
            Some(t) => {
                actions.push(Action::Lookup(t.0, t.1));
            },
            None => {},
        }
        assert(action_views(actions@) =~= next);
        match answer {
            Ok(node) => {
                let info = AnchorInfo::from_node(platform, rid, &node);
                if info.is_live() {
                    let ghost v = info@;
                    actions.push(Action::Resolve(info));
                    assert(action_views(actions@) =~= next + seq![ActionView::Resolve(v)]);
                } else {
                    self.anchor_mgr.set_offline(platform, rid);
                    let mut more = self.merge_actions();
                    let ghost a = action_views(actions@);
                    let ghost b = action_views(more@);
                    actions.append(&mut more);
                    assert(action_views(actions@) =~= a + b);
                }
            },
            Err(LookupError::NotLive) => {
                self.anchor_mgr.set_offline(platform, rid);
                let mut more = self.merge_actions();
                let ghost a = action_views(actions@);
                let ghost b = action_views(more@);
                actions.append(&mut more);
                assert(action_views(actions@) =~= a + b);
            },
            Err(LookupError::Failed(_)) => {},
        }
        actions
    }

    /// Processes the outcome of bringing an anchor's two images into the
    /// asset cache.
    ///
    /// Where both are there, the anchor is admitted to the store, and the
    /// store is saved and the live anchors are shown. Where one failed, the
    /// anchor is not admitted and nothing changes. After `Exit` nothing
    /// happens.
    pub fn on_assets(
        &mut self,
        info: AnchorInfo,
        cover: Result<String, AssetError>,
        head: Result<String, AssetError>,
    ) -> (r: Vec<Action>)
        requires
            old(self).wf(),
        ensures
            final(self).wf(),
            final(self).running() == old(self).running(),
            final(self).pool() == old(self).pool(),
            !old(self).running() ==> final(self).same_as(old(self)) && r@.len() == 0,
            old(self).running() ==> match (cover, head) {
                (Ok(c), Ok(h)) => {
                    let admitted = info@.with_assets(c@, h@);
                    &&& final(self).configured() == upsert(old(self).configured(), admitted)
                    &&& final(self).living() == admit_living(old(self).living(), admitted)
                    &&& action_views(r@) == after_merge(
                        final(self).configured(),
                        final(self).living(),
                    )
                },
                _ => final(self).same_as(old(self)) && r@.len() == 0,
            },
    {
        if !self.running {
            return Vec::new();
        }
        match self.anchor_mgr.add_living(info, cover, head) {
            Ok(_) => self.merge_actions(),
            Err(_) => Vec::new(),
        }
    }
}

} // verus!
