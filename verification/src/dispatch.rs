//! Admission control for lookups: at most a fixed number are in flight, the
//! others wait in line.

use vstd::prelude::*;
use crate::models::AnchorKey;
use crate::platform::Platform;

verus! {

/// The state of the dispatcher: its limit, how many lookups are in flight,
/// and the rooms whose lookups wait for a slot, first come first.
pub struct PoolView {
    pub limit: nat,
    pub in_flight: nat,
    pub waiting: Seq<AnchorKey>,
}

impl PoolView {
    /// Never more lookups in flight than the limit, and none waits while a
    /// slot is free.
    pub open spec fn wf(self) -> bool {
        &&& self.in_flight <= self.limit
        &&& self.waiting.len() > 0 ==> self.in_flight == self.limit
    }

    /// A slot is free.
    pub open spec fn has_free(self) -> bool {
        self.in_flight < self.limit
    }

    /// After a lookup was asked for: it takes a free slot, or waits at the
    /// end of the line.
    pub open spec fn submit(self, task: AnchorKey) -> PoolView {
        if self.has_free() {
            PoolView { in_flight: self.in_flight + 1, ..self }
        } else {
            PoolView { waiting: self.waiting.push(task), ..self }
        }
    }

    /// The lookup that takes over the slot of one that has ended: the
    /// first in line.
    pub open spec fn next_up(self) -> Option<AnchorKey> {
        if self.in_flight > 0 && self.waiting.len() > 0 {
            Some(self.waiting[0])
        } else {
            None
        }
    }

    /// After a lookup has ended: its slot goes to the first in line, or is
    /// free again. Where none was in flight, nothing changes.
    pub open spec fn complete(self) -> PoolView {
        if self.in_flight == 0 {
            self
        } else if self.waiting.len() > 0 {
            PoolView { waiting: self.waiting.drop_first(), ..self }
        } else {
            PoolView { in_flight: (self.in_flight - 1) as nat, ..self }
        }
    }

    /// After lookups for all of `tasks` were asked for, first to last.
    pub open spec fn submit_all(self, tasks: Seq<AnchorKey>) -> PoolView
        decreases tasks.len(),
    {
        if tasks.len() == 0 {
            self
        } else {
            self.submit_all(tasks.drop_last()).submit(tasks.last())
        }
    }

    /// Those of `tasks` whose lookups start at once when all are asked
    /// for, first to last.
    pub open spec fn started(self, tasks: Seq<AnchorKey>) -> Seq<AnchorKey>
        decreases tasks.len(),
    {
        if tasks.len() == 0 {
            Seq::empty()
        } else if self.submit_all(tasks.drop_last()).has_free() {
            self.started(tasks.drop_last()).push(tasks.last())
        } else {
            self.started(tasks.drop_last())
        }
    }
}

/// However many lookups are asked for at once, no more than the limit are
/// in flight afterwards: those that start fill the free slots, and all the
/// others wait.
pub proof fn lemma_burst_is_bounded(p: PoolView, tasks: Seq<AnchorKey>)
    requires
        p.wf(),
    ensures
        p.submit_all(tasks).wf(),
        p.submit_all(tasks).limit == p.limit,
        p.submit_all(tasks).in_flight == p.in_flight + p.started(tasks).len(),
        p.submit_all(tasks).in_flight <= p.limit,
        p.submit_all(tasks).waiting.len() + p.started(tasks).len() == p.waiting.len()
            + tasks.len(),
    decreases tasks.len(),
{
    if tasks.len() > 0 {
        lemma_burst_is_bounded(p, tasks.drop_last());
    }
}

/// A lookup that ends never raises the number in flight, and keeps the
/// dispatcher in order.
pub proof fn lemma_complete_keeps_bound(p: PoolView)
    requires
        p.wf(),
    ensures
        p.complete().wf(),
        p.complete().limit == p.limit,
        p.complete().in_flight <= p.in_flight,
{
}

/// The views of a line of waiting lookups.
pub open spec fn task_views(s: Seq<(Platform, String)>) -> Seq<AnchorKey> {
    Seq::new(s.len(), |i: int| (s[i].0, s[i].1@))
}

/// The dispatcher of lookups.
pub struct SeamServer {
    limit: usize,
    in_flight: usize,
    waiting: Vec<(Platform, String)>,
}

impl View for SeamServer {
    type V = PoolView;

    closed spec fn view(&self) -> PoolView {
        PoolView {
            limit: self.limit as nat,
            in_flight: self.in_flight as nat,
            waiting: task_views(self.waiting@),
        }
    }
}

impl SeamServer {
    /// A dispatcher that lets `limit` lookups run at a time.
    pub fn new(limit: usize) -> (r: Self)
        ensures
            r@.wf(),
            r@ == (PoolView { limit: limit as nat, in_flight: 0, waiting: Seq::empty() }),
    {
        let r = SeamServer { limit, in_flight: 0, waiting: Vec::new() };
        assert(task_views(r.waiting@) =~= Seq::<AnchorKey>::empty());
        r
    }

    /// How many lookups are in flight.
    pub fn in_flight(&self) -> (r: usize)
        ensures
            r == self@.in_flight,
    {
        self.in_flight
    }

    /// How many lookups wait for a slot.
    pub fn waiting(&self) -> (r: usize)
        ensures
            r == self@.waiting.len(),
    {
        self.waiting.len()
    }

    /// Asks for a lookup of a room. It comes back where a slot is free and
    /// the lookup is to start at once; otherwise it waits in line.
    pub fn submit(&mut self, platform: Platform, rid: String) -> (r: Option<(Platform, String)>)
        requires
            old(self)@.wf(),
        ensures
            final(self)@.wf(),
            final(self)@ == old(self)@.submit((platform, rid@)),
            match r {
                Some(t) => old(self)@.has_free() && t.0 == platform && t.1@ == rid@,
                None => !old(self)@.has_free(),
            },
    {
        if self.in_flight < self.limit {
            self.in_flight = self.in_flight + 1;
            Some((platform, rid))
        } else {
            let ghost before = task_views(self.waiting@);
            self.waiting.push((platform, rid));
            assert(task_views(self.waiting@) =~= before.push((platform, rid@)));
            None
        }
    }

    /// Reports that a lookup has ended. The lookup that takes over its slot
    /// comes back, if one was waiting.
    pub fn complete(&mut self) -> (r: Option<(Platform, String)>)
        requires
            old(self)@.wf(),
        ensures
            final(self)@.wf(),
            final(self)@ == old(self)@.complete(),
            match r {
                Some(t) => old(self)@.next_up() == Some((t.0, t.1@)),
                None => old(self)@.next_up() is None,
            },
    {
        if self.in_flight == 0 {
            None
        } else if self.waiting.len() > 0 {
            let ghost before = task_views(self.waiting@);
            let next = self.waiting.remove(0);
            assert(task_views(self.waiting@) =~= before.drop_first());
            assert(before[0] == (next.0, next.1@));
            Some(next)
        } else {
            self.in_flight = self.in_flight - 1;
            None
        }
    }
}

} // verus!
