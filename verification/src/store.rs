//! The anchor store: the configured anchors and, among them, those that
//! are live. Each anchor occurs at most once, found by its key.

use vstd::prelude::*;
use crate::error::{AssetError, PersistenceError};
use crate::models::{AnchorInfo, AnchorInfoView, AnchorKey, info_views};
use crate::platform::Platform;

verus! {

/// Some record of `s` has the key `k`.
pub open spec fn has_key(s: Seq<AnchorInfoView>, k: AnchorKey) -> bool {
    exists|i: int| 0 <= i < s.len() && #[trigger] s[i].key() == k
}

/// A place in `s` where a record with the key `k` lies (there is at most
/// one where the keys are distinct).
pub open spec fn index_of(s: Seq<AnchorInfoView>, k: AnchorKey) -> int {
    choose|i: int| 0 <= i < s.len() && #[trigger] s[i].key() == k
}

/// The record with the key `k`, if there is one.
pub open spec fn lookup(s: Seq<AnchorInfoView>, k: AnchorKey) -> Option<AnchorInfoView> {
    if has_key(s, k) {
        Some(s[index_of(s, k)])
    } else {
        None
    }
}

/// No two records of `s` have the same key.
pub open spec fn distinct_keys(s: Seq<AnchorInfoView>) -> bool {
    forall|i: int, j: int|
        0 <= i < j < s.len() ==> #[trigger] s[i].key() != #[trigger] s[j].key()
}

/// `s` with `info` in the place of the record that has its key, or at the
/// end where there is none.
pub open spec fn upsert(s: Seq<AnchorInfoView>, info: AnchorInfoView) -> Seq<AnchorInfoView> {
    if has_key(s, info.key()) {
        s.update(index_of(s, info.key()), info)
    } else {
        s.push(info)
    }
}

/// `s` without the record that has the key `k`.
pub open spec fn without(s: Seq<AnchorInfoView>, k: AnchorKey) -> Seq<AnchorInfoView> {
    if has_key(s, k) {
        s.remove(index_of(s, k))
    } else {
        s
    }
}

/// `s` after each record of `items` was put in, first to last.
pub open spec fn upsert_all(s: Seq<AnchorInfoView>, items: Seq<AnchorInfoView>) -> Seq<
    AnchorInfoView,
>
    decreases items.len(),
{
    if items.len() == 0 {
        s
    } else {
        upsert(upsert_all(s, items.drop_last()), items.last())
    }
}

/// `s` with the record of key `k` marked as not live; where there is no
/// such record, a bare one is added.
pub open spec fn marked_offline(s: Seq<AnchorInfoView>, k: AnchorKey) -> Seq<AnchorInfoView> {
    if has_key(s, k) {
        s.update(index_of(s, k), s[index_of(s, k)].offline())
    } else {
        s.push(AnchorInfoView::bare(k.0, k.1))
    }
}

/// Where keys are distinct, a key is found at one place only.
pub proof fn lemma_index_unique(s: Seq<AnchorInfoView>, k: AnchorKey, i: int)
    requires
        distinct_keys(s),
        0 <= i < s.len(),
        s[i].key() == k,
    ensures
        has_key(s, k),
        index_of(s, k) == i,
{
    let j = index_of(s, k);
    assert(0 <= j < s.len() && s[j].key() == k);
    if j < i {
        assert(s[j].key() != s[i].key());
    } else if i < j {
        assert(s[i].key() != s[j].key());
    }
}

/// Putting a record in keeps the keys distinct and keeps every key that
/// was there.
pub proof fn lemma_upsert(s: Seq<AnchorInfoView>, info: AnchorInfoView)
    requires
        distinct_keys(s),
    ensures
        distinct_keys(upsert(s, info)),
        has_key(upsert(s, info), info.key()),
        lookup(upsert(s, info), info.key()) == Some(info),
        forall|k: AnchorKey| has_key(s, k) ==> has_key(upsert(s, info), k),
        forall|k: AnchorKey| k != info.key() ==> lookup(upsert(s, info), k) == lookup(s, k),
{
    let t = upsert(s, info);
    let k0 = info.key();
    let at = if has_key(s, k0) { index_of(s, k0) } else { s.len() as int };
    assert(0 <= at < t.len() && t[at] == info);
    assert(t.len() == if has_key(s, k0) { s.len() } else { s.len() + 1 });
    assert forall|i: int| 0 <= i < t.len() && i != at implies t[i] == s[i] && #[trigger] t[i].key()
        != k0 by {
        if has_key(s, k0) {
            if i < at {
                assert(s[i].key() != s[at].key());
            } else {
                assert(s[at].key() != s[i].key());
            }
        }
    }
    assert forall|i: int, j: int| 0 <= i < j < t.len() implies #[trigger] t[i].key()
        != #[trigger] t[j].key() by {
        if i != at && j != at {
            assert(s[i].key() != s[j].key());
        }
    }
    assert(t[at].key() == k0);
    lemma_index_unique(t, k0, at);
    assert forall|k: AnchorKey| has_key(s, k) implies has_key(t, k) by {
        let i = index_of(s, k);
        if i == at {
            assert(t[at].key() == k);
        } else {
            assert(t[i].key() == k);
        }
    }
    assert forall|k: AnchorKey| k != k0 implies lookup(t, k) == lookup(s, k) by {
        if has_key(s, k) {
            let i = index_of(s, k);
            assert(i != at);
            assert(t[i].key() == k);
            lemma_index_unique(t, k, i);
        } else if has_key(t, k) {
            let i = index_of(t, k);
            assert(i != at);
            assert(s[i].key() == k);
        }
    }
}

/// Taking a key out keeps the keys distinct, leaves no record with that
/// key and keeps every other record.
pub proof fn lemma_without(s: Seq<AnchorInfoView>, k: AnchorKey)
    requires
        distinct_keys(s),
    ensures
        distinct_keys(without(s, k)),
        !has_key(without(s, k), k),
        forall|k2: AnchorKey| k2 != k ==> lookup(without(s, k), k2) == lookup(s, k2),
        forall|k2: AnchorKey| has_key(without(s, k), k2) ==> has_key(s, k2),
{
    let t = without(s, k);
    if has_key(s, k) {
        let at = index_of(s, k);
        assert forall|i: int| 0 <= i < t.len() implies #[trigger] t[i] == s[if i < at {
            i
        } else {
            i + 1
        }] by {}
        assert forall|i: int, j: int| 0 <= i < j < t.len() implies #[trigger] t[i].key()
            != #[trigger] t[j].key() by {
            let a = if i < at { i } else { i + 1 };
            let b = if j < at { j } else { j + 1 };
            assert(t[i] == s[a] && t[j] == s[b]);
            assert(s[a].key() != s[b].key());
        }
        if has_key(t, k) {
            let i = index_of(t, k);
            let a = if i < at { i } else { i + 1 };
            assert(t[i] == s[a]);
            if a < at {
                assert(s[a].key() != s[at].key());
            } else {
                assert(s[at].key() != s[a].key());
            }
        }
        assert forall|k2: AnchorKey| has_key(t, k2) implies has_key(s, k2) by {
            let i = index_of(t, k2);
            let a = if i < at { i } else { i + 1 };
            assert(t[i] == s[a]);
            assert(s[a].key() == k2);
        }
        assert forall|k2: AnchorKey| k2 != k implies lookup(t, k2) == lookup(s, k2) by {
            if has_key(s, k2) {
                let a = index_of(s, k2);
                assert(a != at);
                let i = if a < at { a } else { a - 1 };
                assert(t[i] == s[a]);
                assert(t[i].key() == k2);
                lemma_index_unique(t, k2, i);
            }
        }
    }
}

/// Taking a key out twice is taking it out once.
pub proof fn lemma_without_idempotent(s: Seq<AnchorInfoView>, k: AnchorKey)
    requires
        distinct_keys(s),
    ensures
        without(without(s, k), k) == without(s, k),
{
    lemma_without(s, k);
}

/// Marking a key as not live keeps the keys distinct and keeps every key.
pub proof fn lemma_marked_offline(s: Seq<AnchorInfoView>, k: AnchorKey)
    requires
        distinct_keys(s),
    ensures
        distinct_keys(marked_offline(s, k)),
        has_key(marked_offline(s, k), k),
        forall|k2: AnchorKey| has_key(s, k2) ==> has_key(marked_offline(s, k), k2),
        marked_offline(s, k) == upsert(
            s,
            if has_key(s, k) {
                s[index_of(s, k)].offline()
            } else {
                AnchorInfoView::bare(k.0, k.1)
            },
        ),
{
    let info = if has_key(s, k) {
        s[index_of(s, k)].offline()
    } else {
        AnchorInfoView::bare(k.0, k.1)
    };
    assert(info.key() == k);
    lemma_upsert(s, info);
}

/// The live list after a record was admitted: the record is put in where
/// it is on the air, and its key is taken out where it is not.
pub open spec fn admit_living(live: Seq<AnchorInfoView>, info: AnchorInfoView) -> Seq<
    AnchorInfoView,
> {
    if info.is_live() {
        upsert(live, info)
    } else {
        without(live, info.key())
    }
}

/// The live list after each record of `items` was admitted, first to last.
pub open spec fn admit_all_living(live: Seq<AnchorInfoView>, items: Seq<AnchorInfoView>) -> Seq<
    AnchorInfoView,
>
    decreases items.len(),
{
    if items.len() == 0 {
        live
    } else {
        admit_living(admit_all_living(live, items.drop_last()), items.last())
    }
}

/// At most one record of `s` has the key `k`.
pub open spec fn at_most_one(s: Seq<AnchorInfoView>, k: AnchorKey) -> bool {
    forall|i: int, j: int|
        0 <= i < s.len() && 0 <= j < s.len() && #[trigger] s[i].key() == k && #[trigger] s[j].key()
            == k ==> i == j
}

/// However many records are admitted, and whatever their keys are (all the
/// same, for one), the configured list and the live list each hold at most
/// one record for any key.
pub proof fn lemma_one_entry_per_key(
    configured: Seq<AnchorInfoView>,
    living: Seq<AnchorInfoView>,
    items: Seq<AnchorInfoView>,
    k: AnchorKey,
)
    requires
        distinct_keys(configured),
        distinct_keys(living),
    ensures
        distinct_keys(upsert_all(configured, items)),
        distinct_keys(admit_all_living(living, items)),
        at_most_one(upsert_all(configured, items), k),
        at_most_one(admit_all_living(living, items), k),
    decreases items.len(),
{
    if items.len() > 0 {
        lemma_one_entry_per_key(configured, living, items.drop_last(), k);
        lemma_upsert(upsert_all(configured, items.drop_last()), items.last());
        lemma_upsert(admit_all_living(living, items.drop_last()), items.last());
        lemma_without(admit_all_living(living, items.drop_last()), items.last().key());
    }
    let c = upsert_all(configured, items);
    let l = admit_all_living(living, items);
    assert forall|i: int, j: int|
        0 <= i < c.len() && 0 <= j < c.len() && #[trigger] c[i].key() == k && #[trigger] c[j].key()
            == k implies i == j by {
        if i < j {
            assert(c[i].key() != c[j].key());
        } else if j < i {
            assert(c[j].key() != c[i].key());
        }
    }
    assert forall|i: int, j: int|
        0 <= i < l.len() && 0 <= j < l.len() && #[trigger] l[i].key() == k && #[trigger] l[j].key()
            == k implies i == j by {
        if i < j {
            assert(l[i].key() != l[j].key());
        } else if j < i {
            assert(l[j].key() != l[i].key());
        }
    }
}

/// Admitting records that all have the key `k` leaves the record admitted
/// last under `k` in the configured list, and makes that list longer by one
/// at most.
pub proof fn lemma_same_key_admissions(
    configured: Seq<AnchorInfoView>,
    items: Seq<AnchorInfoView>,
    k: AnchorKey,
)
    requires
        distinct_keys(configured),
        items.len() > 0,
        forall|i: int| 0 <= i < items.len() ==> (#[trigger] items[i]).key() == k,
    ensures
        lookup(upsert_all(configured, items), k) == Some(items.last()),
        upsert_all(configured, items).len() == configured.len() + if has_key(configured, k) {
            0int
        } else {
            1int
        },
    decreases items.len(),
{
    let init = items.drop_last();
    lemma_one_entry_per_key(configured, Seq::empty(), init, k);
    lemma_upsert(upsert_all(configured, init), items.last());
    if init.len() > 0 {
        assert forall|i: int| 0 <= i < init.len() implies (#[trigger] init[i]).key() == k by {
            assert(init[i] == items[i]);
        }
        lemma_same_key_admissions(configured, init, k);
        assert(has_key(upsert_all(configured, init), k));
    }
}

/// The place of the record with the given key in `v`, if there is one.
fn find(v: &Vec<AnchorInfo>, platform: Platform, rid: &String) -> (r: Option<usize>)
    ensures
        match r {
            Some(i) => i < v.len() && v[i as int]@.key() == (platform, rid@),
            None => !has_key(info_views(v@), (platform, rid@)),
        },
{
    let mut i: usize = 0;
    while i < v.len()
        invariant
            i <= v.len(),
            forall|j: int| 0 <= j < i ==> v[j]@.key() != (platform, rid@),
        decreases v.len() - i,
    {
        if v[i].platform == platform && v[i].rid == *rid {
            return Some(i);
        }
        i += 1;
    }
    assert forall|j: int| 0 <= j < info_views(v@).len() implies #[trigger] info_views(
        v@,
    )[j].key() != (platform, rid@) by {}
    None
}

/// Puts `info` into `v` and hands back the record it replaced.
fn put(v: &mut Vec<AnchorInfo>, info: AnchorInfo) -> (r: Option<AnchorInfo>)
    requires
        distinct_keys(info_views(old(v)@)),
    ensures
        info_views(final(v)@) == upsert(info_views(old(v)@), info@),
        match r {
            Some(prev) => lookup(info_views(old(v)@), info@.key()) == Some(prev@),
            None => lookup(info_views(old(v)@), info@.key()) is None,
        },
{
    let ghost before = info_views(v@);
    match find(v, info.platform, &info.rid) {
        Some(i) => {
            proof {
                assert(before[i as int].key() == info@.key());
                lemma_index_unique(before, info@.key(), i as int);
            }
            let prev = v[i].clone();
            v.set(i, info);
            assert(info_views(v@) =~= upsert(before, info@));
            Some(prev)
        },
        None => {
            v.push(info);
            assert(info_views(v@) =~= upsert(before, info@));
            None
        },
    }
}

/// Takes the record with the given key out of `v` and hands it back.
fn take_out(v: &mut Vec<AnchorInfo>, platform: Platform, rid: &String) -> (r: Option<AnchorInfo>)
    requires
        distinct_keys(info_views(old(v)@)),
    ensures
        info_views(final(v)@) == without(info_views(old(v)@), (platform, rid@)),
        match r {
            Some(prev) => lookup(info_views(old(v)@), (platform, rid@)) == Some(prev@),
            None => lookup(info_views(old(v)@), (platform, rid@)) is None,
        },
{
    let ghost before = info_views(v@);
    match find(v, platform, rid) {
        Some(i) => {
            proof {
                assert(before[i as int].key() == (platform, rid@));
                lemma_index_unique(before, (platform, rid@), i as int);
            }
            let prev = v.remove(i);
            assert(info_views(v@) =~= without(before, (platform, rid@)));
            Some(prev)
        },
        None => None,
    }
}

/// Copies a list of records, keeping their order.
fn clone_infos(v: &Vec<AnchorInfo>) -> (r: Vec<AnchorInfo>)
    ensures
        info_views(r@) == info_views(v@),
{
    let mut out: Vec<AnchorInfo> = Vec::new();
    let mut i: usize = 0;
    while i < v.len()
        invariant
            i <= v.len(),
            out.len() == i,
            forall|j: int| 0 <= j < i ==> out[j]@ == v[j]@,
        decreases v.len() - i,
    {
        out.push(v[i].clone());
        i += 1;
    }
    assert(info_views(out@) =~= info_views(v@));
    out
}

/// The anchor store.
pub struct AnchorMgr {
    /// The anchors that are live.
    anchor_map: Vec<AnchorInfo>,
    /// The anchors the user wants tracked.
    config_map: Vec<AnchorInfo>,
}

impl AnchorMgr {
    /// The live anchors, in the order in which they are handed out.
    pub closed spec fn living(&self) -> Seq<AnchorInfoView> {
        info_views(self.anchor_map@)
    }

    /// The configured anchors, in the order in which they are handed out.
    pub closed spec fn configured(&self) -> Seq<AnchorInfoView> {
        info_views(self.config_map@)
    }

    /// The store is in order: no key occurs twice in either list, and every
    /// live anchor is on the air, has both images cached and is configured.
    pub open spec fn wf(&self) -> bool {
        &&& distinct_keys(self.living())
        &&& distinct_keys(self.configured())
        &&& forall|i: int|
            0 <= i < self.living().len() ==> {
                &&& (#[trigger] self.living()[i]).is_live()
                &&& self.living()[i].has_assets()
                &&& has_key(self.configured(), self.living()[i].key())
            }
    }

    pub fn new() -> (r: Self)
        ensures
            r.wf(),
            r.living() == Seq::<AnchorInfoView>::empty(),
            r.configured() == Seq::<AnchorInfoView>::empty(),
    {
        let r = AnchorMgr { anchor_map: Vec::new(), config_map: Vec::new() };
        assert(r.living() =~= Seq::<AnchorInfoView>::empty());
        assert(r.configured() =~= Seq::<AnchorInfoView>::empty());
        r
    }

    /// Takes what was read of the saved configuration into the configured
    /// list, first to last. A failed read comes back as it is and changes
    /// nothing.
    pub fn load_config(&mut self, read: Result<Vec<AnchorInfo>, PersistenceError>) -> (r: Result<
        (),
        PersistenceError,
    >)
        requires
            old(self).wf(),
        ensures
            final(self).wf(),
            final(self).living() == old(self).living(),
            match read {
                Ok(anchors) => {
                    &&& r is Ok
                    &&& final(self).configured() == upsert_all(
                        old(self).configured(),
                        info_views(anchors@),
                    )
                },
                Err(e) => {
                    &&& r == Err::<(), PersistenceError>(e)
                    &&& final(self).configured() == old(self).configured()
                },
            },
    {
        let anchors = match read {
            Ok(v) => v,
            Err(e) => {
                return Err(e);
            },
        };
        let ghost items = info_views(anchors@);
        let ghost start = self.configured();
        let mut i: usize = 0;
        assert(items.take(0) =~= Seq::<AnchorInfoView>::empty());
        while i < anchors.len()
            invariant
                i <= anchors.len(),
                items == info_views(anchors@),
                self.wf(),
                self.living() == old(self).living(),
                self.configured() == upsert_all(start, items.take(i as int)),
            decreases anchors.len() - i,
        {
            let ghost before = self.configured();
            let info = anchors[i].clone();
            proof {
                lemma_upsert(before, info@);
                assert(items.take(i + 1).drop_last() =~= items.take(i as int));
                assert(items.take(i + 1).last() == info@);
            }
            let _ = put(&mut self.config_map, info);
            i += 1;
        }
        assert(items.take(anchors.len() as int) =~= items);
        Ok(())
    }

    /// Admits a looked-up anchor once its two images were resolved.
    ///
    /// Where an image failed, nothing changes and that error comes back
    /// (the cover's first). Otherwise the record, with both local paths, is
    /// put into the configured list; it is put into the live list where it
    /// is on the air and is taken out of it where it is not. The record
    /// that the live list held for the key comes back: `None` says that
    /// the anchor was not live before.
    pub fn add_living(
        &mut self,
        anchor: AnchorInfo,
        cover: Result<String, AssetError>,
        head: Result<String, AssetError>,
    ) -> (r: Result<Option<AnchorInfo>, AssetError>)
        requires
            old(self).wf(),
        ensures
            final(self).wf(),
            match (cover, head) {
                (Ok(c), Ok(h)) => {
                    let admitted = anchor@.with_assets(c@, h@);
                    &&& final(self).configured() == upsert(old(self).configured(), admitted)
                    &&& final(self).living() == admit_living(old(self).living(), admitted)
                    &&& match r {
                        Ok(Some(prev)) => lookup(old(self).living(), admitted.key()) == Some(
                            prev@,
                        ),
                        Ok(None) => lookup(old(self).living(), admitted.key()) is None,
                        Err(_) => false,
                    }
                },
                (Err(e), _) => {
                    &&& r == Err::<Option<AnchorInfo>, AssetError>(e)
                    &&& final(self).configured() == old(self).configured()
                    &&& final(self).living() == old(self).living()
                },
                (Ok(_), Err(e)) => {
                    &&& r == Err::<Option<AnchorInfo>, AssetError>(e)
                    &&& final(self).configured() == old(self).configured()
                    &&& final(self).living() == old(self).living()
                },
            },
    {
        let cover_path = match cover {
            Ok(p) => p,
            Err(e) => {
                return Err(e);
            },
        };
        let head_path = match head {
            Ok(p) => p,
            Err(e) => {
                return Err(e);
            },
        };
        let mut anchor = anchor;
        anchor.cover_path = Some(cover_path);
        anchor.head_path = Some(head_path);
        let ghost admitted = anchor@;
        let ghost live0 = self.living();
        let ghost cfg0 = self.configured();
        proof {
            lemma_upsert(cfg0, admitted);
            lemma_upsert(live0, admitted);
            lemma_without(live0, admitted.key());
        }
        let prev = if anchor.is_live() {
            let prev = put(&mut self.anchor_map, anchor.clone());
            proof {
                let live1 = self.living();
                assert forall|i: int| 0 <= i < live1.len() implies {
                    &&& (#[trigger] live1[i]).is_live()
                    &&& live1[i].has_assets()
                    &&& has_key(upsert(cfg0, admitted), live1[i].key())
                } by {
                    if has_key(live0, admitted.key()) {
                        let at = index_of(live0, admitted.key());
                        if i != at {
                            assert(live1[i] == live0[i]);
                        }
                    } else {
                        if i < live0.len() {
                            assert(live1[i] == live0[i]);
                        }
                    }
                }
            }
            prev
        } else {
            let prev = take_out(&mut self.anchor_map, anchor.platform, &anchor.rid);
            proof {
                let live1 = self.living();
                assert forall|i: int| 0 <= i < live1.len() implies {
                    &&& (#[trigger] live1[i]).is_live()
                    &&& live1[i].has_assets()
                    &&& has_key(upsert(cfg0, admitted), live1[i].key())
                } by {
                    if has_key(live0, admitted.key()) {
                        let at = index_of(live0, admitted.key());
                        let a = if i < at { i } else { i + 1 };
                        assert(live1[i] == live0[a]);
                    }
                }
            }
            prev
        };
        let _ = put(&mut self.config_map, anchor);
        Ok(prev)
    }

    /// Puts an anchor into the configured list without asking whether it is
    /// on the air. The live list stays as it is.
    pub fn add_config(&mut self, anchor: AnchorInfo)
        requires
            old(self).wf(),
        ensures
            final(self).wf(),
            final(self).configured() == upsert(old(self).configured(), anchor@),
            final(self).living() == old(self).living(),
    {
        proof {
            lemma_upsert(self.configured(), anchor@);
        }
        let _ = put(&mut self.config_map, anchor);
    }

    /// Records that a room is not on the air: its configured record is
    /// marked so (a bare record is added where the room is not configured
    /// yet) and it leaves the live list.
    pub fn set_offline(&mut self, platform: Platform, rid: &str)
        requires
            old(self).wf(),
        ensures
            final(self).wf(),
            final(self).configured() == marked_offline(old(self).configured(), (platform, rid@)),
            final(self).living() == without(old(self).living(), (platform, rid@)),
    {
        let rid = rid.to_owned();
        let ghost k: AnchorKey = (platform, rid@);
        let ghost live0 = self.living();
        let ghost cfg0 = self.configured();
        proof {
            lemma_marked_offline(cfg0, k);
            lemma_without(live0, k);
        }
        let info = match find(&self.config_map, platform, &rid) {
            Some(i) => {
                proof {
                    assert(cfg0[i as int].key() == k);
                    lemma_index_unique(cfg0, k, i as int);
                }
                let mut info = self.config_map[i].clone();
                info.show_type = Some(crate::models::ShowType::Off);
                info
            },
            None => AnchorInfo::bare(platform, rid.as_str()),
        };
        let _ = take_out(&mut self.anchor_map, platform, &rid);
        let _ = put(&mut self.config_map, info);
        proof {
            let live1 = self.living();
            assert forall|i: int| 0 <= i < live1.len() implies {
                &&& (#[trigger] live1[i]).is_live()
                &&& live1[i].has_assets()
                &&& has_key(self.configured(), live1[i].key())
            } by {
                if has_key(live0, k) {
                    let at = index_of(live0, k);
                    let a = if i < at { i } else { i + 1 };
                    assert(live1[i] == live0[a]);
                }
            }
        }
    }

    /// Forgets an anchor: its key leaves both lists. Forgetting an anchor
    /// that is not there changes nothing.
    pub fn remove(&mut self, anchor: &AnchorInfo)
        requires
            old(self).wf(),
        ensures
            final(self).wf(),
            final(self).living() == without(old(self).living(), anchor@.key()),
            final(self).configured() == without(old(self).configured(), anchor@.key()),
    {
        let ghost k = anchor@.key();
        let ghost live0 = self.living();
        let ghost cfg0 = self.configured();
        proof {
            lemma_without(live0, k);
            lemma_without(cfg0, k);
        }
        let _ = take_out(&mut self.anchor_map, anchor.platform, &anchor.rid);
        let _ = take_out(&mut self.config_map, anchor.platform, &anchor.rid);
        proof {
            let live1 = self.living();
            let cfg1 = self.configured();
            assert forall|i: int| 0 <= i < live1.len() implies {
                &&& (#[trigger] live1[i]).is_live()
                &&& live1[i].has_assets()
                &&& has_key(cfg1, live1[i].key())
            } by {
                let k2 = live1[i].key();
                assert(has_key(live1, k2));
                assert(k2 != k);
                if has_key(live0, k) {
                    let at = index_of(live0, k);
                    let a = if i < at { i } else { i + 1 };
                    assert(live1[i] == live0[a]);
                }
                assert(has_key(cfg0, k2));
                assert(lookup(cfg1, k2) == lookup(cfg0, k2));
            }
        }
    }

    /// The key under which the store files an anchor.
    pub fn key(anchor: &AnchorInfo) -> (r: (Platform, String))
        ensures
            (r.0, r.1@) == anchor@.key(),
    {
        (anchor.platform, anchor.rid.clone())
    }

    /// The live anchors, as they stand.
    pub fn get_all_living(&self) -> (r: Vec<AnchorInfo>)
        ensures
            info_views(r@) == self.living(),
    {
        clone_infos(&self.anchor_map)
    }

    /// The configured anchors, as they stand.
    pub fn get_all_config(&self) -> (r: Vec<AnchorInfo>)
        ensures
            info_views(r@) == self.configured(),
    {
        clone_infos(&self.config_map)
    }
}

} // verus!
