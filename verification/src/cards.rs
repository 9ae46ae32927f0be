//! Laying the live anchors out for the display: one card for each anchor
//! whose images are cached, three cards to a row.

use vstd::prelude::*;
use crate::models::{AnchorInfo, AnchorInfoView, CardInfo, CardInfoView, info_views};

verus! {

/// How many cards the display shows side by side.
pub const CARDS_PER_ROW: usize = 3;

/// The cards of those records that have one, in the order of the records.
pub open spec fn cards_of(s: Seq<AnchorInfoView>) -> Seq<CardInfoView>
    decreases s.len(),
{
    if s.len() == 0 {
        Seq::empty()
    } else {
        match s.last().card() {
            Some(c) => cards_of(s.drop_last()).push(c),
            None => cards_of(s.drop_last()),
        }
    }
}

/// `cards` cut into rows of three; the last row holds what is left.
pub open spec fn rows_of(cards: Seq<CardInfoView>) -> Seq<Seq<CardInfoView>> {
    Seq::new(
        ((cards.len() + 2) / 3) as nat,
        |r: int|
            cards.subrange(
                3 * r,
                if 3 * r + 3 <= cards.len() {
                    3 * r + 3
                } else {
                    cards.len() as int
                },
            ),
    )
}

/// The views of a row of cards.
pub open spec fn card_views(s: Seq<CardInfo>) -> Seq<CardInfoView> {
    Seq::new(s.len(), |i: int| s[i]@)
}

/// The views of rows of cards.
pub open spec fn row_views(s: Seq<Vec<CardInfo>>) -> Seq<Seq<CardInfoView>> {
    Seq::new(s.len(), |r: int| card_views(s[r]@))
}

/// Where every record has both images cached, every record has a card.
pub proof fn lemma_all_cached_all_shown(s: Seq<AnchorInfoView>)
    requires
        forall|i: int| 0 <= i < s.len() ==> (#[trigger] s[i]).has_assets(),
    ensures
        cards_of(s).len() == s.len(),
        forall|i: int| 0 <= i < s.len() ==> s[i].card() == Some(#[trigger] cards_of(s)[i]),
    decreases s.len(),
{
    if s.len() > 0 {
        let t = s.drop_last();
        assert forall|i: int| 0 <= i < t.len() implies (#[trigger] t[i]).has_assets() by {
            assert(t[i] == s[i]);
        }
        lemma_all_cached_all_shown(t);
        assert(s.last().has_assets());
        assert forall|i: int| 0 <= i < s.len() implies s[i].card() == Some(
            #[trigger] cards_of(s)[i],
        ) by {
            if i < t.len() {
                assert(t[i] == s[i]);
                assert(cards_of(s)[i] == cards_of(t)[i]);
            }
        }
    }
}

/// Builds the rows of cards for the live anchors.
pub fn card_rows(living: &Vec<AnchorInfo>) -> (r: Vec<Vec<CardInfo>>)
    ensures
        row_views(r@) == rows_of(cards_of(info_views(living@))),
{
    let ghost all = info_views(living@);
    let mut rows: Vec<Vec<CardInfo>> = Vec::new();
    let mut cur: Vec<CardInfo> = Vec::new();
    let mut i: usize = 0;
    assert(all.take(0) =~= Seq::<AnchorInfoView>::empty());
    while i < living.len()
        invariant
            i <= living.len(),
            all == info_views(living@),
            cur.len() < 3,
            rows.len() * 3 + cur.len() == cards_of(all.take(i as int)).len(),
            forall|r: int|
                0 <= r < rows.len() ==> card_views(#[trigger] rows[r]@) == cards_of(
                    all.take(i as int),
                ).subrange(3 * r, 3 * r + 3),
            card_views(cur@) == cards_of(all.take(i as int)).subrange(
                3 * rows.len(),
                cards_of(all.take(i as int)).len() as int,
            ),
        decreases living.len() - i,
    {
        let ghost before = cards_of(all.take(i as int));
        proof {
            let t = all.take(i + 1);
            assert(t.drop_last() =~= all.take(i as int));
            assert(t.last() == living[i as int]@);
        }
        match living[i].to_card_info() {
            Some(card) => {
                let ghost after = before.push(card@);
                let ghost old_cur = card_views(cur@);
                cur.push(card);
                assert(card_views(cur@) =~= old_cur.push(card@));
                assert(card_views(cur@) =~= after.subrange(3 * rows.len(), after.len() as int));
                assert forall|r: int| 0 <= r < rows.len() implies card_views(#[trigger] rows[r]@)
                    == after.subrange(3 * r, 3 * r + 3) by {
                    assert(before.subrange(3 * r, 3 * r + 3) =~= after.subrange(3 * r, 3 * r + 3));
                }
                if cur.len() == CARDS_PER_ROW {
                    let ghost full = card_views(cur@);
                    let ghost n = rows.len();
                    rows.push(cur);
                    cur = Vec::new();
                    assert(card_views(cur@) =~= after.subrange(3 * rows.len(), after.len() as int));
                    assert forall|r: int| 0 <= r < rows.len() implies card_views(
                        #[trigger] rows[r]@,
                    ) == after.subrange(3 * r, 3 * r + 3) by {
                        if r == n {
                            assert(card_views(rows[r]@) == full);
                        }
                    }
                }
            },
            None => {},
        }
        i += 1;
    }
    assert(all.take(living.len() as int) =~= all);
    let ghost cards = cards_of(all);
    if cur.len() > 0 {
        rows.push(cur);
    }
    assert(row_views(rows@).len() == rows_of(cards).len());
    assert forall|r: int| 0 <= r < rows.len() implies row_views(rows@)[r] == rows_of(cards)[r] by {
        assert(row_views(rows@)[r] == card_views(rows[r]@));
    }
    assert(row_views(rows@) =~= rows_of(cards));
    rows
}

} // verus!
