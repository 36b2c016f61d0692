//! Health bars over remote ships and damaged asteroids: which health a bar shows and the
//! book-keeping of the bars on screen, so a bar is spawned once per ship and retired as soon as
//! its ship is no longer drawn.
use vstd::prelude::*;

verus! {

broadcast use vstd::seq_lib::group_seq_properties;

/// The health to show as (current, full): a ship's own health, or an asteroid's once it has
/// taken damage; nothing for an undamaged asteroid or a body without health.
pub open spec fn shown_health(
    ship: Option<u8>,
    asteroid: Option<u8>,
    ship_full: u8,
    asteroid_full: u8,
) -> Option<(u8, u8)> {
    match ship {
        Some(current) => Some((current, ship_full)),
        None => match asteroid {
            Some(current) => if current >= asteroid_full {
                None
            } else {
                Some((current, asteroid_full))
            },
            None => None,
        },
    }
}

/// The health a bar shows for a body with ship health `ship` or asteroid health `asteroid`.
pub fn bar_health(ship: Option<u8>, asteroid: Option<u8>, ship_full: u8, asteroid_full: u8) -> (r:
    Option<(u8, u8)>)
    ensures
        r == shown_health(ship, asteroid, ship_full, asteroid_full),
{
    match ship {
        Some(current) => Some((current, ship_full)),
        None => match asteroid {
            Some(current) => if current >= asteroid_full {
                None
            } else {
                Some((current, asteroid_full))
            },
            None => None,
        },
    }
}

/// The two nodes of one bar: the track and the fill inside it.
#[derive(Clone, Copy, Debug, PartialEq, Eq, Structural)]
pub struct BarEntities {
    pub track: u64,
    pub fill: u64,
}

/// The bar drawn for one body.
#[derive(Clone, Copy, Debug, PartialEq, Eq, Structural)]
pub struct BarEntry {
    pub body: u64,
    pub bar: BarEntities,
}

/// No body has two bars.
pub open spec fn bodies_unique(bars: Seq<BarEntry>) -> bool {
    forall|i: int, j: int|
        0 <= i < bars.len() && 0 <= j < bars.len() && i != j ==> bars[i].body != bars[j].body
}

/// The bar of `body`, if it has one.
pub open spec fn bar_for(bars: Seq<BarEntry>, body: u64) -> Option<BarEntities> {
    if exists|i: int| 0 <= i < bars.len() && bars[i].body == body {
        let i = choose|i: int| 0 <= i < bars.len() && bars[i].body == body;
        Some(bars[i].bar)
    } else {
        None
    }
}

proof fn lemma_bar_for_at(bars: Seq<BarEntry>, i: int)
    requires
        bodies_unique(bars),
        0 <= i < bars.len(),
    ensures
        bar_for(bars, bars[i].body) == Some(bars[i].bar),
{
    let j = choose|j: int| 0 <= j < bars.len() && bars[j].body == bars[i].body;
    assert(j == i);
}

proof fn lemma_bar_for_same(a: Seq<BarEntry>, b: Seq<BarEntry>, body: u64)
    requires
        bodies_unique(a),
        bodies_unique(b),
        forall|i: int| 0 <= i < a.len() && a[i].body == body ==> b.contains(a[i]),
        forall|i: int| 0 <= i < b.len() && b[i].body == body ==> a.contains(b[i]),
    ensures
        bar_for(a, body) == bar_for(b, body),
{
    if exists|i: int| 0 <= i < a.len() && a[i].body == body {
        let i = choose|i: int| 0 <= i < a.len() && a[i].body == body;
        lemma_bar_for_at(a, i);
        assert(b.contains(a[i]));
        let j = choose|j: int| 0 <= j < b.len() && b[j] == a[i];
        lemma_bar_for_at(b, j);
    } else if exists|j: int| 0 <= j < b.len() && b[j].body == body {
        let j = choose|j: int| 0 <= j < b.len() && b[j].body == body;
        assert(a.contains(b[j]));
    }
}

/// Whether `seen` holds `body`.
pub fn seen_contains(seen: &[u64], body: u64) -> (r: bool)
    ensures
        r == seen@.contains(body),
{
    let mut i: usize = 0;
    while i < seen.len()
        invariant
            i <= seen@.len(),
            forall|k: int| 0 <= k < i ==> seen@[k] != body,
        decreases seen@.len() - i,
    {
        if seen[i] == body {
            return true;
        }
        i = i + 1;
    }
    false
}

/// The bars on screen, one per body.
pub struct BarState {
    bars: Vec<BarEntry>,
}

impl View for BarState {
    type V = Seq<BarEntry>;

    closed spec fn view(&self) -> Seq<BarEntry> {
        self.bars@
    }
}

impl BarState {
    /// The invariant every operation keeps: no body has two bars.
    pub open spec fn wf(&self) -> bool {
        bodies_unique(self@)
    }

    /// No bars.
    pub fn new() -> (r: Self)
        ensures
            r@ == Seq::<BarEntry>::empty(),
            r.wf(),
    {
        BarState { bars: Vec::new() }
    }

    fn index_of(&self, body: u64) -> (r: Option<usize>)
        ensures
            match r {
                Some(i) => i < self@.len() && self@[i as int].body == body,
                None => forall|k: int| 0 <= k < self@.len() ==> self@[k].body != body,
            },
    {
        let mut i: usize = 0;
        while i < self.bars.len()
            invariant
                i <= self.bars@.len(),
                forall|k: int| 0 <= k < i ==> self.bars@[k].body != body,
            decreases self.bars@.len() - i,
        {
            if self.bars[i].body == body {
                return Some(i);
            }
            i = i + 1;
        }
        None
    }

    /// The bar of `body`, to be moved to its layout; without one a bar has to be spawned.
    pub fn bar_of(&self, body: u64) -> (r: Option<BarEntities>)
        requires
            self.wf(),
        ensures
            r == bar_for(self@, body),
    {
        match self.index_of(body) {
            Some(i) => {
                proof {
                    lemma_bar_for_at(self@, i as int);
                }
                Some(self.bars[i].bar)
            },
            None => None,
        }
    }

    /// Remembers `bar` as the bar of `body`, replacing the one recorded for it.
    pub fn remember(&mut self, body: u64, bar: BarEntities)
        requires
            old(self).wf(),
        ensures
            final(self).wf(),
            bar_for(final(self)@, body) == Some(bar),
            forall|other: u64| other != body ==> bar_for(final(self)@, other) == bar_for(old(self)@, other),
    {
        let ghost before = self.bars@;
        let entry = BarEntry { body, bar };
        match self.index_of(body) {
            Some(i) => {
                self.bars.set(i, entry);
                proof {
                    let after = self.bars@;
                    assert(after == before.update(i as int, entry));
                    assert(bodies_unique(after));
                    lemma_bar_for_at(after, i as int);
                    assert forall|other: u64| other != body implies bar_for(after, other)
                        == bar_for(before, other) by {
                        assert forall|k: int| 0 <= k < before.len() && before[k].body == other implies after.contains(before[k]) by {
                            assert(after[k] == before[k]);
                        }
                        assert forall|k: int| 0 <= k < after.len() && after[k].body == other implies before.contains(after[k]) by {
                            assert(after[k] == before[k]);
                        }
                        lemma_bar_for_same(before, after, other);
                    }
                }
            },
            None => {
                self.bars.push(entry);
                proof {
                    let after = self.bars@;
                    assert(after == before.push(entry));
                    assert(bodies_unique(after));
                    lemma_bar_for_at(after, before.len() as int);
                    assert forall|other: u64| other != body implies bar_for(after, other)
                        == bar_for(before, other) by {
                        assert forall|k: int| 0 <= k < before.len() && before[k].body == other implies after.contains(before[k]) by {
                            assert(after[k] == before[k]);
                        }
                        assert forall|k: int| 0 <= k < after.len() && after[k].body == other implies before.contains(after[k]) by {
                            assert(k < before.len());
                            assert(after[k] == before[k]);
                        }
                        lemma_bar_for_same(before, after, other);
                    }
                }
            },
        }
    }

    /// Forgets the bars of bodies that were not drawn this frame and returns their tracks, in
    /// the order the bars were added, to be despawned with their fills.
    pub fn remove_unseen(&mut self, seen: &[u64]) -> (removed: Vec<u64>)
        requires
            old(self).wf(),
        ensures
            final(self).wf(),
            final(self)@ == old(self)@.filter(|e: BarEntry| seen@.contains(e.body)),
            removed@ == old(self)@.filter(|e: BarEntry| !seen@.contains(e.body)).map_values(
                |e: BarEntry| e.bar.track,
            ),
    {
        let ghost before = self.bars@;
        let ghost keep = |e: BarEntry| seen@.contains(e.body);
        let ghost drop = |e: BarEntry| !seen@.contains(e.body);
        let mut kept: Vec<BarEntry> = Vec::new();
        let mut removed: Vec<u64> = Vec::new();
        let mut i: usize = 0;
        assert(before.take(0) =~= Seq::<BarEntry>::empty());
        assert(Seq::<BarEntry>::empty().filter(keep) =~= Seq::<BarEntry>::empty()) by {
            reveal(Seq::filter);
        }
        assert(Seq::<BarEntry>::empty().filter(drop) =~= Seq::<BarEntry>::empty()) by {
            reveal(Seq::filter);
        }
        while i < self.bars.len()
            invariant
                before == self.bars@,
                bodies_unique(before),
                keep == (|e: BarEntry| seen@.contains(e.body)),
                drop == (|e: BarEntry| !seen@.contains(e.body)),
                i <= before.len(),
                kept@ == before.take(i as int).filter(keep),
                removed@ == before.take(i as int).filter(drop).map_values(|e: BarEntry| e.bar.track),
            decreases before.len() - i,
        {
            let entry = self.bars[i];
            let stays = seen_contains(seen, entry.body);
            proof {
                assert(before.take(i + 1) =~= before.take(i as int).push(entry));
                before.take(i as int).lemma_filter_push(entry, keep);
                before.take(i as int).lemma_filter_push(entry, drop);
                assert(keep(entry) == stays);
                assert(drop(entry) == !stays);
            }
            if stays {
                kept.push(entry);
                assert(kept@ == before.take(i + 1).filter(keep));
                assert(before.take(i + 1).filter(drop) == before.take(i as int).filter(drop));
            } else {
                removed.push(entry.bar.track);
                assert(before.take(i + 1).filter(drop) == before.take(i as int).filter(drop).push(
                    entry,
                ));
                assert(removed@ =~= before.take(i + 1).filter(drop).map_values(
                    |e: BarEntry| e.bar.track,
                ));
                assert(kept@ == before.take(i + 1).filter(keep));
            }
            i = i + 1;
        }
        assert(before.take(before.len() as int) =~= before);
        proof {
            lemma_filter_keeps_bodies_unique(before, keep);
        }
        self.bars = kept;
        removed
    }
}

proof fn lemma_filter_keeps_bodies_unique(bars: Seq<BarEntry>, pred: spec_fn(BarEntry) -> bool)
    requires
        bodies_unique(bars),
    ensures
        bodies_unique(bars.filter(pred)),
    decreases bars.len(),
{
    reveal(Seq::filter);
    if bars.len() > 0 {
        let rest = bars.drop_last();
        assert(bodies_unique(rest));
        lemma_filter_keeps_bodies_unique(rest, pred);
        let sub = rest.filter(pred);
        if pred(bars.last()) {
            assert forall|i: int| 0 <= i < sub.len() implies sub[i].body != bars.last().body by {
                lemma_filter_member(rest, pred, i);
                let k = choose|k: int| 0 <= k < rest.len() && rest[k] == sub[i];
                assert(bars[k] == rest[k]);
            }
        }
    }
}

proof fn lemma_filter_member(bars: Seq<BarEntry>, pred: spec_fn(BarEntry) -> bool, i: int)
    requires
        0 <= i < bars.filter(pred).len(),
    ensures
        bars.contains(bars.filter(pred)[i]),
    decreases bars.len(),
{
    reveal(Seq::filter);
    let rest = bars.drop_last();
    let sub = rest.filter(pred);
    if i < sub.len() {
        lemma_filter_member(rest, pred, i);
        let k = choose|k: int| 0 <= k < rest.len() && rest[k] == sub[i];
        assert(bars[k] == rest[k]);
    } else {
        assert(bars[bars.len() - 1] == bars.last());
    }
}

/// After a frame, a bar remains exactly for the bodies drawn in that frame that had one.
pub proof fn law_bars_follow_drawn_bodies(bars: Seq<BarEntry>, seen: Seq<u64>)
    ensures
        ({
            let kept = bars.filter(|e: BarEntry| seen.contains(e.body));
            &&& forall|i: int| 0 <= i < kept.len() ==> seen.contains(kept[i].body)
            &&& forall|i: int| 0 <= i < bars.len() && seen.contains(bars[i].body) ==> kept.contains(
                bars[i],
            )
        }),
{
    broadcast use vstd::seq_lib::group_filter_ensures;

    let pred = |e: BarEntry| seen.contains(e.body);
    let kept = bars.filter(pred);
    assert forall|i: int| 0 <= i < kept.len() implies seen.contains(kept[i].body) by {
        assert(pred(kept[i]));
    }
    assert forall|i: int| 0 <= i < bars.len() && seen.contains(bars[i].body) implies kept.contains(
        bars[i],
    ) by {
        assert(pred(bars[i]));
    }
}

/// Every body with ship health gets a bar showing that health against the ship's full health,
/// whatever the value; an asteroid gets one exactly while it is damaged (below full health);
/// a body with neither gets none.
pub proof fn law_bar_shows_ship_health_and_damaged_asteroids(
    ship: Option<u8>,
    asteroid: Option<u8>,
    ship_full: u8,
    asteroid_full: u8,
)
    ensures
        forall|h: u8|
            ship == Some(h) ==> shown_health(ship, asteroid, ship_full, asteroid_full) == Some(
                (h, ship_full),
            ),
        forall|c: u8|
            ship == None::<u8> && asteroid == Some(c) ==> (shown_health(
                ship,
                asteroid,
                ship_full,
                asteroid_full,
            ) == (if c < asteroid_full {
                Some((c, asteroid_full))
            } else {
                None
            })),
        ship == None::<u8> && asteroid == None::<u8> ==> shown_health(
            ship,
            asteroid,
            ship_full,
            asteroid_full,
        ) == None::<(u8, u8)>,
{
}

} // verus!
