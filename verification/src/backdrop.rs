//! The streamed backdrop: which tile, mirroring and quarter turn each chunk of a layer's grid
//! gets, and the book-keeping of the chunks that are alive, so that travel only spawns the cells
//! that entered the view and only retires the ones that left it.
use vstd::prelude::*;

verus! {

broadcast use vstd::seq_lib::group_seq_properties;

/// A cell of a layer's chunk grid.
#[derive(Clone, Copy, Debug, PartialEq, Eq, Structural)]
pub struct Cell {
    pub x: i32,
    pub y: i32,
}

/// The cells from `min` to `max`, both corners included.
#[derive(Clone, Copy, Debug, PartialEq, Eq, Structural)]
pub struct CellRange {
    pub min: Cell,
    pub max: Cell,
}

impl CellRange {
    pub open spec fn holds(self, cell: Cell) -> bool {
        self.min.x <= cell.x <= self.max.x && self.min.y <= cell.y <= self.max.y
    }

    /// Whether `cell` lies in the range.
    pub fn contains(&self, cell: Cell) -> (r: bool)
        ensures
            r == self.holds(cell),
    {
        self.min.x <= cell.x && cell.x <= self.max.x && self.min.y <= cell.y && cell.y <= self.max.y
    }

    /// Every cell of the range once, column by column: `x` ascending, and `y` ascending within
    /// a column.
    pub fn cells(&self) -> (r: Vec<Cell>)
        ensures
            forall|i: int| 0 <= i < r@.len() ==> self.holds(#[trigger] r@[i]),
            forall|c: Cell| self.holds(c) ==> r@.contains(c),
            forall|i: int, j: int|
                0 <= i < j < r@.len() ==> r@[i].x < r@[j].x || (r@[i].x == r@[j].x && r@[i].y
                    < r@[j].y),
    {
        let mut out: Vec<Cell> = Vec::new();
        if self.min.x > self.max.x || self.min.y > self.max.y {
            return out;
        }
        let mut x: i64 = self.min.x as i64;
        while x <= self.max.x as i64
            invariant
                self.min.y <= self.max.y,
                self.min.x <= x,
                x <= self.max.x + 1,
                forall|i: int| 0 <= i < out@.len() ==> self.holds(#[trigger] out@[i]),
                forall|i: int| 0 <= i < out@.len() ==> out@[i].x < x,
                forall|c: Cell| self.holds(c) && c.x < x ==> out@.contains(c),
                forall|i: int, j: int|
                    0 <= i < j < out@.len() ==> out@[i].x < out@[j].x || (out@[i].x == out@[j].x
                        && out@[i].y < out@[j].y),
            decreases self.max.x + 1 - x,
        {
            let mut y: i64 = self.min.y as i64;
            let ghost column_start = out@.len();
            while y <= self.max.y as i64
                invariant
                    self.min.x <= x <= self.max.x,
                    self.min.y <= self.max.y,
                    self.min.y <= y,
                    y <= self.max.y + 1,
                    column_start <= out@.len(),
                    forall|i: int| 0 <= i < out@.len() ==> self.holds(#[trigger] out@[i]),
                    forall|i: int| 0 <= i < column_start ==> out@[i].x < x,
                    forall|i: int|
                        column_start <= i < out@.len() ==> out@[i].x == x && out@[i].y < y,
                    forall|c: Cell| self.holds(c) && c.x < x ==> out@.contains(c),
                    forall|c: Cell| self.holds(c) && c.x == x && c.y < y ==> out@.contains(c),
                    forall|i: int, j: int|
                        0 <= i < j < out@.len() ==> out@[i].x < out@[j].x || (out@[i].x
                            == out@[j].x && out@[i].y < out@[j].y),
                decreases self.max.y + 1 - y,
            {
                let cell = Cell { x: x as i32, y: y as i32 };
                let ghost before = out@;
                out.push(cell);
                proof {
                    assert(out@ == before.push(cell));
                    assert forall|c: Cell| self.holds(c) && c.x < x implies out@.contains(c) by {
                        let k = choose|k: int| 0 <= k < before.len() && before[k] == c;
                        assert(out@[k] == c);
                    }
                    assert forall|c: Cell|
                        self.holds(c) && c.x == x && c.y < y + 1 implies out@.contains(c) by {
                        if c.y == y {
                            assert(out@[before.len() as int] == c);
                        } else {
                            let k = choose|k: int| 0 <= k < before.len() && before[k] == c;
                            assert(out@[k] == c);
                        }
                    }
                }
                y = y + 1;
            }
            x = x + 1;
        }
        out
    }
}

/// Tile, mirroring and quarter turn for one chunk.
#[derive(Clone, Copy, Debug, PartialEq, Eq, Structural)]
pub struct ChunkVariation {
    pub tile: usize,
    pub flip_x: bool,
    pub flip_y: bool,
    pub turn: u8,
}

pub const MIX_MULT_A: u32 = 2_654_435_769;

pub const MIX_MULT_B: u32 = 2_246_822_507;

/// The murmur-style finalizer that scrambles one 32-bit value.
pub open spec fn mixed(value: u32) -> u32 {
    let scrambled = vstd::wrapping::u32_specs::wrapping_mul(value, MIX_MULT_A);
    let folded = scrambled ^ (scrambled >> 16u32);
    let spread = vstd::wrapping::u32_specs::wrapping_mul(folded, MIX_MULT_B);
    spread ^ (spread >> 13u32)
}

/// Scrambles `value` so that the regular chunk grid does not hash into visible patterns.
pub fn mix(value: u32) -> (r: u32)
    ensures
        r == mixed(value),
{
    let scrambled = value.wrapping_mul(MIX_MULT_A);
    let folded = scrambled ^ (scrambled >> 16u32);
    let spread = folded.wrapping_mul(MIX_MULT_B);
    spread ^ (spread >> 13u32)
}

/// One signed grid coordinate, mixed by its bit pattern so that no cell is lost to a shift.
pub fn spread(value: i32) -> (r: u32)
    ensures
        r == mixed(value as u32),
{
    mix(value as u32)
}

/// The layer index as the hash reads it: saturated at `u32::MAX`.
pub open spec fn layer_key(layer: usize) -> u32 {
    if layer <= u32::MAX {
        layer as u32
    } else {
        u32::MAX
    }
}

/// The number of tiles to pick from: `tiles`, or one where there are none or too many to count
/// in 32 bits.
pub open spec fn tile_count(tiles: usize) -> u32 {
    if 1 <= tiles <= u32::MAX {
        tiles as u32
    } else {
        1
    }
}

/// The 32-bit seed of a chunk, derived from its cell and layer alone.
pub open spec fn chunk_seed(layer: usize, cell: Cell) -> u32 {
    mixed(mixed(mixed(cell.x as u32) ^ mixed(cell.y as u32)) ^ layer_key(layer))
}

/// The variation of the chunk at `cell` in `layer`, picking among `tiles` tiles.
pub open spec fn variation_of(layer: usize, cell: Cell, tiles: usize) -> ChunkVariation {
    let seed = chunk_seed(layer, cell);
    ChunkVariation {
        tile: (seed % tile_count(tiles)) as usize,
        flip_x: seed & 0x1_0000u32 != 0,
        flip_y: seed & 0x2_0000u32 != 0,
        turn: ((seed >> 18u32) & 3u32) as u8,
    }
}

/// The variation of one chunk, derived from the chunk coordinate, so that every client paints
/// the same backdrop without storing anything per chunk.
pub fn chunk_variation(layer: usize, cell: Cell, tiles: usize) -> (v: ChunkVariation)
    ensures
        v == variation_of(layer, cell, tiles),
        v.tile < tile_count(tiles),
        1 <= tiles <= u32::MAX ==> v.tile < tiles,
        v.turn < 4,
{
    let layer: u32 = if layer <= u32::MAX as usize {
        layer as u32
    } else {
        u32::MAX
    };
    let tiles: u32 = if 1 <= tiles && tiles <= u32::MAX as usize {
        tiles as u32
    } else {
        1
    };
    let seed = mix(mix(spread(cell.x) ^ spread(cell.y)) ^ layer);
    let turn_bits: u32 = (seed >> 18u32) & 3u32;
    assert(((seed >> 18u32) & 3u32) < 4) by (bit_vector);
    ChunkVariation {
        tile: (seed % tiles) as usize,
        flip_x: seed & 0x1_0000u32 != 0,
        flip_y: seed & 0x2_0000u32 != 0,
        turn: turn_bits as u8,
    }
}

/// A live chunk: the entity drawn for one cell of one layer.
#[derive(Clone, Copy, Debug, PartialEq, Eq, Structural)]
pub struct LiveChunk {
    pub layer: usize,
    pub cell: Cell,
    pub entity: u64,
}

pub open spec fn in_slot(chunk: LiveChunk, layer: usize, cell: Cell) -> bool {
    chunk.layer == layer && chunk.cell == cell
}

/// No cell of a layer is alive twice.
pub open spec fn slots_unique(live: Seq<LiveChunk>) -> bool {
    forall|i: int, j: int|
        0 <= i < live.len() && 0 <= j < live.len() && i != j ==> !in_slot(
            live[i],
            live[j].layer,
            live[j].cell,
        )
}

/// The entity alive for `cell` of `layer`, if there is one.
pub open spec fn slot_entity(live: Seq<LiveChunk>, layer: usize, cell: Cell) -> Option<u64> {
    if exists|i: int| 0 <= i < live.len() && in_slot(live[i], layer, cell) {
        let i = choose|i: int| 0 <= i < live.len() && in_slot(live[i], layer, cell);
        Some(live[i].entity)
    } else {
        None
    }
}

/// Whether a pass over `layer` that must cover `range` keeps `chunk` alive.
pub open spec fn keeps(chunk: LiveChunk, layer: usize, range: CellRange) -> bool {
    chunk.layer != layer || range.holds(chunk.cell)
}

/// What one cell of a layer needs this frame.
#[derive(Clone, Copy, Debug, PartialEq, Eq, Structural)]
pub enum Placement {
    /// The cell is alive: its entity only has to follow the layer's anchor.
    Follow(u64),
    /// The cell has to be spawned with this variation.
    Spawn(ChunkVariation),
    /// The cell's tile has not been loaded, so nothing is drawn there yet.
    Skip,
}

/// The chunks that are currently spawned, each at most once per cell and layer.
pub struct BackdropChunks {
    live: Vec<LiveChunk>,
}

impl View for BackdropChunks {
    type V = Seq<LiveChunk>;

    closed spec fn view(&self) -> Seq<LiveChunk> {
        self.live@
    }
}

proof fn lemma_slot_entity_at(live: Seq<LiveChunk>, i: int)
    requires
        slots_unique(live),
        0 <= i < live.len(),
    ensures
        slot_entity(live, live[i].layer, live[i].cell) == Some(live[i].entity),
{
    let j = choose|j: int| 0 <= j < live.len() && in_slot(live[j], live[i].layer, live[i].cell);
    assert(in_slot(live[i], live[i].layer, live[i].cell));
    assert(j == i);
}

impl BackdropChunks {
    /// The invariant every operation keeps: no cell of a layer is alive twice.
    pub open spec fn wf(&self) -> bool {
        slots_unique(self@)
    }

    /// An empty backdrop.
    pub fn new() -> (r: Self)
        ensures
            r@ == Seq::<LiveChunk>::empty(),
            slots_unique(r@),
    {
        BackdropChunks { live: Vec::new() }
    }

    /// The entity alive for `cell` of `layer`.
    pub fn entity_at(&self, layer: usize, cell: Cell) -> (r: Option<u64>)
        requires
            self.wf(),
        ensures
            r == slot_entity(self@, layer, cell),
    {
        let mut i: usize = 0;
        while i < self.live.len()
            invariant
                slots_unique(self.live@),
                i <= self.live@.len(),
                forall|k: int| 0 <= k < i ==> !in_slot(self.live@[k], layer, cell),
            decreases self.live@.len() - i,
        {
            let chunk = self.live[i];
            if chunk.layer == layer && chunk.cell == cell {
                proof {
                    lemma_slot_entity_at(self.live@, i as int);
                }
                return Some(chunk.entity);
            }
            i = i + 1;
        }
        None
    }

    /// Retires every chunk of `layer` whose cell left `range` and returns their entities, in
    /// the order they were spawned; the chunks of other layers stay.
    pub fn retire_outside(&mut self, layer: usize, range: CellRange) -> (retired: Vec<u64>)
        requires
            old(self).wf(),
        ensures
            slots_unique(final(self)@),
            final(self)@ == old(self)@.filter(|c: LiveChunk| keeps(c, layer, range)),
            retired@ == old(self)@.filter(|c: LiveChunk| !keeps(c, layer, range)).map_values(
                |c: LiveChunk| c.entity,
            ),
    {
        let ghost before = self.live@;
        let ghost keep = |c: LiveChunk| keeps(c, layer, range);
        let ghost drop = |c: LiveChunk| !keeps(c, layer, range);
        let mut kept: Vec<LiveChunk> = Vec::new();
        let mut retired: Vec<u64> = Vec::new();
        let mut i: usize = 0;
        assert(before.take(0) =~= Seq::<LiveChunk>::empty());
        assert(Seq::<LiveChunk>::empty().filter(keep) =~= Seq::<LiveChunk>::empty()) by {
            reveal(Seq::filter);
        }
        assert(Seq::<LiveChunk>::empty().filter(drop) =~= Seq::<LiveChunk>::empty()) by {
            reveal(Seq::filter);
        }
        while i < self.live.len()
            invariant
                before == self.live@,
                slots_unique(before),
                keep == (|c: LiveChunk| keeps(c, layer, range)),
                drop == (|c: LiveChunk| !keeps(c, layer, range)),
                i <= before.len(),
                kept@ == before.take(i as int).filter(keep),
                retired@ == before.take(i as int).filter(drop).map_values(|c: LiveChunk| c.entity),
            decreases before.len() - i,
        {
            let chunk = self.live[i];
            let inside = range.contains(chunk.cell);
            let stays = chunk.layer != layer || inside;
            proof {
                assert(before.take(i + 1) =~= before.take(i as int).push(chunk));
                before.take(i as int).lemma_filter_push(chunk, keep);
                before.take(i as int).lemma_filter_push(chunk, drop);
                assert(chunk == before[i as int]);
                assert(keeps(chunk, layer, range) == stays);
                assert(keep(chunk) == stays);
                assert(drop(chunk) == !stays);
            }
            if stays {
                kept.push(chunk);
                assert(kept@ == before.take(i + 1).filter(keep));
                assert(before.take(i + 1).filter(drop) == before.take(i as int).filter(drop));
            } else {
                retired.push(chunk.entity);
                assert(before.take(i + 1).filter(drop) == before.take(i as int).filter(drop).push(
                    chunk,
                ));
                assert(retired@ =~= before.take(i + 1).filter(drop).map_values(
                    |c: LiveChunk| c.entity,
                ));
                assert(kept@ == before.take(i + 1).filter(keep));
            }
            i = i + 1;
        }
        assert(before.take(before.len() as int) =~= before);
        proof {
            lemma_filter_keeps_unique(before, keep);
            assert(keep =~= (|c: LiveChunk| keeps(c, layer, range)));
            assert(drop =~= (|c: LiveChunk| !keeps(c, layer, range)));
        }
        self.live = kept;
        retired
    }

    /// What `cell` of `layer` needs: its live entity follows the anchor; otherwise the cell is
    /// spawned with its variation among `sprite_count` sprites, when the layer has loaded
    /// `loaded_tiles` tiles and the variation's tile is among them.
    pub fn place(&self, layer: usize, cell: Cell, sprite_count: usize, loaded_tiles: usize) -> (r:
        Placement)
        requires
            self.wf(),
        ensures
            r == (match slot_entity(self@, layer, cell) {
                Some(entity) => Placement::Follow(entity),
                None => if variation_of(layer, cell, sprite_count).tile < loaded_tiles {
                    Placement::Spawn(variation_of(layer, cell, sprite_count))
                } else {
                    Placement::Skip
                },
            }),
    {
        match self.entity_at(layer, cell) {
            Some(entity) => Placement::Follow(entity),
            None => {
                let variation = chunk_variation(layer, cell, sprite_count);
                if variation.tile < loaded_tiles {
                    Placement::Spawn(variation)
                } else {
                    Placement::Skip
                }
            },
        }
    }

    /// The position of the chunk alive for `cell` of `layer`.
    fn slot_index(&self, layer: usize, cell: Cell) -> (r: Option<usize>)
        ensures
            match r {
                Some(i) => i < self@.len() && in_slot(self@[i as int], layer, cell),
                None => forall|k: int| 0 <= k < self@.len() ==> !in_slot(self@[k], layer, cell),
            },
    {
        let mut i: usize = 0;
        while i < self.live.len()
            invariant
                i <= self.live@.len(),
                forall|k: int| 0 <= k < i ==> !in_slot(self.live@[k], layer, cell),
            decreases self.live@.len() - i,
        {
            if self.live[i].layer == layer && self.live[i].cell == cell {
                return Some(i);
            }
            i = i + 1;
        }
        None
    }

    /// Remembers `entity` as the chunk of `cell` in `layer`, replacing the one recorded there.
    pub fn record(&mut self, layer: usize, cell: Cell, entity: u64)
        requires
            old(self).wf(),
        ensures
            slots_unique(final(self)@),
            slot_entity(final(self)@, layer, cell) == Some(entity),
            forall|l: usize, c: Cell|
                !(l == layer && c == cell) ==> slot_entity(final(self)@, l, c) == slot_entity(
                    old(self)@,
                    l,
                    c,
                ),
    {
        let ghost before = self.live@;
        let chunk = LiveChunk { layer, cell, entity };
        match self.slot_index(layer, cell) {
            Some(i) => {
                self.live.set(i, chunk);
                proof {
                    lemma_replace_slot(before, i as int, chunk);
                }
            },
            None => {
                self.live.push(chunk);
                proof {
                    lemma_add_slot(before, chunk);
                }
            },
        }
    }
}

proof fn lemma_replace_slot(before: Seq<LiveChunk>, i: int, chunk: LiveChunk)
    requires
        slots_unique(before),
        0 <= i < before.len(),
        in_slot(before[i], chunk.layer, chunk.cell),
    ensures
        slots_unique(before.update(i, chunk)),
        slot_entity(before.update(i, chunk), chunk.layer, chunk.cell) == Some(chunk.entity),
        forall|l: usize, c: Cell|
            !(l == chunk.layer && c == chunk.cell) ==> slot_entity(before.update(i, chunk), l, c)
                == slot_entity(before, l, c),
{
    let after = before.update(i, chunk);
    assert forall|a: int, b: int|
        0 <= a < after.len() && 0 <= b < after.len() && a != b implies !in_slot(
        after[a],
        after[b].layer,
        after[b].cell,
    ) by {
        if a == i {
            assert(!in_slot(before[b], before[a].layer, before[a].cell));
        } else if b == i {
            assert(!in_slot(before[a], before[b].layer, before[b].cell));
        } else {
            assert(!in_slot(before[a], before[b].layer, before[b].cell));
        }
    }
    lemma_slot_entity_at(after, i);
    assert forall|l: usize, c: Cell|
        !(l == chunk.layer && c == chunk.cell) implies slot_entity(after, l, c) == slot_entity(
        before,
        l,
        c,
    ) by {
        assert forall|k: int| 0 <= k < before.len() && in_slot(before[k], l, c) implies after.contains(
            before[k],
        ) by {
            assert(k != i);
            assert(after[k] == before[k]);
        }
        assert forall|k: int| 0 <= k < after.len() && in_slot(after[k], l, c) implies before.contains(
            after[k],
        ) by {
            assert(k != i);
            assert(after[k] == before[k]);
        }
        lemma_slot_entity_same(before, after, l, c);
    }
}

proof fn lemma_add_slot(before: Seq<LiveChunk>, chunk: LiveChunk)
    requires
        slots_unique(before),
        forall|k: int| 0 <= k < before.len() ==> !in_slot(before[k], chunk.layer, chunk.cell),
    ensures
        slots_unique(before.push(chunk)),
        slot_entity(before.push(chunk), chunk.layer, chunk.cell) == Some(chunk.entity),
        forall|l: usize, c: Cell|
            !(l == chunk.layer && c == chunk.cell) ==> slot_entity(before.push(chunk), l, c)
                == slot_entity(before, l, c),
{
    let after = before.push(chunk);
    assert forall|a: int, b: int|
        0 <= a < after.len() && 0 <= b < after.len() && a != b implies !in_slot(
        after[a],
        after[b].layer,
        after[b].cell,
    ) by {
        if a < before.len() && b < before.len() {
            assert(!in_slot(before[a], before[b].layer, before[b].cell));
        } else if a == before.len() {
            assert(!in_slot(before[b], chunk.layer, chunk.cell));
        } else {
            assert(!in_slot(before[a], chunk.layer, chunk.cell));
        }
    }
    lemma_slot_entity_at(after, before.len() as int);
    assert forall|l: usize, c: Cell|
        !(l == chunk.layer && c == chunk.cell) implies slot_entity(after, l, c) == slot_entity(
        before,
        l,
        c,
    ) by {
        assert forall|k: int| 0 <= k < before.len() && in_slot(before[k], l, c) implies after.contains(
            before[k],
        ) by {
            assert(after[k] == before[k]);
        }
        assert forall|k: int| 0 <= k < after.len() && in_slot(after[k], l, c) implies before.contains(
            after[k],
        ) by {
            assert(k != before.len());
            assert(after[k] == before[k]);
        }
        lemma_slot_entity_same(before, after, l, c);
    }
}

/// Two live sets that hold the same chunks for a slot agree on that slot.
proof fn lemma_slot_entity_same(a: Seq<LiveChunk>, b: Seq<LiveChunk>, layer: usize, cell: Cell)
    requires
        slots_unique(a),
        slots_unique(b),
        forall|i: int| 0 <= i < a.len() && in_slot(a[i], layer, cell) ==> b.contains(a[i]),
        forall|i: int| 0 <= i < b.len() && in_slot(b[i], layer, cell) ==> a.contains(b[i]),
    ensures
        slot_entity(a, layer, cell) == slot_entity(b, layer, cell),
{
    if exists|i: int| 0 <= i < a.len() && in_slot(a[i], layer, cell) {
        let i = choose|i: int| 0 <= i < a.len() && in_slot(a[i], layer, cell);
        lemma_slot_entity_at(a, i);
        assert(b.contains(a[i]));
        let j = choose|j: int| 0 <= j < b.len() && b[j] == a[i];
        lemma_slot_entity_at(b, j);
    } else if exists|j: int| 0 <= j < b.len() && in_slot(b[j], layer, cell) {
        let j = choose|j: int| 0 <= j < b.len() && in_slot(b[j], layer, cell);
        assert(a.contains(b[j]));
    }
}

/// Filtering keeps slots unique.
proof fn lemma_filter_keeps_unique(live: Seq<LiveChunk>, pred: spec_fn(LiveChunk) -> bool)
    requires
        slots_unique(live),
    ensures
        slots_unique(live.filter(pred)),
    decreases live.len(),
{
    reveal(Seq::filter);
    if live.len() > 0 {
        let rest = live.drop_last();
        assert(slots_unique(rest));
        lemma_filter_keeps_unique(rest, pred);
        let sub = rest.filter(pred);
        if pred(live.last()) {
            assert forall|i: int| 0 <= i < sub.len() implies !in_slot(
                sub[i],
                live.last().layer,
                live.last().cell,
            ) by {
                lemma_filter_subset(rest, pred, i);
                let k = choose|k: int| 0 <= k < rest.len() && rest[k] == sub[i];
                assert(live[k] == rest[k]);
            }
        }
    }
}

proof fn lemma_filter_subset(live: Seq<LiveChunk>, pred: spec_fn(LiveChunk) -> bool, i: int)
    requires
        0 <= i < live.filter(pred).len(),
    ensures
        live.contains(live.filter(pred)[i]),
    decreases live.len(),
{
    reveal(Seq::filter);
    let rest = live.drop_last();
    let sub = rest.filter(pred);
    if i < sub.len() {
        lemma_filter_subset(rest, pred, i);
        let k = choose|k: int| 0 <= k < rest.len() && rest[k] == sub[i];
        assert(live[k] == rest[k]);
    } else {
        assert(live[live.len() - 1] == live.last());
    }
}

/// A layer's pass retires exactly what left its view: afterwards every chunk of that layer lies
/// in the view, every chunk of it that was in the view is still alive, and no chunk of another
/// layer was touched.
pub proof fn law_retire_covers_view(live: Seq<LiveChunk>, layer: usize, range: CellRange)
    ensures
        ({
            let kept = live.filter(|c: LiveChunk| keeps(c, layer, range));
            &&& forall|i: int|
                0 <= i < kept.len() && kept[i].layer == layer ==> range.holds(kept[i].cell)
            &&& forall|i: int|
                0 <= i < live.len() && (live[i].layer != layer || range.holds(live[i].cell))
                    ==> kept.contains(live[i])
        }),
{
    broadcast use vstd::seq_lib::group_filter_ensures;

    let pred = |c: LiveChunk| keeps(c, layer, range);
    let kept = live.filter(pred);
    assert forall|i: int| 0 <= i < kept.len() && kept[i].layer == layer implies range.holds(
        kept[i].cell,
    ) by {
        assert(pred(kept[i]));
    }
    assert forall|i: int|
        0 <= i < live.len() && (live[i].layer != layer || range.holds(live[i].cell)) implies kept.contains(
        live[i],
    ) by {
        assert(pred(live[i]));
    }
}

/// A cell that stays in view keeps its chunk: after a layer's pass retires what left the view,
/// the chunk alive for a cell still in view is the one that was alive before, so placing that
/// cell follows the existing entity instead of spawning a second one.
pub proof fn law_cells_in_view_keep_their_chunk(
    live: Seq<LiveChunk>,
    layer: usize,
    range: CellRange,
    cell: Cell,
)
    requires
        slots_unique(live),
        range.holds(cell),
    ensures
        slot_entity(live.filter(|c: LiveChunk| keeps(c, layer, range)), layer, cell) == slot_entity(
            live,
            layer,
            cell,
        ),
{
    broadcast use vstd::seq_lib::group_filter_ensures;

    let pred = |c: LiveChunk| keeps(c, layer, range);
    let kept = live.filter(pred);
    lemma_filter_keeps_unique(live, pred);
    assert forall|i: int| 0 <= i < live.len() && in_slot(live[i], layer, cell) implies kept.contains(
        live[i],
    ) by {
        assert(pred(live[i]));
    }
    assert forall|i: int| 0 <= i < kept.len() && in_slot(kept[i], layer, cell) implies live.contains(
        kept[i],
    ) by {
        lemma_filter_subset(live, pred, i);
    }
    lemma_slot_entity_same(kept, live, layer, cell);
}

} // verus!
