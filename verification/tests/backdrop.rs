use space_game_client::backdrop::{
    chunk_variation, mix, spread, BackdropChunks, Cell, CellRange, ChunkVariation, Placement,
};

#[test]
fn mix_has_known_values() {
    assert_eq!(mix(0), 0);
    assert_eq!(mix(1), 2_473_152_308);
    assert_eq!(spread(-1), 1_089_902_945);
}

#[test]
fn chunk_variation_is_fixed_by_the_cell() {
    assert_eq!(
        chunk_variation(0, Cell { x: 10, y: 20 }, 3),
        ChunkVariation { tile: 2, flip_x: false, flip_y: false, turn: 1 }
    );
    assert_eq!(
        chunk_variation(1, Cell { x: 5, y: -7 }, 1),
        ChunkVariation { tile: 0, flip_x: false, flip_y: true, turn: 2 }
    );
    assert_eq!(
        chunk_variation(3, Cell { x: -2, y: 4 }, 1),
        ChunkVariation { tile: 0, flip_x: false, flip_y: true, turn: 3 }
    );
    // The origin of the nearest layer hashes to zero.
    assert_eq!(
        chunk_variation(0, Cell { x: 0, y: 0 }, 3),
        ChunkVariation { tile: 0, flip_x: false, flip_y: false, turn: 0 }
    );
}

#[test]
fn chunk_variation_stays_in_range() {
    for layer in 0..4 {
        for x in -20..20 {
            for y in -20..20 {
                let v = chunk_variation(layer, Cell { x, y }, 3);
                assert!(v.tile < 3);
                assert!(v.turn < 4);
                // No tiles is treated as one tile.
                assert_eq!(chunk_variation(layer, Cell { x, y }, 0).tile, 0);
            }
        }
    }
}

#[test]
fn streaming_spawns_follows_and_retires() {
    let mut chunks = BackdropChunks::new();
    let cell = Cell { x: 1, y: 1 };
    match chunks.place(1, cell, 1, 1) {
        Placement::Spawn(v) => assert_eq!(v, chunk_variation(1, cell, 1)),
        other => panic!("expected a spawn, got {other:?}"),
    }
    chunks.record(1, cell, 42);
    chunks.record(2, cell, 43);
    assert_eq!(chunks.entity_at(1, cell), Some(42));
    assert_eq!(chunks.place(1, cell, 1, 1), Placement::Follow(42));

    // A tile that is not loaded yet is skipped.
    assert_eq!(chunks.place(0, Cell { x: 9, y: 9 }, 3, 0), Placement::Skip);

    let view = CellRange { min: Cell { x: 2, y: 2 }, max: Cell { x: 4, y: 4 } };
    let retired = chunks.retire_outside(1, view);
    assert_eq!(retired, vec![42]);
    assert_eq!(chunks.entity_at(1, cell), None);
    // The other layer is untouched.
    assert_eq!(chunks.entity_at(2, cell), Some(43));

    // Recording a cell again replaces its entity.
    chunks.record(2, cell, 44);
    assert_eq!(chunks.entity_at(2, cell), Some(44));
}

#[test]
fn cell_range_is_inclusive() {
    let range = CellRange { min: Cell { x: -1, y: -1 }, max: Cell { x: 1, y: 1 } };
    assert!(range.contains(Cell { x: 1, y: -1 }));
    assert!(!range.contains(Cell { x: 2, y: 0 }));
}

#[test]
fn cell_range_lists_its_cells_column_by_column() {
    let range = CellRange { min: Cell { x: -1, y: 2 }, max: Cell { x: 0, y: 3 } };
    assert_eq!(
        range.cells(),
        vec![
            Cell { x: -1, y: 2 },
            Cell { x: -1, y: 3 },
            Cell { x: 0, y: 2 },
            Cell { x: 0, y: 3 },
        ]
    );
    let empty = CellRange { min: Cell { x: 1, y: 0 }, max: Cell { x: 0, y: 0 } };
    assert!(empty.cells().is_empty());
    let edge = CellRange { min: Cell { x: i32::MAX, y: i32::MAX }, max: Cell { x: i32::MAX, y: i32::MAX } };
    assert_eq!(edge.cells(), vec![Cell { x: i32::MAX, y: i32::MAX }]);
}

#[test]
fn cells_still_in_view_follow_their_chunk() {
    let mut chunks = BackdropChunks::new();
    let view = CellRange { min: Cell { x: 0, y: 0 }, max: Cell { x: 1, y: 1 } };
    let mut next = 100;
    for cell in view.cells() {
        if let Placement::Spawn(_) = chunks.place(2, cell, 1, 1) {
            chunks.record(2, cell, next);
            next += 1;
        }
    }
    // The view moves one column to the right.
    let moved = CellRange { min: Cell { x: 1, y: 0 }, max: Cell { x: 2, y: 1 } };
    let retired = chunks.retire_outside(2, moved);
    assert_eq!(retired, vec![100, 101]);
    assert_eq!(chunks.place(2, Cell { x: 1, y: 0 }, 1, 1), Placement::Follow(102));
    assert_eq!(chunks.place(2, Cell { x: 1, y: 1 }, 1, 1), Placement::Follow(103));
    assert!(matches!(chunks.place(2, Cell { x: 2, y: 0 }, 1, 1), Placement::Spawn(_)));
}
