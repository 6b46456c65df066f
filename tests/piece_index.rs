use farm_supervisor::piece_index::{PieceLocation, PlottedPieceIndex, PlottedSectorRecord};

fn record(sector_index: u16, pieces: &[u64]) -> PlottedSectorRecord {
    PlottedSectorRecord { sector_index, pieces: pieces.to_vec() }
}

fn location(piece_index: u64, farm_index: u8, sector_index: u16, piece_offset: u16) -> PieceLocation {
    PieceLocation { piece_index, farm_index, sector_index, piece_offset }
}

fn sorted_locations(index: &PlottedPieceIndex, piece_index: u64) -> Vec<(u8, u16, u16)> {
    let mut found: Vec<(u8, u16, u16)> = index
        .locations_of(piece_index)
        .iter()
        .map(|l| {
            assert_eq!(l.piece_index, piece_index);
            (l.farm_index, l.sector_index, l.piece_offset)
        })
        .collect();
    found.sort();
    found
}

#[test]
fn new_index_is_empty() {
    let index = PlottedPieceIndex::new();
    assert!(!index.contains_piece(0));
    assert!(index.locations_of(0).is_empty());
}

#[test]
fn seeding_collects_readable_sectors_of_all_farms() {
    let farms = vec![
        vec![Some(record(0, &[10, 11])), None, Some(record(2, &[12]))],
        vec![],
        vec![None, Some(record(1, &[20, 10]))],
    ];
    let index = PlottedPieceIndex::seed(&farms);
    assert_eq!(sorted_locations(&index, 10), vec![(0, 0, 0), (2, 1, 1)]);
    assert_eq!(sorted_locations(&index, 11), vec![(0, 0, 1)]);
    assert_eq!(sorted_locations(&index, 12), vec![(0, 2, 0)]);
    assert_eq!(sorted_locations(&index, 20), vec![(2, 1, 0)]);
    assert!(index.contains(&location(10, 2, 1, 1)));
    assert!(!index.contains_piece(13));
}

#[test]
fn unreadable_sectors_are_skipped() {
    let farms = vec![vec![None, None]];
    let index = PlottedPieceIndex::seed(&farms);
    assert!(!index.contains_piece(0));
}

#[test]
fn replotted_sector_replaces_old_pieces() {
    let mut index = PlottedPieceIndex::seed(&vec![vec![Some(record(0, &[1, 2, 3]))]]);
    index.on_sector_plotted(0, &record(0, &[3, 4, 2]), &Some(record(0, &[1, 2, 3])));
    assert!(!index.contains_piece(1));
    assert_eq!(sorted_locations(&index, 3), vec![(0, 0, 0)]);
    assert_eq!(sorted_locations(&index, 4), vec![(0, 0, 1)]);
    assert_eq!(sorted_locations(&index, 2), vec![(0, 0, 2)]);
}

#[test]
fn replacement_keeps_shared_locations() {
    let mut index = PlottedPieceIndex::seed(&vec![vec![Some(record(5, &[8, 9]))]]);
    index.on_sector_plotted(0, &record(5, &[8, 7]), &Some(record(5, &[8, 9])));
    assert_eq!(sorted_locations(&index, 8), vec![(0, 5, 0)]);
    assert_eq!(sorted_locations(&index, 7), vec![(0, 5, 1)]);
    assert!(!index.contains_piece(9));
}

#[test]
fn newly_plotted_sector_is_added() {
    let mut index = PlottedPieceIndex::new();
    index.on_sector_plotted(3, &record(1, &[42]), &None);
    assert!(index.contains(&location(42, 3, 1, 0)));
    assert_eq!(sorted_locations(&index, 42), vec![(3, 1, 0)]);
}

#[test]
fn adding_a_sector_twice_does_not_duplicate() {
    let mut index = PlottedPieceIndex::new();
    index.add_sector(1, &record(0, &[5, 6]));
    index.add_sector(1, &record(0, &[5, 6]));
    assert_eq!(sorted_locations(&index, 5), vec![(1, 0, 0)]);
    assert_eq!(sorted_locations(&index, 6), vec![(1, 0, 1)]);
    index.delete_sector(1, &record(0, &[5, 6]));
    assert!(!index.contains_piece(5));
    assert!(!index.contains_piece(6));
}

#[test]
fn deleting_only_touches_its_own_farm() {
    let mut index = PlottedPieceIndex::new();
    index.add_sector(0, &record(0, &[5]));
    index.add_sector(1, &record(0, &[5]));
    index.delete_sector(0, &record(0, &[5]));
    assert!(index.contains(&location(5, 1, 0, 0)));
    assert!(!index.contains(&location(5, 0, 0, 0)));
    assert_eq!(sorted_locations(&index, 5), vec![(1, 0, 0)]);
}
