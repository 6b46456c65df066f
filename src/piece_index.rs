use vstd::prelude::*;

use std::collections::HashMap;
use vstd::seq_lib::lemma_seq_contains_after_push;

verus! {

broadcast use vstd::std_specs::hash::group_hash_axioms;

/// Index of a sector within its farm.
pub type SectorIndex = u16;

/// Index of a piece in the archived history.
pub type PieceIndex = u64;

/// Number of piece offsets there are: an offset is a `u16`, so pieces of a record past
/// this many have no location.
pub const PIECE_OFFSETS: usize = 65536;

/// Where one copy of a piece lives: farm, sector, and position within the sector.
#[derive(Debug, Clone, Copy, PartialEq, Eq, Structural)]
pub struct PieceLocation {
    pub piece_index: PieceIndex,
    pub farm_index: u8,
    pub sector_index: SectorIndex,
    pub piece_offset: u16,
}

/// The pieces that one plotted sector holds, in offset order.
#[derive(Debug, Clone, PartialEq, Eq)]
pub struct PlottedSectorRecord {
    pub sector_index: SectorIndex,
    pub pieces: Vec<PieceIndex>,
}

/// The locations that `record`, plotted in farm `farm_index`, contributes.
pub open spec fn record_locations(farm_index: u8, record: PlottedSectorRecord) -> Set<PieceLocation> {
    Set::new(
        |l: PieceLocation|
            l.farm_index == farm_index && l.sector_index == record.sector_index && l.piece_offset
                < record.pieces.len() && record.pieces@[l.piece_offset as int] == l.piece_index,
    )
}

/// The locations of a record that may be absent.
pub open spec fn maybe_record_locations(farm_index: u8, record: Option<PlottedSectorRecord>) -> Set<
    PieceLocation,
> {
    match record {
        Some(r) => record_locations(farm_index, r),
        None => Set::empty(),
    }
}

/// The index after a sector of farm `farm_index` finished plotting as `record`,
/// superseding `replaced` if it held an older record.
pub open spec fn after_sector_plotted(
    before: Set<PieceLocation>,
    farm_index: u8,
    record: PlottedSectorRecord,
    replaced: Option<PlottedSectorRecord>,
) -> Set<PieceLocation> {
    (before - maybe_record_locations(farm_index, replaced)) + record_locations(farm_index, record)
}

/// The locations of the readable records at `(farm, sector)` positions before
/// `(f, s)` in farm-then-sector order; `None` stands for a sector that could not be read.
pub open spec fn seeded_locations(
    farms: Seq<Vec<Option<PlottedSectorRecord>>>,
    f: int,
    s: int,
) -> Set<PieceLocation> {
    Set::new(
        |l: PieceLocation|
            exists|fi: int, si: int|
                #![trigger farms[fi]@[si]]
                0 <= fi < farms.len() && 0 <= si < farms[fi].len() && (fi < f || (fi == f && si
                    < s)) && farms[fi]@[si] is Some && record_locations(
                    fi as u8,
                    farms[fi]@[si]->Some_0,
                ).contains(l),
    )
}

/// The locations of every readable record of every farm.
pub open spec fn readable_locations(farms: Seq<Vec<Option<PlottedSectorRecord>>>) -> Set<
    PieceLocation,
> {
    seeded_locations(farms, farms.len() as int, 0)
}

/// Whether `locations` holds `location`.
fn find(locations: &Vec<PieceLocation>, location: &PieceLocation) -> (r: bool)
    ensures
        r == locations@.contains(*location),
{
    let mut i: usize = 0;
    while i < locations.len()
        invariant
            i <= locations.len(),
            forall|k: int| 0 <= k < i ==> locations@[k] != *location,
        decreases locations.len() - i,
    {
        if locations[i] == *location {
            return true;
        }
        i = i + 1;
    }
    false
}

/// The locations of `record` whose offset is below `offset`.
pub open spec fn record_locations_below(
    farm_index: u8,
    record: PlottedSectorRecord,
    offset: int,
) -> Set<PieceLocation> {
    Set::new(
        |l: PieceLocation| record_locations(farm_index, record).contains(l) && l.piece_offset < offset,
    )
}

/// The index of plotted pieces: which farm, sector and offset hold each piece, kept
/// by piece index.
pub struct PlottedPieceIndex {
    pieces: HashMap<PieceIndex, Vec<PieceLocation>>,
}

impl View for PlottedPieceIndex {
    type V = Set<PieceLocation>;

    closed spec fn view(&self) -> Set<PieceLocation> {
        Set::new(
            |l: PieceLocation|
                self.pieces@.contains_key(l.piece_index) && self.pieces@[l.piece_index]@.contains(l),
        )
    }
}

impl PlottedPieceIndex {
    /// Each piece index maps to the distinct, non-empty list of its own locations.
    pub closed spec fn wf(&self) -> bool {
        forall|p: PieceIndex|
            #[trigger] self.pieces@.contains_key(p) ==> {
                &&& self.pieces@[p]@.len() > 0
                &&& self.pieces@[p]@.no_duplicates()
                &&& forall|k: int|
                    0 <= k < self.pieces@[p]@.len() ==> (#[trigger] self.pieces@[p]@[k]).piece_index
                        == p
            }
    }

    /// An empty index.
    pub fn new() -> (r: Self)
        ensures
            r.wf(),
            r@ == Set::<PieceLocation>::empty(),
    {
        let r = PlottedPieceIndex { pieces: HashMap::new() };
        assert(r@ =~= Set::<PieceLocation>::empty());
        r
    }

    /// Every location of the piece `piece_index`, each once.
    pub fn locations_of(&self, piece_index: PieceIndex) -> (r: Vec<PieceLocation>)
        requires
            self.wf(),
        ensures
            r@.no_duplicates(),
            forall|l: PieceLocation|
                r@.contains(l) <==> self@.contains(l) && l.piece_index == piece_index,
    {
        match self.pieces.get(&piece_index) {
            Some(locations) => {
                let r = locations.clone();
                assert(r@ =~= locations@);
                r
            },
            None => Vec::new(),
        }
    }

    /// Whether `location` is recorded.
    pub fn contains(&self, location: &PieceLocation) -> (r: bool)
        requires
            self.wf(),
        ensures
            r == self@.contains(*location),
    {
        match self.pieces.get(&location.piece_index) {
            Some(locations) => find(locations, location),
            None => false,
        }
    }

    /// Whether some farm holds the piece `piece_index`.
    pub fn contains_piece(&self, piece_index: PieceIndex) -> (r: bool)
        requires
            self.wf(),
        ensures
            r == exists|l: PieceLocation| self@.contains(l) && l.piece_index == piece_index,
    {
        let r = self.pieces.contains_key(&piece_index);
        if r {
            assert(self@.contains(self.pieces@[piece_index]@[0]));
        }
        r
    }

    /// Takes the locations of `key` out of the map, empty if there are none.
    fn take_locations(&mut self, key: PieceIndex) -> (r: Vec<PieceLocation>)
        requires
            old(self).wf(),
        ensures
            final(self).wf(),
            final(self).pieces@ == old(self).pieces@.remove(key),
            old(self).pieces@.contains_key(key) ==> r == old(self).pieces@[key],
            !old(self).pieces@.contains_key(key) ==> r@.len() == 0,
    {
        match self.pieces.remove(&key) {
            Some(locations) => locations,
            None => Vec::new(),
        }
    }

    /// Records `location`.
    fn add_location(&mut self, location: PieceLocation)
        requires
            old(self).wf(),
        ensures
            final(self).wf(),
            final(self)@ == old(self)@.insert(location),
    {
        let ghost start = self@;
        let ghost old_map = self.pieces@;
        let key = location.piece_index;
        let mut locations = self.take_locations(key);
        let ghost taken = locations@;
        assert(forall|k: int| 0 <= k < taken.len() ==> (#[trigger] taken[k]).piece_index == key);
        if !find(&locations, &location) {
            locations.push(location);
            proof {
                assert forall|x: PieceLocation| #[trigger] locations@.contains(x) <==> (taken.contains(x)
                    || x == location) by {
                    lemma_seq_contains_after_push(taken, location, x);
                }
            }
        }
        let ghost new_locations = locations@;
        assert(new_locations.len() > 0);
        assert(forall|k: int|
            0 <= k < new_locations.len() ==> (#[trigger] new_locations[k]).piece_index == key);
        self.pieces.insert(key, locations);
        assert(self.pieces@ == old_map.insert(key, self.pieces@[key]));
        assert forall|l: PieceLocation| #[trigger] self@.contains(l) <==> start.insert(location).contains(l) by {
            if l.piece_index == key {
                assert(self@.contains(l) <==> new_locations.contains(l));
            } else {
                assert(self@.contains(l) <==> start.contains(l));
            }
        }
        assert(self@ =~= start.insert(location));
    }

    /// Forgets `location`.
    fn remove_location(&mut self, location: PieceLocation)
        requires
            old(self).wf(),
        ensures
            final(self).wf(),
            final(self)@ == old(self)@.remove(location),
    {
        let ghost start = self@;
        let ghost old_map = self.pieces@;
        let key = location.piece_index;
        let locations = self.take_locations(key);
        let ghost taken = locations@;
        let mut kept: Vec<PieceLocation> = Vec::with_capacity(locations.len());
        let mut i: usize = 0;
        while i < locations.len()
            invariant
                i <= locations.len(),
                taken == locations@,
                old_map.contains_key(key) ==> taken.no_duplicates(),
                old_map.contains_key(key) ==> taken == old_map[key]@,
                !old_map.contains_key(key) ==> taken.len() == 0,
                kept@.no_duplicates(),
                forall|k: int| 0 <= k < kept.len() ==> (#[trigger] kept@[k]).piece_index == key,
                forall|k: int| 0 <= k < taken.len() ==> (#[trigger] taken[k]).piece_index == key,
                forall|l: PieceLocation|
                    #[trigger] kept@.contains(l) <==> (taken.take(i as int).contains(l) && l != location),
            decreases locations.len() - i,
        {
            let l = locations[i];
            let ghost before = kept@;
            assert(taken.take(i as int + 1) =~= taken.take(i as int).push(l));
            if l != location {
                proof {
                    if before.contains(l) {
                        let m = choose|m: int| 0 <= m < i && taken.take(i as int)[m] == l;
                        assert(taken[m] == taken[i as int]);
                    }
                }
                kept.push(l);
            }
            proof {
                assert forall|x: PieceLocation| #[trigger] kept@.contains(x) <==> (taken.take(
                    i as int + 1,
                ).contains(x) && x != location) by {
                    lemma_seq_contains_after_push(taken.take(i as int), l, x);
                    lemma_seq_contains_after_push(before, l, x);
                }
            }
            i = i + 1;
        }
        assert(taken.take(taken.len() as int) =~= taken);
        let ghost kept_locations = kept@;
        if kept.len() > 0 {
            self.pieces.insert(key, kept);
            assert(self.pieces@ == old_map.insert(key, self.pieces@[key]));
        } else {
            assert(self.pieces@ == old_map.remove(key));
        }
        assert forall|l: PieceLocation| #[trigger] self@.contains(l) <==> start.remove(location).contains(l) by {
            if l.piece_index == key {
                assert(self@.contains(l) <==> kept_locations.contains(l));
            } else {
                assert(self@.contains(l) <==> start.contains(l));
            }
        }
        assert(self@ =~= start.remove(location));
    }

    /// Records every piece of `record` as plotted in farm `farm_index`.
    pub fn add_sector(&mut self, farm_index: u8, record: &PlottedSectorRecord)
        requires
            old(self).wf(),
        ensures
            final(self).wf(),
            final(self)@ == old(self)@ + record_locations(farm_index, *record),
    {
        let ghost start = self@;
        let mut offset: usize = 0;
        while offset < record.pieces.len() && offset < PIECE_OFFSETS
            invariant
                offset <= PIECE_OFFSETS,
                self.wf(),
                self@ == start + record_locations_below(farm_index, *record, offset as int),
            decreases record.pieces.len() - offset,
        {
            let location = PieceLocation {
                piece_index: record.pieces[offset],
                farm_index,
                sector_index: record.sector_index,
                piece_offset: offset as u16,
            };
            self.add_location(location);
            assert(record_locations_below(farm_index, *record, offset as int + 1)
                =~= record_locations_below(farm_index, *record, offset as int).insert(location));
            offset = offset + 1;
        }
        assert(record_locations_below(farm_index, *record, offset as int) =~= record_locations(
            farm_index,
            *record,
        ));
    }

    /// Forgets every piece of `record` as plotted in farm `farm_index`.
    pub fn delete_sector(&mut self, farm_index: u8, record: &PlottedSectorRecord)
        requires
            old(self).wf(),
        ensures
            final(self).wf(),
            final(self)@ == old(self)@ - record_locations(farm_index, *record),
    {
        let ghost start = self@;
        let mut offset: usize = 0;
        while offset < record.pieces.len() && offset < PIECE_OFFSETS
            invariant
                offset <= PIECE_OFFSETS,
                self.wf(),
                self@ == start - record_locations_below(farm_index, *record, offset as int),
            decreases record.pieces.len() - offset,
        {
            let location = PieceLocation {
                piece_index: record.pieces[offset],
                farm_index,
                sector_index: record.sector_index,
                piece_offset: offset as u16,
            };
            self.remove_location(location);
            assert(record_locations_below(farm_index, *record, offset as int + 1)
                =~= record_locations_below(farm_index, *record, offset as int).insert(location));
            assert(self@ =~= start - record_locations_below(
                farm_index,
                *record,
                offset as int + 1,
            ));
            offset = offset + 1;
        }
        assert(record_locations_below(farm_index, *record, offset as int) =~= record_locations(
            farm_index,
            *record,
        ));
    }

    /// Applies a finished plotting of a sector of farm `farm_index`: the pieces of the
    /// replaced record, if any, are forgotten and those of the new record added, in one
    /// step.
    pub fn on_sector_plotted(
        &mut self,
        farm_index: u8,
        record: &PlottedSectorRecord,
        replaced: &Option<PlottedSectorRecord>,
    )
        requires
            old(self).wf(),
        ensures
            final(self).wf(),
            final(self)@ == after_sector_plotted(old(self)@, farm_index, *record, *replaced),
    {
        let ghost start = self@;
        match replaced {
            Some(old_record) => self.delete_sector(farm_index, old_record),
            None => {
                assert(self@ =~= start - maybe_record_locations(farm_index, *replaced));
            },
        }
        self.add_sector(farm_index, record);
    }

    /// Builds the index from the plotted sectors found on the farms at startup, in farm
    /// index order. `farms[f][s]` is the record read from sector position `s` of farm `f`,
    /// or `None` where it could not be read; such sectors are skipped.
    pub fn seed(farms: &Vec<Vec<Option<PlottedSectorRecord>>>) -> (r: Self)
        requires
            farms.len() <= 256,
        ensures
            r.wf(),
            r@ == readable_locations(farms@),
    {
        let mut index = PlottedPieceIndex::new();
        let mut f: usize = 0;
        proof {
            assert(index@ =~= seeded_locations(farms@, 0, 0));
        }
        while f < farms.len()
            invariant
                farms.len() <= 256,
                f <= farms.len(),
                index.wf(),
                index@ == seeded_locations(farms@, f as int, 0),
            decreases farms.len() - f,
        {
            let sectors = &farms[f];
            let mut s: usize = 0;
            while s < sectors.len()
                invariant
                    farms.len() <= 256,
                    f < farms.len(),
                    sectors == farms@[f as int],
                    s <= sectors.len(),
                    index.wf(),
                    index@ == seeded_locations(farms@, f as int, s as int),
                decreases sectors.len() - s,
            {
                match &sectors[s] {
                    Some(record) => index.add_sector(f as u8, record),
                    None => {},
                }
                proof {
                    lemma_seeded_step(farms@, f as int, s as int);
                }
                s = s + 1;
            }
            proof {
                lemma_seeded_next_farm(farms@, f as int);
            }
            f = f + 1;
        }
        index
    }
}

proof fn lemma_seeded_step(farms: Seq<Vec<Option<PlottedSectorRecord>>>, f: int, s: int)
    requires
        0 <= f < farms.len(),
        0 <= s < farms[f].len(),
    ensures
        seeded_locations(farms, f, s + 1) == seeded_locations(farms, f, s) + match farms[f]@[s] {
            Some(record) => record_locations(f as u8, record),
            None => Set::empty(),
        },
{
    let added = match farms[f]@[s] {
        Some(record) => record_locations(f as u8, record),
        None => Set::<PieceLocation>::empty(),
    };
    assert forall|l: PieceLocation| seeded_locations(farms, f, s + 1).contains(l) implies (
    seeded_locations(farms, f, s) + added).contains(l) by {
        let (fi, si) = choose|fi: int, si: int|
            #![trigger farms[fi]@[si]]
            0 <= fi < farms.len() && 0 <= si < farms[fi].len() && (fi < f || (fi == f && si < s
                + 1)) && farms[fi]@[si] is Some && record_locations(
                fi as u8,
                farms[fi]@[si]->Some_0,
            ).contains(l);
        if !(fi == f && si == s) {
            assert(seeded_locations(farms, f, s).contains(l));
        }
    }
    assert forall|l: PieceLocation| (seeded_locations(farms, f, s) + added).contains(l) implies seeded_locations(
        farms,
        f,
        s + 1,
    ).contains(l) by {
        if !seeded_locations(farms, f, s).contains(l) {
            assert(farms[f]@[s] is Some);
        }
    }
    assert(seeded_locations(farms, f, s + 1) =~= seeded_locations(farms, f, s) + added);
}

proof fn lemma_seeded_next_farm(farms: Seq<Vec<Option<PlottedSectorRecord>>>, f: int)
    requires
        0 <= f < farms.len(),
    ensures
        seeded_locations(farms, f, farms[f].len() as int) == seeded_locations(farms, f + 1, 0),
{
    assert(seeded_locations(farms, f, farms[f].len() as int) =~= seeded_locations(farms, f + 1, 0));
}

/// After a sector finishes plotting over an older record, the index holds every piece
/// of the new record, and none of the replaced record's pieces that the new record does
/// not hold too.
pub proof fn lemma_replacement_supersedes(
    before: Set<PieceLocation>,
    farm_index: u8,
    record: PlottedSectorRecord,
    replaced: PlottedSectorRecord,
)
    ensures
        record_locations(farm_index, record).subset_of(
            after_sector_plotted(before, farm_index, record, Some(replaced)),
        ),
        forall|l: PieceLocation|
            #![trigger after_sector_plotted(before, farm_index, record, Some(replaced)).contains(l)]
            record_locations(farm_index, replaced).contains(l) && !record_locations(
                farm_index,
                record,
            ).contains(l) ==> !after_sector_plotted(
                before,
                farm_index,
                record,
                Some(replaced),
            ).contains(l),
{
}

} // verus!
