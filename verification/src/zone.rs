use vstd::prelude::*;

use crate::types::{NpcConversationReference, NpcReference, PlanarPosition, Position};

verus! {

/// Static definition of one monster spawn point within a zone.
#[derive(Clone, Debug)]
pub struct ZoneMonsterSpawnPoint {
    /// Spatial origin of the spawn point.
    pub position: Position,
    /// Default population mix: (NPC type, requested count) pairs.
    pub basic_spawns: Vec<(NpcReference, usize)>,
    /// Alternate mix used once the accumulated tactic resource reaches the
    /// threshold.
    pub tactic_spawns: Vec<(NpcReference, usize)>,
    /// Time between spawn evaluations, in time units.
    pub interval: u32,
    /// Ceiling on the live population attributable to this point.
    pub limit_count: u32,
    /// Radius around `position` within which spawned entities are placed.
    pub range: u32,
    /// Tactic resource threshold gating the tactic mix (inclusive).
    pub tactic_points: u32,
}

/// Fixed NPC placement, instantiated once at zone load and never re-spawned.
#[derive(Clone, Debug)]
pub struct ZoneNpcSpawn {
    pub npc: NpcReference,
    pub position: Position,
    /// Facing, in hundredths of a degree.
    pub direction: i32,
    pub conversation: NpcConversationReference,
}

/// Immutable definition of a zone, loaded once and shared read-only. The
/// geometry fields are consumed by external spatial-partition collaborators
/// and never interpreted here.
#[derive(Clone, Debug)]
pub struct ZoneData {
    pub id: u16,
    pub name: String,
    pub sector_size: u32,
    pub grid_per_patch: u32,
    pub grid_size: u32,
    pub monster_spawns: Vec<ZoneMonsterSpawnPoint>,
    pub npcs: Vec<ZoneNpcSpawn>,
    pub sectors_base_position: PlanarPosition,
    pub num_sectors_x: u32,
    pub num_sectors_y: u32,
    /// Default entry point of the zone.
    pub start_position: Position,
    /// Candidate respawn points; empty is legal and means no revive is
    /// available.
    pub revive_positions: Vec<Position>,
}

impl ZoneData {
    /// The revive position nearest to `origin` by planar distance, ties
    /// resolved in favour of the earliest entry; `None` when the zone has no
    /// revive positions. Callers treat `None` as recoverable, falling back to
    /// `start_position`.
    pub fn get_closest_revive_position(&self, origin: Position) -> (r: Option<Position>)
        ensures
            match r {
                None => self.revive_positions@.len() == 0,
                Some(p) => exists|i: int|
                    {
                        &&& 0 <= i < self.revive_positions@.len()
                        &&& p == #[trigger] self.revive_positions@[i]
                        &&& forall|j: int|
                            0 <= j < self.revive_positions@.len()
                                ==> p.planar_distance_sq(origin)
                                <= #[trigger] self.revive_positions@[j].planar_distance_sq(origin)
                        &&& forall|j: int|
                            0 <= j < i
                                ==> #[trigger] self.revive_positions@[j].planar_distance_sq(origin)
                                > p.planar_distance_sq(origin)
                    },
            },
    {
        if self.revive_positions.len() == 0 {
            return None;
        }
        let mut best_index: usize = 0;
        let mut best_distance: i128 = self.revive_positions[0].planar_distance_squared(&origin);
        let mut i: usize = 1;
        while i < self.revive_positions.len()
            invariant
                1 <= i <= self.revive_positions@.len(),
                best_index < i,
                best_distance == self.revive_positions@[best_index as int].planar_distance_sq(
                    origin,
                ),
                forall|j: int|
                    0 <= j < i ==> best_distance
                        <= #[trigger] self.revive_positions@[j].planar_distance_sq(origin),
                forall|j: int|
                    0 <= j < best_index
                        ==> #[trigger] self.revive_positions@[j].planar_distance_sq(origin)
                        > best_distance,
            decreases self.revive_positions@.len() - i,
        {
            let d = self.revive_positions[i].planar_distance_squared(&origin);
            if d < best_distance {
                best_distance = d;
                best_index = i;
            }
            i = i + 1;
        }
        Some(self.revive_positions[best_index])
    }
}

/// Registry of all zones, keyed by numeric zone id.
pub struct ZoneDatabase {
    zones: Vec<ZoneData>,
}

impl View for ZoneDatabase {
    type V = Seq<ZoneData>;

    closed spec fn view(&self) -> Seq<ZoneData> {
        self.zones@
    }
}

impl ZoneDatabase {
    /// Zone ids are unique across the catalog; lookups are by id only.
    pub open spec fn wf(self) -> bool {
        forall|i: int, j: int|
            0 <= i < j < self@.len() ==> #[trigger] self@[i].id != #[trigger] self@[j].id
    }

    pub fn new(zones: Vec<ZoneData>) -> (db: Self)
        requires
            forall|i: int, j: int|
                0 <= i < j < zones@.len() ==> #[trigger] zones@[i].id != #[trigger] zones@[j].id,
        ensures
            db@ == zones@,
            db.wf(),
    {
        Self { zones }
    }

    /// Read-only access to every zone definition, in catalog order.
    pub fn iter(&self) -> (zones: &Vec<ZoneData>)
        ensures
            zones@ == self@,
    {
        &self.zones
    }

    /// Look up a zone by id. As in the wire format, only the low 16 bits of
    /// `id` identify a zone.
    pub fn get_zone(&self, id: usize) -> (r: Option<&ZoneData>)
        ensures
            match r {
                Some(z) => exists|i: int|
                    0 <= i < self@.len() && (#[trigger] self@[i]).id == id as u16 && *z == self@[i],
                None => forall|i: int| 0 <= i < self@.len() ==> (#[trigger] self@[i]).id != id as u16,
            },
    {
        let target: u16 = #[verifier::truncate] (id as u16);
        let mut i: usize = 0;
        while i < self.zones.len()
            invariant
                i <= self@.len(),
                target == id as u16,
                forall|j: int| 0 <= j < i ==> (#[trigger] self@[j]).id != id as u16,
            decreases self@.len() - i,
        {
            if self.zones[i].id == target {
                return Some(&self.zones[i]);
            }
            i = i + 1;
        }
        None
    }
}

} // verus!
