use vstd::prelude::*;

verus! {

/// Handle to a live entity in the world. The simulation core treats it as an
/// opaque identifier: entity references held inside actions are weak, and the
/// surrounding runtime looks them up again each time they are needed.
#[derive(Clone, Copy, Debug, PartialEq, Eq, Structural)]
pub struct Entity(pub u64);

/// Identifier of a skill definition.
#[derive(Clone, Copy, Debug, PartialEq, Eq, Structural)]
pub struct SkillId(pub u16);

/// Identifier of an NPC definition.
#[derive(Clone, Copy, Debug, PartialEq, Eq, Structural)]
pub struct NpcId(pub u16);

/// Index of an NPC definition in the NPC catalog.
#[derive(Clone, Copy, Debug, PartialEq, Eq, Structural)]
pub struct NpcReference(pub usize);

/// Reference to an NPC conversation script.
#[derive(Clone, Debug, PartialEq, Eq)]
pub struct NpcConversationReference(pub String);

/// Index of a zone in the zone catalog.
#[derive(Clone, Copy, Debug, PartialEq, Eq, Structural)]
pub struct ZoneReference(pub usize);

/// Numeric identifier of a zone.
#[derive(Clone, Copy, Debug, PartialEq, Eq, Structural)]
pub struct ZoneId(pub u16);

/// Hash identifying a quest trigger.
#[derive(Clone, Copy, Debug, PartialEq, Eq, Structural)]
pub struct QuestTriggerHash(pub u32);

/// How an entity travels while executing a movement command.
#[derive(Clone, Copy, Debug, PartialEq, Eq, Structural)]
pub enum MoveMode {
    Walk,
    Run,
    Drive,
}

/// A snapshot of damage dealt, carried inside a death command.
#[derive(Clone, Copy, Debug, PartialEq, Eq, Structural)]
pub struct Damage {
    pub amount: u32,
    pub is_critical: bool,
    pub apply_hit_stun: bool,
}

/// A slot in an entity's inventory or equipment, reduced to its index.
#[derive(Clone, Copy, Debug, PartialEq, Eq, Structural)]
pub struct ItemSlot(pub usize);

/// An item payload carried through a command, reduced to the identifying
/// fields this core moves around without interpreting.
#[derive(Clone, Copy, Debug, PartialEq, Eq, Structural)]
pub struct Item {
    pub item_type: u16,
    pub item_number: u16,
    pub quantity: u32,
}

/// A point in world space. Coordinates are integer world units; the core only
/// ever compares planar distances, which stay exact over the integers.
#[derive(Clone, Copy, Debug, PartialEq, Eq, Structural)]
pub struct Position {
    pub x: i32,
    pub y: i32,
    pub z: i32,
}

/// A point in the horizontal plane, used for ground-targeted skills and
/// sector origins.
#[derive(Clone, Copy, Debug, PartialEq, Eq, Structural)]
pub struct PlanarPosition {
    pub x: i32,
    pub y: i32,
}

impl Position {
    /// Squared distance between two points ignoring the vertical axis.
    pub open spec fn planar_distance_sq(self, other: Position) -> int {
        (self.x - other.x) * (self.x - other.x) + (self.y - other.y) * (self.y - other.y)
    }

    /// Squared planar distance, computed exactly.
    pub fn planar_distance_squared(&self, other: &Position) -> (d: i128)
        ensures
            d == self.planar_distance_sq(*other),
    {
        let dx: i128 = (self.x as i128) - (other.x as i128);
        let dy: i128 = (self.y as i128) - (other.y as i128);
        proof {
            assert(dx * dx + dy * dy <= 0x2_0000_0000_0000_0000i128 && dx * dx >= 0 && dy * dy
                >= 0) by (nonlinear_arith)
                requires
                    -0x1_0000_0000i128 <= dx <= 0x1_0000_0000i128,
                    -0x1_0000_0000i128 <= dy <= 0x1_0000_0000i128,
            ;
        }
        dx * dx + dy * dy
    }
}

} // verus!
