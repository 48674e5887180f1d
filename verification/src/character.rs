use vstd::prelude::*;

use crate::types::{Position, ZoneId};

verus! {

/// Persistent identity and appearance of a player character, attached to the
/// entity as data; this core only reads the revive fields.
#[derive(Clone, Debug)]
pub struct CharacterInfo {
    pub name: String,
    pub gender: u8,
    pub birth_stone: u8,
    pub job: u16,
    pub face: u8,
    pub hair: u8,
    pub rank: u8,
    pub fame: u8,
    pub fame_b: u16,
    pub fame_g: u16,
    pub revive_zone_id: ZoneId,
    pub revive_position: Position,
}

/// Unspent stat points of a character.
#[derive(Clone, Copy, Debug)]
pub struct StatPoints {
    pub points: u32,
}

impl StatPoints {
    pub fn new() -> (s: Self)
        ensures
            s == (StatPoints { points: 0 }),
    {
        Self { points: 0 }
    }
}

/// Membership of a character in one of the unions, with per-union points.
#[derive(Clone, Copy, Debug)]
pub struct UnionMembership {
    /// Index of the current union; a union index is never zero.
    pub current_union: Option<usize>,
    pub points: [u32; 10],
}

impl UnionMembership {
    /// A present union index is non-zero.
    pub open spec fn wf(self) -> bool {
        self.current_union matches Some(u) ==> u != 0
    }

    pub fn new() -> (m: Self)
        ensures
            m.current_union is None,
            forall|i: int| 0 <= i < 10 ==> m.points@[i] == 0,
            m.wf(),
    {
        Self { current_union: None, points: [0;10] }
    }
}

} // verus!
