use vstd::prelude::*;

use crate::types::NpcId;

verus! {

/// A live NPC entity: which definition it instantiates and its quest slot.
#[derive(Clone, Copy, Debug)]
pub struct Npc {
    pub id: NpcId,
    pub quest_index: u16,
}

impl Npc {
    pub fn new(id: NpcId, quest_index: u16) -> (npc: Self)
        ensures
            npc == (Npc { id, quest_index }),
    {
        Self { id, quest_index }
    }
}

/// The fixed facing of a placed NPC, in hundredths of a degree.
#[derive(Clone, Copy, Debug)]
pub struct NpcStandingDirection {
    pub direction: i32,
}

impl NpcStandingDirection {
    pub fn new(direction: i32) -> (d: Self)
        ensures
            d == (NpcStandingDirection { direction }),
    {
        Self { direction }
    }
}

} // verus!
