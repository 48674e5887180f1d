use vstd::prelude::*;

use crate::types::{Entity, QuestTriggerHash};

verus! {

/// A quest trigger raised by an entity and awaiting resolution.
#[derive(Clone, Copy, Debug)]
pub struct PendingQuestTrigger {
    pub trigger_entity: Entity,
    pub trigger_hash: QuestTriggerHash,
}

pub type PendingQuestTriggerList = Vec<PendingQuestTrigger>;

} // verus!
