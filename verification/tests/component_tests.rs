use rose_sim::character::{CharacterInfo, StatPoints, UnionMembership};
use rose_sim::npc::{Npc, NpcStandingDirection};
use rose_sim::quest::{PendingQuestTrigger, PendingQuestTriggerList};
use rose_sim::types::{Entity, NpcId, Position, QuestTriggerHash, ZoneId};

#[test]
fn new_npc_keeps_its_identity() {
    let npc = Npc::new(NpcId(471), 3);
    assert_eq!(npc.id, NpcId(471));
    assert_eq!(npc.quest_index, 3);
}

#[test]
fn npc_standing_direction_keeps_its_angle() {
    let dir = NpcStandingDirection::new(27_050);
    assert_eq!(dir.direction, 27_050);
}

#[test]
fn new_stat_points_start_at_zero() {
    assert_eq!(StatPoints::new().points, 0);
}

#[test]
fn new_union_membership_is_empty() {
    let m = UnionMembership::new();
    assert!(m.current_union.is_none());
    assert_eq!(m.points, [0u32; 10]);
}

#[test]
fn character_info_carries_its_revive_point() {
    let info = CharacterInfo {
        name: "alder".to_string(),
        gender: 1,
        birth_stone: 4,
        job: 111,
        face: 2,
        hair: 3,
        rank: 0,
        fame: 0,
        fame_b: 0,
        fame_g: 0,
        revive_zone_id: ZoneId(22),
        revive_position: Position { x: 5200, y: 5200, z: 0 },
    };
    assert_eq!(info.revive_zone_id, ZoneId(22));
    assert_eq!(info.revive_position, Position { x: 5200, y: 5200, z: 0 });
}

#[test]
fn pending_quest_trigger_list_collects_triggers() {
    let mut list: PendingQuestTriggerList = Vec::new();
    list.push(PendingQuestTrigger {
        trigger_entity: Entity(12),
        trigger_hash: QuestTriggerHash(0xDEAD_BEEF),
    });
    assert_eq!(list.len(), 1);
    assert_eq!(list[0].trigger_entity, Entity(12));
    assert_eq!(list[0].trigger_hash, QuestTriggerHash(0xDEAD_BEEF));
}
