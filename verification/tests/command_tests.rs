use rose_sim::command::{
    Command, CommandAttack, CommandCastSkillTarget, CommandData, CommandDie, CommandMove,
    NextCommand,
};
use rose_sim::types::{Entity, ItemSlot, Item, MoveMode, PlanarPosition, Position, SkillId};

fn pos(x: i32, y: i32, z: i32) -> Position {
    Position { x, y, z }
}

#[test]
fn default_command_is_interruptible_stop() {
    let cmd = Command::default();
    assert!(matches!(cmd.command, CommandData::Stop));
    assert_eq!(cmd.duration, 0);
    assert_eq!(cmd.required_duration, None);
}

#[test]
fn default_next_command_is_empty() {
    let next = NextCommand::default();
    assert!(next.command.is_none());
    assert!(!next.has_sent_server_message);
}

#[test]
fn with_attack_is_committed_with_caller_duration() {
    let cmd = Command::with_attack(Entity(7), 120);
    assert!(matches!(
        cmd.command,
        CommandData::Attack(CommandAttack { target }) if target == Entity(7)
    ));
    assert_eq!(cmd.duration, 0);
    assert_eq!(cmd.required_duration, Some(120));
}

#[test]
fn with_personal_store_never_expires_by_duration() {
    let cmd = Command::with_personal_store();
    assert!(matches!(cmd.command, CommandData::PersonalStore));
    assert_eq!(cmd.required_duration, Some(u64::MAX));
}

#[test]
fn with_cast_skill_sums_casting_and_action_phases() {
    let cmd = Command::with_cast_skill(
        SkillId(11),
        Some(CommandCastSkillTarget::Position(PlanarPosition { x: 1, y: 2 })),
        70,
        30,
    );
    assert_eq!(cmd.required_duration, Some(100));
    assert_eq!(cmd.duration, 0);
}

#[test]
fn with_die_takes_optional_duration() {
    let cmd = Command::with_die(Some(Entity(3)), None, Some(40));
    assert!(cmd.is_dead());
    assert_eq!(cmd.required_duration, Some(40));
    let cmd = Command::with_die(None, None, None);
    assert!(cmd.is_dead());
    assert_eq!(cmd.required_duration, None);
}

#[test]
fn get_target_reads_attack_and_move_targets() {
    let attack = Command::with_attack(Entity(9), 10);
    assert_eq!(attack.get_target(), Some(Entity(9)));
    let mv = Command::with_move(pos(1, 2, 3), Some(Entity(4)), Some(MoveMode::Run));
    assert_eq!(mv.get_target(), Some(Entity(4)));
    let mv_free = Command::with_move(pos(1, 2, 3), None, None);
    assert_eq!(mv_free.get_target(), None);
    let stop = Command::with_stop();
    assert_eq!(stop.get_target(), None);
}

#[test]
fn tick_adopts_staged_action_when_uncommitted() {
    let mut cmd = Command::with_stop();
    let mut next = NextCommand::with_attack(Entity(5));
    cmd.tick(&mut next, 16, Some(100));
    assert!(matches!(
        cmd.command,
        CommandData::Attack(CommandAttack { target }) if target == Entity(5)
    ));
    assert_eq!(cmd.duration, 0);
    assert_eq!(cmd.required_duration, Some(100));
    assert!(next.command.is_none());
}

#[test]
fn tick_keeps_committed_action_until_complete() {
    let mut cmd = Command::with_attack(Entity(5), 100);
    let mut next = NextCommand::with_move(pos(0, 0, 0), None, None);
    cmd.tick(&mut next, 30, None);
    // Still attacking, 30 units in; the move stays staged.
    assert!(matches!(cmd.command, CommandData::Attack(_)));
    assert_eq!(cmd.duration, 30);
    assert!(next.command.is_some());
    // The tick that completes the attack adopts the staged move.
    cmd.tick(&mut next, 70, None);
    assert!(matches!(cmd.command, CommandData::Move(CommandMove { .. })));
    assert_eq!(cmd.duration, 0);
    assert_eq!(cmd.required_duration, None);
    assert!(next.command.is_none());
}

#[test]
fn tick_clamps_elapsed_at_required_duration() {
    let mut cmd = Command::with_attack(Entity(5), 100);
    let mut next = NextCommand::default();
    cmd.tick(&mut next, 250, None);
    assert_eq!(cmd.duration, 100);
    assert_eq!(cmd.required_duration, Some(100));
    assert!(matches!(cmd.command, CommandData::Attack(_)));
}

#[test]
fn staged_die_preempts_committed_attack() {
    let mut cmd = Command::with_attack(Entity(5), 100);
    let mut next = NextCommand::default();
    cmd.tick(&mut next, 10, None);
    assert_eq!(cmd.duration, 10);
    next.stage(CommandData::Die(CommandDie { killer: Some(Entity(6)), damage: None }));
    cmd.tick(&mut next, 1, None);
    assert!(cmd.is_dead());
    assert_eq!(cmd.duration, 0);
    assert!(next.command.is_none());
}

#[test]
fn staging_twice_adopts_only_the_second() {
    let mut cmd = Command::with_stop();
    let mut next = NextCommand::default();
    next.stage(CommandData::Move(CommandMove {
        destination: pos(1, 1, 1),
        target: None,
        move_mode: None,
    }));
    next.stage(CommandData::Attack(CommandAttack { target: Entity(2) }));
    cmd.tick(&mut next, 1, Some(50));
    assert!(matches!(
        cmd.command,
        CommandData::Attack(CommandAttack { target }) if target == Entity(2)
    ));
    assert!(next.command.is_none());
}

#[test]
fn personal_store_survives_many_ticks_with_nothing_staged() {
    let mut cmd = Command::with_personal_store();
    let mut next = NextCommand::default();
    for _ in 0..10_000 {
        cmd.tick(&mut next, u64::MAX / 128, None);
        assert!(matches!(cmd.command, CommandData::PersonalStore));
        assert!(next.command.is_none());
    }
}

#[test]
fn personal_store_is_displaced_by_an_explicit_staged_command() {
    let mut cmd = Command::with_personal_store();
    let mut next = NextCommand::with_stop();
    cmd.tick(&mut next, 5, None);
    assert!(matches!(cmd.command, CommandData::Stop));
    assert!(next.command.is_none());
}

#[test]
fn elapsed_never_exceeds_required_duration() {
    let mut cmd = Command::with_pickup_dropped_item(Entity(8), 33);
    let mut next = NextCommand::default();
    let deltas = [1u64, 5, 31, 2, 1000, 0, 7];
    for dt in deltas {
        cmd.tick(&mut next, dt, None);
        if let Some(rd) = cmd.required_duration {
            assert!(cmd.duration <= rd);
        }
    }
    assert_eq!(cmd.duration, 33);
}

#[test]
fn stage_clears_notification_flag() {
    let mut next = NextCommand::with_stop();
    next.has_sent_server_message = true;
    next.stage(CommandData::PersonalStore);
    assert!(!next.has_sent_server_message);
    assert!(matches!(next.command, Some(CommandData::PersonalStore)));
}

#[test]
fn marking_the_notification_sent_keeps_the_staged_action() {
    let mut next = NextCommand::with_attack(Entity(5));
    assert!(!next.has_sent_server_message);
    next.mark_server_message_sent();
    assert!(next.has_sent_server_message);
    assert!(matches!(next.command, Some(CommandData::Attack(_))));
}

#[test]
fn staged_die_preempts_a_personal_store() {
    let mut cmd = Command::with_personal_store();
    let mut next = NextCommand::default();
    next.stage(CommandData::Die(CommandDie { killer: None, damage: None }));
    cmd.tick(&mut next, 1, None);
    assert!(cmd.is_dead());
    assert!(next.command.is_none());
}

#[test]
fn adoption_keeps_notification_flag() {
    let mut cmd = Command::with_stop();
    let mut next = NextCommand::with_personal_store();
    next.has_sent_server_message = true;
    cmd.tick(&mut next, 1, None);
    assert!(matches!(cmd.command, CommandData::PersonalStore));
    assert!(next.has_sent_server_message);
}

#[test]
fn cast_skill_staging_constructors_carry_their_targets() {
    let next = NextCommand::with_cast_skill_target_self(SkillId(1), Some((ItemSlot(2), Item {
        item_type: 10,
        item_number: 20,
        quantity: 1,
    })));
    match next.command {
        Some(CommandData::CastSkill(cast)) => {
            assert!(cast.skill_target.is_none());
            assert!(cast.use_item.is_some());
        }
        _ => panic!("expected a staged skill cast"),
    }
    let next = NextCommand::with_cast_skill_target_entity(SkillId(1), Entity(44), None);
    match next.command {
        Some(CommandData::CastSkill(cast)) => {
            assert!(matches!(
                cast.skill_target,
                Some(CommandCastSkillTarget::Entity(e)) if e == Entity(44)
            ));
        }
        _ => panic!("expected a staged skill cast"),
    }
    let next =
        NextCommand::with_cast_skill_target_position(SkillId(1), PlanarPosition { x: 9, y: -3 });
    match next.command {
        Some(CommandData::CastSkill(cast)) => {
            assert!(matches!(
                cast.skill_target,
                Some(CommandCastSkillTarget::Position(p)) if p.x == 9 && p.y == -3
            ));
            assert!(cast.use_item.is_none());
        }
        _ => panic!("expected a staged skill cast"),
    }
}
