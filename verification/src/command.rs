use vstd::prelude::*;

use crate::types::{Damage, Entity, Item, ItemSlot, MoveMode, PlanarPosition, Position, SkillId};

verus! {

/// Movement request: head for `destination`, optionally following a target
/// entity, optionally overriding the movement mode.
#[derive(Clone, Copy, Debug)]
pub struct CommandMove {
    pub destination: Position,
    pub target: Option<Entity>,
    pub move_mode: Option<MoveMode>,
}

/// Death: who dealt the killing blow and with what damage, when known.
#[derive(Clone, Copy, Debug)]
pub struct CommandDie {
    pub killer: Option<Entity>,
    pub damage: Option<Damage>,
}

/// Attack a target entity.
#[derive(Clone, Copy, Debug)]
pub struct CommandAttack {
    pub target: Entity,
}

/// Pick up an item lying on the ground.
#[derive(Clone, Copy, Debug)]
pub struct CommandPickupDroppedItem {
    pub target: Entity,
}

/// What a skill is aimed at: an entity or a spot on the ground.
#[derive(Clone, Copy, Debug)]
pub enum CommandCastSkillTarget {
    Entity(Entity),
    Position(PlanarPosition),
}

/// Cast a skill, optionally at a target, optionally consuming an item.
#[derive(Clone, Copy, Debug)]
pub struct CommandCastSkill {
    pub skill_id: SkillId,
    pub skill_target: Option<CommandCastSkillTarget>,
    pub use_item: Option<(ItemSlot, Item)>,
}

/// The closed set of actions an entity can execute. Every consumer matches on
/// it exhaustively, so adding an action kind is compile-time checked.
#[derive(Clone, Copy, Debug)]
pub enum CommandData {
    Die(CommandDie),
    Stop,
    Move(CommandMove),
    Attack(CommandAttack),
    PickupDroppedItem(CommandPickupDroppedItem),
    PersonalStore,
    CastSkill(CommandCastSkill),
}

/// The action an entity is currently executing, with its timing. Every
/// controllable entity carries exactly one of these at all times.
#[derive(Clone, Copy, Debug)]
pub struct Command {
    /// Current action that is executing.
    pub command: CommandData,
    /// How long the current action has been executing.
    pub duration: u64,
    /// Total time needed to complete this action. `None` means the action is
    /// interruptible at any time; `Some` means it is committed and runs until
    /// `duration` reaches it.
    pub required_duration: Option<u64>,
}

/// Single-slot staging buffer holding the next requested action until the
/// state machine is ready to adopt it.
#[derive(Clone, Copy, Debug)]
pub struct NextCommand {
    /// Pending action awaiting adoption, if any.
    pub command: Option<CommandData>,
    /// Whether the owning session has already been told that this staged
    /// action was accepted, to avoid duplicate outbound notifications.
    pub has_sent_server_message: bool,
}

impl Command {
    /// Elapsed time never runs past the required duration when one is
    /// present; reaching it is the completion signal.
    pub open spec fn wf(self) -> bool {
        self.required_duration matches Some(rd) ==> self.duration <= rd
    }

    /// The required duration assigned on adoption: `Stop` and `Move` are
    /// always interruptible, `PersonalStore` never expires on its own, and
    /// the remaining actions take the caller-supplied duration (for `Die` an
    /// optional death-animation window, for the timed actions their
    /// animation/cooldown timing).
    pub open spec fn policy_required_duration(
        action: CommandData,
        caller_duration: Option<u64>,
    ) -> Option<u64> {
        match action {
            CommandData::Stop => None,
            CommandData::Move(_) => None,
            CommandData::Die(_) => caller_duration,
            CommandData::Attack(_) => caller_duration,
            CommandData::PickupDroppedItem(_) => caller_duration,
            CommandData::CastSkill(_) => caller_duration,
            CommandData::PersonalStore => Some(u64::MAX),
        }
    }

    /// A freshly adopted action: elapsed time reset to zero, required
    /// duration assigned by policy.
    pub open spec fn adopted_spec(action: CommandData, caller_duration: Option<u64>) -> Command {
        Command {
            command: action,
            duration: 0,
            required_duration: Self::policy_required_duration(action, caller_duration),
        }
    }

    /// Whether the executing action may be replaced by a staged one: an
    /// interruptible action always, a committed action once complete, and a
    /// personal store by any explicit new command.
    pub open spec fn eligible_for_adoption(self) -> bool {
        match self.required_duration {
            None => true,
            Some(rd) => self.duration >= rd || self.command is PersonalStore,
        }
    }

    /// The command after one tick of `dt` time units of execution: a
    /// committed action accumulates elapsed time, clamped at its required
    /// duration; an interruptible one does not track time.
    pub open spec fn advanced_spec(self, dt: u64) -> Command {
        match self.required_duration {
            None => self,
            Some(rd) => Command {
                command: self.command,
                duration: if self.duration + dt >= rd {
                    rd
                } else {
                    (self.duration + dt) as u64
                },
                required_duration: self.required_duration,
            },
        }
    }

    /// One simulation tick of the command state machine: a staged `Die`
    /// pre-empts everything and is adopted at once; otherwise elapsed time
    /// advances and a staged action is adopted as soon as the current one no
    /// longer stands in the way. Adoption clears the staging slot.
    pub open spec fn tick_spec(
        self,
        next: NextCommand,
        dt: u64,
        caller_duration: Option<u64>,
    ) -> (Command, NextCommand) {
        let cleared = NextCommand {
            command: None,
            has_sent_server_message: next.has_sent_server_message,
        };
        match next.command {
            Some(a) => {
                if a is Die {
                    (Self::adopted_spec(a, caller_duration), cleared)
                } else {
                    let advanced = self.advanced_spec(dt);
                    if advanced.eligible_for_adoption() {
                        (Self::adopted_spec(a, caller_duration), cleared)
                    } else {
                        (advanced, next)
                    }
                }
            },
            None => (self.advanced_spec(dt), next),
        }
    }

    /// The timed actions are committed: whoever stages one must also supply
    /// its required duration.
    pub open spec fn caller_duration_supplied(
        staged: Option<CommandData>,
        caller_duration: Option<u64>,
    ) -> bool {
        staged matches Some(a) ==> ((a is Attack || a is PickupDroppedItem || a is CastSkill)
            ==> caller_duration is Some)
    }

    /// Build the command that executes after `action` is adopted.
    pub fn adopted(action: CommandData, caller_duration: Option<u64>) -> (c: Command)
        ensures
            c == Command::adopted_spec(action, caller_duration),
            c.wf(),
    {
        let required_duration = match action {
            CommandData::Stop => None,
            CommandData::Move(_) => None,
            CommandData::Die(_) => caller_duration,
            CommandData::Attack(_) => caller_duration,
            CommandData::PickupDroppedItem(_) => caller_duration,
            CommandData::CastSkill(_) => caller_duration,
            CommandData::PersonalStore => Some(u64::MAX),
        };
        Command { command: action, duration: 0, required_duration }
    }

    /// Advance this entity's command by one tick of `dt` time units and adopt
    /// the staged action when permitted. `caller_duration` is the required
    /// duration the caller computed for the staged action; policy consults it
    /// only for the action kinds that take one.
    pub fn tick(&mut self, next: &mut NextCommand, dt: u64, caller_duration: Option<u64>)
        requires
            old(self).wf(),
            Command::caller_duration_supplied(old(next).command, caller_duration),
        ensures
            (*final(self), *final(next)) == old(self).tick_spec(*old(next), dt, caller_duration),
            final(self).wf(),
    {
        let staged = next.command;
        if let Some(action) = staged {
            if matches!(action, CommandData::Die(_)) {
                *self = Command::adopted(action, caller_duration);
                next.command = None;
                return;
            }
        }
        if let Some(rd) = self.required_duration {
            if dt >= rd - self.duration {
                self.duration = rd;
            } else {
                self.duration = self.duration + dt;
            }
        }
        let eligible = match self.required_duration {
            None => true,
            Some(rd) => self.duration >= rd || matches!(self.command, CommandData::PersonalStore),
        };
        if eligible {
            if let Some(action) = next.command {
                *self = Command::adopted(action, caller_duration);
                next.command = None;
            }
        }
    }

    pub fn new(command: CommandData, required_duration: Option<u64>) -> (c: Self)
        ensures
            c == (Command { command, duration: 0, required_duration }),
            c.wf(),
    {
        Self { command, duration: 0, required_duration }
    }

    /// The default resting state: `Stop`, interruptible.
    pub fn default() -> (c: Self)
        ensures
            c == (Command { command: CommandData::Stop, duration: 0, required_duration: None }),
            c.wf(),
    {
        Self::with_stop()
    }

    /// The entity this action is directed at, when it has one.
    pub fn get_target(&self) -> (target: Option<Entity>)
        ensures
            target == match self.command {
                CommandData::Attack(attack) => Some(attack.target),
                CommandData::Move(mv) => mv.target,
                _ => None,
            },
    {
        match self.command {
            CommandData::Attack(CommandAttack { target }) => Some(target),
            CommandData::Move(CommandMove { target, .. }) => target,
            _ => None,
        }
    }

    pub fn is_dead(&self) -> (dead: bool)
        ensures
            dead == (self.command is Die),
    {
        matches!(self.command, CommandData::Die(_))
    }

    pub fn with_die(killer: Option<Entity>, damage: Option<Damage>, duration: Option<u64>) -> (c:
        Self)
        ensures
            c == (Command {
                command: CommandData::Die(CommandDie { killer, damage }),
                duration: 0,
                required_duration: duration,
            }),
            c.wf(),
    {
        Self::new(CommandData::Die(CommandDie { killer, damage }), duration)
    }

    pub fn with_move(
        destination: Position,
        target: Option<Entity>,
        move_mode: Option<MoveMode>,
    ) -> (c: Self)
        ensures
            c == (Command {
                command: CommandData::Move(CommandMove { destination, target, move_mode }),
                duration: 0,
                required_duration: None,
            }),
            c.wf(),
    {
        Self::new(CommandData::Move(CommandMove { destination, target, move_mode }), None)
    }

    pub fn with_attack(target: Entity, duration: u64) -> (c: Self)
        ensures
            c == (Command {
                command: CommandData::Attack(CommandAttack { target }),
                duration: 0,
                required_duration: Some(duration),
            }),
            c.wf(),
    {
        Self::new(CommandData::Attack(CommandAttack { target }), Some(duration))
    }

    pub fn with_pickup_dropped_item(target: Entity, duration: u64) -> (c: Self)
        ensures
            c == (Command {
                command: CommandData::PickupDroppedItem(CommandPickupDroppedItem { target }),
                duration: 0,
                required_duration: Some(duration),
            }),
            c.wf(),
    {
        Self::new(
            CommandData::PickupDroppedItem(CommandPickupDroppedItem { target }),
            Some(duration),
        )
    }

    pub fn with_stop() -> (c: Self)
        ensures
            c == (Command { command: CommandData::Stop, duration: 0, required_duration: None }),
            c.wf(),
    {
        Self::new(CommandData::Stop, None)
    }

    /// A personal store is committed with an effectively unbounded required
    /// duration: it never expires from elapsed time alone.
    pub fn with_personal_store() -> (c: Self)
        ensures
            c == (Command {
                command: CommandData::PersonalStore,
                duration: 0,
                required_duration: Some(u64::MAX),
            }),
            c.wf(),
    {
        Self::new(CommandData::PersonalStore, Some(u64::MAX))
    }

    /// A skill cast runs for its casting phase plus its action phase.
    pub fn with_cast_skill(
        skill_id: SkillId,
        skill_target: Option<CommandCastSkillTarget>,
        casting_duration: u64,
        action_duration: u64,
    ) -> (c: Self)
        requires
            casting_duration + action_duration <= u64::MAX,
        ensures
            c == (Command {
                command: CommandData::CastSkill(CommandCastSkill {
                    skill_id,
                    skill_target,
                    use_item: None,
                }),
                duration: 0,
                required_duration: Some((casting_duration + action_duration) as u64),
            }),
            c.wf(),
    {
        Self::new(
            CommandData::CastSkill(CommandCastSkill { skill_id, skill_target, use_item: None }),
            Some(casting_duration + action_duration),
        )
    }
}

impl NextCommand {
    /// The slot after an action is staged: whatever was pending is
    /// overwritten, and the notification flag starts cleared.
    pub open spec fn stage_spec(self, action: CommandData) -> NextCommand {
        NextCommand { command: Some(action), has_sent_server_message: false }
    }

    /// An empty staging slot.
    pub fn default() -> (n: Self)
        ensures
            n == (NextCommand { command: None, has_sent_server_message: false }),
    {
        Self { command: None, has_sent_server_message: false }
    }

    /// Record `action` as the next requested action, unconditionally
    /// replacing any action already staged.
    pub fn stage(&mut self, action: CommandData)
        ensures
            *final(self) == old(self).stage_spec(action),
    {
        *self = NextCommand { command: Some(action), has_sent_server_message: false };
    }

    /// Record that the outbound notification for the currently staged or
    /// adopted action has been dispatched, so it is not sent twice.
    pub fn mark_server_message_sent(&mut self)
        ensures
            final(self).command == old(self).command,
            final(self).has_sent_server_message,
    {
        self.has_sent_server_message = true;
    }

    pub fn with_move(
        destination: Position,
        target: Option<Entity>,
        move_mode: Option<MoveMode>,
    ) -> (n: Self)
        ensures
            n == (NextCommand {
                command: Some(CommandData::Move(CommandMove { destination, target, move_mode })),
                has_sent_server_message: false,
            }),
    {
        Self {
            command: Some(CommandData::Move(CommandMove { destination, target, move_mode })),
            has_sent_server_message: false,
        }
    }

    pub fn with_attack(target: Entity) -> (n: Self)
        ensures
            n == (NextCommand {
                command: Some(CommandData::Attack(CommandAttack { target })),
                has_sent_server_message: false,
            }),
    {
        Self {
            command: Some(CommandData::Attack(CommandAttack { target })),
            has_sent_server_message: false,
        }
    }

    pub fn with_pickup_dropped_item(target: Entity) -> (n: Self)
        ensures
            n == (NextCommand {
                command: Some(
                    CommandData::PickupDroppedItem(CommandPickupDroppedItem { target }),
                ),
                has_sent_server_message: false,
            }),
    {
        Self {
            command: Some(CommandData::PickupDroppedItem(CommandPickupDroppedItem { target })),
            has_sent_server_message: false,
        }
    }

    pub fn with_stop() -> (n: Self)
        ensures
            n == (NextCommand {
                command: Some(CommandData::Stop),
                has_sent_server_message: false,
            }),
    {
        Self { command: Some(CommandData::Stop), has_sent_server_message: false }
    }

    pub fn with_personal_store() -> (n: Self)
        ensures
            n == (NextCommand {
                command: Some(CommandData::PersonalStore),
                has_sent_server_message: false,
            }),
    {
        Self { command: Some(CommandData::PersonalStore), has_sent_server_message: false }
    }

    pub fn with_cast_skill_target_self(skill_id: SkillId, use_item: Option<(ItemSlot, Item)>) -> (n:
        Self)
        ensures
            n == (NextCommand {
                command: Some(
                    CommandData::CastSkill(CommandCastSkill {
                        skill_id,
                        skill_target: None,
                        use_item,
                    }),
                ),
                has_sent_server_message: false,
            }),
    {
        Self {
            command: Some(
                CommandData::CastSkill(CommandCastSkill { skill_id, skill_target: None, use_item }),
            ),
            has_sent_server_message: false,
        }
    }

    pub fn with_cast_skill_target_entity(
        skill_id: SkillId,
        target_entity: Entity,
        use_item: Option<(ItemSlot, Item)>,
    ) -> (n: Self)
        ensures
            n == (NextCommand {
                command: Some(
                    CommandData::CastSkill(CommandCastSkill {
                        skill_id,
                        skill_target: Some(CommandCastSkillTarget::Entity(target_entity)),
                        use_item,
                    }),
                ),
                has_sent_server_message: false,
            }),
    {
        Self {
            command: Some(
                CommandData::CastSkill(CommandCastSkill {
                    skill_id,
                    skill_target: Some(CommandCastSkillTarget::Entity(target_entity)),
                    use_item,
                }),
            ),
            has_sent_server_message: false,
        }
    }

    pub fn with_cast_skill_target_position(skill_id: SkillId, position: PlanarPosition) -> (n: Self)
        ensures
            n == (NextCommand {
                command: Some(
                    CommandData::CastSkill(CommandCastSkill {
                        skill_id,
                        skill_target: Some(CommandCastSkillTarget::Position(position)),
                        use_item: None,
                    }),
                ),
                has_sent_server_message: false,
            }),
    {
        Self {
            command: Some(
                CommandData::CastSkill(CommandCastSkill {
                    skill_id,
                    skill_target: Some(CommandCastSkillTarget::Position(position)),
                    use_item: None,
                }),
            ),
            has_sent_server_message: false,
        }
    }
}

/// At every tick boundary each entity holds exactly one executing action (the
/// `Command` type carries it by construction), and elapsed time never exceeds
/// a present required duration: every tick preserves well-formedness.
pub proof fn lemma_tick_preserves_wf(
    c: Command,
    n: NextCommand,
    dt: u64,
    caller_duration: Option<u64>,
)
    requires
        c.wf(),
    ensures
        c.tick_spec(n, dt, caller_duration).0.wf(),
{
}

/// Death pre-empts commitment: a staged `Die` is adopted on the very next
/// tick even while a committed `Attack` is still short of its required
/// duration.
pub proof fn lemma_die_overrides_commitment(
    c: Command,
    n: NextCommand,
    dt: u64,
    caller_duration: Option<u64>,
)
    requires
        c.command is Attack,
        c.required_duration matches Some(rd) && c.duration < rd,
        n.command matches Some(a) && a is Die,
    ensures
        c.tick_spec(n, dt, caller_duration).0.command is Die,
        c.tick_spec(n, dt, caller_duration).0.duration == 0,
        c.tick_spec(n, dt, caller_duration).1.command is None,
{
}

/// Last write wins on the single staging slot: staging twice in succession
/// leaves exactly the state that staging only the second action leaves, so a
/// later adoption can only take the second.
pub proof fn lemma_stage_last_write_wins(n: NextCommand, first: CommandData, second: CommandData)
    ensures
        n.stage_spec(first).stage_spec(second) == n.stage_spec(second),
{
}

/// A staged action is never silently dropped: a tick either adopts exactly
/// the staged action — clearing the slot — or leaves it staged untouched
/// behind the still-committed current action. (It can also be superseded,
/// before adoption, by a later staging: see
/// [`lemma_stage_last_write_wins`].)
pub proof fn lemma_staged_action_never_dropped(
    c: Command,
    n: NextCommand,
    a: CommandData,
    dt: u64,
    caller_duration: Option<u64>,
)
    requires
        n.command == Some(a),
    ensures
        ({
            let (stepped_command, stepped_next) = c.tick_spec(n, dt, caller_duration);
            ||| (stepped_next == n && stepped_command == c.advanced_spec(dt))
            ||| (stepped_next.command is None && stepped_command == Command::adopted_spec(
                a,
                caller_duration,
            ))
        }),
{
}

/// The pair after ticking through every delta in `dts` in order, with no
/// caller-supplied duration; with nothing staged none is consulted.
pub open spec fn run_idle_ticks(c: Command, n: NextCommand, dts: Seq<u64>) -> (Command, NextCommand)
    decreases dts.len(),
{
    if dts.len() == 0 {
        (c, n)
    } else {
        let stepped = c.tick_spec(n, dts[0], None);
        run_idle_ticks(stepped.0, stepped.1, dts.drop_first())
    }
}

/// A `PersonalStore`, once adopted, is never displaced by tick-based expiry
/// alone: with nothing staged, any number of ticks of any size leaves the
/// store executing. Only an explicit staged command or a `Die` override ends
/// it.
pub proof fn lemma_personal_store_never_expires(c: Command, n: NextCommand, dts: Seq<u64>)
    requires
        c.command is PersonalStore,
        n.command is None,
    ensures
        run_idle_ticks(c, n, dts).0.command is PersonalStore,
        run_idle_ticks(c, n, dts).1.command is None,
    decreases dts.len(),
{
    if dts.len() > 0 {
        let stepped = c.tick_spec(n, dts[0], None);
        lemma_personal_store_never_expires(stepped.0, stepped.1, dts.drop_first());
    }
}

} // verus!
