use vstd::prelude::*;

use crate::types::NpcReference;
use crate::zone::ZoneMonsterSpawnPoint;

verus! {

/// Mutable per-instance runtime state of one spawn point, created when a
/// zone instance is activated and advanced by the scheduler every tick.
#[derive(Clone, Copy, Debug)]
pub struct MonsterSpawnPoint {
    /// Time accumulated since the last spawn evaluation.
    pub accumulated_time: u64,
    /// Entities created by this point and not yet removed.
    pub current_live_count: u32,
    /// Accumulated tactic resource, compared against the definition's
    /// `tactic_points` threshold.
    pub tactic_resource: u32,
}

/// `count` copies of `npc`.
pub open spec fn repeated(npc: NpcReference, count: nat) -> Seq<NpcReference> {
    Seq::new(count, |i: int| npc)
}

/// The spawn list drawn from `mix` with `available` population slots: each
/// entry contributes up to its requested count, in order, consuming slots
/// until they run out.
pub open spec fn spawn_selection(mix: Seq<(NpcReference, usize)>, available: nat) -> Seq<
    NpcReference,
>
    decreases mix.len(),
{
    if mix.len() == 0 {
        Seq::empty()
    } else {
        let take = if mix[0].1 <= available {
            mix[0].1 as nat
        } else {
            available
        };
        repeated(mix[0].0, take) + spawn_selection(mix.drop_first(), (available - take) as nat)
    }
}

/// The selection never exceeds the available slots, so spawning can never
/// push the population attributable to a point above its ceiling.
pub proof fn lemma_spawn_selection_len(mix: Seq<(NpcReference, usize)>, available: nat)
    ensures
        spawn_selection(mix, available).len() <= available,
    decreases mix.len(),
{
    if mix.len() > 0 {
        let take = if mix[0].1 <= available {
            mix[0].1 as nat
        } else {
            available
        };
        lemma_spawn_selection_len(mix.drop_first(), (available - take) as nat);
    }
}

impl MonsterSpawnPoint {
    /// The population mix a spawn evaluation draws from: the tactic mix once
    /// the accumulated resource has reached the threshold (the boundary is
    /// inclusive) and the tactic list is non-empty; otherwise the basic mix.
    /// The choice is deterministic in the resource value.
    pub open spec fn chosen_mix(self, def: ZoneMonsterSpawnPoint) -> Seq<(NpcReference, usize)> {
        if self.tactic_resource >= def.tactic_points && def.tactic_spawns@.len() > 0 {
            def.tactic_spawns@
        } else {
            def.basic_spawns@
        }
    }

    /// How many more entities this point may sustain under its ceiling.
    pub open spec fn available_slots(self, def: ZoneMonsterSpawnPoint) -> nat {
        if self.current_live_count < def.limit_count {
            (def.limit_count - self.current_live_count) as nat
        } else {
            0
        }
    }

    /// One scheduler tick for this spawn point. Accumulated time advances by
    /// `dt`; while it stays under the interval nothing else happens. On
    /// reaching the interval, one interval is subtracted (the remainder is
    /// preserved so the cadence does not drift) and a spawn attempt runs: the
    /// chosen mix fills the slots left under the population ceiling. The
    /// returned list names the NPC types to instantiate, one entry per new
    /// entity; the caller places each within `def.range` of `def.position`,
    /// initializes its command state to idle, and must report the entity's
    /// eventual removal through [`Self::record_removal`].
    pub fn tick(&mut self, def: &ZoneMonsterSpawnPoint, dt: u64) -> (spawned: Vec<NpcReference>)
        requires
            old(self).accumulated_time + dt <= u64::MAX,
        ensures
            final(self).tactic_resource == old(self).tactic_resource,
            old(self).accumulated_time + dt < def.interval ==> {
                &&& final(self).accumulated_time == old(self).accumulated_time + dt
                &&& final(self).current_live_count == old(self).current_live_count
                &&& spawned@.len() == 0
            },
            old(self).accumulated_time + dt >= def.interval ==> {
                &&& final(self).accumulated_time == old(self).accumulated_time + dt - def.interval
                &&& spawned@ == spawn_selection(
                    old(self).chosen_mix(*def),
                    old(self).available_slots(*def),
                )
                &&& final(self).current_live_count == old(self).current_live_count + spawned@.len()
            },
            old(self).current_live_count >= def.limit_count ==> spawned@.len() == 0,
            old(self).current_live_count <= def.limit_count ==> final(self).current_live_count
                <= def.limit_count,
    {
        proof {
            lemma_spawn_selection_len(
                old(self).chosen_mix(*def),
                old(self).available_slots(*def),
            );
        }
        let total = self.accumulated_time + dt;
        if total < def.interval as u64 {
            self.accumulated_time = total;
            let spawned: Vec<NpcReference> = Vec::new();
            return spawned;
        }
        self.accumulated_time = total - def.interval as u64;
        let mut available: u32 = if self.current_live_count < def.limit_count {
            def.limit_count - self.current_live_count
        } else {
            0
        };
        let ghost available0: nat = available as nat;
        let mix: &Vec<(NpcReference, usize)> = if self.tactic_resource >= def.tactic_points
            && def.tactic_spawns.len() > 0 {
            &def.tactic_spawns
        } else {
            &def.basic_spawns
        };
        let mut spawned: Vec<NpcReference> = Vec::new();
        let mut i: usize = 0;
        proof {
            assert(mix@.skip(0) =~= mix@);
            assert(Seq::<NpcReference>::empty() + spawn_selection(mix@, available0)
                =~= spawn_selection(mix@, available0));
        }
        while i < mix.len()
            invariant
                i <= mix@.len(),
                spawned@.len() + available == available0,
                spawn_selection(mix@, available0) == spawned@ + spawn_selection(
                    mix@.skip(i as int),
                    available as nat,
                ),
                self.accumulated_time == old(self).accumulated_time + dt - def.interval,
                self.current_live_count == old(self).current_live_count,
                self.tactic_resource == old(self).tactic_resource,
                available0 == old(self).available_slots(*def),
                mix@ == old(self).chosen_mix(*def),
            decreases mix@.len() - i,
        {
            let (npc, count) = mix[i];
            let take: usize = if count <= available as usize {
                count
            } else {
                available as usize
            };
            proof {
                assert(mix@.skip(i as int)[0] == mix@[i as int]);
                assert(mix@.skip(i as int).drop_first() =~= mix@.skip(i as int + 1));
            }
            let ghost before = spawned@;
            let mut k: usize = 0;
            while k < take
                invariant
                    k <= take,
                    spawned@ == before + repeated(npc, k as nat),
                decreases take - k,
            {
                spawned.push(npc);
                k = k + 1;
                proof {
                    assert(spawned@ =~= before + repeated(npc, k as nat));
                }
            }
            proof {
                assert(spawned@ =~= before + repeated(npc, take as nat));
            }
            available = available - take as u32;
            i = i + 1;
            proof {
                assert(spawned@ + spawn_selection(mix@.skip(i as int), available as nat)
                    =~= before + (repeated(npc, take as nat) + spawn_selection(
                    mix@.skip(i as int),
                    available as nat,
                )));
            }
        }
        proof {
            assert(mix@.skip(mix@.len() as int) =~= Seq::<(NpcReference, usize)>::empty());
            assert(spawned@ + Seq::<NpcReference>::empty() =~= spawned@);
        }
        self.current_live_count = self.current_live_count + spawned.len() as u32;
        spawned
    }

    /// Record the removal (death or despawn) of one entity attributed to
    /// this spawn point, freeing a population slot. The count never drops
    /// below zero.
    pub fn record_removal(&mut self)
        ensures
            final(self).current_live_count == if old(self).current_live_count > 0 {
                old(self).current_live_count - 1
            } else {
                0
            },
            final(self).accumulated_time == old(self).accumulated_time,
            final(self).tactic_resource == old(self).tactic_resource,
    {
        if self.current_live_count > 0 {
            self.current_live_count = self.current_live_count - 1;
        }
    }
}

} // verus!
