use vstd::prelude::*;

use crate::seed::Seed;
use std::collections::VecDeque;

verus! {

/// A playable hero archetype.
#[derive(Clone, Copy, PartialEq, Eq, Structural, Debug)]
pub enum Hero {
    InfinityWarrior,
    Aquamancer,
}

/// The handle through which an enemy's turn behavior is driven; the decision
/// logic behind it is an outside collaborator and out of scope here.
pub struct AIExecutor {}

/// A beneficial effect carried by an entity.
#[derive(Clone, Copy, PartialEq, Eq, Debug)]
pub enum Buff {
    Regeneration((u32, u32)),
    Anger(u32),
    Strength(u32),
    Counterwound(u32),
    Sharpness(u32),
}

/// A harmful effect carried by an entity.
#[derive(Clone, Copy, PartialEq, Eq, Structural, Debug)]
pub enum Debuff {
    Poison(u32),
}

/// A special effect granted by a skill or item; none are defined yet.
#[derive(Clone, Copy, PartialEq, Eq, Structural, Debug)]
pub struct SpecialEffect {}

/// A monster's kind together with the data its behavior reads: a closed set
/// of variants, so each capability is a total match over the kinds.
#[derive(Clone, Copy, PartialEq, Eq, Structural, Debug)]
pub enum Monster {
    Slime { health: u32 },
}

impl Monster {
    /// The monster's current health.
    pub open spec fn spec_health(&self) -> u32 {
        match self {
            Monster::Slime { health } => *health,
        }
    }

    /// The monster after taking `damage`: health reduced by the full amount,
    /// floored at zero, and nothing else changed.
    pub open spec fn spec_damaged(self, damage: u32) -> Monster {
        match self {
            Monster::Slime { health } => Monster::Slime {
                health: if health >= damage {
                    (health - damage) as u32
                } else {
                    0
                },
            },
        }
    }

    /// The monster's AI handle.
    pub fn ai(&self) -> AIExecutor {
        AIExecutor {  }
    }

    /// Reduce health by `damage`, floored at zero. Never fails.
    pub fn take_damage(&mut self, damage: u32)
        ensures
            *final(self) == old(self).spec_damaged(damage),
            final(self).spec_health() <= old(self).spec_health(),
    {
        match self {
            Monster::Slime { health } => {
                if *health >= damage {
                    *health = *health - damage;
                } else {
                    *health = 0;
                }
            },
        }
    }
}

/// The health an entity is left with after a sequence of damage commands,
/// each reducing it by its amount and flooring at zero.
pub open spec fn health_after(h: u32, damages: Seq<u32>) -> u32
    decreases damages.len(),
{
    if damages.len() == 0 {
        h
    } else {
        health_after(
            if h >= damages[0] {
                (h - damages[0]) as u32
            } else {
                0
            },
            damages.drop_first(),
        )
    }
}

/// One damage command moves health by exactly one step of `health_after`.
pub proof fn lemma_damage_step(m: Monster, d: u32)
    ensures
        m.spec_damaged(d).spec_health() == health_after(m.spec_health(), seq![d]),
{
    reveal_with_fuel(health_after, 3);
    assert(seq![d].drop_first() =~= Seq::<u32>::empty());
    assert(seq![d][0] == d);
}

/// Damage floor: however many damage commands are applied, and however large
/// each is, health never ends below zero nor above where it began.
pub proof fn lemma_damage_floor(h: u32, damages: Seq<u32>)
    ensures
        0 <= health_after(h, damages) <= h,
    decreases damages.len(),
{
    if damages.len() > 0 {
        let h1: u32 = if h >= damages[0] {
            (h - damages[0]) as u32
        } else {
            0
        };
        lemma_damage_floor(h1, damages.drop_first());
    }
}

/// A live enemy in the encounter: a stable id plus the monster it is.
#[derive(Clone, Copy, PartialEq, Eq, Structural, Debug)]
pub struct EnemyContext {
    pub entity_id: u64,
    pub monster: Monster,
}

/// The base run state: progress counters and the run's random stream.
pub struct BaseState {
    pub round_num: u32,
    pub layer_num: u32,
    pub base_step_num: u128,
    pub current_seed: Seed,
}

/// One hero's deck, stored as card ids: an ordered draw pile popped from the
/// front, an ordered discard pile pushed at the back, and the hand as an
/// unordered bag.
pub struct DeckContext {
    pub draw_pile: VecDeque<u64>,
    pub discard_pile: VecDeque<u64>,
    pub hand: Vec<u64>,
}

impl DeckContext {
    /// Draw: move the front card of the draw pile into the hand. An empty
    /// draw pile is first refilled by moving the whole discard pile across
    /// in its stored order (randomizing that order is the caller's shuffling
    /// policy); when both piles are empty the draw is a no-op.
    pub fn draw(&mut self)
        ensures
            old(self).draw_pile@.len() > 0 ==> ({
                &&& final(self).hand@ == old(self).hand@.push(old(self).draw_pile@[0])
                &&& final(self).draw_pile@ == old(self).draw_pile@.drop_first()
                &&& final(self).discard_pile@ == old(self).discard_pile@
            }),
            old(self).draw_pile@.len() == 0 && old(self).discard_pile@.len() > 0 ==> ({
                &&& final(self).hand@ == old(self).hand@.push(old(self).discard_pile@[0])
                &&& final(self).draw_pile@ == old(self).discard_pile@.drop_first()
                &&& final(self).discard_pile@.len() == 0
            }),
            old(self).draw_pile@.len() == 0 && old(self).discard_pile@.len() == 0 ==> ({
                &&& final(self).hand@ == old(self).hand@
                &&& final(self).draw_pile@ == old(self).draw_pile@
                &&& final(self).discard_pile@ == old(self).discard_pile@
            }),
    {
        if self.draw_pile.len() == 0 && self.discard_pile.len() > 0 {
            self.draw_pile.append(&mut self.discard_pile);
        }
        match self.draw_pile.pop_front() {
            Some(id) => self.hand.push(id),
            None => {},
        }
    }

    /// Play or discard: remove the card at `i` from the hand and append it to
    /// the back of the discard pile.
    pub fn discard_from_hand(&mut self, i: usize)
        requires
            i < old(self).hand@.len(),
        ensures
            final(self).hand@ == old(self).hand@.remove(i as int),
            final(self).discard_pile@ == old(self).discard_pile@.push(old(self).hand@[i as int]),
            final(self).draw_pile@ == old(self).draw_pile@,
    {
        let id = self.hand.remove(i);
        self.discard_pile.push_back(id);
    }
}

/// The environment the encounter takes place in; empty for now.
pub struct EnvironmentContext {}

/// The acting hero's state.
pub struct HeroContext {
    pub hero: Hero,
    pub entity_id: u64,
    pub health: u32,
    pub buff: Vec<Buff>,
    pub debuff: Vec<Debuff>,
    pub special_effect: Vec<SpecialEffect>,
}

/// The single mutable aggregate of combat state: commands read and mutate it,
/// and it exclusively owns every entity and pile it holds.
pub struct GameContext {
    pub is_game_on: bool,
    pub base_state: BaseState,
    pub save_path: String,
    pub gamer: String,
    pub hero: HeroContext,
    pub current_enemies: Vec<EnemyContext>,
    pub deck: Vec<DeckContext>,
    pub environment: EnvironmentContext,
}

impl GameContext {
    /// Enemy ids are unique within the encounter.
    pub open spec fn enemies_wf(&self) -> bool {
        forall|i: int, j: int|
            0 <= i < j < self.current_enemies@.len() ==> self.current_enemies@[i].entity_id
                != self.current_enemies@[j].entity_id
    }

    /// Some live enemy carries the id.
    pub open spec fn has_enemy(&self, id: u64) -> bool {
        exists|i: int|
            0 <= i < self.current_enemies@.len() && #[trigger] self.current_enemies@[i].entity_id
                == id
    }

    /// The ids of the live enemies, in their stored order.
    pub open spec fn enemy_ids(&self) -> Seq<u64> {
        self.current_enemies@.map_values(|e: EnemyContext| e.entity_id)
    }

    /// Whether some live enemy carries the id.
    pub fn contains_enemy(&self, id: u64) -> (b: bool)
        ensures
            b == self.has_enemy(id),
    {
        let n = self.current_enemies.len();
        let mut i: usize = 0;
        while i < n
            invariant
                i <= n,
                n == self.current_enemies@.len(),
                forall|j: int|
                    0 <= j < i ==> #[trigger] self.current_enemies@[j].entity_id != id,
            decreases n - i,
        {
            if self.current_enemies[i].entity_id == id {
                return true;
            }
            i = i + 1;
        }
        false
    }

    /// The ids of the live enemies, in their stored order.
    pub fn enemy_id_list(&self) -> (r: Vec<u64>)
        ensures
            r@ == self.enemy_ids(),
    {
        let n = self.current_enemies.len();
        let mut r: Vec<u64> = Vec::new();
        let mut i: usize = 0;
        while i < n
            invariant
                i <= n,
                n == self.current_enemies@.len(),
                r@ == self.current_enemies@.subrange(0, i as int).map_values(
                    |e: EnemyContext| e.entity_id,
                ),
            decreases n - i,
        {
            let id = self.current_enemies[i].entity_id;
            r.push(id);
            proof {
                assert(self.current_enemies@.subrange(0, i + 1).drop_last()
                    == self.current_enemies@.subrange(0, i as int));
                assert(self.current_enemies@.subrange(0, i + 1).map_values(
                    |e: EnemyContext| e.entity_id,
                ) =~= self.current_enemies@.subrange(0, i as int).map_values(
                    |e: EnemyContext| e.entity_id,
                ).push(id));
            }
            i = i + 1;
        }
        proof {
            assert(self.current_enemies@.subrange(0, n as int) == self.current_enemies@);
        }
        r
    }
}

} // verus!
