use vstd::prelude::*;

use crate::cards::TargetType;
use crate::context::GameContext;

verus! {

/// Why a chosen target was rejected. No state changes on rejection.
#[derive(Clone, Copy, PartialEq, Eq, Structural, Debug)]
pub enum TargetError {
    NotFound,
    WrongShape,
}

/// A target as chosen by the player: a single entity named by id, or the
/// whole enemy group at once.
#[derive(Clone, Copy, PartialEq, Eq, Structural, Debug)]
pub enum ChosenTarget {
    Single(u64),
    Group,
}

/// A validated target a command can be bound to.
#[derive(Clone, PartialEq, Eq, Debug)]
pub enum ResolvedTarget {
    ActingHero(u64),
    OneMonster(u64),
    AllMonsters(Vec<u64>),
}

/// Resolves and validates targets against the live combat state. It reads
/// the state and never mutates it.
pub struct TargetResolver {}

impl TargetResolver {
    /// The ids a card of the given shape may be aimed at: the acting hero's
    /// id alone for a self target, and every live enemy id otherwise. An
    /// empty list signals that the card has no legal play.
    pub fn valid_targets(target_type: &TargetType, ctx: &GameContext) -> (r: Vec<u64>)
        ensures
            target_type is SelfTarget ==> r@ == seq![ctx.hero.entity_id],
            !(target_type is SelfTarget) ==> r@ == ctx.enemy_ids(),
    {
        match target_type {
            TargetType::SelfTarget => {
                let mut v: Vec<u64> = Vec::new();
                v.push(ctx.hero.entity_id);
                proof {
                    assert(v@ =~= seq![ctx.hero.entity_id]);
                }
                v
            },
            _ => ctx.enemy_id_list(),
        }
    }

    /// Validate a chosen target against the declared shape and the live
    /// state: rejected with `WrongShape` when the chosen cardinality does not
    /// match the shape, with `NotFound` when the named entity is not live,
    /// and accepted otherwise.
    pub fn validate(target_type: &TargetType, chosen: &ChosenTarget, ctx: &GameContext) -> (r:
        Result<ResolvedTarget, TargetError>)
        ensures
            match (*target_type, *chosen) {
                (TargetType::SelfTarget, ChosenTarget::Single(id)) => if id == ctx.hero.entity_id {
                    r == Result::<ResolvedTarget, TargetError>::Ok(ResolvedTarget::ActingHero(id))
                } else {
                    r == Result::<ResolvedTarget, TargetError>::Err(TargetError::NotFound)
                },
                (TargetType::OneMonsterTarget, ChosenTarget::Single(id)) => if ctx.has_enemy(id) {
                    r == Result::<ResolvedTarget, TargetError>::Ok(ResolvedTarget::OneMonster(id))
                } else {
                    r == Result::<ResolvedTarget, TargetError>::Err(TargetError::NotFound)
                },
                (TargetType::MonstersTarget, ChosenTarget::Group) => ({
                    &&& r is Ok
                    &&& r->Ok_0 is AllMonsters
                    &&& r->Ok_0->AllMonsters_0@ == ctx.enemy_ids()
                }),
                _ => r == Result::<ResolvedTarget, TargetError>::Err(TargetError::WrongShape),
            },
    {
        match (target_type, chosen) {
            (TargetType::SelfTarget, ChosenTarget::Single(id)) => {
                if *id == ctx.hero.entity_id {
                    Ok(ResolvedTarget::ActingHero(*id))
                } else {
                    Err(TargetError::NotFound)
                }
            },
            (TargetType::OneMonsterTarget, ChosenTarget::Single(id)) => {
                if ctx.contains_enemy(*id) {
                    Ok(ResolvedTarget::OneMonster(*id))
                } else {
                    Err(TargetError::NotFound)
                }
            },
            (TargetType::MonstersTarget, ChosenTarget::Group) => {
                Ok(ResolvedTarget::AllMonsters(ctx.enemy_id_list()))
            },
            _ => Err(TargetError::WrongShape),
        }
    }
}

} // verus!
