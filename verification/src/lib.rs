pub mod cards;
pub mod context;
pub mod seed;
pub mod targeting;
pub mod tag;

pub use context::{
    AIExecutor, BaseState, Buff, Debuff, DeckContext, EnemyContext, EnvironmentContext,
    GameContext, Hero, HeroContext, Monster, SpecialEffect,
};
