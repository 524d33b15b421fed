use combat_core::cards::{Card, CardCommand, StabCard, StabCommand, TargetType};
use combat_core::{
    BaseState, DeckContext, EnemyContext, EnvironmentContext, GameContext, Hero, HeroContext,
    Monster,
};
use combat_core::seed::Seed;
use std::collections::VecDeque;

fn sample_context(enemies: Vec<EnemyContext>) -> GameContext {
    GameContext {
        is_game_on: true,
        base_state: BaseState {
            round_num: 1,
            layer_num: 1,
            base_step_num: 0,
            current_seed: Seed::new(Some(7)),
        },
        save_path: String::from("save/slot0"),
        gamer: String::from("player1"),
        hero: HeroContext {
            hero: Hero::InfinityWarrior,
            entity_id: 100,
            health: 30,
            buff: Vec::new(),
            debuff: Vec::new(),
            special_effect: Vec::new(),
        },
        current_enemies: enemies,
        deck: vec![DeckContext {
            draw_pile: VecDeque::new(),
            discard_pile: VecDeque::new(),
            hand: Vec::new(),
        }],
        environment: EnvironmentContext {},
    }
}

#[test]
fn stab_card_describes_itself() {
    let card = StabCard::new(1);
    assert_eq!(card.card_id(), 1);
    assert_eq!(card.damage, 5);
    assert_eq!(card.target_type(), TargetType::OneMonsterTarget);
    assert_eq!(
        card.card_users(),
        vec![Hero::InfinityWarrior, Hero::Aquamancer]
    );
    assert_eq!(card.card_tag().string(), "刺击");
}

#[test]
fn get_info_renders_the_fixed_summary() {
    let card = StabCard::new(1);
    assert_eq!(card.get_info(), "ID: 1, TAG: 刺击, TYPE: OneMonsterTarget");
    let other = StabCard::new(407);
    assert_eq!(
        other.get_info(),
        "ID: 407, TAG: 刺击, TYPE: OneMonsterTarget"
    );
}

#[test]
fn stab_reduces_health_to_zero_and_stays_there() {
    let mut ctx = sample_context(vec![EnemyContext {
        entity_id: 1,
        monster: Monster::Slime { health: 5 },
    }]);
    let command = StabCommand {
        monster_id: 1,
        damage: 5,
    };
    command.execute(&mut ctx);
    assert_eq!(ctx.current_enemies[0].monster, Monster::Slime { health: 0 });
    command.execute(&mut ctx);
    assert_eq!(ctx.current_enemies[0].monster, Monster::Slime { health: 0 });
}

#[test]
fn stab_damages_only_its_target() {
    let mut ctx = sample_context(vec![
        EnemyContext {
            entity_id: 1,
            monster: Monster::Slime { health: 9 },
        },
        EnemyContext {
            entity_id: 2,
            monster: Monster::Slime { health: 9 },
        },
    ]);
    StabCommand {
        monster_id: 2,
        damage: 4,
    }
    .execute(&mut ctx);
    assert_eq!(ctx.current_enemies[0].monster, Monster::Slime { health: 9 });
    assert_eq!(ctx.current_enemies[1].monster, Monster::Slime { health: 5 });
}

#[test]
fn stab_on_vanished_target_changes_nothing() {
    let enemies = vec![
        EnemyContext {
            entity_id: 1,
            monster: Monster::Slime { health: 7 },
        },
        EnemyContext {
            entity_id: 2,
            monster: Monster::Slime { health: 3 },
        },
    ];
    let mut ctx = sample_context(enemies.clone());
    StabCommand {
        monster_id: 99,
        damage: 50,
    }
    .execute(&mut ctx);
    assert_eq!(ctx.current_enemies, enemies);
    assert_eq!(ctx.hero.health, 30);
    assert_eq!(ctx.gamer, "player1");
    assert_eq!(ctx.save_path, "save/slot0");
    assert!(ctx.is_game_on);
    assert_eq!(ctx.base_state.round_num, 1);
    assert_eq!(ctx.base_state.current_seed.step, 0);
}

#[test]
fn repeated_damage_never_goes_below_zero() {
    let mut ctx = sample_context(vec![EnemyContext {
        entity_id: 1,
        monster: Monster::Slime { health: 10 },
    }]);
    for _ in 0..5 {
        StabCommand {
            monster_id: 1,
            damage: 4,
        }
        .execute(&mut ctx);
    }
    assert_eq!(ctx.current_enemies[0].monster, Monster::Slime { health: 0 });
}

#[test]
fn overkill_damage_floors_at_zero() {
    let mut ctx = sample_context(vec![EnemyContext {
        entity_id: 1,
        monster: Monster::Slime { health: 3 },
    }]);
    StabCommand {
        monster_id: 1,
        damage: u32::MAX,
    }
    .execute(&mut ctx);
    assert_eq!(ctx.current_enemies[0].monster, Monster::Slime { health: 0 });
}
