use vstd::prelude::*;

use crate::context::{EnemyContext, GameContext, Hero};
use crate::seed::push_char;
use crate::tag::{Lang, Tag};
use vstd::string::StringExecFns;

verus! {

/// The shape of targets a card's effect requires: the acting hero, one
/// enemy, or the whole enemy group.
#[derive(Clone, Copy, PartialEq, Eq, Structural, Debug)]
pub enum TargetType {
    SelfTarget,
    OneMonsterTarget,
    MonstersTarget,
}

/// Marker for cards that may aim at the acting hero.
pub trait SelfTargetable {

}

/// Marker for cards that may aim at one enemy.
pub trait OneMonsterTargetable {

}

/// Marker for cards that may aim at the whole enemy group.
pub trait MonstersTargetable {

}

/// The character for the decimal digit `d`.
pub open spec fn dec_digit_char(d: nat) -> char
    recommends
        d < 10,
{
    (d + 48) as char
}

/// The decimal digits of `n`, most significant first.
pub open spec fn dec_digits(n: nat) -> Seq<char>
    decreases n,
{
    if n < 10 {
        seq![dec_digit_char(n)]
    } else {
        dec_digits(n / 10).push(dec_digit_char(n % 10))
    }
}

/// The decimal rendering of a 64-bit number.
fn u64_to_dec(n: u64) -> (r: String)
    ensures
        r@ == dec_digits(n as nat),
    decreases n,
{
    if n < 10 {
        let mut s = String::new();
        push_char(&mut s, (48 + n as u8) as char);
        proof {
            assert(s@ =~= seq![dec_digit_char(n as nat)]);
        }
        s
    } else {
        let d = (n % 10) as u8;
        let rest = n / 10;
        proof {
            vstd::arithmetic::div_mod::lemma_fundamental_div_mod(n as int, 10);
            vstd::arithmetic::div_mod::lemma_mod_bound(n as int, 10);
        }
        let mut s = u64_to_dec(rest);
        push_char(&mut s, (48 + d) as char);
        s
    }
}

/// The label a target shape is rendered as.
pub open spec fn target_label(t: TargetType) -> Seq<char> {
    match t {
        TargetType::SelfTarget => "SelfTarget"@,
        TargetType::OneMonsterTarget => "OneMonsterTarget"@,
        TargetType::MonstersTarget => "MonstersTarget"@,
    }
}

/// The rendered summary of a card: its id, the resolved label text, and the
/// target-shape label.
pub open spec fn info_text(id: u64, tag: Tag, t: TargetType) -> Seq<char> {
    "ID: "@ + dec_digits(id as nat) + ", TAG: "@ + tag.display_spec() + ", TYPE: "@ + target_label(
        t,
    )
}

/// An immutable description of a playable action: identity, label, target
/// shape and the hero archetypes allowed to play it.
pub trait Card {
    /// The card's identity within its catalog.
    spec fn spec_id(&self) -> u64;

    /// The card's display label.
    spec fn spec_tag(&self) -> Tag;

    /// The shape of targets the card requires.
    spec fn spec_target_type(&self) -> TargetType;

    /// The hero archetypes allowed to play the card.
    spec fn spec_users(&self) -> Seq<Hero>;

    fn card_id(&self) -> (r: u64)
        ensures
            r == self.spec_id(),
    ;

    fn card_tag(&self) -> (r: Tag)
        ensures
            forall|l: Lang| r.slot(l) == self.spec_tag().slot(l),
    ;

    fn target_type(&self) -> (r: TargetType)
        ensures
            r == self.spec_target_type(),
    ;

    fn card_users(&self) -> (r: Vec<Hero>)
        ensures
            r@ == self.spec_users(),
    ;

    /// The stable, human-readable summary used for logs and tooling.
    fn get_info(&self) -> (r: String)
        requires
            self.spec_tag().populated(),
        ensures
            r@ == info_text(self.spec_id(), self.spec_tag(), self.spec_target_type()),
    ;
}

/// Render the summary a card's `get_info` returns.
pub fn render_info(id: u64, tag: &Tag, t: TargetType) -> (r: String)
    requires
        tag.populated(),
    ensures
        r@ == info_text(id, *tag, t),
{
    let mut s = String::new();
    push_str(&mut s, "ID: ");
    let digits = u64_to_dec(id);
    push_string(&mut s, &digits);
    push_str(&mut s, ", TAG: ");
    let text = tag.string();
    push_string(&mut s, &text);
    push_str(&mut s, ", TYPE: ");
    match t {
        TargetType::SelfTarget => push_str(&mut s, "SelfTarget"),
        TargetType::OneMonsterTarget => push_str(&mut s, "OneMonsterTarget"),
        TargetType::MonstersTarget => push_str(&mut s, "MonstersTarget"),
    }
    proof {
        assert(s@ =~= info_text(id, *tag, t));
    }
    s
}

/// Append a string slice, preserving everything before it.
fn push_str(s: &mut String, other: &str)
    ensures
        final(s)@ == old(s)@ + other@,
{
    s.append(other)
}

/// Append an owned string, preserving everything before it.
fn push_string(s: &mut String, other: &String)
    ensures
        final(s)@ == old(s)@ + other@,
{
    s.append(other.as_str())
}

/// The executable effect of a played card, bound to its resolved target.
pub trait CardCommand {
    /// Apply the effect to the combat state.
    fn execute(&self, ctx: &mut GameContext)
        requires
            old(ctx).enemies_wf(),
    ;
}

/// The effect of a stab bound to its target: deal `damage` to the enemy
/// carrying `monster_id`.
pub struct StabCommand {
    pub monster_id: u64,
    pub damage: u32,
}

impl CardCommand for StabCommand {
    /// Damage the target enemy, health floored at zero. If the target is no
    /// longer among the live enemies the command is a no-op: it neither fails
    /// nor changes anything in the context.
    fn execute(&self, ctx: &mut GameContext)
        ensures
            !old(ctx).has_enemy(self.monster_id) ==> *final(ctx) == *old(ctx),
            old(ctx).has_enemy(self.monster_id) ==> exists|i: int|
                ({
                    &&& 0 <= i < old(ctx).current_enemies@.len()
                    &&& old(ctx).current_enemies@[i].entity_id == self.monster_id
                    &&& final(ctx).current_enemies@ == old(ctx).current_enemies@.update(
                        i,
                        EnemyContext {
                            entity_id: self.monster_id,
                            monster: old(ctx).current_enemies@[i].monster.spec_damaged(self.damage),
                        },
                    )
                }),
            final(ctx).enemies_wf(),
            final(ctx).base_state == old(ctx).base_state,
            final(ctx).is_game_on == old(ctx).is_game_on,
            final(ctx).save_path == old(ctx).save_path,
            final(ctx).gamer == old(ctx).gamer,
            final(ctx).hero == old(ctx).hero,
            final(ctx).deck == old(ctx).deck,
            final(ctx).environment == old(ctx).environment,
    {
        let n = ctx.current_enemies.len();
        let mut i: usize = 0;
        while i < n
            invariant
                i <= n,
                *ctx == *old(ctx),
                n == ctx.current_enemies@.len(),
                old(ctx).enemies_wf(),
                forall|j: int|
                    0 <= j < i ==> #[trigger] ctx.current_enemies@[j].entity_id != self.monster_id,
            decreases n - i,
        {
            if ctx.current_enemies[i].entity_id == self.monster_id {
                ctx.current_enemies[i].monster.take_damage(self.damage);
                proof {
                    let es = old(ctx).current_enemies@;
                    assert(ctx.current_enemies@ =~= es.update(
                        i as int,
                        EnemyContext {
                            entity_id: self.monster_id,
                            monster: es[i as int].monster.spec_damaged(self.damage),
                        },
                    ));
                }
                return ;
            }
            i = i + 1;
        }
    }
}

/// The one example card: a stab dealing a fixed five damage to one enemy,
/// playable by either hero archetype.
#[derive(Debug)]
pub struct StabCard {
    pub id: u64,
    pub tag: Tag,
    pub damage: u32,
}

impl StabCard {
    /// A stab card under the given catalog id, with its fixed label and its
    /// fixed damage of five.
    pub fn new(id: u64) -> (r: StabCard)
        ensures
            r.id == id,
            r.damage == 5,
            r.tag.slot(Lang::ZH) == Some("刺击"@),
            r.tag.slot(Lang::EN) == Some("Stab"@),
            forall|l: Lang| l != Lang::ZH && l != Lang::EN ==> r.tag.slot(l) is None,
    {
        StabCard { id, tag: Tag::zh("刺击").en("Stab"), damage: 5 }
    }
}

impl Card for StabCard {
    open spec fn spec_id(&self) -> u64 {
        self.id
    }

    open spec fn spec_tag(&self) -> Tag {
        self.tag
    }

    open spec fn spec_target_type(&self) -> TargetType {
        TargetType::OneMonsterTarget
    }

    open spec fn spec_users(&self) -> Seq<Hero> {
        seq![Hero::InfinityWarrior, Hero::Aquamancer]
    }

    fn card_id(&self) -> (r: u64) {
        self.id
    }

    fn card_tag(&self) -> (r: Tag) {
        self.tag.clone()
    }

    fn target_type(&self) -> (r: TargetType) {
        TargetType::OneMonsterTarget
    }

    fn card_users(&self) -> (r: Vec<Hero>) {
        let mut v: Vec<Hero> = Vec::new();
        v.push(Hero::InfinityWarrior);
        v.push(Hero::Aquamancer);
        proof {
            assert(v@ =~= seq![Hero::InfinityWarrior, Hero::Aquamancer]);
        }
        v
    }

    fn get_info(&self) -> (r: String) {
        render_info(self.id, &self.tag, TargetType::OneMonsterTarget)
    }
}

} // verus!
