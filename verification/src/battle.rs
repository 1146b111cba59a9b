//! The battle state machine.
//!
//! A gated scene starts a battle: the player repeatedly picks an attack (or
//! flees) until one side's hit points reach zero.  Resolution is pure — the
//! one random draw, the weak attack's damage, is taken as an argument by the
//! deterministic core and supplied by a thin wrapper over the random number
//! generator — so every outcome is reproducible under test.

use vstd::prelude::*;

use crate::scenes::BattleScene;
use crate::text::parse_u32;
use crate::text::parse_u32_spec;

verus! {

/// The hit points a player enters every battle with.
pub const SCENE_HP: i32 = 100;

/// The fixed damage of the enemy's counter-attack.
pub const ENEMY_DMG: i32 = 20;

/// A running battle: the player's and the enemy's remaining hit points.
pub type BattleSceneState = (i32, i32);

/// How one battle turn ended: the enemy fell, the battle goes on with the new
/// hit points, the player fell, the player fled, or the line was no command.
#[derive(PartialEq, Eq, Debug)]
pub enum BattleResult {
    Win,
    Continue(BattleSceneState),
    Loss,
    Run,
    InvalidInput,
}

/// What the player's numeric command maps to.
enum AttackResult {
    Damage(i32),
    Run,
    Invalid,
}

/// A battle state the machine can be in: both sides still stand.  States are
/// created with positive totals and every continuing turn keeps them positive.
pub open spec fn battle_state_wf(state: BattleSceneState) -> bool {
    0 < state.0 && 0 < state.1
}

/// Damage dealt by attack command `n` (meaningful for `1 <= n <= 3`), with
/// the weak attack's random roll passed in.
pub open spec fn damage_spec(n: u32, weak_roll: int) -> int {
    if n == 1 {
        weak_roll
    } else if n == 2 {
        20
    } else {
        100
    }
}

/// Resolution of one attack for `damage`: a killing blow wins outright;
/// otherwise the enemy counters for `ENEMY_DMG`, which either fells the
/// player or continues the battle with the new totals.
pub open spec fn battle_step_spec(state: BattleSceneState, damage: int) -> BattleResult {
    let diff = state.1 - damage;
    if diff <= 0 {
        BattleResult::Win
    } else if state.0 - ENEMY_DMG <= 0 {
        BattleResult::Loss
    } else {
        BattleResult::Continue((((state.0 - ENEMY_DMG) as i32), (diff as i32)))
    }
}

/// Resolution of the numeric command `n`: `4` flees, `1` to `3` attack, and
/// everything else is rejected without consuming the turn.
pub open spec fn resolve_spec(state: BattleSceneState, n: u32, weak_roll: int) -> BattleResult {
    if n == 4 {
        BattleResult::Run
    } else if n == 1 || n == 2 || n == 3 {
        battle_step_spec(state, damage_spec(n, weak_roll))
    } else {
        BattleResult::InvalidInput
    }
}

/// Resolution of one raw input line: parsed like every player line, then
/// resolved as a command.
pub open spec fn play_spec(state: BattleSceneState, input: Seq<char>, weak_roll: int) -> BattleResult {
    match parse_u32_spec(input) {
        Option::None => BattleResult::InvalidInput,
        Option::Some(n) => resolve_spec(state, n, weak_roll),
    }
}

/// Relies on rand's `random_range` over the constant range `5..10`: the draw
/// is uniform over that non-empty half-open range, so it returns a value in
/// `[5, 10)` and does not panic.
#[verifier::external_body]
pub(crate) fn draw_weak_damage() -> (r: i32)
    ensures
        5 <= r < 10,
{
    rand::random_range(5..10)
}

impl BattleScene {
    /// Applies `damage` to the enemy: a surviving enemy counter-attacks for
    /// `ENEMY_DMG`, a felled one leaves the player untouched.
    fn handle_attack(&self, current_state: BattleSceneState, damage: i32) -> (r: BattleSceneState)
        requires
            battle_state_wf(current_state),
            0 <= damage <= 100,
        ensures
            r == (if current_state.1 - damage > 0 {
                (((current_state.0 - ENEMY_DMG) as i32), ((current_state.1 - damage) as i32))
            } else {
                (current_state.0, 0i32)
            }),
    {
        let (user_hp, enemy_hp) = current_state;
        let diff = enemy_hp - damage;
        if diff > 0 {
            (user_hp - ENEMY_DMG, diff)
        } else {
            (user_hp, 0)
        }
    }

    /// Maps the numeric command to its action, with the weak roll passed in.
    fn get_attack_result(&self, user_input: u32, weak_damage: i32) -> (r: AttackResult)
        ensures
            r == (if user_input == 1 {
                AttackResult::Damage(weak_damage)
            } else if user_input == 2 {
                AttackResult::Damage(20i32)
            } else if user_input == 3 {
                AttackResult::Damage(100i32)
            } else if user_input == 4 {
                AttackResult::Run
            } else {
                AttackResult::Invalid
            }),
    {
        match user_input {
            1 => AttackResult::Damage(weak_damage),
            2 => AttackResult::Damage(20),
            3 => AttackResult::Damage(100),
            4 => AttackResult::Run,
            _ => AttackResult::Invalid,
        }
    }

    /// Deterministic core of one battle turn: the weak attack's roll is an
    /// argument, so a test can fix it.
    pub fn battle_with_roll(
        &self,
        input: u32,
        current_state: BattleSceneState,
        weak_damage: i32,
    ) -> (r: BattleResult)
        requires
            battle_state_wf(current_state),
            5 <= weak_damage < 10,
        ensures
            r == resolve_spec(current_state, input, weak_damage as int),
    {
        match self.get_attack_result(input, weak_damage) {
            AttackResult::Damage(damage) => {
                let (user_hp, enemy_hp) = self.handle_attack(current_state, damage);
                if user_hp <= 0 {
                    BattleResult::Loss
                } else if enemy_hp <= 0 {
                    BattleResult::Win
                } else {
                    BattleResult::Continue((user_hp, enemy_hp))
                }
            },
            AttackResult::Run => BattleResult::Run,
            AttackResult::Invalid => BattleResult::InvalidInput,
        }
    }

    /// One battle turn with the weak roll drawn here.  Commands other than
    /// the weak attack resolve the same way whatever was drawn.
    fn battle(&self, input: u32, current_state: BattleSceneState) -> (r: BattleResult)
        requires
            battle_state_wf(current_state),
        ensures
            exists|d: int| 5 <= d < 10 && r == resolve_spec(current_state, input, d),
            input != 1 ==> forall|d: int|
                5 <= d < 10 ==> r == resolve_spec(current_state, input, d),
    {
        let weak_damage = draw_weak_damage();
        let r = self.battle_with_roll(input, current_state, weak_damage);
        proof {
            assert(5 <= weak_damage as int && (weak_damage as int) < 10 && r == resolve_spec(
                current_state,
                input,
                weak_damage as int,
            ));
        }
        r
    }

    /// The state every battle for this scene starts in: the fixed player
    /// total against the enemy's full hit points.
    pub fn get_initial_state(&self) -> (r: BattleSceneState)
        ensures
            r == (SCENE_HP, self.hp),
    {
        (SCENE_HP, self.hp)
    }

    /// One battle turn on a raw input line, as the session loop consumes it.
    pub fn play(&self, input: String, current_state: BattleSceneState) -> (r: BattleResult)
        requires
            battle_state_wf(current_state),
        ensures
            exists|d: int| 5 <= d < 10 && r == play_spec(current_state, input@, d),
            parse_u32_spec(input@) != Option::Some(1u32) ==> forall|d: int|
                5 <= d < 10 ==> r == play_spec(current_state, input@, d),
    {
        match parse_u32(input) {
            Option::Some(user_input) => self.battle(user_input, current_state),
            Option::None => {
                proof {
                    assert(play_spec(current_state, input@, 5) == BattleResult::InvalidInput);
                }
                BattleResult::InvalidInput
            },
        }
    }
}

/// The damage of each attack command: the weak attack deals its roll, always
/// in `[5, 10)`; the medium attack exactly 20; the strong attack exactly 100.
pub proof fn lemma_damage_bounds(n: u32, weak_roll: int)
    requires
        5 <= weak_roll < 10,
    ensures
        n == 1 ==> 5 <= damage_spec(n, weak_roll) < 10,
        n == 2 ==> damage_spec(n, weak_roll) == 20,
        n == 3 ==> damage_spec(n, weak_roll) == 100,
{
}

/// A killing blow wins outright: whenever the damage meets or exceeds the
/// enemy's remaining hit points the outcome is `Win`, whatever the player's
/// own total, and no counter-attack is applied.
pub proof fn lemma_win_on_killing_blow(state: BattleSceneState, damage: int)
    requires
        state.1 - damage <= 0,
    ensures
        battle_step_spec(state, damage) == BattleResult::Win,
{
}

/// If the enemy survives an attack, the counter-attack lands: the player
/// loses exactly `ENEMY_DMG`, and the outcome is `Loss` precisely when that
/// drops the player to zero or below, else `Continue` with both new totals.
pub proof fn lemma_counter_attack(state: BattleSceneState, damage: int)
    requires
        battle_state_wf(state),
        0 <= damage,
        state.1 - damage > 0,
    ensures
        ({
            let player_after = state.0 - ENEMY_DMG;
            if player_after <= 0 {
                battle_step_spec(state, damage) == BattleResult::Loss
            } else {
                battle_step_spec(state, damage) == BattleResult::Continue(
                    ((player_after as i32), ((state.1 - damage) as i32)),
                )
            }
        }),
{
}

/// A continuing battle stays well formed: both totals remain positive.
pub proof fn lemma_continue_preserves_wf(state: BattleSceneState, damage: int, next: BattleSceneState)
    requires
        battle_step_spec(state, damage) == BattleResult::Continue(next),
        battle_state_wf(state),
        0 <= damage,
    ensures
        battle_state_wf(next),
{
}

} // verus!
