//! The per-connection session state machine.
//!
//! A session owns a cursor into the scene graph and, while a battle gate is
//! being fought, the battle state.  Each client line is consumed by one step
//! that answers with the exact text to write back; the host around the
//! library does nothing but read lines, call the step, and write its answer.

use vstd::prelude::*;
use vstd::pervasive::unreached;

use crate::battle::battle_state_wf;
use crate::battle::damage_spec;
use crate::battle::draw_weak_damage;
use crate::battle::lemma_continue_preserves_wf;
use crate::battle::play_spec;
use crate::battle::BattleResult;
use crate::battle::BattleSceneState;
use crate::catalog::battle_catalog_wf;
use crate::catalog::battle_has_id;
use crate::catalog::battle_lookup_spec;
use crate::catalog::entry_scene_id;
use crate::catalog::has_id;
use crate::catalog::lemma_battle_lookup_props;
use crate::catalog::lemma_lookup_props;
use crate::catalog::lookup_spec;
use crate::catalog::scene_catalog_wf;
use crate::catalog::BattleCatalog;
use crate::catalog::SceneCatalog;
use crate::render::battle_header_text;
use crate::render::battle_options_text;
use crate::render::scene_render_wf;
use crate::render::standard_header_text;
use crate::render::standard_options_text;
use crate::render::Scene;
use crate::scenes::advance_spec;
use crate::scenes::validation_error_text;
use crate::scenes::validation_message;
use crate::scenes::BattleSceneModel;
use crate::scenes::StandardScene;
use crate::scenes::StandardSceneModel;
use crate::text::i32_to_string;
use crate::text::int_digits;
use crate::text::parse_u32;
use crate::text::parse_u32_spec;

verus! {

/// Where a session stands: choosing among a scene's options, fighting the
/// battle that gates the current scene, or done (and whether it won).
#[derive(Clone, Copy, PartialEq, Eq, Debug)]
pub enum SessionPhase {
    Narrating,
    Battling(BattleSceneState),
    Ended(bool),
}

/// One client's cursor: the current scene and the phase within it.
pub struct Session {
    pub current_scene_id: String,
    pub phase: SessionPhase,
}

/// Mathematical image of a `Session`.
pub ghost struct SessionModel {
    pub id: Seq<char>,
    pub phase: SessionPhase,
}

impl View for Session {
    type V = SessionModel;

    open spec fn view(&self) -> SessionModel {
        SessionModel { id: self.current_scene_id@, phase: self.phase }
    }
}

/// The closing line of a lost run.
pub open spec fn game_over_text() -> Seq<char> {
    "Game over, better luck next time.\n"@
}

/// The closing line of a won run.
pub open spec fn game_win_text() -> Seq<char> {
    "You have won! Time to celebrate.\n"@
}

/// The closing line, by whether the run was won.
pub open spec fn closing_text(won: bool) -> Seq<char> {
    if won {
        game_win_text()
    } else {
        game_over_text()
    }
}

/// The line announcing a won battle.
pub open spec fn battle_win_text() -> Seq<char> {
    "You killed your enemy, you can go further\n"@
}

/// The line announcing a lost battle.
pub open spec fn battle_loss_text() -> Seq<char> {
    "You have died fighting :/\n"@
}

/// The line announcing a fled battle.
pub open spec fn battle_flee_text() -> Seq<char> {
    "You run away like a little girl, so you have to start over again.\n"@
}

/// The re-prompt for a battle line that is no command.
pub open spec fn battle_invalid_text() -> Seq<char> {
    "Invalid input\n"@
}

/// The running totals shown after a continuing battle turn.
pub open spec fn battle_status_text(st: BattleSceneState) -> Seq<char> {
    "You: "@ + int_digits(st.0 as int) + " HP, enemy: "@ + int_digits(st.1 as int) + " HP\n"@
}

/// The scene of `ss` with id `id` (meaningful when `has_id(ss, id)`).
pub open spec fn scene_of(ss: Seq<StandardSceneModel>, id: Seq<char>) -> StandardSceneModel {
    lookup_spec(ss, id)->Some_0
}

/// The phase a scene is narrated in: terminal scenes end the session.
pub open spec fn narrate_phase(s: StandardSceneModel) -> SessionPhase {
    if s.end {
        SessionPhase::Ended(s.win)
    } else {
        SessionPhase::Narrating
    }
}

/// What narrating a scene writes: its header, then its options — or, for a
/// terminal scene, the closing message instead; options are never rendered
/// for a terminal scene.
pub open spec fn narrate_text(s: StandardSceneModel) -> Seq<char> {
    if s.end {
        standard_header_text(s) + closing_text(s.win)
    } else {
        standard_header_text(s) + standard_options_text(s.options)
    }
}

/// The phase entered at scene `id`: the gating battle, freshly started, if
/// one exists; otherwise narration of the scene itself.
pub open spec fn enter_phase(
    ss: Seq<StandardSceneModel>,
    bs: Seq<BattleSceneModel>,
    id: Seq<char>,
) -> SessionPhase {
    match battle_lookup_spec(bs, id) {
        Option::Some(b) => SessionPhase::Battling((100i32, b.hp as i32)),
        Option::None => narrate_phase(scene_of(ss, id)),
    }
}

/// What entering scene `id` writes: the battle prompt when the scene is
/// gated, the scene's narration otherwise.
pub open spec fn enter_text(
    ss: Seq<StandardSceneModel>,
    bs: Seq<BattleSceneModel>,
    id: Seq<char>,
) -> Seq<char> {
    match battle_lookup_spec(bs, id) {
        Option::Some(b) => battle_header_text(b) + battle_options_text(),
        Option::None => narrate_text(scene_of(ss, id)),
    }
}

/// A session the step function can be trusted with: intact catalogs, a
/// cursor that resolves, and a well-formed battle state for a gated scene.
pub open spec fn session_wf(
    ss: Seq<StandardSceneModel>,
    bs: Seq<BattleSceneModel>,
    m: SessionModel,
) -> bool {
    &&& scene_catalog_wf(ss)
    &&& battle_catalog_wf(bs, ss)
    &&& has_id(ss, m.id)
    &&& (m.phase matches SessionPhase::Battling(st) ==> battle_state_wf(st) && battle_has_id(
        bs,
        m.id,
    ))
}

/// The session after one step, with the text the step writes.
pub ghost struct StepModel {
    pub sess: SessionModel,
    pub text: Seq<char>,
}

/// One step of the session state machine on a client line, with the weak
/// attack's roll passed in.  Narration validates the line as a choice and
/// enters the chosen scene; a battle resolves the line as a command; errors
/// re-prompt without consuming the turn; fleeing restarts at the entry scene.
pub open spec fn step_spec(
    ss: Seq<StandardSceneModel>,
    bs: Seq<BattleSceneModel>,
    m: SessionModel,
    input: Seq<char>,
    roll: int,
) -> StepModel {
    match m.phase {
        SessionPhase::Narrating => {
            match advance_spec(scene_of(ss, m.id), input) {
                Result::Err(e) => StepModel { sess: m, text: validation_error_text(e) },
                Result::Ok(target) => StepModel {
                    sess: SessionModel { id: target, phase: enter_phase(ss, bs, target) },
                    text: enter_text(ss, bs, target),
                },
            }
        },
        SessionPhase::Battling(st) => {
            match play_spec(st, input, roll) {
                BattleResult::InvalidInput => StepModel { sess: m, text: battle_invalid_text() },
                BattleResult::Continue(n) => StepModel {
                    sess: SessionModel { id: m.id, phase: SessionPhase::Battling(n) },
                    text: battle_status_text(n),
                },
                BattleResult::Win => StepModel {
                    sess: SessionModel { id: m.id, phase: narrate_phase(scene_of(ss, m.id)) },
                    text: battle_win_text() + narrate_text(scene_of(ss, m.id)),
                },
                BattleResult::Loss => StepModel {
                    sess: SessionModel { id: m.id, phase: SessionPhase::Ended(false) },
                    text: battle_loss_text() + closing_text(false),
                },
                BattleResult::Run => StepModel {
                    sess: SessionModel {
                        id: entry_scene_id(),
                        phase: enter_phase(ss, bs, entry_scene_id()),
                    },
                    text: battle_flee_text() + enter_text(ss, bs, entry_scene_id()),
                },
            }
        },
        SessionPhase::Ended(_) => StepModel { sess: m, text: Seq::<char>::empty() },
    }
}

/// Renders the closing message of a lost run.
pub fn create_game_over() -> (r: String)
    ensures
        r@ == game_over_text(),
{
    String::from_str("Game over, better luck next time.\n")
}

/// Renders the closing message of a won run.
pub fn create_game_win() -> (r: String)
    ensures
        r@ == game_win_text(),
{
    String::from_str("You have won! Time to celebrate.\n")
}

fn battle_status_message(st: BattleSceneState) -> (r: String)
    ensures
        r@ == battle_status_text(st),
{
    let mut r = String::from_str("You: ");
    let player = i32_to_string(st.0);
    r.append(player.as_str());
    r.append(" HP, enemy: ");
    let enemy = i32_to_string(st.1);
    r.append(enemy.as_str());
    r.append(" HP\n");
    proof {
        assert(r@ =~= battle_status_text(st));
    }
    r
}

fn narrate_scene(s: &StandardScene) -> (r: (SessionPhase, String))
    requires
        scene_render_wf(s@),
    ensures
        r.0 == narrate_phase(s@),
        r.1@ == narrate_text(s@),
{
    let mut out = s.create_header();
    if s.end {
        let closing = if s.win {
            create_game_win()
        } else {
            create_game_over()
        };
        out.append(closing.as_str());
        (SessionPhase::Ended(s.win), out)
    } else {
        let opts = s.create_options();
        out.append(opts.as_str());
        (SessionPhase::Narrating, out)
    }
}

fn enter_scene(scenes: &SceneCatalog, battles: &BattleCatalog, id: &String) -> (r: (
    SessionPhase,
    String,
))
    requires
        scene_catalog_wf(scenes@),
        battle_catalog_wf(battles@, scenes@),
        has_id(scenes@, id@),
    ensures
        r.0 == enter_phase(scenes@, battles@, id@),
        r.1@ == enter_text(scenes@, battles@, id@),
        r.0 matches SessionPhase::Battling(st) ==> battle_state_wf(st) && battle_has_id(
            battles@,
            id@,
        ),
{
    match battles.get(id) {
        Option::Some(b) => {
            proof {
                lemma_battle_lookup_props(battles@, id@);
                let i = choose|i: int| 0 <= i < battles@.len() && #[trigger] battles@[i] == b@;
                assert(1 <= battles@[i].hp);
            }
            let st = b.get_initial_state();
            let mut out = b.create_header();
            let opts = b.create_options();
            out.append(opts.as_str());
            (SessionPhase::Battling(st), out)
        },
        Option::None => {
            proof {
                lemma_battle_lookup_props(battles@, id@);
            }
            match scenes.get(id) {
                Option::Some(s) => {
                    proof {
                        lemma_lookup_props(scenes@, id@);
                        let i = choose|i: int|
                            0 <= i < scenes@.len() && #[trigger] scenes@[i] == s@;
                        assert(scene_render_wf(scenes@[i]));
                    }
                    narrate_scene(s)
                },
                Option::None => unreached(),
            }
        },
    }
}

impl Session {
    /// Opens a session: the cursor starts at the fixed entry scene, and the
    /// answer is the first text to write to the client.
    pub fn new(scenes: &SceneCatalog, battles: &BattleCatalog) -> (r: (Session, String))
        requires
            scene_catalog_wf(scenes@),
            battle_catalog_wf(battles@, scenes@),
        ensures
            session_wf(scenes@, battles@, r.0@),
            r.0@.id == entry_scene_id(),
            r.0@.phase == enter_phase(scenes@, battles@, entry_scene_id()),
            r.1@ == enter_text(scenes@, battles@, entry_scene_id()),
    {
        let id = String::from_str("coast");
        let (phase, out) = enter_scene(scenes, battles, &id);
        (Session { current_scene_id: id, phase }, out)
    }

    /// One step of the session on the client line `input`, with the weak
    /// attack's roll passed in so that a test can fix it.  The answer is the
    /// exact text to write back.
    pub fn handle_line_with_roll(
        &mut self,
        scenes: &SceneCatalog,
        battles: &BattleCatalog,
        input: String,
        weak_roll: i32,
    ) -> (out: String)
        requires
            session_wf(scenes@, battles@, old(self)@),
            !(old(self)@.phase is Ended),
            5 <= weak_roll < 10,
        ensures
            session_wf(scenes@, battles@, final(self)@),
            ({
                let m = step_spec(scenes@, battles@, old(self)@, input@, weak_roll as int);
                final(self)@ == m.sess && out@ == m.text
            }),
    {
        let phase = self.phase;
        match phase {
            SessionPhase::Narrating => {
                let scene = match scenes.get(&self.current_scene_id) {
                    Option::Some(s) => s,
                    Option::None => unreached(),
                };
                match scene.advance(input) {
                    Result::Err(e) => validation_message(e),
                    Result::Ok(target) => {
                        proof {
                            lemma_lookup_props(scenes@, old(self)@.id);
                            let i = choose|i: int|
                                0 <= i < scenes@.len() && #[trigger] scenes@[i] == scene@;
                            match parse_u32_spec(input@) {
                                Option::Some(n) => {
                                    assert(has_id(
                                        scenes@,
                                        scenes@[i].options[n - 1].scene_id,
                                    ));
                                },
                                Option::None => {
                                    assert(false);
                                },
                            }
                        }
                        self.current_scene_id = target;
                        let (phase, out) = enter_scene(scenes, battles, &self.current_scene_id);
                        self.phase = phase;
                        out
                    },
                }
            },
            SessionPhase::Battling(st) => {
                let battle = match battles.get(&self.current_scene_id) {
                    Option::Some(b) => b,
                    Option::None => unreached(),
                };
                match parse_u32(input) {
                    Option::None => String::from_str("Invalid input\n"),
                    Option::Some(n) => {
                        match battle.battle_with_roll(n, st, weak_roll) {
                            BattleResult::InvalidInput => String::from_str("Invalid input\n"),
                            BattleResult::Continue(next) => {
                                proof {
                                    if n == 1 || n == 2 || n == 3 {
                                        lemma_continue_preserves_wf(
                                            st,
                                            damage_spec(n, weak_roll as int),
                                            next,
                                        );
                                    } else {
                                        assert(false);
                                    }
                                }
                                self.phase = SessionPhase::Battling(next);
                                battle_status_message(next)
                            },
                            BattleResult::Win => {
                                let scene = match scenes.get(&self.current_scene_id) {
                                    Option::Some(s) => s,
                                    Option::None => unreached(),
                                };
                                proof {
                                    lemma_lookup_props(scenes@, old(self)@.id);
                                    let i = choose|i: int|
                                        0 <= i < scenes@.len() && #[trigger] scenes@[i] == scene@;
                                    assert(scene_render_wf(scenes@[i]));
                                }
                                let (phase, text) = narrate_scene(scene);
                                self.phase = phase;
                                let mut out = String::from_str(
                                    "You killed your enemy, you can go further\n",
                                );
                                out.append(text.as_str());
                                out
                            },
                            BattleResult::Loss => {
                                self.phase = SessionPhase::Ended(false);
                                let mut out = String::from_str("You have died fighting :/\n");
                                let closing = create_game_over();
                                out.append(closing.as_str());
                                out
                            },
                            BattleResult::Run => {
                                self.current_scene_id = String::from_str("coast");
                                let (phase, text) = enter_scene(
                                    scenes,
                                    battles,
                                    &self.current_scene_id,
                                );
                                self.phase = phase;
                                let mut out = String::from_str(
                                    "You run away like a little girl, so you have to start over again.\n",
                                );
                                out.append(text.as_str());
                                out
                            },
                        }
                    },
                }
            },
            SessionPhase::Ended(_) => unreached(),
        }
    }

    /// One step of the session on the client line `input`, drawing the weak
    /// attack's roll here.  Whatever was drawn, the step taken is a
    /// `step_spec` step for some roll in `[5, 10)`; a step that is not a
    /// weak attack resolves the same way whatever was drawn.
    pub fn handle_line(
        &mut self,
        scenes: &SceneCatalog,
        battles: &BattleCatalog,
        input: String,
    ) -> (out: String)
        requires
            session_wf(scenes@, battles@, old(self)@),
            !(old(self)@.phase is Ended),
        ensures
            session_wf(scenes@, battles@, final(self)@),
            exists|d: int|
                5 <= d < 10 && final(self)@ == (#[trigger] step_spec(
                    scenes@,
                    battles@,
                    old(self)@,
                    input@,
                    d,
                )).sess && out@ == step_spec(scenes@, battles@, old(self)@, input@, d).text,
            !(old(self)@.phase is Battling && parse_u32_spec(input@) == Option::Some(1u32))
                ==> forall|d: int|
                5 <= d < 10 ==> final(self)@ == (#[trigger] step_spec(
                    scenes@,
                    battles@,
                    old(self)@,
                    input@,
                    d,
                )).sess && out@ == step_spec(scenes@, battles@, old(self)@, input@, d).text,
    {
        let roll = draw_weak_damage();
        let out = self.handle_line_with_roll(scenes, battles, input, roll);
        proof {
            let r = roll as int;
            assert(5 <= r && r < 10 && final(self)@ == step_spec(
                scenes@,
                battles@,
                old(self)@,
                input@,
                r,
            ).sess && out@ == step_spec(scenes@, battles@, old(self)@, input@, r).text);
            if !(old(self)@.phase is Battling && parse_u32_spec(input@) == Option::Some(1u32)) {
                assert forall|d: int| 5 <= d < 10 implies step_spec(
                    scenes@,
                    battles@,
                    old(self)@,
                    input@,
                    d,
                ) == step_spec(scenes@, battles@, old(self)@, input@, r) by {
                    match old(self)@.phase {
                        SessionPhase::Battling(st) => {
                            assert(play_spec(st, input@, d) == play_spec(st, input@, r));
                        },
                        _ => {},
                    }
                }
            }
        }
        out
    }

    /// True once the session has ended and no further line is read.
    pub fn is_ended(&self) -> (r: bool)
        ensures
            r == (self@.phase is Ended),
    {
        match self.phase {
            SessionPhase::Ended(_) => true,
            _ => false,
        }
    }
}

/// Fleeing always discards the battle state and routes the session back to
/// the fixed entry scene, whatever the hit points were: the next phase is
/// whatever entering the entry scene yields, with any gating battle started
/// afresh.
pub proof fn lemma_flee_routes_to_entry(
    ss: Seq<StandardSceneModel>,
    bs: Seq<BattleSceneModel>,
    m: SessionModel,
    input: Seq<char>,
    roll: int,
    st: BattleSceneState,
)
    requires
        m.phase == SessionPhase::Battling(st),
        play_spec(st, input, roll) == BattleResult::Run,
    ensures
        step_spec(ss, bs, m, input, roll).sess.id == entry_scene_id(),
        step_spec(ss, bs, m, input, roll).sess.phase == enter_phase(ss, bs, entry_scene_id()),
{
}

/// A terminal winning scene is narrated as its header followed by the
/// victory closing message — its options are never rendered — and it ends
/// the session as won.
pub proof fn lemma_terminal_win_renders_victory(s: StandardSceneModel)
    requires
        s.end,
        s.win,
    ensures
        narrate_text(s) == standard_header_text(s) + game_win_text(),
        narrate_phase(s) == SessionPhase::Ended(true),
{
}

} // verus!
