use adventure::catalog::get_battle_scenes;
use adventure::catalog::get_scenes;
use adventure::catalog::BattleCatalog;
use adventure::catalog::SceneCatalog;
use adventure::scenes::BattleScene;
use adventure::scenes::StandardScene;
use adventure::scenes::StandardSceneOption;
use adventure::session::create_game_over;
use adventure::session::create_game_win;
use adventure::session::Session;
use adventure::session::SessionPhase;

fn scene(id: &str, text: &str, end: bool, win: bool, opts: &[(&str, &str)]) -> StandardScene {
    StandardScene {
        scene_id: String::from(id),
        text: String::from(text),
        end,
        win,
        options: opts
            .iter()
            .map(|(target, label)| StandardSceneOption {
                scene_id: String::from(*target),
                text: String::from(*label),
            })
            .collect(),
    }
}

/// The world of the end-to-end scenarios: an ungated entry scene, a forest
/// gated by a 30 HP bear, a winning peak and a losing swamp.
fn world() -> (SceneCatalog, BattleCatalog) {
    let scenes = get_scenes(vec![
        scene(
            "coast",
            "Coast",
            false,
            false,
            &[("forest", "Go to the forest"), ("swamp", "Wade in")],
        ),
        scene(
            "forest",
            "Forest",
            false,
            false,
            &[("peak", "Climb the peak")],
        ),
        scene("peak", "The peak", true, true, &[]),
        scene("swamp", "The swamp", true, false, &[]),
    ])
    .expect("valid scenes");
    let battles = get_battle_scenes(
        vec![BattleScene {
            scene_id: String::from("forest"),
            enemy: String::from("Bear"),
            hp: 30,
        }],
        &scenes,
    )
    .expect("valid battles");
    (scenes, battles)
}

const COAST_TEXT: &str = "+-------+\n| Coast |\n+-------+\n  1) Go to the forest\n  2) Wade in\n";
const BATTLE_PROMPT: &str =
    "[BATTLE] Wild Bear (30 HP) appeared!\n 1) Use your fists\n 2) Use shotgun\n 3) Use bazooka\n 4) RUN\n";
const FOREST_TEXT: &str = "+--------+\n| Forest |\n+--------+\n  1) Climb the peak\n";

#[test]
fn session_opens_at_the_coast() {
    let (scenes, battles) = world();
    let (session, out) = Session::new(&scenes, &battles);
    assert_eq!(session.current_scene_id, "coast");
    assert_eq!(session.phase, SessionPhase::Narrating);
    assert_eq!(out, COAST_TEXT);
}

#[test]
fn out_of_range_choice_keeps_the_cursor() {
    // Scenario A, second half: input "9" at the coast re-prompts and the
    // cursor stays put.
    let (scenes, battles) = world();
    let (mut session, _) = Session::new(&scenes, &battles);
    let out = session.handle_line(&scenes, &battles, String::from("9"));
    assert_eq!(out, "Number 9 is not an option.\n");
    assert_eq!(session.current_scene_id, "coast");
    assert_eq!(session.phase, SessionPhase::Narrating);
}

#[test]
fn non_numeric_choice_keeps_the_cursor() {
    let (scenes, battles) = world();
    let (mut session, _) = Session::new(&scenes, &battles);
    let out = session.handle_line(&scenes, &battles, String::from("inland"));
    assert_eq!(out, "Please enter the number.\n");
    assert_eq!(session.current_scene_id, "coast");
    assert_eq!(session.phase, SessionPhase::Narrating);
}

#[test]
fn entering_a_gated_scene_starts_its_battle() {
    // Scenarios A and B: input "1" moves to the forest, whose gate opens a
    // battle at (100, 30).
    let (scenes, battles) = world();
    let (mut session, _) = Session::new(&scenes, &battles);
    let out = session.handle_line(&scenes, &battles, String::from("1"));
    assert_eq!(session.current_scene_id, "forest");
    assert_eq!(session.phase, SessionPhase::Battling((100, 30)));
    assert_eq!(out, BATTLE_PROMPT);
}

#[test]
fn winning_the_battle_narrates_the_scene() {
    // Scenario B: the bazooka fells the bear outright, and the forest's own
    // narration follows — no second battle prompt.
    let (scenes, battles) = world();
    let (mut session, _) = Session::new(&scenes, &battles);
    session.handle_line(&scenes, &battles, String::from("1"));
    let out = session.handle_line(&scenes, &battles, String::from("3"));
    assert_eq!(session.current_scene_id, "forest");
    assert_eq!(session.phase, SessionPhase::Narrating);
    assert_eq!(
        out,
        format!("You killed your enemy, you can go further\n{}", FOREST_TEXT)
    );
}

#[test]
fn weak_attack_with_a_fixed_roll_continues() {
    // Scenario C: a weak attack whose roll is fixed at 7 leaves the bear at
    // 23 and the player at 80.
    let (scenes, battles) = world();
    let (mut session, _) = Session::new(&scenes, &battles);
    session.handle_line(&scenes, &battles, String::from("1"));
    let out = session.handle_line_with_roll(&scenes, &battles, String::from("1"), 7);
    assert_eq!(session.phase, SessionPhase::Battling((80, 23)));
    assert_eq!(out, "You: 80 HP, enemy: 23 HP\n");
}

#[test]
fn invalid_battle_input_keeps_the_state() {
    let (scenes, battles) = world();
    let (mut session, _) = Session::new(&scenes, &battles);
    session.handle_line(&scenes, &battles, String::from("1"));
    let out = session.handle_line(&scenes, &battles, String::from("charge"));
    assert_eq!(out, "Invalid input\n");
    let out = session.handle_line(&scenes, &battles, String::from("7"));
    assert_eq!(out, "Invalid input\n");
    assert_eq!(session.phase, SessionPhase::Battling((100, 30)));
}

#[test]
fn fleeing_restarts_at_the_entry_scene() {
    // Fleeing discards the battle and routes back to the coast, whatever the
    // hit points were.
    let (scenes, battles) = world();
    let (mut session, _) = Session::new(&scenes, &battles);
    session.handle_line(&scenes, &battles, String::from("1"));
    session.handle_line_with_roll(&scenes, &battles, String::from("1"), 7);
    let out = session.handle_line(&scenes, &battles, String::from("4"));
    assert_eq!(session.current_scene_id, "coast");
    assert_eq!(session.phase, SessionPhase::Narrating);
    assert_eq!(
        out,
        format!(
            "You run away like a little girl, so you have to start over again.\n{}",
            COAST_TEXT
        )
    );
}

#[test]
fn losing_the_battle_ends_the_session() {
    // Five shotgun rounds cannot fell a 1000 HP enemy before the
    // counter-attacks drain 100 HP.
    let scenes = get_scenes(vec![
        scene("coast", "Coast", false, false, &[("forest", "Go north")]),
        scene("forest", "Forest", true, true, &[]),
    ])
    .expect("valid scenes");
    let battles = get_battle_scenes(
        vec![BattleScene {
            scene_id: String::from("forest"),
            enemy: String::from("Dragon"),
            hp: 1000,
        }],
        &scenes,
    )
    .expect("valid battles");
    let (mut session, _) = Session::new(&scenes, &battles);
    session.handle_line(&scenes, &battles, String::from("1"));
    for turn in 1..=4 {
        let out = session.handle_line(&scenes, &battles, String::from("2"));
        assert_eq!(
            out,
            format!("You: {} HP, enemy: {} HP\n", 100 - 20 * turn, 1000 - 20 * turn)
        );
    }
    let out = session.handle_line(&scenes, &battles, String::from("2"));
    assert_eq!(
        out,
        format!("You have died fighting :/\n{}", create_game_over())
    );
    assert_eq!(session.phase, SessionPhase::Ended(false));
    assert!(session.is_ended());
}

#[test]
fn terminal_winning_scene_closes_with_victory() {
    // A terminal winning scene renders its header and the victory closing
    // message, and no options.
    let (scenes, battles) = world();
    let (mut session, _) = Session::new(&scenes, &battles);
    session.handle_line(&scenes, &battles, String::from("1"));
    session.handle_line(&scenes, &battles, String::from("3"));
    let out = session.handle_line(&scenes, &battles, String::from("1"));
    assert_eq!(session.current_scene_id, "peak");
    assert_eq!(session.phase, SessionPhase::Ended(true));
    assert!(session.is_ended());
    assert_eq!(
        out,
        format!("+----------+\n| The peak |\n+----------+\n{}", create_game_win())
    );
}

#[test]
fn terminal_losing_scene_closes_with_game_over() {
    let (scenes, battles) = world();
    let (mut session, _) = Session::new(&scenes, &battles);
    let out = session.handle_line(&scenes, &battles, String::from("2"));
    assert_eq!(session.phase, SessionPhase::Ended(false));
    assert_eq!(
        out,
        format!("+-----------+\n| The swamp |\n+-----------+\n{}", create_game_over())
    );
}

#[test]
fn gated_entry_scene_opens_with_its_battle() {
    // Fleeing from the entry scene's own gate restarts that same battle.
    let scenes = get_scenes(vec![
        scene("coast", "Coast", false, false, &[("coast", "Stay put")]),
    ])
    .expect("valid scenes");
    let battles = get_battle_scenes(
        vec![BattleScene {
            scene_id: String::from("coast"),
            enemy: String::from("Crab"),
            hp: 8,
        }],
        &scenes,
    )
    .expect("valid battles");
    let (mut session, out) = Session::new(&scenes, &battles);
    assert_eq!(session.phase, SessionPhase::Battling((100, 8)));
    assert!(out.starts_with("[BATTLE] Wild Crab (8 HP) appeared!\n"));
    let out = session.handle_line(&scenes, &battles, String::from("4"));
    assert_eq!(session.phase, SessionPhase::Battling((100, 8)));
    assert!(out.starts_with(
        "You run away like a little girl, so you have to start over again.\n[BATTLE] Wild Crab"
    ));
}
