use adventure::catalog::get_battle_scenes;
use adventure::catalog::get_scenes;
use adventure::catalog::AssetIntegrityError;
use adventure::scenes::BattleScene;
use adventure::scenes::StandardScene;
use adventure::scenes::StandardSceneOption;

fn scene(id: &str, text: &str, end: bool, win: bool, opts: &[(&str, &str)]) -> StandardScene {
    StandardScene {
        scene_id: String::from(id),
        text: String::from(text),
        end,
        win,
        options: opts
            .iter()
            .map(|(target, label)| StandardSceneOption {
                scene_id: String::from(*target),
                text: String::from(*label),
            })
            .collect(),
    }
}

fn battle(id: &str, enemy: &str, hp: i32) -> BattleScene {
    BattleScene {
        scene_id: String::from(id),
        enemy: String::from(enemy),
        hp,
    }
}

fn world() -> Vec<StandardScene> {
    vec![
        scene("coast", "Coast", false, false, &[("forest", "Go north")]),
        scene("forest", "Forest", false, false, &[("peak", "Climb")]),
        scene("peak", "The peak", true, true, &[]),
    ]
}

#[test]
fn valid_scenes_are_accepted() {
    let catalog = get_scenes(world()).expect("valid world");
    let coast = catalog.get(&String::from("coast")).expect("coast exists");
    assert_eq!(coast.text, "Coast");
    assert!(catalog.get(&String::from("nowhere")).is_none());
}

#[test]
fn duplicate_scene_id_is_rejected() {
    let mut data = world();
    data.push(scene("coast", "Another coast", false, false, &[]));
    assert!(matches!(
        get_scenes(data),
        Err(AssetIntegrityError::DuplicateId)
    ));
}

#[test]
fn missing_entry_scene_is_rejected() {
    let data = vec![scene("forest", "Forest", true, false, &[])];
    assert!(matches!(
        get_scenes(data),
        Err(AssetIntegrityError::MissingEntryScene)
    ));
}

#[test]
fn dangling_option_target_is_rejected() {
    let data = vec![scene(
        "coast",
        "Coast",
        false,
        false,
        &[("atlantis", "Dive")],
    )];
    assert!(matches!(
        get_scenes(data),
        Err(AssetIntegrityError::DanglingOptionTarget)
    ));
}

#[test]
fn valid_battles_are_accepted() {
    let scenes = get_scenes(world()).expect("valid world");
    let battles =
        get_battle_scenes(vec![battle("forest", "Bear", 30)], &scenes).expect("valid battles");
    let bear = battles.get(&String::from("forest")).expect("gated");
    assert_eq!(bear.enemy, "Bear");
    assert_eq!(bear.hp, 30);
    assert!(battles.get(&String::from("coast")).is_none());
}

#[test]
fn battle_for_unknown_scene_is_rejected() {
    let scenes = get_scenes(world()).expect("valid world");
    assert!(matches!(
        get_battle_scenes(vec![battle("atlantis", "Kraken", 50)], &scenes),
        Err(AssetIntegrityError::BattleForUnknownScene)
    ));
}

#[test]
fn duplicate_battle_id_is_rejected() {
    let scenes = get_scenes(world()).expect("valid world");
    assert!(matches!(
        get_battle_scenes(
            vec![battle("forest", "Bear", 30), battle("forest", "Wolf", 10)],
            &scenes
        ),
        Err(AssetIntegrityError::DuplicateId)
    ));
}

#[test]
fn non_positive_enemy_hp_is_rejected() {
    let scenes = get_scenes(world()).expect("valid world");
    assert!(matches!(
        get_battle_scenes(vec![battle("forest", "Ghost", 0)], &scenes),
        Err(AssetIntegrityError::InvalidEnemyHp)
    ));
    let scenes = get_scenes(world()).expect("valid world");
    assert!(matches!(
        get_battle_scenes(vec![battle("forest", "Ghost", -5)], &scenes),
        Err(AssetIntegrityError::InvalidEnemyHp)
    ));
}
