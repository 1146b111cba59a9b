use adventure::render::Scene;
use adventure::scenes::StandardScene;
use adventure::scenes::StandardSceneOption;
use adventure::scenes::ValidationError;

fn scene(id: &str, text: &str, end: bool, win: bool, opts: &[(&str, &str)]) -> StandardScene {
    StandardScene {
        scene_id: String::from(id),
        text: String::from(text),
        end,
        win,
        options: opts
            .iter()
            .map(|(target, label)| StandardSceneOption {
                scene_id: String::from(*target),
                text: String::from(*label),
            })
            .collect(),
    }
}

fn coast() -> StandardScene {
    scene(
        "coast",
        "Coast",
        false,
        false,
        &[("forest", "Go to the forest"), ("cave", "Enter the cave")],
    )
}

#[test]
fn advance_returns_chosen_target() {
    let s = coast();
    assert_eq!(s.advance(String::from("1")), Ok(String::from("forest")));
    assert_eq!(s.advance(String::from("2")), Ok(String::from("cave")));
    assert_eq!(s.advance(String::from(" 2 \n")), Ok(String::from("cave")));
}

#[test]
fn advance_rejects_non_numeric() {
    let s = coast();
    assert_eq!(
        s.advance(String::from("north")),
        Err(ValidationError::NotANumber)
    );
    assert_eq!(s.advance(String::from("")), Err(ValidationError::NotANumber));
    assert_eq!(
        s.advance(String::from("1.5")),
        Err(ValidationError::NotANumber)
    );
}

#[test]
fn advance_rejects_out_of_range() {
    let s = coast();
    assert_eq!(
        s.advance(String::from("0")),
        Err(ValidationError::OptionOutOfRange(0))
    );
    assert_eq!(
        s.advance(String::from("3")),
        Err(ValidationError::OptionOutOfRange(3))
    );
    assert_eq!(
        s.advance(String::from("9")),
        Err(ValidationError::OptionOutOfRange(9))
    );
}

#[test]
fn play_renders_error_messages() {
    let s = coast();
    assert_eq!(s.play(String::from("1")), Ok(String::from("forest")));
    assert_eq!(
        s.play(String::from("9")),
        Err(String::from("Number 9 is not an option.\n"))
    );
    assert_eq!(
        s.play(String::from("what")),
        Err(String::from("Please enter the number.\n"))
    );
}

#[test]
fn standard_scene_rendering() {
    let s = coast();
    assert_eq!(s.get_id().as_str(), "coast");
    assert_eq!(s.create_header(), "+-------+\n| Coast |\n+-------+\n");
    assert_eq!(
        s.create_options(),
        "  1) Go to the forest\n  2) Enter the cave\n"
    );
}

#[test]
fn option_indices_reach_two_digits() {
    let opts: Vec<(String, String)> = (1..=12)
        .map(|i| (format!("s{}", i), format!("choice {}", i)))
        .collect();
    let borrowed: Vec<(&str, &str)> = opts
        .iter()
        .map(|(a, b)| (a.as_str(), b.as_str()))
        .collect();
    let s = scene("hub", "Hub", false, false, &borrowed);
    let rendered = s.create_options();
    assert!(rendered.starts_with("  1) choice 1\n"));
    assert!(rendered.contains("\n  10) choice 10\n"));
    assert!(rendered.ends_with("\n  12) choice 12\n"));
    assert_eq!(s.advance(String::from("12")), Ok(String::from("s12")));
    assert_eq!(
        s.advance(String::from("13")),
        Err(ValidationError::OptionOutOfRange(13))
    );
}
