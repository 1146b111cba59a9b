//! The scene data model and the narrative state machine.
//!
//! A standard scene offers an ordered list of options; the narrative state
//! machine reads a one-line choice, validates it, and answers with the chosen
//! option's target scene id.  It is pure: all I/O stays with the caller.

use vstd::prelude::*;

use crate::text::dec_digits;
use crate::text::parse_u32;
use crate::text::parse_u32_spec;
use crate::text::u32_to_string;

verus! {

/// One selectable branch of a standard scene: the scene it leads to and the
/// line of text offered to the player.
pub struct StandardSceneOption {
    pub scene_id: String,
    pub text: String,
}

/// Mathematical image of a `StandardSceneOption`.
pub ghost struct SceneOptionModel {
    pub scene_id: Seq<char>,
    pub text: Seq<char>,
}

impl View for StandardSceneOption {
    type V = SceneOptionModel;

    open spec fn view(&self) -> SceneOptionModel {
        SceneOptionModel { scene_id: self.scene_id@, text: self.text@ }
    }
}

/// A node of the narrative graph.  When `end` is true the scene is terminal
/// and its options are never consulted; `win` then picks the closing message.
pub struct StandardScene {
    pub scene_id: String,
    pub text: String,
    pub end: bool,
    pub win: bool,
    pub options: Vec<StandardSceneOption>,
}

/// Mathematical image of a `StandardScene`.
pub ghost struct StandardSceneModel {
    pub scene_id: Seq<char>,
    pub text: Seq<char>,
    pub end: bool,
    pub win: bool,
    pub options: Seq<SceneOptionModel>,
}

impl View for StandardScene {
    type V = StandardSceneModel;

    open spec fn view(&self) -> StandardSceneModel {
        StandardSceneModel {
            scene_id: self.scene_id@,
            text: self.text@,
            end: self.end,
            win: self.win,
            options: self.options@.map_values(|o: StandardSceneOption| o@),
        }
    }
}

/// The battle that gates entry into the standard scene of the same id.
pub struct BattleScene {
    pub scene_id: String,
    pub enemy: String,
    pub hp: i32,
}

/// Mathematical image of a `BattleScene`.
pub ghost struct BattleSceneModel {
    pub scene_id: Seq<char>,
    pub enemy: Seq<char>,
    pub hp: int,
}

impl View for BattleScene {
    type V = BattleSceneModel;

    open spec fn view(&self) -> BattleSceneModel {
        BattleSceneModel { scene_id: self.scene_id@, enemy: self.enemy@, hp: self.hp as int }
    }
}

/// Why a narrative choice was rejected: the line was not a number, or the
/// number does not name an option of the current scene.
#[derive(Clone, Copy, PartialEq, Eq, Structural, Debug)]
pub enum ValidationError {
    NotANumber,
    OptionOutOfRange(u32),
}

/// What the narrative state machine answers on `input` at scene `s`: the
/// chosen option's target scene id, or the error to re-prompt with.
pub open spec fn advance_spec(s: StandardSceneModel, input: Seq<char>) -> Result<
    Seq<char>,
    ValidationError,
> {
    match parse_u32_spec(input) {
        Option::None => Result::Err(ValidationError::NotANumber),
        Option::Some(n) => if 1 <= n && n <= s.options.len() {
            Result::Ok(s.options[n - 1].scene_id)
        } else {
            Result::Err(ValidationError::OptionOutOfRange(n))
        },
    }
}

/// The re-prompt line for a choice that was not a number.
pub open spec fn not_a_number_text() -> Seq<char> {
    "Please enter the number.\n"@
}

/// The re-prompt line for a numeric choice with no matching option.
pub open spec fn out_of_range_text(n: int) -> Seq<char> {
    "Number "@ + dec_digits(n as nat) + " is not an option.\n"@
}

/// The message rendered for a rejected choice.
pub open spec fn validation_error_text(e: ValidationError) -> Seq<char> {
    match e {
        ValidationError::NotANumber => not_a_number_text(),
        ValidationError::OptionOutOfRange(n) => out_of_range_text(n as int),
    }
}

/// Renders a rejected choice as its re-prompt message.
pub fn validation_message(e: ValidationError) -> (r: String)
    ensures
        r@ == validation_error_text(e),
{
    match e {
        ValidationError::NotANumber => String::from_str("Please enter the number.\n"),
        ValidationError::OptionOutOfRange(n) => {
            let mut msg = String::from_str("Number ");
            let digits = u32_to_string(n);
            msg.append(digits.as_str());
            msg.append(" is not an option.\n");
            proof {
                assert(msg@ =~= out_of_range_text(n as int));
            }
            msg
        },
    }
}

impl StandardScene {
    /// Narrative state machine: parses `input` as a 1-based option index and
    /// answers with that option's target scene id, or with the validation
    /// error.  Pure and total: every outcome is pinned by `advance_spec`.
    pub fn advance(&self, input: String) -> (r: Result<String, ValidationError>)
        ensures
            ({
                let m = advance_spec(self@, input@);
                match r {
                    Result::Ok(id) => m matches Result::Ok(t) && id@ == t,
                    Result::Err(e) => m == Result::<Seq<char>, ValidationError>::Err(e),
                }
            }),
    {
        match parse_u32(input) {
            Option::None => Result::Err(ValidationError::NotANumber),
            Option::Some(n) => {
                if 1 <= n && n as usize <= self.options.len() {
                    let idx = (n - 1) as usize;
                    Result::Ok(self.options[idx].scene_id.clone())
                } else {
                    Result::Err(ValidationError::OptionOutOfRange(n))
                }
            },
        }
    }

    /// `advance`, with the error already rendered as its re-prompt message.
    pub fn validate_user_action(&self, input: String) -> (r: Result<String, String>)
        ensures
            ({
                let m = advance_spec(self@, input@);
                match r {
                    Result::Ok(id) => m matches Result::Ok(t) && id@ == t,
                    Result::Err(msg) => m matches Result::Err(e) && msg@ == validation_error_text(
                        e,
                    ),
                }
            }),
    {
        match self.advance(input) {
            Result::Ok(id) => Result::Ok(id),
            Result::Err(e) => Result::Err(validation_message(e)),
        }
    }

    /// One narrative turn, as the session loop consumes it.
    pub fn play(&self, input: String) -> (r: Result<String, String>)
        ensures
            ({
                let m = advance_spec(self@, input@);
                match r {
                    Result::Ok(id) => m matches Result::Ok(t) && id@ == t,
                    Result::Err(msg) => m matches Result::Err(e) && msg@ == validation_error_text(
                        e,
                    ),
                }
            }),
    {
        self.validate_user_action(input)
    }
}

/// Typing an option's 1-based index chooses it: for every option of the
/// scene, advancing on the decimal rendering of its index returns exactly
/// that option's target scene id.
pub proof fn lemma_advance_round_trip(s: StandardSceneModel, i: int)
    requires
        0 <= i < s.options.len(),
        s.options.len() <= u32::MAX,
    ensures
        advance_spec(s, dec_digits((i + 1) as nat)) == Result::<Seq<char>, ValidationError>::Ok(
            s.options[i].scene_id,
        ),
{
    crate::text::lemma_parse_round_trip((i + 1) as u32);
}

/// A valid 1-based choice is answered with exactly that option's target
/// scene id.
pub proof fn lemma_advance_picks_chosen_option(s: StandardSceneModel, n: u32)
    requires
        1 <= n <= s.options.len(),
    ensures
        forall|input: Seq<char>|
            parse_u32_spec(input) == Option::Some(n) ==> advance_spec(s, input)
                == Result::<Seq<char>, ValidationError>::Ok(s.options[n - 1].scene_id),
{
}

/// An input that does not read as a number is always answered `NotANumber`.
pub proof fn lemma_advance_rejects_non_numeric(s: StandardSceneModel, input: Seq<char>)
    requires
        parse_u32_spec(input) is None,
    ensures
        advance_spec(s, input) == Result::<Seq<char>, ValidationError>::Err(
            ValidationError::NotANumber,
        ),
{
}

/// A numeric choice outside `1 ..= options.len()` is always answered
/// `OptionOutOfRange` carrying that number.
pub proof fn lemma_advance_rejects_out_of_range(s: StandardSceneModel, input: Seq<char>, n: u32)
    requires
        parse_u32_spec(input) == Option::Some(n),
        n < 1 || n > s.options.len(),
    ensures
        advance_spec(s, input) == Result::<Seq<char>, ValidationError>::Err(
            ValidationError::OptionOutOfRange(n),
        ),
{
}

} // verus!
