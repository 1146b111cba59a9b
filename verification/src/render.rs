//! Pure rendering of scenes and battle prompts.
//!
//! Every message the engine sends over the wire is produced here as a
//! `String` whose exact contents the contracts pin down; the session loop's
//! host does the writing.

use vstd::prelude::*;

use crate::scenes::BattleScene;
use crate::scenes::BattleSceneModel;
use crate::scenes::SceneOptionModel;
use crate::scenes::StandardScene;
use crate::scenes::StandardSceneModel;
use crate::text::dec_digits;
use crate::text::i32_to_string;
use crate::text::int_digits;
use crate::text::u32_to_string;

verus! {

/// A run of `n` dashes, as drawn around a scene's header text.
pub open spec fn dashes(n: nat) -> Seq<char> {
    Seq::new(n, |i: int| '-')
}

/// The boxed header block of a standard scene.
pub open spec fn standard_header_text(s: StandardSceneModel) -> Seq<char> {
    "+"@ + dashes(s.text.len() + 2) + "+\n| "@ + s.text + " |\n+"@ + dashes(s.text.len() + 2)
        + "+\n"@
}

/// One line of the option list: a 1-based index and the option's text.
pub open spec fn option_line_text(o: SceneOptionModel, idx: int) -> Seq<char> {
    "  "@ + dec_digits(idx as nat) + ") "@ + o.text + "\n"@
}

/// The first `n` option lines.
pub open spec fn options_text_upto(opts: Seq<SceneOptionModel>, n: int) -> Seq<char>
    decreases n,
{
    if n <= 0 {
        Seq::<char>::empty()
    } else {
        options_text_upto(opts, n - 1) + option_line_text(opts[n - 1], n)
    }
}

/// The full option list of a standard scene.
pub open spec fn standard_options_text(opts: Seq<SceneOptionModel>) -> Seq<char> {
    options_text_upto(opts, opts.len() as int)
}

/// The battle announcement line.
pub open spec fn battle_header_text(b: BattleSceneModel) -> Seq<char> {
    "[BATTLE] Wild "@ + b.enemy + " ("@ + int_digits(b.hp) + " HP) appeared!\n"@
}

/// The fixed battle action menu.
pub open spec fn battle_options_text() -> Seq<char> {
    " 1) Use your fists\n 2) Use shotgun\n 3) Use bazooka\n 4) RUN\n"@
}

/// Machine bounds a standard scene must respect so that this host can render
/// it: the boxed header line and the option indices must be representable.
pub open spec fn scene_render_wf(s: StandardSceneModel) -> bool {
    &&& s.text.len() + 2 <= usize::MAX
    &&& s.options.len() <= u32::MAX
}

/// What both kinds of scene offer the session loop: an identifier and the
/// pure rendering of their header and option prompts.
pub trait Scene {
    /// The scene's identifier, as contracts see it.
    spec fn id_spec(&self) -> Seq<char>;

    /// Machine bounds under which the scene can be rendered.
    spec fn render_wf(&self) -> bool;

    /// The header block this scene renders to.
    spec fn header_spec(&self) -> Seq<char>;

    /// The option prompt this scene renders to.
    spec fn options_spec(&self) -> Seq<char>;

    fn get_id(&self) -> (r: &String)
        ensures
            r@ == self.id_spec(),
    ;

    fn create_header(&self) -> (r: String)
        requires
            self.render_wf(),
        ensures
            r@ == self.header_spec(),
    ;

    fn create_options(&self) -> (r: String)
        requires
            self.render_wf(),
        ensures
            r@ == self.options_spec(),
    ;
}

#[verifier::loop_isolation(false)]
fn dash_line(n: usize) -> (r: String)
    ensures
        r@ == dashes(n as nat),
{
    let mut r = String::new();
    let mut i: usize = 0;
    while i < n
        invariant
            i <= n,
            r@ == dashes(i as nat),
        decreases n - i,
    {
        r.append("-");
        proof {
            reveal_strlit("-");
            assert(r@ =~= dashes(i as nat + 1));
        }
        i = i + 1;
    }
    r
}

impl Scene for StandardScene {
    open spec fn id_spec(&self) -> Seq<char> {
        self.scene_id@
    }

    open spec fn render_wf(&self) -> bool {
        scene_render_wf(self@)
    }

    open spec fn header_spec(&self) -> Seq<char> {
        standard_header_text(self@)
    }

    open spec fn options_spec(&self) -> Seq<char> {
        standard_options_text(self@.options)
    }

    fn get_id(&self) -> (r: &String) {
        &self.scene_id
    }

    fn create_header(&self) -> (r: String) {
        let n = self.text.as_str().unicode_len() + 2;
        let line = dash_line(n);
        let mut r = String::from_str("+");
        r.append(line.as_str());
        r.append("+\n| ");
        r.append(self.text.as_str());
        r.append(" |\n+");
        r.append(line.as_str());
        r.append("+\n");
        proof {
            assert(r@ =~= standard_header_text(self@));
        }
        r
    }

    #[verifier::loop_isolation(false)]
    fn create_options(&self) -> (r: String) {
        let mut r = String::new();
        let mut i: usize = 0;
        while i < self.options.len()
            invariant
                i <= self.options.len(),
                r@ == options_text_upto(self@.options, i as int),
            decreases self.options.len() - i,
        {
            r.append("  ");
            let num = u32_to_string((i + 1) as u32);
            r.append(num.as_str());
            r.append(") ");
            r.append(self.options[i].text.as_str());
            r.append("\n");
            proof {
                assert(r@ =~= options_text_upto(self@.options, i as int + 1));
            }
            i = i + 1;
        }
        r
    }
}

impl Scene for BattleScene {
    open spec fn id_spec(&self) -> Seq<char> {
        self.scene_id@
    }

    open spec fn render_wf(&self) -> bool {
        true
    }

    open spec fn header_spec(&self) -> Seq<char> {
        battle_header_text(self@)
    }

    open spec fn options_spec(&self) -> Seq<char> {
        battle_options_text()
    }

    fn get_id(&self) -> (r: &String) {
        &self.scene_id
    }

    fn create_header(&self) -> (r: String) {
        let mut r = String::from_str("[BATTLE] Wild ");
        r.append(self.enemy.as_str());
        r.append(" (");
        let hp = i32_to_string(self.hp);
        r.append(hp.as_str());
        r.append(" HP) appeared!\n");
        proof {
            assert(r@ =~= battle_header_text(self@));
        }
        r
    }

    fn create_options(&self) -> (r: String) {
        String::from_str(" 1) Use your fists\n 2) Use shotgun\n 3) Use bazooka\n 4) RUN\n")
    }
}

} // verus!
