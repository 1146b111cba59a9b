//! The scene and battle catalogs.
//!
//! Both catalogs are built once from the decoded asset records, checked for
//! integrity, and then only read.  A violation is reported before any session
//! can start; at run time every lookup a session makes is therefore total.

use vstd::prelude::*;

use crate::render::scene_render_wf;
use crate::scenes::BattleScene;
use crate::scenes::BattleSceneModel;
use crate::scenes::StandardScene;
use crate::scenes::StandardSceneModel;
use crate::scenes::StandardSceneOption;

verus! {

/// Why the loaded assets were rejected, checked in this order: a repeated
/// scene id, no entry scene, an option whose target scene does not exist, a
/// scene too large for this host to render, a battle for a scene that does
/// not exist, and an enemy without a positive hit-point total.
#[derive(Clone, Copy, PartialEq, Eq, Structural, Debug)]
pub enum AssetIntegrityError {
    DuplicateId,
    MissingEntryScene,
    DanglingOptionTarget,
    SceneTooLarge,
    BattleForUnknownScene,
    InvalidEnemyHp,
}

/// The id of the fixed entry scene every session starts at.
pub open spec fn entry_scene_id() -> Seq<char> {
    "coast"@
}

/// True when some scene of `ss` has id `id`.
pub open spec fn has_id(ss: Seq<StandardSceneModel>, id: Seq<char>) -> bool {
    exists|j: int| 0 <= j < ss.len() && #[trigger] ss[j].scene_id == id
}

/// True when no two scenes of `ss` share an id.
pub open spec fn unique_ids(ss: Seq<StandardSceneModel>) -> bool {
    forall|i: int, j: int|
        0 <= i < j < ss.len() ==> #[trigger] ss[i].scene_id != #[trigger] ss[j].scene_id
}

/// True when every option of every scene of `ss` targets a scene of `ss`.
pub open spec fn targets_resolve(ss: Seq<StandardSceneModel>) -> bool {
    forall|i: int, k: int|
        0 <= i < ss.len() && 0 <= k < #[trigger] ss[i].options.len() ==> has_id(
            ss,
            #[trigger] ss[i].options[k].scene_id,
        )
}

/// Integrity of the scene catalog: unique ids, an entry scene, resolving
/// targets, and every scene within this host's rendering bounds.
pub open spec fn scene_catalog_wf(ss: Seq<StandardSceneModel>) -> bool {
    &&& unique_ids(ss)
    &&& has_id(ss, entry_scene_id())
    &&& targets_resolve(ss)
    &&& forall|i: int| 0 <= i < ss.len() ==> scene_render_wf(#[trigger] ss[i])
}

/// The first scene of `ss` whose id is `id`.
pub open spec fn lookup_spec(ss: Seq<StandardSceneModel>, id: Seq<char>) -> Option<
    StandardSceneModel,
>
    decreases ss.len(),
{
    if ss.len() == 0 {
        Option::None
    } else if ss[0].scene_id == id {
        Option::Some(ss[0])
    } else {
        lookup_spec(ss.drop_first(), id)
    }
}

/// True when some battle of `bs` gates the scene with id `id`.
pub open spec fn battle_has_id(bs: Seq<BattleSceneModel>, id: Seq<char>) -> bool {
    exists|j: int| 0 <= j < bs.len() && #[trigger] bs[j].scene_id == id
}

/// True when no two battles of `bs` share an id.
pub open spec fn battle_unique_ids(bs: Seq<BattleSceneModel>) -> bool {
    forall|i: int, j: int|
        0 <= i < j < bs.len() ==> #[trigger] bs[i].scene_id != #[trigger] bs[j].scene_id
}

/// Integrity of the battle catalog against the scene catalog `ss`: unique
/// ids, each gating an existing scene, and each enemy able to be fought.
pub open spec fn battle_catalog_wf(
    bs: Seq<BattleSceneModel>,
    ss: Seq<StandardSceneModel>,
) -> bool {
    &&& battle_unique_ids(bs)
    &&& forall|i: int| 0 <= i < bs.len() ==> has_id(ss, #[trigger] bs[i].scene_id)
    &&& forall|i: int| 0 <= i < bs.len() ==> 1 <= #[trigger] bs[i].hp
}

/// The first battle of `bs` whose id is `id`.
pub open spec fn battle_lookup_spec(bs: Seq<BattleSceneModel>, id: Seq<char>) -> Option<
    BattleSceneModel,
>
    decreases bs.len(),
{
    if bs.len() == 0 {
        Option::None
    } else if bs[0].scene_id == id {
        Option::Some(bs[0])
    } else {
        battle_lookup_spec(bs.drop_first(), id)
    }
}

/// A lookup answers precisely when the id exists, and the record it answers
/// with carries that id and stands in the catalog.
pub proof fn lemma_lookup_props(ss: Seq<StandardSceneModel>, id: Seq<char>)
    ensures
        lookup_spec(ss, id) is Some <==> has_id(ss, id),
        lookup_spec(ss, id) matches Option::Some(s) ==> s.scene_id == id && exists|i: int|
            0 <= i < ss.len() && #[trigger] ss[i] == s,
    decreases ss.len(),
{
    if ss.len() > 0 {
        if ss[0].scene_id == id {
            assert(ss[0].scene_id == id);  // the witness for `has_id`
        } else {
            lemma_lookup_props(ss.drop_first(), id);
            let t = ss.drop_first();
            if has_id(t, id) {
                let j = choose|j: int| 0 <= j < t.len() && #[trigger] t[j].scene_id == id;
                assert(ss[j + 1].scene_id == id);
            }
            if has_id(ss, id) {
                let j = choose|j: int| 0 <= j < ss.len() && #[trigger] ss[j].scene_id == id;
                assert(t[j - 1].scene_id == id);
            }
            match lookup_spec(ss, id) {
                Option::Some(s) => {
                    let i = choose|i: int| 0 <= i < t.len() && #[trigger] t[i] == s;
                    assert(ss[i + 1] == s);
                },
                Option::None => {},
            }
        }
    }
}

/// The battle analogue of `lemma_lookup_props`.
pub proof fn lemma_battle_lookup_props(bs: Seq<BattleSceneModel>, id: Seq<char>)
    ensures
        battle_lookup_spec(bs, id) is Some <==> battle_has_id(bs, id),
        battle_lookup_spec(bs, id) matches Option::Some(b) ==> b.scene_id == id && exists|i: int|
            0 <= i < bs.len() && #[trigger] bs[i] == b,
    decreases bs.len(),
{
    if bs.len() > 0 {
        if bs[0].scene_id == id {
            assert(bs[0].scene_id == id);
        } else {
            lemma_battle_lookup_props(bs.drop_first(), id);
            let t = bs.drop_first();
            if battle_has_id(t, id) {
                let j = choose|j: int| 0 <= j < t.len() && #[trigger] t[j].scene_id == id;
                assert(bs[j + 1].scene_id == id);
            }
            if battle_has_id(bs, id) {
                let j = choose|j: int| 0 <= j < bs.len() && #[trigger] bs[j].scene_id == id;
                assert(t[j - 1].scene_id == id);
            }
            match battle_lookup_spec(bs, id) {
                Option::Some(b) => {
                    let i = choose|i: int| 0 <= i < t.len() && #[trigger] t[i] == b;
                    assert(bs[i + 1] == b);
                },
                Option::None => {},
            }
        }
    }
}

/// The immutable catalog of standard scenes, keyed by scene id.
pub struct SceneCatalog {
    pub scenes: Vec<StandardScene>,
}

impl View for SceneCatalog {
    type V = Seq<StandardSceneModel>;

    open spec fn view(&self) -> Seq<StandardSceneModel> {
        self.scenes@.map_values(|s: StandardScene| s@)
    }
}

/// The immutable catalog of battles, keyed by the gated scene's id.
pub struct BattleCatalog {
    pub battles: Vec<BattleScene>,
}

impl View for BattleCatalog {
    type V = Seq<BattleSceneModel>;

    open spec fn view(&self) -> Seq<BattleSceneModel> {
        self.battles@.map_values(|b: BattleScene| b@)
    }
}

impl SceneCatalog {
    /// The catalog is intact: every lookup a session will make resolves.
    pub open spec fn wf(self) -> bool {
        scene_catalog_wf(self@)
    }

    /// Looks the scene with id `id` up.
    pub fn get(&self, id: &String) -> (r: Option<&StandardScene>)
        ensures
            match r {
                Option::Some(s) => lookup_spec(self@, id@) == Option::Some(s@),
                Option::None => !has_id(self@, id@),
            },
    {
        let mut i: usize = 0;
        while i < self.scenes.len()
            invariant
                i <= self.scenes.len(),
                forall|j: int| 0 <= j < i ==> #[trigger] self@[j].scene_id != id@,
            decreases self.scenes.len() - i,
        {
            if self.scenes[i].scene_id == *id {
                proof {
                    lemma_first_match_is_chosen(self@, id@, i as int);
                }
                return Option::Some(&self.scenes[i]);
            }
            i = i + 1;
        }
        Option::None
    }
}

impl BattleCatalog {
    /// The catalog is intact with respect to the scene catalog view `ss`.
    pub open spec fn wf(self, ss: Seq<StandardSceneModel>) -> bool {
        battle_catalog_wf(self@, ss)
    }

    /// Looks the battle gating scene `id` up.
    pub fn get(&self, id: &String) -> (r: Option<&BattleScene>)
        ensures
            match r {
                Option::Some(b) => battle_lookup_spec(self@, id@) == Option::Some(b@),
                Option::None => !battle_has_id(self@, id@),
            },
    {
        let mut i: usize = 0;
        while i < self.battles.len()
            invariant
                i <= self.battles.len(),
                forall|j: int| 0 <= j < i ==> #[trigger] self@[j].scene_id != id@,
            decreases self.battles.len() - i,
        {
            if self.battles[i].scene_id == *id {
                proof {
                    lemma_first_battle_match_is_chosen(self@, id@, i as int);
                }
                return Option::Some(&self.battles[i]);
            }
            i = i + 1;
        }
        Option::None
    }
}

/// The error `get_scenes` reports, in check order.
pub open spec fn scene_error_spec(ss: Seq<StandardSceneModel>) -> AssetIntegrityError {
    if !unique_ids(ss) {
        AssetIntegrityError::DuplicateId
    } else if !has_id(ss, entry_scene_id()) {
        AssetIntegrityError::MissingEntryScene
    } else if !targets_resolve(ss) {
        AssetIntegrityError::DanglingOptionTarget
    } else {
        AssetIntegrityError::SceneTooLarge
    }
}

/// The error `get_battle_scenes` reports, in check order.
pub open spec fn battle_error_spec(
    bs: Seq<BattleSceneModel>,
    ss: Seq<StandardSceneModel>,
) -> AssetIntegrityError {
    if !battle_unique_ids(bs) {
        AssetIntegrityError::DuplicateId
    } else if !(forall|i: int| 0 <= i < bs.len() ==> has_id(ss, #[trigger] bs[i].scene_id)) {
        AssetIntegrityError::BattleForUnknownScene
    } else {
        AssetIntegrityError::InvalidEnemyHp
    }
}

#[verifier::loop_isolation(false)]
fn check_unique(data: &Vec<StandardScene>) -> (r: bool)
    ensures
        r == unique_ids(data@.map_values(|s: StandardScene| s@)),
{
    let ghost ss = data@.map_values(|s: StandardScene| s@);
    let mut i: usize = 0;
    while i < data.len()
        invariant
            i <= data.len(),
            forall|a: int, b: int|
                0 <= a < b < ss.len() && a < i ==> #[trigger] ss[a].scene_id
                    != #[trigger] ss[b].scene_id,
        decreases data.len() - i,
    {
        let mut j = i + 1;
        while j < data.len()
            invariant
                i < j <= data.len(),
                forall|b: int| i < b < j ==> #[trigger] ss[b].scene_id != ss[i as int].scene_id,
            decreases data.len() - j,
        {
            if data[i].scene_id == data[j].scene_id {
                proof {
                    assert(ss[i as int].scene_id == ss[j as int].scene_id);
                }
                return false;
            }
            j = j + 1;
        }
        i = i + 1;
    }
    true
}

#[verifier::loop_isolation(false)]
fn contains_scene_id(data: &Vec<StandardScene>, id: &String) -> (r: bool)
    ensures
        r == has_id(data@.map_values(|s: StandardScene| s@), id@),
{
    let ghost ss = data@.map_values(|s: StandardScene| s@);
    let mut i: usize = 0;
    while i < data.len()
        invariant
            i <= data.len(),
            forall|j: int| 0 <= j < i ==> #[trigger] ss[j].scene_id != id@,
        decreases data.len() - i,
    {
        if data[i].scene_id == *id {
            proof {
                assert(ss[i as int].scene_id == id@);
            }
            return true;
        }
        i = i + 1;
    }
    false
}

#[verifier::loop_isolation(false)]
fn check_targets(data: &Vec<StandardScene>) -> (r: bool)
    ensures
        r == targets_resolve(data@.map_values(|s: StandardScene| s@)),
{
    let ghost ss = data@.map_values(|s: StandardScene| s@);
    let mut i: usize = 0;
    while i < data.len()
        invariant
            i <= data.len(),
            forall|a: int, k: int|
                0 <= a < i && 0 <= k < #[trigger] ss[a].options.len() ==> has_id(
                    ss,
                    #[trigger] ss[a].options[k].scene_id,
                ),
        decreases data.len() - i,
    {
        let options = &data[i].options;
        proof {
            assert(ss[i as int].options == options@.map_values(|o: StandardSceneOption| o@));
        }
        let mut k: usize = 0;
        while k < options.len()
            invariant
                k <= options.len(),
                forall|b: int|
                    0 <= b < k ==> has_id(ss, #[trigger] ss[i as int].options[b].scene_id),
            decreases options.len() - k,
        {
            if !contains_scene_id(data, &options[k].scene_id) {
                proof {
                    assert(ss[i as int].options[k as int].scene_id == options@[k as int].scene_id@);
                }
                return false;
            }
            k = k + 1;
        }
        i = i + 1;
    }
    true
}

#[verifier::loop_isolation(false)]
fn check_render_bounds(data: &Vec<StandardScene>) -> (r: bool)
    ensures
        r == (forall|i: int| 0 <= i < data@.len() ==> scene_render_wf(#[trigger] data@[i]@)),
{
    let mut i: usize = 0;
    while i < data.len()
        invariant
            i <= data.len(),
            forall|j: int| 0 <= j < i ==> scene_render_wf(#[trigger] data@[j]@),
        decreases data.len() - i,
    {
        let text_len = data[i].text.as_str().unicode_len();
        if text_len > usize::MAX - 2 {
            proof {
                assert(!scene_render_wf(data@[i as int]@));
            }
            return false;
        }
        if data[i].options.len() as u64 > u32::MAX as u64 {
            proof {
                assert(data@[i as int]@.options.len() == data@[i as int].options@.len());
                assert(!scene_render_wf(data@[i as int]@));
            }
            return false;
        }
        proof {
            assert(scene_render_wf(data@[i as int]@));
        }
        i = i + 1;
    }
    true
}

/// Builds the scene catalog from the decoded asset records, after checking
/// their integrity: ids unique, the entry scene present, every option target
/// resolving, and every scene within this host's rendering bounds.  Answers
/// `Err` if and only if one of those fails, naming the first failed check.
pub fn get_scenes(data: Vec<StandardScene>) -> (r: Result<SceneCatalog, AssetIntegrityError>)
    ensures
        ({
            let ss = data@.map_values(|s: StandardScene| s@);
            match r {
                Result::Ok(c) => c@ == ss && scene_catalog_wf(ss),
                Result::Err(e) => !scene_catalog_wf(ss) && e == scene_error_spec(ss),
            }
        }),
{
    if !check_unique(&data) {
        return Result::Err(AssetIntegrityError::DuplicateId);
    }
    let entry = String::from_str("coast");
    if !contains_scene_id(&data, &entry) {
        return Result::Err(AssetIntegrityError::MissingEntryScene);
    }
    if !check_targets(&data) {
        return Result::Err(AssetIntegrityError::DanglingOptionTarget);
    }
    if !check_render_bounds(&data) {
        proof {
            let ss = data@.map_values(|s: StandardScene| s@);
            let i = choose|i: int|
                !(0 <= i < data@.len() ==> scene_render_wf(#[trigger] data@[i]@));
            assert(ss[i] == data@[i]@);
            assert(!scene_catalog_wf(ss));
        }
        return Result::Err(AssetIntegrityError::SceneTooLarge);
    }
    proof {
        let ss = data@.map_values(|s: StandardScene| s@);
        assert forall|i: int| 0 <= i < ss.len() implies scene_render_wf(#[trigger] ss[i]) by {
            assert(ss[i] == data@[i]@);
        }
    }
    Result::Ok(SceneCatalog { scenes: data })
}

#[verifier::loop_isolation(false)]
fn check_battle_unique(data: &Vec<BattleScene>) -> (r: bool)
    ensures
        r == battle_unique_ids(data@.map_values(|b: BattleScene| b@)),
{
    let ghost bs = data@.map_values(|b: BattleScene| b@);
    let mut i: usize = 0;
    while i < data.len()
        invariant
            i <= data.len(),
            forall|a: int, b: int|
                0 <= a < b < bs.len() && a < i ==> #[trigger] bs[a].scene_id
                    != #[trigger] bs[b].scene_id,
        decreases data.len() - i,
    {
        let mut j = i + 1;
        while j < data.len()
            invariant
                i < j <= data.len(),
                forall|b: int| i < b < j ==> #[trigger] bs[b].scene_id != bs[i as int].scene_id,
            decreases data.len() - j,
        {
            if data[i].scene_id == data[j].scene_id {
                proof {
                    assert(bs[i as int].scene_id == bs[j as int].scene_id);
                }
                return false;
            }
            j = j + 1;
        }
        i = i + 1;
    }
    true
}

/// Builds the battle catalog from the decoded asset records, after checking
/// their integrity against the scene catalog: ids unique, each battle gating
/// an existing scene, and each enemy with a positive hit-point total.
/// Answers `Err` if and only if one of those fails, naming the first failed
/// check.
pub fn get_battle_scenes(data: Vec<BattleScene>, scenes: &SceneCatalog) -> (r: Result<
    BattleCatalog,
    AssetIntegrityError,
>)
    ensures
        ({
            let bs = data@.map_values(|b: BattleScene| b@);
            match r {
                Result::Ok(c) => c@ == bs && battle_catalog_wf(bs, scenes@),
                Result::Err(e) => !battle_catalog_wf(bs, scenes@) && e == battle_error_spec(
                    bs,
                    scenes@,
                ),
            }
        }),
{
    let ghost bs = data@.map_values(|b: BattleScene| b@);
    if !check_battle_unique(&data) {
        return Result::Err(AssetIntegrityError::DuplicateId);
    }
    let mut i: usize = 0;
    while i < data.len()
        invariant
            i <= data.len(),
            bs == data@.map_values(|b: BattleScene| b@),
            battle_unique_ids(bs),
            forall|j: int| 0 <= j < i ==> has_id(scenes@, #[trigger] bs[j].scene_id),
        decreases data.len() - i,
    {
        if !contains_scene_id(&scenes.scenes, &data[i].scene_id) {
            proof {
                assert(bs[i as int].scene_id == data@[i as int].scene_id@);
            }
            return Result::Err(AssetIntegrityError::BattleForUnknownScene);
        }
        i = i + 1;
    }
    let mut k: usize = 0;
    while k < data.len()
        invariant
            k <= data.len(),
            bs == data@.map_values(|b: BattleScene| b@),
            battle_unique_ids(bs),
            forall|j: int| 0 <= j < bs.len() ==> has_id(scenes@, #[trigger] bs[j].scene_id),
            forall|j: int| 0 <= j < k ==> 1 <= #[trigger] bs[j].hp,
        decreases data.len() - k,
    {
        if data[k].hp < 1 {
            proof {
                assert(bs[k as int].hp == data@[k as int].hp as int);
            }
            return Result::Err(AssetIntegrityError::InvalidEnemyHp);
        }
        k = k + 1;
    }
    Result::Ok(BattleCatalog { battles: data })
}

proof fn lemma_first_match_is_chosen(ss: Seq<StandardSceneModel>, id: Seq<char>, i: int)
    requires
        0 <= i < ss.len(),
        ss[i].scene_id == id,
        forall|j: int| 0 <= j < i ==> #[trigger] ss[j].scene_id != id,
    ensures
        lookup_spec(ss, id) == Option::Some(ss[i]),
    decreases i,
{
    if i > 0 {
        let t = ss.drop_first();
        lemma_first_match_is_chosen(t, id, i - 1);
    }
}

proof fn lemma_first_battle_match_is_chosen(bs: Seq<BattleSceneModel>, id: Seq<char>, i: int)
    requires
        0 <= i < bs.len(),
        bs[i].scene_id == id,
        forall|j: int| 0 <= j < i ==> #[trigger] bs[j].scene_id != id,
    ensures
        battle_lookup_spec(bs, id) == Option::Some(bs[i]),
    decreases i,
{
    if i > 0 {
        let t = bs.drop_first();
        lemma_first_battle_match_is_chosen(t, id, i - 1);
    }
}

} // verus!
