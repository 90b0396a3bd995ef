//! Context gating by scene identity.
//!
//! Level-scoped quantities (the level identifier, the goal-sequence flags,
//! the active boss) only exist while the process is in one of the known
//! game-scene controllers; polling their addresses in a menu or on the title
//! screen would corrupt the edge histories with out-of-context values. The
//! sampling pass therefore gates those reads on the class name of the scene
//! controller that is currently live, and on the class name of the active
//! boss object.

use vstd::prelude::*;

verus! {

/// The scene-controller class names whose instances carry the level-scoped
/// quantities the sampling pass reads.
pub open spec fn spec_is_game_scene(name: Seq<char>) -> bool {
    ||| name == "GameSceneController"@
    ||| name == "BlackDragonBattleGameSceneController"@
    ||| name == "BRMainGameSceneController"@
    ||| name == "BROverallResultSceneController"@
    ||| name == "EndingGameSceneController"@
    ||| name == "MiniActGameSceneController"@
    ||| name == "ShootingGameSceneController"@
    ||| name == "WorldMapGameSceneController"@
}

/// The class names of the final bosses whose defeat flag is worth sampling.
pub open spec fn spec_is_known_boss(name: Seq<char>) -> bool {
    ||| name == "Bos111"@
    ||| name == "Bos112"@
}

/// Compares a sampled name against a known class name.
fn name_is(name: &String, known: &str) -> (r: bool)
    ensures
        r == (name@ == known@),
{
    let owned: String = known.to_owned();
    name.eq(&owned)
}

/// Is `name` the class name of a scene controller that carries the
/// level-scoped quantities?
pub fn is_game_scene_name(name: &String) -> (r: bool)
    ensures
        r == spec_is_game_scene(name@),
{
    name_is(name, "GameSceneController")
        || name_is(name, "BlackDragonBattleGameSceneController")
        || name_is(name, "BRMainGameSceneController")
        || name_is(name, "BROverallResultSceneController")
        || name_is(name, "EndingGameSceneController")
        || name_is(name, "MiniActGameSceneController")
        || name_is(name, "ShootingGameSceneController")
        || name_is(name, "WorldMapGameSceneController")
}

/// Is `name` the class name of a tracked final boss?
pub fn is_known_boss_name(name: &String) -> (r: bool)
    ensures
        r == spec_is_known_boss(name@),
{
    name_is(name, "Bos111") || name_is(name, "Bos112")
}

} // verus!
