//! The fixed vocabulary the registry is seeded with once: the category
//! list (ending in the `other` fallback) and the catalog of known game
//! versions. The contracts pin every seeded name, description and version
//! string.

use vstd::prelude::*;

use crate::ingest::other_label;
use crate::store::Registry;
use vstd::string::StringExecFns;

verus! {

/// Seeds the category vocabulary, in order, ending with the `other`
/// fallback.
#[verifier::rlimit(100)]
fn seed_categories(reg: &mut Registry)
    requires
        old(reg).wf(),
        old(reg).next_id <= u64::MAX - 14,
        old(reg).categories@.len() == 0,
    ensures
        final(reg).wf(),
        final(reg).next_id == old(reg).next_id + 14,
        final(reg).categories@.len() == 14,
        final(reg).categories@[0].name@ == "core"@,
        final(reg).categories@[0].description@ == "Mods that only depend on other core mods."@,
        final(reg).categories@[1].name@ == "libraries"@,
        final(reg).categories@[1].description@ == "Mods that are used by other mods."@,
        final(reg).categories@[2].name@ == "cosmetic"@,
        final(reg).categories@[2].description@ == "Mods that affect the appearance of the game."@,
        final(reg).categories@[3].name@ == "gameplay"@,
        final(reg).categories@[3].description@ == "Mods that affect gameplay."@,
        final(reg).categories@[4].name@ == "leaderboards"@,
        final(reg).categories@[4].description@ == "Mods that affect leaderboards."@,
        final(reg).categories@[5].name@ == "lighting"@,
        final(reg).categories@[5].description@ == "Mods that affect lighting."@,
        final(reg).categories@[6].name@ == "multiplayer"@,
        final(reg).categories@[6].description@ == "Mods that change online play."@,
        final(reg).categories@[7].name@ == "accessibility"@,
        final(reg).categories@[7].description@ == "Mods that affect accessibility."@,
        final(reg).categories@[8].name@ == "practice"@,
        final(reg).categories@[8].description@ == "Mods that are used for practice."@,
        final(reg).categories@[9].name@ == "streaming"@,
        final(reg).categories@[9].description@ == "Mods that affect live streams."@,
        final(reg).categories@[10].name@ == "text"@,
        final(reg).categories@[10].description@ == "Mods that change how text is displayed."@,
        final(reg).categories@[11].name@ == "tweaks"@,
        final(reg).categories@[11].description@ == "Mods that tweak the gameplay experience."@,
        final(reg).categories@[12].name@ == "ui"@,
        final(reg).categories@[12].description@ == "Mods that affect the ui."@,
        final(reg).categories@[13].name@ == "other"@,
        final(reg).categories@[13].description@ == "Mods that do not fit into other categories."@,
        final(reg).users@ == old(reg).users@,
        final(reg).game_versions@ == old(reg).game_versions@,
        final(reg).mods@ == old(reg).mods@,
        final(reg).versions@ == old(reg).versions@,
        final(reg).mod_stats@ == old(reg).mod_stats@,
        final(reg).version_stats@ == old(reg).version_stats@,
        final(reg).mod_game_versions@ == old(reg).mod_game_versions@,
        final(reg).version_game_versions@ == old(reg).version_game_versions@,
        final(reg).version_dependents@ == old(reg).version_dependents@,
        final(reg).version_conflicts@ == old(reg).version_conflicts@,
        final(reg).user_mods@ == old(reg).user_mods@,
        final(reg).mod_versions@ == old(reg).mod_versions@,
{
    reg.add_category(String::from_str("core"), String::from_str("Mods that only depend on other core mods."));
    reg.add_category(String::from_str("libraries"), String::from_str("Mods that are used by other mods."));
    reg.add_category(String::from_str("cosmetic"), String::from_str("Mods that affect the appearance of the game."));
    reg.add_category(String::from_str("gameplay"), String::from_str("Mods that affect gameplay."));
    reg.add_category(String::from_str("leaderboards"), String::from_str("Mods that affect leaderboards."));
    reg.add_category(String::from_str("lighting"), String::from_str("Mods that affect lighting."));
    reg.add_category(String::from_str("multiplayer"), String::from_str("Mods that change online play."));
    reg.add_category(String::from_str("accessibility"), String::from_str("Mods that affect accessibility."));
    reg.add_category(String::from_str("practice"), String::from_str("Mods that are used for practice."));
    reg.add_category(String::from_str("streaming"), String::from_str("Mods that affect live streams."));
    reg.add_category(String::from_str("text"), String::from_str("Mods that change how text is displayed."));
    reg.add_category(String::from_str("tweaks"), String::from_str("Mods that tweak the gameplay experience."));
    reg.add_category(String::from_str("ui"), String::from_str("Mods that affect the ui."));
    reg.add_category(String::from_str("other"), String::from_str("Mods that do not fit into other categories."));
}

/// Seeds the first batch of the catalog, releases 0.10.1 through
/// 0.13.2, in release order.
#[verifier::rlimit(100)]
fn seed_game_versions_first(reg: &mut Registry)
    requires
        old(reg).wf(),
        old(reg).next_id <= u64::MAX - 73,
        old(reg).game_versions@.len() == 0,
    ensures
        final(reg).wf(),
        final(reg).next_id == old(reg).next_id + 15,
        final(reg).game_versions@.len() == 15,
        final(reg).game_versions@.take(0) == old(reg).game_versions@,
        final(reg).game_versions@[0].ver@ == "0.10.1"@,
        final(reg).game_versions@[1].ver@ == "0.10.2"@,
        final(reg).game_versions@[2].ver@ == "0.10.2-p1"@,
        final(reg).game_versions@[3].ver@ == "0.11.0-b1"@,
        final(reg).game_versions@[4].ver@ == "0.11.0"@,
        final(reg).game_versions@[5].ver@ == "0.11.1"@,
        final(reg).game_versions@[6].ver@ == "0.11.2"@,
        final(reg).game_versions@[7].ver@ == "0.12.0"@,
        final(reg).game_versions@[8].ver@ == "0.12.0-p1"@,
        final(reg).game_versions@[9].ver@ == "0.12.1"@,
        final(reg).game_versions@[10].ver@ == "0.12.2"@,
        final(reg).game_versions@[11].ver@ == "0.13.0"@,
        final(reg).game_versions@[12].ver@ == "0.13.0-p1"@,
        final(reg).game_versions@[13].ver@ == "0.13.1"@,
        final(reg).game_versions@[14].ver@ == "0.13.2"@,
        final(reg).users@ == old(reg).users@,
        final(reg).categories@ == old(reg).categories@,
        final(reg).mods@ == old(reg).mods@,
        final(reg).versions@ == old(reg).versions@,
        final(reg).mod_stats@ == old(reg).mod_stats@,
        final(reg).version_stats@ == old(reg).version_stats@,
        final(reg).mod_game_versions@ == old(reg).mod_game_versions@,
        final(reg).version_game_versions@ == old(reg).version_game_versions@,
        final(reg).version_dependents@ == old(reg).version_dependents@,
        final(reg).version_conflicts@ == old(reg).version_conflicts@,
        final(reg).user_mods@ == old(reg).user_mods@,
        final(reg).mod_versions@ == old(reg).mod_versions@,
{
    reg.add_game_version(String::from_str("0.10.1"));
    reg.add_game_version(String::from_str("0.10.2"));
    reg.add_game_version(String::from_str("0.10.2-p1"));
    reg.add_game_version(String::from_str("0.11.0-b1"));
    reg.add_game_version(String::from_str("0.11.0"));
    reg.add_game_version(String::from_str("0.11.1"));
    reg.add_game_version(String::from_str("0.11.2"));
    reg.add_game_version(String::from_str("0.12.0"));
    reg.add_game_version(String::from_str("0.12.0-p1"));
    reg.add_game_version(String::from_str("0.12.1"));
    reg.add_game_version(String::from_str("0.12.2"));
    reg.add_game_version(String::from_str("0.13.0"));
    reg.add_game_version(String::from_str("0.13.0-p1"));
    reg.add_game_version(String::from_str("0.13.1"));
    reg.add_game_version(String::from_str("0.13.2"));
    proof {
        assert(reg.game_versions@.take(0) =~= old(reg).game_versions@);
    }
}

/// Seeds the second batch of the catalog, releases 1.0.0 through
/// 1.9.0, in release order.
#[verifier::rlimit(100)]
fn seed_game_versions_second(reg: &mut Registry)
    requires
        old(reg).wf(),
        old(reg).next_id <= u64::MAX - 73,
        old(reg).game_versions@.len() == 15,
    ensures
        final(reg).wf(),
        final(reg).next_id == old(reg).next_id + 15,
        final(reg).game_versions@.len() == 30,
        final(reg).game_versions@.take(15) == old(reg).game_versions@,
        final(reg).game_versions@[15].ver@ == "1.0.0"@,
        final(reg).game_versions@[16].ver@ == "1.0.1"@,
        final(reg).game_versions@[17].ver@ == "1.1.0"@,
        final(reg).game_versions@[18].ver@ == "1.1.0-p1"@,
        final(reg).game_versions@[19].ver@ == "1.2.0"@,
        final(reg).game_versions@[20].ver@ == "1.3.0"@,
        final(reg).game_versions@[21].ver@ == "1.4.0"@,
        final(reg).game_versions@[22].ver@ == "1.4.2"@,
        final(reg).game_versions@[23].ver@ == "1.5.0"@,
        final(reg).game_versions@[24].ver@ == "1.6.0"@,
        final(reg).game_versions@[25].ver@ == "1.6.1"@,
        final(reg).game_versions@[26].ver@ == "1.6.2"@,
        final(reg).game_versions@[27].ver@ == "1.7.0"@,
        final(reg).game_versions@[28].ver@ == "1.8.0"@,
        final(reg).game_versions@[29].ver@ == "1.9.0"@,
        final(reg).users@ == old(reg).users@,
        final(reg).categories@ == old(reg).categories@,
        final(reg).mods@ == old(reg).mods@,
        final(reg).versions@ == old(reg).versions@,
        final(reg).mod_stats@ == old(reg).mod_stats@,
        final(reg).version_stats@ == old(reg).version_stats@,
        final(reg).mod_game_versions@ == old(reg).mod_game_versions@,
        final(reg).version_game_versions@ == old(reg).version_game_versions@,
        final(reg).version_dependents@ == old(reg).version_dependents@,
        final(reg).version_conflicts@ == old(reg).version_conflicts@,
        final(reg).user_mods@ == old(reg).user_mods@,
        final(reg).mod_versions@ == old(reg).mod_versions@,
{
    reg.add_game_version(String::from_str("1.0.0"));
    reg.add_game_version(String::from_str("1.0.1"));
    reg.add_game_version(String::from_str("1.1.0"));
    reg.add_game_version(String::from_str("1.1.0-p1"));
    reg.add_game_version(String::from_str("1.2.0"));
    reg.add_game_version(String::from_str("1.3.0"));
    reg.add_game_version(String::from_str("1.4.0"));
    reg.add_game_version(String::from_str("1.4.2"));
    reg.add_game_version(String::from_str("1.5.0"));
    reg.add_game_version(String::from_str("1.6.0"));
    reg.add_game_version(String::from_str("1.6.1"));
    reg.add_game_version(String::from_str("1.6.2"));
    reg.add_game_version(String::from_str("1.7.0"));
    reg.add_game_version(String::from_str("1.8.0"));
    reg.add_game_version(String::from_str("1.9.0"));
    proof {
        assert(reg.game_versions@.take(15) =~= old(reg).game_versions@);
    }
}

/// Seeds the third batch of the catalog, releases 1.9.1 through
/// 1.16.2, in release order.
#[verifier::rlimit(100)]
fn seed_game_versions_third(reg: &mut Registry)
    requires
        old(reg).wf(),
        old(reg).next_id <= u64::MAX - 73,
        old(reg).game_versions@.len() == 30,
    ensures
        final(reg).wf(),
        final(reg).next_id == old(reg).next_id + 15,
        final(reg).game_versions@.len() == 45,
        final(reg).game_versions@.take(30) == old(reg).game_versions@,
        final(reg).game_versions@[30].ver@ == "1.9.1"@,
        final(reg).game_versions@[31].ver@ == "1.10.0"@,
        final(reg).game_versions@[32].ver@ == "1.11.0"@,
        final(reg).game_versions@[33].ver@ == "1.11.1"@,
        final(reg).game_versions@[34].ver@ == "1.12.1"@,
        final(reg).game_versions@[35].ver@ == "1.12.2"@,
        final(reg).game_versions@[36].ver@ == "1.13.0"@,
        final(reg).game_versions@[37].ver@ == "1.13.2"@,
        final(reg).game_versions@[38].ver@ == "1.13.4"@,
        final(reg).game_versions@[39].ver@ == "1.13.5"@,
        final(reg).game_versions@[40].ver@ == "1.14.0"@,
        final(reg).game_versions@[41].ver@ == "1.15.0"@,
        final(reg).game_versions@[42].ver@ == "1.16.0"@,
        final(reg).game_versions@[43].ver@ == "1.16.1"@,
        final(reg).game_versions@[44].ver@ == "1.16.2"@,
        final(reg).users@ == old(reg).users@,
        final(reg).categories@ == old(reg).categories@,
        final(reg).mods@ == old(reg).mods@,
        final(reg).versions@ == old(reg).versions@,
        final(reg).mod_stats@ == old(reg).mod_stats@,
        final(reg).version_stats@ == old(reg).version_stats@,
        final(reg).mod_game_versions@ == old(reg).mod_game_versions@,
        final(reg).version_game_versions@ == old(reg).version_game_versions@,
        final(reg).version_dependents@ == old(reg).version_dependents@,
        final(reg).version_conflicts@ == old(reg).version_conflicts@,
        final(reg).user_mods@ == old(reg).user_mods@,
        final(reg).mod_versions@ == old(reg).mod_versions@,
{
    reg.add_game_version(String::from_str("1.9.1"));
    reg.add_game_version(String::from_str("1.10.0"));
    reg.add_game_version(String::from_str("1.11.0"));
    reg.add_game_version(String::from_str("1.11.1"));
    reg.add_game_version(String::from_str("1.12.1"));
    reg.add_game_version(String::from_str("1.12.2"));
    reg.add_game_version(String::from_str("1.13.0"));
    reg.add_game_version(String::from_str("1.13.2"));
    reg.add_game_version(String::from_str("1.13.4"));
    reg.add_game_version(String::from_str("1.13.5"));
    reg.add_game_version(String::from_str("1.14.0"));
    reg.add_game_version(String::from_str("1.15.0"));
    reg.add_game_version(String::from_str("1.16.0"));
    reg.add_game_version(String::from_str("1.16.1"));
    reg.add_game_version(String::from_str("1.16.2"));
    proof {
        assert(reg.game_versions@.take(30) =~= old(reg).game_versions@);
    }
}

/// Seeds the fourth batch of the catalog, releases 1.16.3 through
/// 1.23.0, in release order.
#[verifier::rlimit(100)]
fn seed_game_versions_fourth(reg: &mut Registry)
    requires
        old(reg).wf(),
        old(reg).next_id <= u64::MAX - 73,
        old(reg).game_versions@.len() == 45,
    ensures
        final(reg).wf(),
        final(reg).next_id == old(reg).next_id + 15,
        final(reg).game_versions@.len() == 60,
        final(reg).game_versions@.take(45) == old(reg).game_versions@,
        final(reg).game_versions@[45].ver@ == "1.16.3"@,
        final(reg).game_versions@[46].ver@ == "1.16.4"@,
        final(reg).game_versions@[47].ver@ == "1.17.0"@,
        final(reg).game_versions@[48].ver@ == "1.17.1"@,
        final(reg).game_versions@[49].ver@ == "1.18.0"@,
        final(reg).game_versions@[50].ver@ == "1.18.1"@,
        final(reg).game_versions@[51].ver@ == "1.18.2"@,
        final(reg).game_versions@[52].ver@ == "1.18.3"@,
        final(reg).game_versions@[53].ver@ == "1.19.0"@,
        final(reg).game_versions@[54].ver@ == "1.19.1"@,
        final(reg).game_versions@[55].ver@ == "1.20.0"@,
        final(reg).game_versions@[56].ver@ == "1.21.0"@,
        final(reg).game_versions@[57].ver@ == "1.22.0"@,
        final(reg).game_versions@[58].ver@ == "1.22.1"@,
        final(reg).game_versions@[59].ver@ == "1.23.0"@,
        final(reg).users@ == old(reg).users@,
        final(reg).categories@ == old(reg).categories@,
        final(reg).mods@ == old(reg).mods@,
        final(reg).versions@ == old(reg).versions@,
        final(reg).mod_stats@ == old(reg).mod_stats@,
        final(reg).version_stats@ == old(reg).version_stats@,
        final(reg).mod_game_versions@ == old(reg).mod_game_versions@,
        final(reg).version_game_versions@ == old(reg).version_game_versions@,
        final(reg).version_dependents@ == old(reg).version_dependents@,
        final(reg).version_conflicts@ == old(reg).version_conflicts@,
        final(reg).user_mods@ == old(reg).user_mods@,
        final(reg).mod_versions@ == old(reg).mod_versions@,
{
    reg.add_game_version(String::from_str("1.16.3"));
    reg.add_game_version(String::from_str("1.16.4"));
    reg.add_game_version(String::from_str("1.17.0"));
    reg.add_game_version(String::from_str("1.17.1"));
    reg.add_game_version(String::from_str("1.18.0"));
    reg.add_game_version(String::from_str("1.18.1"));
    reg.add_game_version(String::from_str("1.18.2"));
    reg.add_game_version(String::from_str("1.18.3"));
    reg.add_game_version(String::from_str("1.19.0"));
    reg.add_game_version(String::from_str("1.19.1"));
    reg.add_game_version(String::from_str("1.20.0"));
    reg.add_game_version(String::from_str("1.21.0"));
    reg.add_game_version(String::from_str("1.22.0"));
    reg.add_game_version(String::from_str("1.22.1"));
    reg.add_game_version(String::from_str("1.23.0"));
    proof {
        assert(reg.game_versions@.take(45) =~= old(reg).game_versions@);
    }
}

/// Seeds the fifth batch of the catalog, releases 1.24.0 through
/// 1.31.0, in release order.
#[verifier::rlimit(100)]
fn seed_game_versions_fifth(reg: &mut Registry)
    requires
        old(reg).wf(),
        old(reg).next_id <= u64::MAX - 73,
        old(reg).game_versions@.len() == 60,
    ensures
        final(reg).wf(),
        final(reg).next_id == old(reg).next_id + 13,
        final(reg).game_versions@.len() == 73,
        final(reg).game_versions@.take(60) == old(reg).game_versions@,
        final(reg).game_versions@[60].ver@ == "1.24.0"@,
        final(reg).game_versions@[61].ver@ == "1.24.1"@,
        final(reg).game_versions@[62].ver@ == "1.25.0"@,
        final(reg).game_versions@[63].ver@ == "1.25.1"@,
        final(reg).game_versions@[64].ver@ == "1.26.0"@,
        final(reg).game_versions@[65].ver@ == "1.27.0"@,
        final(reg).game_versions@[66].ver@ == "1.28.0"@,
        final(reg).game_versions@[67].ver@ == "1.29.0"@,
        final(reg).game_versions@[68].ver@ == "1.29.1"@,
        final(reg).game_versions@[69].ver@ == "1.29.4"@,
        final(reg).game_versions@[70].ver@ == "1.30.0"@,
        final(reg).game_versions@[71].ver@ == "1.30.2"@,
        final(reg).game_versions@[72].ver@ == "1.31.0"@,
        final(reg).users@ == old(reg).users@,
        final(reg).categories@ == old(reg).categories@,
        final(reg).mods@ == old(reg).mods@,
        final(reg).versions@ == old(reg).versions@,
        final(reg).mod_stats@ == old(reg).mod_stats@,
        final(reg).version_stats@ == old(reg).version_stats@,
        final(reg).mod_game_versions@ == old(reg).mod_game_versions@,
        final(reg).version_game_versions@ == old(reg).version_game_versions@,
        final(reg).version_dependents@ == old(reg).version_dependents@,
        final(reg).version_conflicts@ == old(reg).version_conflicts@,
        final(reg).user_mods@ == old(reg).user_mods@,
        final(reg).mod_versions@ == old(reg).mod_versions@,
{
    reg.add_game_version(String::from_str("1.24.0"));
    reg.add_game_version(String::from_str("1.24.1"));
    reg.add_game_version(String::from_str("1.25.0"));
    reg.add_game_version(String::from_str("1.25.1"));
    reg.add_game_version(String::from_str("1.26.0"));
    reg.add_game_version(String::from_str("1.27.0"));
    reg.add_game_version(String::from_str("1.28.0"));
    reg.add_game_version(String::from_str("1.29.0"));
    reg.add_game_version(String::from_str("1.29.1"));
    reg.add_game_version(String::from_str("1.29.4"));
    reg.add_game_version(String::from_str("1.30.0"));
    reg.add_game_version(String::from_str("1.30.2"));
    reg.add_game_version(String::from_str("1.31.0"));
    proof {
        assert(reg.game_versions@.take(60) =~= old(reg).game_versions@);
    }
}

/// A registry seeded with the fixed category vocabulary and the known game
/// versions, and nothing else. The `other` fallback category is present, so
/// every upload can be placed.
#[verifier::rlimit(100)]
pub fn seeded_registry() -> (r: Registry)
    ensures
        r.wf(),
        r.has_category(other_label()),
        r.next_id == 88,
        r.categories@.len() == 14,
        r.categories@[0].name@ == "core"@,
        r.categories@[0].description@ == "Mods that only depend on other core mods."@,
        r.categories@[1].name@ == "libraries"@,
        r.categories@[1].description@ == "Mods that are used by other mods."@,
        r.categories@[2].name@ == "cosmetic"@,
        r.categories@[2].description@ == "Mods that affect the appearance of the game."@,
        r.categories@[3].name@ == "gameplay"@,
        r.categories@[3].description@ == "Mods that affect gameplay."@,
        r.categories@[4].name@ == "leaderboards"@,
        r.categories@[4].description@ == "Mods that affect leaderboards."@,
        r.categories@[5].name@ == "lighting"@,
        r.categories@[5].description@ == "Mods that affect lighting."@,
        r.categories@[6].name@ == "multiplayer"@,
        r.categories@[6].description@ == "Mods that change online play."@,
        r.categories@[7].name@ == "accessibility"@,
        r.categories@[7].description@ == "Mods that affect accessibility."@,
        r.categories@[8].name@ == "practice"@,
        r.categories@[8].description@ == "Mods that are used for practice."@,
        r.categories@[9].name@ == "streaming"@,
        r.categories@[9].description@ == "Mods that affect live streams."@,
        r.categories@[10].name@ == "text"@,
        r.categories@[10].description@ == "Mods that change how text is displayed."@,
        r.categories@[11].name@ == "tweaks"@,
        r.categories@[11].description@ == "Mods that tweak the gameplay experience."@,
        r.categories@[12].name@ == "ui"@,
        r.categories@[12].description@ == "Mods that affect the ui."@,
        r.categories@[13].name@ == "other"@,
        r.categories@[13].description@ == "Mods that do not fit into other categories."@,
        r.game_versions@.len() == 73,
        r.game_versions@[0].ver@ == "0.10.1"@,
        r.game_versions@[1].ver@ == "0.10.2"@,
        r.game_versions@[2].ver@ == "0.10.2-p1"@,
        r.game_versions@[3].ver@ == "0.11.0-b1"@,
        r.game_versions@[4].ver@ == "0.11.0"@,
        r.game_versions@[5].ver@ == "0.11.1"@,
        r.game_versions@[6].ver@ == "0.11.2"@,
        r.game_versions@[7].ver@ == "0.12.0"@,
        r.game_versions@[8].ver@ == "0.12.0-p1"@,
        r.game_versions@[9].ver@ == "0.12.1"@,
        r.game_versions@[10].ver@ == "0.12.2"@,
        r.game_versions@[11].ver@ == "0.13.0"@,
        r.game_versions@[12].ver@ == "0.13.0-p1"@,
        r.game_versions@[13].ver@ == "0.13.1"@,
        r.game_versions@[14].ver@ == "0.13.2"@,
        r.game_versions@[15].ver@ == "1.0.0"@,
        r.game_versions@[16].ver@ == "1.0.1"@,
        r.game_versions@[17].ver@ == "1.1.0"@,
        r.game_versions@[18].ver@ == "1.1.0-p1"@,
        r.game_versions@[19].ver@ == "1.2.0"@,
        r.game_versions@[20].ver@ == "1.3.0"@,
        r.game_versions@[21].ver@ == "1.4.0"@,
        r.game_versions@[22].ver@ == "1.4.2"@,
        r.game_versions@[23].ver@ == "1.5.0"@,
        r.game_versions@[24].ver@ == "1.6.0"@,
        r.game_versions@[25].ver@ == "1.6.1"@,
        r.game_versions@[26].ver@ == "1.6.2"@,
        r.game_versions@[27].ver@ == "1.7.0"@,
        r.game_versions@[28].ver@ == "1.8.0"@,
        r.game_versions@[29].ver@ == "1.9.0"@,
        r.game_versions@[30].ver@ == "1.9.1"@,
        r.game_versions@[31].ver@ == "1.10.0"@,
        r.game_versions@[32].ver@ == "1.11.0"@,
        r.game_versions@[33].ver@ == "1.11.1"@,
        r.game_versions@[34].ver@ == "1.12.1"@,
        r.game_versions@[35].ver@ == "1.12.2"@,
        r.game_versions@[36].ver@ == "1.13.0"@,
        r.game_versions@[37].ver@ == "1.13.2"@,
        r.game_versions@[38].ver@ == "1.13.4"@,
        r.game_versions@[39].ver@ == "1.13.5"@,
        r.game_versions@[40].ver@ == "1.14.0"@,
        r.game_versions@[41].ver@ == "1.15.0"@,
        r.game_versions@[42].ver@ == "1.16.0"@,
        r.game_versions@[43].ver@ == "1.16.1"@,
        r.game_versions@[44].ver@ == "1.16.2"@,
        r.game_versions@[45].ver@ == "1.16.3"@,
        r.game_versions@[46].ver@ == "1.16.4"@,
        r.game_versions@[47].ver@ == "1.17.0"@,
        r.game_versions@[48].ver@ == "1.17.1"@,
        r.game_versions@[49].ver@ == "1.18.0"@,
        r.game_versions@[50].ver@ == "1.18.1"@,
        r.game_versions@[51].ver@ == "1.18.2"@,
        r.game_versions@[52].ver@ == "1.18.3"@,
        r.game_versions@[53].ver@ == "1.19.0"@,
        r.game_versions@[54].ver@ == "1.19.1"@,
        r.game_versions@[55].ver@ == "1.20.0"@,
        r.game_versions@[56].ver@ == "1.21.0"@,
        r.game_versions@[57].ver@ == "1.22.0"@,
        r.game_versions@[58].ver@ == "1.22.1"@,
        r.game_versions@[59].ver@ == "1.23.0"@,
        r.game_versions@[60].ver@ == "1.24.0"@,
        r.game_versions@[61].ver@ == "1.24.1"@,
        r.game_versions@[62].ver@ == "1.25.0"@,
        r.game_versions@[63].ver@ == "1.25.1"@,
        r.game_versions@[64].ver@ == "1.26.0"@,
        r.game_versions@[65].ver@ == "1.27.0"@,
        r.game_versions@[66].ver@ == "1.28.0"@,
        r.game_versions@[67].ver@ == "1.29.0"@,
        r.game_versions@[68].ver@ == "1.29.1"@,
        r.game_versions@[69].ver@ == "1.29.4"@,
        r.game_versions@[70].ver@ == "1.30.0"@,
        r.game_versions@[71].ver@ == "1.30.2"@,
        r.game_versions@[72].ver@ == "1.31.0"@,
        r.users@.len() == 0,
        r.mods@.len() == 0,
        r.versions@.len() == 0,
        r.mod_stats@.len() == 0,
        r.version_stats@.len() == 0,
        r.mod_game_versions@.len() == 0,
        r.version_game_versions@.len() == 0,
        r.version_dependents@.len() == 0,
        r.version_conflicts@.len() == 0,
        r.user_mods@.len() == 0,
        r.mod_versions@.len() == 0,
{
    let mut reg = Registry::new();
    seed_categories(&mut reg);
    seed_game_versions_first(&mut reg);
    seed_game_versions_second(&mut reg);
    seed_game_versions_third(&mut reg);
    seed_game_versions_fourth(&mut reg);
    seed_game_versions_fifth(&mut reg);
    proof {
        assert(reg.categories@[13].name@ == other_label());
    }
    reg
}

} // verus!
