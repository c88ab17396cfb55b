//! The rules of the catalogue: what ties the rows of its two tables
//! together, and that the built-in rows keep them.

use vstd::prelude::*;
use crate::model::{GameTypeView, ScenarioView};
use crate::seed::{
    GAME_TYPE_ROWS, SCENARIO_COUNT, SCENARIO_ROWS, is_game_type_seed, is_scenario_seed,
};

verus! {

/// The two tables of a catalogue, as sequences of row views.
pub ghost struct CatalogView {
    pub game_types: Seq<GameTypeView>,
    pub scenarios: Seq<ScenarioView>,
}

/// The levels of difficulty a scenario can have.
pub open spec fn is_difficulty(text: Seq<char>) -> bool {
    text == "Easy"@ || text == "Medium"@ || text == "Hard"@
}

/// No two game types share an id or a name, and each has a name and a
/// description.
pub open spec fn game_types_consistent(rows: Seq<GameTypeView>) -> bool {
    &&& forall|i: int, j: int|
        #![trigger rows[i], rows[j]]
        0 <= i < j < rows.len() ==> rows[i].id != rows[j].id && rows[i].name != rows[j].name
    &&& forall|i: int|
        #![trigger rows[i]]
        0 <= i < rows.len() ==> rows[i].name.len() > 0 && rows[i].description.len() > 0
}

/// Whether one of `game_types` has the id `id`.
pub open spec fn has_game_type(game_types: Seq<GameTypeView>, id: Seq<char>) -> bool {
    exists|k: int| 0 <= k < game_types.len() && (#[trigger] game_types[k]).id == id
}

/// No two scenarios share an id; each refers to a game type of
/// `game_types`, has a known difficulty and lasts some minutes.
pub open spec fn scenarios_consistent(rows: Seq<ScenarioView>, game_types: Seq<GameTypeView>) -> bool {
    &&& forall|i: int, j: int|
        #![trigger rows[i], rows[j]]
        0 <= i < j < rows.len() ==> rows[i].id != rows[j].id
    &&& forall|i: int|
        #![trigger rows[i]]
        0 <= i < rows.len() ==> {
            &&& has_game_type(game_types, rows[i].game_type_id)
            &&& is_difficulty(rows[i].difficulty)
            &&& rows[i].duration_minutes > 0
        }
}

/// The rules of the catalogue.
pub open spec fn consistent(tables: CatalogView) -> bool {
    &&& game_types_consistent(tables.game_types)
    &&& scenarios_consistent(tables.scenarios, tables.game_types)
}

spec fn digit(c: char) -> int {
    c as int - '0' as int
}

spec fn id_number(id: Seq<char>) -> int {
    if id.len() == 1 {
        digit(id[0])
    } else {
        10 * digit(id[0]) + digit(id[1])
    }
}

spec fn seed_scenario_sound(index: int) -> bool {
    let row = SCENARIO_ROWS[index];
    &&& id_number(row.0@) == index + 1
    &&& (row.1@ == GAME_TYPE_ROWS[0].0@ || row.1@ == GAME_TYPE_ROWS[1].0@)
    &&& is_difficulty(row.4@)
    &&& row.5 > 0
}

proof fn lemma_seed_scenario_sound(index: int)
    requires
        0 <= index < SCENARIO_COUNT,
    ensures
        seed_scenario_sound(index),
{
    reveal_strlit("1");
    reveal_strlit("2");
    reveal_strlit("3");
    reveal_strlit("4");
    reveal_strlit("5");
    reveal_strlit("6");
    reveal_strlit("7");
    reveal_strlit("8");
    reveal_strlit("9");
    reveal_strlit("10");
    reveal_strlit("11");
    reveal_strlit("12");
    reveal_strlit("13");
    reveal_strlit("14");
    reveal_strlit("15");
    reveal_strlit("16");
    reveal_strlit("17");
    reveal_strlit("18");
    reveal_strlit("19");
    reveal_strlit("20");
    assert(seed_scenario_sound(0));
    assert(seed_scenario_sound(1));
    assert(seed_scenario_sound(2));
    assert(seed_scenario_sound(3));
    assert(seed_scenario_sound(4));
    assert(seed_scenario_sound(5));
    assert(seed_scenario_sound(6));
    assert(seed_scenario_sound(7));
    assert(seed_scenario_sound(8));
    assert(seed_scenario_sound(9));
    assert(seed_scenario_sound(10));
    assert(seed_scenario_sound(11));
    assert(seed_scenario_sound(12));
    assert(seed_scenario_sound(13));
    assert(seed_scenario_sound(14));
    assert(seed_scenario_sound(15));
    assert(seed_scenario_sound(16));
    assert(seed_scenario_sound(17));
    assert(seed_scenario_sound(18));
    assert(seed_scenario_sound(19));
}

/// The built-in rows keep the rules of the catalogue, whatever their
/// creation times.
pub proof fn lemma_seed_rows_consistent(game_types: Seq<GameTypeView>, scenarios: Seq<ScenarioView>)
    requires
        is_game_type_seed(game_types),
        is_scenario_seed(scenarios),
    ensures
        consistent(CatalogView { game_types, scenarios }),
{
    assert(game_types_consistent(game_types)) by {
        reveal_strlit("1");
        reveal_strlit("2");
        reveal_strlit("Mystery");
        reveal_strlit("TagQuest");
        reveal_strlit("Immersive mystery adventures with puzzles and investigations");
        reveal_strlit("Action-packed quest missions with tactical challenges");
        assert(game_types[0].id[0] != game_types[1].id[0]);
        assert(game_types[0].name.len() != game_types[1].name.len());
    }
    assert forall|i: int, j: int| 0 <= i < j < scenarios.len() implies (#[trigger] scenarios[i]).id
        != (#[trigger] scenarios[j]).id by {
        lemma_seed_scenario_sound(i);
        lemma_seed_scenario_sound(j);
    }
    assert forall|i: int| 0 <= i < scenarios.len() implies {
        &&& has_game_type(game_types, (#[trigger] scenarios[i]).game_type_id)
        &&& is_difficulty(scenarios[i].difficulty)
        &&& scenarios[i].duration_minutes > 0
    } by {
        lemma_seed_scenario_sound(i);
        if scenarios[i].game_type_id == game_types[0].id {
        } else {
            assert(game_types[1].id == scenarios[i].game_type_id);
        }
    }
}

} // verus!
