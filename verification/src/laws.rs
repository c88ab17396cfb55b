//! What holds of every listing.
//!
//! The statements speak of any listing of any table, and so of every reply
//! of the store, which is a listing of the rows that the database gave. The
//! statements on references hold of any two tables that keep the rules of
//! the catalogue, as the rows of a database that was empty before its
//! initialization do. What holds of the database after initialization is
//! stated in `store`.

use vstd::prelude::*;
use vstd::multiset::Multiset;
use crate::catalog::{CatalogView, consistent, game_types_consistent, has_game_type};
use crate::listing::{
    is_game_type_listing, is_scenario_listing, names_differ, selected, selected_rows,
    sorted_by_name,
};
use crate::model::{GameTypeView, ScenarioView};
use crate::text::{lemma_text_le_antisymmetric, text_le};

verus! {

proof fn lemma_filter_count<A>(rows: Seq<A>, pred: spec_fn(A) -> bool, row: A)
    ensures
        rows.filter(pred).to_multiset().count(row) == if pred(row) {
            rows.to_multiset().count(row)
        } else {
            0
        },
    decreases rows.len(),
{
    reveal(Seq::filter);
    if rows.len() == 0 {
        rows.to_multiset_ensures();
        assert(!rows.contains(row));
    } else {
        let init = rows.drop_last();
        let last = rows.last();
        lemma_filter_count(init, pred, row);
        assert(rows =~= init.push(last));
        init.to_multiset_ensures();
        init.filter(pred).to_multiset_ensures();
    }
}

proof fn lemma_contains_count<A>(rows: Seq<A>, row: A)
    ensures
        rows.contains(row) <==> rows.to_multiset().count(row) > 0,
{
    rows.to_multiset_ensures();
}

proof fn lemma_same_rows<A>(listing: Seq<A>, table: Seq<A>)
    requires
        listing.to_multiset() == table.to_multiset(),
    ensures
        listing.len() == table.len(),
        forall|row: A| #[trigger] listing.contains(row) <==> table.contains(row),
{
    listing.to_multiset_ensures();
    table.to_multiset_ensures();
    assert forall|row: A| #[trigger] listing.contains(row) <==> table.contains(row) by {
        lemma_contains_count(listing, row);
        lemma_contains_count(table, row);
    }
}

proof fn lemma_count_once(table: Seq<GameTypeView>, at: int)
    requires
        names_differ(table),
        0 <= at < table.len(),
    ensures
        table.to_multiset().count(table[at]) == 1,
{
    let row = table[at];
    let rest = table.remove(at);
    table.to_multiset_ensures();
    assert(table.to_multiset().count(row) == rest.to_multiset().count(row) + 1);
    if rest.contains(row) {
        let k = choose|k: int| 0 <= k < rest.len() && rest[k] == row;
        let twin = if k < at { k } else { k + 1 };
        assert(table[twin] == row);
        if twin < at {
            assert(table[twin].name != table[at].name);
        } else {
            assert(table[at].name != table[twin].name);
        }
    }
    lemma_contains_count(rest, row);
}

proof fn lemma_count_twice<A>(rows: Seq<A>, i: int, j: int)
    requires
        0 <= i < j < rows.len(),
        rows[i] == rows[j],
    ensures
        rows.to_multiset().count(rows[i]) >= 2,
{
    let rest = rows.remove(j);
    rows.to_multiset_ensures();
    assert(rest[i] == rows[i]);
    assert(rest.contains(rows[i]));
    lemma_contains_count(rest, rows[i]);
}

proof fn lemma_listed_names_differ(
    table: Seq<GameTypeView>,
    listing: Seq<GameTypeView>,
    i: int,
    j: int,
)
    requires
        names_differ(table),
        listing.to_multiset() == table.to_multiset(),
        0 <= i < j < listing.len(),
    ensures
        listing[i].name != listing[j].name,
{
    lemma_same_rows(listing, table);
    assert(listing.contains(listing[i]));
    assert(listing.contains(listing[j]));
    let x = choose|x: int| 0 <= x < table.len() && table[x] == listing[i];
    let y = choose|y: int| 0 <= y < table.len() && table[y] == listing[j];
    if x == y {
        // One row of the table would stand twice in the listing.
        lemma_count_once(table, x);
        lemma_count_twice(listing, i, j);
    } else if x < y {
        assert(table[x].name != table[y].name);
    } else {
        assert(table[y].name != table[x].name);
    }
}

proof fn lemma_sorted_rows_equal(first: Seq<GameTypeView>, second: Seq<GameTypeView>)
    requires
        first.to_multiset() == second.to_multiset(),
        sorted_by_name(first),
        sorted_by_name(second),
        forall|i: int, j: int|
            #![trigger first[i], first[j]]
            0 <= i < j < first.len() ==> first[i].name != first[j].name,
    ensures
        first == second,
    decreases first.len(),
{
    lemma_same_rows(first, second);
    if first.len() > 0 {
        // Each head stands somewhere in the other listing, so each comes no
        // later than the other: they have one name, and so are one row.
        assert(second.contains(second[0]));
        assert(first.contains(second[0]));
        assert(first.contains(first[0]));
        assert(second.contains(first[0]));
        let i = choose|i: int| 0 <= i < first.len() && first[i] == second[0];
        let j = choose|j: int| 0 <= j < second.len() && second[j] == first[0];
        assert(text_le(first[0].name, first[i].name));
        assert(text_le(second[0].name, second[j].name));
        lemma_text_le_antisymmetric(first[0].name, second[0].name);
        assert(i == 0);
        let first_rest = first.remove(0);
        let second_rest = second.remove(0);
        first.to_multiset_ensures();
        second.to_multiset_ensures();
        assert forall|i: int, j: int| 0 <= i <= j < first_rest.len() implies text_le(
            (#[trigger] first_rest[i]).name,
            (#[trigger] first_rest[j]).name,
        ) by {
            assert(text_le(first[i + 1].name, first[j + 1].name));
        }
        assert forall|i: int, j: int| 0 <= i <= j < second_rest.len() implies text_le(
            (#[trigger] second_rest[i]).name,
            (#[trigger] second_rest[j]).name,
        ) by {
            assert(text_le(second[i + 1].name, second[j + 1].name));
        }
        assert forall|i: int, j: int| 0 <= i < j < first_rest.len() implies (
        #[trigger] first_rest[i]).name != (#[trigger] first_rest[j]).name by {
            assert(first[i + 1].name != first[j + 1].name);
        }
        lemma_sorted_rows_equal(first_rest, second_rest);
        assert(first =~= seq![first[0]] + first_rest);
        assert(second =~= seq![second[0]] + second_rest);
    }
}

/// A listing of game types has every game type of the table, once for each
/// time the table has it, and nothing else.
pub proof fn lemma_game_type_listing_complete(listing: Seq<GameTypeView>, table: Seq<GameTypeView>)
    requires
        is_game_type_listing(listing, table),
    ensures
        listing.len() == table.len(),
        forall|row: GameTypeView| #[trigger] listing.contains(row) <==> table.contains(row),
{
    lemma_same_rows(listing, table);
}

/// Rows of which no two share a name keep that in whatever order they are
/// listed.
pub proof fn lemma_listed_names_differ_all(table: Seq<GameTypeView>, listing: Seq<GameTypeView>)
    requires
        names_differ(table),
        listing.to_multiset() == table.to_multiset(),
    ensures
        names_differ(listing),
{
    assert forall|i: int, j: int| 0 <= i < j < listing.len() implies (#[trigger] listing[i]).name
        != (#[trigger] listing[j]).name by {
        lemma_listed_names_differ(table, listing, i, j);
    }
}

/// The listing of game types is determined: since no two game types of a
/// catalogue share a name, any two listings of its table are the same
/// sequence.
pub proof fn lemma_game_type_listing_unique(
    table: Seq<GameTypeView>,
    first: Seq<GameTypeView>,
    second: Seq<GameTypeView>,
)
    requires
        game_types_consistent(table),
        is_game_type_listing(first, table),
        is_game_type_listing(second, table),
    ensures
        first == second,
{
    assert(names_differ(table));
    lemma_listed_names_differ_all(table, first);
    lemma_sorted_rows_equal(first, second);
}

/// Selecting from rows in some order and selecting from the same rows
/// without their order give the same rows.
pub proof fn lemma_selected_rows(rows: Seq<ScenarioView>, game_type_id: Option<Seq<char>>)
    ensures
        selected(rows, game_type_id).to_multiset() == selected_rows(
            rows.to_multiset(),
            game_type_id,
        ),
{
    broadcast use vstd::multiset::group_multiset_axioms;

    if let Some(id) = game_type_id {
        let refers = |row: ScenarioView| row.game_type_id == id;
        assert(selected(rows, game_type_id) == rows.filter(refers));
        assert forall|row: ScenarioView|
            rows.filter(refers).to_multiset().count(row) == rows.to_multiset().filter(refers).count(
                row,
            ) by {
            lemma_filter_count(rows, refers, row);
        }
        assert(rows.filter(refers).to_multiset() =~= rows.to_multiset().filter(refers));
    }
}

/// A selection has no row that it was not taken from, and none more often.
pub proof fn lemma_selected_within(rows: Seq<ScenarioView>, game_type_id: Option<Seq<char>>)
    ensures
        selected(rows, game_type_id).to_multiset().subset_of(rows.to_multiset()),
{
    if let Some(id) = game_type_id {
        let refers = |row: ScenarioView| row.game_type_id == id;
        assert(selected(rows, game_type_id) == rows.filter(refers));
        assert forall|row: ScenarioView|
            rows.filter(refers).to_multiset().count(row) <= rows.to_multiset().count(row) by {
            lemma_filter_count(rows, refers, row);
        }
    }
}

/// Selecting once more from rows that were selected changes nothing.
pub proof fn lemma_selected_twice(rows: Multiset<ScenarioView>, game_type_id: Option<Seq<char>>)
    ensures
        selected_rows(selected_rows(rows, game_type_id), game_type_id) == selected_rows(
            rows,
            game_type_id,
        ),
{
    broadcast use vstd::multiset::group_multiset_axioms;

    if let Some(id) = game_type_id {
        let refers = |row: ScenarioView| row.game_type_id == id;
        assert(rows.filter(refers).filter(refers) =~= rows.filter(refers));
    }
}

/// A listing taken without a game-type id has every scenario of the table,
/// once for each time the table has it, and nothing else.
pub proof fn lemma_unfiltered_listing_complete(listing: Seq<ScenarioView>, table: Seq<ScenarioView>)
    requires
        is_scenario_listing(listing, table, None),
    ensures
        listing.to_multiset() == table.to_multiset(),
        listing.len() == table.len(),
        forall|row: ScenarioView| #[trigger] listing.contains(row) <==> table.contains(row),
{
    lemma_same_rows(listing, table);
}

/// A listing taken for a game-type id has exactly the scenarios of the table
/// that refer to that id, each as often as the table has it. Where no
/// scenario refers to the id, the listing is empty.
pub proof fn lemma_filtered_listing_exact(
    listing: Seq<ScenarioView>,
    table: Seq<ScenarioView>,
    game_type_id: Seq<char>,
)
    requires
        is_scenario_listing(listing, table, Some(game_type_id)),
    ensures
        forall|row: ScenarioView| #[trigger]
            listing.to_multiset().count(row) == if row.game_type_id == game_type_id {
                table.to_multiset().count(row)
            } else {
                0
            },
        forall|i: int| 0 <= i < listing.len() ==> (#[trigger] listing[i]).game_type_id == game_type_id,
        forall|row: ScenarioView| #[trigger]
            listing.contains(row) <==> table.contains(row) && row.game_type_id == game_type_id,
        (forall|i: int| 0 <= i < table.len() ==> (#[trigger] table[i]).game_type_id != game_type_id)
            ==> listing.len() == 0,
{
    let refers = |row: ScenarioView| row.game_type_id == game_type_id;
    assert(selected(table, Some(game_type_id)) == table.filter(refers));
    assert forall|row: ScenarioView| #[trigger]
        listing.to_multiset().count(row) == if row.game_type_id == game_type_id {
            table.to_multiset().count(row)
        } else {
            0
        } by {
        lemma_filter_count(table, refers, row);
    }
    assert forall|row: ScenarioView| #[trigger]
        listing.contains(row) <==> table.contains(row) && row.game_type_id == game_type_id by {
        lemma_contains_count(listing, row);
        lemma_contains_count(table, row);
    }
    assert forall|i: int| 0 <= i < listing.len() implies (#[trigger] listing[i]).game_type_id
        == game_type_id by {
        assert(listing.contains(listing[i]));
    }
    if forall|i: int| 0 <= i < table.len() ==> (#[trigger] table[i]).game_type_id != game_type_id {
        if listing.len() > 0 {
            let row = listing[0];
            assert(listing.contains(row));
            assert(table.contains(row));
            assert(false);
        }
    }
}

/// Where no row refers to a game-type id, the selection for that id is
/// empty.
pub proof fn lemma_nothing_selected(rows: Multiset<ScenarioView>, game_type_id: Seq<char>)
    requires
        forall|row: ScenarioView| rows.count(row) > 0 ==> row.game_type_id != game_type_id,
    ensures
        selected_rows(rows, Some(game_type_id)) == Multiset::<ScenarioView>::empty(),
        selected_rows(rows, Some(game_type_id)).len() == 0,
{
    broadcast use vstd::multiset::group_multiset_axioms;

    let refers = |row: ScenarioView| row.game_type_id == game_type_id;
    assert(rows.filter(refers) =~= Multiset::<ScenarioView>::empty());
}

/// Every selected scenario refers to one of the game types: for any two
/// tables that keep the rules of the catalogue, for rows in any order, and
/// whatever the scenarios were selected for.
pub proof fn lemma_references_resolve(
    tables: CatalogView,
    game_types: Seq<GameTypeView>,
    scenarios: Seq<ScenarioView>,
    game_type_id: Option<Seq<char>>,
)
    requires
        consistent(tables),
        game_types.to_multiset() == tables.game_types.to_multiset(),
        scenarios.to_multiset() == selected_rows(tables.scenarios.to_multiset(), game_type_id),
    ensures
        forall|i: int|
            0 <= i < scenarios.len() ==> has_game_type(
                game_types,
                (#[trigger] scenarios[i]).game_type_id,
            ),
{
    broadcast use vstd::multiset::group_multiset_axioms;

    assert forall|i: int| 0 <= i < scenarios.len() implies has_game_type(
        game_types,
        (#[trigger] scenarios[i]).game_type_id,
    ) by {
        let row = scenarios[i];
        assert(scenarios.contains(row));
        lemma_contains_count(scenarios, row);
        lemma_contains_count(tables.scenarios, row);
        assert(tables.scenarios.contains(row));
        let at = choose|at: int| 0 <= at < tables.scenarios.len() && tables.scenarios[at] == row;
        assert(has_game_type(tables.game_types, tables.scenarios[at].game_type_id));
        let owner = choose|k: int|
            0 <= k < tables.game_types.len() && (#[trigger] tables.game_types[k]).id
                == tables.scenarios[at].game_type_id;
        let game_type = tables.game_types[owner];
        lemma_same_rows(game_types, tables.game_types);
        assert(tables.game_types.contains(game_type));
        assert(game_types.contains(game_type));
        let listed = choose|k: int| 0 <= k < game_types.len() && game_types[k] == game_type;
        assert(game_types[listed].id == scenarios[i].game_type_id);
    }
}

/// Every listed scenario refers to a listed game type: for any two tables
/// that keep the rules of the catalogue, whatever the listing of scenarios
/// was taken for.
pub proof fn lemma_listed_references_resolve(
    tables: CatalogView,
    game_types: Seq<GameTypeView>,
    scenarios: Seq<ScenarioView>,
    game_type_id: Option<Seq<char>>,
)
    requires
        consistent(tables),
        is_game_type_listing(game_types, tables.game_types),
        is_scenario_listing(scenarios, tables.scenarios, game_type_id),
    ensures
        forall|i: int|
            0 <= i < scenarios.len() ==> has_game_type(
                game_types,
                (#[trigger] scenarios[i]).game_type_id,
            ),
{
    lemma_selected_rows(tables.scenarios, game_type_id);
    lemma_references_resolve(tables, game_types, scenarios, game_type_id);
}

} // verus!
