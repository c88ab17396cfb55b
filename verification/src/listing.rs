//! What a listing is: the rows of a table that a query selects, in the order
//! of their sort key. Rows with equal keys may come in either order.

use vstd::prelude::*;
use vstd::multiset::Multiset;
use crate::model::{GameType, GameTypeView, Scenario, ScenarioView, game_type_views, scenario_views, text_of};
use crate::text::{
    lemma_text_le_reflexive, lemma_text_le_total, lemma_text_le_transitive, str_le, text_le,
};

verus! {

/// Game types in ascending order of name.
pub open spec fn sorted_by_name(rows: Seq<GameTypeView>) -> bool {
    forall|i: int, j: int|
        #![trigger rows[i], rows[j]]
        0 <= i <= j < rows.len() ==> text_le(rows[i].name, rows[j].name)
}

/// No two of the game types share a name.
pub open spec fn names_differ(rows: Seq<GameTypeView>) -> bool {
    forall|i: int, j: int|
        #![trigger rows[i], rows[j]]
        0 <= i < j < rows.len() ==> rows[i].name != rows[j].name
}

/// Scenarios in ascending order of title.
pub open spec fn sorted_by_title(rows: Seq<ScenarioView>) -> bool {
    forall|i: int, j: int|
        #![trigger rows[i], rows[j]]
        0 <= i <= j < rows.len() ==> text_le(rows[i].title, rows[j].title)
}

/// The scenarios that a query shows: with a game-type id, those that refer
/// to it; without one, all of them.
pub open spec fn selected(rows: Seq<ScenarioView>, game_type_id: Option<Seq<char>>) -> Seq<
    ScenarioView,
> {
    match game_type_id {
        Some(id) => rows.filter(|row: ScenarioView| row.game_type_id == id),
        None => rows,
    }
}

/// The same selection, taken of rows without an order.
pub open spec fn selected_rows(rows: Multiset<ScenarioView>, game_type_id: Option<Seq<char>>) -> Multiset<
    ScenarioView,
> {
    match game_type_id {
        Some(id) => rows.filter(|row: ScenarioView| row.game_type_id == id),
        None => rows,
    }
}

/// `listing` holds exactly the rows of `table`, each as often as the table
/// does, in ascending order of name.
pub open spec fn is_game_type_listing(listing: Seq<GameTypeView>, table: Seq<GameTypeView>) -> bool {
    &&& sorted_by_name(listing)
    &&& listing.to_multiset() == table.to_multiset()
}

/// `listing` holds exactly the rows of `table` that the query selects, each
/// as often as the table does, in ascending order of title.
pub open spec fn is_scenario_listing(
    listing: Seq<ScenarioView>,
    table: Seq<ScenarioView>,
    game_type_id: Option<Seq<char>>,
) -> bool {
    &&& sorted_by_title(listing)
    &&& listing.to_multiset() == selected(table, game_type_id).to_multiset()
}

proof fn lemma_insert_to_multiset<A>(rows: Seq<A>, at: int, row: A)
    requires
        0 <= at <= rows.len(),
    ensures
        rows.insert(at, row).to_multiset() == rows.to_multiset().insert(row),
{
    let longer = rows.insert(at, row);
    assert(longer.remove(at) =~= rows);
    assert(longer[at] == row);
    longer.to_multiset_ensures();
    assert(longer.contains(row));
    assert(longer.to_multiset() =~= rows.to_multiset().insert(row));
}

proof fn lemma_selected_push(rows: Seq<ScenarioView>, row: ScenarioView, game_type_id: Option<Seq<char>>)
    ensures
        selected(rows.push(row), game_type_id) == if game_type_id matches Some(id)
            && row.game_type_id != id {
            selected(rows, game_type_id)
        } else {
            selected(rows, game_type_id).push(row)
        },
{
    if let Some(id) = game_type_id {
        reveal(Seq::filter);
        assert(rows.push(row).drop_last() =~= rows);
    }
}

/// A row, with the text that listings order it by.
pub trait Keyed: Sized {
    /// The text that listings order this row by.
    spec fn key(&self) -> Seq<char>;

    /// That text, as a string.
    fn key_text(&self) -> (key: &str)
        ensures
            key@ == self.key(),
    ;
}

impl Keyed for GameType {
    open spec fn key(&self) -> Seq<char> {
        self.name@
    }

    fn key_text(&self) -> (key: &str) {
        self.name.as_str()
    }
}

impl Keyed for Scenario {
    open spec fn key(&self) -> Seq<char> {
        self.title@
    }

    fn key_text(&self) -> (key: &str) {
        self.title.as_str()
    }
}

/// Rows in ascending order of their keys.
pub open spec fn sorted_by_key<T: Keyed>(rows: Seq<T>) -> bool {
    forall|i: int, j: int|
        #![trigger rows[i], rows[j]]
        0 <= i <= j < rows.len() ==> text_le(rows[i].key(), rows[j].key())
}

/// Puts `row` into a listing sorted by key, behind the rows that come no
/// later than it, and says where it went.
fn insert_by_key<T: Keyed>(listing: &mut Vec<T>, row: T) -> (at: usize)
    requires
        sorted_by_key(old(listing)@),
    ensures
        at <= old(listing)@.len(),
        final(listing)@ == old(listing)@.insert(at as int, row),
        sorted_by_key(final(listing)@),
{
    let ghost before = listing@;
    let n = listing.len();
    let mut at: usize = 0;
    let mut found = false;
    while at < n && !found
        invariant
            at <= n,
            n == listing@.len(),
            before == listing@,
            forall|k: int| 0 <= k < at ==> text_le((#[trigger] before[k]).key(), row.key()),
            found ==> at < n && !text_le(before[at as int].key(), row.key()),
        decreases n - at + if found { 0int } else { 1int },
    {
        if str_le(listing[at].key_text(), row.key_text()) {
            at += 1;
        } else {
            found = true;
        }
    }
    listing.insert(at, row);
    proof {
        let after = listing@;
        assert forall|k: int| at <= k < before.len() implies text_le(
            row.key(),
            (#[trigger] before[k]).key(),
        ) by {
            lemma_text_le_total(before[at as int].key(), row.key());
            lemma_text_le_transitive(row.key(), before[at as int].key(), before[k].key());
        }
        assert forall|i: int, j: int| 0 <= i <= j < after.len() implies text_le(
            (#[trigger] after[i]).key(),
            (#[trigger] after[j]).key(),
        ) by {
            let oi = if i < at { i } else { i - 1 };
            let oj = if j < at { j } else { j - 1 };
            if i == at {
                lemma_text_le_reflexive(row.key());
                if j > at {
                    assert(text_le(row.key(), before[oj].key()));
                }
            } else if j == at {
                assert(text_le(before[oi].key(), row.key()));
            } else {
                assert(text_le(before[oi].key(), before[oj].key()));
            }
        }
    }
    at
}

/// Lists the game types of `table` by name.
pub fn list_game_types_of(table: &Vec<GameType>) -> (listing: Vec<GameType>)
    ensures
        is_game_type_listing(game_type_views(listing@), game_type_views(table@)),
{
    let mut listing: Vec<GameType> = Vec::new();
    let n = table.len();
    let mut i: usize = 0;
    assert(game_type_views(table@.subrange(0, 0)) =~= game_type_views(listing@));
    while i < n
        invariant
            i <= n,
            n == table@.len(),
            sorted_by_key(listing@),
            game_type_views(listing@).to_multiset() == game_type_views(
                table@.subrange(0, i as int),
            ).to_multiset(),
        decreases n - i,
    {
        let row = table[i].clone();
        let ghost earlier = game_type_views(listing@);
        let ghost inserted = row@;
        proof {
            let seen = game_type_views(table@.subrange(0, i as int));
            assert(game_type_views(table@.subrange(0, i + 1)) =~= seen.push(inserted));
            seen.to_multiset_ensures();
        }
        let at = insert_by_key(&mut listing, row);
        proof {
            assert(game_type_views(listing@) =~= earlier.insert(at as int, inserted));
            lemma_insert_to_multiset(earlier, at as int, inserted);
        }
        i += 1;
    }
    assert(table@.subrange(0, n as int) =~= table@);
    assert(sorted_by_name(game_type_views(listing@))) by {
        assert forall|i: int, j: int| 0 <= i <= j < listing@.len() implies text_le(
            (#[trigger] game_type_views(listing@)[i]).name,
            (#[trigger] game_type_views(listing@)[j]).name,
        ) by {
            assert(text_le(listing@[i].key(), listing@[j].key()));
        }
    }
    listing
}

/// Whether a query with `game_type_id` shows `row`.
fn shows(row: &Scenario, game_type_id: &Option<String>) -> (shown: bool)
    ensures
        shown == (text_of(*game_type_id) matches Some(id) ==> row@.game_type_id == id),
{
    match game_type_id {
        Some(id) => row.game_type_id == *id,
        None => true,
    }
}

/// Lists by title the scenarios of `table` that a query with `game_type_id`
/// shows.
pub fn list_scenarios_of(table: &Vec<Scenario>, game_type_id: &Option<String>) -> (listing: Vec<
    Scenario,
>)
    ensures
        is_scenario_listing(
            scenario_views(listing@),
            scenario_views(table@),
            text_of(*game_type_id),
        ),
{
    let ghost wanted = text_of(*game_type_id);
    let mut listing: Vec<Scenario> = Vec::new();
    let n = table.len();
    let mut i: usize = 0;
    assert(scenario_views(table@.subrange(0, 0)) =~= Seq::<ScenarioView>::empty());
    assert(selected(Seq::<ScenarioView>::empty(), wanted) =~= scenario_views(listing@)) by {
        reveal(Seq::filter);
    }
    while i < n
        invariant
            i <= n,
            n == table@.len(),
            wanted == text_of(*game_type_id),
            sorted_by_key(listing@),
            scenario_views(listing@).to_multiset() == selected(
                scenario_views(table@.subrange(0, i as int)),
                wanted,
            ).to_multiset(),
        decreases n - i,
    {
        proof {
            let seen = scenario_views(table@.subrange(0, i as int));
            let row = table@[i as int]@;
            assert(scenario_views(table@.subrange(0, i + 1)) =~= seen.push(row));
            lemma_selected_push(seen, row, wanted);
            selected(seen, wanted).to_multiset_ensures();
        }
        if shows(&table[i], game_type_id) {
            let row = table[i].clone();
            let ghost earlier = scenario_views(listing@);
            let ghost inserted = row@;
            let at = insert_by_key(&mut listing, row);
            proof {
                assert(scenario_views(listing@) =~= earlier.insert(at as int, inserted));
                lemma_insert_to_multiset(earlier, at as int, inserted);
            }
        }
        i += 1;
    }
    assert(table@.subrange(0, n as int) =~= table@);
    assert(sorted_by_title(scenario_views(listing@))) by {
        assert forall|i: int, j: int| 0 <= i <= j < listing@.len() implies text_le(
            (#[trigger] scenario_views(listing@)[i]).title,
            (#[trigger] scenario_views(listing@)[j]).title,
        ) by {
            assert(text_le(listing@[i].key(), listing@[j].key()));
        }
    }
    listing
}

} // verus!
