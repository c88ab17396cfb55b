//! The catalogue kept in a SQLite database: setting the database up, and
//! asking it for the two listings.
//!
//! What a database holds is known to the contracts by the names of
//! `sqlite`. Every listing that leaves this module has passed through the
//! verified listing functions, so its order, and that it holds no row but of
//! the game type asked for, hold whatever the database answered.

use vstd::prelude::*;
use vstd::multiset::Multiset;
use crate::catalog::{CatalogView, consistent, lemma_seed_rows_consistent};
use crate::laws::{
    lemma_filtered_listing_exact, lemma_listed_names_differ_all, lemma_selected_rows,
    lemma_selected_twice, lemma_selected_within,
};
use crate::listing::{
    is_game_type_listing, is_scenario_listing, list_game_types_of, list_scenarios_of,
    names_differ, selected_rows, sorted_by_name, sorted_by_title,
};
use crate::model::{
    GameType, GameTypeView, Scenario, ScenarioView, game_type_row, game_type_views, scenario_row,
    scenario_views, text_of,
};
use crate::seed::{
    GAME_TYPE_COUNT, GAME_TYPE_ROWS, SCENARIO_COUNT, SCENARIO_ROWS, is_game_type_seed,
    is_scenario_seed, seed_game_type_view, seed_scenario_view,
};
use crate::sql::{
    BEGIN_TRANSACTION, COMMIT_TRANSACTION, COUNT_GAME_TYPES, CREATE_GAME_TYPES_TABLE,
    CREATE_SCENARIOS_TABLE, INSERT_GAME_TYPE, INSERT_SCENARIO, ROLLBACK_TRANSACTION,
    SELECT_GAME_TYPES, scenario_query,
};
use crate::sqlite::{
    count_game_types, describe, error_text, execute, game_type_rows, insert_game_type,
    insert_scenario, own_tables, rollback, same_begin, same_rows, scenario_rows,
    select_game_types, select_scenarios, selects_exactly,
};

verus! {

/// Why setting up the store failed.
#[derive(Debug)]
pub enum SetupError {
    /// A table could not be created.
    Create(rusqlite::Error),
    /// The game types could not be counted. The store holds what it held.
    Count(rusqlite::Error),
    /// The built-in rows could not be written, and what was written of them
    /// has been undone. The store holds what it held.
    Seed(rusqlite::Error),
    /// The built-in rows could not be written, for the first reason, and
    /// undoing what was written of them failed too, for the second.
    NotUndone(rusqlite::Error, rusqlite::Error),
}

/// Both tables hold after what they held before and, besides, the built-in
/// rows, whatever their creation times.
pub open spec fn seeded(after: rusqlite::Connection, before: rusqlite::Connection) -> bool {
    exists|game_types: Seq<GameTypeView>, scenarios: Seq<ScenarioView>|
        #![trigger is_game_type_seed(game_types), is_scenario_seed(scenarios)]
        {
            &&& is_game_type_seed(game_types)
            &&& is_scenario_seed(scenarios)
            &&& game_type_rows(after) == game_type_rows(before).add(game_types.to_multiset())
            &&& scenario_rows(after) == scenario_rows(before).add(scenarios.to_multiset())
        }
}

/// What a successful initialization makes of a store: one that held a game
/// type holds what it held; one that held none holds, besides what it held,
/// the built-in rows. Either way it now holds a game type.
pub open spec fn initialized_from(after: rusqlite::Connection, before: rusqlite::Connection) -> bool {
    &&& game_type_rows(before).len() > 0 ==> same_rows(after, before)
    &&& game_type_rows(before).len() == 0 ==> seeded(after, before)
    &&& game_type_rows(after).len() > 0
}

/// With a game-type id, every row refers to it.
pub open spec fn refers_to(rows: Seq<ScenarioView>, game_type_id: Option<Seq<char>>) -> bool {
    game_type_id matches Some(id) ==> forall|i: int|
        0 <= i < rows.len() ==> (#[trigger] rows[i]).game_type_id == id
}

/// The built-in rows that a seeding added.
pub proof fn seeded_rows(after: rusqlite::Connection, before: rusqlite::Connection) -> (added: (
    Seq<GameTypeView>,
    Seq<ScenarioView>,
))
    requires
        seeded(after, before),
    ensures
        is_game_type_seed(added.0),
        is_scenario_seed(added.1),
        game_type_rows(after) == game_type_rows(before).add(added.0.to_multiset()),
        scenario_rows(after) == scenario_rows(before).add(added.1.to_multiset()),
{
    choose|game_types: Seq<GameTypeView>, scenarios: Seq<ScenarioView>|
        #![trigger is_game_type_seed(game_types), is_scenario_seed(scenarios)]
        {
            &&& is_game_type_seed(game_types)
            &&& is_scenario_seed(scenarios)
            &&& game_type_rows(after) == game_type_rows(before).add(game_types.to_multiset())
            &&& scenario_rows(after) == scenario_rows(before).add(scenarios.to_multiset())
        }
}

/// Whether a store whose table of game types holds `count` rows still lacks
/// the built-in rows.
pub fn needs_seeding(count: i64) -> (needed: bool)
    ensures
        needed == (count == 0),
{
    count == 0
}

/// The reply to a listing that failed: the failure in words, as they are.
pub fn failure<T>(text: String) -> (reply: Result<Vec<T>, String>)
    ensures
        reply == Err::<Vec<T>, String>(text),
{
    Err(text)
}

/// What a listing of game types hands to its caller: the rows that the
/// store gave, put in order of name, or, if the store failed, the text that
/// describes its failure.
pub fn game_type_reply(outcome: Result<Vec<GameType>, rusqlite::Error>) -> (reply: Result<
    Vec<GameType>,
    String,
>)
    ensures
        outcome matches Ok(rows) ==> reply matches Ok(listing) && is_game_type_listing(
            game_type_views(listing@),
            game_type_views(rows@),
        ),
        outcome matches Err(error) ==> reply matches Err(text) && text@ == error_text(error),
{
    match outcome {
        Ok(rows) => Ok(list_game_types_of(&rows)),
        Err(error) => failure(describe(&error)),
    }
}

/// What a listing of scenarios hands to its caller: of the rows that the
/// store gave, those that a query with `game_type_id` shows, put in order of
/// title, or, if the store failed, the text that describes its failure.
pub fn scenario_reply(
    outcome: Result<Vec<Scenario>, rusqlite::Error>,
    game_type_id: &Option<String>,
) -> (reply: Result<Vec<Scenario>, String>)
    ensures
        outcome matches Ok(rows) ==> reply matches Ok(listing) && is_scenario_listing(
            scenario_views(listing@),
            scenario_views(rows@),
            text_of(*game_type_id),
        ),
        outcome matches Err(error) ==> reply matches Err(text) && text@ == error_text(error),
{
    match outcome {
        Ok(rows) => Ok(list_scenarios_of(&rows, game_type_id)),
        Err(error) => failure(describe(&error)),
    }
}

/// What the creation of a table leaves to do: nothing where it failed, but
/// to return that failure.
pub fn created(made: Result<usize, rusqlite::Error>) -> (done: Result<(), SetupError>)
    ensures
        made is Ok ==> done is Ok,
        made matches Err(error) ==> done == Err::<(), SetupError>(SetupError::Create(error)),
{
    match made {
        Ok(_) => Ok(()),
        Err(error) => Err(SetupError::Create(error)),
    }
}

/// Inserts the built-in game types, one statement each.
fn insert_game_types(conn: &mut rusqlite::Connection) -> (done: Result<(), rusqlite::Error>)
    ensures
        same_begin(*final(conn), *old(conn)),
        done is Ok ==> own_tables(*final(conn)) == own_tables(*old(conn)),
        done is Ok && own_tables(*old(conn)) ==> scenario_rows(*final(conn)) == scenario_rows(
            *old(conn),
        ),
        done is Ok && own_tables(*old(conn)) ==> exists|added: Seq<GameTypeView>| #[trigger]
            is_game_type_seed(added) && game_type_rows(*final(conn)) == game_type_rows(
                *old(conn),
            ).add(added.to_multiset()),
{
    let ghost before = game_type_rows(*conn);
    let ghost scenarios = scenario_rows(*conn);
    let ghost mut added: Seq<GameTypeView> = Seq::empty();
    let mut i: usize = 0;
    assert(before.add(added.to_multiset()) =~= before) by {
        added.to_multiset_ensures();
    }
    while i < GAME_TYPE_COUNT
        invariant
            i <= GAME_TYPE_COUNT,
            added.len() == i,
            forall|k: int|
                0 <= k < added.len() ==> #[trigger] added[k] == seed_game_type_view(
                    k,
                    added[k].created_at,
                ),
            before == game_type_rows(*old(conn)),
            scenarios == scenario_rows(*old(conn)),
            same_begin(*conn, *old(conn)),
            own_tables(*conn) == own_tables(*old(conn)),
            own_tables(*old(conn)) ==> game_type_rows(*conn) == before.add(added.to_multiset()),
            own_tables(*old(conn)) ==> scenario_rows(*conn) == scenarios,
        decreases GAME_TYPE_COUNT - i,
    {
        let ghost earlier = game_type_rows(*conn);
        let row = GAME_TYPE_ROWS[i];
        match insert_game_type(conn, INSERT_GAME_TYPE, row) {
            Ok(_) => {},
            Err(error) => {
                return Err(error);
            },
        }
        proof {
            if own_tables(*old(conn)) {
                let created_at = choose|created_at: Seq<char>|
                    game_type_rows(*conn) == earlier.insert(
                        #[trigger] game_type_row(row.0@, row.1@, row.2@, created_at),
                    );
                let inserted = seed_game_type_view(i as int, created_at);
                assert(inserted == game_type_row(row.0@, row.1@, row.2@, created_at));
                added.to_multiset_ensures();
                assert(before.add(added.push(inserted).to_multiset()) =~= before.add(
                    added.to_multiset(),
                ).insert(inserted));
                added = added.push(inserted);
            } else {
                added = added.push(seed_game_type_view(i as int, Seq::empty()));
            }
        }
        i += 1;
    }
    assert(is_game_type_seed(added));
    Ok(())
}

/// Inserts the built-in scenarios, one statement each.
fn insert_scenarios(conn: &mut rusqlite::Connection) -> (done: Result<(), rusqlite::Error>)
    ensures
        same_begin(*final(conn), *old(conn)),
        done is Ok ==> own_tables(*final(conn)) == own_tables(*old(conn)),
        done is Ok && own_tables(*old(conn)) ==> game_type_rows(*final(conn)) == game_type_rows(
            *old(conn),
        ),
        done is Ok && own_tables(*old(conn)) ==> exists|added: Seq<ScenarioView>| #[trigger]
            is_scenario_seed(added) && scenario_rows(*final(conn)) == scenario_rows(
                *old(conn),
            ).add(added.to_multiset()),
{
    let ghost before = scenario_rows(*conn);
    let ghost game_types = game_type_rows(*conn);
    let ghost mut added: Seq<ScenarioView> = Seq::empty();
    let mut i: usize = 0;
    assert(before.add(added.to_multiset()) =~= before) by {
        added.to_multiset_ensures();
    }
    while i < SCENARIO_COUNT
        invariant
            i <= SCENARIO_COUNT,
            added.len() == i,
            forall|k: int|
                0 <= k < added.len() ==> #[trigger] added[k] == seed_scenario_view(
                    k,
                    added[k].created_at,
                ),
            before == scenario_rows(*old(conn)),
            game_types == game_type_rows(*old(conn)),
            same_begin(*conn, *old(conn)),
            own_tables(*conn) == own_tables(*old(conn)),
            own_tables(*old(conn)) ==> scenario_rows(*conn) == before.add(added.to_multiset()),
            own_tables(*old(conn)) ==> game_type_rows(*conn) == game_types,
        decreases SCENARIO_COUNT - i,
    {
        let ghost earlier = scenario_rows(*conn);
        let row = SCENARIO_ROWS[i];
        match insert_scenario(conn, INSERT_SCENARIO, row) {
            Ok(_) => {},
            Err(error) => {
                return Err(error);
            },
        }
        proof {
            if own_tables(*old(conn)) {
                let created_at = choose|created_at: Seq<char>|
                    scenario_rows(*conn) == earlier.insert(
                        #[trigger] scenario_row(
                            row.0@,
                            row.1@,
                            row.2@,
                            row.3@,
                            row.4@,
                            row.5 as int,
                            created_at,
                            Some(row.6@),
                        ),
                    );
                let inserted = seed_scenario_view(i as int, created_at);
                assert(inserted == scenario_row(
                    row.0@,
                    row.1@,
                    row.2@,
                    row.3@,
                    row.4@,
                    row.5 as int,
                    created_at,
                    Some(row.6@),
                ));
                added.to_multiset_ensures();
                assert(before.add(added.push(inserted).to_multiset()) =~= before.add(
                    added.to_multiset(),
                ).insert(inserted));
                added = added.push(inserted);
            } else {
                added = added.push(seed_scenario_view(i as int, Seq::empty()));
            }
        }
        i += 1;
    }
    assert(is_scenario_seed(added));
    Ok(())
}

/// Inserts the built-in rows of both tables.
fn insert_seed(conn: &mut rusqlite::Connection) -> (done: Result<(), rusqlite::Error>)
    ensures
        same_begin(*final(conn), *old(conn)),
        done is Ok ==> own_tables(*final(conn)) == own_tables(*old(conn)),
        done is Ok && own_tables(*old(conn)) ==> seeded(*final(conn), *old(conn)),
{
    match insert_game_types(conn) {
        Ok(()) => {},
        Err(error) => {
            return Err(error);
        },
    }
    insert_scenarios(conn)
}

/// Seeds a store whose table of game types was found to hold `count` rows.
/// A table with rows leaves the store as it is, which cannot fail. An empty
/// table has the built-in rows inserted, all of them in one transaction. If
/// that fails, the transaction is rolled back, and the error says whether
/// the rolling back succeeded: if it did, the store holds what it held.
pub fn seed_counted(conn: &mut rusqlite::Connection, count: i64) -> (done: Result<(), SetupError>)
    ensures
        count != 0 ==> done is Ok && same_rows(*final(conn), *old(conn)),
        count == 0 && done is Ok && own_tables(*old(conn)) ==> seeded(*final(conn), *old(conn)),
        done matches Err(error) ==> error is Seed || error is NotUndone,
        done matches Err(SetupError::Seed(_)) ==> same_rows(*final(conn), *old(conn)),
{
    if !needs_seeding(count) {
        return Ok(());
    }
    match execute(conn, BEGIN_TRANSACTION) {
        Ok(_) => {},
        Err(error) => {
            return Err(SetupError::Seed(error));
        },
    }
    let written = match insert_seed(conn) {
        Ok(()) => execute(conn, COMMIT_TRANSACTION),
        Err(error) => Err(error),
    };
    match written {
        Ok(_) => Ok(()),
        Err(cause) => match rollback(conn, ROLLBACK_TRANSACTION) {
            Ok(_) => Err(SetupError::Seed(cause)),
            Err(undo) => Err(SetupError::NotUndone(cause, undo)),
        },
    }
}

/// Seeds a store after its game types were counted. A count that failed
/// is returned as it came, and a count other than 0 gives success, with
/// the store left as it is in both cases; a count of 0 has the built-in rows
/// inserted, as `seed_counted` says.
pub fn seed_after_count(conn: &mut rusqlite::Connection, counted: Result<i64, rusqlite::Error>) -> (done:
    Result<(), SetupError>)
    ensures
        counted matches Err(error) ==> done == Err::<(), SetupError>(SetupError::Count(error))
            && same_rows(*final(conn), *old(conn)),
        counted matches Ok(count) ==> (count != 0 ==> done is Ok && same_rows(
            *final(conn),
            *old(conn),
        )),
        counted matches Ok(count) ==> (count == 0 && done is Ok && own_tables(*old(conn))
            ==> seeded(*final(conn), *old(conn))),
        counted matches Ok(count) ==> (done matches Err(error) ==> error is Seed
            || error is NotUndone),
        done matches Err(SetupError::Seed(_)) ==> same_rows(*final(conn), *old(conn)),
{
    match counted {
        Ok(count) => seed_counted(conn, count),
        Err(error) => Err(SetupError::Count(error)),
    }
}

/// Counts the game types in the store and seeds it if there are none. A
/// store that holds a game type is left as it is. Unless the error says
/// that a seeding could not be undone, a failure leaves the store as it
/// was.
pub fn seed_data(conn: &mut rusqlite::Connection) -> (done: Result<(), SetupError>)
    ensures
        game_type_rows(*old(conn)).len() > 0 ==> same_rows(*final(conn), *old(conn)),
        done is Ok && own_tables(*old(conn)) ==> initialized_from(*final(conn), *old(conn)),
        done matches Err(error) ==> error is Count || error is Seed || error is NotUndone,
        done matches Err(error) ==> error is NotUndone || same_rows(*final(conn), *old(conn)),
{
    let counted = count_game_types(conn, COUNT_GAME_TYPES);
    let ghost count = counted;
    let done = seed_after_count(conn, counted);
    proof {
        if done is Ok && count == Ok::<i64, rusqlite::Error>(0) && own_tables(*old(conn)) {
            lemma_seeded_not_empty(*conn, *old(conn));
        }
    }
    done
}

/// Creates the two tables unless they are there, then seeds the store if it
/// holds no game type. A store that holds a game type keeps its rows. A
/// table that could not be created is returned as that failure.
pub fn init_database(conn: &mut rusqlite::Connection) -> (done: Result<(), SetupError>)
    ensures
        done is Ok && game_type_rows(*old(conn)).len() > 0 ==> same_rows(*final(conn), *old(conn)),
        done is Ok && own_tables(*old(conn)) ==> initialized_from(*final(conn), *old(conn)),
        done matches Err(error) ==> error is Create || error is NotUndone || same_rows(
            *final(conn),
            *old(conn),
        ),
{
    match created(execute(conn, CREATE_GAME_TYPES_TABLE)) {
        Ok(()) => {},
        Err(error) => {
            return Err(error);
        },
    }
    match created(execute(conn, CREATE_SCENARIOS_TABLE)) {
        Ok(()) => {},
        Err(error) => {
            return Err(error);
        },
    }
    seed_data(conn)
}

/// After seeding, the table of game types is not empty.
pub proof fn lemma_seeded_not_empty(after: rusqlite::Connection, before: rusqlite::Connection)
    requires
        seeded(after, before),
    ensures
        game_type_rows(after).len() > 0,
{
    broadcast use vstd::multiset::group_multiset_axioms;

    let added = seeded_rows(after, before);
    added.0.to_multiset_ensures();
}

/// Initializing a store a second time changes nothing: both tables hold
/// what the first initialization left, and so as many rows.
pub proof fn lemma_second_initialization_keeps_rows(
    start: rusqlite::Connection,
    first: rusqlite::Connection,
    second: rusqlite::Connection,
)
    requires
        initialized_from(first, start),
        game_type_rows(first).len() > 0 ==> same_rows(second, first),
    ensures
        same_rows(second, first),
        game_type_rows(second).len() == game_type_rows(first).len(),
        scenario_rows(second).len() == scenario_rows(first).len(),
{
}

/// A store without rows holds, once initialized, the built-in rows and no
/// others, and these keep the rules of the catalogue: ids differ within
/// each table, names differ, and every scenario refers to a game type.
pub proof fn lemma_initialized_empty_store(after: rusqlite::Connection, before: rusqlite::Connection)
    requires
        initialized_from(after, before),
        game_type_rows(before).len() == 0,
        scenario_rows(before).len() == 0,
    ensures
        exists|game_types: Seq<GameTypeView>, scenarios: Seq<ScenarioView>|
            #![trigger is_game_type_seed(game_types), is_scenario_seed(scenarios)]
            {
                &&& is_game_type_seed(game_types)
                &&& is_scenario_seed(scenarios)
                &&& consistent(CatalogView { game_types, scenarios })
                &&& game_type_rows(after) == game_types.to_multiset()
                &&& scenario_rows(after) == scenarios.to_multiset()
            },
{
    broadcast use vstd::multiset::group_multiset_axioms;

    let added = seeded_rows(after, before);
    lemma_seed_rows_consistent(added.0, added.1);
    assert(game_type_rows(before) =~= Multiset::empty());
    assert(scenario_rows(before) =~= Multiset::empty());
    assert(game_type_rows(before).add(added.0.to_multiset()) =~= added.0.to_multiset());
    assert(scenario_rows(before).add(added.1.to_multiset()) =~= added.1.to_multiset());
}

/// All game types of the store, each as often as its table holds it, in
/// ascending order of name; or the text that describes the store's failure.
/// On tables that are the library's own no two rows share a name, so the
/// order is strict.
pub fn get_game_types(conn: &rusqlite::Connection) -> (reply: Result<Vec<GameType>, String>)
    ensures
        reply matches Ok(rows) ==> sorted_by_name(game_type_views(rows@)) && game_type_views(
            rows@,
        ).to_multiset() == game_type_rows(*conn),
        reply matches Ok(rows) ==> (own_tables(*conn) ==> names_differ(game_type_views(rows@))),
{
    let answer = select_game_types(conn, SELECT_GAME_TYPES);
    let ghost given = answer;
    let reply = game_type_reply(answer);
    proof {
        if given is Ok && own_tables(*conn) {
            lemma_listed_names_differ_all(
                game_type_views(given->Ok_0@),
                game_type_views(reply->Ok_0@),
            );
        }
    }
    reply
}

/// Scenarios of the store in ascending order of title, or the text that
/// describes the store's failure. Without a game-type id the listing has
/// every scenario of the table. With one, every row of the listing refers
/// to it; that the listing then has every such row of the table is known
/// where the id holds no NUL character and the tables are the library's
/// own. An id that no scenario refers to gives an empty listing.
pub fn get_scenarios(conn: &rusqlite::Connection, game_type_id: Option<String>) -> (reply: Result<
    Vec<Scenario>,
    String,
>)
    ensures
        reply matches Ok(rows) ==> {
            &&& sorted_by_title(scenario_views(rows@))
            &&& refers_to(scenario_views(rows@), text_of(game_type_id))
            &&& scenario_views(rows@).to_multiset().subset_of(scenario_rows(*conn))
            &&& selects_exactly(*conn, text_of(game_type_id)) ==> scenario_views(
                rows@,
            ).to_multiset() == selected_rows(scenario_rows(*conn), text_of(game_type_id))
        },
{
    let answer = select_scenarios(conn, scenario_query(&game_type_id), &game_type_id);
    let ghost given = answer;
    let reply = scenario_reply(answer, &game_type_id);
    proof {
        if given is Ok {
            let rows = scenario_views(given->Ok_0@);
            lemma_selected_rows(rows, text_of(game_type_id));
            lemma_selected_within(rows, text_of(game_type_id));
            lemma_selected_twice(scenario_rows(*conn), text_of(game_type_id));
            if text_of(game_type_id) is Some {
                lemma_filtered_listing_exact(
                    scenario_views(reply->Ok_0@),
                    rows,
                    text_of(game_type_id)->Some_0,
                );
            }
        }
    }
    reply
}

} // verus!
