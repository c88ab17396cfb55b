//! The calls into `rusqlite`, and the names by which contracts speak of a
//! database. Verus takes every contract in this file on trust.
//!
//! What is claimed is what SQLite documents for the statements of `sql`.
//! Of the order of an answer nothing is claimed: a listing gets its order
//! from verified code. Whatever depends on how a table was made is claimed
//! only of tables that are the library's own. All of it is said of a
//! database that nobody else writes between two calls.

use vstd::prelude::*;
use vstd::multiset::Multiset;
use crate::listing::{names_differ, selected_rows};
use crate::model::{
    GameType, GameTypeView, Scenario, ScenarioView, game_type_row, game_type_views, scenario_row,
    scenario_views, text_of,
};
use crate::seed::{is_built_in_game_type, is_built_in_scenario};
use crate::sql::{
    BEGIN_TRANSACTION, COMMIT_TRANSACTION, COUNT_GAME_TYPES, CREATE_GAME_TYPES_TABLE,
    CREATE_SCENARIOS_TABLE, INSERT_GAME_TYPE, INSERT_SCENARIO, ROLLBACK_TRANSACTION,
    SELECT_GAME_TYPES, SELECT_SCENARIOS, SELECT_SCENARIOS_OF_GAME_TYPE,
};

verus! {

/// `rusqlite::Connection`, an open SQLite database.
#[verifier::external_type_specification]
#[verifier::external_body]
pub struct ExConnection(rusqlite::Connection);

/// `rusqlite::Error`, what a failed call reports.
#[verifier::external_type_specification]
#[verifier::external_body]
pub struct ExError(rusqlite::Error);

// The rows of the table `game_types` as this connection sees them, each read
// as four texts and counted as often as the table holds it; none where the
// table does not exist.
pub uninterp spec fn game_type_rows(conn: rusqlite::Connection) -> Multiset<GameTypeView>;

// The rows of the table `scenarios` as this connection sees them, each
// counted as often as the table holds it; none where the table does not
// exist.
pub uninterp spec fn scenario_rows(conn: rusqlite::Connection) -> Multiset<ScenarioView>;

// Whether the two tables, where they exist, are the library's own: made by
// the two statements of `sql` that create them, with those columns, types,
// collations and constraints, and with no trigger or view in their place.
pub uninterp spec fn own_tables(conn: rusqlite::Connection) -> bool;

// What the table `game_types` held when this connection last left
// autocommit mode, as a `BEGIN` that succeeds makes it do.
pub uninterp spec fn game_types_at_begin(conn: rusqlite::Connection) -> Multiset<GameTypeView>;

// What the table `scenarios` held when this connection last left
// autocommit mode, as a `BEGIN` that succeeds makes it do.
pub uninterp spec fn scenarios_at_begin(conn: rusqlite::Connection) -> Multiset<ScenarioView>;

// The text that `Display` gives for this error.
pub uninterp spec fn error_text(error: rusqlite::Error) -> Seq<char>;

/// Both tables hold after what they held before.
pub open spec fn same_rows(after: rusqlite::Connection, before: rusqlite::Connection) -> bool {
    &&& game_type_rows(after) == game_type_rows(before)
    &&& scenario_rows(after) == scenario_rows(before)
}

/// What is remembered of the tables at the opening of the last transaction
/// is after what it was before.
pub open spec fn same_begin(after: rusqlite::Connection, before: rusqlite::Connection) -> bool {
    &&& game_types_at_begin(after) == game_types_at_begin(before)
    &&& scenarios_at_begin(after) == scenarios_at_begin(before)
}

/// A text without a NUL character.
pub open spec fn has_no_nul(text: Seq<char>) -> bool {
    forall|i: int| 0 <= i < text.len() ==> text[i] != '\0'
}

/// Whether a listing of scenarios for `game_type_id` is known to have every
/// row that it should: always without an id, and with one where the id
/// holds no NUL character and the tables are the library's own.
pub open spec fn selects_exactly(conn: rusqlite::Connection, game_type_id: Option<Seq<char>>) -> bool {
    match game_type_id {
        Some(id) => has_no_nul(id) && own_tables(conn),
        None => true,
    }
}

/// `Connection::execute` on a statement that writes no row: `CREATE TABLE IF
/// NOT EXISTS`, which leaves a table that exists alone and makes one that
/// does not exist without rows, `BEGIN IMMEDIATE` or `COMMIT`. Claimed:
/// where the statement succeeds, both tables hold what they held, and are
/// the library's own if and only if they were; a `BEGIN` that fails leaves
/// both tables as they were too; a `BEGIN` that succeeds opens a
/// transaction, and what the tables hold then is remembered; no other
/// outcome changes what is remembered.
#[verifier::external_body]
pub(crate) fn execute(conn: &mut rusqlite::Connection, sql: &str) -> (done: Result<
    usize,
    rusqlite::Error,
>)
    requires
        sql@ == CREATE_GAME_TYPES_TABLE@ || sql@ == CREATE_SCENARIOS_TABLE@ || sql@
            == BEGIN_TRANSACTION@ || sql@ == COMMIT_TRANSACTION@,
    ensures
        done is Ok || sql@ == BEGIN_TRANSACTION@ ==> same_rows(*final(conn), *old(conn)),
        done is Ok ==> own_tables(*final(conn)) == own_tables(*old(conn)),
        done is Ok && sql@ == BEGIN_TRANSACTION@ ==> game_types_at_begin(*final(conn))
            == game_type_rows(*old(conn)) && scenarios_at_begin(*final(conn)) == scenario_rows(
            *old(conn),
        ),
        !(done is Ok && sql@ == BEGIN_TRANSACTION@) ==> same_begin(*final(conn), *old(conn)),
{
    conn.execute(sql, ())
}

/// `Connection::execute` on `ROLLBACK`. Claimed: where it succeeds, a
/// transaction was open, and both tables hold what they held when it was
/// opened.
#[verifier::external_body]
pub(crate) fn rollback(conn: &mut rusqlite::Connection, sql: &str) -> (done: Result<
    usize,
    rusqlite::Error,
>)
    requires
        sql@ == ROLLBACK_TRANSACTION@,
    ensures
        done is Ok ==> game_type_rows(*final(conn)) == game_types_at_begin(*old(conn)),
        done is Ok ==> scenario_rows(*final(conn)) == scenarios_at_begin(*old(conn)),
{
    conn.execute(sql, ())
}

/// `Connection::execute` on the statement that inserts one game type, with
/// one of the built-in rows bound to its placeholders. Claimed: where the
/// statement succeeds on tables that are the library's own, the table of
/// game types has gained that one row, with a creation time that the
/// database chose, and the table of scenarios holds what it held; where it
/// succeeds, the tables are the library's own if and only if they were; it
/// opens no transaction, so what is remembered of the last opening stays.
#[verifier::external_body]
pub(crate) fn insert_game_type(
    conn: &mut rusqlite::Connection,
    sql: &str,
    row: (&str, &str, &str),
) -> (done: Result<usize, rusqlite::Error>)
    requires
        sql@ == INSERT_GAME_TYPE@,
        is_built_in_game_type(row),
    ensures
        same_begin(*final(conn), *old(conn)),
        done is Ok ==> own_tables(*final(conn)) == own_tables(*old(conn)),
        done is Ok && own_tables(*old(conn)) ==> scenario_rows(*final(conn)) == scenario_rows(
            *old(conn),
        ),
        done is Ok && own_tables(*old(conn)) ==> exists|created_at: Seq<char>|
            game_type_rows(*final(conn)) == game_type_rows(*old(conn)).insert(
                #[trigger] game_type_row(row.0@, row.1@, row.2@, created_at),
            ),
{
    conn.execute(sql, row)
}

/// `Connection::execute` on the statement that inserts one scenario, with
/// one of the built-in rows bound to its placeholders. Claimed: where the
/// statement succeeds on tables that are the library's own, the table of
/// scenarios has gained that one row, with a creation time that the
/// database chose, and the table of game types holds what it held; where it
/// succeeds, the tables are the library's own if and only if they were; it
/// opens no transaction, so what is remembered of the last opening stays.
#[verifier::external_body]
pub(crate) fn insert_scenario(
    conn: &mut rusqlite::Connection,
    sql: &str,
    row: (&str, &str, &str, &str, &str, i32, &str),
) -> (done: Result<usize, rusqlite::Error>)
    requires
        sql@ == INSERT_SCENARIO@,
        is_built_in_scenario(row),
    ensures
        same_begin(*final(conn), *old(conn)),
        done is Ok ==> own_tables(*final(conn)) == own_tables(*old(conn)),
        done is Ok && own_tables(*old(conn)) ==> game_type_rows(*final(conn)) == game_type_rows(
            *old(conn),
        ),
        done is Ok && own_tables(*old(conn)) ==> exists|created_at: Seq<char>|
            scenario_rows(*final(conn)) == scenario_rows(*old(conn)).insert(
                #[trigger] scenario_row(
                    row.0@,
                    row.1@,
                    row.2@,
                    row.3@,
                    row.4@,
                    row.5 as int,
                    created_at,
                    Some(row.6@),
                ),
            ),
{
    conn.execute(sql, row)
}

/// `Connection::query_row` on the statement that counts the game types,
/// reading the one column of its one row. Claimed: a count that comes back
/// is the number of rows in the table of game types.
#[verifier::external_body]
pub(crate) fn count_game_types(conn: &rusqlite::Connection, sql: &str) -> (counted: Result<
    i64,
    rusqlite::Error,
>)
    requires
        sql@ == COUNT_GAME_TYPES@,
    ensures
        counted matches Ok(count) ==> count == game_type_rows(*conn).len(),
{
    conn.query_row(sql, (), |row| row.get(0))
}

/// `Connection::prepare` and `Statement::query_map` on the statement that
/// lists the game types: runs the query and reads each row of the answer as
/// a game type, column by column. Claimed: an answer that comes back has the
/// rows of the table of game types, each as often as the table holds it;
/// on tables that are the library's own, where names are unique, no two of
/// its rows share a name. Of the order of the rows nothing is claimed.
#[verifier::external_body]
pub(crate) fn select_game_types(conn: &rusqlite::Connection, sql: &str) -> (answer: Result<
    Vec<GameType>,
    rusqlite::Error,
>)
    requires
        sql@ == SELECT_GAME_TYPES@,
    ensures
        answer matches Ok(rows) ==> game_type_views(rows@).to_multiset() == game_type_rows(*conn),
        answer matches Ok(rows) ==> (own_tables(*conn) ==> names_differ(game_type_views(rows@))),
{
    let mut statement = conn.prepare(sql)?;
    let rows = statement.query_map(
        (),
        |row| Ok(GameType::new(row.get(0)?, row.get(1)?, row.get(2)?, row.get(3)?)),
    )?;
    rows.collect()
}

/// `Connection::prepare` and `Statement::query_map` on the statement that
/// lists scenarios, with the id, if there is one, bound to its placeholder:
/// runs the query and reads each row of the answer as a scenario, column by
/// column. Claimed of an answer that comes back: it has no row but of the
/// table of scenarios, and none more often than the table holds it; without
/// an id it has every row of the table; with an id that holds no NUL
/// character, on tables that are the library's own, it has the rows whose
/// game-type id is that text, each as often as the table holds it. Of the
/// order of the rows nothing is claimed.
#[verifier::external_body]
pub(crate) fn select_scenarios(
    conn: &rusqlite::Connection,
    sql: &str,
    game_type_id: &Option<String>,
) -> (answer: Result<Vec<Scenario>, rusqlite::Error>)
    requires
        *game_type_id is Some ==> sql@ == SELECT_SCENARIOS_OF_GAME_TYPE@,
        *game_type_id is None ==> sql@ == SELECT_SCENARIOS@,
    ensures
        answer matches Ok(rows) ==> scenario_views(rows@).to_multiset().subset_of(
            scenario_rows(*conn),
        ),
        answer matches Ok(rows) ==> (selects_exactly(*conn, text_of(*game_type_id))
            ==> scenario_views(rows@).to_multiset() == selected_rows(
            scenario_rows(*conn),
            text_of(*game_type_id),
        )),
{
    let mut statement = conn.prepare(sql)?;
    let rows = statement.query_map(
        rusqlite::params_from_iter(game_type_id.iter()),
        |row| Ok(Scenario::new(
            row.get(0)?, row.get(1)?, row.get(2)?, row.get(3)?,
            row.get(4)?, row.get(5)?, row.get(6)?, row.get(7)?,
        )),
    )?;
    rows.collect()
}

/// The `Display` text of a `rusqlite::Error`, through `to_string`. Claimed:
/// it is the text that the name `error_text` stands for.
#[verifier::external_body]
pub(crate) fn describe(error: &rusqlite::Error) -> (text: String)
    ensures
        text@ == error_text(*error),
{
    error.to_string()
}

} // verus!
