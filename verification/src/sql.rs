//! The statements sent to the store.

use vstd::prelude::*;

verus! {

/// Creates the table of game types unless it is there.
pub const CREATE_GAME_TYPES_TABLE: &'static str =
    "CREATE TABLE IF NOT EXISTS game_types (
        id TEXT PRIMARY KEY,
        name TEXT UNIQUE NOT NULL,
        description TEXT NOT NULL,
        created_at DATETIME DEFAULT CURRENT_TIMESTAMP
    )";

/// Creates the table of scenarios unless it is there.
pub const CREATE_SCENARIOS_TABLE: &'static str =
    "CREATE TABLE IF NOT EXISTS scenarios (
        id TEXT PRIMARY KEY,
        game_type_id TEXT NOT NULL,
        title TEXT NOT NULL,
        description TEXT NOT NULL,
        difficulty TEXT DEFAULT 'Medium',
        duration_minutes INTEGER DEFAULT 30,
        created_at DATETIME DEFAULT CURRENT_TIMESTAMP,
        image_url TEXT,
        FOREIGN KEY (game_type_id) REFERENCES game_types(id)
    )";

/// Counts the game types.
pub const COUNT_GAME_TYPES: &'static str = "SELECT COUNT(*) FROM game_types";

/// Opens a transaction and keeps every other connection from writing until
/// it ends.
pub const BEGIN_TRANSACTION: &'static str = "BEGIN IMMEDIATE";

/// Makes the work of the open transaction lasting.
pub const COMMIT_TRANSACTION: &'static str = "COMMIT";

/// Undoes the work of the open transaction.
pub const ROLLBACK_TRANSACTION: &'static str = "ROLLBACK";

/// Inserts one game type: id, name, description.
pub const INSERT_GAME_TYPE: &'static str =
    "INSERT INTO game_types (id, name, description) VALUES (?1, ?2, ?3)";

/// Inserts one scenario: id, game-type id, title, description, difficulty,
/// duration in minutes, image URL.
pub const INSERT_SCENARIO: &'static str =
    "INSERT INTO scenarios
        (id, game_type_id, title, description, difficulty, duration_minutes, image_url)
        VALUES (?1, ?2, ?3, ?4, ?5, ?6, ?7)";

/// Lists the game types by name.
pub const SELECT_GAME_TYPES: &'static str =
    "SELECT id, name, description, created_at FROM game_types ORDER BY name";

/// Lists all scenarios by title.
pub const SELECT_SCENARIOS: &'static str =
    "SELECT id, game_type_id, title, description, difficulty, duration_minutes, created_at, image_url
        FROM scenarios ORDER BY title";

/// Lists by title the scenarios of the game type that the one placeholder
/// stands for.
pub const SELECT_SCENARIOS_OF_GAME_TYPE: &'static str =
    "SELECT id, game_type_id, title, description, difficulty, duration_minutes, created_at, image_url
        FROM scenarios WHERE game_type_id = ?1 ORDER BY title";

/// The statement that lists scenarios: the one with a placeholder where a
/// game-type id is given, the one without where none is.
pub fn scenario_query(game_type_id: &Option<String>) -> (sql: &'static str)
    ensures
        sql == if game_type_id is Some {
            SELECT_SCENARIOS_OF_GAME_TYPE
        } else {
            SELECT_SCENARIOS
        },
{
    if game_type_id.is_some() {
        SELECT_SCENARIOS_OF_GAME_TYPE
    } else {
        SELECT_SCENARIOS
    }
}

} // verus!
