//! Catalogue of game types and scenarios, kept in a SQLite database.
//!
//! `store` sets the database up and answers the two listings. Its contracts
//! speak of the database by the names of `sqlite`, and rest on what `sqlite`
//! claims of the statements that create, count, insert, select and undo.
//! The order of a listing, and that it holds no row but of the game type
//! asked for, are proved of every reply, whatever the database answered,
//! because each reply passes through the functions of `listing`.
//!
//! `seed` holds the built-in rows, `catalog` the rules of the data model,
//! which the built-in rows are proved to keep, and `laws` what holds of
//! every listing.

pub mod catalog;
pub mod laws;
pub mod listing;
pub mod model;
pub mod seed;
pub mod sql;
pub mod sqlite;
pub mod store;
pub mod text;

pub use model::{GameType, Scenario};
pub use store::{SetupError, get_game_types, get_scenarios, init_database, seed_data};
