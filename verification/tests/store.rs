use rusqlite::Connection;
use taghunter::seed::{GAME_TYPE_ROWS, SCENARIO_ROWS};
use taghunter::sql::{scenario_query, SELECT_SCENARIOS, SELECT_SCENARIOS_OF_GAME_TYPE};
use taghunter::model::{GameType, Scenario};
use taghunter::store::{
    created, failure, game_type_reply, get_game_types, get_scenarios, init_database,
    needs_seeding, scenario_reply, seed_after_count, seed_counted, seed_data, SetupError,
};

fn fresh() -> Connection {
    let mut conn = Connection::open_in_memory().unwrap();
    init_database(&mut conn).unwrap();
    conn
}

fn game_type(id: &str, name: &str) -> GameType {
    GameType::new(id.to_string(), name.to_string(), "d".to_string(), "t".to_string())
}

fn scenario(id: &str, game_type_id: &str, title: &str) -> Scenario {
    Scenario::new(
        id.to_string(),
        game_type_id.to_string(),
        title.to_string(),
        "d".to_string(),
        "Easy".to_string(),
        25,
        "t".to_string(),
        None,
    )
}

fn count(conn: &Connection, table: &str) -> i64 {
    conn.query_row(&format!("SELECT COUNT(*) FROM {table}"), (), |row| row.get(0)).unwrap()
}

#[test]
fn init_creates_and_seeds_both_tables() {
    let conn = fresh();
    assert_eq!(count(&conn, "game_types"), 2);
    assert_eq!(count(&conn, "scenarios"), 20);
}

#[test]
fn init_twice_leaves_row_counts_unchanged() {
    let mut conn = fresh();
    let game_types = get_game_types(&conn).unwrap();
    let scenarios = get_scenarios(&conn, None).unwrap();
    init_database(&mut conn).unwrap();
    assert_eq!(count(&conn, "game_types"), 2);
    assert_eq!(count(&conn, "scenarios"), 20);
    assert_eq!(get_game_types(&conn).unwrap(), game_types);
    assert_eq!(get_scenarios(&conn, None).unwrap(), scenarios);
}

#[test]
fn seeding_skips_a_store_that_holds_a_game_type() {
    let mut conn = Connection::open_in_memory().unwrap();
    conn.execute("CREATE TABLE game_types (id TEXT PRIMARY KEY, name TEXT, description TEXT)", ())
        .unwrap();
    conn.execute("INSERT INTO game_types VALUES ('x', 'Relay', 'Teams in turn')", ()).unwrap();
    seed_data(&mut conn).unwrap();
    assert_eq!(count(&conn, "game_types"), 1);
}

#[test]
fn a_counted_row_keeps_seeding_from_touching_the_store() {
    let mut conn = Connection::open_in_memory().unwrap();
    assert!(seed_counted(&mut conn, 1).is_ok());
    assert!(seed_counted(&mut conn, -1).is_ok());
    assert!(matches!(seed_counted(&mut conn, 0), Err(SetupError::Seed(_))));
    assert!(conn.is_autocommit());
    let mut conn = fresh();
    assert!(seed_counted(&mut conn, 2).is_ok());
    assert_eq!(count(&conn, "game_types"), 2);
    assert_eq!(count(&conn, "scenarios"), 20);
}

#[test]
fn seeding_a_seeded_store_again_fails_and_changes_nothing() {
    let mut conn = fresh();
    assert!(matches!(seed_counted(&mut conn, 0), Err(SetupError::Seed(_))));
    assert_eq!(count(&conn, "game_types"), 2);
    assert_eq!(count(&conn, "scenarios"), 20);
    assert!(conn.is_autocommit());
}

#[test]
fn a_failed_count_is_returned_as_it_came_and_nothing_is_written() {
    let mut conn = Connection::open_in_memory().unwrap();
    conn.execute("CREATE TABLE game_types (id TEXT, name TEXT, description TEXT)", ()).unwrap();
    let done = seed_after_count(&mut conn, Err(rusqlite::Error::InvalidQuery));
    assert!(matches!(done, Err(SetupError::Count(rusqlite::Error::InvalidQuery))));
    assert_eq!(count(&conn, "game_types"), 0);
    assert!(seed_after_count(&mut conn, Ok(4)).is_ok());
    assert_eq!(count(&conn, "game_types"), 0);
}

#[test]
fn a_count_of_none_has_the_built_in_rows_inserted() {
    let mut conn = Connection::open_in_memory().unwrap();
    conn.execute("CREATE TABLE game_types (id TEXT, name TEXT, description TEXT)", ()).unwrap();
    conn.execute(
        "CREATE TABLE scenarios (id TEXT, game_type_id TEXT, title TEXT, description TEXT,
         difficulty TEXT, duration_minutes INTEGER, image_url TEXT)",
        (),
    )
    .unwrap();
    assert!(seed_after_count(&mut conn, Ok(0)).is_ok());
    assert_eq!(count(&conn, "game_types"), 2);
    assert_eq!(count(&conn, "scenarios"), 20);
    assert!(conn.is_autocommit());
}

#[test]
fn a_transaction_that_is_open_already_keeps_seeding_from_starting() {
    let mut conn = Connection::open_in_memory().unwrap();
    conn.execute("CREATE TABLE game_types (id TEXT, name TEXT, description TEXT)", ()).unwrap();
    conn.execute("BEGIN", ()).unwrap();
    assert!(matches!(seed_counted(&mut conn, 0), Err(SetupError::Seed(_))));
    conn.execute("ROLLBACK", ()).unwrap();
    assert_eq!(count(&conn, "game_types"), 0);
}

#[test]
fn a_table_that_was_not_created_is_returned_as_that_failure() {
    assert_eq!(created(Ok(0)).ok(), Some(()));
    assert!(matches!(
        created(Err(rusqlite::Error::InvalidQuery)),
        Err(SetupError::Create(rusqlite::Error::InvalidQuery))
    ));
    let mut conn = Connection::open_in_memory().unwrap();
    conn.execute("CREATE VIEW numbers AS SELECT 1", ()).unwrap();
    conn.execute("PRAGMA query_only = ON", ()).unwrap();
    assert!(matches!(init_database(&mut conn), Err(SetupError::Create(_))));
}

#[test]
fn seeding_without_tables_fails() {
    let mut conn = Connection::open_in_memory().unwrap();
    assert!(matches!(seed_data(&mut conn), Err(SetupError::Count(_))));
}

#[test]
fn seeding_is_all_or_nothing() {
    let mut conn = Connection::open_in_memory().unwrap();
    conn.execute("CREATE TABLE scenarios (id TEXT PRIMARY KEY)", ()).unwrap();
    assert!(matches!(init_database(&mut conn), Err(SetupError::Seed(_))));
    assert_eq!(count(&conn, "game_types"), 0);
    assert_eq!(count(&conn, "scenarios"), 0);
    assert!(conn.is_autocommit());
}

#[test]
fn store_lists_the_seeded_game_types_by_name() {
    let listing = get_game_types(&fresh()).unwrap();
    assert_eq!(listing.len(), 2);
    assert_eq!(listing[0].id, "1");
    assert_eq!(listing[0].name, "Mystery");
    assert_eq!(
        listing[0].description,
        "Immersive mystery adventures with puzzles and investigations"
    );
    assert_eq!(listing[1].id, "2");
    assert_eq!(listing[1].name, "TagQuest");
    assert_eq!(listing[1].description, "Action-packed quest missions with tactical challenges");
    assert!(listing.iter().all(|row| !row.created_at.is_empty()));
}

#[test]
fn store_lists_all_scenarios_by_title() {
    let listing = get_scenarios(&fresh(), None).unwrap();
    let ids: Vec<&str> = listing.iter().map(|row| row.id.as_str()).collect();
    assert_eq!(ids, [
        "14",
        "4",
        "11",
        "2",
        "5",
        "17",
        "1",
        "18",
        "6",
        "3",
        "15",
        "13",
        "7",
        "10",
        "20",
        "9",
        "12",
        "8",
        "16",
        "19",
    ]);
    assert_eq!(listing[0].title, "Alchimiste: La Quête de l'Élixir");
    assert_eq!(listing[0].game_type_id, "2");
    assert_eq!(listing[0].description, "Become an alchemist and quest for the legendary elixir.");
    assert_eq!(listing[0].difficulty, "Medium");
    assert_eq!(listing[0].duration_minutes, 35);
    assert_eq!(
        listing[0].image_url.as_deref(),
        Some("https://images.pexels.com/photos/4021871/pexels-photo-4021871.jpeg")
    );
    assert!(!listing[0].created_at.is_empty());
}

#[test]
fn store_lists_the_scenarios_of_one_game_type() {
    let conn = fresh();
    let first = get_scenarios(&conn, Some("1".to_string())).unwrap();
    let titles: Vec<&str> = first.iter().map(|row| row.title.as_str()).collect();
    assert_eq!(titles, [
        "Bienvenue à Keyhouse",
        "L'Académie des Sorciers",
        "L'Odyssée Spatiale",
        "La Cuisine de Mamie Citrouille",
        "La Malédiction du Kraken",
        "Le Portail des Ombres",
        "Les Reliques de Toutankhamon",
        "Mission Antidote",
        "Monster Party",
        "Potion Z",
    ]);
    assert!(first.iter().all(|row| row.game_type_id == "1"));
    let second = get_scenarios(&conn, Some("2".to_string())).unwrap();
    assert_eq!(second.len(), 10);
    assert!(second.iter().all(|row| row.game_type_id == "2"));
}

#[test]
fn store_gives_an_empty_listing_for_an_unknown_game_type() {
    let conn = fresh();
    assert_eq!(get_scenarios(&conn, Some("3".to_string())), Ok(vec![]));
    assert_eq!(get_scenarios(&conn, Some("' OR '1'='1".to_string())), Ok(vec![]));
}

#[test]
fn store_refers_only_to_listed_game_types() {
    let conn = fresh();
    let game_types = get_game_types(&conn).unwrap();
    for row in get_scenarios(&conn, None).unwrap() {
        assert!(game_types.iter().any(|game_type| game_type.id == row.game_type_id));
    }
}

#[test]
fn store_lists_the_built_in_rows_in_the_order_of_their_bytes() {
    let conn = fresh();
    let stored = get_game_types(&conn).unwrap();
    let mut built_in = GAME_TYPE_ROWS.to_vec();
    built_in.sort_by(|a, b| a.1.as_bytes().cmp(b.1.as_bytes()));
    assert_eq!(stored.len(), built_in.len());
    for (a, b) in stored.iter().zip(&built_in) {
        assert_eq!((a.id.as_str(), a.name.as_str(), a.description.as_str()), *b);
    }
    for filter in [None, Some("1"), Some("2"), Some("7")] {
        let stored = get_scenarios(&conn, filter.map(str::to_string)).unwrap();
        let mut built_in: Vec<_> = SCENARIO_ROWS
            .iter()
            .filter(|row| filter.is_none() || filter == Some(row.1))
            .collect();
        built_in.sort_by(|a, b| a.2.as_bytes().cmp(b.2.as_bytes()));
        assert_eq!(stored.len(), built_in.len());
        for (a, b) in stored.iter().zip(&built_in) {
            assert_eq!(a.id, b.0);
            assert_eq!(a.game_type_id, b.1);
            assert_eq!(a.title, b.2);
            assert_eq!(a.description, b.3);
            assert_eq!(a.difficulty, b.4);
            assert_eq!(a.duration_minutes, b.5);
            assert_eq!(a.image_url.as_deref(), Some(b.6));
        }
    }
}

#[test]
fn a_game_type_id_with_a_nul_character_gives_no_row_of_another_game_type() {
    let conn = fresh();
    let listing = get_scenarios(&conn, Some("1\0".to_string())).unwrap();
    assert!(listing.iter().all(|row| row.game_type_id == "1\0"));
    assert!(listing.is_empty());
}

#[test]
fn a_table_with_another_collation_still_gives_only_the_game_type_asked_for() {
    let mut conn = Connection::open_in_memory().unwrap();
    conn.execute(
        "CREATE TABLE scenarios (id TEXT PRIMARY KEY, game_type_id TEXT COLLATE NOCASE,
         title TEXT COLLATE NOCASE, description TEXT, difficulty TEXT, duration_minutes INTEGER,
         created_at TEXT DEFAULT 'then', image_url TEXT)",
        (),
    )
    .unwrap();
    init_database(&mut conn).unwrap();
    conn.execute(
        "INSERT INTO scenarios (id, game_type_id, title, description, difficulty, duration_minutes)
         VALUES ('a', 'x', 'b', 'd', 'Easy', 5), ('b', 'X', 'B', 'd', 'Easy', 5),
                ('c', 'x', 'a', 'd', 'Easy', 5)",
        (),
    )
    .unwrap();
    let listing = get_scenarios(&conn, Some("x".to_string())).unwrap();
    let ids: Vec<&str> = listing.iter().map(|row| row.id.as_str()).collect();
    assert_eq!(ids, ["c", "a"]);
    let all = get_scenarios(&conn, Some("X".to_string())).unwrap();
    let ids: Vec<&str> = all.iter().map(|row| row.id.as_str()).collect();
    assert_eq!(ids, ["b"]);
}

#[test]
fn store_reads_rows_it_did_not_seed() {
    let conn = fresh();
    conn.execute(
        "INSERT INTO game_types (id, name, description, created_at)
         VALUES ('9', 'Arena', 'Duels', '2020-02-02 02:02:02')",
        (),
    )
    .unwrap();
    conn.execute(
        "INSERT INTO scenarios (id, game_type_id, title, description) VALUES ('90', '9', 'A', 'B')",
        (),
    )
    .unwrap();
    let game_types = get_game_types(&conn).unwrap();
    assert_eq!(game_types.len(), 3);
    assert_eq!(game_types[0].name, "Arena");
    assert_eq!(game_types[0].created_at, "2020-02-02 02:02:02");
    let listing = get_scenarios(&conn, Some("9".to_string())).unwrap();
    assert_eq!(listing.len(), 1);
    assert_eq!(listing[0].title, "A");
    assert_eq!(listing[0].difficulty, "Medium");
    assert_eq!(listing[0].duration_minutes, 30);
    assert_eq!(listing[0].image_url, None);
    assert_eq!(get_scenarios(&conn, None).unwrap()[0].id, "90");
}

#[test]
fn a_failing_store_is_reported_in_words() {
    let conn = Connection::open_in_memory().unwrap();
    let game_types = get_game_types(&conn).unwrap_err();
    assert!(game_types.contains("no such table"), "{game_types}");
    let scenarios = get_scenarios(&conn, None).unwrap_err();
    assert!(scenarios.contains("no such table"), "{scenarios}");
    assert!(get_scenarios(&conn, Some("1".to_string())).is_err());
}

#[test]
fn a_failure_is_replied_in_its_own_words() {
    assert_eq!(failure::<u8>("disk full".to_string()), Err("disk full".to_string()));
    assert_eq!(failure::<GameType>(String::new()), Err(String::new()));
}

#[test]
fn a_reply_describes_the_store_s_failure() {
    assert_eq!(
        game_type_reply(Err(rusqlite::Error::QueryReturnedNoRows)),
        Err("Query returned no rows".to_string())
    );
    assert_eq!(
        scenario_reply(Err(rusqlite::Error::QueryReturnedNoRows), &None),
        Err("Query returned no rows".to_string())
    );
    assert_eq!(
        scenario_reply(Err(rusqlite::Error::InvalidQuery), &Some("1".to_string())),
        Err("Query is not read-only".to_string())
    );
}

#[test]
fn a_reply_puts_game_types_in_order_of_name() {
    let given = vec![game_type("3", "b"), game_type("1", "a"), game_type("2", "B")];
    let reply = game_type_reply(Ok(given)).unwrap();
    let ids: Vec<&str> = reply.iter().map(|row| row.id.as_str()).collect();
    assert_eq!(ids, ["2", "1", "3"]);
    assert_eq!(game_type_reply(Ok(vec![])), Ok(vec![]));
}

#[test]
fn a_reply_keeps_rows_already_in_order_as_they_came() {
    let given = vec![scenario("1", "g", "A"), scenario("2", "g", "A"), scenario("3", "g", "B")];
    let reply = scenario_reply(Ok(given), &None).unwrap();
    let ids: Vec<&str> = reply.iter().map(|row| row.id.as_str()).collect();
    assert_eq!(ids, ["1", "2", "3"]);
}

#[test]
fn a_reply_puts_scenarios_in_order_of_title_and_keeps_only_the_game_type_asked_for() {
    let given = vec![
        scenario("1", "g", "Zebra"),
        scenario("2", "h", "Apple"),
        scenario("3", "g", "Mango"),
        scenario("4", "G", "Berry"),
    ];
    let all = scenario_reply(Ok(given.clone()), &None).unwrap();
    let ids: Vec<&str> = all.iter().map(|row| row.id.as_str()).collect();
    assert_eq!(ids, ["2", "4", "3", "1"]);
    let of_g = scenario_reply(Ok(given.clone()), &Some("g".to_string())).unwrap();
    let ids: Vec<&str> = of_g.iter().map(|row| row.id.as_str()).collect();
    assert_eq!(ids, ["3", "1"]);
    assert_eq!(scenario_reply(Ok(given), &Some(String::new())), Ok(vec![]));
}

#[test]
fn only_an_empty_table_needs_seeding() {
    assert!(needs_seeding(0));
    assert!(!needs_seeding(1));
    assert!(!needs_seeding(2));
    assert!(!needs_seeding(-1));
    assert!(!needs_seeding(i64::MAX));
}

#[test]
fn the_query_has_a_placeholder_only_with_a_game_type() {
    assert_eq!(scenario_query(&None), SELECT_SCENARIOS);
    assert_eq!(scenario_query(&Some("1".to_string())), SELECT_SCENARIOS_OF_GAME_TYPE);
    assert_eq!(scenario_query(&Some(String::new())), SELECT_SCENARIOS_OF_GAME_TYPE);
    assert!(!SELECT_SCENARIOS.contains('?'));
    assert!(SELECT_SCENARIOS_OF_GAME_TYPE.contains("WHERE game_type_id = ?1"));
}
