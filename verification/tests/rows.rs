use taghunter::model::{GameType, Scenario};
use taghunter::seed::{GAME_TYPE_COUNT, GAME_TYPE_ROWS, SCENARIO_COUNT, SCENARIO_ROWS};

#[test]
fn the_tables_hold_as_many_rows_as_they_say() {
    assert_eq!(GAME_TYPE_COUNT, 2);
    assert_eq!(SCENARIO_COUNT, 20);
    assert_eq!(GAME_TYPE_ROWS.len(), GAME_TYPE_COUNT);
    assert_eq!(SCENARIO_ROWS.len(), SCENARIO_COUNT);
}

#[test]
fn the_built_in_game_types_are_mystery_and_tagquest() {
    assert_eq!(
        GAME_TYPE_ROWS[0],
        ("1", "Mystery", "Immersive mystery adventures with puzzles and investigations")
    );
    assert_eq!(
        GAME_TYPE_ROWS[1],
        ("2", "TagQuest", "Action-packed quest missions with tactical challenges")
    );
}

#[test]
fn the_built_in_scenarios_are_numbered_and_split_between_the_game_types() {
    for (index, row) in SCENARIO_ROWS.iter().enumerate() {
        assert_eq!(row.0, (index + 1).to_string());
        assert_eq!(row.1, if index < 10 { "1" } else { "2" });
        assert!(row.6.starts_with("https://images.pexels.com/photos/"));
        assert!(row.6.ends_with(".jpeg"));
    }
}

#[test]
fn some_built_in_scenarios_column_by_column() {
    assert_eq!(
        SCENARIO_ROWS[0],
        (
            "1",
            "1",
            "La Cuisine de Mamie Citrouille",
            "A mysterious adventure in Grandma Pumpkin's enchanted kitchen.",
            "Medium",
            30,
            "https://images.pexels.com/photos/1121123/pexels-photo-1121123.jpeg",
        )
    );
    assert_eq!(SCENARIO_ROWS[7].2, "Potion Z");
    assert_eq!(SCENARIO_ROWS[7].4, "Easy");
    assert_eq!(SCENARIO_ROWS[7].5, 25);
    assert_eq!(SCENARIO_ROWS[6].5, 45);
    assert_eq!(SCENARIO_ROWS[13].2, "Alchimiste: La Qu\u{ea}te de l'\u{c9}lixir");
    assert_eq!(SCENARIO_ROWS[19].2, "Monster Kids Apocalypse");
}

#[test]
fn the_built_in_rows_keep_the_rules() {
    for row in SCENARIO_ROWS {
        assert!(row.5 > 0);
        assert!(["Easy", "Medium", "Hard"].contains(&row.4));
        assert!(GAME_TYPE_ROWS.iter().any(|game_type| game_type.0 == row.1));
    }
    let mut ids: Vec<&str> = SCENARIO_ROWS.iter().map(|row| row.0).collect();
    ids.sort();
    ids.dedup();
    assert_eq!(ids.len(), 20);
    assert_ne!(GAME_TYPE_ROWS[0].0, GAME_TYPE_ROWS[1].0);
    assert_ne!(GAME_TYPE_ROWS[0].1, GAME_TYPE_ROWS[1].1);
    for row in GAME_TYPE_ROWS {
        assert!(!row.1.is_empty() && !row.2.is_empty());
    }
}

#[test]
fn no_built_in_text_holds_a_nul_character() {
    for row in GAME_TYPE_ROWS {
        assert!(![row.0, row.1, row.2].iter().any(|text| text.contains('\0')));
    }
    for row in SCENARIO_ROWS {
        assert!(![row.0, row.1, row.2, row.3, row.4, row.6].iter().any(|text| text.contains('\0')));
    }
}

#[test]
fn rows_are_built_from_their_columns_in_table_order() {
    let game_type = GameType::new(
        "g".to_string(),
        "Relay".to_string(),
        "Teams in turn".to_string(),
        "now".to_string(),
    );
    assert_eq!(game_type.id, "g");
    assert_eq!(game_type.name, "Relay");
    assert_eq!(game_type.description, "Teams in turn");
    assert_eq!(game_type.created_at, "now");
    assert_eq!(game_type.clone(), game_type);
    let scenario = Scenario::new(
        "s".to_string(),
        "g".to_string(),
        "Dawn".to_string(),
        "First light".to_string(),
        "Easy".to_string(),
        20,
        "now".to_string(),
        None,
    );
    assert_eq!(scenario.id, "s");
    assert_eq!(scenario.game_type_id, "g");
    assert_eq!(scenario.title, "Dawn");
    assert_eq!(scenario.description, "First light");
    assert_eq!(scenario.difficulty, "Easy");
    assert_eq!(scenario.duration_minutes, 20);
    assert_eq!(scenario.created_at, "now");
    assert_eq!(scenario.image_url, None);
    assert_eq!(scenario.clone(), scenario);
}
