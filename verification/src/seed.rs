//! The built-in rows: the game types and scenarios that a new store starts
//! with. They are written down once, in the two tables below.

use vstd::prelude::*;
use crate::model::{GameTypeView, ScenarioView};

verus! {

/// How many game types are built in.
pub const GAME_TYPE_COUNT: usize = 2;

/// How many scenarios are built in.
pub const SCENARIO_COUNT: usize = 20;

/// The built-in game types: id, name, description.
pub const GAME_TYPE_ROWS: [(&'static str, &'static str, &'static str); 2] = [
    ("1", "Mystery", "Immersive mystery adventures with puzzles and investigations"),
    ("2", "TagQuest", "Action-packed quest missions with tactical challenges"),
];

/// The built-in scenarios: id, game-type id, title, description, difficulty,
/// duration in minutes, image URL.
pub const SCENARIO_ROWS: [(
    &'static str,
    &'static str,
    &'static str,
    &'static str,
    &'static str,
    i32,
    &'static str,
); 20] = [
    (
        "1",
        "1",
        "La Cuisine de Mamie Citrouille",
        "A mysterious adventure in Grandma Pumpkin's enchanted kitchen.",
        "Medium",
        30,
        "https://images.pexels.com/photos/1121123/pexels-photo-1121123.jpeg",
    ),
    (
        "2",
        "1",
        "L'Académie des Sorciers",
        "Enter the magical academy and uncover its secrets.",
        "Medium",
        35,
        "https://images.pexels.com/photos/4473494/pexels-photo-4473494.jpeg",
    ),
    (
        "3",
        "1",
        "Le Portail des Ombres",
        "Navigate through the mysterious shadow portal.",
        "Hard",
        40,
        "https://images.pexels.com/photos/3617500/pexels-photo-3617500.jpeg",
    ),
    (
        "4",
        "1",
        "Bienvenue à Keyhouse",
        "Unlock the secrets of the mysterious Keyhouse mansion.",
        "Hard",
        40,
        "https://images.pexels.com/photos/1643389/pexels-photo-1643389.jpeg",
    ),
    (
        "5",
        "1",
        "L'Odyssée Spatiale",
        "Embark on a thrilling space mystery adventure.",
        "Medium",
        35,
        "https://images.pexels.com/photos/2166711/pexels-photo-2166711.jpeg",
    ),
    (
        "6",
        "1",
        "La Malédiction du Kraken",
        "Solve the curse of the legendary sea monster.",
        "Hard",
        40,
        "https://images.pexels.com/photos/3155726/pexels-photo-3155726.jpeg",
    ),
    (
        "7",
        "1",
        "Les Reliques de Toutankhamon",
        "Discover the ancient Egyptian relics and their mysteries.",
        "Hard",
        45,
        "https://images.pexels.com/photos/7740174/pexels-photo-7740174.jpeg",
    ),
    (
        "8",
        "1",
        "Potion Z",
        "A fun mystery adventure perfect for children to create magical potions.",
        "Easy",
        25,
        "https://images.pexels.com/photos/6646920/pexels-photo-6646920.jpeg",
    ),
    (
        "9",
        "1",
        "Monster Party",
        "Join the monsters for a mysterious party full of surprises.",
        "Easy",
        25,
        "https://images.pexels.com/photos/3297883/pexels-photo-3297883.jpeg",
    ),
    (
        "10",
        "1",
        "Mission Antidote",
        "Race against time to find the cure and save everyone.",
        "Medium",
        30,
        "https://images.pexels.com/photos/3825368/pexels-photo-3825368.jpeg",
    ),
    (
        "11",
        "2",
        "Bonbons en Folie",
        "A sweet adventure quest to collect magical candies.",
        "Easy",
        25,
        "https://images.pexels.com/photos/3081657/pexels-photo-3081657.jpeg",
    ),
    (
        "12",
        "2",
        "Monstropolis",
        "Navigate through the monster city on an epic quest.",
        "Medium",
        30,
        "https://images.pexels.com/photos/2291790/pexels-photo-2291790.jpeg",
    ),
    (
        "13",
        "2",
        "Les Aventuriers de l'Arche Sacrée",
        "Search for the legendary sacred ark in this action quest.",
        "Hard",
        40,
        "https://images.pexels.com/photos/1770809/pexels-photo-1770809.jpeg",
    ),
    (
        "14",
        "2",
        "Alchimiste: La Quête de l'Élixir",
        "Become an alchemist and quest for the legendary elixir.",
        "Medium",
        35,
        "https://images.pexels.com/photos/4021871/pexels-photo-4021871.jpeg",
    ),
    (
        "15",
        "2",
        "Le Safari des Animaux",
        "Embark on an exciting animal safari quest adventure.",
        "Easy",
        25,
        "https://images.pexels.com/photos/3551498/pexels-photo-3551498.jpeg",
    ),
    (
        "16",
        "2",
        "Stranger Day",
        "Experience mysterious events in this thrilling quest.",
        "Hard",
        40,
        "https://images.pexels.com/photos/1421903/pexels-photo-1421903.jpeg",
    ),
    (
        "17",
        "2",
        "L'École des Sorciers",
        "Complete magical quests at the wizarding school.",
        "Medium",
        35,
        "https://images.pexels.com/photos/159751/book-address-book-learning-learn-159751.jpeg",
    ),
    (
        "18",
        "2",
        "La Guerre des Trônes",
        "Fight for the throne in this epic medieval quest.",
        "Hard",
        45,
        "https://images.pexels.com/photos/2219118/pexels-photo-2219118.jpeg",
    ),
    (
        "19",
        "2",
        "Zombie Apocalypse",
        "Survive the zombie outbreak in this intense quest for teens and adults.",
        "Hard",
        45,
        "https://images.pexels.com/photos/2291791/pexels-photo-2291791.jpeg",
    ),
    (
        "20",
        "2",
        "Monster Kids Apocalypse",
        "A kid-friendly monster adventure quest.",
        "Medium",
        30,
        "https://images.pexels.com/photos/3297881/pexels-photo-3297881.jpeg",
    ),
];

/// The built-in game type at `index`, created at `created_at`.
pub open spec fn seed_game_type_view(index: int, created_at: Seq<char>) -> GameTypeView {
    let row = GAME_TYPE_ROWS[index];
    GameTypeView { id: row.0@, name: row.1@, description: row.2@, created_at }
}

/// The built-in scenario at `index`, created at `created_at`.
pub open spec fn seed_scenario_view(index: int, created_at: Seq<char>) -> ScenarioView {
    let row = SCENARIO_ROWS[index];
    ScenarioView {
        id: row.0@,
        game_type_id: row.1@,
        title: row.2@,
        description: row.3@,
        difficulty: row.4@,
        duration_minutes: row.5 as int,
        created_at,
        image_url: Some(row.6@),
    }
}

/// `row` is one of the built-in game types.
pub open spec fn is_built_in_game_type(row: (&str, &str, &str)) -> bool {
    exists|index: int| 0 <= index < GAME_TYPE_COUNT && row == #[trigger] GAME_TYPE_ROWS[index]
}

/// `row` is one of the built-in scenarios.
pub open spec fn is_built_in_scenario(row: (&str, &str, &str, &str, &str, i32, &str)) -> bool {
    exists|index: int| 0 <= index < SCENARIO_COUNT && row == #[trigger] SCENARIO_ROWS[index]
}

/// `rows` are the built-in game types in the order of their table, each
/// with a creation time of its own.
pub open spec fn is_game_type_seed(rows: Seq<GameTypeView>) -> bool {
    &&& rows.len() == GAME_TYPE_COUNT
    &&& forall|k: int|
        0 <= k < rows.len() ==> #[trigger] rows[k] == seed_game_type_view(k, rows[k].created_at)
}

/// `rows` are the built-in scenarios in the order of their table, each with
/// a creation time of its own.
pub open spec fn is_scenario_seed(rows: Seq<ScenarioView>) -> bool {
    &&& rows.len() == SCENARIO_COUNT
    &&& forall|k: int|
        0 <= k < rows.len() ==> #[trigger] rows[k] == seed_scenario_view(k, rows[k].created_at)
}

} // verus!
