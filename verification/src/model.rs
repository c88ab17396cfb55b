//! The two kinds of row the catalogue holds, and their mathematical views.

use vstd::prelude::*;

verus! {

/// A category of activity on offer.
#[derive(Debug, PartialEq, Eq)]
pub struct GameType {
    pub id: String,
    pub name: String,
    pub description: String,
    pub created_at: String,
}

/// What a `GameType` holds, as plain sequences of characters.
pub ghost struct GameTypeView {
    pub id: Seq<char>,
    pub name: Seq<char>,
    pub description: Seq<char>,
    pub created_at: Seq<char>,
}

impl View for GameType {
    type V = GameTypeView;

    open spec fn view(&self) -> GameTypeView {
        GameTypeView {
            id: self.id@,
            name: self.name@,
            description: self.description@,
            created_at: self.created_at@,
        }
    }
}

impl Clone for GameType {
    fn clone(&self) -> (copy: Self)
        ensures
            copy == *self,
    {
        GameType {
            id: self.id.clone(),
            name: self.name.clone(),
            description: self.description.clone(),
            created_at: self.created_at.clone(),
        }
    }
}

impl GameType {
    /// A game type from its four columns, in the order of the table.
    pub fn new(id: String, name: String, description: String, created_at: String) -> (row: Self)
        ensures
            row == (GameType { id, name, description, created_at }),
    {
        GameType { id, name, description, created_at }
    }
}

/// The text an optional string holds, if any.
pub open spec fn text_of(value: Option<String>) -> Option<Seq<char>> {
    match value {
        Some(text) => Some(text@),
        None => None,
    }
}

/// A playable mission; it belongs to the game type that `game_type_id` names.
#[derive(Debug, PartialEq, Eq)]
pub struct Scenario {
    pub id: String,
    pub game_type_id: String,
    pub title: String,
    pub description: String,
    pub difficulty: String,
    pub duration_minutes: i32,
    pub created_at: String,
    pub image_url: Option<String>,
}

/// What a `Scenario` holds, as plain values.
pub ghost struct ScenarioView {
    pub id: Seq<char>,
    pub game_type_id: Seq<char>,
    pub title: Seq<char>,
    pub description: Seq<char>,
    pub difficulty: Seq<char>,
    pub duration_minutes: int,
    pub created_at: Seq<char>,
    pub image_url: Option<Seq<char>>,
}

impl View for Scenario {
    type V = ScenarioView;

    open spec fn view(&self) -> ScenarioView {
        ScenarioView {
            id: self.id@,
            game_type_id: self.game_type_id@,
            title: self.title@,
            description: self.description@,
            difficulty: self.difficulty@,
            duration_minutes: self.duration_minutes as int,
            created_at: self.created_at@,
            image_url: text_of(self.image_url),
        }
    }
}

impl Clone for Scenario {
    fn clone(&self) -> (copy: Self)
        ensures
            copy == *self,
    {
        Scenario {
            id: self.id.clone(),
            game_type_id: self.game_type_id.clone(),
            title: self.title.clone(),
            description: self.description.clone(),
            difficulty: self.difficulty.clone(),
            duration_minutes: self.duration_minutes,
            created_at: self.created_at.clone(),
            image_url: match &self.image_url {
                Some(url) => Some(url.clone()),
                None => None,
            },
        }
    }
}

impl Scenario {
    /// A scenario from its eight columns, in the order of the table.
    pub fn new(
        id: String,
        game_type_id: String,
        title: String,
        description: String,
        difficulty: String,
        duration_minutes: i32,
        created_at: String,
        image_url: Option<String>,
    ) -> (row: Self)
        ensures
            row == (Scenario {
                id,
                game_type_id,
                title,
                description,
                difficulty,
                duration_minutes,
                created_at,
                image_url,
            }),
    {
        Scenario {
            id,
            game_type_id,
            title,
            description,
            difficulty,
            duration_minutes,
            created_at,
            image_url,
        }
    }
}

/// The game type with these four columns.
pub open spec fn game_type_row(
    id: Seq<char>,
    name: Seq<char>,
    description: Seq<char>,
    created_at: Seq<char>,
) -> GameTypeView {
    GameTypeView { id, name, description, created_at }
}

/// The scenario with these eight columns.
pub open spec fn scenario_row(
    id: Seq<char>,
    game_type_id: Seq<char>,
    title: Seq<char>,
    description: Seq<char>,
    difficulty: Seq<char>,
    duration_minutes: int,
    created_at: Seq<char>,
    image_url: Option<Seq<char>>,
) -> ScenarioView {
    ScenarioView {
        id,
        game_type_id,
        title,
        description,
        difficulty,
        duration_minutes,
        created_at,
        image_url,
    }
}

/// The views of a sequence of game types, row by row.
pub open spec fn game_type_views(rows: Seq<GameType>) -> Seq<GameTypeView> {
    rows.map_values(|row: GameType| row@)
}

/// The views of a sequence of scenarios, row by row.
pub open spec fn scenario_views(rows: Seq<Scenario>) -> Seq<ScenarioView> {
    rows.map_values(|row: Scenario| row@)
}

} // verus!
