use vstd::prelude::*;

verus! {

/// A game in the library.
#[derive(Debug)]
pub struct Game {
    pub id: i64,
    pub name: String,
    pub executable: Option<String>,
    pub install_path: Option<String>,
    pub source: String,
}

/// The launch settings of a game: a preset and the power scheme it selects.
#[derive(Debug)]
pub struct Profile {
    pub game_id: i64,
    pub preset: String,
    pub power_scheme: Option<String>,
}

/// A game session as the history shows it.
#[derive(Debug)]
pub struct Session {
    pub id: i64,
    pub game_id: i64,
    pub game_name: String,
    pub profile_preset: String,
    pub started_at: String,
    pub ended_at: Option<String>,
    pub status: String,
    pub restoration_result: Option<String>,
}

/// An unfinished session that has to be recovered before another starts.
#[derive(Debug)]
pub struct Recovery {
    pub session_id: i64,
    pub game_name: String,
    pub previous_scheme: Option<String>,
    pub applied_scheme: Option<String>,
    pub status: String,
}

} // verus!
