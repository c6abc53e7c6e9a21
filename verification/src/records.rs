//! The rows and summaries the recorder's surrounding application
//! exchanges with its persistent cache and statistics store. Storage
//! itself is an external collaborator; these types are its interface
//! boundary, carried as plain values.

use vstd::prelude::*;

verus! {

/// A crop region in pixels: left and top offsets plus size.
#[derive(Debug, Clone)]
pub struct CropRegion {
    pub x: u32,
    pub y: u32,
    pub width: u32,
    pub height: u32,
}

/// A core recording row of the recordings cache.
#[derive(Debug, Clone)]
pub struct RecordingRow {
    pub id: String,
    pub video_path: String,
    pub slp_path: Option<String>,
    pub file_size: Option<i64>,
    pub file_modified_at: Option<String>,
    pub thumbnail_path: Option<String>,
    pub start_time: Option<String>,
    pub cached_at: String,
    pub needs_reparse: bool,
}

/// A game-stats row of the stats store.
#[derive(Debug, Clone)]
pub struct GameStatsRow {
    pub id: String,
    pub player1_id: Option<String>,
    pub player2_id: Option<String>,
    pub player1_port: Option<i32>,
    pub player2_port: Option<i32>,
    pub player1_character: Option<i32>,
    pub player2_character: Option<i32>,
    pub player1_color: Option<i32>,
    pub player2_color: Option<i32>,
    pub winner_port: Option<i32>,
    pub loser_port: Option<i32>,
    pub stage: Option<i32>,
    pub game_duration: Option<i32>,
    pub total_frames: Option<i32>,
    pub is_pal: Option<bool>,
    pub played_on: Option<String>,
}

/// A recording joined with its game stats, for paginated queries.
#[derive(Debug, Clone)]
pub struct RecordingWithStats {
    pub recording: RecordingRow,
    pub stats: Option<GameStatsRow>,
}

/// Filter options for aggregated stats queries.
#[derive(Debug, Clone)]
pub struct StatsFilter {
    /// Opponent character id: what was played against.
    pub opponent_character_id: Option<i32>,
    /// Own character id: what was played as.
    pub player_character_id: Option<i32>,
    /// Stage id.
    pub stage_id: Option<i32>,
    /// Only games after this time, ISO 8601.
    pub start_time: Option<String>,
    /// Only games before this time, ISO 8601.
    pub end_time: Option<String>,
}

impl Default for StatsFilter {
    /// The empty filter keeps every game.
    fn default() -> (r: Self)
        ensures
            r.opponent_character_id is None,
            r.player_character_id is None,
            r.stage_id is None,
            r.start_time is None,
            r.end_time is None,
    {
        StatsFilter {
            opponent_character_id: None,
            player_character_id: None,
            stage_id: None,
            start_time: None,
            end_time: None,
        }
    }
}

/// Games and wins against one character.
#[derive(Debug, Clone)]
pub struct CharacterWinRate {
    pub character_id: i32,
    pub games: i64,
    pub wins: i64,
}

/// Games and wins on one stage.
#[derive(Debug, Clone)]
pub struct StageWinRate {
    pub stage_id: i32,
    pub games: i64,
    pub wins: i64,
}

/// The outcome of syncing stats to the cloud.
#[derive(Debug, Clone)]
pub struct SyncResult {
    pub synced_count: i32,
    pub failed_count: i32,
}

/// The slim recording-session summary handed to the user interface.
#[derive(Debug, Clone)]
pub struct RecordingSession {
    pub id: String,
    pub start_time: String,
    pub end_time: Option<String>,
    pub slp_path: String,
    pub video_path: Option<String>,
    pub duration: Option<u64>,
}

} // verus!
