//! Replay-side data the recorder exchanges with the surrounding
//! application, and the small pure rules of tech-skill detection that are
//! applied to decoded frame states.
//!
//! Parsing the binary replay format itself is an external collaborator's
//! work; this module only holds what crosses the boundary as plain
//! values.

use vstd::prelude::*;

verus! {

/// Metadata extracted from a replay file.
#[derive(Debug, Clone)]
pub struct SlippiMetadata {
    /// Character ids for each player.
    pub characters: Vec<u8>,
    /// Stage id.
    pub stage: u16,
    /// Player information.
    pub players: Vec<PlayerInfo>,
    /// Game duration in frames.
    pub game_duration: i32,
    /// Start time, ISO 8601.
    pub start_time: String,
    /// Whether the game is the PAL version.
    pub is_pal: bool,
    /// Winner port (0-indexed), if determinable.
    pub winner_port: Option<u8>,
    /// Platform the game was played on.
    pub played_on: Option<String>,
    /// Total number of frames.
    pub total_frames: i32,
}

/// Information about one player in a game.
#[derive(Debug, Clone)]
pub struct PlayerInfo {
    /// Character id.
    pub character_id: u8,
    /// Character colour index.
    pub character_color: u8,
    /// Player tag.
    pub player_tag: String,
    /// Controller port (0-indexed).
    pub port: u8,
    /// Stocks taken from the opponent, when known.
    pub kill_count: Option<i32>,
}

/// A recording session that links a video file to its replay.
#[derive(Debug, Clone)]
pub struct RecordingSession {
    pub id: String,
    pub start_time: String,
    pub end_time: Option<String>,
    pub slp_path: String,
    pub video_path: Option<String>,
    pub thumbnail_path: Option<String>,
    pub duration: Option<u64>,
    pub file_size: Option<u64>,
    pub slippi_metadata: Option<SlippiMetadata>,
}

/// Tech-skill counters for one player over one game.
#[derive(Debug, Clone)]
pub struct TechStats {
    pub l_cancel_hit: i32,
    pub l_cancel_missed: i32,
    pub successful_techs: i32,
    pub missed_techs: i32,
    pub wavedash_count: i32,
    pub dashdance_count: i32,
}

impl Default for TechStats {
    /// All counters start at zero.
    fn default() -> (r: Self)
        ensures
            r.l_cancel_hit == 0 && r.l_cancel_missed == 0 && r.successful_techs == 0
                && r.missed_techs == 0 && r.wavedash_count == 0 && r.dashdance_count == 0,
    {
        TechStats {
            l_cancel_hit: 0,
            l_cancel_missed: 0,
            successful_techs: 0,
            missed_techs: 0,
            wavedash_count: 0,
            dashdance_count: 0,
        }
    }
}

/// Duration in whole seconds of a frame count at 60 frames per second;
/// negative counts yield zero.
pub open spec fn spec_frames_to_seconds(frames: int) -> int {
    if frames < 0 {
        0
    } else {
        frames / 60
    }
}

/// Duration in whole seconds of a frame count at 60 frames per second.
pub fn frames_to_seconds(frames: i32) -> (r: u64)
    ensures
        r == spec_frames_to_seconds(frames as int),
{
    if frames < 0 {
        0
    } else {
        (frames / 60) as u64
    }
}

/// The action states in which a character is in hitstun: damage, tumble,
/// shield-damage and grabbed states.
pub open spec fn spec_is_hitstun_state(state: u16) -> bool {
    ||| 26 <= state <= 30
    ||| 35 <= state <= 39
    ||| 75 <= state <= 79
    ||| 91 <= state <= 93
}

/// Whether a character in this action state is in hitstun.
pub fn is_hitstun_state(state: u16) -> (r: bool)
    ensures
        r == spec_is_hitstun_state(state),
{
    (26 <= state && state <= 30) || (35 <= state && state <= 39) || (75 <= state && state <= 79)
        || (91 <= state && state <= 93)
}

/// The neutral action states: standing, walking, dashing, running and
/// landing.
pub open spec fn spec_is_neutral_state(state: u16) -> bool {
    ||| state <= 6
    ||| 10 <= state <= 21
    ||| 24 <= state <= 28
}

/// Whether a character in this action state is in neutral.
pub fn is_neutral_state(state: u16) -> (r: bool)
    ensures
        r == spec_is_neutral_state(state),
{
    state <= 6 || (10 <= state && state <= 21) || (24 <= state && state <= 28)
}

/// The action states of a successful tech: tech in place, tech rolls and
/// wall techs.
pub open spec fn spec_is_successful_tech(state: u16) -> bool {
    197 <= state <= 201
}

/// The tumble states a missed tech is entered from.
pub open spec fn spec_is_tumble(state: u16) -> bool {
    26 <= state <= 30
}

/// A successful tech is counted on entering a tech state from a non-tech
/// state.
pub open spec fn spec_counts_successful_tech(current: u16, prev: Option<u16>) -> bool {
    prev matches Some(p) && spec_is_successful_tech(current) && !spec_is_successful_tech(p)
}

/// A missed tech is counted on entering the lying-down state from a
/// tumble state.
pub open spec fn spec_counts_missed_tech(current: u16, prev: Option<u16>) -> bool {
    prev matches Some(p) && current == 183 && p != 183 && spec_is_tumble(p)
}

/// Counts techs: entering a tech state from outside counts a successful
/// tech, entering the lying-down state from tumble counts a missed one.
/// No other counter changes.
pub fn detect_tech(current_state: u16, prev_state: Option<u16>, stats: &mut TechStats)
    requires
        old(stats).successful_techs < i32::MAX,
        old(stats).missed_techs < i32::MAX,
    ensures
        final(stats).successful_techs == old(stats).successful_techs + (
        if spec_counts_successful_tech(current_state, prev_state) {
            1int
        } else {
            0int
        }),
        final(stats).missed_techs == old(stats).missed_techs + (
        if spec_counts_missed_tech(current_state, prev_state) {
            1int
        } else {
            0int
        }),
        final(stats).l_cancel_hit == old(stats).l_cancel_hit,
        final(stats).l_cancel_missed == old(stats).l_cancel_missed,
        final(stats).wavedash_count == old(stats).wavedash_count,
        final(stats).dashdance_count == old(stats).dashdance_count,
{
    match prev_state {
        None => {},
        Some(prev) => {
            let current_is_tech = 197 <= current_state && current_state <= 201;
            let prev_is_tech = 197 <= prev && prev <= 201;
            if current_is_tech && !prev_is_tech {
                stats.successful_techs = stats.successful_techs + 1;
            }
            if current_state == 183 && prev != 183 {
                if 26 <= prev && prev <= 30 {
                    stats.missed_techs = stats.missed_techs + 1;
                }
            }
        },
    }
}

} // verus!
