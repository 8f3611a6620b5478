//! The records that the service sends and receives.
use std::collections::BTreeMap;
use vstd::prelude::*;

verus! {

/// The service's structured error envelope, `{code, message}`.
#[derive(Clone, Debug, PartialEq, Eq)]
pub struct ResponseCode {
    pub code: i32,
    pub message: String,
}

/// A platform that Rocket League supports.
#[derive(Clone, Debug, PartialEq, Eq)]
pub struct Platform {
    /// Known ids: 1 is Steam, 2 is PS4, 3 is Xbox One.
    pub id: i32,
    pub name: String,
}

/// A Rocket League season.
#[derive(Clone, Debug, PartialEq, Eq)]
pub struct Season {
    /// 1, 2, 3, 4 and onwards.
    pub season_id: i64,
    /// A unix timestamp.
    pub started_on: i64,
    /// A unix timestamp; `None` while the season is still running.
    pub ended_on: Option<i64>,
}

/// Population of a `Playlist`.
#[derive(Clone, Debug, PartialEq, Eq)]
pub struct Population {
    /// Number of players currently playing the playlist.
    pub players: i32,
    /// A unix timestamp.
    pub updated_at: i64,
}

/// A Rocket League playlist.
#[derive(Clone, Debug, PartialEq, Eq)]
pub struct Playlist {
    pub id: i32,
    /// The id of a `Platform`.
    pub platform_id: i32,
    pub name: String,
    pub population: Population,
}

/// A ranked tier; ids increase with every tier and sub-tier, and id 0 is
/// "Unranked".
#[derive(Clone, Debug, PartialEq, Eq)]
pub struct Tier {
    pub id: i32,
    pub name: String,
}

/// Career stats of a player.
#[derive(Clone, Debug, PartialEq, Eq)]
pub struct Stats {
    pub wins: i32,
    pub goals: i32,
    pub mvps: i32,
    pub saves: i32,
    pub shots: i32,
    pub assists: i32,
}

/// A player's standing in one playlist of one season.
#[derive(Clone, Debug, PartialEq, Eq)]
pub struct RankedData {
    pub rank_points: Option<i32>,
    pub matches_played: Option<i32>,
    pub tier: Option<i32>,
    pub division: Option<i32>,
}

/// A Rocket League player.
///
/// The service only knows players who have scored at least one goal.
#[derive(Clone, Debug, PartialEq, Eq)]
pub struct Player {
    /// Steam 64 ID, PSN user name or Xbox XUID.
    pub unique_id: String,
    pub display_name: String,
    pub platform: Platform,
    pub avatar: Option<String>,
    pub profile_url: String,
    pub signature_url: String,
    pub stats: Stats,
    /// Season id, then playlist id, to the standing held there.
    pub ranked_seasons: BTreeMap<String, BTreeMap<String, RankedData>>,
    /// A unix timestamp.
    pub last_requested: i64,
    /// A unix timestamp.
    pub created_at: i64,
    /// A unix timestamp.
    pub updated_at: i64,
    /// A unix timestamp.
    pub next_update_at: i64,
}

/// One page of a player search.
#[derive(Clone, Debug, PartialEq, Eq)]
pub struct SearchResponse {
    /// `None` where the service did not echo the page.
    pub page: Option<i32>,
    pub results: i32,
    /// The total number of players that match the search.
    pub total_results: i32,
    pub max_results_per_page: i32,
    pub data: Vec<Player>,
}

/// A player to look up in a batch request.
#[derive(Clone, Debug, PartialEq, Eq)]
pub struct BatchPlayer {
    pub id: String,
    pub platform_id: i32,
}

} // verus!
