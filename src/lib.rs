//! A typed client for the RocketLeagueStats web service.
//!
//! The library decides everything that can be decided without touching the
//! network: how each endpoint maps to a request, how the batch body is framed,
//! how the client's default headers are validated, and how a response is
//! resolved into a record or an error by the dual-shape decode protocol.
pub mod client;
pub mod dispatch;
pub mod endpoint;
pub mod error;
pub mod json;
pub mod model;
mod outside;
pub mod text;

pub use client::RlStats;
pub use error::ApiError;
pub use model::{
    BatchPlayer, Platform, Player, Playlist, Population, RankedData, ResponseCode, Season,
    SearchResponse, Stats, Tier,
};
