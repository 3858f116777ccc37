//! Decision logic of a trail-activity tracker: a beacon poller that keeps a
//! durable on-trail flag, and the client side of a fitness API.
//!
//! Nothing in this crate opens a socket or a file. The caller performs the
//! requests and hands what came back to the functions here, which decide what
//! to do next. The time is an argument wherever a decision depends on it;
//! only the wording of how long ago a moment was asks the clock itself.

pub mod auth;
pub mod beacon;
pub mod beacon_loop;
pub mod cache;
pub mod db_service;
pub mod discord;
pub mod encryption;
pub mod env_utils;
pub mod home_assistant;
pub mod http;
pub mod map_image;
pub mod pagination;
pub mod retry;
pub mod route_handlers;
pub mod strava;
pub mod text;
pub mod trail_data;
pub mod trail_structs;
pub mod utils;
