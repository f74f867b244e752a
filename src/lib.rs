//! Backend core of an anime watch-progress tracker: OAuth token handling,
//! list-update requests and playback detection from the process table.

pub mod anilist;
pub mod assoc;
pub mod detector;
pub mod lists;
pub mod myanimelist;
pub mod oauth;
pub mod observer;
pub mod parser;
pub mod pkce;
pub mod player;
pub mod processes;
pub mod secure_store;
pub mod text;
pub mod token_manager;
pub mod updates;
