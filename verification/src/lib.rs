//! A personal media archive: the records a user keeps of films, series and
//! readable works, and the mappings between a record, its flat wire shape and
//! its stored row.

pub mod anilist;
pub mod api_types;
pub mod cells;
pub mod database;
pub mod ident;
pub mod input;
pub mod mangadex;
pub mod menu;
pub mod mime;
pub mod models;
pub mod openlibrary;
pub mod progress;
pub mod score;
pub mod search;
pub mod status;
pub mod storage;
pub mod tags;
pub mod text;
pub mod tmdb;
