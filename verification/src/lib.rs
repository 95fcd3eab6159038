//! Request handling for a service that turns the textual notation of a
//! mahjong hand into a PNG image.

pub mod collaborators;
pub mod errors;
pub mod logging;
pub mod query;
pub mod render_hand;
pub mod response;
pub mod text;
pub mod tile_set;
