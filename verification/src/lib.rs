//! A sanity-gated narrative engine.
//!
//! A story is a catalog of named scenes. Each scene offers several candidate
//! descriptions and several options; which of them the player sees depends on
//! one number, the player's sanity, kept between 0 and 100.
//!
//! - [`scene`] holds the data model, [`catalog`] the scenes found by name.
//! - [`describe`] picks the description to show, [`options`] the options on
//!   offer.
//! - [`transition`] plays one turn on a [`state`].
//! - [`input`] says what a typed line means, [`render`] and [`text`] write
//!   what the player reads.
//! - [`session`] ties them into a story played line by line.

pub mod catalog;
pub mod describe;
pub mod input;
pub mod options;
pub mod render;
pub mod scene;
pub mod session;
pub mod state;
pub mod text;
pub mod transition;
