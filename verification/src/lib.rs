//! A client core for Hacker News story listings.
//!
//! The crate holds everything such a client decides or computes: which
//! endpoint a listing lives at, how a list of story IDs becomes a deck of
//! cards, what a card shows while its story is in flight, after it arrived
//! and after it failed, and how old a story is in words. It performs no I/O.
//! A shell owns the window and the network: it hands the events it observes
//! to the state machines here and carries out the requests they return.

pub mod age;
pub mod api;
pub mod app;
pub mod card;
pub mod hackernews;
pub mod link;
pub mod story;
pub mod text;
pub mod views;

pub use crate::api::Category;
pub use crate::app::MainApp;
pub use crate::card::Card;
pub use crate::hackernews::{AppConfig, Hackernews};
pub use crate::story::{FetchError, Story};
