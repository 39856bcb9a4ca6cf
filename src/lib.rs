//! The routing and conversation-state core of a chat bot that keeps lists of
//! films and series to watch: button payloads, menu captions and commands,
//! the per-conversation state store, the choice of handler for each event,
//! and the navigation of paged search results.

pub mod action;
pub mod catalog;
pub mod credits;
pub mod decimal;
pub mod dispatch;
pub mod films;
pub mod keyboards;
pub mod menu;
pub mod pagination;
pub mod rating;
pub mod series;
pub mod state;
pub mod text;
pub mod watchlist;
