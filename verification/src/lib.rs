//! Keeps a chat community's tier roles in step with each tracked player's
//! competitive rank.
//!
//! A trigger, a command or a change of presence, is handled by a [`flow`]:
//! it asks for one thing at a time and decides from the answer what comes
//! next. The answers of the ranking service are read in [`lol`], the tracked
//! players are kept in a [`store`], and [`roles`] plans which roles a member
//! loses and gains; [`sync`] carries such a plan out call by call. The
//! library itself reaches no network: whoever runs a flow makes the calls.

pub mod command;
pub mod error;
pub mod flow;
pub mod flow_laws;
pub mod json;
pub mod lol;
pub mod outcome;
pub mod roles;
pub mod store;
pub mod sync;
pub mod text;
pub mod tier;

pub use roles::{clear_current_role, reconcile, update_role};
