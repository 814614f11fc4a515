//! Routing logic for a small chat-platform bot.
//!
//! The bot listens for slash-command interactions and reacts to two
//! commands: a help command that messages the invoking user directly, and a
//! color command that recolors a guild member. All platform I/O lives
//! outside this crate; here an inbound interaction is reduced to the plain
//! values the router reads ([`event::InteractionEvent`]), and the router
//! decides which collaborator call and which response the interaction gets
//! ([`event::Outcome`]).

pub mod event;
pub mod handler;
