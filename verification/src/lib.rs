//! Core of a terminal reader for a ranked feed of posts and their
//! discussion threads.
//!
//! The verified core covers: the circular selection state used to track the
//! current item ([`selection::SelectionList`]), the order-preserving
//! assembly of concurrently fetched items ([`fetch`]), the event queue that
//! merges keyboard input with periodic ticks ([`events`]), the controller
//! state machine that interprets events ([`controller`]), and the display
//! pipeline of a comment body around the external sanitizer
//! ([`comment_text`]). Terminal rendering, the HTTP transport and URL
//! opening are left to the surrounding binary, which hands this library
//! plain values.

pub mod comment_text;
pub mod controller;
pub mod errors;
pub mod events;
pub mod fetch;
pub mod items;
pub mod selection;
