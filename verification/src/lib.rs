//! Decision logic of a relay that watches chat channels for wallet references
//! and forwards what it finds to a fixed list of recipients.
//!
//! The crate talks to no network and no terminal. The caller connects,
//! prompts, resolves and sends; it feeds the outcomes to the state machines
//! defined here and performs what they answer with. Of the outside world the
//! crate itself reads only the clock, for the capture time of a record.

pub mod auth;
pub mod config;
pub mod dispatch;
pub mod error;
pub mod extract;
pub mod models;
pub mod relay;
pub mod text;
