//! The verified core of SafeGuard, a Telegram bot that protects groups and
//! chats with AI models: its rules, routing, texts and stream handling.
use vstd::prelude::*;

pub mod antispam;
pub mod bot;
pub mod client;
pub mod protection;
pub mod replies;
pub mod reports;
pub mod ai;
pub mod store;
pub mod text;

verus! {
} // verus!
