//! A minimal proof-of-work ledger: blocks mined against a difficulty target,
//! chains that are checked link by link, a longest-valid-chain fork choice and
//! the message-driven node that keeps a chain in step with its peers.

pub mod digest;
pub mod block;
pub mod clock;
pub mod tetherion;
pub mod fork_choice;
pub mod command;
pub mod node;
