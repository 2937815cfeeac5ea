//! Tool-approval and execution-gating logic for a personal assistant that
//! lets a language model run side-effecting tools on a user's behalf.
//!
//! Before a tool call runs it passes the safety filter, then the stored
//! permission rules, then, where no rule matches, an approver. This library
//! holds the decisions of that pipeline and of the loop around it; reading
//! the network, the database and the clock is left to its callers, who hand
//! in what they read as plain values.
//!
//! Every string is modelled by its view, a `Seq<char>`; the contracts of the
//! functions here are stated over those sequences.
//!
//! - `pattern`, `pattern_proofs`: permission rules and what holds of them
//! - `rules`: the store of permission rules, and the lookup of the first
//!   rule that matches a command
//! - `tool`, `web`, `dispatch`: the safety filter, the tools' inputs and the
//!   texts they report
//! - `approver`: the table of waiting approval requests and the answers to
//!   them
//! - `agent`: what a tool call has to pass, and the loop of one turn
//! - `message`, `provider`, `telegram`, `error`: the values exchanged with
//!   the model and the chat service
//! - `text`: helpers on characters

pub mod agent;
pub mod approver;
pub mod dispatch;
pub mod error;
pub mod message;
pub mod pattern;
pub mod pattern_proofs;
pub mod provider;
pub mod rules;
pub mod telegram;
pub mod text;
pub mod tool;
pub mod web;
