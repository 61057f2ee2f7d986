//! Amico: the verified core of an AI agent framework. It holds the agent's
//! events and interactions, its namespaced key-value storage, the decisions
//! of its completion services, its model and plugin data, its providers and
//! its wallet.

use vstd::prelude::*;

pub mod action_selector;
pub mod agent_event;
pub mod chat;
pub mod control;
pub mod interaction;
pub mod json;
pub mod keymap;
pub mod models;
pub mod plugin;
pub mod providers;
pub mod retry_service;
pub mod service;
pub mod storage;
pub mod wallet;
pub mod web3;

verus! {
} // verus!
