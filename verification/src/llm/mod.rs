//! Talking to the language model: prompts, replies, decisions and errors.

pub mod decision;
pub mod error;
pub mod mock;
pub mod prompt;
pub mod provider;
pub mod repository;
pub mod types;
