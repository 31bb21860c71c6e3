//! Verified core of an e-mail automation agent: rule conditions, prompt
//! assembly, decision extraction, job-queue policies and API request logic.

pub mod api;
pub mod json;
pub mod llm;
pub mod messages;
pub mod migrations;
pub mod pubsub;
pub mod pubsub_listener;
pub mod queue;
pub mod rules;
pub mod text;
pub mod worker;
