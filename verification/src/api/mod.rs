//! Request logic of the web API: validation, merging of partial updates,
//! multi-step protocols and the error answers they give.

pub mod actions;
pub mod error;
pub mod rules;
