//! Deterministic rules: their stored form, condition trees and rule selection.

pub mod conditions;
pub mod deterministic;
pub mod repositories;
pub mod types;
