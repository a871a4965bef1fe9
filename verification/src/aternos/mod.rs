//! Aternos: its web dashboard, driven through a browser.

pub mod blockers;
pub mod course;
pub mod dashboard;
pub mod errors;
pub mod flow;
pub mod http;
pub mod open;
pub mod pages;
pub mod provider;
pub mod rules;
