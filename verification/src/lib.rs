//! Decision logic of a Discord bot that starts and watches one Minecraft
//! server, hosted on Aternos or behind a Pterodactyl panel.
//!
//! Every rule, parser, message and state machine of the bot lives here. The
//! program around the library performs the network, browser, file and Discord
//! work that the machines ask for and hands the outcomes back.

pub mod text;
pub mod provider;
pub mod terminal;
pub mod outside;
pub mod pterodactyl;
pub mod config;
pub mod environment;
pub mod json;
pub mod aternos;
pub mod minecraft;
pub mod run_history;
pub mod auth;
pub mod startup;
pub mod state;
pub mod server_service;
