//! Core logic of the Fizzy command-line client: the data model, the agent workflow
//! (dependencies, readiness, plans), request construction, text output, and the state
//! machine of the board browser.
pub mod models;
pub mod text;
pub mod agent;
pub mod config;
pub mod project;
pub mod briefing;
pub mod client;
pub mod output;
pub mod styled;
pub mod browser;
pub mod board_ui;
pub mod settings;
pub mod setup;
pub mod requests;
pub mod cli;
