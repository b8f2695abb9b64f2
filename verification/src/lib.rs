//! The decisions of a terminal forum client, free of terminal, network and
//! clock: what every key, click, paste and reply does to the screen stack and
//! to the session, and which work it asks the front end for.

pub mod actions;
pub mod app;
pub mod arrivals;
pub mod consent;
pub mod dispatch;
pub mod doing;
pub mod effects;
pub mod errors;
pub mod frame;
pub mod goto;
pub mod input;
pub mod keys;
pub mod laws;
pub mod mirror;
pub mod models;
pub mod msg;
pub mod nodes;
pub mod openers;
pub mod palette;
pub mod paste;
pub mod pointer;
pub mod pointing;
pub mod reading;
pub mod replies;
pub mod root;
pub mod screens;
pub mod search;
pub mod sending;
pub mod session;
pub mod signing;
pub mod stack;
pub mod tasks;
pub mod telling;
pub mod text;
pub mod update;
pub mod url;
pub mod views;
pub mod visiting;
pub mod wording;
pub mod writes;
