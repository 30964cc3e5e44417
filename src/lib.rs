//! A minimal coding agent: a language model drives local file and shell tools
//! through a turn-taking loop whose decisions are verified here.
pub mod agent;
pub mod client;
pub mod text;
pub mod tools;
