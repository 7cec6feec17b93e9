//! An agent that drives a language model through a bounded tool-calling loop.

pub mod agent;
pub mod config;
pub mod error;
pub mod json;
pub mod llm;
pub mod message;
pub mod tools;
