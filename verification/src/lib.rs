//! Taurus: the verified core of a local-first chat client that plans web
//! research for a language model, reads public web pages safely, and talks to
//! an Ollama server.

pub mod text;
pub mod providers;
pub mod error;
pub mod json;
pub mod urls;
pub mod http;
pub mod tools;
pub mod agent;
pub mod research;
pub mod chat;
