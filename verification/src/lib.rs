//! Core of an AI-augmented trading engine: strategies, the risk gate, the
//! wallet registry and router, risk envelopes and the execution rules, all
//! over fixed-point values.

pub mod config;
pub mod fixed;
pub mod lists;
pub mod modules;
pub mod monitoring;
pub mod platform;
pub mod text;
