//! The stages of the pipeline and what they share.

pub mod ai_connector;
pub mod data_ingestor;
pub mod dev_tracker;
pub mod envelope;
pub mod executor;
pub mod hft_engine;
pub mod meteora_damm;
pub mod multi_wallet_config;
pub mod multi_wallet_executor;
pub mod persistence;
pub mod pipeline;
pub mod risk;
pub mod soul_meteor;
pub mod strategy;
pub mod strategy_runtime;
pub mod wallet_manager;
