//! Orchestration core for recursive language-model workflows: bounded
//! iteration, context folding, depth control, agent selection, scheduling
//! and batch aggregation, each stated as a contract over plain values.

pub mod agent;
pub mod agent_selector;
pub mod answer_buffer;
pub mod batch_executor;
pub mod batch_scheduler;
pub mod builder;
pub mod clock;
pub mod code_block_parser;
pub mod config;
pub mod context;
pub mod context_fold;
pub mod conversation;
pub mod conversation_manager;
pub mod core_config;
pub mod depth_controller;
pub mod device_health;
pub mod environment;
pub mod environment_tips;
pub mod error;
pub mod execution;
pub mod executor;
pub mod exo_cluster_manager;
pub mod repl_executor;
pub mod rlm_protocol;
pub mod smart_scheduler;
pub mod string_map;
pub mod text;
pub mod time;
