//! Governed agent-kernel contracts: protocol objects with their validation
//! rules, canonical digests, memory-state transitions and policy checks.

pub mod text;
pub mod primitives;
pub mod event;
pub mod lifecycle;
pub mod control;
pub mod m2_c;
pub mod m3_a;
pub mod tags;
pub mod m3_b;
pub mod m3_c;
pub mod digest;
pub mod canon;
pub mod m4;
pub mod m5;
pub mod v1_closure;
pub mod provider;
pub mod memory;
pub mod models;
pub mod json;
pub mod action;
pub mod policy;
pub mod projection;
pub mod lineage;
pub mod hot_cold;
pub mod strategy_memory;
pub mod registry;
pub mod growth;
pub mod adaptation;
pub mod memory_state;
