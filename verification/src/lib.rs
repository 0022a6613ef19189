//! Running projects as processes on this machine.

pub mod execute;
pub mod lifecycle;
pub mod orchestration;
pub mod orchestrator;
pub mod ordered;
pub mod probe;
pub mod records;
pub mod runtime;
pub mod runtime_plan;
pub mod schema_parity;
pub mod snapshot;
pub mod starter;
pub mod startup;
pub mod text;
