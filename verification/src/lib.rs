//! Core of an agent-orchestration runtime: a layered configuration store, a
//! rule-driven hook engine, a task-set scheduler, a context compactor, and
//! durable to-do and session records.
//!
//! Everything here is pure logic over plain values. Work that needs the
//! outside world (processes, files, model calls) is described by request
//! values that a host performs and answers with reply values.

pub mod builtin;
mod clock;
pub mod compact;
pub mod config;
pub mod hooks;
pub mod json;
pub mod layers;
pub mod matchers;
pub mod mcp;
pub mod paths;
pub mod runner;
pub mod runner_laws;
pub mod scheduler;
pub mod scheduler_laws;
pub mod session;
pub mod slash;
pub mod strmap;
pub mod subagent;
pub mod taskset;
pub mod text;
pub mod todo;

pub use compact::{AutoCompactStage, Compactor};
pub use config::{Config, ModelRole, ModelTarget, Scope};
pub use hooks::{HookContext, HookDecision, HookEvent, HookRegistry};
pub use layers::ConfigManager;
pub use session::{SessionEvent, SessionLogWriter};
pub use slash::SlashRegistry;
pub use taskset::{TaskSetPlan, TaskSetSpec, TaskSpec, TaskStatus, TaskStep};
pub use todo::{TodoItem, TodoStatus, TodoStore};
