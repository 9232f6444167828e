//! Two-way adapter between a basic, context-free logging facade and a
//! structured, context-carrying one.
//!
//! The basic facade knows only a severity level, a call site and a message;
//! the structured facade adds hierarchical loggers, key-value attachments
//! and pluggable output drains.  This crate holds the two translation paths
//! between them:
//!
//! * basic -> structured: a process-wide backend, registered once through
//!   [`init`] or [`init_with_level`], that re-emits every dispatched basic
//!   call as a structured event against the dynamically scoped current
//!   logger;
//! * structured -> basic: the [`StdLog`] drain, which maps the severity
//!   back, resolves a target label, flattens the event's message and
//!   key-value context into one line of text, and re-emits it through the
//!   basic facade.
//!
//! The severity mapping shared by both directions lives in [`levels`]; the
//! `, key: value` flattening serializer lives in [`ksv`].
//!
//! Routing one direction's output into the other's input makes every log
//! call recurse through both adapters until the stack is exhausted; the
//! adapters perform no cycle detection, so keeping the two directions apart
//! is the integrator's responsibility.

pub mod backend;
pub mod drain;
pub mod ksv;
pub mod levels;
pub mod message;
pub mod record;

pub use backend::init;
pub use backend::init_with_level;
pub use drain::StdLog;
