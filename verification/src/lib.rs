//! Periodic count-query telemetry harvester.
//!
//! Each configured task describes one backend count query; its query document
//! is built once from the task's filters and period, a polling loop feeds the
//! returned counts into a shared counter registry, and the registry renders to
//! a text exposition format on demand.

pub mod configure;
pub mod elastic;
pub mod exposition;
pub mod poll;
pub mod query;
pub mod registry;
pub mod strnum;
