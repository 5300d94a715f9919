//! A stream-processing engine core: SQL field resolution, pipeline options,
//! an event queue for worker coordination, query subtasks, task graphs and
//! the task executor's decisions, each with a verified contract.

pub mod error;
pub mod event;
pub mod executor;
pub mod field;
pub mod option;
pub mod pipeline;
pub mod query;
pub mod repositories;
pub mod row;
pub mod subscribers;
pub mod task;
pub mod task_id;
pub mod window_param;
pub mod worker;
