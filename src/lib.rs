//! A personal task manager's core: tasks with priorities, tags and
//! subtasks, a tag registry, and usage counters kept in step with the store.

pub mod data;
pub mod functions;
pub mod json;
pub mod tags;
pub mod text;
