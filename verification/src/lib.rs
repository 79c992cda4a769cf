//! A personal task tracker: the task record, its categories, the urgency
//! score, the dates that follow a change of status, and the named filters
//! over the stored tasks.

pub mod error;
pub mod category;
pub mod score;
pub mod date;
pub mod task;
pub mod storage;
pub mod filter;
pub mod select;
pub mod repository;
pub mod forms;
pub mod samples;
pub mod cli;
