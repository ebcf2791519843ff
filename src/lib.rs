//! A terminal task list: tasks, their stored form, the screen layout and the
//! key-driven state machine that ties them together.
pub mod controller;
pub mod json_value;
pub mod store;
pub mod task;
pub mod terminal;
