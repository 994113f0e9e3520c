//! The view side of the library: the descriptions of views that the application logic
//! builds, and the decisions that views take when they are rebuilt and when messages
//! reach them (routing by id path, asynchronous tasks, streams, local state).
pub mod common;
pub mod routing;
pub mod margin;
pub mod border;
pub mod text;
pub mod use_state;
pub mod defer;
pub mod events;
