//! A terminal pager's core: the input classifier with its repeat count and
//! navigation history, the queue of loaded documents, and the controller that
//! hands the viewer from one document to the next.

pub mod cli;
pub mod history;
pub mod input;
pub mod navigation;
pub mod prefix;
pub mod queue;
pub mod session;
