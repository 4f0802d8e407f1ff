//! Target resolution for the app commands of the `vp` command line, the
//! `vpr` shorthand for `vp run`, and interactive-terminal detection.

pub mod text;
pub mod args;
pub mod order;
pub mod runnable;
pub mod rows;
pub mod output;
pub mod default_package;
pub mod resolve;
pub mod resolver;
pub mod interactivity;
pub mod vpr;
