//! The `nova` command of the ZoKrates command line: how the command is
//! declared to the argument parser, and how a parsed invocation is routed to
//! the `setup` or `prove` step.

pub mod clap_items;
pub mod nova;
