//! altqnav: a quick-launch core.
//!
//! Given a small registry of monitored desktop applications, the library
//! decides which are running and, on request, either brings a running
//! application's window to the foreground or starts it.  The decision
//! logic (registry parsing, process probing, window selection, the
//! launch-or-focus state machine, and launcher-surface sizing) is verified;
//! the operating-system calls it drives stand behind narrow trusted
//! wrappers or are performed by the embedding program.

pub mod activate;
pub mod applist;
pub mod layout;
pub mod locator;
pub mod loglines;
pub mod orchestrate;
pub mod probe;
pub mod registry;
pub mod text;
