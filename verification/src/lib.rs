//! A project-scaffolding library.
//!
//! Given a human-readable display name, the library derives a
//! filesystem-safe slug, plans the materialization of a new project tree
//! from a cloned template (directory creation, generated source file,
//! asset relocation, build-descriptor rewrites, placeholder pruning), and
//! states exactly which filesystem operation follows each observed
//! outcome.  All filesystem and process work itself is left to the caller,
//! which performs each requested `Action` and reports an `Event` back.

pub mod chars;
pub mod descriptor;
pub mod pipeline;
pub mod scaffold;
pub mod slug;
