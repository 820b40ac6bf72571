//! Verified core of the Zed workspaces dock: the rules that decide how a
//! symlink dock is named, laid out, protected by its marker and rebuilt, and
//! the argument list handed to Zed.
//!
//! - `cli`: the command line as plain values.
//! - `zed`: the arguments that open a workspace in Zed.
//! - `slug`: directory-name slugs of workspace file stems.
//! - `dock`: the dock's name, layout and marker, and the decisions taken
//!   while a dock is built or rebuilt.
//! - `building`: the order of a build as a state machine: inspect, create or
//!   clear, link each folder in order, write the marker last.
//! - `error`: the refusals of the dock rules and their messages.
//! - `hashing`, `paths`, `text`: the outside and std operations these rules
//!   call, with the contracts the proofs rely on.

pub mod building;
pub mod cli;
pub mod dock;
pub mod error;
pub mod hashing;
pub mod paths;
pub mod slug;
pub mod text;
pub mod zed;
