//! Verified core of a guided installer that prepares a Windows-compatible
//! runtime environment ("bottle") for a game: it locates the host
//! compatibility layer, resolves the target environment, fetches a fixed
//! set of remote assets, unpacks them, copies them into place, and patches
//! two configuration files.
//!
//! The library holds the orchestration logic: how user input is parsed,
//! which paths are read and written, which assets are fetched, in what
//! order the stages run, and when the run stops cleanly or aborts. All
//! input, network and filesystem work is performed by the caller, which
//! drives [`workflow::step`] with the outcome of each requested action.

pub mod manifest;
pub mod patcher;
pub mod pathstr;
pub mod resolver;
pub mod text;
pub mod workflow;
