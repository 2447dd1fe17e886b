//! Profile-scoped launcher for an editor process: path resolution, child
//! environment and argument composition, and the restart supervisor.

pub mod paths;
pub mod profile;
pub mod timestamp;
pub mod compose;
pub mod supervisor;
pub mod defaults;
