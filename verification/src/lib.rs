//! Verified core of a small iOS build orchestrator.
//!
//! The orchestrator scaffolds a new application project, builds it, and
//! deploys it to a device or a simulator, by driving external tools
//! (a project generator, the build driver, the simulator controller, a
//! deployment utility, and version control). Everything those tools do is
//! out of scope here; what this library verifies is the part the
//! orchestrator itself is responsible for: the exact text of the files it
//! scaffolds, the exact argument lists of the commands it runs, and the
//! order in which the steps happen.
//!
//! The library never touches the file system or spawns a process. Each
//! operation is described as a [`plan::Step`], and a whole subcommand as a
//! [`plan::Plan`]; an unverified driver executes the steps in order.

pub mod discover;
pub mod invoke;
pub mod plan;
pub mod templates;
