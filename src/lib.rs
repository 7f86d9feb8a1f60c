//! Host side of a script-plugin pipeline: the artifact paths that each build
//! stage produces, the command lines of the compile and link stages, and the
//! fail-fast sequence of stages from the argument check to the foreign call.
//! The effects themselves (running processes, touching the file system,
//! loading the plugin and calling into it) are performed by the caller, which
//! reports each outcome back as an event.
pub mod artifacts;
pub mod commands;
pub mod pipeline;
