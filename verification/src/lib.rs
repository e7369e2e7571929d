//! A function-as-a-service lifecycle core: deployments are accepted as
//! compile jobs, compiled artifacts are installed into a loader registry,
//! and invocations are dispatched against loaded functions while a status
//! tracker follows every job through a fixed transition graph.

pub mod builder;
pub mod cli;
pub mod compiler;
mod dropdir;
pub mod funck;
pub mod loader;
pub mod manager;
pub mod message;
pub mod response;
pub mod samples;
pub mod status;
pub mod strmap;
pub mod text;

pub use builder::FunckBuilder;
pub use dropdir::DropDir;
pub use funck::{CallError, CallResult, DynFunck, Funcktion, RawFunck, Request, Response};
pub use loader::FunckLoader;
pub use manager::{Config, FunckManager, LoaderError};
pub use message::{ErrorMessage, Message};
pub use status::{FuncktionEntry, Status, StatusTracker};
