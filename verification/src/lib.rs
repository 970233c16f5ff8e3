//! FeOS service logic: the decisions, parsers, state machines and renderings
//! behind the VM, container, task, image and host services and their command
//! line client.
pub mod cli;
pub mod clock;
pub mod container;
pub mod digest;
pub mod host;
pub mod hostinfo;
pub mod ids;
pub mod image;
pub mod network;
pub mod numbers;
pub mod rpc;
pub mod server;
pub mod shared_laws;
pub mod table;
pub mod task;
pub mod text;
pub mod text_laws;
pub mod vm;
