//! The dispatcher of the image service: hands each command on to the orchestrator.
use crate::image::{Command, OrchestratorCommand};
use vstd::prelude::*;

verus! {

/// The dispatcher of the image service.
pub struct ImageServiceDispatcher;

impl ImageServiceDispatcher {
    /// What the orchestrator is asked for a command.
    pub fn handle_command(cmd: Command) -> (r: OrchestratorCommand)
        ensures
            r == match cmd {
                Command::PullImage(req) => OrchestratorCommand::PullImage {
                    image_ref: req.image_ref,
                },
                Command::ListImages => OrchestratorCommand::ListImages,
                Command::DeleteImage(req) => OrchestratorCommand::DeleteImage {
                    image_uuid: req.image_uuid,
                },
                Command::WatchImageStatus(req) => OrchestratorCommand::WatchImageStatus {
                    image_uuid: req.image_uuid,
                },
            },
    {
        match cmd {
            Command::PullImage(req) => OrchestratorCommand::PullImage { image_ref: req.image_ref },
            Command::ListImages => OrchestratorCommand::ListImages,
            Command::DeleteImage(req) => OrchestratorCommand::DeleteImage {
                image_uuid: req.image_uuid,
            },
            Command::WatchImageStatus(req) => OrchestratorCommand::WatchImageStatus {
                image_uuid: req.image_uuid,
            },
        }
    }
}

} // verus!
