//! The image service: its messages, its dispatcher, and the store that keeps
//! pulled images as files.
use vstd::prelude::*;

pub mod dispatcher;
pub mod error;
pub mod filestore;
pub mod laws;

verus! {

/// Where images are kept.
pub const IMAGE_DIR: &'static str = "/var/lib/feos/images";

/// Where the image service listens.
pub const IMAGE_SERVICE_SOCKET: &'static str = "/var/lib/feos/image_service.sock";

/// How far the pull of an image has come.
#[derive(Clone, Copy, Debug, PartialEq, Eq, Structural)]
pub enum ImageState {
    Unspecified,
    Downloading,
    Ready,
    PullFailed,
}

impl ImageState {
    /// The state's name in messages.
    pub open spec fn label(self) -> Seq<char> {
        match self {
            ImageState::Unspecified => "Unspecified"@,
            ImageState::Downloading => "Downloading"@,
            ImageState::Ready => "Ready"@,
            ImageState::PullFailed => "PullFailed"@,
        }
    }

    /// The state's name in messages.
    pub fn name(self) -> (r: &'static str)
        ensures
            r@ == self.label(),
    {
        match self {
            ImageState::Unspecified => "Unspecified",
            ImageState::Downloading => "Downloading",
            ImageState::Ready => "Ready",
            ImageState::PullFailed => "PullFailed",
        }
    }
}

/// Says that an image changed its state.
#[derive(Debug)]
pub struct ImageStateEvent {
    pub image_uuid: String,
    pub state: ImageState,
    pub message: String,
}

/// What is known of an image.
#[derive(Debug)]
pub struct ImageInfo {
    pub image_uuid: String,
    pub image_ref: String,
    pub state: ImageState,
}

/// Asks for an image to be pulled.
#[derive(Debug)]
pub struct PullImageRequest {
    pub image_ref: String,
}

/// Asks for the states of an image as they change.
#[derive(Debug)]
pub struct WatchImageStatusRequest {
    pub image_uuid: String,
}

/// Asks for an image to be removed.
#[derive(Debug)]
pub struct DeleteImageRequest {
    pub image_uuid: String,
}

/// What the service can be asked for.
#[derive(Debug)]
pub enum Command {
    PullImage(PullImageRequest),
    WatchImageStatus(WatchImageStatusRequest),
    ListImages,
    DeleteImage(DeleteImageRequest),
}

/// One layer of a pulled image.
#[derive(Debug)]
pub struct PulledLayer {
    pub media_type: String,
    pub data: Vec<u8>,
}

/// A pulled image.
#[derive(Debug)]
pub struct PulledImageData {
    pub config: Vec<u8>,
    pub layers: Vec<PulledLayer>,
}

/// What the orchestrator of pulls can be asked for.
#[derive(Debug)]
pub enum OrchestratorCommand {
    PullImage { image_ref: String },
    FinalizePull { image_uuid: String, image_ref: String, image_data: PulledImageData },
    FailPull { image_uuid: String, error: error::ImageServiceError },
    WatchImageStatus { image_uuid: String },
    ListImages,
    DeleteImage { image_uuid: String },
}

/// What the store of images can be asked for.
#[derive(Debug)]
pub enum FileCommand {
    StoreImage { image_uuid: String, image_ref: String, image_data: PulledImageData },
    DeleteImage { image_uuid: String },
    ScanExistingImages,
}

} // verus!
