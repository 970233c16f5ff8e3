//! The commands on images.
use crate::cli;
use crate::image::{
    DeleteImageRequest, ImageInfo, ImageState, PullImageRequest, WatchImageStatusRequest,
};
use crate::text;
use vstd::prelude::*;

verus! {

/// What is asked of the image service, and where it listens.
#[derive(Debug)]
pub struct ImageArgs {
    pub socket: String,
    pub command: ImageCommand,
}

/// What can be asked of the image service.
#[derive(Debug)]
pub enum ImageCommand {
    /// Pull a container image from a registry.
    Pull { image_ref: String },
    /// List all local container images.
    List,
    /// Watch the status of an image pull operation.
    Watch { image_uuid: String },
    /// Delete a local container image.
    Delete { image_uuid: String },
}

/// A request to the image service.
#[derive(Debug)]
pub enum ImageCall {
    Pull(PullImageRequest),
    List,
    Watch(WatchImageStatusRequest),
    Delete(DeleteImageRequest),
}

/// What a command first says, if anything, and what it then asks for.
pub fn handle_image_command(command: ImageCommand) -> (r: (Option<String>, ImageCall))
    ensures
        match command {
            ImageCommand::Pull { image_ref } => {
                &&& r.0 matches Some(line) && line@ == "Requesting image pull for: "@ + image_ref@
                    + "..."@
                &&& r.1 matches ImageCall::Pull(request) && request.image_ref == image_ref
            },
            ImageCommand::List => r.0 is None && r.1 == ImageCall::List,
            ImageCommand::Watch { image_uuid } => {
                &&& r.0 matches Some(line) && line@ == "Watching status for image: "@ + image_uuid@
                    + ". Press Ctrl+C to stop."@
                &&& r.1 matches ImageCall::Watch(request) && request.image_uuid == image_uuid
            },
            ImageCommand::Delete { image_uuid } => {
                &&& r.0 is None
                &&& r.1 matches ImageCall::Delete(request) && request.image_uuid == image_uuid
            },
        },
{
    match command {
        ImageCommand::Pull { image_ref } => (
            Some(text::cat3("Requesting image pull for: ", image_ref.as_str(), "...")),
            ImageCall::Pull(PullImageRequest { image_ref }),
        ),
        ImageCommand::List => (None, ImageCall::List),
        ImageCommand::Watch { image_uuid } => (
            Some(
                text::cat3(
                    "Watching status for image: ",
                    image_uuid.as_str(),
                    ". Press Ctrl+C to stop.",
                ),
            ),
            ImageCall::Watch(WatchImageStatusRequest { image_uuid }),
        ),
        ImageCommand::Delete { image_uuid } => (
            None,
            ImageCall::Delete(DeleteImageRequest { image_uuid }),
        ),
    }
}

/// What is shown of an image that is being pulled.
pub fn pull_image(image_uuid: &str) -> (r: Vec<String>)
    ensures
        text::views(r@) == seq![
            "Image pull initiated. UUID: "@ + image_uuid@,
            "Use 'feos-cli image watch "@ + image_uuid@ + "' to see progress."@,
        ],
{
    vec![
        text::cat2("Image pull initiated. UUID: ", image_uuid),
        text::cat3("Use 'feos-cli image watch ", image_uuid, "' to see progress."),
    ]
}

/// What is shown of an image that was removed.
pub fn delete_image(image_uuid: &str) -> (r: String)
    ensures
        r@ == "Successfully deleted image: "@ + image_uuid@,
{
    text::cat2("Successfully deleted image: ", image_uuid)
}

/// A row of the table of images.
pub open spec fn image_row(uuid: Seq<char>, state: Seq<char>, reference: Seq<char>) -> Seq<char> {
    text::padded_right(uuid, 38, ' ') + " "@ + text::padded_right(state, 12, ' ') + " "@
        + reference
}

/// What is shown of all images.
pub open spec fn list_lines(images: Seq<ImageInfo>) -> Seq<Seq<char>> {
    if images.len() == 0 {
        seq!["No local images found."@]
    } else {
        seq![image_row("UUID"@, "STATE"@, "REFERENCE"@), cli::rule(38, 12, 40)]
            + images.map_values(
            |image: ImageInfo| image_row(image.image_uuid@, image.state.label(), image.image_ref@),
        )
    }
}

fn write_row(uuid: &str, state: &str, reference: &str) -> (r: String)
    ensures
        r@ == image_row(uuid@, state@, reference@),
{
    text::cat5(
        text::pad_right(uuid, 38, ' ').as_str(),
        " ",
        text::pad_right(state, 12, ' ').as_str(),
        " ",
        reference,
    )
}

/// What is shown of all images.
pub fn list_images(images: &Vec<ImageInfo>) -> (r: Vec<String>)
    ensures
        text::views(r@) == list_lines(images@),
{
    if images.len() == 0 {
        let r = vec!["No local images found.".to_owned()];
        assert(text::views(r@) =~= list_lines(images@));
        return r;
    }
    let mut lines: Vec<String> = vec![
        write_row("UUID", "STATE", "REFERENCE"),
        cli::write_rule(38, 12, 40),
    ];
    let mut i: usize = 0;
    while i < images.len()
        invariant
            i <= images@.len(),
            images@.len() > 0,
            lines@.len() == i + 2,
            forall|j: int| 0 <= j < i + 2 ==> (#[trigger] lines@[j])@ == list_lines(images@)[j],
        decreases images@.len() - i,
    {
        let image = &images[i];
        lines.push(
            write_row(image.image_uuid.as_str(), image.state.name(), image.image_ref.as_str()),
        );
        i += 1;
    }
    assert(text::views(lines@) =~= list_lines(images@));
    lines
}

/// How far the pull of an image has come.
#[derive(Debug)]
pub struct ImageStatus {
    pub state: ImageState,
    pub progress_percent: u32,
    pub message: String,
}

/// What to do while an image is watched.
#[derive(Debug)]
pub enum WatchStep {
    /// Show lines, and wait for the next status.
    Show(Vec<String>),
    /// Show lines; the watch is over.
    ShowLast(Vec<String>),
    /// Show an error; the watch is over.
    Fail(String),
    /// The watch is over.
    End,
}

/// The line on a status.
pub open spec fn status_line(status: ImageStatus) -> Seq<char> {
    "Status: "@ + text::padded_right(status.state.label(), 12, ' ') + " | Progress: "@
        + text::padded_left(text::dec(status.progress_percent as nat), 3, ' ') + "% | Message: "@
        + status.message@
}

/// What to do with the next status of a watched image: the watch is over once the
/// image is ready or its pull has failed.
pub fn watch_image(next: Option<Result<ImageStatus, String>>) -> (step: WatchStep)
    ensures
        match next {
            None => step is End,
            Some(Err(e)) => step matches WatchStep::Fail(line) && line@
                == "\nError in watch stream: "@ + e@,
            Some(Ok(status)) => if status.state == ImageState::Ready || status.state
                == ImageState::PullFailed {
                step matches WatchStep::ShowLast(lines) && text::views(lines@) == seq![
                    status_line(status),
                    "Terminal state reached. Exiting watch."@,
                ]
            } else {
                step matches WatchStep::Show(lines) && text::views(lines@) == seq![
                    status_line(status),
                ]
            },
        },
{
    match next {
        None => WatchStep::End,
        Some(Err(e)) => WatchStep::Fail(text::cat2("\nError in watch stream: ", e.as_str())),
        Some(Ok(status)) => {
            let state = text::pad_right(status.state.name(), 12, ' ');
            let percent = text::pad_left(
                text::to_dec(status.progress_percent as u64).as_str(),
                3,
                ' ',
            );
            let head = text::cat4("Status: ", state.as_str(), " | Progress: ", percent.as_str());
            let line = text::cat3(head.as_str(), "% | Message: ", status.message.as_str());
            assert(line@ =~= status_line(status));
            match status.state {
                ImageState::Ready | ImageState::PullFailed => {
                    let lines = vec![line, "Terminal state reached. Exiting watch.".to_owned()];
                    assert(text::views(lines@) =~= seq![
                        status_line(status),
                        "Terminal state reached. Exiting watch."@,
                    ]);
                    WatchStep::ShowLast(lines)
                },
                _ => {
                    let lines = vec![line];
                    assert(text::views(lines@) =~= seq![status_line(status)]);
                    WatchStep::Show(lines)
                },
            }
        },
    }
}

} // verus!
