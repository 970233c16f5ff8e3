//! The decisions of the dispatcher on a request for a virtual machine.
use crate::ids;
use crate::rpc::{Code, RpcStatus};
use crate::text;
use crate::vm::persistence::{VmRecord, VmStatus};
use crate::vm::{CreateVmRequest, VmConfig, VmState};
use vstd::prelude::*;

verus! {

/// What came of asking the image service for an image.
pub enum PullOutcome {
    /// The image service could not be reached, and why.
    NotConnected(String),
    /// The image service refused; what its status reads as.
    Failed(String),
    /// The identifier of the image being pulled.
    Started(String),
}

/// How far a request has come, and what the last step gave.
pub enum CreateProgress {
    Received(CreateVmRequest),
    /// What looking up the identifier that was asked for gave.
    LookedUp { vm_id: u128, wanted: Option<VmConfig>, found: Result<Option<VmRecord>, String> },
    /// What the image service made of the image of the configuration.
    Pulled { vm_id: u128, config: VmConfig, outcome: PullOutcome },
    /// Whether the record was stored.
    Saved { record: VmRecord, image_uuid: String, stored: Result<(), String> },
}

/// What to do next for a request.
pub enum CreateStep {
    /// Look the identifier up in the database.
    LookUp { vm_id: u128, wanted: Option<VmConfig> },
    /// Ask the image service to pull the image of the configuration.
    Pull { vm_id: u128, config: VmConfig },
    /// Store the record.
    Save { record: VmRecord, image_uuid: String },
    /// Hand the creation to a worker.
    Work { name: String, config: VmConfig, image_uuid: String },
    /// Answer with an error.
    Refuse(RpcStatus),
}

/// Whether the request for a virtual machine names it.
pub open spec fn names_vm(vm_id: Option<String>) -> bool {
    vm_id matches Some(s) && s@.len() > 0
}

/// Whether the request is refused with this status.
pub open spec fn refuses(step: CreateStep, code: Code, message: Seq<char>) -> bool {
    step matches CreateStep::Refuse(s) && s.says(code, message)
}

/// The identifier that was asked for, given what it was read as.
pub fn accept_vm_id(parsed: Result<u128, String>) -> (r: Result<u128, RpcStatus>)
    ensures
        match parsed {
            Ok(id) => if id != 0 {
                r == Ok::<u128, RpcStatus>(id)
            } else {
                r matches Err(s) && s.says(
                    Code::InvalidArgument,
                    "Provided vm_id cannot be the nil UUID."@,
                )
            },
            Err(_) => r matches Err(s) && s.says(
                Code::InvalidArgument,
                "Provided vm_id is not a valid UUID format."@,
            ),
        },
{
    match parsed {
        Ok(id) => if id != 0 {
            Ok(id)
        } else {
            Err(RpcStatus::new(Code::InvalidArgument, "Provided vm_id cannot be the nil UUID."))
        },
        Err(_) => Err(
            RpcStatus::new(Code::InvalidArgument, "Provided vm_id is not a valid UUID format."),
        ),
    }
}

/// The identifier of a virtual machine to be created, and whether it was asked for.
pub fn choose_vm_id(vm_id: &Option<String>, fresh: u128) -> (r: Result<(u128, bool), RpcStatus>)
    ensures
        if names_vm(*vm_id) {
            match ids::uuid_parsed(vm_id->Some_0@) {
                Ok(id) => if id != 0 {
                    r == Ok::<(u128, bool), RpcStatus>((id, true))
                } else {
                    r matches Err(s) && s.says(
                        Code::InvalidArgument,
                        "Provided vm_id cannot be the nil UUID."@,
                    )
                },
                Err(_) => r matches Err(s) && s.says(
                    Code::InvalidArgument,
                    "Provided vm_id is not a valid UUID format."@,
                ),
            }
        } else {
            r == Ok::<(u128, bool), RpcStatus>((fresh, false))
        },
{
    match vm_id {
        Some(s) => if s.as_str().is_empty() {
            Ok((fresh, false))
        } else {
            match accept_vm_id(ids::id_of(s.as_str())) {
                Ok(id) => Ok((id, true)),
                Err(status) => Err(status),
            }
        },
        None => Ok((fresh, false)),
    }
}

/// The image of a configuration is pulled, if the configuration names one.
pub open spec fn pulls(vm_id: u128, config: Option<VmConfig>, step: CreateStep) -> bool {
    if config matches Some(c) && c.image_ref@.len() > 0 {
        step == (CreateStep::Pull { vm_id, config: config->Some_0 })
    } else {
        refuses(
            step,
            Code::InvalidArgument,
            "VmConfig with a non-empty image_ref is required"@,
        )
    }
}

fn pull(vm_id: u128, config: Option<VmConfig>) -> (step: CreateStep)
    ensures
        pulls(vm_id, config, step),
{
    match config {
        Some(config) => if !config.image_ref.as_str().is_empty() {
            CreateStep::Pull { vm_id, config }
        } else {
            CreateStep::Refuse(
                RpcStatus::new(
                    Code::InvalidArgument,
                    "VmConfig with a non-empty image_ref is required",
                ),
            )
        },
        None => CreateStep::Refuse(
            RpcStatus::new(
                Code::InvalidArgument,
                "VmConfig with a non-empty image_ref is required",
            ),
        ),
    }
}

/// The identifier of the image being pulled, or why there is none.
pub fn initiate_image_pull_for_vm(image_ref: &str, outcome: PullOutcome) -> (r: Result<
    String,
    RpcStatus,
>)
    ensures
        match outcome {
            PullOutcome::NotConnected(e) => r matches Err(s) && s.says(
                Code::Unavailable,
                "Could not connect to ImageService: "@ + e@,
            ),
            PullOutcome::Failed(status) => r matches Err(s) && s.says(
                Code::Unavailable,
                "PullImage RPC failed for "@ + image_ref@ + ": "@ + status@,
            ),
            PullOutcome::Started(id) => r == Ok::<String, RpcStatus>(id),
        },
{
    match outcome {
        PullOutcome::NotConnected(e) => Err(
            RpcStatus {
                code: Code::Unavailable,
                message: text::cat2("Could not connect to ImageService: ", e.as_str()),
            },
        ),
        PullOutcome::Failed(status) => Err(
            RpcStatus {
                code: Code::Unavailable,
                message: text::cat4("PullImage RPC failed for ", image_ref, ": ", status.as_str()),
            },
        ),
        PullOutcome::Started(id) => Ok(id),
    }
}

/// The first step of a request.
pub open spec fn first_step(req: CreateVmRequest, step: CreateStep) -> bool {
    if names_vm(req.vm_id) {
        match ids::uuid_parsed(req.vm_id->Some_0@) {
            Ok(id) => if id != 0 {
                step == (CreateStep::LookUp { vm_id: id, wanted: req.config })
            } else {
                refuses(step, Code::InvalidArgument, "Provided vm_id cannot be the nil UUID."@)
            },
            Err(_) => refuses(
                step,
                Code::InvalidArgument,
                "Provided vm_id is not a valid UUID format."@,
            ),
        }
    } else {
        exists|id: u128| #[trigger] ids::is_random_form(id) && pulls(id, req.config, step)
    }
}

/// The step after the identifier was looked up.
pub open spec fn step_after_lookup(
    vm_id: u128,
    config: Option<VmConfig>,
    found: Result<Option<VmRecord>, String>,
    step: CreateStep,
) -> bool {
    match found {
        Ok(Some(_)) => refuses(
            step,
            Code::AlreadyExists,
            "VM with ID "@ + ids::hyphenated(vm_id) + " already exists."@,
        ),
        Ok(None) => pulls(vm_id, config, step),
        Err(e) => refuses(step, Code::Internal, "Failed to check DB for existing VM: "@ + e@),
    }
}

/// Whether a record is that of a virtual machine whose creation begins.
pub open spec fn begins(
    record: VmRecord,
    vm_id: u128,
    image_uuid: u128,
    config: VmConfig,
) -> bool {
    &&& record.vm_id == vm_id
    &&& record.image_uuid == image_uuid
    &&& record.status.state == VmState::Creating
    &&& record.status.last_msg@ == "VM creation initiated"@
    &&& record.status.process_id is None
    &&& record.config == config
}

/// The step after the image service answered.
pub open spec fn step_after_pull(
    vm_id: u128,
    config: VmConfig,
    outcome: PullOutcome,
    step: CreateStep,
) -> bool {
    match outcome {
        PullOutcome::NotConnected(e) => refuses(
            step,
            Code::Unavailable,
            "Could not connect to ImageService: "@ + e@,
        ),
        PullOutcome::Failed(status) => refuses(
            step,
            Code::Unavailable,
            "PullImage RPC failed for "@ + config.image_ref@ + ": "@ + status@,
        ),
        PullOutcome::Started(image) => match ids::uuid_parsed(image@) {
            Err(why) => refuses(step, Code::Internal, "Failed to parse image UUID: "@ + why),
            Ok(id) => step matches CreateStep::Save { record, image_uuid } && begins(
                record,
                vm_id,
                id,
                config,
            ) && image_uuid == image,
        },
    }
}

/// The step after the record was stored.
pub open spec fn step_after_save(
    record: VmRecord,
    image: String,
    stored: Result<(), String>,
    step: CreateStep,
) -> bool {
    match stored {
        Err(e) => refuses(step, Code::Internal, "Failed to save VM to database: "@ + e@),
        Ok(_) => step matches CreateStep::Work { name, config, image_uuid } && name@
            == ids::hyphenated(record.vm_id) && config == record.config && image_uuid == image,
    }
}

/// The step after an image was named, given what its name was read as.
pub fn begin_record(
    vm_id: u128,
    config: VmConfig,
    image: String,
    parsed: Result<u128, String>,
) -> (step: CreateStep)
    ensures
        match parsed {
            Err(why) => refuses(step, Code::Internal, "Failed to parse image UUID: "@ + why@),
            Ok(id) => step matches CreateStep::Save { record, image_uuid } && begins(
                record,
                vm_id,
                id,
                config,
            ) && image_uuid == image,
        },
{
    match parsed {
        Err(why) => CreateStep::Refuse(
            RpcStatus {
                code: Code::Internal,
                message: text::cat2("Failed to parse image UUID: ", why.as_str()),
            },
        ),
        Ok(image_uuid) => CreateStep::Save {
            record: VmRecord {
                vm_id,
                image_uuid,
                status: VmStatus {
                    state: VmState::Creating,
                    last_msg: "VM creation initiated".to_owned(),
                    process_id: None,
                },
                config,
            },
            image_uuid: image,
        },
    }
}

/// The next step of a request for a virtual machine: an identifier that was asked
/// for must be free, the image is pulled, and the record is stored before a worker
/// takes over.
pub fn handle_create_vm_command(progress: CreateProgress) -> (step: CreateStep)
    ensures
        match progress {
            CreateProgress::Received(req) => first_step(req, step),
            CreateProgress::LookedUp { vm_id, wanted, found } => step_after_lookup(
                vm_id,
                wanted,
                found,
                step,
            ),
            CreateProgress::Pulled { vm_id, config, outcome } => step_after_pull(
                vm_id,
                config,
                outcome,
                step,
            ),
            CreateProgress::Saved { record, image_uuid, stored } => step_after_save(
                record,
                image_uuid,
                stored,
                step,
            ),
        },
{
    match progress {
        CreateProgress::Received(req) => {
            let fresh: u128 = ids::fresh_id();
            match choose_vm_id(&req.vm_id, fresh) {
                Err(s) => CreateStep::Refuse(s),
                Ok((vm_id, asked_for)) => if asked_for {
                    CreateStep::LookUp { vm_id, wanted: req.config }
                } else {
                    pull(vm_id, req.config)
                },
            }
        },
        CreateProgress::LookedUp { vm_id, wanted, found } => match found {
            Ok(Some(_)) => CreateStep::Refuse(
                RpcStatus {
                    code: Code::AlreadyExists,
                    message: text::cat3(
                        "VM with ID ",
                        ids::id_text(vm_id).as_str(),
                        " already exists.",
                    ),
                },
            ),
            Ok(None) => pull(vm_id, wanted),
            Err(e) => CreateStep::Refuse(
                RpcStatus {
                    code: Code::Internal,
                    message: text::cat2("Failed to check DB for existing VM: ", e.as_str()),
                },
            ),
        },
        CreateProgress::Pulled { vm_id, config, outcome } => {
            match initiate_image_pull_for_vm(config.image_ref.as_str(), outcome) {
                Err(s) => CreateStep::Refuse(s),
                Ok(image) => {
                    let parsed = ids::id_of(image.as_str());
                    begin_record(vm_id, config, image, parsed)
                },
            }
        },
        CreateProgress::Saved { record, image_uuid, stored } => match stored {
            Err(e) => CreateStep::Refuse(
                RpcStatus {
                    code: Code::Internal,
                    message: text::cat2("Failed to save VM to database: ", e.as_str()),
                },
            ),
            Ok(_) => CreateStep::Work {
                name: ids::id_text(record.vm_id),
                config: record.config,
                image_uuid,
            },
        },
    }
}

} // verus!
