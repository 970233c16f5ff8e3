//! The commands on containers.
use crate::cli;
use crate::container::{
    ContainerConfig, ContainerInfo, CreateContainerRequest, CreateContainerResponse,
    DeleteContainerRequest, GetContainerRequest, StartContainerRequest, StopContainerRequest,
};
use crate::table::TextMap;
use crate::text;
use vstd::prelude::*;

verus! {

/// What is asked of the container service, and where it listens.
#[derive(Debug)]
pub struct ContainerArgs {
    pub address: String,
    pub command: ContainerCommand,
}

/// What can be asked of the container service.
#[derive(Debug)]
pub enum ContainerCommand {
    /// Create a new container.
    Create {
        image_ref: String,
        id: Option<String>,
        cmd: Vec<String>,
        env: Vec<(String, String)>,
    },
    /// Start a created container.
    Start { id: String },
    /// Stop a running container.
    Stop { id: String },
    /// Get detailed information about a container.
    Info { id: String },
    /// List all containers.
    List,
    /// Delete a container.
    Delete { id: String },
}

/// A request to the container service.
#[derive(Debug)]
pub enum ContainerCall {
    Create(CreateContainerRequest),
    Start(StartContainerRequest),
    Stop(StopContainerRequest),
    Get(GetContainerRequest),
    List,
    Delete(DeleteContainerRequest),
}

/// Reads a variable of the environment: its name, the first equals sign, and its
/// value.
pub fn parse_key_val(s: &str) -> (r: Result<(String, String), String>)
    ensures
        match text::split_at_first(s@, '=') {
            Some((key, value)) => r matches Ok(pair) && pair.0@ == key && pair.1@ == value,
            None => r matches Err(e) && e@ == "invalid KEY=value format: "@ + s@,
        },
{
    match text::split_once(s, '=') {
        Some(pair) => Ok(pair),
        None => Err(text::cat2("invalid KEY=value format: ", s)),
    }
}

/// The values of variables by name; of two values of one name the later counts.
pub open spec fn env_of(pairs: Seq<(String, String)>) -> Map<Seq<char>, String>
    decreases pairs.len(),
{
    if pairs.len() == 0 {
        Map::empty()
    } else {
        env_of(pairs.drop_last()).insert(pairs.last().0@, pairs.last().1)
    }
}

/// Whether entries are those of a table, each name once.
pub open spec fn entries_of(v: Seq<(String, String)>, table: Map<Seq<char>, String>) -> bool {
    &&& forall|key: Seq<char>|
        table.dom().contains(key) ==> exists|i: int| 0 <= i < v.len() && (#[trigger] v[i]).0@ == key
    &&& forall|i: int, j: int|
        0 <= i < j < v.len() ==> (#[trigger] v[i]).0@ != (#[trigger] v[j]).0@
    &&& forall|i: int|
        0 <= i < v.len() ==> table.dom().contains((#[trigger] v[i]).0@) && table[v[i].0@] == v[i].1
}

fn collect_env(pairs: Vec<(String, String)>) -> (r: Vec<(String, String)>)
    ensures
        entries_of(r@, env_of(pairs@)),
{
    let ghost all = pairs@;
    let mut rest = pairs;
    let mut table: TextMap<String> = TextMap::new();
    assert(all.take(0) =~= Seq::<(String, String)>::empty());
    assert(all.skip(0) =~= all);
    while rest.len() > 0
        invariant
            table.wf(),
            rest@.len() <= all.len(),
            rest@ == all.skip(all.len() - rest@.len()),
            table@ == env_of(all.take(all.len() - rest@.len())),
        decreases rest@.len(),
    {
        let ghost k = all.len() - rest@.len();
        let ghost done = all.take(k + 1);
        assert(done.drop_last() =~= all.take(k));
        assert(done.last() == rest@[0]);
        let pair = rest.remove(0);
        table.insert(pair.0, pair.1);
        assert(rest@ =~= all.skip(k + 1));
    }
    assert(all.take(all.len() as int) =~= all);
    table.into_entries()
}

/// Asks for a container, and says so.
pub fn create_container(
    image_ref: String,
    id: Option<String>,
    cmd: Vec<String>,
    env: Vec<(String, String)>,
) -> (r: (String, CreateContainerRequest))
    ensures
        r.0@ == "Requesting container creation with image: "@ + image_ref@ + "..."@,
        r.1.container_id == id,
        r.1.config matches Some(config) && config.image_ref == image_ref && config.command == cmd
            && entries_of(config.env@, env_of(env@)),
{
    let line = text::cat3("Requesting container creation with image: ", image_ref.as_str(), "...");
    let config = ContainerConfig { image_ref, command: cmd, env: collect_env(env) };
    (line, CreateContainerRequest { config: Some(config), container_id: id })
}

/// Asks for a container to be started, and says so.
pub fn start_container(id: &str) -> (r: (String, StartContainerRequest))
    ensures
        r.0@ == "Requesting to start container: "@ + id@ + "..."@,
        r.1.container_id@ == id@,
{
    (
        text::cat3("Requesting to start container: ", id, "..."),
        StartContainerRequest { container_id: id.to_owned() },
    )
}

/// Asks for a container to be stopped in the usual way, and says so.
pub fn stop_container(id: &str) -> (r: (String, StopContainerRequest))
    ensures
        r.0@ == "Requesting to stop container: "@ + id@ + "..."@,
        r.1.container_id@ == id@,
        r.1.signal is None,
        r.1.timeout_seconds is None,
{
    (
        text::cat3("Requesting to stop container: ", id, "..."),
        StopContainerRequest { container_id: id.to_owned(), signal: None, timeout_seconds: None },
    )
}

/// Asks for a container to be removed, and says so.
pub fn delete_container(id: &str) -> (r: (String, DeleteContainerRequest))
    ensures
        r.0@ == "Requesting to delete container: "@ + id@ + "..."@,
        r.1.container_id@ == id@,
{
    (
        text::cat3("Requesting to delete container: ", id, "..."),
        DeleteContainerRequest { container_id: id.to_owned() },
    )
}

/// Whether this is what a command first says, if anything, and what it then asks for.
pub open spec fn command_asks(
    command: ContainerCommand,
    line: Option<String>,
    call: ContainerCall,
) -> bool {
    match command {
        ContainerCommand::Create { image_ref, id, cmd, env } => {
            &&& line matches Some(l) && l@ == "Requesting container creation with image: "@
                + image_ref@ + "..."@
            &&& call matches ContainerCall::Create(request) && request.container_id == id && (
            request.config matches Some(config) && config.image_ref == image_ref && config.command
                == cmd && entries_of(config.env@, env_of(env@)))
        },
        ContainerCommand::Start { id } => {
            &&& line matches Some(l) && l@ == "Requesting to start container: "@ + id@ + "..."@
            &&& call matches ContainerCall::Start(request) && request.container_id@ == id@
        },
        ContainerCommand::Stop { id } => {
            &&& line matches Some(l) && l@ == "Requesting to stop container: "@ + id@ + "..."@
            &&& call matches ContainerCall::Stop(request) && request.container_id@ == id@
                && request.signal is None && request.timeout_seconds is None
        },
        ContainerCommand::Info { id } => {
            &&& line is None
            &&& call matches ContainerCall::Get(request) && request.container_id@ == id@
        },
        ContainerCommand::List => line is None && call == ContainerCall::List,
        ContainerCommand::Delete { id } => {
            &&& line matches Some(l) && l@ == "Requesting to delete container: "@ + id@ + "..."@
            &&& call matches ContainerCall::Delete(request) && request.container_id@ == id@
        },
    }
}

/// What a command first says, if anything, and what it then asks for.
pub fn handle_container_command(command: ContainerCommand) -> (r: (Option<String>, ContainerCall))
    ensures
        command_asks(command, r.0, r.1),
{
    match command {
        ContainerCommand::Create { image_ref, id, cmd, env } => {
            let (line, request) = create_container(image_ref, id, cmd, env);
            (Some(line), ContainerCall::Create(request))
        },
        ContainerCommand::Start { id } => {
            let (line, request) = start_container(id.as_str());
            (Some(line), ContainerCall::Start(request))
        },
        ContainerCommand::Stop { id } => {
            let (line, request) = stop_container(id.as_str());
            (Some(line), ContainerCall::Stop(request))
        },
        ContainerCommand::Info { id } => (
            None,
            ContainerCall::Get(GetContainerRequest { container_id: id }),
        ),
        ContainerCommand::List => (None, ContainerCall::List),
        ContainerCommand::Delete { id } => {
            let (line, request) = delete_container(id.as_str());
            (Some(line), ContainerCall::Delete(request))
        },
    }
}

/// What is shown of a container that is being created.
pub fn container_created(response: &CreateContainerResponse) -> (r: Vec<String>)
    ensures
        text::views(r@) == seq![
            "Container creation initiated. Container ID: "@ + response.container_id@,
            "Use 'feos-cli container list' to check its status and 'feos-cli container start "@
                + response.container_id@ + "' to run it."@,
        ],
{
    let id = response.container_id.as_str();
    vec![
        text::cat2("Container creation initiated. Container ID: ", id),
        text::cat3(
            "Use 'feos-cli container list' to check its status and 'feos-cli container start ",
            id,
            "' to run it.",
        ),
    ]
}

/// What is shown of a container that was asked to start.
pub fn container_started(id: &str) -> (r: String)
    ensures
        r@ == "Start request sent for container: "@ + id@,
{
    text::cat2("Start request sent for container: ", id)
}

/// What is shown of a container that was asked to stop.
pub fn container_stopped(id: &str) -> (r: String)
    ensures
        r@ == "Stop request sent for container: "@ + id@,
{
    text::cat2("Stop request sent for container: ", id)
}

/// What is shown of a container that was removed.
pub fn container_deleted(id: &str) -> (r: String)
    ensures
        r@ == "Successfully deleted container: "@ + id@,
{
    text::cat2("Successfully deleted container: ", id)
}

/// Texts in quotes, in brackets.
pub open spec fn command_text(command: Seq<String>) -> Seq<char> {
    "["@ + text::listed(command.map_values(|s: String| text::quoted(s@))) + "]"@
}

/// Variables and their values in quotes, in braces.
pub open spec fn env_text(env: Seq<(String, String)>) -> Seq<char> {
    "{"@ + text::listed(
        env.map_values(
            |pair: (String, String)| text::quoted(pair.0@) + ": "@ + text::quoted(pair.1@),
        ),
    ) + "}"@
}

fn show_command(command: &Vec<String>) -> (r: String)
    ensures
        r@ == command_text(command@),
{
    let mut items: Vec<String> = Vec::new();
    let ghost all = command@.map_values(|s: String| text::quoted(s@));
    let mut i: usize = 0;
    while i < command.len()
        invariant
            i <= command@.len(),
            all == command@.map_values(|s: String| text::quoted(s@)),
            items@.len() == i,
            forall|j: int| 0 <= j < i ==> (#[trigger] items@[j])@ == all[j],
        decreases command@.len() - i,
    {
        items.push(text::quote(command[i].as_str()));
        i += 1;
    }
    assert(text::views(items@) =~= all);
    let inner = text::list(&items);
    text::cat3("[", inner.as_str(), "]")
}

fn show_env(env: &Vec<(String, String)>) -> (r: String)
    ensures
        r@ == env_text(env@),
{
    let mut items: Vec<String> = Vec::new();
    let ghost all = env@.map_values(
        |pair: (String, String)| text::quoted(pair.0@) + ": "@ + text::quoted(pair.1@),
    );
    let mut i: usize = 0;
    while i < env.len()
        invariant
            i <= env@.len(),
            all == env@.map_values(
                |pair: (String, String)| text::quoted(pair.0@) + ": "@ + text::quoted(pair.1@),
            ),
            items@.len() == i,
            forall|j: int| 0 <= j < i ==> (#[trigger] items@[j])@ == all[j],
        decreases env@.len() - i,
    {
        let key = text::quote(env[i].0.as_str());
        let value = text::quote(env[i].1.as_str());
        items.push(text::cat3(key.as_str(), ": ", value.as_str()));
        i += 1;
    }
    assert(text::views(items@) =~= all);
    let inner = text::list(&items);
    text::cat3("{", inner.as_str(), "}")
}

/// The line on the process of a container, if it has one.
pub open spec fn pid_lines(pid: Option<i64>) -> Seq<Seq<char>> {
    match pid {
        Some(pid) => seq!["  PID: "@ + text::dec_int(pid as int)],
        None => Seq::empty(),
    }
}

/// The line on the exit code of a container, if it has one.
pub open spec fn exit_lines(exit_code: Option<i32>) -> Seq<Seq<char>> {
    match exit_code {
        Some(exit_code) => seq!["  Exit Code: "@ + text::dec_int(exit_code as int)],
        None => Seq::empty(),
    }
}

/// The lines on what a container is made of. A command and variables are shown where
/// there are any.
pub open spec fn config_lines(config: Option<ContainerConfig>) -> Seq<Seq<char>> {
    match config {
        Some(config) => seq!["  Config:"@, "    Image Ref: "@ + config.image_ref@] + (
        if config.command@.len() > 0 {
            seq!["    Command: "@ + command_text(config.command@)]
        } else {
            Seq::empty()
        }) + (if config.env@.len() > 0 {
            seq!["    Env: "@ + env_text(config.env@)]
        } else {
            Seq::empty()
        }),
        None => Seq::empty(),
    }
}

/// What is shown of a container.
pub open spec fn info_lines(id: Seq<char>, info: ContainerInfo) -> Seq<Seq<char>> {
    seq!["Container Info for: "@ + id, "  State: "@ + info.state.label()] + pid_lines(info.pid)
        + exit_lines(info.exit_code) + config_lines(info.config)
}

/// What is shown of a container.
pub fn get_container_info(id: &str, info: &ContainerInfo) -> (r: Vec<String>)
    ensures
        text::views(r@) == info_lines(id@, *info),
{
    let mut lines: Vec<String> = vec![
        text::cat2("Container Info for: ", id),
        text::cat2("  State: ", info.state.name()),
    ];
    let ghost mut shown = seq![
        "Container Info for: "@ + id@,
        "  State: "@ + info.state.label(),
    ];
    assert(text::views(lines@) =~= shown);
    if let Some(pid) = info.pid {
        lines.push(text::cat2("  PID: ", text::to_dec_int(pid).as_str()));
    }
    proof {
        shown = shown + pid_lines(info.pid);
        assert(text::views(lines@) =~= shown);
    }
    if let Some(exit_code) = info.exit_code {
        lines.push(text::cat2("  Exit Code: ", text::to_dec_int(exit_code as i64).as_str()));
    }
    proof {
        shown = shown + exit_lines(info.exit_code);
        assert(text::views(lines@) =~= shown);
    }
    if let Some(config) = &info.config {
        lines.push("  Config:".to_owned());
        lines.push(text::cat2("    Image Ref: ", config.image_ref.as_str()));
        if config.command.len() > 0 {
            lines.push(text::cat2("    Command: ", show_command(&config.command).as_str()));
        }
        if config.env.len() > 0 {
            lines.push(text::cat2("    Env: ", show_env(&config.env).as_str()));
        }
    }
    assert(text::views(lines@) =~= shown + config_lines(info.config));
    lines
}

/// A row of the table of containers.
pub open spec fn container_row(id: Seq<char>, state: Seq<char>, image_ref: Seq<char>) -> Seq<
    char,
> {
    text::padded_right(id, 38, ' ') + " "@ + text::padded_right(state, 15, ' ') + " "@ + image_ref
}

/// The row of a container in the table.
pub open spec fn row_of(info: ContainerInfo) -> Seq<char> {
    container_row(
        info.container_id@,
        info.state.label(),
        match info.config {
            Some(config) => config.image_ref@,
            None => "N/A"@,
        },
    )
}

/// What is shown of all containers.
pub open spec fn list_lines(containers: Seq<ContainerInfo>) -> Seq<Seq<char>> {
    if containers.len() == 0 {
        seq!["No containers found."@]
    } else {
        seq![container_row("CONTAINER_ID"@, "STATE"@, "IMAGE_REF"@), cli::rule(38, 15, 40)]
            + containers.map_values(|info: ContainerInfo| row_of(info))
    }
}

fn write_row(id: &str, state: &str, image_ref: &str) -> (r: String)
    ensures
        r@ == container_row(id@, state@, image_ref@),
{
    text::cat5(
        text::pad_right(id, 38, ' ').as_str(),
        " ",
        text::pad_right(state, 15, ' ').as_str(),
        " ",
        image_ref,
    )
}

/// What is shown of all containers.
pub fn list_containers(containers: &Vec<ContainerInfo>) -> (r: Vec<String>)
    ensures
        text::views(r@) == list_lines(containers@),
{
    if containers.len() == 0 {
        let r = vec!["No containers found.".to_owned()];
        assert(text::views(r@) =~= list_lines(containers@));
        return r;
    }
    let mut lines: Vec<String> = vec![
        write_row("CONTAINER_ID", "STATE", "IMAGE_REF"),
        cli::write_rule(38, 15, 40),
    ];
    let mut i: usize = 0;
    while i < containers.len()
        invariant
            i <= containers@.len(),
            containers@.len() > 0,
            lines@.len() == i + 2,
            forall|j: int| 0 <= j < i + 2 ==> (#[trigger] lines@[j])@ == list_lines(containers@)[j],
        decreases containers@.len() - i,
    {
        let info = &containers[i];
        let row = match &info.config {
            Some(config) => write_row(
                info.container_id.as_str(),
                info.state.name(),
                config.image_ref.as_str(),
            ),
            None => write_row(info.container_id.as_str(), info.state.name(), "N/A"),
        };
        lines.push(row);
        i += 1;
    }
    assert(text::views(lines@) =~= list_lines(containers@));
    lines
}

} // verus!
