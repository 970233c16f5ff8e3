//! What holds of the command line client: each command becomes the request that it names, and
//! each answer is shown with what it holds.
use crate::cli::container::{
    self, container_created, container_deleted, container_started, container_stopped,
    create_container, delete_container, get_container_info, handle_container_command,
    list_containers, parse_key_val, start_container, stop_container, ContainerCall,
    ContainerCommand,
};
use crate::cli::host::{
    self, get_cpu_info, get_hostname, get_memory, get_network_info, handle_host_command,
    reboot_host, shutdown_host, stream_klogs, upgrade_feos, HostCall, HostCommand, LogStep,
    UpgradeProgress, UpgradeStep,
};
use crate::cli::image::{
    delete_image, handle_image_command, list_images, pull_image, watch_image, ImageCall,
    ImageCommand, ImageStatus, WatchStep,
};
use crate::cli::kernel_stats::{
    calculate_cpu_usage, can_count, can_count_all, display_cpu_usage, format_boot_time,
    get_kernel_stats, show_statistics, CpuUsage, StatsProgress, StatsStep, UsageReport,
};
use crate::cli::{self, write_rule};
use crate::clock;
use crate::container::{
    ContainerInfo, ContainerState, CreateContainerRequest, CreateContainerResponse,
    DeleteContainerRequest, StartContainerRequest, StopContainerRequest,
};
use crate::digest;
use crate::host::info::{CpuInfo, HostnameResponse, MemInfo, NetDev};
use crate::host::kernel_stats::{CpuTime, KernelStats};
use crate::host::upload::UploadMessage;
use crate::image::{ImageInfo, ImageState};
use crate::text;
use crate::text_laws;
use vstd::prelude::*;

verus! {

/// A variable is what stands before the first equals sign, and its value is all that stands
/// behind it; without one it is an error.
pub proof fn variables_are_split_at_the_first_sign(
    name: Seq<char>,
    value: Seq<char>,
    s: &str,
    r: Result<(String, String), String>,
    plain: &str,
    refused: Result<(String, String), String>,
)
    requires
        forall|i: int| 0 <= i < name.len() ==> #[trigger] name[i] != '=',
        s@ == name + seq!['='] + value,
        call_ensures(parse_key_val, (s,), r),
        forall|i: int| 0 <= i < plain@.len() ==> #[trigger] plain@[i] != '=',
        call_ensures(parse_key_val, (plain,), refused),
    ensures
        r matches Ok(pair) && pair.0@ == name && pair.1@ == value,
        refused matches Err(m) && m@ == "invalid KEY=value format: "@ + plain@,
{
    text_laws::lemma_split_is(name, '=', value);
    text_laws::lemma_no_split(plain@, '=');
}

/// The place of the last pair of a name.
pub open spec fn is_last(pairs: Seq<(String, String)>, i: int) -> bool {
    &&& 0 <= i < pairs.len()
    &&& forall|j: int| i < j < pairs.len() ==> (#[trigger] pairs[j]).0@ != pairs[i].0@
}

proof fn lemma_env(pairs: Seq<(String, String)>, i: int)
    requires
        is_last(pairs, i),
    ensures
        container::env_of(pairs).dom().contains(pairs[i].0@),
        container::env_of(pairs)[pairs[i].0@] == pairs[i].1,
    decreases pairs.len(),
{
    let init = pairs.drop_last();
    if i < pairs.len() - 1 {
        assert(init[i] == pairs[i]);
        assert forall|j: int| i < j < init.len() implies (#[trigger] init[j]).0@ != init[i].0@ by {
            assert(init[j] == pairs[j]);
        }
        lemma_env(init, i);
        assert(pairs[pairs.len() - 1].0@ != pairs[i].0@);
    }
}

proof fn lemma_env_asked(pairs: Seq<(String, String)>, key: Seq<char>) -> (i: int)
    requires
        container::env_of(pairs).dom().contains(key),
    ensures
        is_last(pairs, i),
        pairs[i].0@ == key,
    decreases pairs.len(),
{
    let init = pairs.drop_last();
    if pairs.last().0@ == key {
        pairs.len() - 1
    } else {
        let i = lemma_env_asked(init, key);
        assert(pairs[i] == init[i]);
        assert forall|j: int| i < j < pairs.len() implies (#[trigger] pairs[j]).0@
            != pairs[i].0@ by {
            if j < init.len() {
                assert(init[j] == pairs[j]);
            }
        }
        i
    }
}

/// A container is asked for with the image, the name and the command that were given. Each
/// variable is asked for once, with the last value that was given for it, and no other is.
pub proof fn creation_asks_for_what_was_given(
    image_ref: String,
    id: Option<String>,
    cmd: Vec<String>,
    env: Vec<(String, String)>,
    r: (String, CreateContainerRequest),
)
    requires
        call_ensures(create_container, (image_ref, id, cmd, env), r),
    ensures
        r.0@ == "Requesting container creation with image: "@ + image_ref@ + "..."@,
        r.1.container_id == id,
        r.1.config matches Some(config) && config.image_ref@ == image_ref@ && config.command@
            == cmd@ && is_environment(config.env@, env@),
{
    let asked = r.1.config->Some_0.env@;
    lemma_is_environment(asked, env@);
}

/// Whether an environment is the one that was given: each name once, with the last value that
/// was given for it.
pub open spec fn is_environment(env: Seq<(String, String)>, given: Seq<(String, String)>) -> bool {
    &&& forall|i: int|
        is_last(given, i) ==> exists|k: int|
            0 <= k < env.len() && (#[trigger] env[k]).0@ == (#[trigger] given[i]).0@ && env[k].1
                == given[i].1
    &&& forall|k: int|
        0 <= k < env.len() ==> exists|i: int|
            is_last(given, i) && (#[trigger] given[i]).0@ == (#[trigger] env[k]).0@ && given[i].1
                == env[k].1
    &&& forall|j: int, k: int|
        0 <= j < k < env.len() ==> (#[trigger] env[j]).0@ != (#[trigger] env[k]).0@
}

proof fn lemma_is_environment(env: Seq<(String, String)>, given: Seq<(String, String)>)
    requires
        container::entries_of(env, container::env_of(given)),
    ensures
        is_environment(env, given),
{
    let table = container::env_of(given);
    assert forall|i: int| is_last(given, i) implies exists|k: int|
        0 <= k < env.len() && (#[trigger] env[k]).0@ == (#[trigger] given[i]).0@ && env[k].1
            == given[i].1 by {
        lemma_env(given, i);
        let key = given[i].0@;
        assert(table.dom().contains(key));
        let k = choose|k: int| 0 <= k < env.len() && (#[trigger] env[k]).0@ == key;
        assert(table[env[k].0@] == env[k].1);
    }
    assert forall|k: int| 0 <= k < env.len() implies exists|i: int|
        is_last(given, i) && (#[trigger] given[i]).0@ == (#[trigger] env[k]).0@ && given[i].1
            == env[k].1 by {
        let i = lemma_env_asked(given, env[k].0@);
        lemma_env(given, i);
        assert(given[i].0@ == env[k].0@);
    }
}

/// Commands on a container name the container that was given, and a stop is asked for in the
/// usual way.
pub proof fn container_requests_name_the_container(
    id: &str,
    start: (String, StartContainerRequest),
    stop: (String, StopContainerRequest),
    delete: (String, DeleteContainerRequest),
)
    requires
        call_ensures(start_container, (id,), start),
        call_ensures(stop_container, (id,), stop),
        call_ensures(delete_container, (id,), delete),
    ensures
        start.1.container_id@ == id@,
        stop.1.container_id@ == id@,
        stop.1.signal is None,
        stop.1.timeout_seconds is None,
        delete.1.container_id@ == id@,
        start.0@ == "Requesting to start container: "@ + id@ + "..."@,
        stop.0@ == "Requesting to stop container: "@ + id@ + "..."@,
        delete.0@ == "Requesting to delete container: "@ + id@ + "..."@,
{
}

/// Each command on containers becomes the request that it is named after, for the container
/// that was given.
pub proof fn container_commands_become_requests(
    command: ContainerCommand,
    r: (Option<String>, ContainerCall),
)
    requires
        call_ensures(handle_container_command, (command,), r),
    ensures
        match command {
            ContainerCommand::Create { image_ref, id, cmd, env } => r.1 matches ContainerCall::Create(
                request,
            ) && request.container_id == id && (request.config matches Some(config)
                && config.image_ref@ == image_ref@ && config.command@ == cmd@ && is_environment(
                config.env@,
                env@,
            )),
            ContainerCommand::Start { id } => r.1 matches ContainerCall::Start(request)
                && request.container_id@ == id@,
            ContainerCommand::Stop { id } => r.1 matches ContainerCall::Stop(request)
                && request.container_id@ == id@ && request.signal is None
                && request.timeout_seconds is None,
            ContainerCommand::Info { id } => r.1 matches ContainerCall::Get(request)
                && request.container_id@ == id@,
            ContainerCommand::List => r.1 is List,
            ContainerCommand::Delete { id } => r.1 matches ContainerCall::Delete(request)
                && request.container_id@ == id@,
        },
        r.0 is None <==> command is Info || command is List,
{
    match (command, r.1) {
        (
            ContainerCommand::Create { image_ref: _, id: _, cmd: _, env },
            ContainerCall::Create(request),
        ) => {
            lemma_is_environment(request.config->Some_0.env@, env@);
        },
        _ => {},
    }
}

proof fn lemma_shown(lines: Seq<String>)
    ensures
        text::views(lines).len() == lines.len(),
        forall|i: int| 0 <= i < lines.len() ==> text::views(lines)[i] == (#[trigger] lines[i])@,
{
}

/// What is said of a command on a container names the container.
pub proof fn container_answers_name_the_container(
    response: &CreateContainerResponse,
    created: Vec<String>,
    id: &str,
    started: String,
    stopped: String,
    deleted: String,
)
    requires
        call_ensures(container_created, (response,), created),
        call_ensures(container_started, (id,), started),
        call_ensures(container_stopped, (id,), stopped),
        call_ensures(container_deleted, (id,), deleted),
    ensures
        created@.len() == 2,
        created@[0]@ == "Container creation initiated. Container ID: "@ + response.container_id@,
        created@[1]@
            == "Use 'feos-cli container list' to check its status and 'feos-cli container start "@
            + response.container_id@ + "' to run it."@,
        started@ == "Start request sent for container: "@ + id@,
        stopped@ == "Stop request sent for container: "@ + id@,
        deleted@ == "Successfully deleted container: "@ + id@,
{
    lemma_shown(created@);
}

/// The name of each state of a container and of an image.
pub proof fn states_are_called_by_name(
    state: ContainerState,
    name: &'static str,
    image: ImageState,
    called: &'static str,
)
    requires
        call_ensures(ContainerState::name, (state,), name),
        call_ensures(ImageState::name, (image,), called),
    ensures
        state is Unspecified ==> name@ == "Unspecified"@,
        state is PullingImage ==> name@ == "PullingImage"@,
        state is Created ==> name@ == "Created"@,
        state is Running ==> name@ == "Running"@,
        state is Stopped ==> name@ == "Stopped"@,
        image is Unspecified ==> called@ == "Unspecified"@,
        image is Downloading ==> called@ == "Downloading"@,
        image is Ready ==> called@ == "Ready"@,
        image is PullFailed ==> called@ == "PullFailed"@,
{
}

/// What is shown of a container: its name and its state; its process and its exit code where it
/// has them, as digits that stand for them; and its image, its command and its variables.
pub proof fn container_is_shown_as_it_is(
    id: &str,
    info: &ContainerInfo,
    name: &'static str,
    lines: Vec<String>,
)
    requires
        call_ensures(get_container_info, (id, info), lines),
        call_ensures(ContainerState::name, (info.state,), name),
    ensures
        ({
            let p: int = if info.pid is Some {
                1
            } else {
                0
            };
            let e: int = if info.exit_code is Some {
                1
            } else {
                0
            };
            let k = 2 + p + e;
            &&& lines@.len() >= k
            &&& lines@[0]@ == "Container Info for: "@ + id@
            &&& lines@[1]@ == "  State: "@ + name@
            &&& info.pid matches Some(pid) ==> lines@[2]@ == "  PID: "@ + text::dec_int(pid as int)
            &&& info.exit_code matches Some(code) ==> lines@[2 + p]@ == "  Exit Code: "@
                + text::dec_int(code as int)
            &&& info.config is None ==> lines@.len() == k
            &&& info.config matches Some(config) ==> {
                let c: int = if config.command@.len() > 0 {
                    1
                } else {
                    0
                };
                let v: int = if config.env@.len() > 0 {
                    1
                } else {
                    0
                };
                &&& lines@.len() == k + 2 + c + v
                &&& lines@[k]@ == "  Config:"@
                &&& lines@[k + 1]@ == "    Image Ref: "@ + config.image_ref@
                &&& c == 1 ==> lines@[k + 2]@ == "    Command: "@ + ("["@ + text::listed(
                    config.command@.map_values(|s: String| text::quoted(s@)),
                ) + "]"@)
                &&& v == 1 ==> lines@[k + 2 + c]@ == "    Env: "@ + ("{"@ + text::listed(
                    config.env@.map_values(
                        |pair: (String, String)|
                            text::quoted(pair.0@) + ": "@ + text::quoted(pair.1@),
                    ),
                ) + "}"@)
            }
        }),
{
    lemma_shown(lines@);
    let head = seq!["Container Info for: "@ + id@, "  State: "@ + info.state.label()];
    let a = head + container::pid_lines(info.pid);
    let b = a + container::exit_lines(info.exit_code);
    let all = b + container::config_lines(info.config);
    assert(text::views(lines@) == all);
    assert(all[0] == head[0] && all[1] == head[1]);
    if info.pid is Some {
        assert(all[2] == container::pid_lines(info.pid)[0]);
    }
    if info.exit_code is Some {
        assert(all[a.len() as int] == container::exit_lines(info.exit_code)[0]);
    }
    if info.config is Some {
        let c = container::config_lines(info.config);
        let n = b.len() as int;
        assert forall|i: int| 0 <= i < c.len() implies all[n + i] == #[trigger] c[i] by {}
        assert(all[n] == c[0]);
        assert(all[n + 1] == c[1]);
        let config = info.config->Some_0;
        if config.command@.len() > 0 {
            assert(all[n + 2] == c[2]);
            if config.env@.len() > 0 {
                assert(all[n + 3] == c[3]);
            }
        } else if config.env@.len() > 0 {
            assert(all[n + 2] == c[2]);
        }
    }
}

/// A row of a table: a first column of 38 characters, a second one of some width and a third one.
pub open spec fn is_row(
    line: Seq<char>,
    first: Seq<char>,
    second: Seq<char>,
    width: nat,
    third: Seq<char>,
) -> bool {
    line == text::padded_right(first, 38, ' ') + " "@ + text::padded_right(second, width, ' ')
        + " "@ + third
}

/// The table of containers has a head, a rule and a row for each container, in order, with its
/// name, its state and its image; without containers it says that there are none.
pub proof fn containers_are_listed_row_by_row(
    containers: &Vec<ContainerInfo>,
    lines: Vec<String>,
    i: int,
    name: &'static str,
    rule: String,
)
    requires
        call_ensures(list_containers, (containers,), lines),
        call_ensures(write_rule, (38, 15, 40), rule),
        0 <= i < containers@.len() ==> call_ensures(
            ContainerState::name,
            (containers@[i].state,),
            name,
        ),
    ensures
        containers@.len() == 0 ==> lines@.len() == 1 && lines@[0]@ == "No containers found."@,
        containers@.len() > 0 ==> lines@.len() == containers@.len() + 2 && is_row(
            lines@[0]@,
            "CONTAINER_ID"@,
            "STATE"@,
            15,
            "IMAGE_REF"@,
        ) && lines@[1]@ == rule@,
        0 <= i < containers@.len() ==> is_row(
            lines@[i + 2]@,
            containers@[i].container_id@,
            name@,
            15,
            match containers@[i].config {
                Some(config) => config.image_ref@,
                None => "N/A"@,
            },
        ),
{
    lemma_shown(lines@);
    let all = container::list_lines(containers@);
    if 0 <= i < containers@.len() {
        assert(all[i + 2] == container::row_of(containers@[i]));
    }
}

/// The table of images has a head, a rule and a row for each image, in order, with its name, its
/// state and its reference; without images it says that there are none.
pub proof fn images_are_listed_row_by_row(
    images: &Vec<ImageInfo>,
    lines: Vec<String>,
    i: int,
    name: &'static str,
    rule: String,
)
    requires
        call_ensures(list_images, (images,), lines),
        call_ensures(write_rule, (38, 12, 40), rule),
        0 <= i < images@.len() ==> call_ensures(ImageState::name, (images@[i].state,), name),
    ensures
        images@.len() == 0 ==> lines@.len() == 1 && lines@[0]@ == "No local images found."@,
        images@.len() > 0 ==> lines@.len() == images@.len() + 2 && is_row(
            lines@[0]@,
            "UUID"@,
            "STATE"@,
            12,
            "REFERENCE"@,
        ) && lines@[1]@ == rule@,
        0 <= i < images@.len() ==> is_row(
            lines@[i + 2]@,
            images@[i].image_uuid@,
            name@,
            12,
            images@[i].image_ref@,
        ),
{
    lemma_shown(lines@);
    let all = cli::image::list_lines(images@);
    if 0 <= i < images@.len() {
        assert(all[i + 2] == cli::image::image_row(
            images@[i].image_uuid@,
            images@[i].state.label(),
            images@[i].image_ref@,
        ));
    }
}

/// The rule of a table is made of dashes, as many as each column is wide, with a space between
/// two columns.
pub proof fn rule_is_as_wide_as_the_columns(
    first: usize,
    second: usize,
    third: usize,
    r: String,
    i: int,
)
    requires
        call_ensures(write_rule, (first, second, third), r),
        0 <= i < first + second + third + 2,
    ensures
        r@.len() == first + second + third + 2,
        r@[i] == (if i == first || i == first + second + 1 {
            ' '
        } else {
            '-'
        }),
{
    reveal_strlit(" ");
}

/// Each command on images becomes the request that it is named after, for the image that was
/// given.
pub proof fn image_commands_become_requests(
    command: ImageCommand,
    r: (Option<String>, ImageCall),
    uuid: &str,
    pulled: Vec<String>,
    deleted: String,
)
    requires
        call_ensures(handle_image_command, (command,), r),
        call_ensures(pull_image, (uuid,), pulled),
        call_ensures(delete_image, (uuid,), deleted),
    ensures
        match command {
            ImageCommand::Pull { image_ref } => r.1 matches ImageCall::Pull(request)
                && request.image_ref@ == image_ref@,
            ImageCommand::List => r.1 is List,
            ImageCommand::Watch { image_uuid } => r.1 matches ImageCall::Watch(request)
                && request.image_uuid@ == image_uuid@,
            ImageCommand::Delete { image_uuid } => r.1 matches ImageCall::Delete(request)
                && request.image_uuid@ == image_uuid@,
        },
        r.0 is None <==> command is List || command is Delete,
        command matches ImageCommand::Pull { image_ref } ==> r.0->Some_0@
            == "Requesting image pull for: "@ + image_ref@ + "..."@,
        command matches ImageCommand::Watch { image_uuid } ==> r.0->Some_0@
            == "Watching status for image: "@ + image_uuid@ + ". Press Ctrl+C to stop."@,
        pulled@.len() == 2,
        pulled@[0]@ == "Image pull initiated. UUID: "@ + uuid@,
        pulled@[1]@ == "Use 'feos-cli image watch "@ + uuid@ + "' to see progress."@,
        deleted@ == "Successfully deleted image: "@ + uuid@,
{
    lemma_shown(pulled@);
}

/// A watch shows the state, the progress and the message of each status, and ends exactly where
/// the image is ready, its pull has failed, or the stream fails or ends.
pub proof fn watch_ends_with_the_pull(
    status: ImageStatus,
    name: &'static str,
    step: WatchStep,
    why: String,
    failed: WatchStep,
    ended: WatchStep,
)
    requires
        call_ensures(ImageState::name, (status.state,), name),
        call_ensures(watch_image, (Some(Ok(status)),), step),
        call_ensures(watch_image, (Some(Err(why)),), failed),
        call_ensures(watch_image, (None,), ended),
    ensures
        step is ShowLast <==> status.state is Ready || status.state is PullFailed,
        step is Show <==> status.state is Downloading || status.state is Unspecified,
        ({
            let line = "Status: "@ + text::padded_right(name@, 12, ' ') + " | Progress: "@
                + text::padded_left(text::dec(status.progress_percent as nat), 3, ' ')
                + "% | Message: "@ + status.message@;
            &&& step matches WatchStep::Show(lines) ==> lines@.len() == 1 && lines@[0]@ == line
            &&& step matches WatchStep::ShowLast(lines) ==> lines@.len() == 2 && lines@[0]@ == line
                && lines@[1]@ == "Terminal state reached. Exiting watch."@
        }),
        failed matches WatchStep::Fail(line) && line@ == "\nError in watch stream: "@ + why@,
        ended is End,
{
    match step {
        WatchStep::Show(lines) => {
            lemma_shown(lines@);
        },
        WatchStep::ShowLast(lines) => {
            lemma_shown(lines@);
        },
        _ => {},
    }
}

/// Each command on the host becomes the request that it is named after.
pub proof fn host_commands_become_requests(command: HostCommand, r: (Option<String>, HostCall))
    requires
        call_ensures(handle_host_command, (command,), r),
    ensures
        match command {
            HostCommand::Hostname => r.1 is Hostname,
            HostCommand::Memory => r.1 is GetMemory,
            HostCommand::CpuInfo => r.1 is GetCpuInfo,
            HostCommand::NetworkInfo => r.1 is GetNetworkInfo,
            HostCommand::Upgrade { binary_path } => r.1 matches HostCall::Upgrade { binary_path: p }
                && p@ == binary_path@,
            HostCommand::Klogs => r.1 is StreamKernelLogs,
            HostCommand::Shutdown => r.1 is Shutdown,
            HostCommand::Reboot => r.1 is Reboot,
        },
        command is Klogs ==> (r.0 matches Some(line) && line@
            == "Streaming kernel logs... Press Ctrl+C to stop."@),
        command is Shutdown ==> (r.0 matches Some(line) && line@ == "Requesting host shutdown..."@),
        command is Reboot ==> (r.0 matches Some(line) && line@ == "Requesting host reboot..."@),
        r.0 is Some <==> command is Klogs || command is Shutdown || command is Reboot,
{
}

/// The name of the host is shown as it was answered, log lines as they came, and a command to stop
/// the host is told from one to start it anew.
pub proof fn host_answers_are_shown(
    response: &HostnameResponse,
    name: String,
    down: String,
    again: String,
    message: String,
    shown: LogStep,
    why: String,
    failed: LogStep,
    ended: LogStep,
)
    requires
        call_ensures(get_hostname, (response,), name),
        call_ensures(shutdown_host, (), down),
        call_ensures(reboot_host, (), again),
        call_ensures(stream_klogs, (Some(Ok(message)),), shown),
        call_ensures(stream_klogs, (Some(Err(why)),), failed),
        call_ensures(stream_klogs, (None,), ended),
    ensures
        name@ == response.hostname@,
        down@ == "Shutdown command sent successfully. Connection will be lost."@,
        again@ == "Reboot command sent successfully. Connection will be lost."@,
        shown matches LogStep::Show(line) && line@ == message@,
        failed matches LogStep::Fail(line) && line@ == "Error in kernel log stream: "@ + why@,
        ended is End,
{
}

/// Whether a line tells a count of memory under its name.
pub open spec fn tells_memory(line: Seq<char>, name: Seq<char>, value: u64) -> bool {
    line == text::padded_right(name, 20, ' ') + " "@ + text::padded_left(
        text::dec(value as nat),
        15,
        ' ',
    ) + " kB"@
}

/// The table of memory shows each count under the name that the kernel has for it.
pub proof fn memory_is_shown_by_name(m: MemInfo, r: Vec<String>, none: Vec<String>)
    requires
        call_ensures(get_memory, (&Some(m),), r),
        call_ensures(get_memory, (&None,), none),
    ensures
        none@.len() == 1,
        none@[0]@ == "No memory information received from the host."@,
        r@.len() == 50,
        r@[0]@ == text::padded_right("Key"@, 20, ' ') + " "@ + text::padded_left(
            "Value"@,
            15,
            ' ',
        ) + " kB"@,
        r@[1]@ == text::repeated('-', 20) + " "@ + text::repeated('-', 16),
        tells_memory(r@[2]@, "MemTotal:"@, m.memtotal),
        tells_memory(r@[3]@, "MemFree:"@, m.memfree),
        tells_memory(r@[4]@, "MemAvailable:"@, m.memavailable),
        tells_memory(r@[5]@, "Buffers:"@, m.buffers),
        tells_memory(r@[6]@, "Cached:"@, m.cached),
        tells_memory(r@[7]@, "SwapCached:"@, m.swapcached),
        tells_memory(r@[8]@, "Active:"@, m.active),
        tells_memory(r@[9]@, "Inactive:"@, m.inactive),
        tells_memory(r@[10]@, "Active(anon):"@, m.activeanon),
        tells_memory(r@[11]@, "Inactive(anon):"@, m.inactiveanon),
        tells_memory(r@[12]@, "Active(file):"@, m.activefile),
        tells_memory(r@[13]@, "Inactive(file):"@, m.inactivefile),
        tells_memory(r@[14]@, "Unevictable:"@, m.unevictable),
        tells_memory(r@[15]@, "Mlocked:"@, m.mlocked),
        tells_memory(r@[16]@, "SwapTotal:"@, m.swaptotal),
        tells_memory(r@[17]@, "SwapFree:"@, m.swapfree),
        tells_memory(r@[18]@, "Dirty:"@, m.dirty),
        tells_memory(r@[19]@, "Writeback:"@, m.writeback),
        tells_memory(r@[20]@, "AnonPages:"@, m.anonpages),
        tells_memory(r@[21]@, "Mapped:"@, m.mapped),
        tells_memory(r@[22]@, "Shmem:"@, m.shmem),
        tells_memory(r@[23]@, "Slab:"@, m.slab),
        tells_memory(r@[24]@, "SReclaimable:"@, m.sreclaimable),
        tells_memory(r@[25]@, "SUnreclaim:"@, m.sunreclaim),
        tells_memory(r@[26]@, "KernelStack:"@, m.kernelstack),
        tells_memory(r@[27]@, "PageTables:"@, m.pagetables),
        tells_memory(r@[28]@, "NFS_Unstable:"@, m.nfsunstable),
        tells_memory(r@[29]@, "Bounce:"@, m.bounce),
        tells_memory(r@[30]@, "WritebackTmp:"@, m.writebacktmp),
        tells_memory(r@[31]@, "CommitLimit:"@, m.commitlimit),
        tells_memory(r@[32]@, "Committed_AS:"@, m.committedas),
        tells_memory(r@[33]@, "VmallocTotal:"@, m.vmalloctotal),
        tells_memory(r@[34]@, "VmallocUsed:"@, m.vmallocused),
        tells_memory(r@[35]@, "VmallocChunk:"@, m.vmallocchunk),
        tells_memory(r@[36]@, "HardwareCorrupted:"@, m.hardwarecorrupted),
        tells_memory(r@[37]@, "AnonHugePages:"@, m.anonhugepages),
        tells_memory(r@[38]@, "ShmemHugePages:"@, m.shmemhugepages),
        tells_memory(r@[39]@, "ShmemPmdMapped:"@, m.shmempmdmapped),
        tells_memory(r@[40]@, "CmaTotal:"@, m.cmatotal),
        tells_memory(r@[41]@, "CmaFree:"@, m.cmafree),
        tells_memory(r@[42]@, "HugePages_Total:"@, m.hugepagestotal),
        tells_memory(r@[43]@, "HugePages_Free:"@, m.hugepagesfree),
        tells_memory(r@[44]@, "HugePages_Rsvd:"@, m.hugepagesrsvd),
        tells_memory(r@[45]@, "HugePages_Surp:"@, m.hugepagessurp),
        tells_memory(r@[46]@, "Hugepagesize:"@, m.hugepagesize),
        tells_memory(r@[47]@, "DirectMap4k:"@, m.directmap4k),
        tells_memory(r@[48]@, "DirectMap2m:"@, m.directmap2m),
        tells_memory(r@[49]@, "DirectMap1G:"@, m.directmap1g),
{
    lemma_shown(none@);
    lemma_shown(r@);
    let rows = host::memory_rows(m);
    assert(rows.len() == 48);
    let all = host::memory_lines(Some(m));
    assert forall|i: int| 0 <= i < 48 implies tells_memory(
        (#[trigger] r@[i + 2])@,
        rows[i].0,
        rows[i].1,
    ) by {
        assert(all[i + 2] == host::memory_row(rows[i].0, text::dec(rows[i].1 as nat)));
    }
}

/// Whether a line tells a value of a processor under its name.
pub open spec fn tells_cpu(line: Seq<char>, name: Seq<char>, value: Seq<char>) -> bool {
    line == text::padded_right(name, 20, ' ') + ": "@ + value
}

/// Whether fourteen lines from a place on tell of a processor.
pub open spec fn tells_processor(lines: Seq<String>, at: int, cpu: CpuInfo) -> bool {
    &&& lines[at]@ == "--- Processor "@ + text::dec(cpu.processor as nat) + " ---"@
    &&& tells_cpu(lines[at + 1]@, "Vendor ID"@, cpu.vendor_id@)
    &&& tells_cpu(lines[at + 2]@, "Model Name"@, cpu.model_name@)
    &&& tells_cpu(lines[at + 3]@, "CPU Family"@, cpu.cpu_family@)
    &&& tells_cpu(lines[at + 4]@, "Model"@, cpu.model@)
    &&& tells_cpu(lines[at + 5]@, "Stepping"@, cpu.stepping@)
    &&& tells_cpu(lines[at + 6]@, "CPU MHz"@, cpu.cpu_mhz@ + " MHz"@)
    &&& tells_cpu(lines[at + 7]@, "Cache Size"@, cpu.cache_size@)
    &&& tells_cpu(lines[at + 8]@, "Physical ID"@, cpu.physical_id@)
    &&& tells_cpu(lines[at + 9]@, "Core ID"@, cpu.core_id@)
    &&& tells_cpu(lines[at + 10]@, "CPU Cores"@, text::dec(cpu.cpu_cores as nat))
    &&& tells_cpu(lines[at + 11]@, "Siblings"@, text::dec(cpu.siblings as nat))
    &&& tells_cpu(lines[at + 12]@, "Address Sizes"@, cpu.address_sizes@)
    &&& tells_cpu(lines[at + 13]@, "BogoMIPS"@, cpu.bogo_mips@)
}

proof fn lemma_cpu_blocks(cpus: Seq<CpuInfo>)
    requires
        cpus.len() > 0,
    ensures
        host::cpu_blocks(cpus).len() == 15 * cpus.len() - 1,
    decreases cpus.len(),
{
    if cpus.len() > 1 {
        lemma_cpu_blocks(cpus.drop_last());
    }
}

/// One more processor is shown behind the others, after an empty line, in fourteen lines of its
/// own; what is shown of the others stays.
pub proof fn processors_are_shown_one_by_one(
    cpus: &Vec<CpuInfo>,
    cpu: CpuInfo,
    more: &Vec<CpuInfo>,
    before: Vec<String>,
    after: Vec<String>,
)
    requires
        more@ == cpus@.push(cpu),
        call_ensures(get_cpu_info, (cpus,), before),
        call_ensures(get_cpu_info, (more,), after),
    ensures
        cpus@.len() == 0 ==> before@.len() == 1 && before@[0]@
            == "No CPU information received from the host."@,
        after@.len() == 15 * more@.len() - 1,
        tells_processor(after@, after@.len() - 14, cpu),
        cpus@.len() > 0 ==> after@.len() == before@.len() + 15 && after@[before@.len() as int]@
            == Seq::<char>::empty(),
        cpus@.len() > 0 ==> forall|i: int|
            0 <= i < before@.len() ==> (#[trigger] after@[i])@ == before@[i]@,
{
    lemma_shown(before@);
    lemma_shown(after@);
    assert(more@.drop_last() =~= cpus@);
    lemma_cpu_blocks(more@);
    let all = host::cpu_lines(more@);
    let own = host::cpu_block(cpu);
    let at = after@.len() - 14;
    if cpus@.len() > 0 {
        let was = host::cpu_blocks(cpus@);
        assert(all == was.push(Seq::empty()) + own);
        assert forall|i: int| 0 <= i < 14 implies (#[trigger] own[i]) == all[at + i] by {}
        assert forall|i: int| 0 <= i < before@.len() implies (#[trigger] after@[i])@
            == before@[i]@ by {
            assert(all[i] == was[i]);
        }
    } else {
        assert(more@[0] == cpu);
        assert(all == own);
    }
    assert(own[0] == all[at] && own[1] == all[at + 1] && own[2] == all[at + 2] && own[3] == all[at
        + 3] && own[4] == all[at + 4] && own[5] == all[at + 5] && own[6] == all[at + 6] && own[7]
        == all[at + 7] && own[8] == all[at + 8] && own[9] == all[at + 9] && own[10] == all[at + 10]
        && own[11] == all[at + 11] && own[12] == all[at + 12] && own[13] == all[at + 13]);
}

/// Whether a line tells a count of a network device behind a label.
pub open spec fn tells_count(line: Seq<char>, label: Seq<char>, count: u64) -> bool {
    line == label + text::padded_left(text::dec(count as nat), 15, ' ')
}

/// Whether twelve lines from a place on tell of a network device, what it received and what it
/// sent kept apart.
pub open spec fn tells_device(lines: Seq<String>, at: int, dev: NetDev) -> bool {
    &&& lines[at]@ == "Interface: "@ + dev.name@
    &&& lines[at + 1]@ == "  RX"@
    &&& tells_count(lines[at + 2]@, "    Bytes:    "@, dev.rx_bytes)
    &&& tells_count(lines[at + 3]@, "    Packets:  "@, dev.rx_packets)
    &&& tells_count(lines[at + 4]@, "    Errors:   "@, dev.rx_errors)
    &&& tells_count(lines[at + 5]@, "    Dropped:  "@, dev.rx_dropped)
    &&& lines[at + 6]@ == "  TX"@
    &&& tells_count(lines[at + 7]@, "    Bytes:    "@, dev.tx_bytes)
    &&& tells_count(lines[at + 8]@, "    Packets:  "@, dev.tx_packets)
    &&& tells_count(lines[at + 9]@, "    Errors:   "@, dev.tx_errors)
    &&& tells_count(lines[at + 10]@, "    Dropped:  "@, dev.tx_dropped)
    &&& lines[at + 11]@ == Seq::<char>::empty()
}

proof fn lemma_device_blocks(devices: Seq<NetDev>)
    ensures
        host::device_blocks(devices).len() == 12 * devices.len(),
    decreases devices.len(),
{
    if devices.len() > 0 {
        lemma_device_blocks(devices.drop_last());
    }
}

/// One more network device is shown behind the others in twelve lines of its own; what is shown
/// of the others stays.
pub proof fn devices_are_shown_one_by_one(
    devices: &Vec<NetDev>,
    dev: NetDev,
    more: &Vec<NetDev>,
    before: Vec<String>,
    after: Vec<String>,
)
    requires
        more@ == devices@.push(dev),
        call_ensures(get_network_info, (devices,), before),
        call_ensures(get_network_info, (more,), after),
    ensures
        devices@.len() == 0 ==> before@.len() == 1 && before@[0]@
            == "No network devices found on the host."@,
        after@.len() == 12 * more@.len(),
        tells_device(after@, after@.len() - 12, dev),
        devices@.len() > 0 ==> forall|i: int|
            0 <= i < before@.len() ==> (#[trigger] after@[i])@ == before@[i]@,
{
    lemma_shown(before@);
    lemma_shown(after@);
    assert(more@.drop_last() =~= devices@);
    lemma_device_blocks(more@);
    let all = host::network_lines(more@);
    let was = host::device_blocks(devices@);
    let own = host::device_block(dev);
    let at = after@.len() - 12;
    assert(all == was + own);
    assert(own[0] == all[at] && own[1] == all[at + 1] && own[2] == all[at + 2] && own[3] == all[at
        + 3] && own[4] == all[at + 4] && own[5] == all[at + 5] && own[6] == all[at + 6] && own[7]
        == all[at + 7] && own[8] == all[at + 8] && own[9] == all[at + 9] && own[10] == all[at + 10]
        && own[11] == all[at + 11]);
    if devices@.len() > 0 {
        assert forall|i: int| 0 <= i < before@.len() implies (#[trigger] after@[i])@
            == before@[i]@ by {
            assert(all[i] == was[i]);
        }
    }
}

/// An upgrade sends the checksum of what was read of the file before any of its bytes, and then
/// the bytes as they are read, in pieces of 64 KiB at most, until there are none left.
pub proof fn upgrade_sends_checksum_and_file(
    content: Vec<u8>,
    read: UpgradeStep,
    opening: UpgradeStep,
    reading: UpgradeStep,
    chunk: Vec<u8>,
    sending: UpgradeStep,
    on: UpgradeStep,
)
    requires
        call_ensures(upgrade_feos, (UpgradeProgress::Read(Ok(content)),), read),
        call_ensures(upgrade_feos, (UpgradeProgress::ChecksumSent(true),), opening),
        call_ensures(upgrade_feos, (UpgradeProgress::Opened(Ok(())),), reading),
        call_ensures(upgrade_feos, (UpgradeProgress::ChunkRead(Ok(chunk)),), sending),
        call_ensures(upgrade_feos, (UpgradeProgress::ChunkSent(true),), on),
    ensures
        ({
            let checksum = digest::hex_text(digest::sha256(content@));
            read matches UpgradeStep::Send { lines, message } && lines@.len() == 2 && lines@[0]@
                == "Checksum (SHA256): "@ + checksum && lines@[1]@
                == "Uploading new binary to host..."@ && (message matches UploadMessage::Metadata {
                sha256_sum,
            } && sha256_sum@ == checksum)
        }),
        opening is Open,
        reading matches UpgradeStep::ReadChunk { size } && size == 64 * 1024,
        chunk@.len() > 0 ==> (sending matches UpgradeStep::SendChunk(message)
            && (message matches UploadMessage::Chunk(sent) && sent@ == chunk@)),
        chunk@.len() == 0 ==> (sending matches UpgradeStep::StopSending(None)),
        on matches UpgradeStep::ReadChunk { size } && size == 64 * 1024,
{
    match read {
        UpgradeStep::Send { lines, message: _ } => {
            lemma_shown(lines@);
        },
        _ => {},
    }
}

/// An upgrade without a file fails at once, one that cannot be read fails too, nothing more is sent
/// once the host is gone, and what the host answers is shown.
pub proof fn upgrade_ends_with_the_answer(
    binary_path: String,
    found: UpgradeStep,
    missing: UpgradeStep,
    why: String,
    unread: UpgradeStep,
    gone: UpgradeStep,
    lost: UpgradeStep,
    unopened: UpgradeStep,
    broken: UpgradeStep,
    message: String,
    answered: UpgradeStep,
    refused: UpgradeStep,
)
    requires
        call_ensures(upgrade_feos, (UpgradeProgress::Named { binary_path, found: true },), found),
        call_ensures(
            upgrade_feos,
            (UpgradeProgress::Named { binary_path, found: false },),
            missing,
        ),
        call_ensures(upgrade_feos, (UpgradeProgress::Read(Err(why)),), unread),
        call_ensures(upgrade_feos, (UpgradeProgress::ChecksumSent(false),), gone),
        call_ensures(upgrade_feos, (UpgradeProgress::ChunkSent(false),), lost),
        call_ensures(upgrade_feos, (UpgradeProgress::Opened(Err(why)),), unopened),
        call_ensures(upgrade_feos, (UpgradeProgress::ChunkRead(Err(why)),), broken),
        call_ensures(upgrade_feos, (UpgradeProgress::Answered(Ok(message)),), answered),
        call_ensures(upgrade_feos, (UpgradeProgress::Answered(Err(why)),), refused),
    ensures
        found matches UpgradeStep::Read { line } && line@ == "Calculating checksum for "@
            + binary_path@ + "..."@,
        missing matches UpgradeStep::Fail(e) && e@ == "Binary file not found at: "@ + binary_path@,
        unread matches UpgradeStep::Fail(e) && e@ == why@,
        gone matches UpgradeStep::StopSending(None),
        lost matches UpgradeStep::StopSending(None),
        unopened matches UpgradeStep::StopSending(Some(line)) && line@
            == "Failed to open file for upload: "@ + why@,
        broken matches UpgradeStep::StopSending(Some(line)) && line@ == "Error reading from file: "@
            + why@,
        answered matches UpgradeStep::Show(line) && line@ == "Server response: "@ + message@,
        refused matches UpgradeStep::Fail(e) && e@ == why@,
{
}

/// Where time has passed, a count that fell counts as none, and a count that grew as what it grew
/// by; where none has passed, or time has gone back, there is no load at all.
pub proof fn counts_that_fell_are_no_load(before: &CpuTime, after: &CpuTime, usage: CpuUsage)
    requires
        before.user + before.nice + before.system + before.idle + before.iowait + before.irq
            + before.softirq + before.steal <= u64::MAX,
        after.user + after.nice + after.system + after.idle + after.iowait + after.irq
            + after.softirq + after.steal <= u64::MAX,
        call_ensures(calculate_cpu_usage, (before, after), usage),
    ensures
        ({
            let passed = (after.user + after.nice + after.system + after.idle + after.iowait
                + after.irq + after.softirq + after.steal) - (before.user + before.nice
                + before.system + before.idle + before.iowait + before.irq + before.softirq
                + before.steal);
            let idled = (after.idle + after.iowait) - (before.idle + before.iowait);
            &&& passed > 0 ==> usage.total == passed
            &&& passed <= 0 ==> usage.total == 0 && usage.idle == 0 && usage.user == 0
                && usage.system == 0 && usage.iowait == 0
            &&& passed > 0 && idled >= 0 ==> usage.idle == idled
            &&& passed > 0 && idled < 0 ==> usage.idle == 0
            &&& passed > 0 && after.user >= before.user ==> usage.user == after.user - before.user
            &&& passed > 0 && after.user < before.user ==> usage.user == 0
            &&& passed > 0 && after.system >= before.system ==> usage.system == after.system
                - before.system
            &&& passed > 0 && after.system < before.system ==> usage.system == 0
            &&& passed > 0 && after.iowait >= before.iowait ==> usage.iowait == after.iowait
                - before.iowait
            &&& passed > 0 && after.iowait < before.iowait ==> usage.iowait == 0
        }),
{
}

/// The load that is shown is that between the two samples of the same processor, under its name,
/// and that of all processors together between their two samples.
pub proof fn load_is_that_of_the_same_processor(
    first: &KernelStats,
    second: &KernelStats,
    report: UsageReport,
    i: int,
    usage: CpuUsage,
    all: CpuUsage,
)
    requires
        call_ensures(display_cpu_usage, (first, second), report),
        0 <= i < first.per_cpu@.len() && i < second.per_cpu@.len(),
        call_ensures(
            calculate_cpu_usage,
            (&first.per_cpu@[i], &second.per_cpu@[i]),
            usage,
        ),
        first.total is Some && second.total is Some ==> call_ensures(
            calculate_cpu_usage,
            (&first.total->Some_0, &second.total->Some_0),
            all,
        ),
    ensures
        i < report.per_cpu@.len(),
        report.per_cpu@.len() <= first.per_cpu@.len(),
        report.per_cpu@.len() <= second.per_cpu@.len(),
        report.per_cpu@[i].0@ == second.per_cpu@[i].name@,
        report.per_cpu@[i].1 == usage,
        first.total is Some && second.total is Some ==> report.overall == Some(all),
        first.total is None || second.total is None ==> report.overall is None,
{
}

/// The time of the start is written by the calendar for the second that was told.
pub proof fn start_is_written_by_the_calendar(boot_time: u64, r: String)
    requires
        boot_time <= 8_210_266_876_799,
        call_ensures(format_boot_time, (boot_time,), r),
    ensures
        r@ == clock::utc_text(boot_time as i64, "%Y-%m-%d %H:%M:%S UTC"@),
{
}

/// The other counts of the kernel are shown under their names.
pub proof fn statistics_are_shown_by_name(stats: &KernelStats, boot_time: &str, r: Vec<String>)
    requires
        call_ensures(show_statistics, (stats, boot_time), r),
    ensures
        r@.len() == 4,
        r@[0]@ == "\nSystem Statistics:"@,
        r@[1]@ == "  Context Switches: "@ + text::dec(stats.context_switches as nat),
        r@[2]@ == "  Boot Time:        "@ + boot_time@,
        r@[3]@ == "  Processes:        "@ + text::dec(stats.processes_created as nat)
            + " created, "@ + text::dec(stats.processes_running as nat) + " running, "@
            + text::dec(stats.processes_blocked as nat) + " blocked"@,
{
    lemma_shown(r@);
}

/// Two samples are taken a second apart, and what is shown is between the first and the second;
/// the counts are those of the second.
pub proof fn samples_are_taken_a_second_apart(
    first: KernelStats,
    begun: StatsStep,
    waiting: StatsStep,
    asking: StatsStep,
    second: KernelStats,
    shown: StatsStep,
    missing: StatsStep,
    gone: StatsStep,
)
    requires
        call_ensures(get_kernel_stats, (StatsProgress::Started,), begun),
        call_ensures(get_kernel_stats, (StatsProgress::FirstSample(Some(first)),), waiting),
        call_ensures(get_kernel_stats, (StatsProgress::Waited(first),), asking),
        call_ensures(
            get_kernel_stats,
            (StatsProgress::SecondSample { first, second: Some(second) },),
            shown,
        ),
        call_ensures(get_kernel_stats, (StatsProgress::FirstSample(None),), missing),
        call_ensures(
            get_kernel_stats,
            (StatsProgress::SecondSample { first, second: None },),
            gone,
        ),
    ensures
        begun matches StatsStep::Begin { line } && line@ == "Taking CPU measurements..."@,
        waiting matches StatsStep::Sleep { seconds, first: f } && seconds == 1 && f == first,
        asking matches StatsStep::AskAgain { first: f } && f == first,
        shown matches StatsStep::Show { first: f, second: s, lines } && f == first && s == second
            && lines@.len() == 4 && lines@[1]@ == "  Context Switches: "@ + text::dec(
            second.context_switches as nat,
        ) && (second.boot_time <= 8_210_266_876_799 ==> lines@[2]@ == "  Boot Time:        "@
            + clock::utc_text(second.boot_time as i64, "%Y-%m-%d %H:%M:%S UTC"@)),
        missing matches StatsStep::Fail(e) && e@ == "No CPU stats in response"@,
        gone matches StatsStep::Fail(e) && e@ == "No CPU stats in response"@,
{
    match shown {
        StatsStep::Show { first: _, second: _, lines } => {
            lemma_shown(lines@);
        },
        _ => {},
    }
}

/// Whether the times of a processor add up to a number that fits.
pub open spec fn adds_up(c: CpuTime) -> bool {
    c.user + c.nice + c.system + c.idle + c.iowait + c.irq + c.softirq + c.steal <= u64::MAX
}

/// Time can be counted exactly where its sum fits, for one processor and for all.
pub proof fn time_is_countable_where_it_fits(
    cpu: &CpuTime,
    one: bool,
    stats: &KernelStats,
    all: bool,
)
    requires
        call_ensures(can_count, (cpu,), one),
        call_ensures(can_count_all, (stats,), all),
    ensures
        one <==> adds_up(*cpu),
        all <==> (stats.total matches Some(c) ==> adds_up(c)) && (forall|i: int|
            0 <= i < stats.per_cpu@.len() ==> adds_up(#[trigger] stats.per_cpu@[i])),
{
}

} // verus!
