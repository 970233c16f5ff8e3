//! The runtime adapter: what the task service is asked for a container, and the
//! runtime configuration that an image and what was asked of the container lead to.
use crate::container::ContainerConfig;
use crate::task::{CreateRequest, DeleteRequest, KillRequest, StartRequest};
use crate::text;
use vstd::prelude::*;

verus! {

/// Why the runtime could not deal with a container. An error of the file system or
/// of a remote call is held as what it reads as.
#[derive(Debug)]
pub enum AdapterError {
    Internal(String),
    Io(String),
    TaskService(String),
}

impl AdapterError {
    /// What the error reads as.
    pub open spec fn text(self) -> Seq<char> {
        match self {
            AdapterError::Internal(m) => "Internal error: "@ + m@,
            AdapterError::Io(_) => "I/O error"@,
            AdapterError::TaskService(m) => "Task service communication failed: "@ + m@,
        }
    }

    /// The error's text.
    pub fn message(&self) -> (r: String)
        ensures
            r@ == self.text(),
    {
        match self {
            AdapterError::Internal(m) => text::cat2("Internal error: ", m.as_str()),
            AdapterError::Io(_) => "I/O error".to_owned(),
            AdapterError::TaskService(m) => text::cat2(
                "Task service communication failed: ",
                m.as_str(),
            ),
        }
    }
}

/// What an image says of the process that it is made for.
#[derive(Debug)]
pub struct OciImageConfig {
    pub entrypoint: Option<Vec<String>>,
    pub cmd: Option<Vec<String>>,
    pub env: Option<Vec<String>>,
}

/// The configuration of an image.
#[derive(Debug)]
pub struct OciImageSpec {
    pub config: OciImageConfig,
}

/// The configuration that the runtime is given.
#[derive(Debug)]
pub struct OciRuntimeSpec {
    pub oci_version: String,
    pub process: OciProcess,
    pub root: OciRoot,
    pub mounts: Vec<OciMount>,
    pub linux: OciLinux,
}

/// The process of a container.
#[derive(Debug)]
pub struct OciProcess {
    pub terminal: bool,
    pub user: OciUser,
    pub args: Vec<String>,
    pub env: Vec<String>,
    pub cwd: String,
}

/// The user of a container's process.
#[derive(Debug)]
pub struct OciUser {
    pub uid: u32,
    pub gid: u32,
}

/// The root file system of a container.
#[derive(Debug)]
pub struct OciRoot {
    pub path: String,
    pub readonly: bool,
}

/// A mount in a container.
#[derive(Debug)]
pub struct OciMount {
    pub destination: String,
    pub typ: String,
    pub source: String,
    pub options: Vec<String>,
}

/// What a container does not share with the host.
#[derive(Debug)]
pub struct OciLinux {
    pub namespaces: Vec<OciLinuxNamespace>,
}

/// One namespace of a container.
#[derive(Debug)]
pub struct OciLinuxNamespace {
    pub typ: String,
}

/// The items of an optional list.
pub open spec fn items(list: Option<Vec<String>>) -> Seq<String> {
    match list {
        Some(v) => v@,
        None => Seq::empty(),
    }
}

/// Whether a mount is this one.
pub open spec fn mount_is(
    m: OciMount,
    destination: Seq<char>,
    typ: Seq<char>,
    options: Seq<Seq<char>>,
) -> bool {
    &&& m.destination@ == destination
    &&& m.typ@ == typ
    &&& m.source@ == typ
    &&& text::views(m.options@) == options
}

/// Whether the mounts are those that every container has.
pub open spec fn default_mounts(mounts: Seq<OciMount>) -> bool {
    &&& mounts.len() == 4
    &&& mount_is(mounts[0], "/proc"@, "proc"@, Seq::empty())
    &&& mount_is(
        mounts[1],
        "/dev"@,
        "tmpfs"@,
        seq!["nosuid"@, "strictatime"@, "mode=755"@, "size=65536k"@],
    )
    &&& mount_is(
        mounts[2],
        "/dev/pts"@,
        "devpts"@,
        seq!["nosuid"@, "noexec"@, "newinstance"@, "ptmxmode=0666"@, "mode=0620"@],
    )
    &&& mount_is(
        mounts[3],
        "/sys"@,
        "sysfs"@,
        seq!["nosuid"@, "noexec"@, "nodev"@, "ro"@],
    )
}

/// Whether the namespaces are those that every container has: all but the network.
pub open spec fn default_namespaces(namespaces: Seq<OciLinuxNamespace>) -> bool {
    &&& namespaces.len() == 4
    &&& namespaces[0].typ@ == "pid"@
    &&& namespaces[1].typ@ == "ipc"@
    &&& namespaces[2].typ@ == "uts"@
    &&& namespaces[3].typ@ == "mount"@
}

/// What a container runs: the entry point of its image, and behind it the command that
/// was asked for, or the default command of the image where none was.
pub open spec fn process_args(image: OciImageSpec, config: ContainerConfig) -> Seq<Seq<char>> {
    text::views(items(image.config.entrypoint)) + (if config.command@.len() > 0 {
        text::views(config.command@)
    } else {
        text::views(items(image.config.cmd))
    })
}

/// Variables as an environment holds them.
pub open spec fn assignments(env: Seq<(String, String)>) -> Seq<Seq<char>> {
    env.map_values(|pair: (String, String)| pair.0@ + "="@ + pair.1@)
}

/// The environment of a container: the variables of its image, and behind them those
/// that were asked for.
pub open spec fn process_env(image: OciImageSpec, config: ContainerConfig) -> Seq<Seq<char>> {
    text::views(items(image.config.env)) + assignments(config.env@)
}

/// Whether a runtime configuration is the one for an image and what was asked of a
/// container: the command runs as root in the image's root file system.
pub open spec fn runs_image(
    r: OciRuntimeSpec,
    image: OciImageSpec,
    config: ContainerConfig,
) -> bool {
    &&& r.oci_version@ == "1.0.2"@
    &&& !r.process.terminal
    &&& r.process.user.uid == 0
    &&& r.process.user.gid == 0
    &&& text::views(r.process.args@) == process_args(image, config)
    &&& text::views(r.process.env@) == process_env(image, config)
    &&& r.process.cwd@ == "/"@
    &&& r.root.path@ == "rootfs"@
    &&& !r.root.readonly
    &&& default_mounts(r.mounts@)
    &&& default_namespaces(r.linux.namespaces@)
}

fn mount(destination: &str, typ: &str, options: Vec<String>) -> (m: OciMount)
    ensures
        mount_is(m, destination@, typ@, text::views(options@)),
{
    OciMount {
        destination: destination.to_owned(),
        typ: typ.to_owned(),
        source: typ.to_owned(),
        options,
    }
}

/// Turns what the service asks of a container into requests to the task service.
pub struct ContainerAdapter;

impl Default for ContainerAdapter {
    fn default() -> (r: ContainerAdapter)
        ensures
            r == ContainerAdapter,
    {
        ContainerAdapter::new()
    }
}

impl ContainerAdapter {
    /// The adapter.
    pub fn new() -> (r: ContainerAdapter)
        ensures
            r == ContainerAdapter,
    {
        ContainerAdapter
    }

    /// The runtime configuration for an image and what was asked of a container: a
    /// command replaces the default command of the image, and variables come on top of
    /// its environment.
    pub fn generate_runtime_spec(image_spec: OciImageSpec, config: &ContainerConfig) -> (r:
        OciRuntimeSpec)
        ensures
            runs_image(r, image_spec, *config),
    {
        let ghost asked = image_spec;
        let mut args: Vec<String> = match image_spec.config.entrypoint {
            Some(entrypoint) => entrypoint,
            None => Vec::new(),
        };
        if config.command.len() > 0 {
            for i in 0..config.command.len()
                invariant
                    args@ == items(asked.config.entrypoint) + config.command@.take(i as int),
            {
                args.push(config.command[i].clone());
                assert(args@ =~= items(asked.config.entrypoint) + config.command@.take(i + 1));
            }
            assert(config.command@.take(config.command@.len() as int) =~= config.command@);
        } else if let Some(mut cmd) = image_spec.config.cmd {
            args.append(&mut cmd);
        }
        assert(text::views(args@) =~= process_args(asked, *config));
        let mut env: Vec<String> = match image_spec.config.env {
            Some(env) => env,
            None => Vec::new(),
        };
        for i in 0..config.env.len()
            invariant
                text::views(env@) == text::views(items(asked.config.env)) + assignments(
                    config.env@.take(i as int),
                ),
        {
            let ghost before = env@;
            let variable = text::cat3(config.env[i].0.as_str(), "=", config.env[i].1.as_str());
            env.push(variable);
            proof {
                assert(text::views(env@) =~= text::views(before).push(variable@));
                assert(assignments(config.env@.take(i + 1)) =~= assignments(
                    config.env@.take(i as int),
                ).push(variable@));
            }
        }
        assert(config.env@.take(config.env@.len() as int) =~= config.env@);
        let dev_options = vec![
            "nosuid".to_owned(),
            "strictatime".to_owned(),
            "mode=755".to_owned(),
            "size=65536k".to_owned(),
        ];
        let pts_options = vec![
            "nosuid".to_owned(),
            "noexec".to_owned(),
            "newinstance".to_owned(),
            "ptmxmode=0666".to_owned(),
            "mode=0620".to_owned(),
        ];
        let sys_options = vec![
            "nosuid".to_owned(),
            "noexec".to_owned(),
            "nodev".to_owned(),
            "ro".to_owned(),
        ];
        let no_options: Vec<String> = Vec::new();
        proof {
            assert(text::views(no_options@) =~= Seq::empty());
            assert(text::views(dev_options@) =~= seq![
                "nosuid"@,
                "strictatime"@,
                "mode=755"@,
                "size=65536k"@,
            ]);
            assert(text::views(pts_options@) =~= seq![
                "nosuid"@,
                "noexec"@,
                "newinstance"@,
                "ptmxmode=0666"@,
                "mode=0620"@,
            ]);
            assert(text::views(sys_options@) =~= seq!["nosuid"@, "noexec"@, "nodev"@, "ro"@]);
        }
        let mounts = vec![
            mount("/proc", "proc", no_options),
            mount("/dev", "tmpfs", dev_options),
            mount("/dev/pts", "devpts", pts_options),
            mount("/sys", "sysfs", sys_options),
        ];
        let namespaces = vec![
            OciLinuxNamespace { typ: "pid".to_owned() },
            OciLinuxNamespace { typ: "ipc".to_owned() },
            OciLinuxNamespace { typ: "uts".to_owned() },
            OciLinuxNamespace { typ: "mount".to_owned() },
        ];
        OciRuntimeSpec {
            oci_version: "1.0.2".to_owned(),
            process: OciProcess {
                terminal: false,
                user: OciUser { uid: 0, gid: 0 },
                args,
                env,
                cwd: "/".to_owned(),
            },
            root: OciRoot { path: "rootfs".to_owned(), readonly: false },
            mounts,
            linux: OciLinux { namespaces },
        }
    }

    /// What the task service is asked to create a container from a bundle.
    pub fn create_container(&self, container_id: &str, bundle_path: &str) -> (r: CreateRequest)
        ensures
            r.container_id@ == container_id@,
            r.bundle_path@ == bundle_path@,
            r.stdin_path@ == ""@,
            r.stdout_path@ == ""@,
            r.stderr_path@ == ""@,
    {
        CreateRequest {
            container_id: container_id.to_owned(),
            bundle_path: bundle_path.to_owned(),
            stdin_path: "".to_owned(),
            stdout_path: "".to_owned(),
            stderr_path: "".to_owned(),
        }
    }

    /// What the task service is asked to start a container.
    pub fn start_container(&self, container_id: &str) -> (r: StartRequest)
        ensures
            r.container_id@ == container_id@,
    {
        StartRequest { container_id: container_id.to_owned() }
    }

    /// What the task service is asked to stop a container.
    pub fn stop_container(&self, container_id: &str, signal: u32) -> (r: KillRequest)
        ensures
            r.container_id@ == container_id@,
            r.signal == signal,
    {
        KillRequest { container_id: container_id.to_owned(), signal }
    }

    /// What the task service is asked to delete a container.
    pub fn delete_container(&self, container_id: &str) -> (r: DeleteRequest)
        ensures
            r.container_id@ == container_id@,
    {
        DeleteRequest { container_id: container_id.to_owned() }
    }
}

} // verus!
