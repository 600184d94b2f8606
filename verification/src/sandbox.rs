//! The Codex Sandbox: its image, its containers, and the preflight of a Plan Run.

use sha2::Digest;
use vstd::prelude::*;
#[allow(unused_imports)]
use vstd::utf8::{decode_utf8, encode_utf8, encode_utf8_decode_utf8, is_char_boundary};

use crate::command::CommandRun;
use crate::numerals::{decimal_i64, decimal_u64, hex_prefix};
#[allow(unused_imports)]
use crate::numerals::{decimal, decimal_int, hex, lemma_hex_len};
use crate::problem::CoordinatorError;
use crate::text::{concat, same_text};
#[allow(unused_imports)]
use crate::text::{pair_views, views};

verus! {

/// The repository of the runtime image.
pub const RUNTIME_IMAGE_REPO: &'static str = "agentic-afk-runtime";

/// The volume that holds the tools which the containers share.
pub const MISE_CACHE_VOLUME: &'static str = "agentic-afk-mise-cache";

// --- The runtime image ---

/// The SHA-256 digest of the bytes.
pub uninterp spec fn sha256_digest(bytes: Seq<u8>) -> Seq<u8>;

/// Calls `sha2::Sha256::digest`. The contract claims that the digest is a function
/// of the bytes and has 32 bytes.
#[verifier::external_body]
fn sha256(bytes: &Vec<u8>) -> (digest: Vec<u8>)
    ensures
        digest@ == sha256_digest(bytes@),
        digest@.len() == 32,
{
    sha2::Sha256::digest(bytes).to_vec()
}

/// What the tag of the image is computed from: the two files that the image is
/// built from, with a zero byte between them.
pub open spec fn image_inputs(dockerfile: Seq<char>, entrypoint: Seq<char>) -> Seq<u8> {
    encode_utf8(dockerfile) + seq![0u8] + encode_utf8(entrypoint)
}

/// The tag of the image: the repository and the first six bytes of the digest.
pub open spec fn image_tag(dockerfile: Seq<char>, entrypoint: Seq<char>) -> Seq<char> {
    RUNTIME_IMAGE_REPO@ + ":"@ + hex(sha256_digest(image_inputs(dockerfile, entrypoint)).take(6))
}

fn push_bytes(bytes: &mut Vec<u8>, text: &str)
    ensures
        final(bytes)@ == old(bytes)@ + encode_utf8(text@),
{
    let encoded = text.as_bytes();
    let ghost before = bytes@;
    let mut i: usize = 0;
    while i < encoded.len()
        invariant
            i <= encoded.len(),
            encoded@ == encode_utf8(text@),
            bytes@ == before + encoded@.take(i as int),
        decreases encoded.len() - i,
    {
        bytes.push(encoded[i]);
        i += 1;
        assert(encoded@.take(i as int) =~= encoded@.take(i - 1).push(encoded@[i - 1]));
    }
    assert(encoded@.take(i as int) =~= encoded@);
}

/// The content-addressed tag of the runtime image. A change of either file gives
/// other inputs, and with them another digest.
pub fn runtime_image_tag(dockerfile: &str, entrypoint: &str) -> (tag: String)
    ensures
        tag@ == image_tag(dockerfile@, entrypoint@),
        tag@.len() == RUNTIME_IMAGE_REPO@.len() + 1 + 12,
{
    let mut bytes: Vec<u8> = Vec::new();
    push_bytes(&mut bytes, dockerfile);
    bytes.push(0);
    push_bytes(&mut bytes, entrypoint);
    assert(bytes@ =~= image_inputs(dockerfile@, entrypoint@));
    let digest = sha256(&bytes);
    let short = hex_prefix(&digest, 6);
    proof {
        lemma_hex_len(digest@.take(6));
        reveal_strlit(":");
    }
    let mut tag = concat(RUNTIME_IMAGE_REPO, ":");
    tag.append(short.as_str());
    tag
}

// --- The launch of a container ---

/// The phase that a container runs.
#[derive(Clone, Copy, Debug, Eq, PartialEq, Structural)]
pub enum SandboxPhase {
    Planning,
    Implementation,
    Review,
    Merge,
}

/// The phase with the label.
pub open spec fn labelled_phase(label: Seq<char>) -> Option<SandboxPhase> {
    if label == "planning"@ {
        Some(SandboxPhase::Planning)
    } else if label == "implementation"@ {
        Some(SandboxPhase::Implementation)
    } else if label == "review"@ {
        Some(SandboxPhase::Review)
    } else if label == "merge"@ {
        Some(SandboxPhase::Merge)
    } else {
        None
    }
}

impl SandboxPhase {
    /// The phase as the value of a label.
    pub open spec fn label(self) -> Seq<char> {
        match self {
            SandboxPhase::Planning => "planning"@,
            SandboxPhase::Implementation => "implementation"@,
            SandboxPhase::Review => "review"@,
            SandboxPhase::Merge => "merge"@,
        }
    }

    /// The phase as the value of a label.
    pub fn as_label(&self) -> (text: &'static str)
        ensures
            text@ == self.label(),
    {
        match self {
            SandboxPhase::Planning => "planning",
            SandboxPhase::Implementation => "implementation",
            SandboxPhase::Review => "review",
            SandboxPhase::Merge => "merge",
        }
    }

    /// The phase with the label.
    pub fn from_label(label: &str) -> (phase: Option<SandboxPhase>)
        ensures
            phase == labelled_phase(label@),
    {
        if same_text(label, "planning") {
            Some(SandboxPhase::Planning)
        } else if same_text(label, "implementation") {
            Some(SandboxPhase::Implementation)
        } else if same_text(label, "review") {
            Some(SandboxPhase::Review)
        } else if same_text(label, "merge") {
            Some(SandboxPhase::Merge)
        } else {
            None
        }
    }
}

/// A phase can be read back from its label, and no other text is read as one.
pub proof fn law_phase_is_read_back(phase: SandboxPhase, label: Seq<char>)
    ensures
        labelled_phase(phase.label()) == Some(phase),
        labelled_phase(label) == Some(phase) ==> label == phase.label(),
{
    reveal_strlit("planning");
    reveal_strlit("implementation");
    reveal_strlit("review");
    reveal_strlit("merge");
    assert("planning"@.len() == 8 && "implementation"@.len() == 14 && "review"@.len() == 6
        && "merge"@.len() == 5);
}

/// A mount of a container.
#[derive(Clone, Debug, Eq, PartialEq)]
pub enum SandboxMount {
    /// A path of the host.
    Bind { host_path: String, container_path: String, read_only: bool },
    /// A volume of Docker.
    Volume { name: String, container_path: String, read_only: bool },
}

impl SandboxMount {
    /// The mount as the value of `--mount`.
    pub open spec fn rendered(&self) -> Seq<char> {
        match self {
            SandboxMount::Bind { host_path, container_path, read_only } => "type=bind,source="@
                + host_path@ + ",target="@ + container_path@ + (if *read_only {
                ",readonly"@
            } else {
                ""@
            }),
            SandboxMount::Volume { name, container_path, read_only } => "type=volume,source="@
                + name@ + ",target="@ + container_path@ + (if *read_only {
                ",readonly"@
            } else {
                ""@
            }),
        }
    }
}

/// The mount as the value of `--mount`.
pub fn render_mount(mount: &SandboxMount) -> (text: String)
    ensures
        text@ == mount.rendered(),
{
    match mount {
        SandboxMount::Bind { host_path, container_path, read_only } => {
            let mut text = concat("type=bind,source=", host_path.as_str());
            text.append(",target=");
            text.append(container_path.as_str());
            text.append(if *read_only { ",readonly" } else { "" });
            text
        },
        SandboxMount::Volume { name, container_path, read_only } => {
            let mut text = concat("type=volume,source=", name.as_str());
            text.append(",target=");
            text.append(container_path.as_str());
            text.append(if *read_only { ",readonly" } else { "" });
            text
        },
    }
}

/// What a container is started with.
#[derive(Clone, Debug, Eq, PartialEq)]
pub struct SandboxLaunchSpec {
    pub image_tag: String,
    pub container_name: String,
    pub phase: SandboxPhase,
    pub labels: Vec<(String, String)>,
    pub mounts: Vec<SandboxMount>,
    pub workdir: String,
    pub env: Vec<(String, String)>,
    /// The program and its arguments.
    pub command: Vec<String>,
    pub memory: String,
    pub cpus: String,
    pub pids_limit: u32,
    /// The user and the group; `None` for those of the image.
    pub user: Option<(u32, u32)>,
}

impl SandboxLaunchSpec {
    /// The standard limits: memory, processors, processes.
    pub fn default_caps() -> (caps: (String, String, u32))
        ensures
            caps.0@ == "8g"@,
            caps.1@ == "2.0"@,
            caps.2 == 512,
    {
        ("8g".to_owned(), "2.0".to_owned(), 512)
    }
}

/// A failed launch.
#[derive(Debug, Eq, PartialEq)]
pub enum SandboxError {
    Spawn(String),
    NonZero { status: i32, stderr: String },
    Build(String),
    InvalidSpec(String),
}

impl SandboxError {
    /// The text of the error.
    pub open spec fn text(&self) -> Seq<char> {
        match self {
            SandboxError::Spawn(detail) => "failed to spawn docker: "@ + detail@,
            SandboxError::NonZero { status, stderr } => "docker run exited with status "@
                + decimal_int(*status as int) + ": "@ + stderr@,
            SandboxError::Build(detail) => "failed to build runtime image: "@ + detail@,
            SandboxError::InvalidSpec(detail) => "invalid sandbox launch spec: "@ + detail@,
        }
    }

    /// The text of the error.
    pub fn message(&self) -> (text: String)
        ensures
            text@ == self.text(),
    {
        match self {
            SandboxError::Spawn(detail) => concat("failed to spawn docker: ", detail.as_str()),
            SandboxError::NonZero { status, stderr } => {
                let mut text = concat(
                    "docker run exited with status ",
                    decimal_i64(*status as i64).as_str(),
                );
                text.append(": ");
                text.append(stderr.as_str());
                text
            },
            SandboxError::Build(detail) => concat(
                "failed to build runtime image: ",
                detail.as_str(),
            ),
            SandboxError::InvalidSpec(detail) => concat(
                "invalid sandbox launch spec: ",
                detail.as_str(),
            ),
        }
    }
}

/// A flag before each of the values.
pub open spec fn flagged(flag: Seq<char>, values: Seq<Seq<char>>) -> Seq<Seq<char>>
    decreases values.len(),
{
    if values.len() == 0 {
        seq![]
    } else {
        flagged(flag, values.drop_last()).push(flag).push(values.last())
    }
}

/// Each pair as `name=value`.
pub open spec fn assignments(pairs: Seq<(String, String)>) -> Seq<Seq<char>> {
    pairs.map_values(|pair: (String, String)| pair.0@ + "="@ + pair.1@)
}

/// The arguments that set the user.
pub open spec fn user_argv(user: Option<(u32, u32)>) -> Seq<Seq<char>> {
    match user {
        Some((uid, gid)) => seq!["--user"@, decimal(uid as nat) + ":"@ + decimal(gid as nat)],
        None => seq![],
    }
}

/// The arguments before the image.
pub open spec fn option_argv(spec: SandboxLaunchSpec) -> Seq<Seq<char>> {
    seq![
        "run"@,
        "--rm"@,
        "--name"@,
        spec.container_name@,
        "--memory"@,
        spec.memory@,
        "--cpus"@,
        spec.cpus@,
        "--pids-limit"@,
        decimal(spec.pids_limit as nat),
        "--restart"@,
        "no"@,
        "--workdir"@,
        spec.workdir@,
    ] + user_argv(spec.user) + flagged("--label"@, assignments(spec.labels@)) + flagged(
        "--env"@,
        assignments(spec.env@),
    ) + flagged(
        "--mount"@,
        spec.mounts@.map_values(|mount: SandboxMount| mount.rendered()),
    )
}

/// The arguments of `docker`: the options, the image, and the command.
pub open spec fn docker_argv(spec: SandboxLaunchSpec) -> Seq<Seq<char>> {
    option_argv(spec).push(spec.image_tag@) + views(spec.command@)
}

fn push_assignments(args: &mut Vec<String>, flag: &str, pairs: &Vec<(String, String)>)
    ensures
        views(final(args)@) == views(old(args)@) + flagged(flag@, assignments(pairs@)),
{
    let ghost all = assignments(pairs@);
    let ghost before = views(args@);
    let mut i: usize = 0;
    assert(before + flagged(flag@, all.take(0)) =~= before);
    while i < pairs.len()
        invariant
            i <= pairs.len(),
            all == assignments(pairs@),
            views(args@) == before + flagged(flag@, all.take(i as int)),
        decreases pairs.len() - i,
    {
        let mut value = concat(pairs[i].0.as_str(), "=");
        value.append(pairs[i].1.as_str());
        assert(value@ == all[i as int]);
        let ghost then_args = args@;
        args.push(flag.to_owned());
        args.push(value);
        proof {
            assert(all.take(i + 1).drop_last() =~= all.take(i as int));
            assert(views(args@) =~= views(then_args).push(flag@).push(value@));
            assert(before + flagged(flag@, all.take(i + 1)) =~= (before + flagged(
                flag@,
                all.take(i as int),
            )).push(flag@).push(value@));
        }
        i += 1;
    }
    assert(all.take(i as int) =~= all);
}

fn push_mounts(args: &mut Vec<String>, mounts: &Vec<SandboxMount>)
    ensures
        views(final(args)@) == views(old(args)@) + flagged(
            "--mount"@,
            mounts@.map_values(|mount: SandboxMount| mount.rendered()),
        ),
{
    let ghost all = mounts@.map_values(|mount: SandboxMount| mount.rendered());
    let ghost before = views(args@);
    let mut i: usize = 0;
    assert(before + flagged("--mount"@, all.take(0)) =~= before);
    while i < mounts.len()
        invariant
            i <= mounts.len(),
            all == mounts@.map_values(|mount: SandboxMount| mount.rendered()),
            views(args@) == before + flagged("--mount"@, all.take(i as int)),
        decreases mounts.len() - i,
    {
        let value = render_mount(&mounts[i]);
        assert(value@ == all[i as int]);
        let ghost then_args = args@;
        args.push("--mount".to_owned());
        args.push(value);
        proof {
            assert(all.take(i + 1).drop_last() =~= all.take(i as int));
            assert(views(args@) =~= views(then_args).push("--mount"@).push(value@));
            assert(before + flagged("--mount"@, all.take(i + 1)) =~= (before + flagged(
                "--mount"@,
                all.take(i as int),
            )).push("--mount"@).push(value@));
        }
        i += 1;
    }
    assert(all.take(i as int) =~= all);
}

/// The arguments with which `docker` starts the container.
pub fn docker_run_args(spec: &SandboxLaunchSpec) -> (args: Vec<String>)
    ensures
        views(args@) == docker_argv(*spec),
{
    let mut args: Vec<String> = Vec::new();
    args.push("run".to_owned());
    args.push("--rm".to_owned());
    args.push("--name".to_owned());
    args.push(spec.container_name.clone());
    args.push("--memory".to_owned());
    args.push(spec.memory.clone());
    args.push("--cpus".to_owned());
    args.push(spec.cpus.clone());
    args.push("--pids-limit".to_owned());
    args.push(decimal_u64(spec.pids_limit as u64));
    args.push("--restart".to_owned());
    args.push("no".to_owned());
    args.push("--workdir".to_owned());
    args.push(spec.workdir.clone());
    let ghost head = views(args@);
    match spec.user {
        Some((uid, gid)) => {
            let mut user = concat(decimal_u64(uid as u64).as_str(), ":");
            user.append(decimal_u64(gid as u64).as_str());
            args.push("--user".to_owned());
            args.push(user);
        },
        None => {},
    }
    assert(views(args@) =~= head + user_argv(spec.user));
    push_assignments(&mut args, "--label", &spec.labels);
    push_assignments(&mut args, "--env", &spec.env);
    push_mounts(&mut args, &spec.mounts);
    assert(views(args@) =~= option_argv(*spec));
    args.push(spec.image_tag.clone());
    let ghost upto = views(args@);
    assert(upto =~= option_argv(*spec).push(spec.image_tag@));
    let mut i: usize = 0;
    while i < spec.command.len()
        invariant
            i <= spec.command.len(),
            views(args@) =~= upto + views(spec.command@).take(i as int),
        decreases spec.command.len() - i,
    {
        let ghost so_far = args@;
        args.push(spec.command[i].clone());
        proof {
            let all = views(spec.command@);
            assert(views(args@) =~= views(so_far).push(all[i as int]));
            assert(all.take(i + 1) =~= all.take(i as int).push(all[i as int]));
        }
        i += 1;
    }
    assert(views(spec.command@).take(i as int) =~= views(spec.command@));
    args
}

/// The container is removed when it ends; the image stands right before the
/// command, and the command ends the arguments.
pub proof fn law_image_precedes_command(spec: SandboxLaunchSpec)
    ensures
        docker_argv(spec)[0] == "run"@,
        docker_argv(spec)[1] == "--rm"@,
        docker_argv(spec)[option_argv(spec).len() as int] == spec.image_tag@,
        docker_argv(spec).skip(option_argv(spec).len() as int + 1) == views(spec.command@),
{
    assert(docker_argv(spec).skip(option_argv(spec).len() as int + 1) =~= views(spec.command@));
}

/// A launch as a launcher has seen it.
#[derive(Clone, Debug, Eq, PartialEq)]
pub struct RecordedLaunch {
    pub phase: SandboxPhase,
    pub container_name: String,
    pub image_tag: String,
    pub labels: Vec<(String, String)>,
    pub mounts: Vec<SandboxMount>,
    pub workdir: String,
    pub env: Vec<(String, String)>,
    pub command: Vec<String>,
}

/// What a launcher sees of a launch.
pub open spec fn recorded(spec: SandboxLaunchSpec) -> RecordedLaunch {
    RecordedLaunch {
        phase: spec.phase,
        container_name: spec.container_name,
        image_tag: spec.image_tag,
        labels: spec.labels,
        mounts: spec.mounts,
        workdir: spec.workdir,
        env: spec.env,
        command: spec.command,
    }
}

/// Starts containers and hands back what they print.
pub trait SandboxLauncher {
    fn launch(&mut self, spec: SandboxLaunchSpec) -> (result: Result<String, SandboxError>);
}

/// A launcher that starts nothing: it records each launch, and answers with the
/// outputs that it was given.
pub struct FakeSandboxLauncher {
    queue: Vec<String>,
    last: String,
    recorded: Vec<RecordedLaunch>,
    failure: Option<SandboxError>,
}

impl FakeSandboxLauncher {
    /// The outputs that are left. The last one is given again and again.
    pub closed spec fn outputs(&self) -> Seq<Seq<char>> {
        views(self.queue@).push(self.last@)
    }

    /// The failure of the next launch.
    pub closed spec fn pending_failure(&self) -> Option<SandboxError> {
        self.failure
    }

    /// The launches so far.
    pub closed spec fn seen(&self) -> Seq<RecordedLaunch> {
        self.recorded@
    }

    pub fn new() -> (launcher: FakeSandboxLauncher)
        ensures
            launcher.outputs() == seq![""@],
            launcher.pending_failure() is None,
            launcher.seen() == Seq::<RecordedLaunch>::empty(),
    {
        FakeSandboxLauncher::with_stdout("".to_owned())
    }

    /// A launcher that answers every launch with `stdout`.
    pub fn with_stdout(stdout: String) -> (launcher: FakeSandboxLauncher)
        ensures
            launcher.outputs() == seq![stdout@],
            launcher.pending_failure() is None,
            launcher.seen() == Seq::<RecordedLaunch>::empty(),
    {
        let launcher = FakeSandboxLauncher {
            queue: Vec::new(),
            last: stdout,
            recorded: Vec::new(),
            failure: None,
        };
        assert(launcher.outputs() =~= seq![stdout@]);
        launcher
    }

    /// A launcher that answers with the outputs in turn.
    pub fn with_stdouts(stdouts: Vec<String>) -> (launcher: FakeSandboxLauncher)
        requires
            stdouts.len() > 0,
        ensures
            launcher.outputs() == views(stdouts@),
            launcher.pending_failure() is None,
            launcher.seen() == Seq::<RecordedLaunch>::empty(),
    {
        let ghost all = stdouts@;
        let mut queue = stdouts;
        let last = queue.pop();
        match last {
            Some(last) => {
                let launcher = FakeSandboxLauncher {
                    queue,
                    last,
                    recorded: Vec::new(),
                    failure: None,
                };
                assert(launcher.outputs() =~= views(all));
                launcher
            },
            None => FakeSandboxLauncher::new(),
        }
    }

    /// The launcher, whose next launch fails.
    pub fn fail_with(self, error: SandboxError) -> (launcher: FakeSandboxLauncher)
        ensures
            launcher.outputs() == self.outputs(),
            launcher.pending_failure() == Some(error),
            launcher.seen() == self.seen(),
    {
        FakeSandboxLauncher {
            queue: self.queue,
            last: self.last,
            recorded: self.recorded,
            failure: Some(error),
        }
    }

    /// The launches so far.
    pub fn launches(&self) -> (launches: &Vec<RecordedLaunch>)
        ensures
            launches@ == self.seen(),
    {
        &self.recorded
    }
}

impl Default for FakeSandboxLauncher {
    fn default() -> (launcher: FakeSandboxLauncher)
        ensures
            launcher.outputs() == seq![""@],
            launcher.pending_failure() is None,
            launcher.seen() == Seq::<RecordedLaunch>::empty(),
    {
        FakeSandboxLauncher::new()
    }
}

impl SandboxLauncher for FakeSandboxLauncher {
    fn launch(&mut self, spec: SandboxLaunchSpec) -> (result: Result<String, SandboxError>)
        ensures
            final(self).seen() == old(self).seen().push(recorded(spec)),
            final(self).pending_failure() is None,
            match old(self).pending_failure() {
                Some(error) => result == Err::<String, SandboxError>(error)
                    && final(self).outputs() == old(self).outputs(),
                None => result matches Ok(stdout) && stdout@ == old(self).outputs()[0]
                    && final(self).outputs() == (if old(self).outputs().len() == 1 {
                    old(self).outputs()
                } else {
                    old(self).outputs().skip(1)
                }),
            },
    {
        self.recorded.push(
            RecordedLaunch {
                phase: spec.phase,
                container_name: spec.container_name,
                image_tag: spec.image_tag,
                labels: spec.labels,
                mounts: spec.mounts,
                workdir: spec.workdir,
                env: spec.env,
                command: spec.command,
            },
        );
        match self.failure.take() {
            Some(error) => Err(error),
            None => {
                if self.queue.len() == 0 {
                    Ok(self.last.clone())
                } else {
                    let stdout = self.queue.remove(0);
                    assert(self.outputs() =~= old(self).outputs().skip(1));
                    Ok(stdout)
                }
            },
        }
    }
}

/// The launcher that runs `docker`.
#[derive(Clone, Debug, Eq, PartialEq)]
pub struct DockerSandboxLauncher {
    pub docker_binary: String,
}

impl DockerSandboxLauncher {
    pub fn new(docker_binary: String) -> (launcher: DockerSandboxLauncher)
        ensures
            launcher.docker_binary == docker_binary,
    {
        DockerSandboxLauncher { docker_binary }
    }

    /// What a run of `docker` gave. `code` is its exit code; a program that a
    /// signal ended has none.
    pub fn result(&self, run: CommandRun, code: Option<i32>) -> (result: Result<
        String,
        SandboxError,
    >)
        ensures
            match run {
                CommandRun::NotStarted { error } => result matches Err(SandboxError::Spawn(text))
                    && text@ == "docker run: "@ + error@,
                CommandRun::Ended { success, status, stdout, stderr } => if success {
                    result == Ok::<String, SandboxError>(stdout)
                } else {
                    result == Err::<String, SandboxError>(
                        SandboxError::NonZero {
                            status: match code {
                                Some(code) => code,
                                None => -1i32,
                            },
                            stderr,
                        },
                    )
                },
            },
    {
        match run {
            CommandRun::NotStarted { error } => Err(
                SandboxError::Spawn(concat("docker run: ", error.as_str())),
            ),
            CommandRun::Ended { success, status: _, stdout, stderr } => {
                if success {
                    Ok(stdout)
                } else {
                    let status: i32 = match code {
                        Some(code) => code,
                        None => -1,
                    };
                    Err(SandboxError::NonZero { status, stderr })
                }
            },
        }
    }
}

// --- Building the image ---

/// The commands of [`RuntimeImageBuilder`], in their order.
#[derive(Clone, Copy, Debug, Eq, PartialEq, Structural)]
pub enum ImageStep {
    /// Is the image there already?
    Inspect,
    /// Build it.
    Build,
}

/// Why the files of a build could not be laid out.
#[derive(Clone, Debug, Eq, PartialEq)]
pub enum BuildContextFailure {
    Create { error: String },
    WriteDockerfile { error: String },
    WriteEntrypoint { error: String },
}

/// Builds the runtime image where it is missing.
#[derive(Clone, Debug, Eq, PartialEq)]
pub struct RuntimeImageBuilder {
    pub docker_binary: String,
}

/// What follows a command: nothing where the image is there, else its build.
pub open spec fn is_image_step(
    step: ImageStep,
    run: CommandRun,
    next: Result<Option<ImageStep>, SandboxError>,
) -> bool {
    match (step, run) {
        (ImageStep::Inspect, CommandRun::NotStarted { error }) => next matches Err(
            SandboxError::Spawn(text),
        ) && text@ == "docker image inspect: "@ + error@,
        (ImageStep::Build, CommandRun::NotStarted { error }) => next matches Err(
            SandboxError::Spawn(text),
        ) && text@ == "docker build spawn: "@ + error@,
        (ImageStep::Inspect, CommandRun::Ended { success, status, stdout, stderr }) => next
            == Ok::<Option<ImageStep>, SandboxError>(
            if success {
                None
            } else {
                Some(ImageStep::Build)
            },
        ),
        (ImageStep::Build, CommandRun::Ended { success, status, stdout, stderr }) => if success {
            next == Ok::<Option<ImageStep>, SandboxError>(None)
        } else {
            next == Err::<Option<ImageStep>, SandboxError>(SandboxError::Build(stderr))
        },
    }
}

impl RuntimeImageBuilder {
    pub fn new(docker_binary: String) -> (builder: RuntimeImageBuilder)
        ensures
            builder.docker_binary == docker_binary,
    {
        RuntimeImageBuilder { docker_binary }
    }

    /// The arguments of `docker`.
    pub fn args(&self, step: ImageStep, tag: &str) -> (args: Vec<String>)
        ensures
            views(args@) == (match step {
                ImageStep::Inspect => seq!["image"@, "inspect"@, tag@],
                ImageStep::Build => seq!["build"@, "--tag"@, tag@, "."@],
            }),
    {
        let mut args: Vec<String> = Vec::new();
        match step {
            ImageStep::Inspect => {
                args.push("image".to_owned());
                args.push("inspect".to_owned());
                args.push(tag.to_owned());
                assert(views(args@) =~= seq!["image"@, "inspect"@, tag@]);
            },
            ImageStep::Build => {
                args.push("build".to_owned());
                args.push("--tag".to_owned());
                args.push(tag.to_owned());
                args.push(".".to_owned());
                assert(views(args@) =~= seq!["build"@, "--tag"@, tag@, "."@]);
            },
        }
        args
    }

    /// What follows a command.
    pub fn advance(&self, step: ImageStep, run: CommandRun) -> (next: Result<
        Option<ImageStep>,
        SandboxError,
    >)
        ensures
            is_image_step(step, run, next),
    {
        match run {
            CommandRun::NotStarted { error } => {
                let begin = match step {
                    ImageStep::Inspect => "docker image inspect: ",
                    ImageStep::Build => "docker build spawn: ",
                };
                Err(SandboxError::Spawn(concat(begin, error.as_str())))
            },
            CommandRun::Ended { success, status: _, stdout: _, stderr } => match step {
                ImageStep::Inspect => Ok(if success { None } else { Some(ImageStep::Build) }),
                ImageStep::Build => {
                    if success {
                        Ok(None)
                    } else {
                        Err(SandboxError::Build(stderr))
                    }
                },
            },
        }
    }

    /// The error for files that could not be laid out.
    pub fn context_error(&self, failure: BuildContextFailure) -> (error: SandboxError)
        ensures
            error matches SandboxError::Build(text) && text@ == (match failure {
                BuildContextFailure::Create { error } => "create build context: "@ + error@,
                BuildContextFailure::WriteDockerfile { error } => "write Dockerfile: "@ + error@,
                BuildContextFailure::WriteEntrypoint { error } => "write entrypoint: "@ + error@,
            }),
    {
        SandboxError::Build(
            match failure {
                BuildContextFailure::Create { error } => concat(
                    "create build context: ",
                    error.as_str(),
                ),
                BuildContextFailure::WriteDockerfile { error } => concat(
                    "write Dockerfile: ",
                    error.as_str(),
                ),
                BuildContextFailure::WriteEntrypoint { error } => concat(
                    "write entrypoint: ",
                    error.as_str(),
                ),
            },
        )
    }
}

/// An image that is there is not built again.
pub proof fn law_present_image_is_not_built(
    run: CommandRun,
    next: Result<Option<ImageStep>, SandboxError>,
)
    requires
        is_image_step(ImageStep::Inspect, run, next),
        run matches CommandRun::Ended { success, .. } && success,
    ensures
        next == Ok::<Option<ImageStep>, SandboxError>(None),
{
}

// --- Preflight ---

/// How many bytes of a program's errors are reported.
pub const STDERR_LIMIT: usize = 4096;

/// Whether the errors can be cut at the limit: they are not longer, or a
/// character ends there.
pub open spec fn can_truncate(stderr: Seq<char>) -> bool {
    encode_utf8(stderr).len() <= STDERR_LIMIT || is_char_boundary(
        encode_utf8(stderr),
        STDERR_LIMIT as int,
    )
}

/// The errors, cut at the limit.
pub open spec fn truncated(stderr: Seq<char>) -> Seq<char> {
    let bytes = encode_utf8(stderr);
    if bytes.len() <= STDERR_LIMIT {
        stderr
    } else {
        decode_utf8(bytes.subrange(0, STDERR_LIMIT as int)) + "\n…(truncated "@ + decimal(
            (bytes.len() - STDERR_LIMIT) as nat,
        ) + " bytes)"@
    }
}

/// The errors, cut at the limit.
pub fn truncate_stderr(stderr: &str) -> (text: String)
    requires
        can_truncate(stderr@),
    ensures
        text@ == truncated(stderr@),
{
    let len: usize = stderr.as_bytes().len();
    if len <= STDERR_LIMIT {
        return stderr.to_owned();
    }
    let (head, _rest) = stderr.split_at(STDERR_LIMIT);
    proof {
        encode_utf8_decode_utf8(head@);
        assert(encode_utf8(head@) =~= encode_utf8(stderr@).subrange(0, STDERR_LIMIT as int));
    }
    let mut text = concat(head, "\n…(truncated ");
    text.append(decimal_u64((len - STDERR_LIMIT) as u64).as_str());
    text.append(" bytes)");
    text
}

/// Asks whether the Docker daemon can be reached.
pub trait DockerProbe {
    fn ping(&self) -> (reply: Result<(), String>);
}

/// Makes sure that the runtime image is there, and gives its tag. Asking may
/// start a build, which is why the ensurer is lent out for it.
pub trait RuntimeImageEnsurer {
    fn ensure(&mut self) -> (tag: Result<String, String>);
}

/// The probe that runs `docker version`.
#[derive(Clone, Debug, Eq, PartialEq)]
pub struct CliDockerProbe {
    pub docker_binary: String,
}

impl CliDockerProbe {
    pub fn new(docker_binary: String) -> (probe: CliDockerProbe)
        ensures
            probe.docker_binary == docker_binary,
    {
        CliDockerProbe { docker_binary }
    }

    /// The arguments of `docker`.
    pub fn args(&self) -> (args: Vec<String>)
        ensures
            views(args@) == seq!["version"@, "--format"@, "{{.Server.Version}}"@],
    {
        let mut args: Vec<String> = Vec::new();
        args.push("version".to_owned());
        args.push("--format".to_owned());
        args.push("{{.Server.Version}}".to_owned());
        assert(views(args@) =~= seq!["version"@, "--format"@, "{{.Server.Version}}"@]);
        args
    }

    /// What the run says of the daemon.
    pub fn result(&self, run: &CommandRun) -> (result: Result<(), String>)
        requires
            run matches CommandRun::Ended { success, stderr, .. } ==> *success || can_truncate(
                stderr@,
            ),
        ensures
            match run {
                CommandRun::NotStarted { error } => result matches Err(text) && text@
                    == "docker not invocable: "@ + error@,
                CommandRun::Ended { success, status, stdout, stderr } => if *success {
                    result is Ok
                } else {
                    result matches Err(text) && text@ == "docker version exited with "@ + status@
                        + ": "@ + truncated(stderr@)
                },
            },
    {
        match run {
            CommandRun::NotStarted { error } => Err(
                concat("docker not invocable: ", error.as_str()),
            ),
            CommandRun::Ended { success, status, stdout: _, stderr } => {
                if *success {
                    Ok(())
                } else {
                    let mut text = concat("docker version exited with ", status.as_str());
                    text.append(": ");
                    text.append(truncate_stderr(stderr.as_str()).as_str());
                    Err(text)
                }
            },
        }
    }
}

/// The ensurer that builds the image with [`RuntimeImageBuilder`].
#[derive(Clone, Debug, Eq, PartialEq)]
pub struct BuilderImageEnsurer {
    pub builder: RuntimeImageBuilder,
}

impl BuilderImageEnsurer {
    pub fn new(builder: RuntimeImageBuilder) -> (ensurer: BuilderImageEnsurer)
        ensures
            ensurer.builder == builder,
    {
        BuilderImageEnsurer { builder }
    }

    /// What the builder gave. The errors of a failed build are cut.
    pub fn result(&self, built: Result<String, SandboxError>) -> (tag: Result<String, String>)
        requires
            built matches Err(SandboxError::Build(stderr)) ==> can_truncate(stderr@),
        ensures
            match built {
                Ok(built_tag) => tag == Ok::<String, String>(built_tag),
                Err(SandboxError::Build(stderr)) => tag matches Err(text) && text@ == truncated(
                    stderr@,
                ),
                Err(other) => tag matches Err(text) && text@ == other.text(),
            },
    {
        match built {
            Ok(tag) => Ok(tag),
            Err(SandboxError::Build(stderr)) => Err(truncate_stderr(stderr.as_str())),
            Err(other) => Err(other.message()),
        }
    }
}

/// Why a Plan Run cannot start.
#[derive(Clone, Debug, Eq, PartialEq)]
pub enum SandboxPreflightFailure {
    DockerUnavailable(String),
    CodexAuthMissing(String),
    MiseTomlMissing(String),
    RuntimeImageBuildFailed(String),
}

impl SandboxPreflightFailure {
    /// The text of the failure.
    pub open spec fn text(&self) -> Seq<char> {
        match self {
            SandboxPreflightFailure::DockerUnavailable(detail) => "Docker daemon unavailable: "@
                + detail@,
            SandboxPreflightFailure::CodexAuthMissing(path) => "Codex auth file not found at "@
                + path@,
            SandboxPreflightFailure::MiseTomlMissing(path) =>
                "Project worktree has no mise.toml at "@ + path@,
            SandboxPreflightFailure::RuntimeImageBuildFailed(detail) =>
                "runtime image build failed: "@ + detail@,
        }
    }

    /// The text of the failure.
    pub fn message(&self) -> (text: String)
        ensures
            text@ == self.text(),
    {
        match self {
            SandboxPreflightFailure::DockerUnavailable(detail) => concat(
                "Docker daemon unavailable: ",
                detail.as_str(),
            ),
            SandboxPreflightFailure::CodexAuthMissing(path) => concat(
                "Codex auth file not found at ",
                path.as_str(),
            ),
            SandboxPreflightFailure::MiseTomlMissing(path) => concat(
                "Project worktree has no mise.toml at ",
                path.as_str(),
            ),
            SandboxPreflightFailure::RuntimeImageBuildFailed(detail) => concat(
                "runtime image build failed: ",
                detail.as_str(),
            ),
        }
    }

    /// The type of the problem that is reported.
    pub open spec fn problem_type(&self) -> Seq<char> {
        match self {
            SandboxPreflightFailure::DockerUnavailable(_) =>
                "urn:agentic-afk:sandbox-docker-unavailable"@,
            SandboxPreflightFailure::CodexAuthMissing(_) =>
                "urn:agentic-afk:sandbox-codex-auth-missing"@,
            SandboxPreflightFailure::MiseTomlMissing(_) =>
                "urn:agentic-afk:sandbox-mise-toml-missing"@,
            SandboxPreflightFailure::RuntimeImageBuildFailed(_) =>
                "urn:agentic-afk:sandbox-runtime-image-build-failed"@,
        }
    }

    /// The detail of the problem that is reported.
    pub open spec fn detail(&self) -> Seq<char> {
        match self {
            SandboxPreflightFailure::DockerUnavailable(detail) => "Docker daemon unavailable: "@
                + detail@,
            SandboxPreflightFailure::CodexAuthMissing(path) => "Codex auth file not found at "@
                + path@ + ". Run `codex login` once to create it."@,
            SandboxPreflightFailure::MiseTomlMissing(path) => "Project worktree at "@ + path@
                + " has no mise.toml. Codex Sandbox toolchain comes from mise.toml."@,
            SandboxPreflightFailure::RuntimeImageBuildFailed(stderr) => stderr@,
        }
    }
}

impl From<SandboxPreflightFailure> for CoordinatorError {
    fn from(failure: SandboxPreflightFailure) -> (error: CoordinatorError)
        ensures
            error.is(422, failure.problem_type(), failure.detail()),
    {
        match failure {
            SandboxPreflightFailure::DockerUnavailable(detail) => CoordinatorError::new(
                422,
                "urn:agentic-afk:sandbox-docker-unavailable",
                concat("Docker daemon unavailable: ", detail.as_str()),
            ),
            SandboxPreflightFailure::CodexAuthMissing(path) => {
                let mut detail = concat("Codex auth file not found at ", path.as_str());
                detail.append(". Run `codex login` once to create it.");
                CoordinatorError::new(422, "urn:agentic-afk:sandbox-codex-auth-missing", detail)
            },
            SandboxPreflightFailure::MiseTomlMissing(path) => {
                let mut detail = concat("Project worktree at ", path.as_str());
                detail.append(" has no mise.toml. Codex Sandbox toolchain comes from mise.toml.");
                CoordinatorError::new(422, "urn:agentic-afk:sandbox-mise-toml-missing", detail)
            },
            SandboxPreflightFailure::RuntimeImageBuildFailed(stderr) => CoordinatorError::new(
                422,
                "urn:agentic-afk:sandbox-runtime-image-build-failed",
                stderr,
            ),
        }
    }
}

impl vstd::std_specs::convert::FromSpecImpl<SandboxPreflightFailure> for CoordinatorError {
    open spec fn obeys_from_spec() -> bool {
        false
    }

    open spec fn from_spec(failure: SandboxPreflightFailure) -> CoordinatorError {
        arbitrary()
    }
}

/// What the preflight finds on disk.
#[derive(Clone, Debug, Eq, PartialEq)]
pub struct PreflightFiles {
    /// The path of the Project.
    pub project_path: String,
    /// The Project has a `mise.toml`.
    pub has_mise_toml: bool,
    /// The auth file of Codex can be read.
    pub auth_readable: bool,
}

/// Checks whether a Plan Run can start.
pub trait SandboxPreflightCheck {
    fn check(&mut self, files: &PreflightFiles) -> (verdict: Result<(), SandboxPreflightFailure>);
}

/// A check that always passes.
pub struct AlwaysOkSandboxPreflight;

impl SandboxPreflightCheck for AlwaysOkSandboxPreflight {
    fn check(&mut self, files: &PreflightFiles) -> (verdict: Result<(), SandboxPreflightFailure>)
        ensures
            verdict is Ok,
            *final(self) == *old(self),
    {
        Ok(())
    }
}

/// A check that always fails in one way.
pub struct RejectingSandboxPreflight {
    pub template: SandboxFailureTemplate,
}

/// The failure of a [`RejectingSandboxPreflight`].
#[derive(Clone, Debug, Eq, PartialEq)]
pub enum SandboxFailureTemplate {
    DockerUnavailable(String),
    CodexAuthMissing(String),
    MiseTomlMissing(String),
    RuntimeImageBuildFailed(String),
}

impl SandboxFailureTemplate {
    /// The failure.
    pub open spec fn failure(self) -> SandboxPreflightFailure {
        match self {
            SandboxFailureTemplate::DockerUnavailable(
                detail,
            ) => SandboxPreflightFailure::DockerUnavailable(detail),
            SandboxFailureTemplate::CodexAuthMissing(
                path,
            ) => SandboxPreflightFailure::CodexAuthMissing(path),
            SandboxFailureTemplate::MiseTomlMissing(
                path,
            ) => SandboxPreflightFailure::MiseTomlMissing(path),
            SandboxFailureTemplate::RuntimeImageBuildFailed(
                detail,
            ) => SandboxPreflightFailure::RuntimeImageBuildFailed(detail),
        }
    }
}

impl RejectingSandboxPreflight {
    pub fn new(template: SandboxFailureTemplate) -> (check: RejectingSandboxPreflight)
        ensures
            check.template == template,
    {
        RejectingSandboxPreflight { template }
    }

    fn make(&self) -> (failure: SandboxPreflightFailure)
        ensures
            failure == self.template.failure(),
    {
        match &self.template {
            SandboxFailureTemplate::DockerUnavailable(
                detail,
            ) => SandboxPreflightFailure::DockerUnavailable(detail.clone()),
            SandboxFailureTemplate::CodexAuthMissing(
                path,
            ) => SandboxPreflightFailure::CodexAuthMissing(path.clone()),
            SandboxFailureTemplate::MiseTomlMissing(
                path,
            ) => SandboxPreflightFailure::MiseTomlMissing(path.clone()),
            SandboxFailureTemplate::RuntimeImageBuildFailed(
                detail,
            ) => SandboxPreflightFailure::RuntimeImageBuildFailed(detail.clone()),
        }
    }
}

impl SandboxPreflightCheck for RejectingSandboxPreflight {
    fn check(&mut self, files: &PreflightFiles) -> (verdict: Result<(), SandboxPreflightFailure>)
        ensures
            verdict == Err::<(), SandboxPreflightFailure>(old(self).template.failure()),
            *final(self) == *old(self),
    {
        Err(self.make())
    }
}

/// The preflight of the Codex Sandbox.
pub struct SandboxPreflight<D: DockerProbe, I: RuntimeImageEnsurer> {
    pub docker: D,
    pub codex_auth_path: String,
    pub image: I,
}

/// What the preflight says before it asks for the image: the daemon, the auth
/// file and `mise.toml` are looked at in this order, and the first that fails is
/// reported.
pub open spec fn verdict_before_image(
    docker: Result<(), String>,
    codex_auth_path: String,
    files: PreflightFiles,
) -> Result<(), SandboxPreflightFailure> {
    match docker {
        Err(detail) => Err(SandboxPreflightFailure::DockerUnavailable(detail)),
        Ok(_) => if !files.auth_readable {
            Err(SandboxPreflightFailure::CodexAuthMissing(codex_auth_path))
        } else if !files.has_mise_toml {
            Err(SandboxPreflightFailure::MiseTomlMissing(files.project_path))
        } else {
            Ok(())
        },
    }
}

/// What the preflight says: the image is looked at last.
pub open spec fn preflight_verdict(
    docker: Result<(), String>,
    codex_auth_path: String,
    files: PreflightFiles,
    image: Result<String, String>,
) -> Result<(), SandboxPreflightFailure> {
    match verdict_before_image(docker, codex_auth_path, files) {
        Err(failure) => Err(failure),
        Ok(_) => match image {
            Ok(_) => Ok(()),
            Err(detail) => Err(SandboxPreflightFailure::RuntimeImageBuildFailed(detail)),
        },
    }
}

/// What the preflight says before it asks for the image.
pub fn check_before_image(
    docker: Result<(), String>,
    codex_auth_path: &String,
    files: &PreflightFiles,
) -> (verdict: Result<(), SandboxPreflightFailure>)
    ensures
        verdict == verdict_before_image(docker, *codex_auth_path, *files),
{
    match docker {
        Err(detail) => Err(SandboxPreflightFailure::DockerUnavailable(detail)),
        Ok(_) => {
            if !files.auth_readable {
                Err(SandboxPreflightFailure::CodexAuthMissing(codex_auth_path.clone()))
            } else if !files.has_mise_toml {
                Err(SandboxPreflightFailure::MiseTomlMissing(files.project_path.clone()))
            } else {
                Ok(())
            }
        },
    }
}

/// What the preflight says, given what was found.
pub fn judge_preflight(
    docker: Result<(), String>,
    codex_auth_path: &String,
    files: &PreflightFiles,
    image: Result<String, String>,
) -> (verdict: Result<(), SandboxPreflightFailure>)
    ensures
        verdict == preflight_verdict(docker, *codex_auth_path, *files, image),
{
    match check_before_image(docker, codex_auth_path, files) {
        Err(failure) => Err(failure),
        Ok(_) => match image {
            Ok(_) => Ok(()),
            Err(detail) => Err(SandboxPreflightFailure::RuntimeImageBuildFailed(detail)),
        },
    }
}

impl<D: DockerProbe, I: RuntimeImageEnsurer> SandboxPreflight<D, I> {
    pub fn new(docker: D, codex_auth_path: String, image: I) -> (preflight: SandboxPreflight<D, I>)
        ensures
            preflight.docker == docker,
            preflight.codex_auth_path == codex_auth_path,
            preflight.image == image,
    {
        SandboxPreflight { docker, codex_auth_path, image }
    }
}

impl<D: DockerProbe, I: RuntimeImageEnsurer> SandboxPreflightCheck for SandboxPreflight<D, I> {
    /// Asks the daemon, then looks at the files, and stops at the first failure:
    /// the image is not asked for then. Where nothing failed, the image is asked
    /// for once. The verdict is [`preflight_verdict`] of what the daemon and the
    /// image answered.
    fn check(&mut self, files: &PreflightFiles) -> (verdict: Result<(), SandboxPreflightFailure>)
        ensures
            final(self).docker == old(self).docker,
            final(self).codex_auth_path == old(self).codex_auth_path,
            exists|docker: Result<(), String>|
                #[trigger] call_ensures(D::ping, (&old(self).docker,), docker)
                && match verdict_before_image(docker, old(self).codex_auth_path, *files) {
                    Err(failure) => {
                        &&& verdict == Err::<(), SandboxPreflightFailure>(failure)
                        &&& final(self).image == old(self).image
                    },
                    Ok(_) => exists|ensurer: &mut I, image: Result<String, String>|
                        *ensurer == old(self).image && *final(ensurer) == final(self).image
                        && #[trigger] call_ensures(I::ensure, (ensurer,), image)
                        && verdict == preflight_verdict(
                            docker,
                            old(self).codex_auth_path,
                            *files,
                            image,
                        ),
                },
    {
        let docker = self.docker.ping();
        match check_before_image(docker, &self.codex_auth_path, files) {
            Err(failure) => Err(failure),
            Ok(_) => {
                let image = self.image.ensure();
                judge_preflight(Ok(()), &self.codex_auth_path, files, image)
            },
        }
    }
}

/// The first failure wins: whatever comes after it changes nothing.
pub proof fn law_first_preflight_failure_wins(
    docker: Result<(), String>,
    codex_auth_path: String,
    files: PreflightFiles,
    image: Result<String, String>,
)
    ensures
        docker matches Err(detail) ==> preflight_verdict(docker, codex_auth_path, files, image)
            == Err::<(), SandboxPreflightFailure>(
            SandboxPreflightFailure::DockerUnavailable(detail),
        ),
        docker is Ok && !files.auth_readable ==> preflight_verdict(
            docker,
            codex_auth_path,
            files,
            image,
        ) == Err::<(), SandboxPreflightFailure>(
            SandboxPreflightFailure::CodexAuthMissing(codex_auth_path),
        ),
        docker is Ok && files.auth_readable && !files.has_mise_toml ==> preflight_verdict(
            docker,
            codex_auth_path,
            files,
            image,
        ) == Err::<(), SandboxPreflightFailure>(
            SandboxPreflightFailure::MiseTomlMissing(files.project_path),
        ),
        preflight_verdict(docker, codex_auth_path, files, image) is Ok <==> docker is Ok
            && files.auth_readable && files.has_mise_toml && image is Ok,
{
}

} // verus!
