//! The invocation of the isolation runtime: which program, which arguments.

use crate::text::{decimal, render_decimal};
use crate::workspace::{input_file, input_file_path, output_dir, output_dir_path};
use vstd::prelude::*;
use vstd::string::*;

verus! {

/// Seconds after which tooling inside the sandbox should give up by itself.
pub const SOFT_TIMEOUT_SECS: u64 = 10;

/// Seconds after which the process is killed from outside. This deadline is
/// the authoritative one and lies beyond the soft one.
pub const HARD_TIMEOUT_SECS: u64 = 12;

/// The hard deadline in milliseconds.
pub const HARD_TIMEOUT_MS: u64 = 12000;

/// A process to launch: the program, its arguments in order, and whether
/// the process is to be killed when its handle is let go.
#[derive(Clone, Debug, PartialEq, Eq)]
pub struct Command {
    pub program: String,
    pub args: Vec<String>,
    pub kill_on_drop: bool,
}

/// A [`Command`] with its texts as character sequences.
pub struct CommandView {
    pub program: Seq<char>,
    pub args: Seq<Seq<char>>,
    pub kill_on_drop: bool,
}

impl View for Command {
    type V = CommandView;

    open spec fn view(&self) -> CommandView {
        CommandView {
            program: self.program@,
            args: self.args@.map_values(|a: String| a@),
            kill_on_drop: self.kill_on_drop,
        }
    }
}

impl Command {
    /// A command that runs `program` without arguments.
    pub fn new(program: &str) -> (command: Command)
        ensures
            command@ == (CommandView {
                program: program@,
                args: Seq::empty(),
                kill_on_drop: false,
            }),
    {
        let command = Command {
            program: String::from_str(program),
            args: Vec::new(),
            kill_on_drop: false,
        };
        assert(command@.args =~= Seq::empty());
        command
    }

    /// Appends one argument.
    pub fn arg(&mut self, arg: &str)
        ensures
            final(self)@ == (CommandView { args: old(self)@.args.push(arg@), ..old(self)@ }),
    {
        self.args.push(String::from_str(arg));
        assert(self@.args =~= old(self)@.args.push(arg@));
    }

    /// Sets whether the process dies with its handle.
    pub fn kill_on_drop(&mut self, kill: bool)
        ensures
            final(self)@ == (CommandView { kill_on_drop: kill, ..old(self)@ }),
    {
        self.kill_on_drop = kill;
    }
}

/// The environment entry that tells the sandboxed tooling its soft deadline.
pub open spec fn soft_timeout_env() -> Seq<char> {
    "PLAYGROUND_TIMEOUT="@ + decimal(SOFT_TIMEOUT_SECS as nat)
}

/// The arguments that every invocation starts with. They make the container
/// ephemeral, drop every capability but the one that lets the toolchain
/// write into the mounted directory, forbid gaining privileges, cut the
/// network, cap memory, swap and the number of processes, and hand in the
/// soft deadline.
pub open spec fn basic_secure_docker_args() -> Seq<Seq<char>> {
    seq![
        "run"@,
        "--rm"@,
        "--cap-drop=ALL"@,
        "--cap-add=DAC_OVERRIDE"@,
        "--security-opt=no-new-privileges"@,
        "--workdir"@,
        "/playground"@,
        "--net"@,
        "none"@,
        "--memory"@,
        "256m"@,
        "--memory-swap"@,
        "320m"@,
        "--env"@,
        soft_timeout_env(),
        "--pids-limit"@,
        "512"@,
    ]
}

/// How `host` on the host is bound to `inside` in the container.
pub open spec fn mount(host: Seq<char>, inside: Seq<char>) -> Seq<char> {
    host + ":"@ + inside
}

/// The two bind mounts of the workspace rooted at `scratch`: the input file
/// and the output directory, and nothing else of the host.
pub open spec fn mount_args(scratch: Seq<char>) -> Seq<Seq<char>> {
    seq![
        "--volume"@,
        mount(input_file(scratch), "/playground/input.rs"@),
        "--volume"@,
        mount(output_dir(scratch), "/playground-result"@),
    ]
}

/// What follows the options: the image, the toolchain entry point and its
/// own arguments.
pub open spec fn toolchain_args() -> Seq<Seq<char>> {
    seq![
        "lowlvl/playground"@,
        "rustc-wasm"@,
        "-o"@,
        "/playground-result/result.wasm"@,
        "input.rs"@,
    ]
}

/// The locked-down invocation without mounts and without a program to run
/// inside.
pub open spec fn basic_secure_docker_model() -> CommandView {
    CommandView { program: "docker"@, args: basic_secure_docker_args(), kill_on_drop: true }
}

/// The locked-down invocation with the workspace rooted at `scratch`
/// mounted.
pub open spec fn docker_model(scratch: Seq<char>) -> CommandView {
    CommandView {
        program: "docker"@,
        args: basic_secure_docker_args() + mount_args(scratch),
        kill_on_drop: true,
    }
}

/// The full invocation that compiles the input file of the workspace
/// rooted at `scratch`.
pub open spec fn compile_model(scratch: Seq<char>) -> CommandView {
    CommandView {
        program: "docker"@,
        args: basic_secure_docker_args() + mount_args(scratch) + toolchain_args(),
        kill_on_drop: true,
    }
}

/// Builds the locked-down invocation of the isolation runtime.
pub fn basic_secure_docker_command() -> (command: Command)
    ensures
        command@ == basic_secure_docker_model(),
{
    let mut command = Command::new("docker");
    command.arg("run");
    command.arg("--rm");
    command.arg("--cap-drop=ALL");
    command.arg("--cap-add=DAC_OVERRIDE");
    command.arg("--security-opt=no-new-privileges");
    command.arg("--workdir");
    command.arg("/playground");
    command.arg("--net");
    command.arg("none");
    command.arg("--memory");
    command.arg("256m");
    command.arg("--memory-swap");
    command.arg("320m");
    command.arg("--env");
    let mut env = String::from_str("PLAYGROUND_TIMEOUT=");
    let secs = render_decimal(SOFT_TIMEOUT_SECS);
    env.append(secs.as_str());
    command.arg(env.as_str());
    command.arg("--pids-limit");
    command.arg("512");
    command.kill_on_drop(true);
    assert(command@.args =~= basic_secure_docker_args());
    command
}

/// Binds `host` to `inside`.
fn mount_arg(host: &str, inside: &str) -> (arg: String)
    ensures
        arg@ == mount(host@, inside@),
{
    let mut arg = String::from_str(host);
    arg.append(":");
    arg.append(inside);
    arg
}

/// Builds the locked-down invocation and mounts the workspace rooted at
/// `scratch` into it.
pub fn docker_command(scratch: &str) -> (command: Command)
    ensures
        command@ == docker_model(scratch@),
{
    let input = input_file_path(scratch);
    let output = output_dir_path(scratch);
    let mount_input_file = mount_arg(input.as_str(), "/playground/input.rs");
    let mount_output_dir = mount_arg(output.as_str(), "/playground-result");
    let mut command = basic_secure_docker_command();
    command.arg("--volume");
    command.arg(mount_input_file.as_str());
    command.arg("--volume");
    command.arg(mount_output_dir.as_str());
    assert(command@.args =~= basic_secure_docker_args() + mount_args(scratch@));
    command
}

/// Builds the invocation that compiles the input file of the workspace
/// rooted at `scratch` into the artifact.
pub fn compile_command(scratch: &str) -> (command: Command)
    ensures
        command@ == compile_model(scratch@),
{
    let mut command = docker_command(scratch);
    command.arg("lowlvl/playground");
    command.arg("rustc-wasm");
    command.arg("-o");
    command.arg("/playground-result/result.wasm");
    command.arg("input.rs");
    assert(command@.args =~= basic_secure_docker_args() + mount_args(scratch@) + toolchain_args());
    command
}

} // verus!
