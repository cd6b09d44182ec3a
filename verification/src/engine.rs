//! The execution engine: one single-pass state machine per compile request.
//!
//! The engine never touches the filesystem or a process. It says which
//! action is due ([`Sandbox::next_action`]); a driver performs it and
//! reports what happened ([`Sandbox::advance`]). A request runs
//!
//! `Allocating → CreatingOutputDir → OpeningOutputDir → Created`
//!
//! while the workspace is set up, and after [`Sandbox::compile`]
//!
//! `WritingSource → OpeningSource → SourceWritten → Invoked → Completed → Responded`,
//!
//! unless it ends early in `TimedOut` or `InfraFailure`.

use crate::command::{compile_command, compile_model, Command, CommandView, HARD_TIMEOUT_MS};
use crate::error::{Error, ErrorView};
use crate::output::{decoded, vec_to_str};
use crate::workspace::{
    artifact_file, artifact_file_path, input_file, input_file_path, output_dir, output_dir_path,
    scratch_prefix, WIDE_OPEN_MODE,
};
use vstd::prelude::*;
use vstd::string::*;

verus! {

/// Where a request stands.
#[derive(Clone, Copy, Debug, PartialEq, Eq, Structural)]
pub enum Stage {
    /// The scratch directory is being allocated.
    Allocating,
    /// The output directory is being made.
    CreatingOutputDir,
    /// The output directory is being opened up to other users.
    OpeningOutputDir,
    /// The workspace stands; nothing is written yet.
    Created,
    /// The source text is being written to the input file.
    WritingSource,
    /// The input file is being opened up to other users.
    OpeningSource,
    /// The source text is on disk; the process is being launched.
    SourceWritten,
    /// The process is live and awaited under the hard deadline.
    Invoked,
    /// The process has exited; the artifact is being looked for.
    Completed,
    /// The response is ready.
    Responded,
    /// The hard deadline passed and the process was killed.
    TimedOut,
    /// The sandbox itself failed.
    InfraFailure,
}

/// What a compile request produced: the exit status of the process, the
/// artifact if there is one, and the two captured streams as text.
/// `success` and `wasm` are independent of each other.
#[derive(Debug, PartialEq, Eq)]
pub struct CompileResponse<A> {
    pub success: bool,
    pub wasm: Option<A>,
    pub stdout: String,
    pub stderr: String,
}

/// A [`CompileResponse`] with its texts as character sequences.
pub struct ResponseView<A> {
    pub success: bool,
    pub wasm: Option<A>,
    pub stdout: Seq<char>,
    pub stderr: Seq<char>,
}

impl<A> View for CompileResponse<A> {
    type V = ResponseView<A>;

    open spec fn view(&self) -> ResponseView<A> {
        ResponseView {
            success: self.success,
            wasm: self.wasm,
            stdout: self.stdout@,
            stderr: self.stderr@,
        }
    }
}

/// What the driver is to do next.
#[derive(Debug, PartialEq, Eq)]
pub enum Action {
    /// Make a fresh, uniquely named directory whose name starts with
    /// `prefix`, and report its path.
    CreateScratchDir { prefix: String },
    /// Make the directory `path`.
    CreateDir { path: String },
    /// Set the permission bits of `path` to `mode`.
    SetPermissions { path: String, mode: u32 },
    /// Write `contents` to the file `path`.
    WriteFile { path: String, contents: String },
    /// Launch `command`, capturing its two output streams.
    Launch { command: Command },
    /// Await the exit of the launched process for at most `timeout_ms`
    /// milliseconds; past that, kill it with all its descendants.
    Wait { timeout_ms: u64 },
    /// Open the file `path` if it exists.
    OpenFile { path: String },
}

/// An [`Action`] with its texts as character sequences.
pub enum ActionView {
    CreateScratchDir { prefix: Seq<char> },
    CreateDir { path: Seq<char> },
    SetPermissions { path: Seq<char>, mode: u32 },
    WriteFile { path: Seq<char>, contents: Seq<char> },
    Launch { command: CommandView },
    Wait { timeout_ms: u64 },
    OpenFile { path: Seq<char> },
}

impl View for Action {
    type V = ActionView;

    open spec fn view(&self) -> ActionView {
        match *self {
            Action::CreateScratchDir { prefix } => ActionView::CreateScratchDir { prefix: prefix@ },
            Action::CreateDir { path } => ActionView::CreateDir { path: path@ },
            Action::SetPermissions { path, mode } => ActionView::SetPermissions {
                path: path@,
                mode,
            },
            Action::WriteFile { path, contents } => ActionView::WriteFile {
                path: path@,
                contents: contents@,
            },
            Action::Launch { command } => ActionView::Launch { command: command@ },
            Action::Wait { timeout_ms } => ActionView::Wait { timeout_ms },
            Action::OpenFile { path } => ActionView::OpenFile { path: path@ },
        }
    }
}

/// What the driver reports back.
#[derive(Debug, PartialEq, Eq)]
pub enum Event<A> {
    /// The scratch directory was made at `root`.
    Allocated { root: String },
    /// The action went through and there is nothing more to say.
    Done,
    /// The action failed; `message` says why.
    Failed { message: String },
    /// The process exited by itself before the deadline.
    Exited { success: bool, stdout: Vec<u8>, stderr: Vec<u8> },
    /// The deadline passed; the process and its descendants were killed.
    TimedOut,
    /// The file exists and was opened.
    ArtifactFound { handle: A },
    /// The file does not exist.
    ArtifactMissing,
}

/// An [`Event`] with its texts and bytes as sequences.
pub enum EventView<A> {
    Allocated { root: Seq<char> },
    Done,
    Failed { message: Seq<char> },
    Exited { success: bool, stdout: Seq<u8>, stderr: Seq<u8> },
    TimedOut,
    ArtifactFound { handle: A },
    ArtifactMissing,
}

impl<A> View for Event<A> {
    type V = EventView<A>;

    open spec fn view(&self) -> EventView<A> {
        match *self {
            Event::Allocated { root } => EventView::Allocated { root: root@ },
            Event::Done => EventView::Done,
            Event::Failed { message } => EventView::Failed { message: message@ },
            Event::Exited { success, stdout, stderr } => EventView::Exited {
                success,
                stdout: stdout@,
                stderr: stderr@,
            },
            Event::TimedOut => EventView::TimedOut,
            Event::ArtifactFound { handle } => EventView::ArtifactFound { handle },
            Event::ArtifactMissing => EventView::ArtifactMissing,
        }
    }
}

/// The stage of a request together with what that stage has in hand.
pub enum StateView<A> {
    Allocating,
    CreatingOutputDir,
    OpeningOutputDir,
    Created,
    WritingSource,
    OpeningSource,
    SourceWritten,
    Invoked,
    Completed { success: bool, stdout: Seq<char>, stderr: Seq<char> },
    Responded { response: ResponseView<A> },
    TimedOut,
    InfraFailure { error: ErrorView },
}

impl<A> StateView<A> {
    /// The bare stage.
    pub open spec fn stage(self) -> Stage {
        match self {
            StateView::Allocating => Stage::Allocating,
            StateView::CreatingOutputDir => Stage::CreatingOutputDir,
            StateView::OpeningOutputDir => Stage::OpeningOutputDir,
            StateView::Created => Stage::Created,
            StateView::WritingSource => Stage::WritingSource,
            StateView::OpeningSource => Stage::OpeningSource,
            StateView::SourceWritten => Stage::SourceWritten,
            StateView::Invoked => Stage::Invoked,
            StateView::Completed { .. } => Stage::Completed,
            StateView::Responded { .. } => Stage::Responded,
            StateView::TimedOut => Stage::TimedOut,
            StateView::InfraFailure { .. } => Stage::InfraFailure,
        }
    }
}

/// The whole of a request: the root of its workspace (empty until it is
/// allocated), the source text (empty until it is handed in), and the
/// state.
pub struct SandboxView<A> {
    pub scratch: Seq<char>,
    pub code: Seq<char>,
    pub state: StateView<A>,
}

/// The note that is added to `stderr` where the artifact is missing.
pub open spec fn missing_artifact_note() -> Seq<char> {
    "\nUnable to locate output file"@
}

/// The error that a failed action means at `stage`, if an action is due
/// there at all.
pub open spec fn failure_at(stage: Stage, message: Seq<char>) -> Option<ErrorView> {
    match stage {
        Stage::Allocating => Some(ErrorView::UnableToCreateTempDir { source: message }),
        Stage::CreatingOutputDir => Some(ErrorView::UnableToCreateOutputDir { source: message }),
        Stage::OpeningOutputDir => Some(
            ErrorView::UnableToSetOutputPermissions { source: message },
        ),
        Stage::WritingSource => Some(ErrorView::UnableToCreateSourceFile { source: message }),
        Stage::OpeningSource => Some(ErrorView::UnableToSetSourcePermissions { source: message }),
        Stage::SourceWritten => Some(ErrorView::UnableToExecuteCompiler { source: message }),
        Stage::Invoked => Some(ErrorView::UnableToExecuteCompiler { source: message }),
        Stage::Completed => Some(ErrorView::UnableToReadOutput { source: message }),
        _ => None,
    }
}

/// The state after the process exited with the given status and streams:
/// both streams are decoded, `stdout` first, and the first one that is not
/// text ends the request.
pub open spec fn after_exit<A>(success: bool, stdout: Seq<u8>, stderr: Seq<u8>) -> StateView<A> {
    match decoded(stdout) {
        Err(error) => StateView::InfraFailure { error },
        Ok(out) => match decoded(stderr) {
            Err(error) => StateView::InfraFailure { error },
            Ok(err) => StateView::Completed { success, stdout: out, stderr: err },
        },
    }
}

/// The state that follows `state` on `event`. An event that answers no
/// action due in `state` leaves it as it is.
pub open spec fn next_state<A>(state: StateView<A>, event: EventView<A>) -> StateView<A> {
    match event {
        EventView::Allocated { .. } => match state {
            StateView::Allocating => StateView::CreatingOutputDir,
            _ => state,
        },
        EventView::Done => match state {
            StateView::CreatingOutputDir => StateView::OpeningOutputDir,
            StateView::OpeningOutputDir => StateView::Created,
            StateView::WritingSource => StateView::OpeningSource,
            StateView::OpeningSource => StateView::SourceWritten,
            StateView::SourceWritten => StateView::Invoked,
            _ => state,
        },
        EventView::Failed { message } => match failure_at(state.stage(), message) {
            Some(error) => StateView::InfraFailure { error },
            None => state,
        },
        EventView::Exited { success, stdout, stderr } => match state {
            StateView::Invoked => after_exit(success, stdout, stderr),
            _ => state,
        },
        EventView::TimedOut => match state {
            StateView::Invoked => StateView::TimedOut,
            _ => state,
        },
        EventView::ArtifactFound { handle } => match state {
            StateView::Completed { success, stdout, stderr } => StateView::Responded {
                response: ResponseView { success, wasm: Some(handle), stdout, stderr },
            },
            _ => state,
        },
        EventView::ArtifactMissing => match state {
            StateView::Completed { success, stdout, stderr } => StateView::Responded {
                response: ResponseView {
                    success,
                    wasm: None,
                    stdout,
                    stderr: stderr + missing_artifact_note(),
                },
            },
            _ => state,
        },
    }
}

/// Whether `event` is one of the reports that the driver may give of
/// `action`.
pub open spec fn answers<A>(action: ActionView, event: EventView<A>) -> bool {
    match action {
        ActionView::CreateScratchDir { .. } => event is Allocated || event is Failed,
        ActionView::CreateDir { .. } => event is Done || event is Failed,
        ActionView::SetPermissions { .. } => event is Done || event is Failed,
        ActionView::WriteFile { .. } => event is Done || event is Failed,
        ActionView::Launch { .. } => event is Done || event is Failed,
        ActionView::Wait { .. } => event is Exited || event is TimedOut || event is Failed,
        ActionView::OpenFile { .. } => {
            event is ArtifactFound || event is ArtifactMissing || event is Failed
        },
    }
}

/// What can happen to an engine from outside.
pub enum Input<A> {
    /// The source text is handed in.
    Source { code: Seq<char> },
    /// The driver reports an event.
    Report { event: EventView<A> },
}

impl Stage {
    /// The place of a stage on the way from allocation to response. The two
    /// early ends share the place behind the last.
    pub open spec fn position(self) -> nat {
        match self {
            Stage::Allocating => 0,
            Stage::CreatingOutputDir => 1,
            Stage::OpeningOutputDir => 2,
            Stage::Created => 3,
            Stage::WritingSource => 4,
            Stage::OpeningSource => 5,
            Stage::SourceWritten => 6,
            Stage::Invoked => 7,
            Stage::Completed => 8,
            Stage::Responded => 9,
            Stage::TimedOut => 10,
            Stage::InfraFailure => 10,
        }
    }
}

impl<A> SandboxView<A> {
    /// A request at its very start.
    pub open spec fn initial() -> SandboxView<A> {
        SandboxView { scratch: Seq::empty(), code: Seq::empty(), state: StateView::Allocating }
    }

    /// The bare stage.
    pub open spec fn stage(self) -> Stage {
        self.state.stage()
    }

    /// Whether the request has ended, in a response or in an error.
    pub open spec fn finished(self) -> bool {
        self.state is Responded || self.state is TimedOut || self.state is InfraFailure
    }

    /// The request after `code` was handed in: in `Created` the source is
    /// taken and writing begins; in every other stage nothing changes.
    pub open spec fn begin(self, code: Seq<char>) -> SandboxView<A> {
        match self.state {
            StateView::Created => SandboxView { code, state: StateView::WritingSource, ..self },
            _ => self,
        }
    }

    /// The request after the driver reported `event`.
    pub open spec fn step(self, event: EventView<A>) -> SandboxView<A> {
        SandboxView {
            scratch: match (self.state, event) {
                (StateView::Allocating, EventView::Allocated { root }) => root,
                _ => self.scratch,
            },
            code: self.code,
            state: next_state(self.state, event),
        }
    }

    /// The request after one input.
    pub open spec fn take(self, input: Input<A>) -> SandboxView<A> {
        match input {
            Input::Source { code } => self.begin(code),
            Input::Report { event } => self.step(event),
        }
    }

    /// The request after a run of inputs, taken in order.
    pub open spec fn run(self, inputs: Seq<Input<A>>) -> SandboxView<A>
        decreases inputs.len(),
    {
        if inputs.len() == 0 {
            self
        } else {
            self.run(inputs.drop_last()).take(inputs.last())
        }
    }

    /// The action that is due, if any. None is due while the engine waits
    /// for the source and once the request has ended.
    pub open spec fn pending(self) -> Option<ActionView> {
        match self.state {
            StateView::Allocating => Some(
                ActionView::CreateScratchDir { prefix: scratch_prefix() },
            ),
            StateView::CreatingOutputDir => Some(
                ActionView::CreateDir { path: output_dir(self.scratch) },
            ),
            StateView::OpeningOutputDir => Some(
                ActionView::SetPermissions { path: output_dir(self.scratch), mode: WIDE_OPEN_MODE },
            ),
            StateView::Created => None,
            StateView::WritingSource => Some(
                ActionView::WriteFile { path: input_file(self.scratch), contents: self.code },
            ),
            StateView::OpeningSource => Some(
                ActionView::SetPermissions { path: input_file(self.scratch), mode: WIDE_OPEN_MODE },
            ),
            StateView::SourceWritten => Some(
                ActionView::Launch { command: compile_model(self.scratch) },
            ),
            StateView::Invoked => Some(ActionView::Wait { timeout_ms: HARD_TIMEOUT_MS }),
            StateView::Completed { .. } => Some(
                ActionView::OpenFile { path: artifact_file(self.scratch) },
            ),
            StateView::Responded { .. } => None,
            StateView::TimedOut => None,
            StateView::InfraFailure { .. } => None,
        }
    }

    /// What the request ended in, if it has ended.
    pub open spec fn outcome(self) -> Option<Result<ResponseView<A>, ErrorView>> {
        match self.state {
            StateView::Responded { response } => Some(Ok(response)),
            StateView::TimedOut => Some(
                Err(ErrorView::CompilerExecutionTimedOut { timeout_ms: HARD_TIMEOUT_MS }),
            ),
            StateView::InfraFailure { error } => Some(Err(error)),
            _ => None,
        }
    }
}

/// An optional action with its texts as character sequences.
pub open spec fn action_view(action: Option<Action>) -> Option<ActionView> {
    match action {
        Some(a) => Some(a@),
        None => None,
    }
}

/// An outcome with its texts as character sequences.
pub open spec fn outcome_view<A>(
    outcome: Option<Result<CompileResponse<A>, Error>>,
) -> Option<Result<ResponseView<A>, ErrorView>> {
    match outcome {
        Some(Ok(response)) => Some(Ok(response@)),
        Some(Err(error)) => Some(Err(error@)),
        None => None,
    }
}

enum State<A> {
    Allocating,
    CreatingOutputDir,
    OpeningOutputDir,
    Created,
    WritingSource,
    OpeningSource,
    SourceWritten,
    Invoked,
    Completed { success: bool, stdout: String, stderr: String },
    Responded { response: CompileResponse<A> },
    TimedOut,
    InfraFailure { error: Error },
}

impl<A> View for State<A> {
    type V = StateView<A>;

    closed spec fn view(&self) -> StateView<A> {
        match *self {
            State::Allocating => StateView::Allocating,
            State::CreatingOutputDir => StateView::CreatingOutputDir,
            State::OpeningOutputDir => StateView::OpeningOutputDir,
            State::Created => StateView::Created,
            State::WritingSource => StateView::WritingSource,
            State::OpeningSource => StateView::OpeningSource,
            State::SourceWritten => StateView::SourceWritten,
            State::Invoked => StateView::Invoked,
            State::Completed { success, stdout, stderr } => StateView::Completed {
                success,
                stdout: stdout@,
                stderr: stderr@,
            },
            State::Responded { response } => StateView::Responded { response: response@ },
            State::TimedOut => StateView::TimedOut,
            State::InfraFailure { error } => StateView::InfraFailure { error: error@ },
        }
    }
}

/// The engine of one compile request. It is made, driven through the set-up
/// of its workspace, given the source once, driven to its end, and asked
/// for the outcome; it is never used for a second request.
pub struct Sandbox<A> {
    scratch: String,
    code: String,
    state: State<A>,
}

impl<A> View for Sandbox<A> {
    type V = SandboxView<A>;

    closed spec fn view(&self) -> SandboxView<A> {
        SandboxView { scratch: self.scratch@, code: self.code@, state: self.state@ }
    }
}

/// The state after a failed action.
fn failed<A>(state: State<A>, message: String) -> (next: State<A>)
    ensures
        next@ == next_state(state@, EventView::<A>::Failed { message: message@ }),
{
    match state {
        State::Allocating => State::InfraFailure {
            error: Error::UnableToCreateTempDir { source: message },
        },
        State::CreatingOutputDir => State::InfraFailure {
            error: Error::UnableToCreateOutputDir { source: message },
        },
        State::OpeningOutputDir => State::InfraFailure {
            error: Error::UnableToSetOutputPermissions { source: message },
        },
        State::WritingSource => State::InfraFailure {
            error: Error::UnableToCreateSourceFile { source: message },
        },
        State::OpeningSource => State::InfraFailure {
            error: Error::UnableToSetSourcePermissions { source: message },
        },
        State::SourceWritten => State::InfraFailure {
            error: Error::UnableToExecuteCompiler { source: message },
        },
        State::Invoked => State::InfraFailure {
            error: Error::UnableToExecuteCompiler { source: message },
        },
        State::Completed { .. } => State::InfraFailure {
            error: Error::UnableToReadOutput { source: message },
        },
        other => other,
    }
}

/// The state after the process exited by itself.
fn exited<A>(success: bool, stdout: Vec<u8>, stderr: Vec<u8>) -> (next: State<A>)
    ensures
        next@ == after_exit::<A>(success, stdout@, stderr@),
{
    match vec_to_str(stdout) {
        Err(error) => State::InfraFailure { error },
        Ok(out) => match vec_to_str(stderr) {
            Err(error) => State::InfraFailure { error },
            Ok(err) => State::Completed { success, stdout: out, stderr: err },
        },
    }
}

/// The state that follows `state` on `event`.
fn settle<A>(state: State<A>, event: Event<A>) -> (next: State<A>)
    ensures
        next@ == next_state(state@, event@),
{
    match event {
        Event::Allocated { .. } => match state {
            State::Allocating => State::CreatingOutputDir,
            other => other,
        },
        Event::Done => match state {
            State::CreatingOutputDir => State::OpeningOutputDir,
            State::OpeningOutputDir => State::Created,
            State::WritingSource => State::OpeningSource,
            State::OpeningSource => State::SourceWritten,
            State::SourceWritten => State::Invoked,
            other => other,
        },
        Event::Failed { message } => failed(state, message),
        Event::Exited { success, stdout, stderr } => match state {
            State::Invoked => exited(success, stdout, stderr),
            other => other,
        },
        Event::TimedOut => match state {
            State::Invoked => State::TimedOut,
            other => other,
        },
        Event::ArtifactFound { handle } => match state {
            State::Completed { success, stdout, stderr } => State::Responded {
                response: CompileResponse { success, wasm: Some(handle), stdout, stderr },
            },
            other => other,
        },
        Event::ArtifactMissing => match state {
            State::Completed { success, stdout, stderr } => {
                let mut stderr = stderr;
                stderr.append("\nUnable to locate output file");
                State::Responded {
                    response: CompileResponse { success, wasm: None, stdout, stderr },
                }
            },
            other => other,
        },
    }
}

impl<A> Sandbox<A> {
    /// A fresh engine. Its first action allocates the scratch directory.
    pub fn new() -> (sandbox: Sandbox<A>)
        ensures
            sandbox@ == SandboxView::<A>::initial(),
    {
        Sandbox { scratch: String::new(), code: String::new(), state: State::Allocating }
    }

    /// Hands in the source text. Once the workspace stands (`Created`) the
    /// engine takes the text and begins to write it; in any other stage the
    /// call changes nothing, so an engine serves one request only.
    pub fn compile(self, code: &str) -> (sandbox: Sandbox<A>)
        ensures
            sandbox@ == self@.begin(code@),
    {
        match self.state {
            State::Created => Sandbox {
                scratch: self.scratch,
                code: String::from_str(code),
                state: State::WritingSource,
            },
            _ => self,
        }
    }

    /// Takes in what the driver reports of the action that was due.
    pub fn advance(self, event: Event<A>) -> (sandbox: Sandbox<A>)
        ensures
            sandbox@ == self@.step(event@),
    {
        match self.state {
            State::Allocating => match event {
                Event::Allocated { root } => Sandbox {
                    scratch: root,
                    code: self.code,
                    state: State::CreatingOutputDir,
                },
                other => Sandbox {
                    scratch: self.scratch,
                    code: self.code,
                    state: settle(State::Allocating, other),
                },
            },
            state => Sandbox { scratch: self.scratch, code: self.code, state: settle(state, event) },
        }
    }

    /// The stage the request is in.
    pub fn stage(&self) -> (stage: Stage)
        ensures
            stage == self@.stage(),
    {
        match self.state {
            State::Allocating => Stage::Allocating,
            State::CreatingOutputDir => Stage::CreatingOutputDir,
            State::OpeningOutputDir => Stage::OpeningOutputDir,
            State::Created => Stage::Created,
            State::WritingSource => Stage::WritingSource,
            State::OpeningSource => Stage::OpeningSource,
            State::SourceWritten => Stage::SourceWritten,
            State::Invoked => Stage::Invoked,
            State::Completed { .. } => Stage::Completed,
            State::Responded { .. } => Stage::Responded,
            State::TimedOut => Stage::TimedOut,
            State::InfraFailure { .. } => Stage::InfraFailure,
        }
    }

    /// The action that is due, if any.
    pub fn next_action(&self) -> (action: Option<Action>)
        ensures
            action_view(action) == self@.pending(),
    {
        match self.state {
            State::Allocating => Some(
                Action::CreateScratchDir { prefix: String::from_str("playground") },
            ),
            State::CreatingOutputDir => Some(
                Action::CreateDir { path: output_dir_path(self.scratch.as_str()) },
            ),
            State::OpeningOutputDir => Some(
                Action::SetPermissions {
                    path: output_dir_path(self.scratch.as_str()),
                    mode: WIDE_OPEN_MODE,
                },
            ),
            State::Created => None,
            State::WritingSource => Some(
                Action::WriteFile {
                    path: input_file_path(self.scratch.as_str()),
                    contents: self.code.clone(),
                },
            ),
            State::OpeningSource => Some(
                Action::SetPermissions {
                    path: input_file_path(self.scratch.as_str()),
                    mode: WIDE_OPEN_MODE,
                },
            ),
            State::SourceWritten => Some(
                Action::Launch { command: compile_command(self.scratch.as_str()) },
            ),
            State::Invoked => Some(Action::Wait { timeout_ms: HARD_TIMEOUT_MS }),
            State::Completed { .. } => Some(
                Action::OpenFile { path: artifact_file_path(self.scratch.as_str()) },
            ),
            State::Responded { .. } => None,
            State::TimedOut => None,
            State::InfraFailure { .. } => None,
        }
    }

    /// Gives up the engine for what the request ended in: the response, or
    /// the error. A request that has not ended gives nothing.
    pub fn into_result(self) -> (outcome: Option<Result<CompileResponse<A>, Error>>)
        ensures
            outcome_view(outcome) == self@.outcome(),
    {
        match self.state {
            State::Responded { response } => Some(Ok(response)),
            State::TimedOut => Some(
                Err(Error::CompilerExecutionTimedOut { timeout_ms: HARD_TIMEOUT_MS }),
            ),
            State::InfraFailure { error } => Some(Err(error)),
            _ => None,
        }
    }
}

} // verus!
