//! What holds of every compile request, proved over the model of the
//! engine.

use crate::command::{
    soft_timeout_env, HARD_TIMEOUT_MS, HARD_TIMEOUT_SECS, SOFT_TIMEOUT_SECS,
};
use crate::error::ErrorView;
use crate::engine::{
    answers, failure_at, missing_artifact_note, ActionView, EventView, Input, ResponseView,
    SandboxView, Stage,
};
use crate::text::decimal;
use crate::workspace::{artifact_file, child, input_file, output_dir};
use vstd::prelude::*;
use vstd::utf8::{decode_utf8, valid_utf8};

verus! {

/// The hard deadline lies strictly beyond the soft one, and the sandboxed
/// tooling is told the soft one.
pub proof fn lemma_deadlines()
    ensures
        SOFT_TIMEOUT_SECS < HARD_TIMEOUT_SECS,
        HARD_TIMEOUT_MS == HARD_TIMEOUT_SECS * 1000,
        soft_timeout_env() == "PLAYGROUND_TIMEOUT=10"@,
{
    reveal_strlit("PLAYGROUND_TIMEOUT=");
    reveal_strlit("PLAYGROUND_TIMEOUT=10");
    reveal_with_fuel(decimal, 2);
}

/// Where the process exits by itself with both streams being text and the
/// artifact is there, the request ends in a response that carries the
/// artifact, the exit status as it was, and the two streams unchanged.
pub proof fn lemma_response_with_artifact<A>(
    s: SandboxView<A>,
    success: bool,
    stdout: Seq<u8>,
    stderr: Seq<u8>,
    handle: A,
)
    requires
        s.stage() == Stage::Invoked,
        valid_utf8(stdout),
        valid_utf8(stderr),
    ensures
        s.step(EventView::Exited { success, stdout, stderr }).step(
            EventView::ArtifactFound { handle },
        ).outcome() == Some(
            Ok::<ResponseView<A>, ErrorView>(
                ResponseView {
                    success,
                    wasm: Some(handle),
                    stdout: decode_utf8(stdout),
                    stderr: decode_utf8(stderr),
                },
            ),
        ),
{
}

/// Where the process exits by itself with both streams being text and the
/// artifact is missing, the request still ends in a response: without an
/// artifact, with the exit status as it was, and with diagnostics that are
/// not empty and begin with everything the toolchain wrote to `stderr`.
pub proof fn lemma_response_without_artifact<A>(
    s: SandboxView<A>,
    success: bool,
    stdout: Seq<u8>,
    stderr: Seq<u8>,
)
    requires
        s.stage() == Stage::Invoked,
        valid_utf8(stdout),
        valid_utf8(stderr),
    ensures
        s.step(EventView::Exited { success, stdout, stderr }).step(
            EventView::ArtifactMissing,
        ).outcome() == Some(
            Ok::<ResponseView<A>, ErrorView>(
                ResponseView {
                    success,
                    wasm: None,
                    stdout: decode_utf8(stdout),
                    stderr: decode_utf8(stderr) + missing_artifact_note(),
                },
            ),
        ),
        (decode_utf8(stderr) + missing_artifact_note()).len() > 0,
        decode_utf8(stderr).is_prefix_of(decode_utf8(stderr) + missing_artifact_note()),
{
    reveal_strlit("\nUnable to locate output file");
}

/// Where a captured stream is not UTF-8, the request ends in
/// `OutputNotUtf8`, whatever the exit status: no response is made from a
/// part of the bytes.
pub proof fn lemma_undecodable_output_fails<A>(
    s: SandboxView<A>,
    success: bool,
    stdout: Seq<u8>,
    stderr: Seq<u8>,
)
    requires
        s.stage() == Stage::Invoked,
        !valid_utf8(stdout) || !valid_utf8(stderr),
    ensures
        s.step(EventView::Exited { success, stdout, stderr }).outcome() matches Some(Err(e))
            && e is OutputNotUtf8,
{
}

/// A request that has ended stays as it is, whatever comes in later:
/// nothing more is due and the outcome stands.
pub proof fn lemma_finished_stays<A>(s: SandboxView<A>, inputs: Seq<Input<A>>)
    requires
        s.finished(),
    ensures
        s.run(inputs) == s,
        s.pending() is None,
        s.outcome() is Some,
    decreases inputs.len(),
{
    if inputs.len() > 0 {
        lemma_finished_stays(s, inputs.drop_last());
    }
}

/// A report of the action that is due moves the request on, towards its
/// end; any other report leaves it exactly as it was. So a driver that
/// performs what is due and reports it reaches the end of the request in a
/// bounded number of steps.
pub proof fn lemma_answers_move_on<A>(s: SandboxView<A>, event: EventView<A>)
    ensures
        s.pending() matches Some(action) && answers(action, event) ==> s.stage().position()
            < s.step(event).stage().position(),
        !(s.pending() matches Some(action) && answers(action, event)) ==> s.step(event) == s,
{
}

/// Where an action fails, the request ends in the infrastructure error of
/// that action, never in a response and never in the error of the
/// deadline, and nothing is due afterwards, whatever comes in.
pub proof fn lemma_failed_action_ends_request<A>(
    s: SandboxView<A>,
    message: Seq<char>,
    inputs: Seq<Input<A>>,
)
    requires
        s.pending() is Some,
    ensures
        failure_at(s.stage(), message) matches Some(error) && !error.is_timeout() && s.step(
            EventView::Failed { message },
        ).run(inputs).outcome() == Some(Err::<ResponseView<A>, ErrorView>(error)),
        s.step(EventView::Failed { message }).stage() == Stage::InfraFailure,
        s.step(EventView::Failed { message }).run(inputs).pending() is None,
{
    lemma_finished_stays(s.step(EventView::Failed { message }), inputs);
}

/// Where the process outlives the hard deadline, the request ends in
/// `CompilerExecutionTimedOut` with that deadline, an end of its own beside
/// the infrastructure failures, and nothing is due afterwards.
pub proof fn lemma_timeout_is_reported<A>(s: SandboxView<A>, inputs: Seq<Input<A>>)
    requires
        s.stage() == Stage::Invoked,
    ensures
        s.step(EventView::TimedOut).stage() == Stage::TimedOut,
        s.step(EventView::TimedOut).run(inputs).outcome() == Some(
            Err::<ResponseView<A>, ErrorView>(
                ErrorView::CompilerExecutionTimedOut { timeout_ms: HARD_TIMEOUT_MS },
            ),
        ),
        s.step(EventView::TimedOut).run(inputs).pending() is None,
{
    lemma_finished_stays(s.step(EventView::TimedOut), inputs);
}

/// Where the workspace cannot be set up, the request ends in the error of
/// the step that failed, and the process is never launched: no action is
/// due afterwards, whatever comes in.
pub proof fn lemma_setup_failure_never_launches<A>(
    s: SandboxView<A>,
    message: Seq<char>,
    inputs: Seq<Input<A>>,
)
    requires
        s.stage() == Stage::Allocating || s.stage() == Stage::CreatingOutputDir || s.stage()
            == Stage::OpeningOutputDir,
    ensures
        s.step(EventView::Failed { message }).run(inputs).pending() is None,
        s.step(EventView::Failed { message }).run(inputs).outcome() == Some(
            Err::<ResponseView<A>, ErrorView>(
                match s.stage() {
                    Stage::Allocating => ErrorView::UnableToCreateTempDir { source: message },
                    Stage::CreatingOutputDir => ErrorView::UnableToCreateOutputDir {
                        source: message,
                    },
                    _ => ErrorView::UnableToSetOutputPermissions { source: message },
                },
            ),
        ),
{
    lemma_finished_stays(s.step(EventView::Failed { message }), inputs);
}

/// One input moves a request by at most one stage along the way, or ends
/// it early. The process is launched only from `SourceWritten`, awaited
/// only in `Invoked`, and the artifact is looked for only in `Completed`:
/// so the source is on disk before the launch, and the process is gone
/// before the output directory is read.
pub proof fn lemma_one_stage_at_a_time<A>(s: SandboxView<A>, input: Input<A>)
    ensures
        s.take(input).stage() == s.stage() || s.take(input).stage().position()
            == s.stage().position() + 1 || (s.take(input).stage() == Stage::InfraFailure
            && !s.finished()) || (s.take(input).stage() == Stage::TimedOut && s.stage()
            == Stage::Invoked),
        s.pending() matches Some(ActionView::Launch { .. }) ==> s.stage() == Stage::SourceWritten,
        s.pending() matches Some(ActionView::Wait { .. }) ==> s.stage() == Stage::Invoked,
        s.pending() matches Some(ActionView::OpenFile { .. }) ==> s.stage() == Stage::Completed,
{
}

/// Two texts that end in the same text and are equal begin with equal
/// texts.
proof fn lemma_same_tail<T>(a: Seq<T>, b: Seq<T>, tail: Seq<T>)
    requires
        a + tail == b + tail,
    ensures
        a == b,
{
    assert((a + tail).len() == a.len() + tail.len());
    assert forall|i: int| 0 <= i < a.len() implies a[i] == b[i] by {
        assert((a + tail)[i] == a[i]);
    }
    assert(a =~= b);
}

/// The same entry of two different directories lies at two different
/// paths, unless one directory is written as the other with a `/` behind
/// it.
pub proof fn lemma_child_apart(a: Seq<char>, b: Seq<char>, name: Seq<char>)
    requires
        a != b,
        a != b.push('/'),
        b != a.push('/'),
    ensures
        child(a, name) != child(b, name),
{
    let bare_a = a.len() == 0 || a.last() == '/';
    let bare_b = b.len() == 0 || b.last() == '/';
    let head_a = if bare_a {
        a
    } else {
        a + seq!['/']
    };
    let head_b = if bare_b {
        b
    } else {
        b + seq!['/']
    };
    if child(a, name) == child(b, name) {
        lemma_same_tail(head_a, head_b, name);
        assert(a + seq!['/'] =~= a.push('/'));
        assert(b + seq!['/'] =~= b.push('/'));
        if !bare_a && !bare_b {
            assert(a =~= head_a.drop_last());
            assert(b =~= head_b.drop_last());
        }
    }
}

/// Two workspaces with different roots share no file: their input files,
/// their output directories and their artifacts lie at different paths.
/// The source text has no part in any of these paths.
pub proof fn lemma_workspaces_apart(a: Seq<char>, b: Seq<char>)
    requires
        a != b,
        a != b.push('/'),
        b != a.push('/'),
    ensures
        input_file(a) != input_file(b),
        output_dir(a) != output_dir(b),
        artifact_file(a) != artifact_file(b),
{
    lemma_child_apart(a, b, "input.rs"@);
    lemma_child_apart(a, b, "output"@);
    reveal_strlit("output");
    let oa = output_dir(a);
    let ob = output_dir(b);
    assert(oa.last() == 't' && ob.last() == 't');
    lemma_child_apart(oa, ob, "result.wasm"@);
}

} // verus!
