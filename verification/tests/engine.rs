use sandbox::command::compile_command;
use sandbox::engine::{Action, CompileResponse, Event, Sandbox, Stage};
use sandbox::error::Error;

type Engine = Sandbox<Vec<u8>>;

const ROOT: &str = "/tmp/playground.Zq3";

fn text(s: &str) -> String {
    s.to_string()
}

fn failed(message: &str) -> Event<Vec<u8>> {
    Event::Failed { message: text(message) }
}

fn exited(success: bool, stdout: &[u8], stderr: &[u8]) -> Event<Vec<u8>> {
    Event::Exited { success, stdout: stdout.to_vec(), stderr: stderr.to_vec() }
}

/// An engine whose workspace stands.
fn created() -> Engine {
    Engine::new()
        .advance(Event::Allocated { root: text(ROOT) })
        .advance(Event::Done)
        .advance(Event::Done)
}

/// An engine whose process is live.
fn invoked(code: &str) -> Engine {
    created().compile(code).advance(Event::Done).advance(Event::Done).advance(Event::Done)
}

#[test]
fn fresh_engine_allocates_first() {
    let engine = Engine::new();
    assert_eq!(engine.stage(), Stage::Allocating);
    assert_eq!(engine.next_action(), Some(Action::CreateScratchDir { prefix: text("playground") }));
    assert_eq!(engine.into_result(), None);
}

#[test]
fn workspace_is_set_up_in_order() {
    let engine = Engine::new().advance(Event::Allocated { root: text(ROOT) });
    assert_eq!(engine.stage(), Stage::CreatingOutputDir);
    assert_eq!(
        engine.next_action(),
        Some(Action::CreateDir { path: text("/tmp/playground.Zq3/output") })
    );
    let engine = engine.advance(Event::Done);
    assert_eq!(engine.stage(), Stage::OpeningOutputDir);
    assert_eq!(
        engine.next_action(),
        Some(Action::SetPermissions { path: text("/tmp/playground.Zq3/output"), mode: 0o777 })
    );
    let engine = engine.advance(Event::Done);
    assert_eq!(engine.stage(), Stage::Created);
    assert_eq!(engine.next_action(), None);
    assert_eq!(engine.into_result(), None);
}

#[test]
fn source_is_written_before_the_launch() {
    let engine = created().compile("fn main() {}");
    assert_eq!(engine.stage(), Stage::WritingSource);
    assert_eq!(
        engine.next_action(),
        Some(Action::WriteFile {
            path: text("/tmp/playground.Zq3/input.rs"),
            contents: text("fn main() {}"),
        })
    );
    let engine = engine.advance(Event::Done);
    assert_eq!(engine.stage(), Stage::OpeningSource);
    assert_eq!(
        engine.next_action(),
        Some(Action::SetPermissions { path: text("/tmp/playground.Zq3/input.rs"), mode: 0o777 })
    );
    let engine = engine.advance(Event::Done);
    assert_eq!(engine.stage(), Stage::SourceWritten);
    assert_eq!(engine.next_action(), Some(Action::Launch { command: compile_command(ROOT) }));
    let engine = engine.advance(Event::Done);
    assert_eq!(engine.stage(), Stage::Invoked);
    assert_eq!(engine.next_action(), Some(Action::Wait { timeout_ms: 12000 }));
}

#[test]
fn artifact_is_sought_after_the_exit() {
    let engine = invoked("fn main() {}").advance(exited(true, b"", b""));
    assert_eq!(engine.stage(), Stage::Completed);
    assert_eq!(
        engine.next_action(),
        Some(Action::OpenFile { path: text("/tmp/playground.Zq3/output/result.wasm") })
    );
    assert_eq!(engine.into_result(), None);
}

#[test]
fn accepted_source_gives_the_artifact() {
    let wasm = vec![0x00, 0x61, 0x73, 0x6d, 0x01, 0x00, 0x00, 0x00];
    let engine = invoked("fn main() {}")
        .advance(exited(true, b"", b""))
        .advance(Event::ArtifactFound { handle: wasm.clone() });
    assert_eq!(engine.stage(), Stage::Responded);
    assert_eq!(engine.next_action(), None);
    let response = engine.into_result().unwrap().unwrap();
    assert!(response.success);
    assert_eq!(response.wasm, Some(wasm));
    assert_eq!(response.stdout, "");
    assert!(response.stderr.trim().is_empty());
}

#[test]
fn warnings_come_with_the_artifact() {
    let engine = invoked("fn main() { let x = 1; }")
        .advance(exited(true, b"compiling\n", b"warning: unused variable: `x`\n"))
        .advance(Event::ArtifactFound { handle: vec![1, 2, 3] });
    assert_eq!(
        engine.into_result(),
        Some(Ok(CompileResponse {
            success: true,
            wasm: Some(vec![1, 2, 3]),
            stdout: text("compiling\n"),
            stderr: text("warning: unused variable: `x`\n"),
        }))
    );
}

#[test]
fn rejected_source_gives_diagnostics() {
    let stderr = b"error: mismatched closing delimiter: `}`\n --> input.rs:1:9\n";
    let engine = invoked("fn main( {").advance(exited(false, b"", stderr)).advance(Event::ArtifactMissing);
    assert_eq!(engine.stage(), Stage::Responded);
    let response = engine.into_result().unwrap().unwrap();
    assert!(!response.success);
    assert_eq!(response.wasm, None);
    assert_eq!(response.stdout, "");
    assert_eq!(
        response.stderr,
        "error: mismatched closing delimiter: `}`\n --> input.rs:1:9\n\nUnable to locate output file"
    );
    assert!(response.stderr.contains("mismatched closing delimiter"));
}

#[test]
fn missing_artifact_is_noted_even_on_silent_failure() {
    let engine = invoked("").advance(exited(false, b"", b"")).advance(Event::ArtifactMissing);
    let response = engine.into_result().unwrap().unwrap();
    assert!(!response.success);
    assert_eq!(response.wasm, None);
    assert_eq!(response.stderr, "\nUnable to locate output file");
}

#[test]
fn clean_exit_without_artifact_stays_a_success() {
    let engine = invoked("fn main() {}").advance(exited(true, b"ok", b"")).advance(Event::ArtifactMissing);
    assert_eq!(
        engine.into_result(),
        Some(Ok(CompileResponse {
            success: true,
            wasm: None,
            stdout: text("ok"),
            stderr: text("\nUnable to locate output file"),
        }))
    );
}

#[test]
fn failed_exit_with_artifact_keeps_both() {
    let engine = invoked("fn main() {}")
        .advance(exited(false, b"", b"error: linking failed\n"))
        .advance(Event::ArtifactFound { handle: vec![9] });
    assert_eq!(
        engine.into_result(),
        Some(Ok(CompileResponse {
            success: false,
            wasm: Some(vec![9]),
            stdout: text(""),
            stderr: text("error: linking failed\n"),
        }))
    );
}

#[test]
fn endless_loop_ends_in_the_deadline() {
    let engine = invoked("fn main() { loop {} }").advance(Event::TimedOut);
    assert_eq!(engine.stage(), Stage::TimedOut);
    assert_eq!(engine.next_action(), None);
    let error = engine.into_result().unwrap().unwrap_err();
    assert_eq!(error, Error::CompilerExecutionTimedOut { timeout_ms: 12000 });
    assert!(error.is_timeout());
    assert_eq!(error.message(), "Compiler execution took longer than 12000 ms");
}

#[test]
fn scratch_dir_failure_ends_the_request() {
    let engine = Engine::new().advance(failed("No space left on device"));
    assert_eq!(engine.stage(), Stage::InfraFailure);
    assert_eq!(engine.next_action(), None);
    assert_eq!(
        engine.into_result(),
        Some(Err(Error::UnableToCreateTempDir { source: text("No space left on device") }))
    );
}

#[test]
fn output_dir_failure_ends_the_request() {
    let engine =
        Engine::new().advance(Event::Allocated { root: text(ROOT) }).advance(failed("no space"));
    assert_eq!(engine.stage(), Stage::InfraFailure);
    assert_eq!(engine.next_action(), None);
    assert_eq!(
        engine.into_result(),
        Some(Err(Error::UnableToCreateOutputDir { source: text("no space") }))
    );
}

#[test]
fn output_permissions_failure_ends_the_request() {
    let engine = Engine::new()
        .advance(Event::Allocated { root: text(ROOT) })
        .advance(Event::Done)
        .advance(failed("not permitted"));
    assert_eq!(engine.stage(), Stage::InfraFailure);
    assert_eq!(
        engine.into_result(),
        Some(Err(Error::UnableToSetOutputPermissions { source: text("not permitted") }))
    );
}

#[test]
fn failed_setup_never_launches() {
    let mut engine = Engine::new()
        .advance(Event::Allocated { root: text(ROOT) })
        .advance(failed("no space"))
        .compile("fn main() {}");
    assert_eq!(engine.next_action(), None);
    for _ in 0..6 {
        engine = engine.advance(Event::Done);
        assert_eq!(engine.stage(), Stage::InfraFailure);
        assert_eq!(engine.next_action(), None);
    }
    engine = engine.advance(exited(true, b"", b"")).advance(Event::ArtifactFound { handle: vec![1] });
    assert_eq!(
        engine.into_result(),
        Some(Err(Error::UnableToCreateOutputDir { source: text("no space") }))
    );
}

#[test]
fn source_write_failure_ends_the_request() {
    let engine = created().compile("fn main() {}").advance(failed("disk full"));
    assert_eq!(engine.stage(), Stage::InfraFailure);
    assert_eq!(engine.next_action(), None);
    assert_eq!(
        engine.into_result(),
        Some(Err(Error::UnableToCreateSourceFile { source: text("disk full") }))
    );
}

#[test]
fn source_permissions_failure_ends_the_request() {
    let engine = created().compile("fn main() {}").advance(Event::Done).advance(failed("denied"));
    assert_eq!(
        engine.into_result(),
        Some(Err(Error::UnableToSetSourcePermissions { source: text("denied") }))
    );
}

#[test]
fn launch_failure_ends_the_request() {
    let engine = created()
        .compile("fn main() {}")
        .advance(Event::Done)
        .advance(Event::Done)
        .advance(failed("No such file or directory (os error 2)"));
    assert_eq!(engine.stage(), Stage::InfraFailure);
    let error = engine.into_result().unwrap().unwrap_err();
    assert_eq!(
        error,
        Error::UnableToExecuteCompiler { source: text("No such file or directory (os error 2)") }
    );
    assert!(!error.is_timeout());
}

#[test]
fn failure_while_waiting_ends_the_request() {
    let engine = invoked("fn main() {}").advance(failed("broken pipe"));
    assert_eq!(
        engine.into_result(),
        Some(Err(Error::UnableToExecuteCompiler { source: text("broken pipe") }))
    );
}

#[test]
fn unreadable_artifact_ends_the_request() {
    let engine = invoked("fn main() {}").advance(exited(true, b"", b"")).advance(failed("denied"));
    assert_eq!(engine.stage(), Stage::InfraFailure);
    assert_eq!(
        engine.into_result(),
        Some(Err(Error::UnableToReadOutput { source: text("denied") }))
    );
}

#[test]
fn undecodable_stdout_ends_the_request() {
    let engine = invoked("fn main() {}").advance(exited(true, &[b'a', 0xff], b"fine"));
    assert_eq!(engine.stage(), Stage::InfraFailure);
    assert_eq!(engine.next_action(), None);
    assert_eq!(
        engine.into_result(),
        Some(Err(Error::OutputNotUtf8 {
            source: text("invalid utf-8 sequence of 1 bytes from index 1")
        }))
    );
}

#[test]
fn undecodable_stderr_ends_the_request() {
    let engine = invoked("fn main() {}").advance(exited(false, b"fine", &[0xc3]));
    assert_eq!(engine.stage(), Stage::InfraFailure);
    assert_eq!(
        engine.into_result(),
        Some(Err(Error::OutputNotUtf8 {
            source: text("incomplete utf-8 byte sequence from index 0")
        }))
    );
}

#[test]
fn stdout_is_decoded_first() {
    let engine = invoked("fn main() {}").advance(exited(true, &[0xff], &[b'x', b'y', 0xfe]));
    assert_eq!(
        engine.into_result(),
        Some(Err(Error::OutputNotUtf8 {
            source: text("invalid utf-8 sequence of 1 bytes from index 0")
        }))
    );
}

#[test]
fn undecodable_output_is_not_cut_short() {
    let engine = invoked("fn main() {}")
        .advance(exited(true, b"long valid prefix \xff tail", b""))
        .advance(Event::ArtifactFound { handle: vec![1] });
    match engine.into_result() {
        Some(Err(Error::OutputNotUtf8 { .. })) => {}
        other => panic!("ended in {:?}", other),
    }
}

#[test]
fn wide_characters_pass_through() {
    let engine = invoked("fn main() {}")
        .advance(exited(true, "héllo ✓".as_bytes(), "警告\n".as_bytes()))
        .advance(Event::ArtifactFound { handle: vec![] });
    assert_eq!(
        engine.into_result(),
        Some(Ok(CompileResponse {
            success: true,
            wasm: Some(vec![]),
            stdout: text("héllo ✓"),
            stderr: text("警告\n"),
        }))
    );
}

#[test]
fn source_is_ignored_until_the_workspace_stands() {
    let engine = Engine::new().compile("fn main() {}");
    assert_eq!(engine.stage(), Stage::Allocating);
    let engine = engine.advance(Event::Allocated { root: text(ROOT) }).compile("fn main() {}");
    assert_eq!(engine.stage(), Stage::CreatingOutputDir);
    assert_eq!(
        engine.next_action(),
        Some(Action::CreateDir { path: text("/tmp/playground.Zq3/output") })
    );
}

#[test]
fn second_source_is_ignored() {
    let engine = created().compile("fn first() {}").compile("fn second() {}");
    assert_eq!(engine.stage(), Stage::WritingSource);
    assert_eq!(
        engine.next_action(),
        Some(Action::WriteFile {
            path: text("/tmp/playground.Zq3/input.rs"),
            contents: text("fn first() {}"),
        })
    );
    let engine = invoked("fn first() {}").compile("fn second() {}");
    assert_eq!(engine.stage(), Stage::Invoked);
}

#[test]
fn events_out_of_place_change_nothing() {
    let engine = Engine::new()
        .advance(Event::Done)
        .advance(Event::TimedOut)
        .advance(exited(true, b"", b""))
        .advance(Event::ArtifactMissing)
        .advance(Event::ArtifactFound { handle: vec![1] });
    assert_eq!(engine.stage(), Stage::Allocating);

    let engine = created()
        .advance(Event::Done)
        .advance(failed("late"))
        .advance(Event::Allocated { root: text("/elsewhere") })
        .advance(Event::TimedOut);
    assert_eq!(engine.stage(), Stage::Created);
    let engine = engine.compile("fn main() {}");
    assert_eq!(
        engine.next_action(),
        Some(Action::WriteFile {
            path: text("/tmp/playground.Zq3/input.rs"),
            contents: text("fn main() {}"),
        })
    );

    let engine = invoked("fn main() {}")
        .advance(Event::Done)
        .advance(Event::ArtifactMissing)
        .advance(Event::Allocated { root: text("/elsewhere") });
    assert_eq!(engine.stage(), Stage::Invoked);

    let engine = invoked("fn main() {}")
        .advance(exited(true, b"", b""))
        .advance(Event::TimedOut)
        .advance(Event::Done)
        .advance(exited(false, b"again", b"again"));
    assert_eq!(engine.stage(), Stage::Completed);
}

#[test]
fn finished_request_stays_finished() {
    let engine = invoked("fn main() {}")
        .advance(exited(true, b"out", b"err"))
        .advance(Event::ArtifactFound { handle: vec![7] })
        .advance(Event::ArtifactMissing)
        .advance(failed("late"))
        .advance(Event::TimedOut)
        .advance(exited(false, b"", b""))
        .compile("fn other() {}")
        .advance(Event::Done);
    assert_eq!(engine.stage(), Stage::Responded);
    assert_eq!(engine.next_action(), None);
    assert_eq!(
        engine.into_result(),
        Some(Ok(CompileResponse {
            success: true,
            wasm: Some(vec![7]),
            stdout: text("out"),
            stderr: text("err"),
        }))
    );

    let engine = invoked("fn main() {}")
        .advance(Event::TimedOut)
        .advance(exited(true, b"", b""))
        .advance(Event::ArtifactFound { handle: vec![7] })
        .advance(failed("late"));
    assert_eq!(engine.stage(), Stage::TimedOut);
    assert_eq!(
        engine.into_result(),
        Some(Err(Error::CompilerExecutionTimedOut { timeout_ms: 12000 }))
    );
}

#[test]
fn two_requests_keep_their_workspaces_apart() {
    let first = Engine::new()
        .advance(Event::Allocated { root: text("/tmp/playground.aaa") })
        .advance(Event::Done)
        .advance(Event::Done)
        .compile("mod input; fn main() {}");
    let second = Engine::new()
        .advance(Event::Allocated { root: text("/tmp/playground.aab") })
        .advance(Event::Done)
        .advance(Event::Done)
        .compile("mod output; fn main() {}");
    assert_eq!(
        first.next_action(),
        Some(Action::WriteFile {
            path: text("/tmp/playground.aaa/input.rs"),
            contents: text("mod input; fn main() {}"),
        })
    );
    assert_eq!(
        second.next_action(),
        Some(Action::WriteFile {
            path: text("/tmp/playground.aab/input.rs"),
            contents: text("mod output; fn main() {}"),
        })
    );
    let first = first.advance(Event::Done).advance(Event::Done);
    let second = second.advance(Event::Done).advance(Event::Done);
    assert_eq!(
        first.next_action(),
        Some(Action::Launch { command: compile_command("/tmp/playground.aaa") })
    );
    assert_eq!(
        second.next_action(),
        Some(Action::Launch { command: compile_command("/tmp/playground.aab") })
    );
    let first = first.advance(Event::Done).advance(exited(true, b"", b""));
    let second = second.advance(Event::Done).advance(exited(true, b"", b""));
    assert_eq!(
        first.next_action(),
        Some(Action::OpenFile { path: text("/tmp/playground.aaa/output/result.wasm") })
    );
    assert_eq!(
        second.next_action(),
        Some(Action::OpenFile { path: text("/tmp/playground.aab/output/result.wasm") })
    );
}

#[test]
fn handle_can_be_any_type() {
    let engine: Sandbox<u32> = Sandbox::new()
        .advance(Event::Allocated { root: text(ROOT) })
        .advance(Event::Done)
        .advance(Event::Done)
        .compile("fn main() {}")
        .advance(Event::Done)
        .advance(Event::Done)
        .advance(Event::Done)
        .advance(Event::Exited { success: true, stdout: vec![], stderr: vec![] })
        .advance(Event::ArtifactFound { handle: 42 });
    assert_eq!(engine.into_result().unwrap().unwrap().wasm, Some(42));
}
