use pybridge::bridge::{add_name, forward, invoke, plan};
use pybridge::command::{assemble, ChildCommand};
use pybridge::error::BridgeError;
use pybridge::operation::{Operation, ADD_TOKEN, PRINTNAME_TOKEN};
use pybridge::output::{conclude, stdout_text, ProcessOutput, SpawnOutcome};
use pybridge::runtime::{
    bundled_in, locate, resolve, BundledRuntime, INTERPRETER_SUBPATH, SCRIPT_SUBPATH,
};

const EXE: &str = "/opt/shell/shell";

fn exited(status: i32, stdout: &[u8], stderr: &[u8]) -> SpawnOutcome {
    SpawnOutcome::Exited(ProcessOutput {
        status: Some(status),
        stdout: stdout.to_vec(),
        stderr: stderr.to_vec(),
    })
}

fn strings(items: &[&str]) -> Vec<String> {
    items.iter().map(|s| s.to_string()).collect()
}

#[test]
fn fixed_subpaths_and_tokens() {
    assert_eq!(INTERPRETER_SUBPATH, "python/python.exe");
    assert_eq!(SCRIPT_SUBPATH, "python/app/main.py");
    assert_eq!(ADD_TOKEN, "add");
    assert_eq!(PRINTNAME_TOKEN, "printname");
}

#[test]
fn add_runs_interpreter_with_script_and_token() {
    let mut seen: Option<ChildCommand> = None;
    let r = pybridge::bridge::add(Some(EXE), |cmd: ChildCommand| {
        seen = Some(cmd);
        exited(0, b"3\n", b"")
    });
    assert_eq!(r, Ok("3\n".to_string()));
    assert_eq!(
        seen,
        Some(ChildCommand {
            program: "/opt/shell/python/python.exe".to_string(),
            args: strings(&["/opt/shell/python/app/main.py", "add"]),
        })
    );
}

#[test]
fn add_name_passes_the_name_behind_its_token() {
    let mut seen: Option<ChildCommand> = None;
    let r = add_name(Some(EXE), "Ada".to_string(), |cmd: ChildCommand| {
        seen = Some(cmd);
        exited(0, b"Hello, Ada", b"")
    });
    assert_eq!(r, Ok("Hello, Ada".to_string()));
    assert_eq!(
        seen,
        Some(ChildCommand {
            program: "/opt/shell/python/python.exe".to_string(),
            args: strings(&["/opt/shell/python/app/main.py", "printname", "Ada"]),
        })
    );
}

#[test]
fn forward_passes_arguments_without_a_token() {
    let mut seen: Option<ChildCommand> = None;
    let r = forward(Some(EXE), strings(&["--flag", "value"]), |cmd: ChildCommand| {
        seen = Some(cmd);
        exited(0, b"ok", b"")
    });
    assert_eq!(r, Ok("ok".to_string()));
    assert_eq!(
        seen,
        Some(ChildCommand {
            program: "/opt/shell/python/python.exe".to_string(),
            args: strings(&["/opt/shell/python/app/main.py", "--flag", "value"]),
        })
    );
}

#[test]
fn forward_keeps_order_duplicates_and_empty_arguments() {
    let args = strings(&["b", "", "a", "b", "--x=1", "caf\u{e9}", " spaced out "]);
    let cmd = plan(Some(EXE), &Operation::Forward { args: args.clone() }).unwrap();
    assert_eq!(cmd.args.len(), args.len() + 1);
    assert_eq!(cmd.args[0], "/opt/shell/python/app/main.py");
    assert_eq!(&cmd.args[1..], &args[..]);
}

#[test]
fn forward_without_arguments_gives_the_script_alone() {
    let cmd = plan(Some(EXE), &Operation::Forward { args: Vec::new() }).unwrap();
    assert_eq!(cmd.args, strings(&["/opt/shell/python/app/main.py"]));
}

#[test]
fn fixed_operation_plans_the_same_vector_on_every_call() {
    let first = plan(Some(EXE), &Operation::Add).unwrap();
    let second = plan(Some(EXE), &Operation::Add).unwrap();
    assert_eq!(first, second);
    assert_eq!(first.args, strings(&["/opt/shell/python/app/main.py", "add"]));
}

#[test]
fn every_operation_starts_the_same_interpreter_and_script() {
    let a = plan(Some(EXE), &Operation::Add).unwrap();
    let b = plan(Some(EXE), &Operation::AddName { name: "Ada".to_string() }).unwrap();
    let c = plan(Some("/opt/shell/other"), &Operation::Forward { args: strings(&["x"]) }).unwrap();
    assert_eq!(a.program, b.program);
    assert_eq!(a.program, c.program);
    assert_eq!(a.args[0], b.args[0]);
    assert_eq!(a.args[0], c.args[0]);
}

#[test]
fn unknown_executable_is_an_environment_error() {
    let mut called = false;
    let r = invoke(None, &Operation::Add, |_cmd: ChildCommand| {
        called = true;
        exited(0, b"", b"")
    });
    assert_eq!(r, Err(BridgeError::Environment));
    assert!(!called);
    assert_eq!(plan(None, &Operation::Add), Err(BridgeError::Environment));
}

#[test]
fn executable_without_parent_is_a_path_error() {
    let mut called = false;
    let r = invoke(Some("/"), &Operation::Add, |_cmd: ChildCommand| {
        called = true;
        exited(0, b"", b"")
    });
    assert_eq!(r, Err(BridgeError::Path));
    assert!(!called);
    assert_eq!(plan(Some(""), &Operation::Add), Err(BridgeError::Path));
    assert_eq!(resolve("/"), Err(BridgeError::Path));
    assert_eq!(resolve(""), Err(BridgeError::Path));
}

#[test]
fn child_that_does_not_start_is_a_launch_error() {
    let r = invoke(Some(EXE), &Operation::Add, |_cmd: ChildCommand| SpawnOutcome::NotStarted);
    assert_eq!(r, Err(BridgeError::ProcessLaunch));
    assert_eq!(conclude(SpawnOutcome::NotStarted), Err(BridgeError::ProcessLaunch));
}

#[test]
fn silent_failing_child_gives_the_empty_string() {
    let r = invoke(Some(EXE), &Operation::Add, |_cmd: ChildCommand| exited(3, b"", b"boom"));
    assert_eq!(r, Ok(String::new()));
    assert_eq!(conclude(exited(1, b"", b"")), Ok(String::new()));
    assert_eq!(
        conclude(SpawnOutcome::Exited(ProcessOutput {
            status: None,
            stdout: Vec::new(),
            stderr: Vec::new(),
        })),
        Ok(String::new())
    );
}

#[test]
fn exit_code_and_stderr_do_not_change_the_text() {
    let quiet = conclude(exited(0, b"42\n", b""));
    let noisy = conclude(exited(7, b"42\n", b"Traceback (most recent call last):"));
    assert_eq!(quiet, Ok("42\n".to_string()));
    assert_eq!(noisy, quiet);
}

#[test]
fn valid_utf8_is_returned_as_written() {
    let text = "na\u{ef}ve \u{2603} \u{1f600}\r\nline two\n";
    assert_eq!(conclude(exited(0, text.as_bytes(), b"")), Ok(text.to_string()));
}

#[test]
fn invalid_bytes_are_replaced() {
    let out = ProcessOutput { status: Some(0), stdout: vec![0x66, 0x6f, 0xff, 0x6f], stderr: vec![] };
    assert_eq!(stdout_text(&out), "fo\u{fffd}o");
    let cut = ProcessOutput { status: Some(0), stdout: vec![0x61, 0xe2, 0x98], stderr: vec![] };
    assert_eq!(stdout_text(&cut), "a\u{fffd}");
    assert_eq!(conclude(SpawnOutcome::Exited(out)), Ok("fo\u{fffd}o".to_string()));
}

#[test]
fn resolve_joins_onto_the_parent_directory() {
    assert_eq!(
        resolve(EXE),
        Ok(BundledRuntime {
            interpreter: "/opt/shell/python/python.exe".to_string(),
            script: "/opt/shell/python/app/main.py".to_string(),
        })
    );
    assert_eq!(
        resolve("/opt/shell/bin/"),
        Ok(BundledRuntime {
            interpreter: "/opt/shell/python/python.exe".to_string(),
            script: "/opt/shell/python/app/main.py".to_string(),
        })
    );
    assert_eq!(
        resolve("/shell"),
        Ok(BundledRuntime {
            interpreter: "/python/python.exe".to_string(),
            script: "/python/app/main.py".to_string(),
        })
    );
}

#[test]
fn relative_executable_resolves_beside_itself() {
    assert_eq!(
        resolve("shell"),
        Ok(BundledRuntime {
            interpreter: "python/python.exe".to_string(),
            script: "python/app/main.py".to_string(),
        })
    );
    assert_eq!(
        resolve("build/shell"),
        Ok(BundledRuntime {
            interpreter: "build/python/python.exe".to_string(),
            script: "build/python/app/main.py".to_string(),
        })
    );
}

#[test]
fn locate_and_bundled_in_agree() {
    assert_eq!(locate(None), Err(BridgeError::Path));
    assert_eq!(locate(Some("/srv/tool".to_string())), Ok(bundled_in("/srv/tool")));
    assert_eq!(
        bundled_in("/srv/tool/"),
        BundledRuntime {
            interpreter: "/srv/tool/python/python.exe".to_string(),
            script: "/srv/tool/python/app/main.py".to_string(),
        }
    );
}

#[test]
fn assemble_uses_the_runtime_it_is_given() {
    let runtime = BundledRuntime { interpreter: "py".to_string(), script: "main".to_string() };
    assert_eq!(
        assemble(runtime.clone(), &Operation::Add),
        ChildCommand { program: "py".to_string(), args: strings(&["main", "add"]) }
    );
    assert_eq!(
        assemble(runtime.clone(), &Operation::AddName { name: String::new() }),
        ChildCommand { program: "py".to_string(), args: strings(&["main", "printname", ""]) }
    );
    assert_eq!(
        assemble(runtime, &Operation::Forward { args: strings(&["add", "printname"]) }),
        ChildCommand { program: "py".to_string(), args: strings(&["main", "add", "printname"]) }
    );
}
