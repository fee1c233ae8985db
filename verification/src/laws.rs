//! What holds of every call, stated over the models that the contracts use.

use vstd::prelude::*;
use vstd::utf8::{encode_utf8, encode_utf8_decode_utf8, encode_utf8_valid_utf8};

use crate::bridge::planned;
use crate::command::{child_args, fixed_prefix, CommandModel};
use crate::error::BridgeError;
use crate::operation::{OperationModel, ADD_TOKEN, PRINTNAME_TOKEN};
use crate::output::{concluded, ProcessOutput, SpawnOutcome};
use crate::runtime::{
    path_join, path_parent, resolved, RuntimeModel, INTERPRETER_SUBPATH, SCRIPT_SUBPATH,
};

verus! {

/// An operation without caller arguments asks for the same child on every
/// call from one executable: the interpreter, started with the entry script
/// and the operation's token, and with nothing else.
pub proof fn fixed_operation_vector(exe: Seq<char>, runtime: RuntimeModel)
    requires
        resolved(exe) == Some(runtime),
    ensures
        planned(Some(exe), OperationModel::Add) == Ok::<CommandModel, BridgeError>(
            CommandModel {
                program: runtime.interpreter,
                args: seq![runtime.script, ADD_TOKEN@],
            },
        ),
        ADD_TOKEN@ == seq!['a', 'd', 'd'],
{
    reveal_strlit("add");
    assert(child_args(runtime.script, OperationModel::Add) =~= seq![runtime.script, ADD_TOKEN@]);
    assert(ADD_TOKEN@ =~= seq!['a', 'd', 'd']);
}

/// The caller's arguments stand in the child's argument vector in the
/// caller's order, behind the fixed prefix, with nothing added, dropped or
/// put between them.
pub proof fn caller_arguments_follow_prefix(script: Seq<char>, op: OperationModel)
    ensures
        child_args(script, op).len() == fixed_prefix(script, op).len() + op.caller_args().len(),
        child_args(script, op).take(fixed_prefix(script, op).len() as int) == fixed_prefix(
            script,
            op,
        ),
        child_args(script, op).skip(fixed_prefix(script, op).len() as int) == op.caller_args(),
        forall|i: int|
            0 <= i < op.caller_args().len() ==> child_args(script, op)[fixed_prefix(
                script,
                op,
            ).len() + i] == op.caller_args()[i],
        fixed_prefix(script, op)[0] == script,
        op is Forward ==> child_args(script, op) == seq![script] + op->Forward_args,
        op is AddName ==> child_args(script, op) == seq![
            script,
            PRINTNAME_TOKEN@,
            op->AddName_name,
        ],
{
    let prefix = fixed_prefix(script, op);
    let all = child_args(script, op);
    assert(all.take(prefix.len() as int) =~= prefix);
    assert(all.skip(prefix.len() as int) =~= op.caller_args());
    if op is Forward {
        assert(all =~= seq![script] + op->Forward_args);
    }
    if op is AddName {
        assert(all =~= seq![script, PRINTNAME_TOKEN@, op->AddName_name]);
    }
}

/// A child that writes the text `text` to its standard output makes the call
/// return `text`, whatever its exit code and whatever it wrote to its
/// standard error.
pub proof fn written_text_is_returned(
    out: ProcessOutput,
    text: Seq<char>,
    r: Result<Seq<char>, BridgeError>,
)
    requires
        out.stdout@ == encode_utf8(text),
        concluded(SpawnOutcome::Exited(out), r),
    ensures
        r == Ok::<Seq<char>, BridgeError>(text),
{
    encode_utf8_valid_utf8(text);
    encode_utf8_decode_utf8(text);
}

/// A child that writes nothing makes the call return the empty string, also
/// where it ends with an exit code other than zero: the code is not
/// surfaced.
pub proof fn silent_child_gives_empty_text(out: ProcessOutput, r: Result<Seq<char>, BridgeError>)
    requires
        out.stdout@.len() == 0,
        concluded(SpawnOutcome::Exited(out), r),
    ensures
        r == Ok::<Seq<char>, BridgeError>(Seq::empty()),
{
    assert(out.stdout@ =~= encode_utf8(Seq::<char>::empty()));
    written_text_is_returned(out, Seq::empty(), r);
}

/// Two children that wrote the same bytes to their standard output give the
/// same results, however else they differ.
pub proof fn only_stdout_counts(
    a: ProcessOutput,
    b: ProcessOutput,
    r: Result<Seq<char>, BridgeError>,
)
    requires
        a.stdout@ == b.stdout@,
    ensures
        concluded(SpawnOutcome::Exited(a), r) == concluded(SpawnOutcome::Exited(b), r),
{
}

/// The interpreter and the entry script are found from the executable's
/// path and from nothing else: both are joined onto its parent directory,
/// whichever operation is asked for, and executables in one directory share
/// them.
pub proof fn paths_hang_on_executable_directory(
    exe: Seq<char>,
    other: Seq<char>,
    dir: Seq<char>,
    op: OperationModel,
    other_op: OperationModel,
)
    requires
        path_parent(exe) == Some(dir),
        path_parent(other) == Some(dir),
    ensures
        resolved(exe) == Some(
            RuntimeModel {
                interpreter: path_join(dir, INTERPRETER_SUBPATH@),
                script: path_join(dir, SCRIPT_SUBPATH@),
            },
        ),
        resolved(other) == resolved(exe),
        planned(Some(exe), op) is Ok,
        planned(Some(exe), op)->Ok_0.program == path_join(dir, INTERPRETER_SUBPATH@),
        planned(Some(exe), op)->Ok_0.args[0] == path_join(dir, SCRIPT_SUBPATH@),
        planned(Some(other), other_op)->Ok_0.program == planned(Some(exe), op)->Ok_0.program,
        planned(Some(other), other_op)->Ok_0.args[0] == planned(Some(exe), op)->Ok_0.args[0],
{
}

/// Each failure of planning has its own cause, and there is no other: an
/// unknown executable path, or one without a parent directory.
pub proof fn planning_fails_for_two_reasons(exe: Option<Seq<char>>, op: OperationModel)
    ensures
        planned(exe, op) == Err::<CommandModel, BridgeError>(BridgeError::Environment)
            <==> exe is None,
        planned(exe, op) == Err::<CommandModel, BridgeError>(BridgeError::Path) <==> exe is Some
            && path_parent(exe->Some_0) is None,
        planned(exe, op) is Ok <==> exe is Some && path_parent(exe->Some_0) is Some,
        planned(exe, op) != Err::<CommandModel, BridgeError>(BridgeError::ProcessLaunch),
{
}

} // verus!
