//! One bridged call from end to end: plan the child process, have it run,
//! and hand back what it printed.

use vstd::prelude::*;

use crate::command::{assemble, command_for, ChildCommand, CommandModel};
use crate::error::BridgeError;
use crate::operation::{Operation, OperationModel};
use crate::output::{conclude, concluded, result_text, SpawnOutcome};
use crate::runtime::{resolve, resolved};

verus! {

/// Mathematical content of the executable's path, where it was found.
pub open spec fn path_text(exe: Option<&str>) -> Option<Seq<char>> {
    match exe {
        Some(path) => Some(path@),
        None => None,
    }
}

/// The command that a call of `op` asks for, or the reason why there is
/// none: the executable's own path is unknown, or it has no parent.
pub open spec fn planned(exe: Option<Seq<char>>, op: OperationModel) -> Result<
    CommandModel,
    BridgeError,
> {
    match exe {
        None => Err(BridgeError::Environment),
        Some(path) => match resolved(path) {
            None => Err(BridgeError::Path),
            Some(runtime) => Ok(command_for(runtime, op)),
        },
    }
}

/// Mathematical content of a plan.
pub open spec fn plan_model(r: Result<ChildCommand, BridgeError>) -> Result<
    CommandModel,
    BridgeError,
> {
    match r {
        Ok(cmd) => Ok(cmd@),
        Err(e) => Err(e),
    }
}

/// Plans the child process for `op`. `exe` is the path of the running
/// executable, or `None` where it could not be determined. The runtime is
/// resolved anew for every call.
pub fn plan(exe: Option<&str>, op: &Operation) -> (r: Result<ChildCommand, BridgeError>)
    ensures
        plan_model(r) == planned(path_text(exe), op@),
{
    match exe {
        None => Err(BridgeError::Environment),
        Some(path) => match resolve(path) {
            Err(e) => Err(e),
            Ok(runtime) => Ok(assemble(runtime, op)),
        },
    }
}

/// `r` is a possible result of a call of `op` when `spawn` runs the child:
/// a failed plan is the result as it is; otherwise `spawn` was given the
/// planned command, and the result is made of what it returned.
pub open spec fn invoked<F: FnOnce(ChildCommand) -> SpawnOutcome>(
    exe: Option<Seq<char>>,
    op: OperationModel,
    spawn: F,
    r: Result<Seq<char>, BridgeError>,
) -> bool {
    match planned(exe, op) {
        Err(e) => r == Err::<Seq<char>, BridgeError>(e),
        Ok(model) => exists|cmd: ChildCommand, outcome: SpawnOutcome|
            cmd@ == model && #[trigger] call_ensures(spawn, (cmd,), outcome) && concluded(
                outcome,
                r,
            ),
    }
}

/// Runs `op`: plans the child process, lets `spawn` run it to its end, and
/// returns its standard output as text. `spawn` is called once, with the
/// planned command, and only where there is a plan.
pub fn invoke<F: FnOnce(ChildCommand) -> SpawnOutcome>(
    exe: Option<&str>,
    op: &Operation,
    spawn: F,
) -> (r: Result<String, BridgeError>)
    requires
        forall|cmd: ChildCommand|
            planned(path_text(exe), op@) == Ok::<CommandModel, BridgeError>(cmd@)
                ==> #[trigger] call_requires(spawn, (cmd,)),
    ensures
        invoked(path_text(exe), op@, spawn, result_text(r)),
{
    match plan(exe, op) {
        Err(e) => Err(e),
        Ok(cmd) => {
            let ghost given = cmd;
            let outcome = spawn(cmd);
            let r = conclude(outcome);
            assert(call_ensures(spawn, (given,), outcome));
            r
        },
    }
}

/// The computation without arguments: the entry script is run with the
/// token `add`.
pub fn add<F: FnOnce(ChildCommand) -> SpawnOutcome>(exe: Option<&str>, spawn: F) -> (r: Result<
    String,
    BridgeError,
>)
    requires
        forall|cmd: ChildCommand|
            planned(path_text(exe), OperationModel::Add) == Ok::<CommandModel, BridgeError>(cmd@)
                ==> #[trigger] call_requires(spawn, (cmd,)),
    ensures
        invoked(path_text(exe), OperationModel::Add, spawn, result_text(r)),
{
    invoke(exe, &Operation::Add, spawn)
}

/// Renders a name: the entry script is run with the token `printname` and
/// the name.
pub fn add_name<F: FnOnce(ChildCommand) -> SpawnOutcome>(
    exe: Option<&str>,
    name: String,
    spawn: F,
) -> (r: Result<String, BridgeError>)
    requires
        forall|cmd: ChildCommand|
            planned(path_text(exe), OperationModel::AddName { name: name@ }) == Ok::<
                CommandModel,
                BridgeError,
            >(cmd@) ==> #[trigger] call_requires(spawn, (cmd,)),
    ensures
        invoked(path_text(exe), OperationModel::AddName { name: name@ }, spawn, result_text(r)),
{
    invoke(exe, &Operation::AddName { name }, spawn)
}

/// Hands the caller's arguments to the entry script as they are.
pub fn forward<F: FnOnce(ChildCommand) -> SpawnOutcome>(
    exe: Option<&str>,
    args: Vec<String>,
    spawn: F,
) -> (r: Result<String, BridgeError>)
    requires
        forall|cmd: ChildCommand|
            planned(path_text(exe), OperationModel::Forward { args: args.deep_view() }) == Ok::<
                CommandModel,
                BridgeError,
            >(cmd@) ==> #[trigger] call_requires(spawn, (cmd,)),
    ensures
        invoked(
            path_text(exe),
            OperationModel::Forward { args: args.deep_view() },
            spawn,
            result_text(r),
        ),
{
    invoke(exe, &Operation::Forward { args }, spawn)
}

} // verus!
