//! The child process that one operation asks for.

use vstd::prelude::*;

use crate::operation::{Operation, OperationModel, ADD_TOKEN, PRINTNAME_TOKEN};
use crate::runtime::{BundledRuntime, RuntimeModel};

verus! {

/// A program and the arguments it is started with.
#[derive(Clone, Debug, PartialEq, Eq)]
pub struct ChildCommand {
    /// Path of the program to start.
    pub program: String,
    /// Its arguments, the program's own name not among them.
    pub args: Vec<String>,
}

/// Mathematical content of a [`ChildCommand`].
pub struct CommandModel {
    pub program: Seq<char>,
    pub args: Seq<Seq<char>>,
}

impl View for ChildCommand {
    type V = CommandModel;

    open spec fn view(&self) -> CommandModel {
        CommandModel { program: self.program@, args: self.args.deep_view() }
    }
}

/// What stands in front of the caller's arguments: the entry script, then
/// the operation's token where it has one.
pub open spec fn fixed_prefix(script: Seq<char>, op: OperationModel) -> Seq<Seq<char>> {
    seq![script] + op.token()
}

/// The argument vector of the child: the fixed prefix, then the caller's
/// arguments in their order, and nothing else.
pub open spec fn child_args(script: Seq<char>, op: OperationModel) -> Seq<Seq<char>> {
    fixed_prefix(script, op) + op.caller_args()
}

/// The command that runs `op` on the given runtime.
pub open spec fn command_for(runtime: RuntimeModel, op: OperationModel) -> CommandModel {
    CommandModel { program: runtime.interpreter, args: child_args(runtime.script, op) }
}

/// Builds the command that runs `op` on `runtime`.
pub fn assemble(runtime: BundledRuntime, op: &Operation) -> (cmd: ChildCommand)
    ensures
        cmd@ == command_for(runtime@, op@),
{
    let BundledRuntime { interpreter, script } = runtime;
    let ghost script_text = script@;
    let mut args: Vec<String> = Vec::new();
    args.push(script);
    match op {
        Operation::Add => {
            args.push(ADD_TOKEN.to_owned());
        },
        Operation::AddName { name } => {
            args.push(PRINTNAME_TOKEN.to_owned());
            args.push(name.clone());
        },
        Operation::Forward { args: extra } => {
            let n: usize = extra.len();
            let mut i: usize = 0;
            while i < n
                invariant
                    n == extra.len(),
                    i <= n,
                    args@.len() == i + 1,
                    args.deep_view() =~= seq![script_text] + extra.deep_view().take(i as int),
                decreases n - i,
            {
                let ghost held = args@;
                args.push(extra[i].clone());
                assert forall|k: int| 0 <= k <= i + 1 implies args.deep_view()[k] == (seq![
                    script_text,
                ] + extra.deep_view().take(i + 1))[k] by {
                    if k <= i {
                        assert(args@[k] == held[k]);
                        assert(held[k].deep_view() == (seq![script_text]
                            + extra.deep_view().take(i as int))[k]);
                    }
                }
                i += 1;
            }
            assert(extra.deep_view().take(n as int) =~= extra.deep_view());
        },
    }
    assert(args.deep_view() =~= child_args(script_text, op@));
    ChildCommand { program: interpreter, args }
}

} // verus!
