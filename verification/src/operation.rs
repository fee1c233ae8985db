//! The operations that the user interface can request.

use vstd::prelude::*;

verus! {

/// The token that selects the computation in the entry script.
pub const ADD_TOKEN: &'static str = "add";

/// The token that makes the entry script render a name.
pub const PRINTNAME_TOKEN: &'static str = "printname";

/// One request from the user interface.
#[derive(Clone, Debug, PartialEq, Eq)]
pub enum Operation {
    /// The computation that takes no argument.
    Add,
    /// Render the given name.
    AddName { name: String },
    /// Hand the caller's arguments to the entry script as they are, with no
    /// token in front of them.
    Forward { args: Vec<String> },
}

/// Mathematical content of an [`Operation`].
pub enum OperationModel {
    Add,
    AddName { name: Seq<char> },
    Forward { args: Seq<Seq<char>> },
}

impl View for Operation {
    type V = OperationModel;

    open spec fn view(&self) -> OperationModel {
        match self {
            Operation::Add => OperationModel::Add,
            Operation::AddName { name } => OperationModel::AddName { name: name@ },
            Operation::Forward { args } => OperationModel::Forward { args: args.deep_view() },
        }
    }
}

impl OperationModel {
    /// The fixed token of the operation: one string, or none at all.
    pub open spec fn token(self) -> Seq<Seq<char>> {
        match self {
            OperationModel::Add => seq![ADD_TOKEN@],
            OperationModel::AddName { .. } => seq![PRINTNAME_TOKEN@],
            OperationModel::Forward { .. } => Seq::empty(),
        }
    }

    /// What the caller supplied, in the caller's order.
    pub open spec fn caller_args(self) -> Seq<Seq<char>> {
        match self {
            OperationModel::Add => Seq::empty(),
            OperationModel::AddName { name } => seq![name],
            OperationModel::Forward { args } => args,
        }
    }
}

} // verus!
