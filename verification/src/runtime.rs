//! Where the bundled interpreter and its entry script live: both hang on the
//! directory of the running executable, never on the working directory.

use vstd::prelude::*;

use crate::error::BridgeError;

verus! {

/// The interpreter binary, relative to the executable's directory.
pub const INTERPRETER_SUBPATH: &'static str = "python/python.exe";

/// The entry script, relative to the executable's directory.
pub const SCRIPT_SUBPATH: &'static str = "python/app/main.py";

/// The text of what `std::path::Path::parent` yields for the path written
/// as `path`: the path without its last component, or `None` where there is
/// no such component to take off.
pub uninterp spec fn path_parent(path: Seq<char>) -> Option<Seq<char>>;

/// The text of what `std::path::Path::join` yields for the path written as
/// `base` and the path written as `rel`.
pub uninterp spec fn path_join(base: Seq<char>, rel: Seq<char>) -> Seq<char>;

/// Calls `std::path::Path::parent`. Trusted: the result is the parent that
/// std computes for `path`, as text; nothing is claimed about its shape.
#[verifier::external_body]
fn parent_of(path: &str) -> (dir: Option<String>)
    ensures
        match dir {
            Some(found) => path_parent(path@) == Some(found@),
            None => path_parent(path@) is None,
        },
{
    match std::path::Path::new(path).parent() {
        Some(dir) => Some(dir.to_string_lossy().into_owned()),
        None => None,
    }
}

/// Calls `std::path::Path::join`. Trusted: the result is the path that std
/// builds from `base` and `rel`, as text; nothing is claimed about its shape.
#[verifier::external_body]
fn join_path(base: &str, rel: &str) -> (joined: String)
    ensures
        joined@ == path_join(base@, rel@),
{
    std::path::Path::new(base).join(rel).to_string_lossy().into_owned()
}

/// The two files of the bundled runtime that a call needs.
#[derive(Clone, Debug, PartialEq, Eq)]
pub struct BundledRuntime {
    /// Path of the interpreter binary.
    pub interpreter: String,
    /// Path of the entry script handed to the interpreter.
    pub script: String,
}

/// Mathematical content of a [`BundledRuntime`].
pub struct RuntimeModel {
    pub interpreter: Seq<char>,
    pub script: Seq<char>,
}

impl View for BundledRuntime {
    type V = RuntimeModel;

    open spec fn view(&self) -> RuntimeModel {
        RuntimeModel { interpreter: self.interpreter@, script: self.script@ }
    }
}

/// The runtime bundled under the directory `dir`.
pub open spec fn runtime_under(dir: Seq<char>) -> RuntimeModel {
    RuntimeModel {
        interpreter: path_join(dir, INTERPRETER_SUBPATH@),
        script: path_join(dir, SCRIPT_SUBPATH@),
    }
}

/// The runtime that belongs to the executable at `exe`, if that path has a
/// parent directory.
pub open spec fn resolved(exe: Seq<char>) -> Option<RuntimeModel> {
    match path_parent(exe) {
        Some(dir) => Some(runtime_under(dir)),
        None => None,
    }
}

/// Joins the two fixed subpaths onto the executable's directory.
pub fn bundled_in(dir: &str) -> (runtime: BundledRuntime)
    ensures
        runtime@ == runtime_under(dir@),
{
    BundledRuntime {
        interpreter: join_path(dir, INTERPRETER_SUBPATH),
        script: join_path(dir, SCRIPT_SUBPATH),
    }
}

/// Decides on the parent directory that was found for the executable: with
/// none there is nothing to resolve against, and the call fails.
pub fn locate(parent: Option<String>) -> (r: Result<BundledRuntime, BridgeError>)
    ensures
        parent is None ==> r == Err::<BundledRuntime, BridgeError>(BridgeError::Path),
        parent is Some ==> r is Ok && r->Ok_0@ == runtime_under(parent->Some_0@),
{
    match parent {
        Some(dir) => Ok(bundled_in(dir.as_str())),
        None => Err(BridgeError::Path),
    }
}

/// Resolves the bundled runtime from the path of the running executable.
/// Fails with [`BridgeError::Path`] exactly when that path has no parent.
pub fn resolve(exe: &str) -> (r: Result<BundledRuntime, BridgeError>)
    ensures
        resolved(exe@) is None ==> r == Err::<BundledRuntime, BridgeError>(BridgeError::Path),
        resolved(exe@) is Some ==> r is Ok && r->Ok_0@ == resolved(exe@)->Some_0,
{
    locate(parent_of(exe))
}

} // verus!
