use vstd::prelude::*;

verus! {

/// A ready-to-run invocation: the interpreter's arguments and two hints for
/// whoever starts the process.
pub struct PsScript {
    /// The interpreter's arguments, in order.
    pub args: Vec<&'static str>,
    /// Whether the process should be started without a visible window.
    pub hidden: bool,
    /// Whether each command should be echoed before it runs.
    pub print_commands: bool,
}

} // verus!
