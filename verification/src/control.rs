use vstd::prelude::*;

verus! {

/// A control instruction to the agent, such as quitting its event loop.
#[derive(Debug, Clone, Copy, PartialEq, Eq, Structural)]
pub enum Control {
    /// Signal to quit the agent event loop.
    Quit,
}

/// An instruction to the agent, such as terminating its event loop.
#[derive(Debug, Clone, Copy, PartialEq, Eq, Structural)]
pub enum Instruction {
    /// Signal to terminate the agent event loop.
    Terminate,
}

} // verus!
