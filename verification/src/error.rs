//! The ways in which building a model can go wrong.
use vstd::prelude::*;

verus! {

/// A misuse of the builders. Each is found when the model is built; a
/// finished model always renders.
#[derive(Debug)]
pub enum ModelError {
    /// An `else if` or `else` was asked of something that is no branch
    /// chain.
    NotBranchChain,
    /// A clause or a default was asked of something that is no case
    /// statement.
    NotCaseBlock,
    /// The chain already ends in an `else`, or the state already has an
    /// unconditional transition: nothing can follow it.
    ChainClosed,
    /// The case statement already has a default clause.
    DuplicateDefault,
    /// A state machine with this state register is already part of the
    /// unit.
    DuplicateFsm(String),
    /// The state machine has no state at the place that the operation
    /// works on.
    NoCurrentState,
    /// A state machine without states cannot be made part of a unit.
    NoStates,
    /// The register adapter has no register at the place that the
    /// operation works on.
    NoCurrentRegister,
    /// No two-operand operator goes by this name.
    UnknownOperator(String),
}

/// A line of text that says what went wrong.
pub open spec fn error_text(e: ModelError) -> Seq<char> {
    match e {
        ModelError::NotBranchChain => "Not If"@,
        ModelError::NotCaseBlock => "Not Case"@,
        ModelError::ChainClosed => "Branch already closed"@,
        ModelError::DuplicateDefault => "Default already given"@,
        ModelError::DuplicateFsm(name) => "Some name FSM exist. :"@ + name@ + "\n"@,
        ModelError::NoCurrentState => "No current state"@,
        ModelError::NoStates => "No state"@,
        ModelError::NoCurrentRegister => "No current register"@,
        ModelError::UnknownOperator(tag) => "No correspond syntax : error operator -- "@ + tag@,
    }
}

impl ModelError {
    /// A line of text that says what went wrong.
    pub fn message(&self) -> (r: String)
        ensures
            r@ == error_text(*self),
    {
        match self {
            ModelError::NotBranchChain => String::from_str("Not If"),
            ModelError::NotCaseBlock => String::from_str("Not Case"),
            ModelError::ChainClosed => String::from_str("Branch already closed"),
            ModelError::DuplicateDefault => String::from_str("Default already given"),
            ModelError::DuplicateFsm(name) => {
                let mut st = String::from_str("Some name FSM exist. :");
                st.append(name.as_str());
                st.append("\n");
                st
            },
            ModelError::NoCurrentState => String::from_str("No current state"),
            ModelError::NoStates => String::from_str("No state"),
            ModelError::NoCurrentRegister => String::from_str("No current register"),
            ModelError::UnknownOperator(tag) => {
                let mut st = String::from_str("No correspond syntax : error operator -- ");
                st.append(tag.as_str());
                st
            },
        }
    }
}

} // verus!
