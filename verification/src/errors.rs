//! Failure kinds surfaced by the command layer.
//!
//! Each failure is opaque: a kind tag plus a human-readable message. Callers
//! branch on the kind only, never on structure inside the message.

use vstd::prelude::*;

verus! {

/// Image of a command failure.
pub enum CommandErrorV {
    /// A failure of the external completion provider.
    ApiError { message: Seq<char> },
    /// A persistence read or write failure.
    DbError { message: Seq<char> },
    /// A precondition violation, such as a last message not authored by the user.
    StateError { message: Seq<char> },
}

/// A failure returned by the command layer: a kind and a cause text.
#[derive(Debug)]
pub enum CommandError {
    /// A failure of the external completion provider.
    ApiError { message: String },
    /// A persistence read or write failure.
    DbError { message: String },
    /// A precondition violation, such as a last message not authored by the user.
    StateError { message: String },
}

impl View for CommandError {
    type V = CommandErrorV;

    open spec fn view(&self) -> CommandErrorV {
        match self {
            CommandError::ApiError { message } => CommandErrorV::ApiError { message: message@ },
            CommandError::DbError { message } => CommandErrorV::DbError { message: message@ },
            CommandError::StateError { message } => CommandErrorV::StateError { message: message@ },
        }
    }
}

impl CommandError {
    /// The cause text, whatever the kind.
    pub fn message(&self) -> (r: &String)
        ensures
            r@ == self.spec_message(),
    {
        match self {
            CommandError::ApiError { message } => message,
            CommandError::DbError { message } => message,
            CommandError::StateError { message } => message,
        }
    }

    pub open spec fn spec_message(&self) -> Seq<char> {
        match self@ {
            CommandErrorV::ApiError { message } => message,
            CommandErrorV::DbError { message } => message,
            CommandErrorV::StateError { message } => message,
        }
    }
}

} // verus!
