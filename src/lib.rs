//! Plugin-side types and logic for a voxel game engine: cardinal directions and
//! octants, fixed-point world coordinates, input action registration, the
//! console line buffer behind the system-call shim, and asset encoding.

use vstd::prelude::*;

pub mod asset;
pub mod direction;
pub mod input;
pub mod vector;
pub mod wasi;
pub mod world;

verus! {

/// Determines the severity of a log message.
#[derive(Copy, Clone, Debug, PartialEq, Eq, PartialOrd, Ord, Hash, Structural)]
pub enum LogLevel {
    /// Describes messages about the values of variables and the flow of
    /// control within a program.
    Trace,
    /// Describes messages likely to be of interest to someone debugging a
    /// program.
    Debug,
    /// Describes messages likely to be of interest to someone monitoring a
    /// program.
    Info,
    /// Describes messages indicating hazardous situations.
    Warn,
    /// Describes messages indicating serious errors.
    Error,
}

/// Indicates an error that occurred in the engine. It holds only a message.
#[derive(Clone, Debug, PartialEq, Eq, Hash)]
pub struct EngineError(String);

impl EngineError {
    /// The message that describes the error.
    pub closed spec fn spec_message(&self) -> Seq<char> {
        self.0@
    }

    /// Creates an error with the given message.
    pub fn new(message: String) -> (r: EngineError)
        ensures
            r.spec_message() == message@,
    {
        EngineError(message)
    }

    /// Gets the message that describes the error.
    pub fn message(&self) -> (r: &str)
        ensures
            r@ == self.spec_message(),
    {
        self.0.as_str()
    }
}

} // verus!
