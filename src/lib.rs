//! A counter kept in a four-byte account region, changed by one-byte-tagged
//! instructions.
pub mod instruction;
pub mod processor;
pub mod state;

pub use instruction::{DecodeError, HelloInstruction};
pub use processor::{apply, check_owner, process_instruction, ProcessError, TransitionError};
pub use state::{DeserializationFailure, GreetingAccount};
