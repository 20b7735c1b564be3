//! Orchestration logic for building smart-contract programs, deriving their
//! interface descriptions, generating a typed client library, and managing
//! the lifecycle of an ephemeral local network node.
//!
//! The decision logic lives here, verified; subprocess and filesystem
//! plumbing is left to the surrounding application.

pub mod assembler;
pub mod commander;
pub mod errors;
pub mod expander;
pub mod lifecycle;
pub mod resolver;
pub mod text;

pub use assembler::Idl;
pub use assembler::IdlProgram;
pub use commander::Commander;
pub use commander::build_outcome;
pub use errors::Error;
pub use expander::expansion_outcome;
pub use lifecycle::LocalnetHandle;
pub use lifecycle::complete_start;
pub use lifecycle::stop_decision;
pub use resolver::ProgramDescriptor;
pub use resolver::program_names;
pub use text::decode_text;
