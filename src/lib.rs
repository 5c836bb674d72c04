//! Translation of contract build flags into a native build request or an
//! invocation of the Solang compiler, with the decisions proved.

pub mod command;
pub mod error;
pub mod options;
pub mod outcome;
pub mod source;
pub mod translate;
