//! Binary resolution and debug-configuration translation for a C# editor
//! extension: which executables to run, with which arguments, and how the
//! editor's debug requests map onto the debugger's launch configuration.
pub mod dap;
pub mod feed;
pub mod json;
pub mod model;
pub mod netcoredbg;
pub mod release;
pub mod roslyn;
pub mod text;
pub mod utils;
