//! Classifies an archive by its file extension and plans the command-line
//! tool invocation that extracts it.
pub mod command;
pub mod extension;
pub mod text;

pub use command::{
    extraction_command, msiexec_command, seven_zip_command, tool_result, zip_command,
    ExtractError, FatalError, Tool, ToolCommand, ToolStatus,
};
pub use extension::{Extension, ExtensionModel};
