use vstd::prelude::*;

use crate::extension::{classify_path, Extension, ExtensionModel};

verus! {

/// The command-line tools that extraction is handed to.
#[derive(Clone, Copy, Debug, PartialEq, Eq, Structural)]
pub enum Tool {
    Unzip,
    SevenZip,
    Msiexec,
}

/// The program that runs a tool.
pub open spec fn program_of(tool: Tool) -> Seq<char> {
    match tool {
        Tool::Unzip => "unzip"@,
        Tool::SevenZip => "7z"@,
        Tool::Msiexec => "msiexec"@,
    }
}

impl Tool {
    /// The name of the program to run.
    pub fn program(&self) -> (r: &'static str)
        ensures
            r@ == program_of(*self),
    {
        match self {
            Tool::Unzip => "unzip",
            Tool::SevenZip => "7z",
            Tool::Msiexec => "msiexec",
        }
    }
}

/// One run of a tool: which tool, and its arguments in order.
#[derive(Clone, Debug, PartialEq, Eq)]
pub struct ToolCommand {
    pub tool: Tool,
    pub args: Vec<String>,
}

impl View for ToolCommand {
    type V = (Tool, Seq<Seq<char>>);

    open spec fn view(&self) -> (Tool, Seq<Seq<char>>) {
        (self.tool, self.args.deep_view())
    }
}

/// Arguments of the zip tool: the two paths, in the order given.
pub open spec fn zip_args(output_dir: Seq<char>, archive: Seq<char>) -> Seq<Seq<char>> {
    seq![output_dir, archive]
}

/// Arguments of the 7-zip tool: extract `archive` into `output_dir`, answering yes.
pub open spec fn seven_zip_args(output_dir: Seq<char>, archive: Seq<char>) -> Seq<Seq<char>> {
    seq!["x"@, archive, "-o"@ + output_dir, "-y"@]
}

/// Arguments of the installer tool: an administrative, quiet install of
/// `archive` with `output_dir` as target, logging to `log`.
pub open spec fn msiexec_args(output_dir: Seq<char>, archive: Seq<char>) -> Seq<Seq<char>> {
    seq!["/a"@, archive, "/qn"@, "TARGETDIR=\""@ + output_dir + "\""@, "/lwe"@, "log"@]
}

/// The tool run planned for a format; none for `Unsupported` and `Unknown`.
/// Files named `msi` go to 7-zip and the installer family to the installer tool.
pub open spec fn planned_command(
    format: ExtensionModel,
    output_dir: Seq<char>,
    archive: Seq<char>,
) -> Option<(Tool, Seq<Seq<char>>)> {
    match format {
        ExtensionModel::Zip => Some((Tool::Unzip, zip_args(output_dir, archive))),
        ExtensionModel::Msi => Some((Tool::SevenZip, seven_zip_args(output_dir, archive))),
        ExtensionModel::SevenZipFamily => Some(
            (Tool::Msiexec, msiexec_args(output_dir, archive)),
        ),
        _ => None,
    }
}

/// The zip tool run that extracts `archive`.
pub fn zip_command(output_dir: &str, archive: &str) -> (r: ToolCommand)
    ensures
        r@ == (Tool::Unzip, zip_args(output_dir@, archive@)),
{
    let mut args: Vec<String> = Vec::new();
    args.push(output_dir.to_owned());
    args.push(archive.to_owned());
    assert(args.deep_view() =~= zip_args(output_dir@, archive@));
    ToolCommand { tool: Tool::Unzip, args }
}

/// The 7-zip run that extracts `archive` into `output_dir`.
pub fn seven_zip_command(output_dir: &str, archive: &str) -> (r: ToolCommand)
    ensures
        r@ == (Tool::SevenZip, seven_zip_args(output_dir@, archive@)),
{
    let mut args: Vec<String> = Vec::new();
    args.push("x".to_owned());
    args.push(archive.to_owned());
    args.push(String::from_str("-o").concat(output_dir));
    args.push("-y".to_owned());
    assert(args.deep_view() =~= seven_zip_args(output_dir@, archive@));
    ToolCommand { tool: Tool::SevenZip, args }
}

/// The installer tool run that extracts `archive` into `output_dir`.
pub fn msiexec_command(output_dir: &str, archive: &str) -> (r: ToolCommand)
    ensures
        r@ == (Tool::Msiexec, msiexec_args(output_dir@, archive@)),
{
    let mut args: Vec<String> = Vec::new();
    args.push("/a".to_owned());
    args.push(archive.to_owned());
    args.push("/qn".to_owned());
    args.push(String::from_str("TARGETDIR=\"").concat(output_dir).concat("\""));
    args.push("/lwe".to_owned());
    args.push("log".to_owned());
    assert(args.deep_view() =~= msiexec_args(output_dir@, archive@));
    ToolCommand { tool: Tool::Msiexec, args }
}

/// A format that no tool handles. Extraction cannot go on past one of these:
/// it is a fault of the caller's configuration, not a failure to recover from.
#[derive(Clone, Debug, PartialEq, Eq)]
pub enum FatalError {
    /// The extension, as written, names no handled format.
    Unsupported(String),
    /// The path has no extension.
    Unknown,
}

impl FatalError {
    /// The message that the abort carries.
    pub fn message(&self) -> (r: String)
        ensures
            r@ == match self {
                FatalError::Unsupported(ext) => "Unsupported extension "@ + ext@,
                FatalError::Unknown => "No or unknown extension"@,
            },
    {
        match self {
            FatalError::Unsupported(ext) => String::from_str("Unsupported extension ").concat(
                ext.as_str(),
            ),
            FatalError::Unknown => String::from_str("No or unknown extension"),
        }
    }
}

/// Plans the extraction of `archive` into `output_dir`. The format is read from
/// the extension of `output_dir`. An unsupported or missing extension is fatal,
/// and no tool run is planned for it.
pub fn extraction_command(output_dir: &str, archive: &str) -> (r: Result<ToolCommand, FatalError>)
    ensures
        match r {
            Ok(c) => planned_command(classify_path(output_dir@), output_dir@, archive@) == Some(
                c@,
            ),
            Err(FatalError::Unknown) => classify_path(output_dir@) is Unknown,
            Err(FatalError::Unsupported(ext)) => classify_path(output_dir@)
                == ExtensionModel::Unsupported(ext@),
        },
        r is Err <==> planned_command(classify_path(output_dir@), output_dir@, archive@) is None,
{
    match Extension::from_path(output_dir) {
        Extension::Zip => Ok(zip_command(output_dir, archive)),
        Extension::Msi => Ok(seven_zip_command(output_dir, archive)),
        Extension::SevenZipFamily => Ok(msiexec_command(output_dir, archive)),
        Extension::Unsupported(ext) => Err(FatalError::Unsupported(ext)),
        Extension::Unknown => Err(FatalError::Unknown),
    }
}

/// How a run of a tool ended.
#[derive(Clone, Debug, PartialEq, Eq)]
pub enum ToolStatus {
    /// The process exited with this code.
    Exited(i32),
    /// The process ended without an exit code.
    Terminated,
    /// The process could not be started, for this reason.
    NotStarted(String),
}

/// A recoverable failure of extraction, naming the tool that failed.
#[derive(Clone, Debug, PartialEq, Eq)]
pub enum ExtractError {
    /// The tool ran and did not succeed; its exit code, where it had one.
    Failed { tool: Tool, code: Option<i32> },
    /// The tool could not be started.
    NotStarted { tool: Tool, reason: String },
}

impl ExtractError {
    /// The tool that failed.
    pub fn tool(&self) -> (r: Tool)
        ensures
            r == match self {
                ExtractError::Failed { tool, .. } => *tool,
                ExtractError::NotStarted { tool, .. } => *tool,
            },
    {
        match self {
            ExtractError::Failed { tool, .. } => *tool,
            ExtractError::NotStarted { tool, .. } => *tool,
        }
    }
}

/// The result of extraction once `tool` has run and ended with `status`:
/// success exactly on exit code 0, else a recoverable error naming `tool`.
pub fn tool_result(tool: Tool, status: ToolStatus) -> (r: Result<(), ExtractError>)
    ensures
        r is Ok <==> status == ToolStatus::Exited(0),
        match status {
            ToolStatus::Exited(c) => c != 0 ==> r == Err::<(), ExtractError>(
                ExtractError::Failed { tool, code: Some(c) },
            ),
            ToolStatus::Terminated => r == Err::<(), ExtractError>(
                ExtractError::Failed { tool, code: None },
            ),
            ToolStatus::NotStarted(reason) => r matches Err(
                ExtractError::NotStarted { tool: t, reason: s },
            ) && t == tool && s@ == reason@,
        },
{
    match status {
        ToolStatus::Exited(c) => {
            if c == 0 {
                Ok(())
            } else {
                Err(ExtractError::Failed { tool, code: Some(c) })
            }
        },
        ToolStatus::Terminated => Err(ExtractError::Failed { tool, code: None }),
        ToolStatus::NotStarted(reason) => Err(ExtractError::NotStarted { tool, reason }),
    }
}

} // verus!
