use just_extract::{
    extraction_command, msiexec_command, seven_zip_command, tool_result, zip_command,
    ExtractError, FatalError, Tool, ToolStatus,
};

fn strings(items: &[&str]) -> Vec<String> {
    items.iter().map(|s| s.to_string()).collect()
}

#[test]
fn zip_tool_gets_paths_in_given_order() {
    let c = zip_command("/tmp/out", "/data/file.zip");
    assert_eq!(c.tool, Tool::Unzip);
    assert_eq!(c.tool.program(), "unzip");
    assert_eq!(c.args, strings(&["/tmp/out", "/data/file.zip"]));
}

#[test]
fn installer_tool_arguments() {
    let c = msiexec_command("/tmp/out", "/data/file.tar");
    assert_eq!(c.tool, Tool::Msiexec);
    assert_eq!(c.tool.program(), "msiexec");
    assert_eq!(
        c.args,
        strings(&["/a", "/data/file.tar", "/qn", "TARGETDIR=\"/tmp/out\"", "/lwe", "log"])
    );
}

#[test]
fn seven_zip_tool_arguments() {
    let c = seven_zip_command("/tmp/out", "/data/setup.msi");
    assert_eq!(c.tool, Tool::SevenZip);
    assert_eq!(c.tool.program(), "7z");
    assert_eq!(c.args, strings(&["x", "/data/setup.msi", "-o/tmp/out", "-y"]));
}

#[test]
fn format_is_read_from_output_path() {
    let c = extraction_command("/tmp/out.zip", "/data/file").unwrap();
    assert_eq!(c, zip_command("/tmp/out.zip", "/data/file"));
    let c = extraction_command("/tmp/out.MSI", "/data/file").unwrap();
    assert_eq!(c, seven_zip_command("/tmp/out.MSI", "/data/file"));
    let c = extraction_command("/tmp/out.tar", "/data/file").unwrap();
    assert_eq!(c, msiexec_command("/tmp/out.tar", "/data/file"));
}

#[test]
fn missing_extension_is_fatal() {
    assert_eq!(
        extraction_command("/tmp/out", "/data/file.zip"),
        Err(FatalError::Unknown)
    );
    assert_eq!(FatalError::Unknown.message(), "No or unknown extension");
}

#[test]
fn unsupported_extension_is_fatal() {
    let e = extraction_command("/tmp/out.foo", "/data/file.zip").unwrap_err();
    assert_eq!(e, FatalError::Unsupported("foo".to_string()));
    assert_eq!(e.message(), "Unsupported extension foo");
    let e = extraction_command("/tmp/out.TAR", "/data/file.tar").unwrap_err();
    assert_eq!(e, FatalError::Unsupported("TAR".to_string()));
}

#[test]
fn successful_run_is_success() {
    assert_eq!(tool_result(Tool::Unzip, ToolStatus::Exited(0)), Ok(()));
    assert_eq!(tool_result(Tool::Msiexec, ToolStatus::Exited(0)), Ok(()));
}

#[test]
fn nonzero_exit_names_failed_tool() {
    let e = tool_result(Tool::SevenZip, ToolStatus::Exited(2)).unwrap_err();
    assert_eq!(
        e,
        ExtractError::Failed {
            tool: Tool::SevenZip,
            code: Some(2)
        }
    );
    assert_eq!(e.tool(), Tool::SevenZip);
}

#[test]
fn killed_run_names_failed_tool() {
    let e = tool_result(Tool::Unzip, ToolStatus::Terminated).unwrap_err();
    assert_eq!(
        e,
        ExtractError::Failed {
            tool: Tool::Unzip,
            code: None
        }
    );
}

#[test]
fn start_failure_names_tool_and_reason() {
    let e = tool_result(Tool::Msiexec, ToolStatus::NotStarted("not found".to_string()))
        .unwrap_err();
    assert_eq!(
        e,
        ExtractError::NotStarted {
            tool: Tool::Msiexec,
            reason: "not found".to_string()
        }
    );
    assert_eq!(e.tool(), Tool::Msiexec);
}
