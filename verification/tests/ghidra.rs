use ghidra_cli::ghidra::{ghidra_project_exists, project_artifact_paths, project_exists, GhidraClient};

#[test]
fn projects_exist_by_their_gpr_or_rep() {
    let existing = vec!["/p/fw.rep".to_string()];
    assert!(ghidra_project_exists("/p/fw", &existing));
    assert!(project_exists("/p/fw", &vec!["/p/fw.gpr".to_string()]));
    assert!(!ghidra_project_exists("/p/fw", &vec!["/p/fw".to_string()]));
    assert!(!ghidra_project_exists("/", &existing));
    assert_eq!(
        project_artifact_paths("/p/fw"),
        Some(("/p/fw.gpr".to_string(), "/p/fw.rep".to_string()))
    );
    let client = GhidraClient::from_dirs("/opt/ghidra".to_string(), "/p".to_string());
    assert!(client.project_exists("fw", &existing));
    assert!(!client.project_exists("other", &existing));
}
