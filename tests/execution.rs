use orca::execution::{
    combined_output, dispatch_actions, file_path_in, plan_dispatch, proceeds_after, shell_for, workspace_for,
    workspace_root, AgentAction, ShellInvocation,
};
use orca::{DispatchFile, DispatchMessage};

fn message(command: &str, files: &[(&str, &[u8])]) -> DispatchMessage {
    DispatchMessage {
        command: command.to_string(),
        files: files
            .iter()
            .map(|(n, c)| DispatchFile { name: n.to_string(), content: c.to_vec() })
            .collect(),
    }
}

#[test]
fn workspace_paths() {
    assert_eq!(workspace_root(&Some("/srv/ws".to_string()), "/opt/orca"), "/srv/ws");
    assert_eq!(workspace_root(&None, "/opt/orca"), "/opt/orca/orca-workspace");
    assert_eq!(workspace_for("/srv/ws", "abc"), "/srv/ws/orca-abc");
    assert_eq!(file_path_in("/srv/ws/orca-abc", "a.txt"), "/srv/ws/orca-abc/a.txt");
}

#[test]
fn shells() {
    assert_eq!(
        shell_for("echo hello", false),
        ShellInvocation { program: "sh".to_string(), args: vec!["-c".to_string(), "echo hello".to_string()] }
    );
    assert_eq!(
        shell_for("dir", true),
        ShellInvocation { program: "cmd".to_string(), args: vec!["/C".to_string(), "dir".to_string()] }
    );
}

#[test]
fn output_is_stdout_then_stderr() {
    assert_eq!(combined_output(&b"hello\n".to_vec(), &Vec::new()), b"hello\n".to_vec());
    assert_eq!(combined_output(&b"out".to_vec(), &b"err".to_vec()), b"outerr".to_vec());
    assert_eq!(combined_output(&Vec::new(), &b"only err".to_vec()), b"only err".to_vec());
}

#[test]
fn file_materialization_plan() {
    let m = message("cat a.txt", &[("a.txt", b"hi")]);
    let actions = dispatch_actions(&m, "/srv/ws", "inv-1", false);
    assert_eq!(
        actions,
        vec![
            AgentAction::CreateDir("/srv/ws/orca-inv-1".to_string()),
            AgentAction::WriteFile("/srv/ws/orca-inv-1/a.txt".to_string(), b"hi".to_vec()),
            AgentAction::Run("/srv/ws/orca-inv-1".to_string(), shell_for("cat a.txt", false)),
            AgentAction::Respond,
            AgentAction::RemoveDir("/srv/ws/orca-inv-1".to_string()),
        ]
    );
}

#[test]
fn plan_without_files() {
    let m = message("echo hello", &[]);
    let actions = dispatch_actions(&m, "/tmp", "x", true);
    assert_eq!(actions.len(), 4);
    assert_eq!(actions[1], AgentAction::Run("/tmp/orca-x".to_string(), shell_for("echo hello", true)));
    assert_eq!(actions[3], AgentAction::RemoveDir("/tmp/orca-x".to_string()));
}

#[test]
fn files_keep_their_order() {
    let m = message("ls", &[("b.txt", b"2"), ("a.txt", b"1")]);
    let actions = dispatch_actions(&m, "/w", "i", false);
    assert_eq!(actions[1], AgentAction::WriteFile("/w/orca-i/b.txt".to_string(), b"2".to_vec()));
    assert_eq!(actions[2], AgentAction::WriteFile("/w/orca-i/a.txt".to_string(), b"1".to_vec()));
}

#[test]
fn concurrent_dispatches_get_separate_workspaces() {
    let m1 = message("cat a.txt", &[("a.txt", b"one")]);
    let m2 = message("cat a.txt", &[("a.txt", b"two")]);
    let plan_a = plan_dispatch(&m1, "/srv/ws", false);
    let plan_b = plan_dispatch(&m2, "/srv/ws", false);
    let (ws1, ws2) = match (&plan_a[0], &plan_b[0]) {
        (AgentAction::CreateDir(a), AgentAction::CreateDir(b)) => (a.clone(), b.clone()),
        _ => panic!("plans must start by creating the workspace"),
    };
    assert_ne!(ws1, ws2);
    assert!(ws1.starts_with("/srv/ws/orca-"));
    assert_eq!(ws1.len(), "/srv/ws/orca-".len() + 36);
    assert_eq!(plan_a[1], AgentAction::WriteFile(format!("{}/a.txt", ws1), b"one".to_vec()));
    assert_eq!(plan_b[1], AgentAction::WriteFile(format!("{}/a.txt", ws2), b"two".to_vec()));
    assert_eq!(plan_a[4], AgentAction::RemoveDir(ws1));
}

#[test]
fn only_a_missing_workspace_stops_handling() {
    assert!(!proceeds_after(&AgentAction::CreateDir("/w".to_string()), false));
    assert!(proceeds_after(&AgentAction::CreateDir("/w".to_string()), true));
    assert!(proceeds_after(&AgentAction::WriteFile("/w/a".to_string(), Vec::new()), false));
    assert!(proceeds_after(&AgentAction::Run("/w".to_string(), shell_for("false", false)), false));
    assert!(proceeds_after(&AgentAction::Respond, false));
}
