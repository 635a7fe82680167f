use fpick::action_menu::{
    contextualized_error, create_directory, create_file, delete_tree_node,
    execute_shell_operation, file_details, file_name, generate_known_actions,
    join_error_messages, rename_file, Operation,
};
use fpick::filesystem::FileNode;
use fpick::logs::{current_time_str, log};
use fpick::tree::{TreeNode, TreeNodeType};

#[test]
fn rename_builds_mv_within_the_same_directory() {
    let cmd = rename_file(&"/tmp/x/foo.txt".to_string(), &"bar.txt".to_string());
    assert_eq!(cmd, "mv \"/tmp/x/foo.txt\" \"/tmp/x/bar.txt\"");
}

#[test]
fn rename_without_directory() {
    let cmd = rename_file(&"foo".to_string(), &"bar".to_string());
    assert_eq!(cmd, "mv \"foo\" \"/bar\"");
}

#[test]
fn create_commands() {
    assert_eq!(create_file(&"/tmp/a b".to_string()), "touch \"/tmp/a b\"");
    assert_eq!(create_directory(&"/tmp/d".to_string()), "mkdir -p \"/tmp/d\"");
}

#[test]
fn delete_commands_by_kind() {
    let file = TreeNode {
        relevance: 0,
        kind: TreeNodeType::FileNode(FileNode::from_entry("f".to_string(), false, false, true)),
    };
    let dir = TreeNode {
        relevance: 0,
        kind: TreeNodeType::FileNode(FileNode::from_entry("d".to_string(), false, true, false)),
    };
    let here = TreeNode { relevance: 0, kind: TreeNodeType::SelfReference };
    let p = "/x/y".to_string();
    assert_eq!(delete_tree_node(&file, &p), "rm \"/x/y\"");
    assert_eq!(delete_tree_node(&dir, &p), "rm -rf \"/x/y\"");
    assert_eq!(delete_tree_node(&here, &p), "rm -rf \"/x/y\"");
}

#[test]
fn shell_template_substitution() {
    let p = "/home/u/f.txt".to_string();
    assert_eq!(execute_shell_operation(&p, "vim \"{}\""), "vim \"/home/u/f.txt\"");
    assert_eq!(execute_shell_operation(&p, "cp {} {}.bak"), "cp /home/u/f.txt /home/u/f.txt.bak");
    assert_eq!(execute_shell_operation(&p, "ls"), "ls");
}

#[test]
fn catalogue_of_actions() {
    let actions = generate_known_actions();
    assert_eq!(actions.len(), 15);
    assert_eq!(actions[0].name, "Pick absolute path");
    assert!(matches!(actions[0].operation, Operation::PickAbsolutePath));
    assert!(matches!(
        actions[5].operation,
        Operation::InteractiveShellCommand { template: "less -Src \"{}\"" }
    ));
    assert_eq!(actions[14].name, "Run command");
}

#[test]
fn file_name_is_last_component() {
    assert_eq!(file_name("/a/b/c.txt"), "c.txt");
    assert_eq!(file_name("plain"), "plain");
    assert_eq!(file_name("/a/"), "");
}

#[test]
fn error_chain_on_one_line() {
    let err = anyhow::Error::msg("disk gone").context("reading path nodes");
    assert_eq!(contextualized_error(&err), "reading path nodes: disk gone");
    let single = anyhow::Error::msg("alone");
    assert_eq!(contextualized_error(&single), "alone");
    let parts = vec!["a".to_string(), "b".to_string(), "c".to_string()];
    assert_eq!(join_error_messages(&parts), "a: b: c");
}

#[test]
fn details_text_with_utc_time() {
    let text = file_details("/x/f", false, "12 bytes", 86_400 + 3_661).unwrap();
    assert_eq!(text, "File: /x/f\nSize: 12 bytes\nModified: 1970-01-02 01:01:01 +0000");
    let dir = file_details("/x", true, "4 bytes", 0).unwrap();
    assert_eq!(dir, "Directory: /x\nSize: 4 bytes\nModified: 1970-01-01 00:00:00 +0000");
    assert!(file_details("/x", true, "4 bytes", i64::MAX).is_none());
}

#[test]
fn clock_text_and_log_lines() {
    assert_eq!(current_time_str(0), "00:00:00");
    assert_eq!(current_time_str(86_400 + 3_600 * 13 + 60 * 5 + 9), "13:05:09");
    let mut logs = vec!["earlier".to_string()];
    log(&mut logs, 3_661, "started");
    assert_eq!(logs, vec!["earlier".to_string(), "[01:01:01] started".to_string()]);
}
