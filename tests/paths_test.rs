use fpick::filesystem::{
    get_string_abs_path, nodes_start_with, normalize_path, path_file_nodes, trim_end_slash,
    FileNode, FileType,
};

fn dir(name: &str) -> FileNode {
    FileNode::from_entry(name.to_string(), false, true, false)
}

#[test]
fn trim_end_slash_cases() {
    assert_eq!(trim_end_slash("/".to_string()), "/");
    assert_eq!(trim_end_slash("/tmp/".to_string()), "/tmp");
    assert_eq!(trim_end_slash("/tmp".to_string()), "/tmp");
    assert_eq!(trim_end_slash("".to_string()), "");
}

#[test]
fn normalize_path_collapses_double_slashes() {
    assert_eq!(normalize_path("//a//b".to_string()), "/a/b");
    assert_eq!(normalize_path("///".to_string()), "//");
    assert_eq!(normalize_path("/a/b".to_string()), "/a/b");
}

#[test]
fn abs_path_of_chains() {
    assert_eq!(get_string_abs_path(&vec![]), "/");
    assert_eq!(get_string_abs_path(&vec![dir("a"), dir("b")]), "/a/b");
}

#[test]
fn chain_prefixes() {
    let ab = vec![dir("a"), dir("b")];
    let abc = vec![dir("a"), dir("b"), dir("c")];
    assert!(nodes_start_with(&abc, &ab));
    assert!(nodes_start_with(&ab, &ab));
    assert!(nodes_start_with(&ab, &vec![]));
    assert!(!nodes_start_with(&ab, &abc));
    assert!(!nodes_start_with(&vec![dir("a"), dir("x")], &ab));
}

#[test]
fn path_nodes_from_canonical_path() {
    let nodes = path_file_nodes("/usr//Local/bin/");
    let names: Vec<&str> = nodes.iter().map(|n| n.name.as_str()).collect();
    assert_eq!(names, vec!["usr", "Local", "bin"]);
    assert_eq!(nodes[1].lowercase_name, "local");
    assert!(nodes.iter().all(|n| n.file_type == FileType::Directory && !n.is_directory));
    assert!(path_file_nodes("/").is_empty());
}

#[test]
fn entry_classification() {
    let link_to_dir = FileNode::from_entry("l".to_string(), true, true, false);
    assert_eq!(link_to_dir.file_type, FileType::Directory);
    assert!(link_to_dir.is_symlink);
    let fifo = FileNode::from_entry("p".to_string(), false, false, false);
    assert_eq!(fifo.file_type, FileType::Other);
}
