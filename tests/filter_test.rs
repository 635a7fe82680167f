use fpick::filesystem::FileNode;
use fpick::tree::{evaluate_relevance, filter_words, is_space_char, render_tree_nodes, TreeNode};

fn file(name: &str) -> FileNode {
    FileNode::from_entry(name.to_string(), false, false, true)
}

fn dir(name: &str) -> FileNode {
    FileNode::from_entry(name.to_string(), false, true, false)
}

fn names(nodes: &[TreeNode]) -> Vec<String> {
    nodes.iter().map(|n| n.name().to_string()).collect()
}

fn entries(nodes: &[TreeNode]) -> Vec<FileNode> {
    nodes
        .iter()
        .filter_map(|n| match &n.kind {
            fpick::tree::TreeNodeType::FileNode(f) => Some(f.clone()),
            fpick::tree::TreeNodeType::SelfReference => None,
        })
        .collect()
}

#[test]
fn lowercase_name_is_set_from_name() {
    let node = file("ReadMe.MD");
    assert_eq!(node.lowercase_name, "readme.md");
    assert_eq!(node.name, "ReadMe.MD");
}

#[test]
fn no_filter_orders_directories_first_then_names_ignoring_case() {
    let children = vec![dir("Zebra"), file("apple.txt"), file("Banana.txt")];
    let shown = render_tree_nodes(&children, "");
    assert_eq!(names(&shown), vec![".", "Zebra", "apple.txt", "Banana.txt"]);
    assert!(shown.iter().all(|n| n.relevance == 0));
}

#[test]
fn filter_an_keeps_only_names_containing_it() {
    let children = vec![file("Banana.txt"), file("apple.txt"), dir("Zebra")];
    let shown = render_tree_nodes(&children, "an");
    assert_eq!(names(&shown), vec!["Banana.txt"]);
    assert_eq!(shown[0].relevance, 1);
}

#[test]
fn filter_prefix_gets_bonus_and_ranks_first() {
    let children = vec![file("xban.txt"), file("banana.txt")];
    let shown = render_tree_nodes(&children, "ban");
    assert_eq!(names(&shown), vec!["banana.txt", "xban.txt"]);
    assert_eq!(shown[0].relevance, 11);
    assert_eq!(shown[1].relevance, 1);
}

#[test]
fn filter_is_case_insensitive() {
    let children = vec![file("README.md"), file("main.rs")];
    let shown = render_tree_nodes(&children, "ReAd");
    assert_eq!(names(&shown), vec!["README.md"]);
}

#[test]
fn whitespace_only_filter_shows_nothing() {
    let children = vec![file("a"), dir("b")];
    assert!(render_tree_nodes(&children, "   ").is_empty());
}

#[test]
fn refiltering_gives_the_same_result() {
    let children = vec![
        dir("src"),
        file("Cargo.toml"),
        file("cargo.lock"),
        dir("!odd"),
        file("notes.txt"),
    ];
    for filter in ["", "o", "car", "c o", "zzz", "."] {
        let first = render_tree_nodes(&children, filter);
        let second = render_tree_nodes(&entries(&first), filter);
        assert_eq!(names(&first), names(&second), "filter {:?}", filter);
        let firsts: Vec<i32> = first.iter().map(|n| n.relevance).collect();
        let seconds: Vec<i32> = second.iter().map(|n| n.relevance).collect();
        assert_eq!(firsts, seconds);
    }
}

#[test]
fn every_kept_entry_contains_every_token() {
    let children = vec![file("alpha beta"), file("alphabet"), file("beta"), dir("alp")];
    let shown = render_tree_nodes(&children, "alp bet");
    assert_eq!(names(&shown), vec!["alpha beta", "alphabet"]);
    for n in &shown {
        assert!(n.indexed_name().contains("alp") && n.indexed_name().contains("bet"));
    }
}

#[test]
fn equal_relevance_puts_directories_first() {
    let children = vec![file("data.txt"), dir("data")];
    let shown = render_tree_nodes(&children, "dat");
    assert_eq!(names(&shown), vec!["data", "data.txt"]);
}

#[test]
fn equal_names_keep_listing_order() {
    let children = vec![file("A"), file("a")];
    let shown = render_tree_nodes(&children, "");
    assert_eq!(names(&shown), vec![".", "A", "a"]);
}

#[test]
fn relevance_values() {
    let words = vec!["ban".to_string(), "an".to_string()];
    assert_eq!(evaluate_relevance("banana", &words), 12);
    assert_eq!(evaluate_relevance("urban", &words), 2);
    assert_eq!(evaluate_relevance("bat", &words), 0);
    assert_eq!(evaluate_relevance("anything", &Vec::new()), 0);
}

#[test]
fn filter_words_split_on_whitespace_and_lowercase() {
    assert_eq!(filter_words("  Foo\tBAR  baz "), vec!["foo", "bar", "baz"]);
    assert!(filter_words("").is_empty());
    assert!(filter_words(" \u{3000} ").is_empty());
}

#[test]
fn whitespace_characters() {
    assert!(is_space_char(' '));
    assert!(is_space_char('\n'));
    assert!(is_space_char('\u{a0}'));
    assert!(!is_space_char('x'));
    assert!(!is_space_char('_'));
}

#[test]
fn tree_node_accessors() {
    let shown = render_tree_nodes(&vec![dir("Docs")], "");
    assert_eq!(shown[0].name(), ".");
    assert_eq!(shown[0].indexed_name(), ".");
    assert!(shown[0].is_directory());
    assert_eq!(shown[1].name(), "Docs");
    assert_eq!(shown[1].indexed_name(), "docs");
    assert!(shown[1].is_directory());
}
