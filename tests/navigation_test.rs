use std::cell::Cell;

use fpick::app::{App, ArgEffect};
use fpick::appdata::WindowFocus;
use fpick::background::BackgroundEvent;
use fpick::dialog::{ActionOutcome, ActionRequest, Dispatch};
use fpick::action_menu::Operation;
use fpick::filesystem::FileNode;

fn file(name: &str) -> FileNode {
    FileNode::from_entry(name.to_string(), false, false, true)
}

fn dir(name: &str) -> FileNode {
    FileNode::from_entry(name.to_string(), false, true, false)
}

fn tree(path: String) -> Result<Vec<FileNode>, String> {
    match path.as_str() {
        "/" => Ok(vec![dir("a"), dir("other")]),
        "/a" => Ok(vec![dir("b")]),
        "/a/b" => Ok(vec![dir("c"), file("top.txt")]),
        "/a/b/c" => Ok(vec![file("d.txt")]),
        "/other" => Ok(vec![file("e.txt")]),
        "/empty" => Ok(vec![]),
        _ => Err(format!("failed to read directory '{}'", path)),
    }
}

fn shown(app: &App) -> Vec<String> {
    app.child_tree_nodes.iter().map(|n| n.name().to_string()).collect()
}

fn select(app: &mut App, name: &str) {
    let i = app.child_tree_nodes.iter().position(|n| n.name() == name).unwrap();
    app.set_dir_cursor(i);
}

fn started_at(path: &str) -> App {
    let mut app = App::new();
    app.init(path, &tree);
    app
}

#[test]
fn init_lists_the_starting_directory() {
    let app = started_at("/a/b");
    assert_eq!(app.get_current_string_path(), "/a/b");
    assert_eq!(shown(&app), vec![".", "c", "top.txt"]);
    assert_eq!(app.dir_cursor, 0);
    assert_eq!(app.tree_selected, Some(0));
}

#[test]
fn listing_sorts_directories_first() {
    let list = |_p: String| -> Result<Vec<FileNode>, String> {
        Ok(vec![file("b.txt"), dir("Zed"), file("A.txt"), dir("m")])
    };
    let mut app = App::new();
    app.init("/", &list);
    let names: Vec<&str> = app.child_file_nodes.iter().map(|n| n.name.as_str()).collect();
    assert_eq!(names, vec!["m", "Zed", "A.txt", "b.txt"]);
}

#[test]
fn go_into_then_up_restores_chain_and_selection() {
    let mut app = started_at("/a/b");
    select(&mut app, "c");
    let before: Vec<String> = app.parent_file_nodes.iter().map(|n| n.name.clone()).collect();
    app.go_into(&tree);
    assert_eq!(app.get_current_string_path(), "/a/b/c");
    assert_eq!(app.dir_cursor, 0);
    app.go_up(&tree);
    let after: Vec<String> = app.parent_file_nodes.iter().map(|n| n.name.clone()).collect();
    assert_eq!(before, after);
    assert_eq!(app.child_tree_nodes[app.dir_cursor].name(), "c");
}

#[test]
fn go_up_without_the_old_directory_falls_back_to_first_entry() {
    let mut app = started_at("/a/b/c");
    let list = |p: String| -> Result<Vec<FileNode>, String> {
        if p == "/a/b" {
            Ok(vec![file("only.txt")])
        } else {
            tree(p)
        }
    };
    app.go_up(&list);
    assert_eq!(shown(&app), vec![".", "only.txt"]);
    assert_eq!(app.dir_cursor, 0);
}

#[test]
fn go_into_ignores_files_and_the_current_directory() {
    let mut app = started_at("/a/b");
    select(&mut app, "top.txt");
    app.go_into(&tree);
    assert_eq!(app.get_current_string_path(), "/a/b");
    select(&mut app, ".");
    app.go_into(&tree);
    assert_eq!(app.get_current_string_path(), "/a/b");
}

#[test]
fn go_up_at_root_does_nothing_and_root_is_reachable() {
    let mut app = started_at("/a/b");
    app.go_to_root(&tree);
    assert_eq!(app.get_current_string_path(), "/");
    assert_eq!(shown(&app), vec![".", "a", "other"]);
    app.go_up(&tree);
    assert_eq!(app.get_current_string_path(), "/");
}

#[test]
fn unreadable_directory_shows_nothing_and_an_error() {
    let mut app = started_at("/a/b");
    app.parent_file_nodes.push(dir("missing"));
    app.populate_current_child_nodes(&tree);
    assert!(app.child_tree_nodes.is_empty());
    assert_eq!(app.dir_cursor, 0);
    assert_eq!(app.tree_selected, None);
    assert_eq!(
        app.error_message,
        Some("failed to read directory '/a/b/missing'".to_string())
    );
}

#[test]
fn cursor_stays_within_the_listing() {
    let mut app = started_at("/a/b");
    app.move_cursor(20);
    assert_eq!(app.dir_cursor, 2);
    app.move_cursor(-50);
    assert_eq!(app.dir_cursor, 0);
    app.set_dir_cursor(99);
    assert_eq!(app.dir_cursor, 2);
    app.type_search_text('t');
    app.type_search_text('o');
    assert_eq!(shown(&app), vec!["top.txt"]);
    assert_eq!(app.dir_cursor, 0);
    app.type_search_text('z');
    assert!(app.child_tree_nodes.is_empty());
    assert_eq!(app.tree_selected, None);
    app.backspace_search_text();
    assert_eq!(app.filter_text, "to");
    app.clear_search_text();
    assert_eq!(shown(&app), vec![".", "c", "top.txt"]);
}

#[test]
fn info_message_scrolls_instead_of_the_cursor() {
    let mut app = started_at("/a/b");
    app.show_info("line".to_string());
    app.move_cursor(3);
    app.move_cursor(-1);
    assert_eq!(app.info_message_scroll, 2);
    assert_eq!(app.dir_cursor, 0);
    app.move_cursor(-9);
    assert_eq!(app.info_message_scroll, 0);
    app.clear_info();
    assert!(!app.has_info());
}

#[test]
fn pick_inside_start_is_relative_and_outside_is_absolute() {
    let mut app = started_at("/a/b");
    select(&mut app, "c");
    app.enter_selected_node(&tree);
    select(&mut app, "d.txt");
    app.enter_selected_node(&tree);
    assert_eq!(app.picked_path, Some("c/d.txt".to_string()));
    assert!(app.should_quit);

    let mut app = started_at("/a/b");
    app.go_to_root(&tree);
    select(&mut app, "other");
    app.go_into(&tree);
    select(&mut app, "e.txt");
    app.enter_selected_node(&tree);
    assert_eq!(app.picked_path, Some("/other/e.txt".to_string()));
}

#[test]
fn picking_the_start_directory_itself_gives_dot() {
    let mut app = started_at("/a/b");
    app.pick_current_dir();
    assert_eq!(app.picked_path, Some(".".to_string()));
}

#[test]
fn forced_relative_outside_start_is_an_error() {
    let mut app = started_at("/a/b");
    app.relative_path = true;
    app.go_to_root(&tree);
    select(&mut app, "other");
    app.pick_selected_node(None);
    assert_eq!(app.picked_path, None);
    assert!(!app.should_quit);
    assert_eq!(
        app.error_message,
        Some("Selected path is not relative to the starting directory".to_string())
    );
}

#[test]
fn forced_absolute_inside_start() {
    let mut app = started_at("/a/b");
    app.absolute_path = true;
    select(&mut app, "top.txt");
    app.pick_selected_node(None);
    assert_eq!(app.picked_path, Some("/a/b/top.txt".to_string()));
}

fn choose_action(app: &mut App, name: &str) {
    app.open_action_dialog();
    assert_eq!(app.window_focus, WindowFocus::ActionMenu);
    let i = app.known_menu_actions.iter().position(|a| a.name == name).unwrap();
    app.move_cursor(i as i32);
}

#[test]
fn rename_through_the_dialog_then_listing_shows_new_name() {
    let renamed = Cell::new(false);
    let list = |p: String| -> Result<Vec<FileNode>, String> {
        if p == "/tmp/x" {
            if renamed.get() {
                Ok(vec![file("bar.txt")])
            } else {
                Ok(vec![file("foo.txt")])
            }
        } else {
            Err("no".to_string())
        }
    };
    let mut app = App::new();
    app.init("/tmp/x", &list);
    select(&mut app, "foo.txt");
    choose_action(&mut app, "Rename");
    assert!(matches!(app.execute_dialog_action(), Dispatch::Finish));
    assert_eq!(app.window_focus, WindowFocus::ActionMenuStep2);
    assert_eq!(app.action_menu_title, "New name for foo.txt");
    assert_eq!(app.action_menu_buffer, "foo.txt");
    assert_eq!(app.action_menu_cursor_x, 7);
    app.action_menu_input_clear_backwards();
    for c in "bar.txt".chars() {
        app.action_menu_input_append(c);
    }
    match app.execute_dialog_action_step2() {
        Dispatch::Run(ActionRequest::Shell(cmd)) => {
            assert_eq!(cmd, "mv \"/tmp/x/foo.txt\" \"/tmp/x/bar.txt\"")
        }
        other => panic!("unexpected {:?}", other),
    }
    assert_eq!(app.window_focus, WindowFocus::Tree);
    renamed.set(true);
    app.finish_action(ActionOutcome::Done, &list);
    assert_eq!(shown(&app), vec![".", "bar.txt"]);
}

#[test]
fn empty_dialog_text_is_refused_and_dialog_stays_open() {
    let mut app = started_at("/a/b");
    select(&mut app, "top.txt");
    choose_action(&mut app, "Create file");
    app.execute_dialog_action();
    assert_eq!(app.action_menu_buffer, "");
    assert!(matches!(app.execute_dialog_action_step2(), Dispatch::Stay));
    assert_eq!(app.error_message, Some("No value given".to_string()));
    assert_eq!(app.window_focus, WindowFocus::ActionMenuStep2);
    app.action_menu_input_append('n');
    match app.execute_dialog_action_step2() {
        Dispatch::Run(ActionRequest::Shell(cmd)) => assert_eq!(cmd, "touch \"/a/b/n\""),
        other => panic!("unexpected {:?}", other),
    }
}

#[test]
fn delete_confirmation_other_than_yes_aborts() {
    let mut app = started_at("/a/b");
    select(&mut app, "c");
    app.delete_selected_node_confirm();
    assert_eq!(app.action_menu_title, "Are you sure you want to permanently delete \"c\"?");
    assert_eq!(app.action_menu_buffer, "yes");
    app.action_menu_input_backspace();
    assert!(matches!(app.execute_dialog_action_step2(), Dispatch::Finish));
    assert_eq!(app.error_message, Some("Operation aborted".to_string()));
    assert_eq!(app.window_focus, WindowFocus::Tree);
}

#[test]
fn delete_confirmed_removes_directory_recursively() {
    let mut app = started_at("/a/b");
    select(&mut app, "c");
    app.delete_selected_node_confirm();
    match app.execute_dialog_action_step2() {
        Dispatch::Run(ActionRequest::Shell(cmd)) => assert_eq!(cmd, "rm -rf \"/a/b/c\""),
        other => panic!("unexpected {:?}", other),
    }
}

#[test]
fn background_command_failure_is_shown_and_listing_refreshed() {
    let calls = Cell::new(0);
    let list = |p: String| -> Result<Vec<FileNode>, String> {
        calls.set(calls.get() + 1);
        tree(p)
    };
    let mut app = App::new();
    app.init("/a/b", &list);
    select(&mut app, "top.txt");
    choose_action(&mut app, "Run command");
    app.execute_dialog_action();
    assert_eq!(app.action_menu_buffer, "\"/a/b/top.txt\"");
    app.action_menu_input_home();
    for c in "false ".chars() {
        app.action_menu_input_append(c);
    }
    match app.execute_dialog_action_step2() {
        Dispatch::Run(ActionRequest::Background { workdir, command }) => {
            assert_eq!(workdir, "/a/b");
            assert_eq!(command, "false \"/a/b/top.txt\"");
        }
        other => panic!("unexpected {:?}", other),
    }
    assert_eq!(app.info_message, Some("Running command...\nfalse \"/a/b/top.txt\"".to_string()));
    app.finish_action(ActionOutcome::Done, &list);
    let before = calls.get();
    app.consume_background_event(BackgroundEvent::ErrorMessage("exit 1".to_string()), &list);
    assert_eq!(app.error_message, Some("exit 1".to_string()));
    assert_eq!(calls.get(), before + 1);
    assert_eq!(shown(&app), vec![".", "c", "top.txt"]);
}

#[test]
fn immediate_actions_hand_back_their_work() {
    let mut app = started_at("/a/b");
    select(&mut app, "top.txt");
    choose_action(&mut app, "Edit in vim");
    match app.execute_dialog_action() {
        Dispatch::Run(ActionRequest::Interactive(cmd)) => assert_eq!(cmd, "vim \"/a/b/top.txt\""),
        other => panic!("unexpected {:?}", other),
    }
    assert!(matches!(app.action_menu_operation, Some(Operation::InteractiveShellCommand { .. })));
    choose_action(&mut app, "Details");
    match app.execute_dialog_action() {
        Dispatch::Run(ActionRequest::Details { path, is_directory }) => {
            assert_eq!(path, "/a/b/top.txt");
            assert!(!is_directory);
        }
        other => panic!("unexpected {:?}", other),
    }
    choose_action(&mut app, "Copy relative path to clipboard");
    match app.execute_dialog_action() {
        Dispatch::Run(ActionRequest::CopyToClipboard(t)) => assert_eq!(t, "top.txt"),
        other => panic!("unexpected {:?}", other),
    }
    choose_action(&mut app, "Pick absolute path");
    assert!(matches!(app.execute_dialog_action(), Dispatch::Finish));
    assert_eq!(app.picked_path, Some("/a/b/top.txt".to_string()));
}

#[test]
fn failed_action_is_shown_and_focus_returns() {
    let mut app = started_at("/a/b");
    select(&mut app, "top.txt");
    choose_action(&mut app, "Delete");
    match app.execute_dialog_action() {
        Dispatch::Run(ActionRequest::Shell(cmd)) => assert_eq!(cmd, "rm \"/a/b/top.txt\""),
        other => panic!("unexpected {:?}", other),
    }
    app.finish_action(ActionOutcome::Failed("rm failed".to_string()), &tree);
    assert_eq!(app.error_message, Some("rm failed".to_string()));
    assert_eq!(app.window_focus, WindowFocus::Tree);
    assert!(app.has_error());
    app.clear_error();
    assert!(!app.has_error());
}

#[test]
fn action_dialog_does_not_open_on_empty_listing() {
    let mut app = started_at("/empty");
    app.type_search_text('q');
    app.open_action_dialog();
    assert_eq!(app.window_focus, WindowFocus::Tree);
}

#[test]
fn line_editing_by_characters_and_words() {
    let mut app = App::new();
    app.open_action_menu_step2("t".to_string(), "héllo wörld".to_string());
    assert_eq!(app.action_menu_cursor_x, 11);
    app.action_menu_input_backspace_word();
    assert_eq!(app.action_menu_buffer, "héllo ");
    assert_eq!(app.action_menu_cursor_x, 6);
    app.action_menu_input_backspace_word();
    assert_eq!(app.action_menu_buffer, "héllo");
    app.action_menu_input_left();
    app.action_menu_input_left();
    app.action_menu_input_delete();
    assert_eq!(app.action_menu_buffer, "hélo");
    app.action_menu_input_home();
    app.action_menu_input_right();
    app.action_menu_input_append('X');
    assert_eq!(app.action_menu_buffer, "hXélo");
    assert_eq!(app.action_menu_cursor_x, 2);
    app.action_menu_input_clear_forward();
    assert_eq!(app.action_menu_buffer, "hX");
    app.action_menu_input_end();
    assert_eq!(app.action_menu_cursor_x, 2);
}

#[test]
fn word_movement_and_forward_deletion() {
    let mut app = App::new();
    app.open_action_menu_step2("t".to_string(), "ab cd ef".to_string());
    app.action_menu_input_home();
    app.action_menu_input_right_word();
    assert_eq!(app.action_menu_cursor_x, 2);
    app.action_menu_input_right_word();
    assert_eq!(app.action_menu_cursor_x, 3);
    app.action_menu_input_delete_word();
    assert_eq!(app.action_menu_buffer, "ab  ef");
    app.action_menu_input_delete_word();
    assert_eq!(app.action_menu_buffer, "ab ef");
    app.action_menu_input_end();
    app.action_menu_input_right_word();
    assert_eq!(app.action_menu_cursor_x, 5);
    app.action_menu_input_left_word();
    assert_eq!(app.action_menu_cursor_x, 3);
    app.action_menu_input_left_word();
    assert_eq!(app.action_menu_cursor_x, 2);
}

#[test]
fn command_line_arguments() {
    let mut app = App::new();
    assert_eq!(app.apply_arg("-r".to_string()), Ok(ArgEffect::Continue));
    assert!(app.relative_path);
    assert_eq!(app.apply_arg("--abs".to_string()), Ok(ArgEffect::Continue));
    assert!(app.absolute_path);
    assert_eq!(app.apply_arg("--stderr".to_string()), Ok(ArgEffect::Continue));
    assert!(app.print_stderr);
    assert_eq!(app.apply_arg("/tmp/".to_string()), Ok(ArgEffect::Continue));
    assert_eq!(app.starting_dir, "/tmp");
    assert_eq!(
        app.apply_arg("/var".to_string()),
        Err("unrecognized arguments or too many arguments. Use --help for usage".to_string())
    );
    assert_eq!(app.apply_arg("--version".to_string()), Ok(ArgEffect::PrintVersion));
    assert_eq!(app.apply_arg("-h".to_string()), Ok(ArgEffect::PrintHelp));
    let mut fresh = App::new();
    assert!(fresh.apply_arg("--bogus".to_string()).is_err());
    assert_eq!(fresh.starting_dir, "");
}

fn cursor_ok(app: &App) -> bool {
    if app.child_tree_nodes.is_empty() {
        app.dir_cursor == 0 && app.tree_selected.is_none()
    } else {
        app.dir_cursor < app.child_tree_nodes.len() && app.tree_selected == Some(app.dir_cursor)
    }
}

#[test]
fn cursor_valid_after_every_navigation_step() {
    let mut app = started_at("/a/b");
    assert!(cursor_ok(&app));
    app.move_cursor(5);
    assert!(cursor_ok(&app));
    app.go_into(&tree);
    assert!(cursor_ok(&app));
    app.move_cursor(-3);
    assert!(cursor_ok(&app));
    app.go_up(&tree);
    assert!(cursor_ok(&app));
    app.go_up(&tree);
    assert!(cursor_ok(&app));
    app.go_to_root(&tree);
    assert!(cursor_ok(&app));
    select(&mut app, "other");
    app.go_into(&tree);
    assert!(cursor_ok(&app));
    app.type_search_text('x');
    assert!(cursor_ok(&app));
    app.backspace_search_text();
    assert!(cursor_ok(&app));
    app.parent_file_nodes.clear();
    app.parent_file_nodes.push(dir("empty"));
    app.populate_current_child_nodes(&tree);
    assert_eq!(shown(&app), vec!["."]);
    assert!(cursor_ok(&app));
    app.move_cursor(1);
    assert_eq!(app.dir_cursor, 0);
    assert!(cursor_ok(&app));
}
