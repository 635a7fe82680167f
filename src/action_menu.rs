//! The catalogue of actions on an entry, and the shell commands that carry
//! out the ones that touch the filesystem.
use vstd::prelude::*;
use crate::filesystem::FileType;
use crate::text::{chars_of, push_char, string_of};
use crate::tree::{views, TreeNode, TreeNodeType};

verus! {

broadcast use vstd::string::group_string_axioms;

/// An action in the catalogue, as shown and as carried out.
#[derive(Debug, Clone, Copy)]
pub struct MenuAction {
    pub name: &'static str,
    pub operation: Operation,
}

/// What an action does.
#[derive(Debug, Clone, Copy)]
pub enum Operation {
    /// Runs a shell command built from a template, in the background of the
    /// display.
    ShellCommand { template: &'static str },
    /// Runs a shell command that takes over the terminal.
    InteractiveShellCommand { template: &'static str },
    PickAbsolutePath,
    PickRelativePath,
    Rename,
    CreateFile,
    CreateDir,
    Delete,
    CopyToClipboard { is_relative_path: bool },
    FileDetails,
    CustomCommand,
    CustomInteractiveCommand,
    ViewContent,
}

/// The catalogue of actions, in the order in which it is shown.
pub open spec fn known_actions_spec() -> Seq<(Seq<char>, Operation)> {
    seq![
        ("Pick absolute path"@, Operation::PickAbsolutePath),
        ("Pick relative path"@, Operation::PickRelativePath),
        ("View"@, Operation::ViewContent),
        ("Rename"@, Operation::Rename),
        ("Delete"@, Operation::Delete),
        ("View in less"@, Operation::InteractiveShellCommand { template: "less -Src \"{}\"" }),
        ("Edit in vim"@, Operation::InteractiveShellCommand { template: "vim \"{}\"" }),
        ("Open with default app"@, Operation::ShellCommand { template: "xdg-open \"{}\"" }),
        ("Details"@, Operation::FileDetails),
        ("Create file"@, Operation::CreateFile),
        ("Create directory"@, Operation::CreateDir),
        (
            "Copy absolute path to clipboard"@,
            Operation::CopyToClipboard { is_relative_path: false },
        ),
        (
            "Copy relative path to clipboard"@,
            Operation::CopyToClipboard { is_relative_path: true },
        ),
        ("Run interactive command"@, Operation::CustomInteractiveCommand),
        ("Run command"@, Operation::CustomCommand),
    ]
}

/// Whether a sequence of actions is the catalogue.
pub open spec fn is_known_actions(v: Seq<MenuAction>) -> bool {
    v.len() == known_actions_spec().len() && forall|i: int|
        0 <= i < v.len() ==> (#[trigger] v[i]).name@ == known_actions_spec()[i].0
            && v[i].operation == known_actions_spec()[i].1
}

/// The catalogue of actions.
pub fn generate_known_actions() -> (r: Vec<MenuAction>)
    ensures
        is_known_actions(r@),
{
    let r = vec![
        MenuAction { name: "Pick absolute path", operation: Operation::PickAbsolutePath },
        MenuAction { name: "Pick relative path", operation: Operation::PickRelativePath },
        MenuAction { name: "View", operation: Operation::ViewContent },
        MenuAction { name: "Rename", operation: Operation::Rename },
        MenuAction { name: "Delete", operation: Operation::Delete },
        MenuAction {
            name: "View in less",
            operation: Operation::InteractiveShellCommand { template: "less -Src \"{}\"" },
        },
        MenuAction {
            name: "Edit in vim",
            operation: Operation::InteractiveShellCommand { template: "vim \"{}\"" },
        },
        MenuAction {
            name: "Open with default app",
            operation: Operation::ShellCommand { template: "xdg-open \"{}\"" },
        },
        MenuAction { name: "Details", operation: Operation::FileDetails },
        MenuAction { name: "Create file", operation: Operation::CreateFile },
        MenuAction { name: "Create directory", operation: Operation::CreateDir },
        MenuAction {
            name: "Copy absolute path to clipboard",
            operation: Operation::CopyToClipboard { is_relative_path: false },
        },
        MenuAction {
            name: "Copy relative path to clipboard",
            operation: Operation::CopyToClipboard { is_relative_path: true },
        },
        MenuAction {
            name: "Run interactive command",
            operation: Operation::CustomInteractiveCommand,
        },
        MenuAction { name: "Run command", operation: Operation::CustomCommand },
    ];
    assert(is_known_actions(r@));
    r
}

/// `template` with each `{}`, taken from the left, replaced by `path`.
pub open spec fn substituted(template: Seq<char>, path: Seq<char>) -> Seq<char>
    decreases template.len(),
{
    if template.len() >= 2 && template[0] == '{' && template[1] == '}' {
        path + substituted(template.subrange(2, template.len() as int), path)
    } else if template.len() >= 1 {
        seq![template[0]] + substituted(template.subrange(1, template.len() as int), path)
    } else {
        template
    }
}

/// The shell command that runs `command_template` on `path`: the template
/// with each `{}` replaced by the path.
pub fn execute_shell_operation(path: &String, command_template: &str) -> (r: String)
    ensures
        r@ == substituted(command_template@, path@),
{
    let cs = chars_of(command_template);
    let n: usize = cs.len();
    let mut r = String::new();
    let mut i: usize = 0;
    assert(cs@.subrange(0, n as int) =~= cs@);
    assert(r@ + substituted(cs@, path@) =~= substituted(cs@, path@));
    while i < n
        invariant
            n == cs@.len(),
            cs@ == command_template@,
            0 <= i <= n,
            r@ + substituted(cs@.subrange(i as int, n as int), path@) == substituted(cs@, path@),
        decreases n - i,
    {
        let ghost rest = cs@.subrange(i as int, n as int);
        if i + 1 < n && cs[i] == '{' && cs[i + 1] == '}' {
            assert(rest.subrange(2, rest.len() as int) =~= cs@.subrange(i + 2, n as int));
            r.append(path.as_str());
            i = i + 2;
        } else {
            assert(rest.subrange(1, rest.len() as int) =~= cs@.subrange(i + 1, n as int));
            push_char(&mut r, cs[i]);
            i = i + 1;
        }
        assert(r@ + substituted(cs@.subrange(i as int, n as int), path@) =~= substituted(
            cs@,
            path@,
        ));
    }
    assert(cs@.subrange(n as int, n as int) =~= Seq::<char>::empty());
    assert(r@ + Seq::<char>::empty() =~= r@);
    r
}

/// The directory part of a path: what stands before its last `/`, or
/// nothing where it has none.
pub open spec fn folder_of(s: Seq<char>) -> Seq<char>
    decreases s.len(),
{
    if s.len() == 0 {
        s
    } else if s.last() == '/' {
        s.drop_last()
    } else {
        folder_of(s.drop_last())
    }
}

/// The part of a path after its last `/`: the whole path where it has none.
pub open spec fn file_name_of(s: Seq<char>) -> Seq<char>
    decreases s.len(),
{
    if s.len() == 0 {
        s
    } else if s.last() == '/' {
        Seq::empty()
    } else {
        file_name_of(s.drop_last()).push(s.last())
    }
}

/// Where the last `/` of `cs` stands, if anywhere.
fn last_slash(cs: &Vec<char>) -> (r: Option<usize>)
    ensures
        r matches Some(k) ==> k < cs@.len() && cs@[k as int] == '/' && folder_of(cs@)
            == cs@.subrange(0, k as int) && file_name_of(cs@) == cs@.subrange(
            k + 1,
            cs@.len() as int,
        ),
        r is None ==> folder_of(cs@) == Seq::<char>::empty() && file_name_of(cs@) == cs@,
{
    let mut i: usize = cs.len();
    assert(cs@.subrange(0, cs@.len() as int) =~= cs@);
    assert(cs@.subrange(cs@.len() as int, cs@.len() as int) =~= Seq::<char>::empty());
    assert(file_name_of(cs@) + Seq::<char>::empty() =~= file_name_of(cs@));
    while i > 0
        invariant
            0 <= i <= cs@.len(),
            forall|k: int| i <= k < cs@.len() ==> cs@[k] != '/',
            folder_of(cs@) == folder_of(cs@.subrange(0, i as int)),
            file_name_of(cs@) == file_name_of(cs@.subrange(0, i as int)) + cs@.subrange(
                i as int,
                cs@.len() as int,
            ),
        decreases i,
    {
        let ghost pre = cs@.subrange(0, i as int);
        assert(pre.drop_last() =~= cs@.subrange(0, i - 1));
        if cs[i - 1] == '/' {
            assert(file_name_of(cs@) =~= cs@.subrange(i as int, cs@.len() as int));
            return Some(i - 1);
        }
        i = i - 1;
        assert(file_name_of(cs@) =~= file_name_of(cs@.subrange(0, i as int)) + cs@.subrange(
            i as int,
            cs@.len() as int,
        ));
    }
    assert(cs@.subrange(0, 0) =~= Seq::<char>::empty());
    assert(cs@.subrange(0, cs@.len() as int) =~= cs@);
    None
}

/// The last component of a path: what follows its last `/`.
pub fn file_name(path: &str) -> (r: String)
    ensures
        r@ == file_name_of(path@),
{
    let cs = chars_of(path);
    let n: usize = cs.len();
    match last_slash(&cs) {
        Some(k) => {
            let mut v: Vec<char> = Vec::new();
            let mut i: usize = k + 1;
            while i < n
                invariant
                    n == cs@.len(),
                    k + 1 <= i <= cs@.len(),
                    v@ == cs@.subrange(k + 1, i as int),
                decreases cs@.len() - i,
            {
                v.push(cs[i]);
                i = i + 1;
                assert(v@ =~= cs@.subrange(k + 1, i as int));
            }
            string_of(&v)
        },
        None => string_of(&cs),
    }
}

/// `"` + `s` + `"`.
pub open spec fn quoted(s: Seq<char>) -> Seq<char> {
    seq!['"'] + s + seq!['"']
}

/// `s` between double quotes.
fn push_quoted(r: &mut String, s: &str)
    ensures
        final(r)@ == old(r)@ + quoted(s@),
{
    push_char(r, '"');
    r.append(s);
    push_char(r, '"');
    assert(final(r)@ =~= old(r)@ + quoted(s@));
}

/// The shell command that renames the entry at `abs_path` to `new_name`
/// within the same directory: `mv "<path>" "<directory>/<new name>"`.
pub fn rename_file(abs_path: &String, new_name: &String) -> (r: String)
    ensures
        r@ == "mv "@ + quoted(abs_path@) + " "@ + quoted(folder_of(abs_path@) + seq!['/']
            + new_name@),
{
    let cs = chars_of(abs_path.as_str());
    let mut target: Vec<char> = Vec::new();
    match last_slash(&cs) {
        Some(k) => {
            let mut i: usize = 0;
            while i < k
                invariant
                    k < cs@.len(),
                    0 <= i <= k,
                    target@ == cs@.subrange(0, i as int),
                decreases k - i,
            {
                target.push(cs[i]);
                i = i + 1;
                assert(target@ =~= cs@.subrange(0, i as int));
            }
        },
        None => {},
    }
    target.push('/');
    let mut target = string_of(&target);
    target.append(new_name.as_str());
    assert(target@ =~= folder_of(abs_path@) + seq!['/'] + new_name@);
    let mut r = String::from_str("mv ");
    push_quoted(&mut r, abs_path.as_str());
    r.append(" ");
    push_quoted(&mut r, target.as_str());
    r
}

/// The shell command that creates an empty file at `abs_path`.
pub fn create_file(abs_path: &String) -> (r: String)
    ensures
        r@ == "touch "@ + quoted(abs_path@),
{
    let mut r = String::from_str("touch ");
    push_quoted(&mut r, abs_path.as_str());
    r
}

/// The shell command that creates the directory `abs_path` and its parents.
pub fn create_directory(abs_path: &String) -> (r: String)
    ensures
        r@ == "mkdir -p "@ + quoted(abs_path@),
{
    let mut r = String::from_str("mkdir -p ");
    push_quoted(&mut r, abs_path.as_str());
    r
}

/// Whether deleting an entry removes a whole tree: the current directory,
/// or a directory.
pub open spec fn deletes_tree(node: TreeNode) -> bool {
    match node.kind {
        TreeNodeType::SelfReference => true,
        TreeNodeType::FileNode(f) => f.file_type == FileType::Directory,
    }
}

/// The shell command that deletes the entry at `abs_path`: recursively for a
/// directory, plainly for anything else.
pub fn delete_tree_node(tree_node: &TreeNode, abs_path: &String) -> (r: String)
    ensures
        r@ == (if deletes_tree(*tree_node) {
            "rm -rf "@
        } else {
            "rm "@
        }) + quoted(abs_path@),
{
    let recursive = match &tree_node.kind {
        TreeNodeType::SelfReference => true,
        TreeNodeType::FileNode(file_node) => match file_node.file_type {
            FileType::Directory => true,
            _ => false,
        },
    };
    let mut r = if recursive {
        String::from_str("rm -rf ")
    } else {
        String::from_str("rm ")
    };
    push_quoted(&mut r, abs_path.as_str());
    r
}

/// The messages joined by `sep`.
pub open spec fn joined(messages: Seq<Seq<char>>, sep: Seq<char>) -> Seq<char>
    decreases messages.len(),
{
    if messages.len() == 0 {
        Seq::empty()
    } else if messages.len() == 1 {
        messages[0]
    } else {
        joined(messages.drop_last(), sep) + sep + messages.last()
    }
}

/// The messages of an error and its causes, outermost first, as one line.
pub fn join_error_messages(messages: &Vec<String>) -> (r: String)
    ensures
        r@ == joined(views(messages@), ": "@),
{
    let mut r = String::new();
    let mut i: usize = 0;
    while i < messages.len()
        invariant
            0 <= i <= messages@.len(),
            r@ == joined(views(messages@.subrange(0, i as int)), ": "@),
        decreases messages@.len() - i,
    {
        if i > 0 {
            r.append(": ");
        }
        r.append(messages[i].as_str());
        i = i + 1;
        assert(views(messages@.subrange(0, i as int)).drop_last() =~= views(
            messages@.subrange(0, i - 1),
        ));
        assert(r@ =~= joined(views(messages@.subrange(0, i as int)), ": "@));
    }
    assert(messages@.subrange(0, i as int) =~= messages@);
    r
}

#[verifier::external_type_specification]
#[verifier::external_body]
pub struct ExAnyhowError(anyhow::Error);

/// Relies on `anyhow::Error::chain`: the error itself, then each of its
/// causes, each written out by its `Display`.
#[verifier::external_body]
fn error_chain_messages(error: &anyhow::Error) -> (r: Vec<String>)
    ensures
        r@.len() >= 1,
{
    error.chain().map(|e| e.to_string()).collect::<Vec<String>>()
}

/// An error with its causes on one line, separated by `: `.
pub fn contextualized_error(error: &anyhow::Error) -> (r: String)
    ensures
        exists|messages: Seq<Seq<char>>| messages.len() >= 1 && r@ == joined(messages, ": "@),
{
    let messages = error_chain_messages(error);
    join_error_messages(&messages)
}

/// The UTC time `secs` seconds after the epoch, written
/// `%Y-%m-%d %H:%M:%S %z`, where it can be represented.
pub uninterp spec fn utc_time_text(secs: int) -> Option<Seq<char>>;

/// Relies on `chrono::DateTime::<Utc>::from_timestamp` and `format`: the
/// text of a UTC time, or nothing for a time out of range.
#[verifier::external_body]
fn format_utc_time(secs: i64) -> (r: Option<String>)
    ensures
        r matches Some(t) ==> utc_time_text(secs as int) == Some(t@),
        r is None ==> utc_time_text(secs as int) is None,
{
    chrono::DateTime::<chrono::Utc>::from_timestamp(secs, 0).map(
        |dt| dt.format("%Y-%m-%d %H:%M:%S %z").to_string(),
    )
}

/// The details shown for an entry: its kind and path, its size, and the
/// time it was last modified.
pub open spec fn details_text(
    abs_path: Seq<char>,
    is_directory: bool,
    size_text: Seq<char>,
    time_text: Seq<char>,
) -> Seq<char> {
    (if is_directory {
        "Directory"@
    } else {
        "File"@
    }) + ": "@ + abs_path + "\nSize: "@ + size_text + "\nModified: "@ + time_text
}

/// The details of an entry, from its size as text and the second since the
/// epoch at which it was last modified; nothing where that time cannot be
/// written.
pub fn file_details(abs_path: &str, is_directory: bool, size_text: &str, modified_secs: i64) -> (r:
    Option<String>)
    ensures
        r matches Some(t) ==> utc_time_text(modified_secs as int) matches Some(tt) && t@
            == details_text(abs_path@, is_directory, size_text@, tt),
        r is None ==> utc_time_text(modified_secs as int) is None,
{
    let time_text = match format_utc_time(modified_secs) {
        Some(t) => t,
        None => {
            return None;
        },
    };
    let mut r = if is_directory {
        String::from_str("Directory")
    } else {
        String::from_str("File")
    };
    r.append(": ");
    r.append(abs_path);
    r.append("\nSize: ");
    r.append(size_text);
    r.append("\nModified: ");
    r.append(time_text.as_str());
    Some(r)
}

} // verus!
