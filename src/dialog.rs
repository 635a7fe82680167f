//! The action dialog: choosing an action for the selected entry, typing its
//! argument, and the outside work that each action hands to the caller.
use vstd::prelude::*;
use crate::action_menu::{
    create_directory, create_file, delete_tree_node, deletes_tree, execute_shell_operation,
    file_name, file_name_of, folder_of, quoted, rename_file, substituted, Operation,
};
use crate::app::{chosen_nodes_spec, lister_total, App};
use crate::appdata::WindowFocus;
use crate::background::BackgroundEvent;
use crate::filesystem::{abs_path_spec, FileNode};
use crate::text::{chars_of, push_char, string_of};
use crate::tree::{is_dir_spec, TreeNode, TreeNodeType};

verus! {

broadcast use vstd::string::group_string_axioms;

/// Outside work that an action asks its caller to carry out.
#[derive(Debug, Clone)]
pub enum ActionRequest {
    /// Run a shell command, wait for it, and report a failure.
    Shell(String),
    /// Run a shell command attached to the terminal.
    Interactive(String),
    /// Put the text on the clipboard.
    CopyToClipboard(String),
    /// Show the size and modification time of an entry.
    Details { path: String, is_directory: bool },
    /// Show the content of a file.
    View(String),
    /// Run a command in `workdir` on a worker; its result comes back later as
    /// a background event.
    Background { workdir: String, command: String },
    /// Run a command in `workdir` attached to the terminal and show what it
    /// reports.
    InteractiveCustom { workdir: String, command: String },
}

/// What the caller does after an action was confirmed.
#[derive(Debug, Clone)]
pub enum Dispatch {
    /// Nothing more: nothing was selected, or the dialog stays open.
    Stay,
    /// Carry out the request, then finish the action with its outcome.
    Run(ActionRequest),
    /// Finish the action: no outside work was needed.
    Finish,
}

/// How the outside work of an action ended.
#[derive(Debug, Clone)]
pub enum ActionOutcome {
    Done,
    Info(String),
    Failed(String),
}

/// The views of an optional string.
pub open spec fn opt_view(o: Option<String>) -> Option<Seq<char>> {
    match o {
        Some(s) => Some(s@),
        None => None,
    }
}

/// The path the picking of `node` yields, given whether it is printed
/// relative to the starting directory.
pub open spec fn picked_spec(app: App, node: TreeNode, mode: Option<bool>) -> Option<Seq<char>> {
    let chosen = chosen_nodes_spec(app.parent_file_nodes@, node);
    let path = abs_path_spec(chosen);
    let relative = match mode {
        Some(b) => b,
        None => !app.absolute_path && (app.relative_path || crate::filesystem::starts_with_nodes(
            chosen,
            app.starting_dir_nodes@,
        )),
    };
    if relative {
        app.relative_pick(path)
    } else {
        Some(path)
    }
}

/// The state after picking `node`: the picked path recorded, the session
/// ended where there is one, and the error set where none could be made.
pub open spec fn picked_state(old: App, new: App, node: TreeNode, mode: Option<bool>) -> bool {
    let p = picked_spec(old, node, mode);
    &&& opt_view(new.picked_path) == p
    &&& new.should_quit == (old.should_quit || p is Some)
    &&& new == (App {
        picked_path: new.picked_path,
        should_quit: new.should_quit,
        error_message: new.error_message,
        ..old
    })
    &&& p is None ==> (new.error_message matches Some(e) && e@ == crate::app::not_relative_message())
    &&& p is Some ==> new.error_message == old.error_message
}

/// The state with the second step of the dialog open on `title` and
/// `buffer`, the text cursor after its last character.
pub open spec fn step2_open(
    old: App,
    new: App,
    op: Option<Operation>,
    title: Seq<char>,
    buffer: Seq<char>,
) -> bool {
    &&& new.window_focus == WindowFocus::ActionMenuStep2
    &&& new.action_menu_title@ == title
    &&& new.action_menu_buffer@ == buffer
    &&& new.action_menu_cursor_x == buffer.len()
    &&& new == (App {
        window_focus: new.window_focus,
        action_menu_operation: op,
        action_menu_title: new.action_menu_title,
        action_menu_buffer: new.action_menu_buffer,
        action_menu_cursor_x: new.action_menu_cursor_x,
        ..old
    })
}

/// `old` with the focus back on the listing and `op` as the dialog's action.
pub open spec fn back_to_tree(old: App, op: Option<Operation>) -> App {
    App { window_focus: WindowFocus::Tree, action_menu_operation: op, ..old }
}

/// The entry under the cursor with its absolute path, where the cursor is
/// on one.
pub open spec fn selection(app: App) -> Option<(TreeNode, Seq<char>)> {
    match app.selected_spec() {
        Some(node) => Some((node, abs_path_spec(chosen_nodes_spec(app.parent_file_nodes@, node)))),
        None => None,
    }
}

/// What confirming the chosen action of the catalogue does.
pub open spec fn dispatched(old: App, new: App, r: Dispatch) -> bool {
    match selection(old) {
        None => r is Stay && new == old,
        Some((node, path)) => if old.action_menu_cursor_y >= old.known_menu_actions@.len() {
            r is Stay && new == old
        } else {
            let op = old.known_menu_actions@[old.action_menu_cursor_y as int].operation;
            let cur = abs_path_spec(old.parent_file_nodes@);
            let base = back_to_tree(old, Some(op));
            match op {
                Operation::ShellCommand { template } => new == base && (r matches Dispatch::Run(
                    ActionRequest::Shell(c),
                ) && c@ == substituted(template@, path)),
                Operation::InteractiveShellCommand { template } => new == base
                    && (r matches Dispatch::Run(ActionRequest::Interactive(c)) && c@ == substituted(
                    template@,
                    path,
                )),
                Operation::PickAbsolutePath => r is Finish && picked_state(
                    base,
                    new,
                    node,
                    Some(false),
                ),
                Operation::PickRelativePath => r is Finish && picked_state(
                    base,
                    new,
                    node,
                    Some(true),
                ),
                Operation::Rename => r is Finish && step2_open(
                    old,
                    new,
                    Some(op),
                    "New name for "@ + file_name_of(path),
                    file_name_of(path),
                ),
                Operation::CreateFile => r is Finish && step2_open(
                    old,
                    new,
                    Some(op),
                    "New file at "@ + cur,
                    Seq::empty(),
                ),
                Operation::CreateDir => r is Finish && step2_open(
                    old,
                    new,
                    Some(op),
                    "New directory at "@ + cur,
                    Seq::empty(),
                ),
                Operation::CustomCommand => r is Finish && step2_open(
                    old,
                    new,
                    Some(op),
                    "Run command at "@ + cur,
                    quoted(path),
                ),
                Operation::CustomInteractiveCommand => r is Finish && step2_open(
                    old,
                    new,
                    Some(op),
                    "Run interactive command at "@ + cur,
                    quoted(path),
                ),
                Operation::Delete => new == base && (r matches Dispatch::Run(ActionRequest::Shell(c))
                    && c@ == (if deletes_tree(node) {
                    "rm -rf "@
                } else {
                    "rm "@
                }) + quoted(path)),
                Operation::CopyToClipboard { is_relative_path } => if !is_relative_path {
                    new == base && (r matches Dispatch::Run(ActionRequest::CopyToClipboard(t))
                        && t@ == path)
                } else {
                    match old.relative_pick(path) {
                        Some(rel) => new == base && (r matches Dispatch::Run(
                            ActionRequest::CopyToClipboard(t),
                        ) && t@ == rel),
                        None => r is Finish && (new.error_message matches Some(e) && e@
                            == crate::app::not_relative_message()) && new == (App {
                            error_message: new.error_message,
                            ..base
                        }),
                    }
                },
                Operation::FileDetails => new == base && (r matches Dispatch::Run(
                    ActionRequest::Details { path: p, is_directory: d },
                ) && p@ == path && d == is_dir_spec(node.kind)),
                Operation::ViewContent => new == base && if is_dir_spec(node.kind) {
                    r is Finish
                } else {
                    (r matches Dispatch::Run(ActionRequest::View(p)) && p@ == path)
                },
            }
        },
    }
}

/// `a` followed by `b`.
fn concat(a: &str, b: &str) -> (r: String)
    ensures
        r@ == a@ + b@,
{
    let mut r = String::from_str(a);
    r.append(b);
    r
}

/// `s` between double quotes.
fn quote(s: &str) -> (r: String)
    ensures
        r@ == quoted(s@),
{
    let mut r = String::new();
    push_char(&mut r, '"');
    r.append(s);
    push_char(&mut r, '"');
    assert(r@ =~= quoted(s@));
    r
}

/// What confirming the second step of the dialog does.
pub open spec fn dispatched_step2(old: App, new: App, r: Dispatch) -> bool {
    match selection(old) {
        None => r is Stay && new == old,
        Some((node, path)) => if old.action_menu_buffer@.len() == 0 {
            r is Stay && (new.error_message matches Some(e) && e@ == "No value given"@) && new == (
            App { error_message: new.error_message, ..old })
        } else {
            let buf = old.action_menu_buffer@;
            let cur = abs_path_spec(old.parent_file_nodes@);
            let base = App { window_focus: WindowFocus::Tree, ..old };
            match old.action_menu_operation {
                Some(Operation::Rename) => new == base && (r matches Dispatch::Run(
                    ActionRequest::Shell(c),
                ) && c@ == "mv "@ + quoted(path) + " "@ + quoted(folder_of(path) + seq!['/'] + buf)),
                Some(Operation::Delete) => if buf == "yes"@ {
                    new == base && (r matches Dispatch::Run(ActionRequest::Shell(c)) && c@ == (
                    if deletes_tree(node) {
                        "rm -rf "@
                    } else {
                        "rm "@
                    }) + quoted(path))
                } else {
                    r is Finish && (new.error_message matches Some(e) && e@ == "Operation aborted"@)
                        && new == (App { error_message: new.error_message, ..base })
                },
                Some(Operation::CreateFile) => new == base && (r matches Dispatch::Run(
                    ActionRequest::Shell(c),
                ) && c@ == "touch "@ + quoted(cur + seq!['/'] + buf)),
                Some(Operation::CreateDir) => new == base && (r matches Dispatch::Run(
                    ActionRequest::Shell(c),
                ) && c@ == "mkdir -p "@ + quoted(cur + seq!['/'] + buf)),
                Some(Operation::CustomCommand) => (new.info_message matches Some(i) && i@
                    == "Running command...\n"@ + buf) && new == (App {
                    info_message: new.info_message,
                    info_message_scroll: 0,
                    ..base
                }) && (r matches Dispatch::Run(
                    ActionRequest::Background { workdir: w, command: c },
                ) && w@ == cur && c@ == buf),
                Some(Operation::CustomInteractiveCommand) => new == base && (r matches Dispatch::Run(
                    ActionRequest::InteractiveCustom { workdir: w, command: c },
                ) && w@ == cur && c@ == buf),
                _ => r is Finish && new == base,
            }
        },
    }
}

/// `old` with the message that an outcome carries shown.
pub open spec fn with_outcome(old: App, outcome: ActionOutcome) -> App {
    match outcome {
        ActionOutcome::Done => old,
        ActionOutcome::Info(t) => App { info_message: Some(t), info_message_scroll: 0, ..old },
        ActionOutcome::Failed(e) => App { error_message: Some(e), ..old },
    }
}

/// `old` with the message that a background event carries shown.
pub open spec fn with_event(old: App, event: BackgroundEvent) -> App {
    match event {
        BackgroundEvent::InfoMessage(t) => App {
            info_message: Some(t),
            info_message_scroll: 0,
            ..old
        },
        BackgroundEvent::ErrorMessage(e) => App { error_message: Some(e), ..old },
    }
}

/// Where the text cursor cuts the text: at its position, or at the end
/// where it lies beyond.
pub open spec fn cut_at(s: Seq<char>, cx: int) -> int {
    if cx < s.len() {
        cx
    } else {
        s.len() as int
    }
}

/// The characters before the text cursor.
pub open spec fn before_cursor(s: Seq<char>, cx: int) -> Seq<char> {
    s.subrange(0, cut_at(s, cx))
}

/// The characters from the text cursor on.
pub open spec fn after_cursor(s: Seq<char>, cx: int) -> Seq<char> {
    s.subrange(cut_at(s, cx), s.len() as int)
}

/// `s` without its trailing run of non-space characters.
pub open spec fn strip_word_end(s: Seq<char>) -> Seq<char>
    decreases s.len(),
{
    if s.len() == 0 || s.last() == ' ' {
        s
    } else {
        strip_word_end(s.drop_last())
    }
}

/// Deleting a word backwards: a trailing space, or else the trailing word.
pub open spec fn word_back(s: Seq<char>) -> Seq<char> {
    if s.len() > 0 && s.last() == ' ' {
        s.drop_last()
    } else {
        strip_word_end(s)
    }
}

/// The length of the run of non-space characters that begins `s`.
pub open spec fn leading_word_len(s: Seq<char>) -> int
    decreases s.len(),
{
    if s.len() == 0 || s[0] == ' ' {
        0
    } else {
        1 + leading_word_len(s.drop_first())
    }
}

/// Deleting a word forwards: a leading space, or else the leading word.
pub open spec fn word_forward(s: Seq<char>) -> Seq<char> {
    if s.len() > 0 && s[0] == ' ' {
        s.drop_first()
    } else {
        s.subrange(leading_word_len(s), s.len() as int)
    }
}

/// The characters `v[from..to]`.
fn slice_chars(v: &Vec<char>, from: usize, to: usize) -> (r: Vec<char>)
    requires
        from <= to <= v@.len(),
    ensures
        r@ == v@.subrange(from as int, to as int),
{
    let mut r: Vec<char> = Vec::new();
    let mut i: usize = from;
    while i < to
        invariant
            from <= i <= to,
            to <= v@.len(),
            r@ == v@.subrange(from as int, i as int),
        decreases to - i,
    {
        r.push(v[i]);
        i = i + 1;
        assert(r@ =~= v@.subrange(from as int, i as int));
    }
    r
}

/// `a` followed by `b`.
fn join_chars(a: &Vec<char>, b: &Vec<char>) -> (r: Vec<char>)
    ensures
        r@ == a@ + b@,
{
    let mut r = slice_chars(a, 0, a.len());
    let mut i: usize = 0;
    assert(r@ =~= a@ + b@.subrange(0, 0));
    while i < b.len()
        invariant
            0 <= i <= b@.len(),
            r@ == a@ + b@.subrange(0, i as int),
        decreases b@.len() - i,
    {
        r.push(b[i]);
        i = i + 1;
        assert(r@ =~= a@ + b@.subrange(0, i as int));
    }
    assert(b@.subrange(0, i as int) =~= b@);
    r
}

/// The length that `strip_word_end` leaves of `v[..end]`.
fn strip_word_end_len(v: &Vec<char>, end: usize) -> (k: usize)
    requires
        end <= v@.len(),
    ensures
        k <= end,
        strip_word_end(v@.subrange(0, end as int)) == v@.subrange(0, k as int),
{
    let mut k: usize = end;
    while k > 0 && v[k - 1] != ' '
        invariant
            k <= end <= v@.len(),
            strip_word_end(v@.subrange(0, end as int)) == strip_word_end(v@.subrange(0, k as int)),
        decreases k,
    {
        assert(v@.subrange(0, k as int).drop_last() =~= v@.subrange(0, k - 1));
        k = k - 1;
    }
    k
}

/// The length of the run of non-space characters that begins `v[from..]`.
fn leading_word_len_exec(v: &Vec<char>, from: usize) -> (k: usize)
    requires
        from <= v@.len(),
    ensures
        k as int == leading_word_len(v@.subrange(from as int, v@.len() as int)),
        from + k <= v@.len(),
{
    let n: usize = v.len();
    let mut i: usize = from;
    while i < n && v[i] != ' '
        invariant
            n == v@.len(),
            from <= i <= n,
            leading_word_len(v@.subrange(from as int, n as int)) == (i - from) + leading_word_len(
                v@.subrange(i as int, n as int),
            ),
        decreases n - i,
    {
        assert(v@.subrange(i as int, n as int).drop_first() =~= v@.subrange(i + 1, n as int));
        i = i + 1;
    }
    i - from
}

impl App {
    /// Opens the catalogue of actions, on its first entry; not on an empty
    /// listing.
    pub fn open_action_dialog(&mut self)
        ensures
            *final(self) == if old(self).child_tree_nodes@.len() == 0 {
                *old(self)
            } else {
                App { window_focus: WindowFocus::ActionMenu, action_menu_cursor_y: 0, ..*old(self) }
            },
    {
        if self.child_tree_nodes.len() == 0 {
            return ;
        }
        self.window_focus = WindowFocus::ActionMenu;
        self.action_menu_cursor_y = 0;
    }

    /// Closes the dialog, back to the listing.
    pub fn close_action_dialog(&mut self)
        ensures
            *final(self) == (App { window_focus: WindowFocus::Tree, ..*old(self) }),
    {
        self.window_focus = WindowFocus::Tree;
    }

    /// Opens the second step of the dialog: a title and an editable buffer,
    /// the text cursor after its last character.
    pub fn open_action_menu_step2(&mut self, title: String, buffer: String)
        ensures
            step2_open(
                *old(self),
                *final(self),
                old(self).action_menu_operation,
                title@,
                buffer@,
            ),
    {
        self.window_focus = WindowFocus::ActionMenuStep2;
        self.action_menu_title = title;
        self.action_menu_cursor_x = chars_of(buffer.as_str()).len();
        self.action_menu_buffer = buffer;
    }

    /// Picks `tree_node`: its absolute path, or its path relative to the
    /// starting directory, as `relative_mode_o` says or else as the session
    /// decides; the session ends once a path is picked.
    pub fn pick_tree_node(&mut self, tree_node: &TreeNode, relative_mode_o: Option<bool>)
        ensures
            picked_state(*old(self), *final(self), *tree_node, relative_mode_o),
    {
        let (chosen_path, chosen_nodes) = self.build_tree_node_path(tree_node);
        let relative_mode: bool = match relative_mode_o {
            Some(b) => b,
            None => self.determine_relative_mode(&chosen_nodes),
        };
        self.picked_path = if relative_mode {
            self.make_relative_path(&chosen_path)
        } else {
            Some(chosen_path)
        };
        if self.picked_path.is_some() {
            self.quit();
        }
    }

    /// Picks the entry under the cursor; nothing where there is none.
    pub fn pick_selected_node(&mut self, relative_mode: Option<bool>)
        ensures
            match old(self).selected_spec() {
                Some(node) => picked_state(*old(self), *final(self), node, relative_mode),
                None => *final(self) == *old(self),
            },
    {
        match self.get_selected_tree_node() {
            Some(node) => self.pick_tree_node(&node, relative_mode),
            None => {},
        }
    }

    /// Picks the directory being browsed.
    pub fn pick_current_dir(&mut self)
        ensures
            picked_state(
                *old(self),
                *final(self),
                TreeNode { relevance: 0, kind: TreeNodeType::SelfReference },
                None,
            ),
    {
        let current_dir_node = TreeNode { relevance: 0, kind: TreeNodeType::SelfReference };
        self.pick_tree_node(&current_dir_node, None);
    }

    /// Enter on the selected entry: picks the current directory on its own
    /// entry, goes into a directory, and picks anything else.
    pub fn enter_selected_node<L: Fn(String) -> Result<Vec<FileNode>, String>>(
        &mut self,
        list: &L,
    )
        requires
            lister_total(list),
        ensures
            match old(self).selected_spec() {
                None => *final(self) == *old(self),
                Some(node) => match node.kind {
                    TreeNodeType::SelfReference => picked_state(
                        *old(self),
                        *final(self),
                        TreeNode { relevance: 0, kind: TreeNodeType::SelfReference },
                        None,
                    ),
                    TreeNodeType::FileNode(f) => if f.file_type == crate::filesystem::FileType::Directory {
                        App::went_into(*old(self), *final(self), list)
                    } else {
                        picked_state(*old(self), *final(self), node, None)
                    },
                },
            },
    {
        let selected_node = match self.get_selected_tree_node() {
            Some(node) => node,
            None => {
                return ;
            },
        };
        match selected_node.kind {
            TreeNodeType::SelfReference => {
                self.pick_current_dir();
            },
            TreeNodeType::FileNode(file_node) => match file_node.file_type {
                crate::filesystem::FileType::Directory => self.go_into(list),
                _ => self.pick_selected_node(None),
            },
        }
    }

    /// Confirms the action under the cursor of the catalogue for the entry
    /// under the cursor of the listing. Actions that need a text argument open
    /// the second step of the dialog; the others return to the listing, and
    /// hand back the outside work that they need.
    pub fn execute_dialog_action(&mut self) -> (r: Dispatch)
        ensures
            dispatched(*old(self), *final(self), r),
    {
        let abs_path: String = match self.get_selected_abs_path() {
            Some(abs_path) => abs_path,
            None => {
                return Dispatch::Stay;
            },
        };
        let tree_node: TreeNode = match self.get_selected_tree_node() {
            Some(tree_node) => tree_node,
            None => {
                return Dispatch::Stay;
            },
        };
        if self.action_menu_cursor_y >= self.known_menu_actions.len() {
            return Dispatch::Stay;
        }
        let is_directory = tree_node.is_directory();
        let current_dir_path: String = self.get_current_string_path();
        let operation = self.known_menu_actions[self.action_menu_cursor_y].operation;
        self.window_focus = WindowFocus::Tree;
        self.action_menu_operation = Some(operation);
        match operation {
            Operation::ShellCommand { template } => {
                Dispatch::Run(ActionRequest::Shell(execute_shell_operation(&abs_path, template)))
            },
            Operation::InteractiveShellCommand { template } => {
                Dispatch::Run(
                    ActionRequest::Interactive(execute_shell_operation(&abs_path, template)),
                )
            },
            Operation::PickAbsolutePath => {
                self.pick_selected_node(Some(false));
                Dispatch::Finish
            },
            Operation::PickRelativePath => {
                self.pick_selected_node(Some(true));
                Dispatch::Finish
            },
            Operation::Rename => {
                let filename = file_name(abs_path.as_str());
                let title = concat("New name for ", filename.as_str());
                self.open_action_menu_step2(title, filename);
                Dispatch::Finish
            },
            Operation::CreateFile => {
                let title = concat("New file at ", current_dir_path.as_str());
                self.open_action_menu_step2(title, String::new());
                Dispatch::Finish
            },
            Operation::CreateDir => {
                let title = concat("New directory at ", current_dir_path.as_str());
                self.open_action_menu_step2(title, String::new());
                Dispatch::Finish
            },
            Operation::CustomCommand => {
                let title = concat("Run command at ", current_dir_path.as_str());
                self.open_action_menu_step2(title, quote(abs_path.as_str()));
                Dispatch::Finish
            },
            Operation::CustomInteractiveCommand => {
                let title = concat("Run interactive command at ", current_dir_path.as_str());
                self.open_action_menu_step2(title, quote(abs_path.as_str()));
                Dispatch::Finish
            },
            Operation::Delete => {
                Dispatch::Run(ActionRequest::Shell(delete_tree_node(&tree_node, &abs_path)))
            },
            Operation::CopyToClipboard { is_relative_path } => {
                if is_relative_path {
                    match self.make_relative_path(&abs_path) {
                        Some(relative) => Dispatch::Run(ActionRequest::CopyToClipboard(relative)),
                        None => Dispatch::Finish,
                    }
                } else {
                    Dispatch::Run(ActionRequest::CopyToClipboard(abs_path))
                }
            },
            Operation::FileDetails => {
                Dispatch::Run(ActionRequest::Details { path: abs_path, is_directory })
            },
            Operation::ViewContent => {
                if is_directory {
                    Dispatch::Finish
                } else {
                    Dispatch::Run(ActionRequest::View(abs_path))
                }
            },
        }
    }

    /// Confirms the second step of the dialog with the typed text. An empty
    /// text is refused and the dialog stays open; otherwise the dialog closes
    /// and the outside work of the action is handed back.
    pub fn execute_dialog_action_step2(&mut self) -> (r: Dispatch)
        ensures
            dispatched_step2(*old(self), *final(self), r),
    {
        let abs_path: String = match self.get_selected_abs_path() {
            Some(abs_path) => abs_path,
            None => {
                return Dispatch::Stay;
            },
        };
        let tree_node: TreeNode = match self.get_selected_tree_node() {
            Some(tree_node) => tree_node,
            None => {
                return Dispatch::Stay;
            },
        };
        if self.action_menu_buffer.as_str().is_empty() {
            self.show_error(String::from_str("No value given"));
            return Dispatch::Stay;
        }
        let current_dir_path: String = self.get_current_string_path();
        self.window_focus = WindowFocus::Tree;
        match self.action_menu_operation {
            Some(Operation::Rename) => {
                Dispatch::Run(ActionRequest::Shell(rename_file(&abs_path, &self.action_menu_buffer)))
            },
            Some(Operation::Delete) => {
                let yes = String::from_str("yes");
                if !(self.action_menu_buffer == yes) {
                    self.show_error(String::from_str("Operation aborted"));
                    Dispatch::Finish
                } else {
                    Dispatch::Run(ActionRequest::Shell(delete_tree_node(&tree_node, &abs_path)))
                }
            },
            Some(Operation::CreateFile) => {
                let mut full_path = current_dir_path;
                push_char(&mut full_path, '/');
                full_path.append(self.action_menu_buffer.as_str());
                assert(full_path@ =~= abs_path_spec(self.parent_file_nodes@) + seq!['/']
                    + self.action_menu_buffer@);
                Dispatch::Run(ActionRequest::Shell(create_file(&full_path)))
            },
            Some(Operation::CreateDir) => {
                let mut full_path = current_dir_path;
                push_char(&mut full_path, '/');
                full_path.append(self.action_menu_buffer.as_str());
                assert(full_path@ =~= abs_path_spec(self.parent_file_nodes@) + seq!['/']
                    + self.action_menu_buffer@);
                Dispatch::Run(ActionRequest::Shell(create_directory(&full_path)))
            },
            Some(Operation::CustomCommand) => {
                let info = concat("Running command...\n", self.action_menu_buffer.as_str());
                self.show_info(info);
                Dispatch::Run(
                    ActionRequest::Background {
                        workdir: current_dir_path,
                        command: self.action_menu_buffer.clone(),
                    },
                )
            },
            Some(Operation::CustomInteractiveCommand) => {
                Dispatch::Run(
                    ActionRequest::InteractiveCustom {
                        workdir: current_dir_path,
                        command: self.action_menu_buffer.clone(),
                    },
                )
            },
            _ => Dispatch::Finish,
        }
    }

    /// Ends an action: shows the message its outside work left, then lists
    /// the directory again, whatever happened.
    pub fn finish_action<L: Fn(String) -> Result<Vec<FileNode>, String>>(
        &mut self,
        outcome: ActionOutcome,
        list: &L,
    )
        requires
            lister_total(list),
        ensures
            final(self).refreshed(&with_outcome(*old(self), outcome), list, old(self).dir_cursor as int),
            final(self).parent_file_nodes == old(self).parent_file_nodes,
            final(self).filter_text == old(self).filter_text,
            final(self).same_session(&with_outcome(*old(self), outcome)),
    {
        match outcome {
            ActionOutcome::Done => {},
            ActionOutcome::Info(t) => self.show_info(t),
            ActionOutcome::Failed(e) => self.show_error(e),
        }
        self.populate_current_child_nodes(list);
    }

    /// Takes in the result of a command that ran in the background: shows its
    /// message, then lists the directory again.
    pub fn consume_background_event<L: Fn(String) -> Result<Vec<FileNode>, String>>(
        &mut self,
        event: BackgroundEvent,
        list: &L,
    )
        requires
            lister_total(list),
        ensures
            final(self).refreshed(&with_event(*old(self), event), list, old(self).dir_cursor as int),
            final(self).parent_file_nodes == old(self).parent_file_nodes,
            final(self).filter_text == old(self).filter_text,
            final(self).same_session(&with_event(*old(self), event)),
    {
        match event {
            BackgroundEvent::InfoMessage(message) => self.show_info(message),
            BackgroundEvent::ErrorMessage(message) => self.show_error(message),
        }
        self.populate_current_child_nodes(list);
    }

    /// Opens the dialog that renames the entry under the cursor, with its
    /// current name to edit.
    pub fn rename_selected_node(&mut self)
        ensures
            match selection(*old(self)) {
                None => *final(self) == *old(self),
                Some((node, path)) => step2_open(
                    *old(self),
                    *final(self),
                    Some(Operation::Rename),
                    "New name for "@ + file_name_of(path),
                    file_name_of(path),
                ),
            },
    {
        let abs_path: String = match self.get_selected_abs_path() {
            Some(abs_path) => abs_path,
            None => {
                return ;
            },
        };
        let filename = file_name(abs_path.as_str());
        self.action_menu_operation = Some(Operation::Rename);
        let title = concat("New name for ", filename.as_str());
        self.open_action_menu_step2(title, filename);
    }

    /// Opens the dialog that asks to confirm deleting the entry under the
    /// cursor, with `yes` typed in.
    pub fn delete_selected_node_confirm(&mut self)
        ensures
            match selection(*old(self)) {
                None => *final(self) == *old(self),
                Some((node, path)) => step2_open(
                    *old(self),
                    *final(self),
                    Some(Operation::Delete),
                    "Are you sure you want to permanently delete "@ + quoted(file_name_of(path))
                        + "?"@,
                    "yes"@,
                ),
            },
    {
        let abs_path: String = match self.get_selected_abs_path() {
            Some(abs_path) => abs_path,
            None => {
                return ;
            },
        };
        let filename = file_name(abs_path.as_str());
        self.action_menu_operation = Some(Operation::Delete);
        let mut title = String::from_str("Are you sure you want to permanently delete ");
        title.append(quote(filename.as_str()).as_str());
        title.append("?");
        self.open_action_menu_step2(title, String::from_str("yes"));
    }

    /// Sets the dialog buffer and its text cursor, leaving all else.
    fn set_buffer(&mut self, buffer: &Vec<char>, cursor_x: usize)
        ensures
            final(self).action_menu_buffer@ == buffer@,
            *final(self) == (App {
                action_menu_buffer: final(self).action_menu_buffer,
                action_menu_cursor_x: cursor_x,
                ..*old(self)
            }),
    {
        self.action_menu_buffer = string_of(buffer);
        self.action_menu_cursor_x = cursor_x;
    }

    /// Inserts a character at the text cursor and moves past it.
    pub fn action_menu_input_append(&mut self, c: char)
        ensures
            ({
                let s = old(self).action_menu_buffer@;
                let cx = old(self).action_menu_cursor_x as int;
                let t = before_cursor(s, cx).push(c) + after_cursor(s, cx);
                &&& final(self).action_menu_buffer@ == t
                &&& final(self).action_menu_cursor_x == if cx + 1 > t.len() {
                    t.len() as int
                } else {
                    cx + 1
                }
                &&& *final(self) == (App {
                    action_menu_buffer: final(self).action_menu_buffer,
                    action_menu_cursor_x: final(self).action_menu_cursor_x,
                    ..*old(self)
                })
            }),
    {
        let cs = chars_of(self.action_menu_buffer.as_str());
        let cut = if self.action_menu_cursor_x < cs.len() {
            self.action_menu_cursor_x
        } else {
            cs.len()
        };
        let mut before = slice_chars(&cs, 0, cut);
        let after = slice_chars(&cs, cut, cs.len());
        before.push(c);
        let t = join_chars(&before, &after);
        let cx = self.action_menu_cursor_x;
        let new_cx = if cx < t.len() {
            cx + 1
        } else {
            t.len()
        };
        self.set_buffer(&t, new_cx);
    }

    /// Deletes everything before the text cursor.
    pub fn action_menu_input_clear_backwards(&mut self)
        ensures
            final(self).action_menu_buffer@ == after_cursor(
                old(self).action_menu_buffer@,
                old(self).action_menu_cursor_x as int,
            ),
            *final(self) == (App {
                action_menu_buffer: final(self).action_menu_buffer,
                action_menu_cursor_x: 0,
                ..*old(self)
            }),
    {
        let cs = chars_of(self.action_menu_buffer.as_str());
        let cut = if self.action_menu_cursor_x < cs.len() {
            self.action_menu_cursor_x
        } else {
            cs.len()
        };
        let after = slice_chars(&cs, cut, cs.len());
        self.set_buffer(&after, 0);
    }

    /// Deletes everything from the text cursor on.
    pub fn action_menu_input_clear_forward(&mut self)
        ensures
            final(self).action_menu_buffer@ == before_cursor(
                old(self).action_menu_buffer@,
                old(self).action_menu_cursor_x as int,
            ),
            *final(self) == (App {
                action_menu_buffer: final(self).action_menu_buffer,
                ..*old(self)
            }),
    {
        let cs = chars_of(self.action_menu_buffer.as_str());
        let cut = if self.action_menu_cursor_x < cs.len() {
            self.action_menu_cursor_x
        } else {
            cs.len()
        };
        let before = slice_chars(&cs, 0, cut);
        let cx = self.action_menu_cursor_x;
        self.set_buffer(&before, cx);
    }

    /// Deletes the character before the text cursor, if any, and moves back.
    pub fn action_menu_input_backspace(&mut self)
        ensures
            ({
                let s = old(self).action_menu_buffer@;
                let cx = old(self).action_menu_cursor_x as int;
                if before_cursor(s, cx).len() == 0 {
                    *final(self) == *old(self)
                } else {
                    &&& final(self).action_menu_buffer@ == before_cursor(s, cx).drop_last()
                        + after_cursor(s, cx)
                    &&& *final(self) == (App {
                        action_menu_buffer: final(self).action_menu_buffer,
                        action_menu_cursor_x: (cx - 1) as usize,
                        ..*old(self)
                    })
                }
            }),
    {
        let cs = chars_of(self.action_menu_buffer.as_str());
        let cut = if self.action_menu_cursor_x < cs.len() {
            self.action_menu_cursor_x
        } else {
            cs.len()
        };
        if cut == 0 {
            return ;
        }
        let before = slice_chars(&cs, 0, cut - 1);
        let after = slice_chars(&cs, cut, cs.len());
        let t = join_chars(&before, &after);
        assert(before@ =~= cs@.subrange(0, cut as int).drop_last());
        let cx = self.action_menu_cursor_x - 1;
        self.set_buffer(&t, cx);
    }

    /// Deletes the character at the text cursor, if any.
    pub fn action_menu_input_delete(&mut self)
        ensures
            ({
                let s = old(self).action_menu_buffer@;
                let cx = old(self).action_menu_cursor_x as int;
                if after_cursor(s, cx).len() == 0 {
                    *final(self) == *old(self)
                } else {
                    &&& final(self).action_menu_buffer@ == before_cursor(s, cx) + after_cursor(
                        s,
                        cx,
                    ).drop_first()
                    &&& *final(self) == (App {
                        action_menu_buffer: final(self).action_menu_buffer,
                        ..*old(self)
                    })
                }
            }),
    {
        let cs = chars_of(self.action_menu_buffer.as_str());
        let cut = if self.action_menu_cursor_x < cs.len() {
            self.action_menu_cursor_x
        } else {
            cs.len()
        };
        if cut == cs.len() {
            return ;
        }
        let before = slice_chars(&cs, 0, cut);
        let after = slice_chars(&cs, cut + 1, cs.len());
        assert(after@ =~= cs@.subrange(cut as int, cs@.len() as int).drop_first());
        let t = join_chars(&before, &after);
        let cx = self.action_menu_cursor_x;
        self.set_buffer(&t, cx);
    }

    /// Deletes backwards from the text cursor: a space, or else the word
    /// that ends there; the cursor follows.
    pub fn action_menu_input_backspace_word(&mut self)
        ensures
            ({
                let s = old(self).action_menu_buffer@;
                let cx = old(self).action_menu_cursor_x as int;
                let kept = word_back(before_cursor(s, cx));
                &&& final(self).action_menu_buffer@ == kept + after_cursor(s, cx)
                &&& final(self).action_menu_cursor_x == kept.len()
                &&& *final(self) == (App {
                    action_menu_buffer: final(self).action_menu_buffer,
                    action_menu_cursor_x: final(self).action_menu_cursor_x,
                    ..*old(self)
                })
            }),
    {
        let cs = chars_of(self.action_menu_buffer.as_str());
        let cut = if self.action_menu_cursor_x < cs.len() {
            self.action_menu_cursor_x
        } else {
            cs.len()
        };
        let k = if cut > 0 && cs[cut - 1] == ' ' {
            assert(cs@.subrange(0, cut as int).drop_last() =~= cs@.subrange(0, cut - 1));
            cut - 1
        } else {
            strip_word_end_len(&cs, cut)
        };
        let before = slice_chars(&cs, 0, k);
        let after = slice_chars(&cs, cut, cs.len());
        let t = join_chars(&before, &after);
        self.set_buffer(&t, k);
    }

    /// Deletes forwards from the text cursor: a space, or else the word that
    /// begins there.
    pub fn action_menu_input_delete_word(&mut self)
        ensures
            ({
                let s = old(self).action_menu_buffer@;
                let cx = old(self).action_menu_cursor_x as int;
                &&& final(self).action_menu_buffer@ == before_cursor(s, cx) + word_forward(
                    after_cursor(s, cx),
                )
                &&& *final(self) == (App {
                    action_menu_buffer: final(self).action_menu_buffer,
                    ..*old(self)
                })
            }),
    {
        let cs = chars_of(self.action_menu_buffer.as_str());
        let n: usize = cs.len();
        let cut = if self.action_menu_cursor_x < n {
            self.action_menu_cursor_x
        } else {
            n
        };
        let ghost rest = cs@.subrange(cut as int, n as int);
        let from = if cut < n && cs[cut] == ' ' {
            assert(rest.drop_first() =~= cs@.subrange(cut + 1, n as int));
            cut + 1
        } else {
            let k = leading_word_len_exec(&cs, cut);
            assert(rest.subrange(k as int, rest.len() as int) =~= cs@.subrange(cut + k, n as int));
            cut + k
        };
        let before = slice_chars(&cs, 0, cut);
        let after = slice_chars(&cs, from, n);
        let t = join_chars(&before, &after);
        let cx = self.action_menu_cursor_x;
        self.set_buffer(&t, cx);
    }

    /// Moves the text cursor back over a space, or else to the start of the
    /// word before it.
    pub fn action_menu_input_left_word(&mut self)
        ensures
            *final(self) == (App {
                action_menu_cursor_x: word_back(
                    before_cursor(
                        old(self).action_menu_buffer@,
                        old(self).action_menu_cursor_x as int,
                    ),
                ).len() as usize,
                ..*old(self)
            }),
    {
        let cs = chars_of(self.action_menu_buffer.as_str());
        let cut = if self.action_menu_cursor_x < cs.len() {
            self.action_menu_cursor_x
        } else {
            cs.len()
        };
        let k = if cut > 0 && cs[cut - 1] == ' ' {
            assert(cs@.subrange(0, cut as int).drop_last() =~= cs@.subrange(0, cut - 1));
            cut - 1
        } else {
            strip_word_end_len(&cs, cut)
        };
        self.action_menu_cursor_x = k;
    }

    /// Moves the text cursor forward over a space, or else to the end of the
    /// word that begins there; never past the end of the text.
    pub fn action_menu_input_right_word(&mut self)
        ensures
            ({
                let s = old(self).action_menu_buffer@;
                let cx = old(self).action_menu_cursor_x as int;
                let a = after_cursor(s, cx);
                let step = if a.len() == 0 || a[0] == ' ' {
                    1
                } else {
                    leading_word_len(a)
                };
                *final(self) == (App {
                    action_menu_cursor_x: (if cx + step > s.len() {
                        s.len() as int
                    } else {
                        cx + step
                    }) as usize,
                    ..*old(self)
                })
            }),
    {
        let cs = chars_of(self.action_menu_buffer.as_str());
        let n: usize = cs.len();
        let cx = self.action_menu_cursor_x;
        let cut = if cx < n {
            cx
        } else {
            n
        };
        let step: usize = if cut == n || cs[cut] == ' ' {
            1
        } else {
            leading_word_len_exec(&cs, cut)
        };
        self.action_menu_cursor_x = if cx > n || step > n - cx {
            n
        } else {
            cx + step
        };
    }

    /// Moves the text cursor back by one character.
    pub fn action_menu_input_left(&mut self)
        ensures
            *final(self) == (App {
                action_menu_cursor_x: if old(self).action_menu_cursor_x > 0 {
                    (old(self).action_menu_cursor_x - 1) as usize
                } else {
                    0
                },
                ..*old(self)
            }),
    {
        if self.action_menu_cursor_x > 0 {
            self.action_menu_cursor_x = self.action_menu_cursor_x - 1;
        }
    }

    /// Moves the text cursor forward by one character, at most to the end.
    pub fn action_menu_input_right(&mut self)
        ensures
            *final(self) == (App {
                action_menu_cursor_x: if old(self).action_menu_cursor_x
                    < old(self).action_menu_buffer@.len() {
                    (old(self).action_menu_cursor_x + 1) as usize
                } else {
                    old(self).action_menu_buffer@.len() as usize
                },
                ..*old(self)
            }),
    {
        let length = chars_of(self.action_menu_buffer.as_str()).len();
        if self.action_menu_cursor_x < length {
            self.action_menu_cursor_x = self.action_menu_cursor_x + 1;
        } else {
            self.action_menu_cursor_x = length;
        }
    }

    /// Moves the text cursor to the start.
    pub fn action_menu_input_home(&mut self)
        ensures
            *final(self) == (App { action_menu_cursor_x: 0, ..*old(self) }),
    {
        self.action_menu_cursor_x = 0;
    }

    /// Moves the text cursor to the end.
    pub fn action_menu_input_end(&mut self)
        ensures
            *final(self) == (App {
                action_menu_cursor_x: old(self).action_menu_buffer@.len() as usize,
                ..*old(self)
            }),
    {
        self.action_menu_cursor_x = chars_of(self.action_menu_buffer.as_str()).len();
    }
}

} // verus!
