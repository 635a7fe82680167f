//! The picker's state: where it is, what it shows, what is selected, and
//! which dialog is open. Listing a directory is handed in by the caller as
//! a function from an absolute path to its entries or an error message.
use vstd::prelude::*;
use crate::action_menu::{generate_known_actions, is_known_actions, MenuAction, Operation};
use crate::appdata::WindowFocus;
use crate::filesystem::{
    abs_path_spec, duplicate_nodes, get_string_abs_path, names_of, nodes_start_with,
    path_file_nodes, path_parts, relative_text, relative_to, starts_with_nodes, under_start,
    FileNode, FileType,
};
use crate::text::chars_of;
use crate::filesystem::{trim_end_slash, trimmed_spec};
use crate::tree::{name_le, name_spec, render_tree_nodes, rendered, TreeNode, TreeNodeType};

verus! {

broadcast use vstd::string::group_string_axioms;

/// What a command-line argument asks for besides the settings it makes.
#[derive(Debug, PartialEq, Eq, Structural, Clone, Copy)]
pub enum ArgEffect {
    /// Go on with the next argument.
    Continue,
    /// Print the version and stop.
    PrintVersion,
    /// Print the usage and stop.
    PrintHelp,
}

/// The error for an argument that is neither a known flag nor the one
/// starting directory.
pub open spec fn bad_argument_message() -> Seq<char> {
    "unrecognized arguments or too many arguments. Use --help for usage"@
}

/// The whole state of a picking session.
pub struct App {
    pub should_quit: bool,
    /// The starting directory as given, without a trailing slash.
    pub starting_dir: String,
    /// Always print the picked path relative to the starting directory.
    pub relative_path: bool,
    /// Always print the picked path as an absolute path.
    pub absolute_path: bool,
    /// Also print the picked path on standard error.
    pub print_stderr: bool,
    /// The directories leading to the current directory, from the root.
    pub parent_file_nodes: Vec<FileNode>,
    /// The directories leading to the starting directory, from the root.
    pub starting_dir_nodes: Vec<FileNode>,
    /// The entries of the current directory.
    pub child_file_nodes: Vec<FileNode>,
    /// The entries shown, filtered and in display order.
    pub child_tree_nodes: Vec<TreeNode>,
    pub dir_cursor: usize,
    pub filter_text: String,
    /// The highlighted row of the listing, none when it is empty.
    pub tree_selected: Option<usize>,
    /// The first row of the listing on screen.
    pub tree_offset: usize,
    pub picked_path: Option<String>,
    pub exit_code: i32,
    pub error_message: Option<String>,
    pub info_message: Option<String>,
    pub info_message_scroll: usize,
    pub window_focus: WindowFocus,
    pub known_menu_actions: Vec<MenuAction>,
    pub action_menu_cursor_y: usize,
    /// The text cursor in the dialog buffer, in characters.
    pub action_menu_cursor_x: usize,
    pub action_menu_operation: Option<Operation>,
    pub action_menu_title: String,
    pub action_menu_buffer: String,
}

/// Whether a lister may be called on any path.
pub open spec fn lister_total<L: Fn(String) -> Result<Vec<FileNode>, String>>(list: &L) -> bool {
    forall|p: String| #[trigger] list.requires((p,))
}

/// Directories first, then by lowercase name.
pub open spec fn file_goes_before(a: FileNode, b: FileNode) -> bool {
    (a.file_type == FileType::Directory && b.file_type != FileType::Directory) || ((a.file_type
        == FileType::Directory) == (b.file_type == FileType::Directory) && name_le(
        a.lowercase_name@,
        b.lowercase_name@,
    ))
}

/// `x` placed before the first entry of `s` that it may go before.
pub open spec fn insert_file(x: FileNode, s: Seq<FileNode>) -> Seq<FileNode>
    decreases s.len(),
{
    if s.len() == 0 {
        seq![x]
    } else if file_goes_before(x, s[0]) {
        seq![x] + s
    } else {
        seq![s[0]] + insert_file(x, s.drop_first())
    }
}

/// The stable sort of a listing: directories first, then by lowercase name.
pub open spec fn sort_files_spec(s: Seq<FileNode>) -> Seq<FileNode>
    decreases s.len(),
{
    if s.len() == 0 {
        s
    } else {
        insert_file(s[0], sort_files_spec(s.drop_first()))
    }
}

fn name_le_chars(a: &Vec<char>, b: &Vec<char>) -> (r: bool)
    ensures
        r == name_le(a@, b@),
{
    let mut i: usize = 0;
    assert(a@.subrange(0, a@.len() as int) =~= a@);
    assert(b@.subrange(0, b@.len() as int) =~= b@);
    while i < a.len() && i < b.len()
        invariant
            0 <= i <= a@.len(),
            i <= b@.len(),
            name_le(a@, b@) == name_le(
                a@.subrange(i as int, a@.len() as int),
                b@.subrange(i as int, b@.len() as int),
            ),
        decreases a@.len() - i,
    {
        let ghost sa = a@.subrange(i as int, a@.len() as int);
        let ghost sb = b@.subrange(i as int, b@.len() as int);
        if a[i] != b[i] {
            return a[i] < b[i];
        }
        assert(sa.drop_first() =~= a@.subrange(i + 1, a@.len() as int));
        assert(sb.drop_first() =~= b@.subrange(i + 1, b@.len() as int));
        i = i + 1;
    }
    i == a.len()
}

fn file_goes_before_exec(a: &FileNode, b: &FileNode) -> (r: bool)
    ensures
        r == file_goes_before(*a, *b),
{
    let ad = a.file_type == FileType::Directory;
    let bd = b.file_type == FileType::Directory;
    if ad != bd {
        return ad;
    }
    let an = chars_of(a.lowercase_name.as_str());
    let bn = chars_of(b.lowercase_name.as_str());
    name_le_chars(&an, &bn)
}

proof fn lemma_insert_file_at(x: FileNode, s: Seq<FileNode>, j: int)
    requires
        0 <= j <= s.len(),
        forall|k: int| 0 <= k < j ==> !file_goes_before(x, #[trigger] s[k]),
        j == s.len() || file_goes_before(x, s[j]),
    ensures
        insert_file(x, s) == s.insert(j, x),
    decreases j,
{
    if j == 0 {
        assert(insert_file(x, s) =~= s.insert(j, x));
    } else {
        assert(!file_goes_before(x, s[0]));
        let t = s.drop_first();
        assert forall|k: int| 0 <= k < j - 1 implies !file_goes_before(x, #[trigger] t[k]) by {
            assert(t[k] == s[k + 1]);
        }
        lemma_insert_file_at(x, t, j - 1);
        assert(insert_file(x, s) =~= s.insert(j, x));
    }
}

/// Sorts a listing: directories first, then by lowercase name, keeping the
/// order of equal entries.
pub fn sort_file_nodes(v: Vec<FileNode>) -> (r: Vec<FileNode>)
    ensures
        r@ == sort_files_spec(v@),
{
    let n: usize = v.len();
    let mut r: Vec<FileNode> = Vec::new();
    let mut i: usize = n;
    assert(v@.subrange(n as int, n as int) =~= Seq::<FileNode>::empty());
    while i > 0
        invariant
            n == v@.len(),
            0 <= i <= n,
            r@ == sort_files_spec(v@.subrange(i as int, n as int)),
        decreases i,
    {
        i = i - 1;
        let x = v[i].duplicate();
        let mut j: usize = 0;
        while j < r.len() && !file_goes_before_exec(&x, &r[j])
            invariant
                0 <= j <= r@.len(),
                forall|k: int| 0 <= k < j ==> !file_goes_before(x, #[trigger] r@[k]),
            decreases r@.len() - j,
        {
            j = j + 1;
        }
        proof {
            lemma_insert_file_at(x, r@, j as int);
            assert(v@.subrange(i as int, n as int).drop_first() =~= v@.subrange(i + 1, n as int));
        }
        r.insert(j, x);
    }
    assert(v@.subrange(0, n as int) =~= v@);
    r
}

/// What a listing leaves: the sorted entries shown under the filter, or no
/// entries, nothing shown, and the error.
pub open spec fn listing_outcome(
    res: Result<Vec<FileNode>, String>,
    app: App,
    old_error: Option<String>,
) -> bool {
    match res {
        Ok(v) => app.child_file_nodes@ == sort_files_spec(v@) && app.error_message == old_error
            && app.child_tree_nodes@ == rendered(app.child_file_nodes@, app.filter_text@),
        Err(e) => app.child_file_nodes@ == Seq::<FileNode>::empty() && app.error_message == Some(e)
            && app.child_tree_nodes@ == Seq::<TreeNode>::empty(),
    }
}

/// The index at which the cursor rests after a move to `c` over `len`
/// entries: clamped to `[0, len - 1]`, or `0` when there are none.
pub open spec fn clamped(c: int, len: int) -> int {
    if c > len - 1 {
        if len - 1 < 0 {
            0
        } else {
            len - 1
        }
    } else if c < 0 {
        0
    } else {
        c
    }
}

/// The position of the first displayed entry named `name`.
pub open spec fn first_named(ts: Seq<TreeNode>, name: Seq<char>) -> Option<int>
    decreases ts.len(),
{
    if ts.len() == 0 {
        None
    } else if name_spec(ts[0].kind) == name {
        Some(0)
    } else {
        match first_named(ts.drop_first(), name) {
            Some(i) => Some(i + 1),
            None => None,
        }
    }
}

proof fn lemma_first_named_bound(ts: Seq<TreeNode>, name: Seq<char>)
    ensures
        first_named(ts, name) matches Some(i) ==> 0 <= i < ts.len() && name_spec(ts[i].kind)
            == name,
    decreases ts.len(),
{
    if ts.len() > 0 {
        lemma_first_named_bound(ts.drop_first(), name);
    }
}

/// The chain of directories that ends at an entry: the parents, followed
/// by the entry unless it is the current directory itself.
pub open spec fn chosen_nodes_spec(parents: Seq<FileNode>, node: TreeNode) -> Seq<FileNode> {
    match node.kind {
        TreeNodeType::SelfReference => parents,
        TreeNodeType::FileNode(f) => parents.push(f),
    }
}

/// A relative path as printed: `.` for the starting directory itself.
pub open spec fn dot_if_empty(s: Seq<char>) -> Seq<char> {
    if s.len() == 0 {
        seq!['.']
    } else {
        s
    }
}

/// The error shown when a path cannot be made relative.
pub open spec fn not_relative_message() -> Seq<char> {
    "Selected path is not relative to the starting directory"@
}

/// Going into a directory and straight back up restores the chain of
/// parents, and puts the cursor back on the directory just left wherever it
/// is still listed.
pub proof fn lemma_into_then_up<L: Fn(String) -> Result<Vec<FileNode>, String>>(
    a: App,
    b: App,
    c: App,
    list: &L,
)
    requires
        a.enterable() is Some,
        App::went_into(a, b, list),
        App::went_up(b, c, list),
    ensures
        c.parent_file_nodes@ == a.parent_file_nodes@,
        first_named(c.child_tree_nodes@, a.enterable()->0.name@) matches Some(i) ==> c.dir_cursor
            == i,
{
    assert(b.parent_file_nodes@.drop_last() =~= a.parent_file_nodes@);
}

/// `cur + delta` held within `[0, len - 1]`, computed without overflow.
fn moved_index(cur: usize, delta: i32, len: usize) -> (r: usize)
    ensures
        r == clamped(cur + delta, len as int),
{
    if len == 0 {
        return 0;
    }
    let last = len - 1;
    if delta < 0 {
        let back: usize = (0 - (delta as i64)) as usize;
        let target = if back > cur {
            0
        } else {
            cur - back
        };
        if target > last {
            last
        } else {
            target
        }
    } else {
        let fwd: usize = delta as usize;
        if cur >= last || fwd >= last - cur {
            last
        } else {
            cur + fwd
        }
    }
}

impl App {
    /// The cursor lies within the displayed entries and is highlighted; with
    /// none displayed it is at `0` and nothing is highlighted.
    pub open spec fn cursor_valid(&self) -> bool {
        if self.child_tree_nodes@.len() == 0 {
            self.dir_cursor == 0 && self.tree_selected is None
        } else {
            self.dir_cursor < self.child_tree_nodes@.len() && self.tree_selected == Some(
                self.dir_cursor,
            )
        }
    }

    /// The fields that navigation leaves alone: the session's settings, the
    /// messages but the error, and the dialog.
    pub open spec fn same_session(&self, other: &App) -> bool {
        &&& self.should_quit == other.should_quit
        &&& self.starting_dir == other.starting_dir
        &&& self.relative_path == other.relative_path
        &&& self.absolute_path == other.absolute_path
        &&& self.print_stderr == other.print_stderr
        &&& self.starting_dir_nodes == other.starting_dir_nodes
        &&& self.picked_path == other.picked_path
        &&& self.exit_code == other.exit_code
        &&& self.info_message == other.info_message
        &&& self.info_message_scroll == other.info_message_scroll
        &&& self.window_focus == other.window_focus
        &&& self.known_menu_actions == other.known_menu_actions
        &&& self.action_menu_cursor_y == other.action_menu_cursor_y
        &&& self.action_menu_cursor_x == other.action_menu_cursor_x
        &&& self.action_menu_operation == other.action_menu_operation
        &&& self.action_menu_title == other.action_menu_title
        &&& self.action_menu_buffer == other.action_menu_buffer
    }

    /// The displayed entries are those of the children under the filter.
    pub open spec fn shows_children(&self) -> bool {
        self.child_tree_nodes@ == rendered(self.child_file_nodes@, self.filter_text@)
    }

    /// The directory being browsed, as an absolute path.
    pub open spec fn current_path(&self) -> Seq<char> {
        abs_path_spec(self.parent_file_nodes@)
    }

    /// The children are what `list` may give for `path`, sorted and shown
    /// under the filter; where the listing failed nothing is shown and its
    /// message is the error, else the error is `old_error`.
    pub open spec fn listed<L: Fn(String) -> Result<Vec<FileNode>, String>>(
        &self,
        path: Seq<char>,
        old_error: Option<String>,
        list: &L,
    ) -> bool {
        exists|p: String, res: Result<Vec<FileNode>, String>|
            p@ == path && #[trigger] list.ensures((p,), res) && listing_outcome(res, *self, old_error)
    }

    /// After a refresh of `old`'s directory through `list`: the children are
    /// a possible listing, the display follows them, the cursor has been
    /// re-clamped from `cursor` and the view scrolled to the top.
    pub open spec fn refreshed<L: Fn(String) -> Result<Vec<FileNode>, String>>(
        &self,
        old: &App,
        list: &L,
        cursor: int,
    ) -> bool {
        &&& self.listed(old.current_path(), old.error_message, list)
        &&& self.dir_cursor == clamped(cursor, self.child_tree_nodes@.len() as int)
        &&& self.cursor_valid()
        &&& self.tree_offset == 0
    }

    /// The entry under the cursor, if the cursor is on one.
    pub open spec fn selected_spec(&self) -> Option<TreeNode> {
        if self.dir_cursor < self.child_tree_nodes@.len() {
            Some(self.child_tree_nodes@[self.dir_cursor as int])
        } else {
            None
        }
    }

    /// The directory entry under the cursor that going into would enter.
    pub open spec fn enterable(&self) -> Option<FileNode> {
        match self.selected_spec() {
            Some(node) => match node.kind {
                TreeNodeType::FileNode(f) => if f.file_type == FileType::Directory {
                    Some(f)
                } else {
                    None
                },
                TreeNodeType::SelfReference => None,
            },
            None => None,
        }
    }

    /// `self` shows a directory freshly entered through `list` from a state
    /// whose error was `old_error`: the filter cleared, the listing of the new
    /// current directory shown, the view scrolled to the top and the cursor on
    /// `cursor`.
    pub open spec fn arrived<L: Fn(String) -> Result<Vec<FileNode>, String>>(
        &self,
        old_error: Option<String>,
        list: &L,
        cursor: int,
    ) -> bool {
        &&& self.filter_text@ == Seq::<char>::empty()
        &&& self.listed(self.current_path(), old_error, list)
        &&& self.dir_cursor == cursor
        &&& self.cursor_valid()
        &&& self.tree_offset == 0
    }

    /// What going into the selected entry does: where it is a directory, it
    /// is added to the chain of parents and shown with the cursor on its
    /// first entry; elsewhere nothing changes.
    pub open spec fn went_into<L: Fn(String) -> Result<Vec<FileNode>, String>>(
        old: App,
        new: App,
        list: &L,
    ) -> bool {
        match old.enterable() {
            Some(f) => {
                &&& new.parent_file_nodes@ == old.parent_file_nodes@.push(f)
                &&& new.arrived(old.error_message, list, 0)
                &&& new.same_session(&old)
            },
            None => new == old,
        }
    }

    /// Where the cursor rests after going up out of a directory named `name`:
    /// on the first entry with that name, else on the first entry.
    pub open spec fn reselected(ts: Seq<TreeNode>, name: Seq<char>) -> int {
        match first_named(ts, name) {
            Some(i) => i,
            None => 0,
        }
    }

    /// What going up does: at the root nothing; elsewhere the last parent is
    /// dropped and the parent directory is shown with the cursor on the
    /// directory just left, where it is still listed.
    pub open spec fn went_up<L: Fn(String) -> Result<Vec<FileNode>, String>>(
        old: App,
        new: App,
        list: &L,
    ) -> bool {
        if old.parent_file_nodes@.len() == 0 {
            new == old
        } else {
            &&& new.parent_file_nodes@ == old.parent_file_nodes@.drop_last()
            &&& new.arrived(
                old.error_message,
                list,
                App::reselected(
                    new.child_tree_nodes@,
                    old.parent_file_nodes@.last().name@,
                ),
            )
            &&& new.same_session(&old)
        }
    }

    /// A session at the root, with no listing yet and the catalogue of
    /// actions loaded.
    pub fn new() -> (r: App)
        ensures
            r.parent_file_nodes@.len() == 0,
            r.child_tree_nodes@.len() == 0,
            r.cursor_valid(),
            r.window_focus == WindowFocus::Tree,
            r.picked_path is None,
            r.error_message is None,
            r.info_message is None,
            !r.should_quit,
            is_known_actions(r.known_menu_actions@),
    {
        App {
            should_quit: false,
            starting_dir: String::new(),
            relative_path: false,
            absolute_path: false,
            print_stderr: false,
            parent_file_nodes: Vec::new(),
            starting_dir_nodes: Vec::new(),
            child_file_nodes: Vec::new(),
            child_tree_nodes: Vec::new(),
            dir_cursor: 0,
            filter_text: String::new(),
            tree_selected: None,
            tree_offset: 0,
            picked_path: None,
            exit_code: 0,
            error_message: None,
            info_message: None,
            info_message_scroll: 0,
            window_focus: WindowFocus::Tree,
            known_menu_actions: generate_known_actions(),
            action_menu_cursor_y: 0,
            action_menu_cursor_x: 0,
            action_menu_operation: None,
            action_menu_title: String::new(),
            action_menu_buffer: String::new(),
        }
    }

    /// Puts the cursor on `cursor`, clamped to the displayed entries, and
    /// highlights it.
    pub fn set_dir_cursor(&mut self, cursor: usize)
        ensures
            final(self).dir_cursor == clamped(cursor as int, old(self).child_tree_nodes@.len() as int),
            final(self).cursor_valid(),
            final(self).child_tree_nodes == old(self).child_tree_nodes,
            final(self).child_file_nodes == old(self).child_file_nodes,
            final(self).parent_file_nodes == old(self).parent_file_nodes,
            final(self).filter_text == old(self).filter_text,
            final(self).tree_offset == old(self).tree_offset,
            final(self).error_message == old(self).error_message,
            final(self).same_session(old(self)),
    {
        let len = self.child_tree_nodes.len();
        if len == 0 {
            self.dir_cursor = 0;
            self.tree_selected = None;
        } else {
            self.dir_cursor = if cursor > len - 1 {
                len - 1
            } else {
                cursor
            };
            self.tree_selected = Some(self.dir_cursor);
        }
    }

    /// Scrolls the listing back to its top.
    pub fn reset_cursor_offset(&mut self)
        ensures
            final(self).tree_offset == 0,
            final(self).dir_cursor == old(self).dir_cursor,
            final(self).tree_selected == old(self).tree_selected,
            final(self).child_tree_nodes == old(self).child_tree_nodes,
            final(self).child_file_nodes == old(self).child_file_nodes,
            final(self).parent_file_nodes == old(self).parent_file_nodes,
            final(self).filter_text == old(self).filter_text,
            final(self).error_message == old(self).error_message,
            final(self).same_session(old(self)),
    {
        self.tree_offset = 0;
    }

    /// The absolute path of the directory being browsed.
    pub fn get_current_string_path(&self) -> (r: String)
        ensures
            r@ == self.current_path(),
    {
        get_string_abs_path(&self.parent_file_nodes)
    }

    /// Rebuilds the displayed entries from the children and the filter text,
    /// scrolls to the top and re-clamps the cursor.
    pub fn render_tree_nodes(&mut self)
        ensures
            final(self).shows_children(),
            final(self).child_file_nodes == old(self).child_file_nodes,
            final(self).parent_file_nodes == old(self).parent_file_nodes,
            final(self).filter_text == old(self).filter_text,
            final(self).error_message == old(self).error_message,
            final(self).dir_cursor == clamped(
                old(self).dir_cursor as int,
                final(self).child_tree_nodes@.len() as int,
            ),
            final(self).cursor_valid(),
            final(self).tree_offset == 0,
            final(self).same_session(old(self)),
    {
        self.child_tree_nodes = render_tree_nodes(&self.child_file_nodes, self.filter_text.as_str());
        self.reset_cursor_offset();
        let c = self.dir_cursor;
        self.set_dir_cursor(c);
    }

    /// Lists the directory being browsed through `list` and shows it: a
    /// listing that fails shows nothing and leaves its message as the error.
    pub fn populate_current_child_nodes<L: Fn(String) -> Result<Vec<FileNode>, String>>(
        &mut self,
        list: &L,
    )
        requires
            lister_total(list),
        ensures
            final(self).refreshed(old(self), list, old(self).dir_cursor as int),
            final(self).parent_file_nodes == old(self).parent_file_nodes,
            final(self).filter_text == old(self).filter_text,
            final(self).same_session(old(self)),
    {
        let path = self.get_current_string_path();
        let ghost p = path;
        let result = list(path);
        let ghost res = result;
        match result {
            Ok(nodes) => {
                self.child_file_nodes = sort_file_nodes(nodes);
            },
            Err(e) => {
                self.error_message = Some(e);
                self.child_file_nodes = Vec::new();
                self.child_tree_nodes = Vec::new();
                self.reset_cursor_offset();
                let c = self.dir_cursor;
                self.set_dir_cursor(c);
                assert(list.ensures((p,), res));
                return ;
            },
        }
        self.render_tree_nodes();
        assert(list.ensures((p,), res));
    }

    /// The entry under the cursor, if the cursor is on one.
    pub fn get_selected_tree_node(&self) -> (r: Option<TreeNode>)
        ensures
            r == self.selected_spec(),
    {
        if self.child_tree_nodes.len() == 0 || self.dir_cursor >= self.child_tree_nodes.len() {
            return None;
        }
        Some(self.child_tree_nodes[self.dir_cursor].duplicate())
    }

    /// Goes into the directory under the cursor, shows it and puts the cursor
    /// on its first entry. Does nothing on the current directory's own entry
    /// or on anything but a directory.
    pub fn go_into<L: Fn(String) -> Result<Vec<FileNode>, String>>(&mut self, list: &L)
        requires
            lister_total(list),
        ensures
            App::went_into(*old(self), *final(self), list),
    {
        let selected_node_o: Option<TreeNode> = self.get_selected_tree_node();
        let selected_node = match selected_node_o {
            Some(node) => node,
            None => {
                return ;
            },
        };
        match selected_node.kind {
            TreeNodeType::SelfReference => {
                return ;
            },
            TreeNodeType::FileNode(file_node) => {
                if file_node.file_type != FileType::Directory {
                    return ;
                }
                self.parent_file_nodes.push(file_node);
                self.filter_text = String::new();
                self.populate_current_child_nodes(list);
                self.reset_cursor_offset();
                self.set_dir_cursor(0);
            },
        }
    }

    /// The position of the first displayed entry named `name`.
    fn position_named(&self, name: &String) -> (r: Option<usize>)
        ensures
            r matches Some(i) ==> first_named(self.child_tree_nodes@, name@) == Some(i as int),
            r is None ==> first_named(self.child_tree_nodes@, name@) is None,
    {
        let ghost ts = self.child_tree_nodes@;
        let mut i: usize = 0;
        assert(ts.subrange(0, ts.len() as int) =~= ts);
        while i < self.child_tree_nodes.len()
            invariant
                ts == self.child_tree_nodes@,
                0 <= i <= ts.len(),
                first_named(ts, name@) == match first_named(
                    ts.subrange(i as int, ts.len() as int),
                    name@,
                ) {
                    Some(k) => Some(k + i),
                    None => None,
                },
            decreases ts.len() - i,
        {
            let ghost rest = ts.subrange(i as int, ts.len() as int);
            assert(rest.drop_first() =~= ts.subrange(i + 1, ts.len() as int));
            let node_name = String::from_str(self.child_tree_nodes[i].name());
            if node_name == *name {
                return Some(i);
            }
            i = i + 1;
        }
        assert(ts.subrange(i as int, ts.len() as int) =~= Seq::<TreeNode>::empty());
        None
    }

    /// Goes up to the parent directory, shows it and puts the cursor back on
    /// the directory just left, or on the first entry where it is gone. Does
    /// nothing at the root.
    pub fn go_up<L: Fn(String) -> Result<Vec<FileNode>, String>>(&mut self, list: &L)
        requires
            lister_total(list),
        ensures
            App::went_up(*old(self), *final(self), list),
    {
        if self.parent_file_nodes.len() == 0 {
            return ;
        }
        self.filter_text = String::new();
        let parent = match self.parent_file_nodes.pop() {
            Some(p) => p,
            None => {
                return ;
            },
        };
        self.populate_current_child_nodes(list);
        let new_cursor = self.position_named(&parent.name);
        proof {
            lemma_first_named_bound(self.child_tree_nodes@, parent.name@);
        }
        match new_cursor {
            Some(idx) => {
                self.dir_cursor = idx;
            },
            None => {
                self.dir_cursor = 0;
            },
        }
        self.reset_cursor_offset();
        let c = self.dir_cursor;
        self.set_dir_cursor(c);
    }

    /// Goes to the root directory, shows it and puts the cursor on its first
    /// entry.
    pub fn go_to_root<L: Fn(String) -> Result<Vec<FileNode>, String>>(&mut self, list: &L)
        requires
            lister_total(list),
        ensures
            final(self).parent_file_nodes@.len() == 0,
            final(self).arrived(old(self).error_message, list, 0),
            final(self).same_session(old(self)),
    {
        self.parent_file_nodes = Vec::new();
        self.filter_text = String::new();
        self.populate_current_child_nodes(list);
        self.reset_cursor_offset();
        self.set_dir_cursor(0);
    }

    /// Starts browsing at the directory `start_abs_path` names, which is also
    /// the base of relative output, with the cursor on its first entry.
    pub fn init<L: Fn(String) -> Result<Vec<FileNode>, String>>(
        &mut self,
        start_abs_path: &str,
        list: &L,
    )
        requires
            lister_total(list),
        ensures
            crate::filesystem::names_of(final(self).parent_file_nodes@) == path_parts(
                start_abs_path@,
            ),
            final(self).starting_dir_nodes@ == final(self).parent_file_nodes@,
            final(self).listed(final(self).current_path(), old(self).error_message, list),
            final(self).filter_text == old(self).filter_text,
            final(self).dir_cursor == 0,
            final(self).cursor_valid(),
    {
        self.parent_file_nodes = path_file_nodes(start_abs_path);
        self.starting_dir_nodes = duplicate_nodes(&self.parent_file_nodes);
        self.populate_current_child_nodes(list);
        self.set_dir_cursor(0);
    }

    /// Moves the highlighted row by `delta`, held within its list. While an
    /// information message is shown, scrolls it instead, down to its top.
    pub fn move_cursor(&mut self, delta: i32)
        ensures
            old(self).info_message is Some ==> {
                &&& final(self).info_message_scroll == if old(self).info_message_scroll + delta < 0 {
                    0
                } else if old(self).info_message_scroll + delta > usize::MAX {
                    usize::MAX as int
                } else {
                    old(self).info_message_scroll + delta
                }
                &&& final(self).dir_cursor == old(self).dir_cursor
                &&& final(self).tree_selected == old(self).tree_selected
                &&& final(self).action_menu_cursor_y == old(self).action_menu_cursor_y
            },
            old(self).info_message is None && old(self).window_focus == WindowFocus::Tree ==> {
                &&& final(self).dir_cursor == clamped(
                    old(self).dir_cursor + delta,
                    old(self).child_tree_nodes@.len() as int,
                )
                &&& final(self).cursor_valid()
            },
            old(self).info_message is None && old(self).window_focus == WindowFocus::ActionMenu ==> {
                &&& final(self).action_menu_cursor_y == clamped(
                    old(self).action_menu_cursor_y + delta,
                    old(self).known_menu_actions@.len() as int,
                )
                &&& final(self).dir_cursor == old(self).dir_cursor
                &&& final(self).tree_selected == old(self).tree_selected
            },
            old(self).info_message is None && old(self).window_focus == WindowFocus::ActionMenuStep2
                ==> *final(self) == *old(self),
            final(self).child_tree_nodes == old(self).child_tree_nodes,
            final(self).child_file_nodes == old(self).child_file_nodes,
            final(self).parent_file_nodes == old(self).parent_file_nodes,
            final(self).filter_text == old(self).filter_text,
            final(self).error_message == old(self).error_message,
            final(self).info_message == old(self).info_message,
            final(self).window_focus == old(self).window_focus,
    {
        if self.info_message.is_some() {
            let s = self.info_message_scroll;
            self.info_message_scroll = if delta < 0 {
                let back: usize = (0 - (delta as i64)) as usize;
                if back > s {
                    0
                } else {
                    s - back
                }
            } else {
                let fwd: usize = delta as usize;
                if fwd > usize::MAX - s {
                    usize::MAX
                } else {
                    s + fwd
                }
            };
            return ;
        }
        match self.window_focus {
            WindowFocus::Tree => {
                let new_cursor = moved_index(self.dir_cursor, delta, self.child_tree_nodes.len());
                self.set_dir_cursor(new_cursor);
            },
            WindowFocus::ActionMenu => {
                self.action_menu_cursor_y = moved_index(
                    self.action_menu_cursor_y,
                    delta,
                    self.known_menu_actions.len(),
                );
            },
            WindowFocus::ActionMenuStep2 => {},
        }
    }

    /// Adds a character to the filter text, shows what it leaves and puts the
    /// cursor on the first entry.
    pub fn type_search_text(&mut self, c: char)
        ensures
            final(self).filter_text@ == old(self).filter_text@.push(c),
            final(self).shows_children(),
            final(self).child_file_nodes == old(self).child_file_nodes,
            final(self).parent_file_nodes == old(self).parent_file_nodes,
            final(self).error_message == old(self).error_message,
            final(self).dir_cursor == 0,
            final(self).cursor_valid(),
            final(self).same_session(old(self)),
    {
        crate::text::push_char(&mut self.filter_text, c);
        self.render_tree_nodes();
        self.set_dir_cursor(0);
    }

    /// Drops the last character of the filter text and shows what it leaves.
    pub fn backspace_search_text(&mut self)
        ensures
            final(self).filter_text@ == if old(self).filter_text@.len() == 0 {
                old(self).filter_text@
            } else {
                old(self).filter_text@.drop_last()
            },
            final(self).shows_children(),
            final(self).child_file_nodes == old(self).child_file_nodes,
            final(self).parent_file_nodes == old(self).parent_file_nodes,
            final(self).error_message == old(self).error_message,
            final(self).dir_cursor == clamped(
                old(self).dir_cursor as int,
                final(self).child_tree_nodes@.len() as int,
            ),
            final(self).cursor_valid(),
            final(self).same_session(old(self)),
    {
        let mut cs = chars_of(self.filter_text.as_str());
        cs.pop();
        assert(old(self).filter_text@.len() > 0 ==> cs@ =~= old(self).filter_text@.drop_last());
        self.filter_text = crate::text::string_of(&cs);
        self.render_tree_nodes();
    }

    /// Empties the filter text and shows every entry.
    pub fn clear_search_text(&mut self)
        ensures
            final(self).filter_text@ == Seq::<char>::empty(),
            final(self).shows_children(),
            final(self).child_file_nodes == old(self).child_file_nodes,
            final(self).parent_file_nodes == old(self).parent_file_nodes,
            final(self).error_message == old(self).error_message,
            final(self).dir_cursor == clamped(
                old(self).dir_cursor as int,
                final(self).child_tree_nodes@.len() as int,
            ),
            final(self).cursor_valid(),
            final(self).same_session(old(self)),
    {
        self.filter_text = String::new();
        self.render_tree_nodes();
    }

    /// Whether an error message is shown.
    pub fn has_error(&self) -> (r: bool)
        ensures
            r == self.error_message is Some,
    {
        self.error_message.is_some()
    }

    /// Dismisses the error message.
    pub fn clear_error(&mut self)
        ensures
            *final(self) == (App { error_message: None, ..*old(self) }),
    {
        self.error_message = None;
    }

    /// Shows an error message.
    pub fn show_error(&mut self, message: String)
        ensures
            *final(self) == (App { error_message: Some(message), ..*old(self) }),
    {
        self.error_message = Some(message);
    }

    /// Whether an information message is shown.
    pub fn has_info(&self) -> (r: bool)
        ensures
            r == self.info_message is Some,
    {
        self.info_message.is_some()
    }

    /// Dismisses the information message.
    pub fn clear_info(&mut self)
        ensures
            *final(self) == (App { info_message: None, ..*old(self) }),
    {
        self.info_message = None;
    }

    /// Shows an information message, scrolled to its top.
    pub fn show_info(&mut self, message: String)
        ensures
            *final(self) == (App { info_message: Some(message), info_message_scroll: 0, ..*old(self) }),
    {
        self.info_message = Some(message);
        self.info_message_scroll = 0;
    }

    /// Ends the session.
    pub fn quit(&mut self)
        ensures
            *final(self) == (App { should_quit: true, ..*old(self) }),
    {
        self.should_quit = true;
    }

    /// The absolute path of an entry, and the chain of directories that ends
    /// at it.
    pub fn build_tree_node_path(&self, tree_node: &TreeNode) -> (r: (String, Vec<FileNode>))
        ensures
            r.1@ == chosen_nodes_spec(self.parent_file_nodes@, *tree_node),
            r.0@ == abs_path_spec(r.1@),
    {
        let mut chosen_nodes = duplicate_nodes(&self.parent_file_nodes);
        match &tree_node.kind {
            TreeNodeType::SelfReference => {},
            TreeNodeType::FileNode(file_node) => {
                chosen_nodes.push(file_node.duplicate());
            },
        }
        (get_string_abs_path(&chosen_nodes), chosen_nodes)
    }

    /// The absolute path of the entry under the cursor.
    pub fn get_selected_abs_path(&self) -> (r: Option<String>)
        ensures
            r matches Some(p) ==> self.selected_spec() matches Some(node) && p@ == abs_path_spec(
                chosen_nodes_spec(self.parent_file_nodes@, node),
            ),
            r is None ==> self.selected_spec() is None,
    {
        match self.get_selected_tree_node() {
            Some(node) => {
                let (chosen_path, _) = self.build_tree_node_path(&node);
                Some(chosen_path)
            },
            None => None,
        }
    }

    /// Whether a picked path is printed relative to the starting directory:
    /// never when absolute output is asked for, always when relative output
    /// is, else where it lies in the starting directory.
    pub fn determine_relative_mode(&self, chosen_nodes: &Vec<FileNode>) -> (r: bool)
        ensures
            r == (!self.absolute_path && (self.relative_path || starts_with_nodes(
                chosen_nodes@,
                self.starting_dir_nodes@,
            ))),
    {
        if self.absolute_path {
            return false;
        }
        if self.relative_path {
            return true;
        }
        nodes_start_with(chosen_nodes, &self.starting_dir_nodes)
    }

    /// The path relative to the starting directory that `chosen` is made,
    /// where it lies in the starting directory.
    pub open spec fn relative_pick(&self, chosen: Seq<char>) -> Option<Seq<char>> {
        if !under_start(chosen, self.starting_dir_nodes@) {
            None
        } else {
            match relative_text(chosen, abs_path_spec(self.starting_dir_nodes@)) {
                Some(t) => Some(dot_if_empty(t)),
                None => None,
            }
        }
    }

    /// `chosen_path` relative to the starting directory, `.` for the
    /// directory itself. A path outside it is not made relative: the error
    /// says so.
    pub fn make_relative_path(&mut self, chosen_path: &String) -> (r: Option<String>)
        ensures
            r matches Some(t) ==> old(self).relative_pick(chosen_path@) == Some(t@),
            r is None ==> old(self).relative_pick(chosen_path@) is None,
            *final(self) == (if r is None {
                App { error_message: Some(final(self).error_message->0), ..*old(self) }
            } else {
                *old(self)
            }),
            r is None ==> final(self).error_message->0@ == not_relative_message(),
    {
        let chosen_nodes = path_file_nodes(chosen_path.as_str());
        let under = nodes_start_with(&chosen_nodes, &self.starting_dir_nodes);
        assert(under == under_start(chosen_path@, self.starting_dir_nodes@)) by {
            if under {
                assert forall|i: int| 0 <= i < self.starting_dir_nodes@.len() implies #[trigger]
                    path_parts(chosen_path@)[i] == self.starting_dir_nodes@[i].name@ by {
                    assert(names_of(chosen_nodes@)[i] == chosen_nodes@[i].name@);
                }
            } else if under_start(chosen_path@, self.starting_dir_nodes@) {
                assert forall|i: int| 0 <= i < self.starting_dir_nodes@.len() implies #[trigger]
                    chosen_nodes@[i].name@ == self.starting_dir_nodes@[i].name@ by {
                    assert(names_of(chosen_nodes@)[i] == chosen_nodes@[i].name@);
                }
            }
        }
        if !under {
            self.error_message = Some(
                String::from_str("Selected path is not relative to the starting directory"),
            );
            return None;
        }
        let start = get_string_abs_path(&self.starting_dir_nodes);
        match relative_to(chosen_path.as_str(), start.as_str()) {
            Some(rel) => {
                if rel.as_str().is_empty() {
                    let dot = String::from_str(".");
                    proof {
                        reveal_strlit(".");
                    }
                    assert(dot@ =~= seq!['.']);
                    Some(dot)
                } else {
                    Some(rel)
                }
            },
            None => {
                self.error_message = Some(
                    String::from_str("Selected path is not relative to the starting directory"),
                );
                None
            },
        }
    }

    /// Takes in one command-line argument: a flag sets its setting or asks to
    /// print the version or the usage; the first other argument is the
    /// starting directory, without a trailing slash. A second such argument,
    /// or an unknown flag, is an error.
    pub fn apply_arg(&mut self, arg: String) -> (r: Result<ArgEffect, String>)
        ensures
            if arg@ == "--version"@ {
                r == Ok::<ArgEffect, String>(ArgEffect::PrintVersion) && *final(self) == *old(self)
            } else if arg@ == "--help"@ || arg@ == "-h"@ {
                r == Ok::<ArgEffect, String>(ArgEffect::PrintHelp) && *final(self) == *old(self)
            } else if arg@ == "--relative"@ || arg@ == "--rel"@ || arg@ == "-r"@ {
                r == Ok::<ArgEffect, String>(ArgEffect::Continue) && *final(self) == (App {
                    relative_path: true,
                    ..*old(self)
                })
            } else if arg@ == "--absolute"@ || arg@ == "--abs"@ || arg@ == "-a"@ {
                r == Ok::<ArgEffect, String>(ArgEffect::Continue) && *final(self) == (App {
                    absolute_path: true,
                    ..*old(self)
                })
            } else if arg@ == "--stderr"@ {
                r == Ok::<ArgEffect, String>(ArgEffect::Continue) && *final(self) == (App {
                    print_stderr: true,
                    ..*old(self)
                })
            } else if old(self).starting_dir@.len() > 0 || (arg@.len() > 0 && arg@[0] == '-') {
                (r matches Err(e) && e@ == bad_argument_message()) && *final(self) == *old(self)
            } else {
                r == Ok::<ArgEffect, String>(ArgEffect::Continue) && final(self).starting_dir@
                    == trimmed_spec(arg@) && *final(self) == (App {
                    starting_dir: final(self).starting_dir,
                    ..*old(self)
                })
            },
    {
        if arg == String::from_str("--version") {
            return Ok(ArgEffect::PrintVersion);
        }
        if arg == String::from_str("--help") || arg == String::from_str("-h") {
            return Ok(ArgEffect::PrintHelp);
        }
        if arg == String::from_str("--relative") || arg == String::from_str("--rel")
            || arg == String::from_str("-r") {
            self.relative_path = true;
            return Ok(ArgEffect::Continue);
        }
        if arg == String::from_str("--absolute") || arg == String::from_str("--abs")
            || arg == String::from_str("-a") {
            self.absolute_path = true;
            return Ok(ArgEffect::Continue);
        }
        if arg == String::from_str("--stderr") {
            self.print_stderr = true;
            return Ok(ArgEffect::Continue);
        }
        let cs = chars_of(arg.as_str());
        if !self.starting_dir.as_str().is_empty() || (cs.len() > 0 && cs[0] == '-') {
            return Err(
                String::from_str(
                    "unrecognized arguments or too many arguments. Use --help for usage",
                ),
            );
        }
        self.starting_dir = trim_end_slash(arg);
        Ok(ArgEffect::Continue)
    }
}

} // verus!
