//! Filesystem entries and the chain of directories that names a path.
use vstd::prelude::*;
use crate::text::{chars_of, lower_of, lowercase, push_char, string_of};
use relative_path::PathExt;

verus! {

/// What an entry is, once symbolic links are followed.
#[derive(Debug, PartialEq, Eq, Structural, Clone, Copy)]
pub enum FileType {
    /// A regular file, or a link to one.
    Regular,
    /// A directory, or a link to one.
    Directory,
    Other,
}

/// One entry of a directory listing.
#[derive(Debug, Clone, PartialEq)]
pub struct FileNode {
    pub name: String,
    pub file_type: FileType,
    pub lowercase_name: String,
    pub is_symlink: bool,
    /// Whether the entry is a directory once links are followed.
    pub is_directory: bool,
}

impl FileNode {
    /// The lowercase name is the name lowercased.
    pub open spec fn wf(&self) -> bool {
        self.lowercase_name@ == lower_of(self.name@)
    }

    /// An entry of a listing, from what the filesystem said of it: its name,
    /// whether it is a link, and whether its target is a directory or a
    /// regular file.
    pub fn from_entry(name: String, is_symlink: bool, is_directory: bool, is_file: bool) -> (r:
        FileNode)
        ensures
            r.name@ == name@,
            r.wf(),
            r.is_symlink == is_symlink,
            r.is_directory == is_directory,
            r.file_type == (if is_directory {
                FileType::Directory
            } else if is_file {
                FileType::Regular
            } else {
                FileType::Other
            }),
    {
        let lowercase_name = lowercase(name.as_str());
        let file_type = if is_directory {
            FileType::Directory
        } else if is_file {
            FileType::Regular
        } else {
            FileType::Other
        };
        FileNode { name, file_type, lowercase_name, is_symlink, is_directory }
    }

    /// A copy of this entry, field for field.
    pub fn duplicate(&self) -> (r: FileNode)
        ensures
            r == *self,
    {
        FileNode {
            name: self.name.clone(),
            file_type: self.file_type,
            lowercase_name: self.lowercase_name.clone(),
            is_symlink: self.is_symlink,
            is_directory: self.is_directory,
        }
    }
}

/// A copy of a sequence of entries.
pub fn duplicate_nodes(nodes: &Vec<FileNode>) -> (r: Vec<FileNode>)
    ensures
        r@ == nodes@,
{
    let mut r: Vec<FileNode> = Vec::new();
    let mut i: usize = 0;
    while i < nodes.len()
        invariant
            0 <= i <= nodes@.len(),
            r@ == nodes@.subrange(0, i as int),
        decreases nodes@.len() - i,
    {
        r.push(nodes[i].duplicate());
        i = i + 1;
        assert(r@ =~= nodes@.subrange(0, i as int));
    }
    assert(r@ =~= nodes@);
    r
}

/// The names of a sequence of entries.
pub open spec fn names_of(nodes: Seq<FileNode>) -> Seq<Seq<char>> {
    nodes.map_values(|n: FileNode| n.name@)
}

/// `s` without a trailing slash, unless `s` is the root itself.
pub open spec fn trimmed_spec(s: Seq<char>) -> Seq<char> {
    if s == seq!['/'] {
        s
    } else if s.len() > 0 && s.last() == '/' {
        s.drop_last()
    } else {
        s
    }
}

/// `s` with each `//`, taken from the left without overlap, made one `/`.
pub open spec fn collapsed_spec(s: Seq<char>) -> Seq<char>
    decreases s.len(),
{
    if s.len() >= 2 && s[0] == '/' && s[1] == '/' {
        seq!['/'] + collapsed_spec(s.subrange(2, s.len() as int))
    } else if s.len() >= 1 {
        seq![s[0]] + collapsed_spec(s.subrange(1, s.len() as int))
    } else {
        s
    }
}

/// `/` before each name: `/n0/n1/...`.
pub open spec fn slash_joined(names: Seq<Seq<char>>) -> Seq<char>
    decreases names.len(),
{
    if names.len() == 0 {
        Seq::empty()
    } else {
        slash_joined(names.drop_last()) + seq!['/'] + names.last()
    }
}

/// The absolute path that a chain of directories names.
pub open spec fn abs_path_spec(nodes: Seq<FileNode>) -> Seq<char> {
    if nodes.len() == 0 {
        seq!['/']
    } else {
        collapsed_spec(slash_joined(names_of(nodes)))
    }
}

/// Whether the chain `nodes` begins with the chain `start`, name by name.
pub open spec fn starts_with_nodes(nodes: Seq<FileNode>, start: Seq<FileNode>) -> bool {
    start.len() <= nodes.len() && forall|i: int|
        0 <= i < start.len() ==> #[trigger] nodes[i].name@ == start[i].name@
}

/// The non-empty components of a slash-separated path, in order.
pub open spec fn path_parts(s: Seq<char>) -> Seq<Seq<char>>
    decreases s.len(),
{
    if s.len() == 0 {
        Seq::empty()
    } else {
        let p = path_parts(s.drop_last());
        let c = s.last();
        if c == '/' {
            p
        } else if s.len() >= 2 && s[s.len() - 2] != '/' {
            p.update(p.len() - 1, p.last().push(c))
        } else {
            p.push(seq![c])
        }
    }
}

/// Drops one trailing slash from `path`, except from the root path `/`.
pub fn trim_end_slash(path: String) -> (r: String)
    ensures
        r@ == trimmed_spec(path@),
{
    let cs = chars_of(path.as_str());
    if cs.len() == 1 && cs[0] == '/' {
        assert(path@ =~= seq!['/']);
        return path;
    }
    if cs.len() > 0 && cs[cs.len() - 1] == '/' {
        let mut v = cs;
        v.pop();
        assert(v@ =~= path@.drop_last());
        return string_of(&v);
    }
    path
}

/// Makes every `//` of `path` a single `/`, in one pass from the left.
pub fn normalize_path(path: String) -> (r: String)
    ensures
        r@ == collapsed_spec(path@),
{
    let cs = chars_of(path.as_str());
    let n: usize = cs.len();
    let mut r = String::new();
    let mut i: usize = 0;
    assert(cs@.subrange(0, n as int) =~= cs@);
    assert(r@ + collapsed_spec(cs@) =~= collapsed_spec(cs@));
    while i < n
        invariant
            n == cs@.len(),
            cs@ == path@,
            0 <= i <= n,
            r@ + collapsed_spec(cs@.subrange(i as int, n as int)) == collapsed_spec(cs@),
        decreases n - i,
    {
        let ghost rest = cs@.subrange(i as int, n as int);
        if i + 1 < n && cs[i] == '/' && cs[i + 1] == '/' {
            assert(rest.subrange(2, rest.len() as int) =~= cs@.subrange(i + 2, n as int));
            push_char(&mut r, '/');
            i = i + 2;
        } else {
            assert(rest.subrange(1, rest.len() as int) =~= cs@.subrange(i + 1, n as int));
            push_char(&mut r, cs[i]);
            i = i + 1;
        }
        assert(r@ + collapsed_spec(cs@.subrange(i as int, n as int)) =~= collapsed_spec(cs@));
    }
    assert(cs@.subrange(n as int, n as int) =~= Seq::<char>::empty());
    assert(r@ + Seq::<char>::empty() =~= r@);
    r
}

/// The absolute path named by a chain of directories: `/` for the empty
/// chain, else each name after a `/`, with doubled slashes collapsed.
pub fn get_string_abs_path(nodes: &Vec<FileNode>) -> (r: String)
    ensures
        r@ == abs_path_spec(nodes@),
{
    if nodes.len() == 0 {
        let r = String::from_str("/");
        proof {
            reveal_strlit("/");
        }
        assert(r@ =~= seq!['/']);
        return r;
    }
    let mut path = String::new();
    let mut i: usize = 0;
    while i < nodes.len()
        invariant
            0 <= i <= nodes@.len(),
            path@ == slash_joined(names_of(nodes@.subrange(0, i as int))),
        decreases nodes@.len() - i,
    {
        push_char(&mut path, '/');
        path.append(nodes[i].name.as_str());
        i = i + 1;
        assert(names_of(nodes@.subrange(0, i as int)).drop_last() =~= names_of(
            nodes@.subrange(0, i - 1),
        ));
    }
    assert(nodes@.subrange(0, i as int) =~= nodes@);
    normalize_path(path)
}

/// Whether the chain `nodes` begins with the chain `start`, comparing names.
pub fn nodes_start_with(nodes: &Vec<FileNode>, start: &Vec<FileNode>) -> (r: bool)
    ensures
        r == starts_with_nodes(nodes@, start@),
{
    if nodes.len() < start.len() {
        return false;
    }
    let mut i: usize = 0;
    while i < start.len()
        invariant
            start@.len() <= nodes@.len(),
            0 <= i <= start@.len(),
            forall|k: int| 0 <= k < i ==> #[trigger] nodes@[k].name@ == start@[k].name@,
        decreases start@.len() - i,
    {
        if nodes[i].name != start[i].name {
            return false;
        }
        i = i + 1;
    }
    true
}

/// A directory of the chain that names a path, under the given name.
fn directory_node(name: Vec<char>) -> (r: FileNode)
    ensures
        r.name@ == name@,
        r.lowercase_name@ == lower_of(name@),
        r.file_type == FileType::Directory,
        !r.is_symlink,
        !r.is_directory,
{
    let name = string_of(&name);
    let lowercase_name = lowercase(name.as_str());
    FileNode {
        name,
        file_type: FileType::Directory,
        lowercase_name,
        is_symlink: false,
        is_directory: false,
    }
}

/// The chain of directories named by an absolute path: one node for each
/// non-empty component, in order.
pub fn path_file_nodes(abs_path: &str) -> (r: Vec<FileNode>)
    ensures
        names_of(r@) == path_parts(abs_path@),
        forall|i: int|
            0 <= i < r@.len() ==> {
                &&& (#[trigger] r@[i]).wf()
                &&& r@[i].file_type == FileType::Directory
                &&& !r@[i].is_symlink
                &&& !r@[i].is_directory
            },
{
    let cs = chars_of(abs_path);
    let n: usize = cs.len();
    let mut nodes: Vec<FileNode> = Vec::new();
    let mut cur: Vec<char> = Vec::new();
    let mut i: usize = 0;
    while i < n
        invariant
            n == cs@.len(),
            cs@ == abs_path@,
            0 <= i <= n,
            path_parts(cs@.subrange(0, i as int)) == (if i > 0 && cs@[i - 1] != '/' {
                names_of(nodes@).push(cur@)
            } else {
                names_of(nodes@)
            }),
            forall|k: int|
                0 <= k < nodes@.len() ==> {
                    &&& (#[trigger] nodes@[k]).lowercase_name@ == lower_of(nodes@[k].name@)
                    &&& nodes@[k].file_type == FileType::Directory
                    &&& !nodes@[k].is_symlink
                    &&& !nodes@[k].is_directory
                },
        decreases n - i,
    {
        let c = cs[i];
        let ghost pre = cs@.subrange(0, i as int);
        assert(cs@.subrange(0, i + 1).drop_last() =~= pre);
        let in_part = i > 0 && cs[i - 1] != '/';
        if c == '/' {
            if in_part {
                let node = directory_node(cur);
                nodes.push(node);
                cur = Vec::new();
                assert(names_of(nodes@) =~= path_parts(pre));
            }
        } else if in_part {
            cur.push(c);
            assert(path_parts(cs@.subrange(0, i + 1)) =~= names_of(nodes@).push(cur@));
        } else {
            cur = Vec::new();
            cur.push(c);
            assert(cur@ =~= seq![c]);
            assert(path_parts(cs@.subrange(0, i + 1)) =~= names_of(nodes@).push(cur@));
        }
        i = i + 1;
    }
    assert(cs@.subrange(0, n as int) =~= cs@);
    if n > 0 && cs[n - 1] != '/' {
        let node = directory_node(cur);
        nodes.push(node);
        assert(names_of(nodes@) =~= path_parts(cs@));
    }
    nodes
}


/// What `PathExt::relative_to` of the `relative_path` crate writes for the
/// path from `root` to `path`, if it can build one.
pub uninterp spec fn relative_text(path: Seq<char>, root: Seq<char>) -> Option<Seq<char>>;

/// Relies on `relative_path::PathExt::relative_to`: the relative path from
/// the directory `root` to `path`, written out, or nothing where it cannot
/// be built.
#[verifier::external_body]
pub(crate) fn relative_to(path: &str, root: &str) -> (r: Option<String>)
    ensures
        r matches Some(t) ==> relative_text(path@, root@) == Some(t@),
        r is None ==> relative_text(path@, root@) is None,
{
    std::path::Path::new(path).relative_to(root).ok().map(|p| p.to_string())
}

/// Whether the path `chosen` lies in the directory named by the chain
/// `start`, comparing component names.
pub open spec fn under_start(chosen: Seq<char>, start: Seq<FileNode>) -> bool {
    let parts = path_parts(chosen);
    start.len() <= parts.len() && forall|i: int|
        0 <= i < start.len() ==> #[trigger] parts[i] == start[i].name@
}

} // verus!
