//! The displayed entries of a directory and the relevance filter that ranks
//! them against a free-text query.
use vstd::prelude::*;
use crate::filesystem::FileNode;
use crate::text::{
    chars_of, contains_chars, contains_seq, lower_of, lowercase, starts_with_chars,
    starts_with_seq, string_of,
};

verus! {

broadcast use vstd::string::group_string_axioms;

/// The Unicode `White_Space` characters, which `char::is_whitespace` tests.
pub open spec fn is_space(c: char) -> bool {
    let u = c as u32;
    (9 <= u <= 13) || u == 32 || u == 0x85 || u == 0xa0 || u == 0x1680 || (0x2000 <= u <= 0x200a)
        || u == 0x2028 || u == 0x2029 || u == 0x202f || u == 0x205f || u == 0x3000
}

/// Whether `c` is white space.
pub fn is_space_char(c: char) -> (r: bool)
    ensures
        r == is_space(c),
{
    let u = c as u32;
    (9 <= u && u <= 13) || u == 32 || u == 0x85 || u == 0xa0 || u == 0x1680 || (0x2000 <= u && u
        <= 0x200a) || u == 0x2028 || u == 0x2029 || u == 0x202f || u == 0x205f || u == 0x3000
}

/// The maximal runs of non-space characters of `s`, in order.
pub open spec fn words_of(s: Seq<char>) -> Seq<Seq<char>>
    decreases s.len(),
{
    if s.len() == 0 {
        Seq::empty()
    } else {
        let p = words_of(s.drop_last());
        let c = s.last();
        if is_space(c) {
            p
        } else if s.len() >= 2 && !is_space(s[s.len() - 2]) {
            p.update(p.len() - 1, p.last().push(c))
        } else {
            p.push(seq![c])
        }
    }
}

/// The views of a sequence of strings.
pub open spec fn views(v: Seq<String>) -> Seq<Seq<char>> {
    v.map_values(|s: String| s@)
}

/// Each of `ws` in lowercase.
pub open spec fn lowered_all(ws: Seq<Seq<char>>) -> Seq<Seq<char>> {
    ws.map_values(|w: Seq<char>| lower_of(w))
}

/// The views of a sequence of character vectors.
pub open spec fn char_views(v: Seq<Vec<char>>) -> Seq<Seq<char>> {
    v.map_values(|w: Vec<char>| w@)
}

/// The tokens of a filter text: the words of its lowercase form, each
/// lowercased again.
pub open spec fn filter_words_spec(filter: Seq<char>) -> Seq<Seq<char>> {
    lowered_all(words_of(lower_of(filter)))
}

/// The non-space runs of `s`.
fn split_words(s: &str) -> (r: Vec<Vec<char>>)
    ensures
        char_views(r@) == words_of(s@),
{
    let cs = chars_of(s);
    let n: usize = cs.len();
    let mut words: Vec<Vec<char>> = Vec::new();
    let mut cur: Vec<char> = Vec::new();
    let mut i: usize = 0;
    while i < n
        invariant
            n == cs@.len(),
            cs@ == s@,
            0 <= i <= n,
            words_of(cs@.subrange(0, i as int)) == (if i > 0 && !is_space(cs@[i - 1]) {
                char_views(words@).push(cur@)
            } else {
                char_views(words@)
            }),
        decreases n - i,
    {
        let c = cs[i];
        let ghost pre = cs@.subrange(0, i as int);
        assert(cs@.subrange(0, i + 1).drop_last() =~= pre);
        let in_word = i > 0 && !is_space_char(cs[i - 1]);
        if is_space_char(c) {
            if in_word {
                words.push(cur);
                cur = Vec::new();
                assert(char_views(words@) =~= words_of(pre));
            }
        } else if in_word {
            cur.push(c);
            assert(words_of(cs@.subrange(0, i + 1)) =~= char_views(words@).push(
                cur@,
            ));
        } else {
            cur = Vec::new();
            cur.push(c);
            assert(cur@ =~= seq![c]);
            assert(words_of(cs@.subrange(0, i + 1)) =~= char_views(words@).push(
                cur@,
            ));
        }
        i = i + 1;
    }
    assert(cs@.subrange(0, n as int) =~= cs@);
    if n > 0 && !is_space_char(cs[n - 1]) {
        words.push(cur);
        assert(char_views(words@) =~= words_of(cs@));
    }
    words
}

/// The tokens of a filter text, lowercase.
pub fn filter_words(filter_text: &str) -> (r: Vec<String>)
    ensures
        views(r@) == filter_words_spec(filter_text@),
        filter_text@.len() == 0 ==> r@.len() == 0,
{
    let lower = lowercase(filter_text);
    let split = split_words(lower.as_str());
    let mut r: Vec<String> = Vec::new();
    let mut i: usize = 0;
    while i < split.len()
        invariant
            0 <= i <= split@.len(),
            r@.len() == i,
            char_views(split@) == words_of(lower@),
            views(r@) == lowered_all(words_of(lower@).subrange(0, i as int)),
        decreases split@.len() - i,
    {
        let word = string_of(&split[i]);
        assert(char_views(split@)[i as int] == split@[i as int]@);
        assert(words_of(lower@)[i as int] == word@);
        let lowered = lowercase(word.as_str());
        let ghost before = r@;
        r.push(lowered);
        i = i + 1;
        assert forall|k: int| 0 <= k < i implies #[trigger] views(r@)[k] == lowered_all(
            words_of(lower@).subrange(0, i as int),
        )[k] by {
            if k < i - 1 {
                assert(r@[k] == before[k]);
                assert(views(before)[k] == before[k]@);
            }
        }
        assert(views(r@) =~= lowered_all(words_of(lower@).subrange(0, i as int)));
    }
    assert(words_of(lower@).subrange(0, i as int) =~= words_of(lower@));
    proof {
        if filter_text@.len() == 0 {
            assert(words_of(lower@) =~= Seq::<Seq<char>>::empty());
        }
    }
    r
}

/// Every token occurs in `text`.
pub open spec fn all_contained(text: Seq<char>, words: Seq<Seq<char>>) -> bool {
    forall|i: int| 0 <= i < words.len() ==> contains_seq(text, #[trigger] words[i])
}

/// The relevance of `text` to the tokens: zero without tokens or where a
/// token does not occur; else the number of tokens, plus ten where `text`
/// begins with the first token.
pub open spec fn relevance_spec(text: Seq<char>, words: Seq<Seq<char>>) -> int {
    if words.len() == 0 || !all_contained(text, words) {
        0
    } else {
        words.len() + if starts_with_seq(text, words[0]) {
            10int
        } else {
            0
        }
    }
}

/// The number of tokens for which every relevance fits in an `i32`.
pub open spec fn words_fit(n: int) -> bool {
    n + 10 <= i32::MAX
}

/// The relevance of `text` to the tokens `words`.
pub fn evaluate_relevance(text: &str, words: &Vec<String>) -> (r: i32)
    requires
        words_fit(words@.len() as int),
    ensures
        r == relevance_spec(text@, views(words@)),
{
    if words.len() == 0 {
        return 0;
    }
    let t = chars_of(text);
    let mut i: usize = 0;
    while i < words.len()
        invariant
            0 <= i <= words@.len(),
            t@ == text@,
            forall|k: int| 0 <= k < i ==> contains_seq(text@, #[trigger] views(words@)[k]),
        decreases words@.len() - i,
    {
        let w = chars_of(words[i].as_str());
        if !contains_chars(&t, &w) {
            assert(!contains_seq(text@, views(words@)[i as int]));
            return 0;
        }
        i = i + 1;
    }
    let first = chars_of(words[0].as_str());
    let count = words.len() as i32;
    if starts_with_chars(&t, &first) {
        count + 10
    } else {
        count
    }
}

/// A displayed entry: a filesystem entry, or the entry that stands for the
/// current directory itself.
#[derive(Debug, Clone)]
pub enum TreeNodeType {
    FileNode(FileNode),
    SelfReference,
}

/// A displayed entry with its relevance to the filter.
#[derive(Debug, Clone)]
pub struct TreeNode {
    pub relevance: i32,
    pub kind: TreeNodeType,
}

/// The name under which an entry is filtered and ordered.
pub open spec fn indexed_spec(kind: TreeNodeType) -> Seq<char> {
    match kind {
        TreeNodeType::FileNode(f) => f.lowercase_name@,
        TreeNodeType::SelfReference => seq!['.'],
    }
}

/// The name under which an entry is shown.
pub open spec fn name_spec(kind: TreeNodeType) -> Seq<char> {
    match kind {
        TreeNodeType::FileNode(f) => f.name@,
        TreeNodeType::SelfReference => seq!['.'],
    }
}

/// Whether an entry is a directory; the current directory is one.
pub open spec fn is_dir_spec(kind: TreeNodeType) -> bool {
    match kind {
        TreeNodeType::FileNode(f) => f.is_directory,
        TreeNodeType::SelfReference => true,
    }
}

impl TreeNodeType {
    /// A copy of this kind.
    pub fn duplicate(&self) -> (r: TreeNodeType)
        ensures
            r == *self,
    {
        match self {
            TreeNodeType::FileNode(f) => TreeNodeType::FileNode(f.duplicate()),
            TreeNodeType::SelfReference => TreeNodeType::SelfReference,
        }
    }
}

impl TreeNode {
    /// A copy of this entry.
    pub fn duplicate(&self) -> (r: TreeNode)
        ensures
            r == *self,
    {
        TreeNode { relevance: self.relevance, kind: self.kind.duplicate() }
    }

    /// The lowercase name, `.` for the current directory.
    pub fn indexed_name(&self) -> (r: &str)
        ensures
            r@ == indexed_spec(self.kind),
    {
        match &self.kind {
            TreeNodeType::FileNode(file_node) => file_node.lowercase_name.as_str(),
            TreeNodeType::SelfReference => {
                proof {
                    reveal_strlit(".");
                }
                let r = ".";
                assert(r@ =~= seq!['.']);
                r
            },
        }
    }

    /// The name as shown, `.` for the current directory.
    pub fn name(&self) -> (r: &str)
        ensures
            r@ == name_spec(self.kind),
    {
        match &self.kind {
            TreeNodeType::FileNode(file_node) => file_node.name.as_str(),
            TreeNodeType::SelfReference => {
                proof {
                    reveal_strlit(".");
                }
                let r = ".";
                assert(r@ =~= seq!['.']);
                r
            },
        }
    }

    /// Whether the entry is a directory.
    pub fn is_directory(&self) -> (r: bool)
        ensures
            r == is_dir_spec(self.kind),
    {
        match &self.kind {
            TreeNodeType::FileNode(file_node) => file_node.is_directory,
            TreeNodeType::SelfReference => true,
        }
    }
}


/// Lexicographic order on names, by character code.
pub open spec fn name_le(a: Seq<char>, b: Seq<char>) -> bool
    decreases a.len(),
{
    if a.len() == 0 {
        true
    } else if b.len() == 0 {
        false
    } else if a[0] != b[0] {
        a[0] < b[0]
    } else {
        name_le(a.drop_first(), b.drop_first())
    }
}

/// The display order: higher relevance first, then directories before
/// other entries, then names in ascending order.
pub open spec fn goes_before(a: TreeNode, b: TreeNode) -> bool {
    a.relevance > b.relevance || (a.relevance == b.relevance && ((is_dir_spec(a.kind)
        && !is_dir_spec(b.kind)) || (is_dir_spec(a.kind) == is_dir_spec(b.kind) && name_le(
        indexed_spec(a.kind),
        indexed_spec(b.kind),
    ))))
}

/// `x` placed before the first entry of `s` that it may go before.
pub open spec fn insert_sorted(x: TreeNode, s: Seq<TreeNode>) -> Seq<TreeNode>
    decreases s.len(),
{
    if s.len() == 0 {
        seq![x]
    } else if goes_before(x, s[0]) {
        seq![x] + s
    } else {
        seq![s[0]] + insert_sorted(x, s.drop_first())
    }
}

/// The stable sort of `s` in display order: entries that compare equal keep
/// their order.
pub open spec fn sort_spec(s: Seq<TreeNode>) -> Seq<TreeNode>
    decreases s.len(),
{
    if s.len() == 0 {
        s
    } else {
        insert_sorted(s[0], sort_spec(s.drop_first()))
    }
}

/// Every entry of `s` may go before every later one.
pub open spec fn sorted_nodes(s: Seq<TreeNode>) -> bool {
    forall|i: int, j: int| 0 <= i < j < s.len() ==> goes_before(#[trigger] s[i], #[trigger] s[j])
}

/// Whether `a` comes no later than `b` in name order.
fn name_le_exec(a: &Vec<char>, b: &Vec<char>) -> (r: bool)
    ensures
        r == name_le(a@, b@),
{
    let mut i: usize = 0;
    assert(a@.subrange(0, a@.len() as int) =~= a@);
    assert(b@.subrange(0, b@.len() as int) =~= b@);
    while i < a.len() && i < b.len()
        invariant
            0 <= i <= a@.len(),
            i <= b@.len(),
            name_le(a@, b@) == name_le(
                a@.subrange(i as int, a@.len() as int),
                b@.subrange(i as int, b@.len() as int),
            ),
        decreases a@.len() - i,
    {
        let ghost sa = a@.subrange(i as int, a@.len() as int);
        let ghost sb = b@.subrange(i as int, b@.len() as int);
        if a[i] != b[i] {
            return a[i] < b[i];
        }
        assert(sa.drop_first() =~= a@.subrange(i + 1, a@.len() as int));
        assert(sb.drop_first() =~= b@.subrange(i + 1, b@.len() as int));
        i = i + 1;
    }
    i == a.len()
}

/// Whether `a` may go before `b` in display order.
fn goes_before_exec(a: &TreeNode, b: &TreeNode) -> (r: bool)
    ensures
        r == goes_before(*a, *b),
{
    if a.relevance != b.relevance {
        return a.relevance > b.relevance;
    }
    let ad = a.is_directory();
    let bd = b.is_directory();
    if ad != bd {
        return ad;
    }
    let an = chars_of(a.indexed_name());
    let bn = chars_of(b.indexed_name());
    name_le_exec(&an, &bn)
}

proof fn lemma_insert_at(x: TreeNode, s: Seq<TreeNode>, j: int)
    requires
        0 <= j <= s.len(),
        forall|k: int| 0 <= k < j ==> !goes_before(x, #[trigger] s[k]),
        j == s.len() || goes_before(x, s[j]),
    ensures
        insert_sorted(x, s) == s.insert(j, x),
    decreases j,
{
    if j == 0 {
        assert(insert_sorted(x, s) =~= s.insert(j, x));
    } else {
        assert(!goes_before(x, s[0]));
        let t = s.drop_first();
        assert forall|k: int| 0 <= k < j - 1 implies !goes_before(x, #[trigger] t[k]) by {
            assert(t[k] == s[k + 1]);
        }
        lemma_insert_at(x, t, j - 1);
        assert(insert_sorted(x, s) =~= s.insert(j, x));
    }
}

/// Sorts entries in display order, keeping the order of equal entries.
fn sort_tree_nodes(v: &Vec<TreeNode>) -> (r: Vec<TreeNode>)
    ensures
        r@ == sort_spec(v@),
{
    let n: usize = v.len();
    let mut r: Vec<TreeNode> = Vec::new();
    let mut i: usize = n;
    assert(v@.subrange(n as int, n as int) =~= Seq::<TreeNode>::empty());
    while i > 0
        invariant
            n == v@.len(),
            0 <= i <= n,
            r@ == sort_spec(v@.subrange(i as int, n as int)),
        decreases i,
    {
        i = i - 1;
        let x = v[i].duplicate();
        let mut j: usize = 0;
        while j < r.len() && !goes_before_exec(&x, &r[j])
            invariant
                0 <= j <= r@.len(),
                forall|k: int| 0 <= k < j ==> !goes_before(x, #[trigger] r@[k]),
            decreases r@.len() - j,
        {
            j = j + 1;
        }
        proof {
            lemma_insert_at(x, r@, j as int);
            assert(v@.subrange(i as int, n as int).drop_first() =~= v@.subrange(i + 1, n as int));
        }
        r.insert(j, x);
    }
    assert(v@.subrange(0, n as int) =~= v@);
    r
}


proof fn lemma_name_le_total(a: Seq<char>, b: Seq<char>)
    ensures
        name_le(a, b) || name_le(b, a),
    decreases a.len(),
{
    if a.len() > 0 && b.len() > 0 && a[0] == b[0] {
        lemma_name_le_total(a.drop_first(), b.drop_first());
    }
}

proof fn lemma_name_le_trans(a: Seq<char>, b: Seq<char>, c: Seq<char>)
    requires
        name_le(a, b),
        name_le(b, c),
    ensures
        name_le(a, c),
    decreases a.len(),
{
    if a.len() > 0 && b.len() > 0 && c.len() > 0 && a[0] == b[0] && b[0] == c[0] {
        lemma_name_le_trans(a.drop_first(), b.drop_first(), c.drop_first());
    }
}

proof fn lemma_goes_before_total(a: TreeNode, b: TreeNode)
    ensures
        goes_before(a, b) || goes_before(b, a),
{
    lemma_name_le_total(indexed_spec(a.kind), indexed_spec(b.kind));
}

proof fn lemma_goes_before_trans(a: TreeNode, b: TreeNode, c: TreeNode)
    requires
        goes_before(a, b),
        goes_before(b, c),
    ensures
        goes_before(a, c),
{
    if a.relevance == b.relevance && b.relevance == c.relevance && is_dir_spec(a.kind) == is_dir_spec(
        b.kind,
    ) && is_dir_spec(b.kind) == is_dir_spec(c.kind) {
        lemma_name_le_trans(indexed_spec(a.kind), indexed_spec(b.kind), indexed_spec(c.kind));
    }
}

proof fn lemma_insert_sorted(x: TreeNode, s: Seq<TreeNode>)
    requires
        sorted_nodes(s),
    ensures
        sorted_nodes(insert_sorted(x, s)),
        insert_sorted(x, s).len() == s.len() + 1,
        forall|y: TreeNode| #[trigger]
            insert_sorted(x, s).contains(y) ==> y == x || s.contains(y),
    decreases s.len(),
{
    let r = insert_sorted(x, s);
    if s.len() == 0 {
        assert forall|y: TreeNode| #[trigger] r.contains(y) implies y == x || s.contains(y) by {
            assert(r[0] == x);
        }
    } else if goes_before(x, s[0]) {
        assert forall|i: int, j: int| 0 <= i < j < r.len() implies goes_before(
            #[trigger] r[i],
            #[trigger] r[j],
        ) by {
            if i == 0 {
                if j > 1 {
                    lemma_goes_before_trans(x, s[0], s[j - 1]);
                }
            } else {
                assert(r[i] == s[i - 1] && r[j] == s[j - 1]);
            }
        }
        assert forall|y: TreeNode| #[trigger] r.contains(y) implies y == x || s.contains(y) by {
            let k = choose|k: int| 0 <= k < r.len() && r[k] == y;
            if k > 0 {
                assert(s[k - 1] == y);
            }
        }
    } else {
        let t = s.drop_first();
        assert(sorted_nodes(t)) by {
            assert forall|i: int, j: int| 0 <= i < j < t.len() implies goes_before(
                #[trigger] t[i],
                #[trigger] t[j],
            ) by {
                assert(t[i] == s[i + 1] && t[j] == s[j + 1]);
            }
        }
        lemma_insert_sorted(x, t);
        let u = insert_sorted(x, t);
        assert(r == seq![s[0]] + u);
        lemma_goes_before_total(x, s[0]);
        assert forall|j: int| 0 <= j < u.len() implies goes_before(s[0], #[trigger] u[j]) by {
            assert(u.contains(u[j]));
            if u[j] != x {
                let k = choose|k: int| 0 <= k < t.len() && t[k] == u[j];
                assert(s[k + 1] == u[j]);
            }
        }
        assert forall|i: int, j: int| 0 <= i < j < r.len() implies goes_before(
            #[trigger] r[i],
            #[trigger] r[j],
        ) by {
            if i == 0 {
                assert(r[j] == u[j - 1]);
            } else {
                assert(r[i] == u[i - 1] && r[j] == u[j - 1]);
            }
        }
        assert forall|y: TreeNode| #[trigger] r.contains(y) implies y == x || s.contains(y) by {
            let k = choose|k: int| 0 <= k < r.len() && r[k] == y;
            if k == 0 {
                assert(s[0] == y);
            } else {
                assert(u[k - 1] == y);
                assert(u.contains(y));
                if y != x {
                    let m = choose|m: int| 0 <= m < t.len() && t[m] == y;
                    assert(s[m + 1] == y);
                }
            }
        }
    }
}

/// The sort puts entries in display order, and invents none.
proof fn lemma_sort_spec(s: Seq<TreeNode>)
    ensures
        sorted_nodes(sort_spec(s)),
        sort_spec(s).len() == s.len(),
        forall|y: TreeNode| #[trigger] sort_spec(s).contains(y) ==> s.contains(y),
    decreases s.len(),
{
    if s.len() > 0 {
        let t = s.drop_first();
        lemma_sort_spec(t);
        lemma_insert_sorted(s[0], sort_spec(t));
        assert forall|y: TreeNode| #[trigger] sort_spec(s).contains(y) implies s.contains(y) by {
            if y != s[0] {
                assert(sort_spec(t).contains(y));
                let m = choose|m: int| 0 <= m < t.len() && t[m] == y;
                assert(s[m + 1] == y);
            }
        }
    }
}


/// An entry of the given kind, scored against the tokens.
pub open spec fn scored(kind: TreeNodeType, words: Seq<Seq<char>>) -> TreeNode {
    TreeNode { relevance: relevance_spec(indexed_spec(kind), words) as i32, kind }
}

/// The scored entry of a filesystem entry.
pub open spec fn scored_file(c: FileNode, words: Seq<Seq<char>>) -> TreeNode {
    scored(TreeNodeType::FileNode(c), words)
}

/// The entries before filtering: the current directory, then each child in
/// order, all scored.
pub open spec fn candidates(children: Seq<FileNode>, words: Seq<Seq<char>>) -> Seq<TreeNode> {
    seq![scored(TreeNodeType::SelfReference, words)] + scored_all(children, words)
}

/// Each of `children`, scored.
pub open spec fn scored_all(children: Seq<FileNode>, words: Seq<Seq<char>>) -> Seq<TreeNode> {
    children.map_values(|c: FileNode| scored_file(c, words))
}

/// The entries of `ts` with a positive relevance, in order.
pub open spec fn positive_only(ts: Seq<TreeNode>) -> Seq<TreeNode>
    decreases ts.len(),
{
    if ts.len() == 0 {
        ts
    } else if ts[0].relevance > 0 {
        seq![ts[0]] + positive_only(ts.drop_first())
    } else {
        positive_only(ts.drop_first())
    }
}

/// The entries kept by a filter text: all without filter text, else those
/// with a positive relevance.
pub open spec fn kept_by(ts: Seq<TreeNode>, filter: Seq<char>) -> Seq<TreeNode> {
    if filter.len() > 0 {
        positive_only(ts)
    } else {
        ts
    }
}

/// The displayed sequence for the children of a directory and a filter
/// text: the kept candidates in display order. A filter text with more
/// tokens than a relevance can count shows nothing.
pub open spec fn rendered(children: Seq<FileNode>, filter: Seq<char>) -> Seq<TreeNode> {
    let words = filter_words_spec(filter);
    if !words_fit(words.len() as int) {
        Seq::empty()
    } else {
        sort_spec(kept_by(candidates(children, words), filter))
    }
}

/// The filesystem entries of a displayed sequence, in order.
pub open spec fn entries_of(ts: Seq<TreeNode>) -> Seq<FileNode>
    decreases ts.len(),
{
    if ts.len() == 0 {
        Seq::empty()
    } else {
        match ts[0].kind {
            TreeNodeType::FileNode(f) => seq![f] + entries_of(ts.drop_first()),
            TreeNodeType::SelfReference => entries_of(ts.drop_first()),
        }
    }
}

/// Keeps the entries with a positive relevance.
fn keep_relevant(v: &Vec<TreeNode>) -> (r: Vec<TreeNode>)
    ensures
        r@ == positive_only(v@),
{
    let n: usize = v.len();
    let mut r: Vec<TreeNode> = Vec::new();
    let mut i: usize = 0;
    assert(v@.subrange(0, n as int) =~= v@);
    assert(r@ + positive_only(v@) =~= positive_only(v@));
    while i < n
        invariant
            n == v@.len(),
            0 <= i <= n,
            r@ + positive_only(v@.subrange(i as int, n as int)) == positive_only(v@),
        decreases n - i,
    {
        let ghost rest = v@.subrange(i as int, n as int);
        assert(rest.drop_first() =~= v@.subrange(i + 1, n as int));
        if v[i].relevance > 0 {
            r.push(v[i].duplicate());
        }
        i = i + 1;
        assert(r@ + positive_only(v@.subrange(i as int, n as int)) =~= positive_only(v@));
    }
    assert(v@.subrange(n as int, n as int) =~= Seq::<TreeNode>::empty());
    assert(r@ + Seq::<TreeNode>::empty() =~= r@);
    r
}

/// The displayed sequence for the children of a directory and a filter
/// text: the current directory and every child, scored against the tokens of
/// the filter text; where the text is not empty only those with a positive
/// relevance; in display order, equal entries in their order.
pub fn render_tree_nodes(child_nodes: &Vec<FileNode>, filter_text: &str) -> (r: Vec<TreeNode>)
    ensures
        r@ == rendered(child_nodes@, filter_text@),
        sorted_nodes(r@),
        forall|i: int|
            0 <= i < r@.len() ==> all_contained(
                indexed_spec(#[trigger] r@[i].kind),
                filter_words_spec(filter_text@),
            ),
{
    let words = filter_words(filter_text);
    let ghost w = filter_words_spec(filter_text@);
    if words.len() > 2147483637 {
        return Vec::new();
    }
    let mut nodes: Vec<TreeNode> = Vec::new();
    let self_node = TreeNode { relevance: 0, kind: TreeNodeType::SelfReference };
    let relevance = evaluate_relevance(self_node.indexed_name(), &words);
    nodes.push(TreeNode { relevance, kind: TreeNodeType::SelfReference });
    let mut i: usize = 0;
    assert(nodes@ =~= candidates(child_nodes@.subrange(0, 0), w));
    while i < child_nodes.len()
        invariant
            0 <= i <= child_nodes@.len(),
            views(words@) == w,
            words_fit(w.len() as int),
            nodes@ == candidates(child_nodes@.subrange(0, i as int), w),
        decreases child_nodes@.len() - i,
    {
        let child = child_nodes[i].duplicate();
        let relevance = evaluate_relevance(child.lowercase_name.as_str(), &words);
        nodes.push(TreeNode { relevance, kind: TreeNodeType::FileNode(child) });
        i = i + 1;
        assert(nodes@ =~= candidates(child_nodes@.subrange(0, i as int), w));
    }
    assert(child_nodes@.subrange(0, i as int) =~= child_nodes@);
    let kept = if !filter_text.is_empty() {
        keep_relevant(&nodes)
    } else {
        nodes
    };
    let r = sort_tree_nodes(&kept);
    proof {
        lemma_sort_spec(kept@);
        lemma_rendered_contained(child_nodes@, filter_text@);
    }
    r
}

proof fn lemma_positive_only_contains(s: Seq<TreeNode>)
    ensures
        forall|y: TreeNode| #[trigger]
            positive_only(s).contains(y) ==> s.contains(y) && y.relevance > 0,
    decreases s.len(),
{
    if s.len() > 0 {
        let t = s.drop_first();
        lemma_positive_only_contains(t);
        assert forall|y: TreeNode| #[trigger] positive_only(s).contains(y) implies s.contains(y)
            && y.relevance > 0 by {
            let p = positive_only(s);
            let k = choose|k: int| 0 <= k < p.len() && p[k] == y;
            if s[0].relevance > 0 && k == 0 {
                assert(s[0] == y);
            } else {
                let q = positive_only(t);
                if s[0].relevance > 0 {
                    assert(q[k - 1] == y);
                } else {
                    assert(q[k] == y);
                }
                assert(q.contains(y));
                let m = choose|m: int| 0 <= m < t.len() && t[m] == y;
                assert(s[m + 1] == y);
            }
        }
    }
}

proof fn lemma_candidates_scored(children: Seq<FileNode>, words: Seq<Seq<char>>)
    ensures
        forall|y: TreeNode| #[trigger]
            candidates(children, words).contains(y) ==> y == scored(y.kind, words),
        forall|y: TreeNode| #[trigger]
            candidates(children, words).contains(y) && y != candidates(children, words)[0] ==> (
            y.kind is FileNode),
{
    let c = candidates(children, words);
    assert forall|y: TreeNode| #[trigger] c.contains(y) implies y == scored(y.kind, words) && (y
        != c[0] ==> y.kind is FileNode) by {
        let k = choose|k: int| 0 <= k < c.len() && c[k] == y;
        if k > 0 {
            assert(y == scored_file(children[k - 1], words));
        }
    }
}

proof fn lemma_relevance_bounds(text: Seq<char>, words: Seq<Seq<char>>)
    ensures
        0 <= relevance_spec(text, words) <= words.len() + 10,
        relevance_spec(text, words) > 0 ==> all_contained(text, words) && words.len() > 0,
{
}

proof fn lemma_rendered_contained(children: Seq<FileNode>, filter: Seq<char>)
    requires
        filter.len() == 0 ==> filter_words_spec(filter).len() == 0,
    ensures
        forall|i: int|
            0 <= i < rendered(children, filter).len() ==> all_contained(
                indexed_spec(#[trigger] rendered(children, filter)[i].kind),
                filter_words_spec(filter),
            ),
{
    let w = filter_words_spec(filter);
    let r = rendered(children, filter);
    if words_fit(w.len() as int) {
        let c = candidates(children, w);
        let k = kept_by(c, filter);
        lemma_sort_spec(k);
        lemma_positive_only_contains(c);
        lemma_candidates_scored(children, w);
        assert forall|i: int| 0 <= i < r.len() implies all_contained(
            indexed_spec(#[trigger] r[i].kind),
            w,
        ) by {
            let y = r[i];
            assert(r.contains(y));
            assert(k.contains(y));
            assert(c.contains(y));
            lemma_relevance_bounds(indexed_spec(y.kind), w);
        }
    }
}


proof fn lemma_entries_of_insert_self(x: TreeNode, s: Seq<TreeNode>)
    requires
        x.kind is SelfReference,
    ensures
        entries_of(insert_sorted(x, s)) == entries_of(s),
    decreases s.len(),
{
    if s.len() == 0 {
        assert(seq![x].drop_first() =~= s);
    } else if goes_before(x, s[0]) {
        assert((seq![x] + s).drop_first() =~= s);
    } else {
        let t = s.drop_first();
        lemma_entries_of_insert_self(x, t);
        assert((seq![s[0]] + insert_sorted(x, t)).drop_first() =~= insert_sorted(x, t));
    }
}

proof fn lemma_rescore(s: Seq<TreeNode>, w: Seq<Seq<char>>)
    requires
        forall|y: TreeNode| #[trigger] s.contains(y) ==> y.kind is FileNode && y == scored(y.kind, w),
    ensures
        scored_all(entries_of(s), w) == s,
    decreases s.len(),
{
    if s.len() > 0 {
        let t = s.drop_first();
        assert(s.contains(s[0]));
        assert forall|y: TreeNode| #[trigger] t.contains(y) implies y.kind is FileNode && y == scored(
            y.kind,
            w,
        ) by {
            let k = choose|k: int| 0 <= k < t.len() && t[k] == y;
            assert(s[k + 1] == y);
            assert(s.contains(y));
        }
        lemma_rescore(t, w);
        let f = s[0].kind->FileNode_0;
        let et = entries_of(t);
        assert(entries_of(s) == seq![f] + et);
        assert(scored_file(f, w) == s[0]);
        let lhs = scored_all(entries_of(s), w);
        assert(lhs.len() == s.len());
        assert forall|i: int| 0 <= i < s.len() implies lhs[i] == s[i] by {
            if i > 0 {
                assert(scored_all(et, w)[i - 1] == t[i - 1]);
                assert((seq![f] + et)[i] == et[i - 1]);
            }
        }
        assert(lhs =~= s);
    }
}

proof fn lemma_positive_only_all(s: Seq<TreeNode>)
    requires
        forall|y: TreeNode| #[trigger] s.contains(y) ==> y.relevance > 0,
    ensures
        positive_only(s) == s,
    decreases s.len(),
{
    if s.len() > 0 {
        let t = s.drop_first();
        assert(s.contains(s[0]));
        assert forall|y: TreeNode| #[trigger] t.contains(y) implies y.relevance > 0 by {
            let k = choose|k: int| 0 <= k < t.len() && t[k] == y;
            assert(s[k + 1] == y);
            assert(s.contains(y));
        }
        lemma_positive_only_all(t);
        assert(seq![s[0]] + t =~= s);
    }
}

proof fn lemma_sort_sorted(s: Seq<TreeNode>)
    requires
        sorted_nodes(s),
    ensures
        sort_spec(s) == s,
    decreases s.len(),
{
    if s.len() > 0 {
        let t = s.drop_first();
        assert forall|i: int, j: int| 0 <= i < j < t.len() implies goes_before(
            #[trigger] t[i],
            #[trigger] t[j],
        ) by {
            assert(t[i] == s[i + 1] && t[j] == s[j + 1]);
        }
        lemma_sort_sorted(t);
        if t.len() == 0 {
            assert(seq![s[0]] =~= s);
        } else {
            assert(goes_before(s[0], s[1]));
            assert(seq![s[0]] + t =~= s);
        }
    }
}

/// Filtering is idempotent: the entries that a filter text leaves, filtered
/// again by the same text, give the same displayed sequence, in the same
/// order.
pub proof fn lemma_refilter_idempotent(children: Seq<FileNode>, filter: Seq<char>)
    ensures
        rendered(entries_of(rendered(children, filter)), filter) == rendered(children, filter),
{
    let w = filter_words_spec(filter);
    let r = rendered(children, filter);
    if !words_fit(w.len() as int) {
        assert(entries_of(r) =~= Seq::<FileNode>::empty());
    } else {
        let sr = scored(TreeNodeType::SelfReference, w);
        let m = scored_all(children, w);
        let km = kept_by(m, filter);
        let big_s = sort_spec(km);
        let sr_kept = filter.len() == 0 || sr.relevance > 0;
        assert((seq![sr] + m).drop_first() =~= m);
        assert((seq![sr] + km).drop_first() =~= km);
        assert(kept_by(seq![sr] + m, filter) == if sr_kept {
            seq![sr] + km
        } else {
            km
        });
        assert(r == if sr_kept {
            insert_sorted(sr, big_s)
        } else {
            big_s
        });
        if sr_kept {
            lemma_entries_of_insert_self(sr, big_s);
        }
        let e = entries_of(big_s);
        assert(entries_of(r) == e);
        lemma_sort_spec(km);
        lemma_positive_only_contains(m);
        assert forall|y: TreeNode| #[trigger] big_s.contains(y) implies y.kind is FileNode && y
            == scored(y.kind, w) && (filter.len() > 0 ==> y.relevance > 0) by {
            assert(km.contains(y));
            assert(m.contains(y));
            let k = choose|k: int| 0 <= k < m.len() && m[k] == y;
            assert(y == scored_file(children[k], w));
        }
        lemma_rescore(big_s, w);
        assert(scored_all(e, w) == big_s);
        if filter.len() > 0 {
            lemma_positive_only_all(big_s);
        }
        assert(kept_by(big_s, filter) == big_s);
        lemma_sort_sorted(big_s);
        assert((seq![sr] + big_s).drop_first() =~= big_s);
        assert(kept_by(candidates(e, w), filter) == if sr_kept {
            seq![sr] + big_s
        } else {
            big_s
        });
    }
}

} // verus!
