//! The command tree: the key sequences that reach commands, each node with the
//! help text of the keys below it, and how that help is laid out in columns.
use crate::keys::{Key, key_label, key_label_matches};
use crate::message::{
    AbandonMode, AbsorbMode, BookmarkMoveMode, BookmarkSetMode, DuplicateDestination,
    DuplicateDestinationType, GitFetchMode, GitPushMode, InterdiffMode, Message, MetaeditAction,
    NewMode, NextPrevDirection, NextPrevMode, ParallelizeSource, RebaseDestination,
    RebaseDestinationType, RebaseSourceType, RestoreMode, RevertDestination, RevertDestinationType,
    RevertRevision, SetRevsetMode, SignAction, SimplifyParentsMode, SquashMode, ViewMode,
};
use crate::styled::{LineView, SpanView, StyledLine, StyledSpan, TextColor, lines_view, spans_view};
use crate::text::{lex_lt, chars_lt, chars_of};
use indexmap::IndexMap;
use vstd::prelude::*;
use vstd::utf8::{encode_utf8, is_ascii_chars};

verus! {

broadcast use vstd::string::group_string_axioms;

/// The help entries of a node: for each group, in the order the groups were
/// first used, its pairs of key label and help text.
pub type HelpEntries = IndexMap<String, Vec<(String, String)>>;

#[verifier::external_type_specification]
#[verifier::external_body]
#[verifier::reject_recursive_types(K)]
#[verifier::reject_recursive_types(V)]
#[verifier::reject_recursive_types(S)]
pub struct ExIndexMap<K, V, S>(IndexMap<K, V, S>);

/// The groups an `IndexMap` of help entries holds, in its order, each with its
/// name and its entries.
pub uninterp spec fn help_groups(m: HelpEntries) -> Seq<(Seq<char>, Seq<(Seq<char>, Seq<char>)>)>;

/// The position of the first group named `name`, or the number of groups
/// where there is none.
pub open spec fn group_position(
    groups: Seq<(Seq<char>, Seq<(Seq<char>, Seq<char>)>)>,
    name: Seq<char>,
) -> nat
    decreases groups.len(),
{
    if groups.len() == 0 {
        0
    } else if groups[0].0 == name {
        0
    } else {
        1 + group_position(groups.drop_first(), name)
    }
}

/// The groups after `IndexMap::insert` of `name` with `entries`: a group of
/// that name keeps its place and gets the entries, else the group goes last.
pub open spec fn insert_group(
    groups: Seq<(Seq<char>, Seq<(Seq<char>, Seq<char>)>)>,
    name: Seq<char>,
    entries: Seq<(Seq<char>, Seq<char>)>,
) -> Seq<(Seq<char>, Seq<(Seq<char>, Seq<char>)>)> {
    let i = group_position(groups, name);
    if i < groups.len() {
        groups.update(i as int, (name, entries))
    } else {
        groups.push((name, entries))
    }
}

/// An empty map, by `IndexMap::new`.
#[verifier::external_body]
fn help_new() -> (m: HelpEntries)
    ensures
        help_groups(m) == Seq::<(Seq<char>, Seq<(Seq<char>, Seq<char>)>)>::empty(),
{
    IndexMap::new()
}

/// The number of groups, by `IndexMap::len`.
#[verifier::external_body]
fn help_len(m: &HelpEntries) -> (n: usize)
    ensures
        n == help_groups(*m).len(),
{
    m.len()
}

/// The group at `index`, by `IndexMap::get_index`.
#[verifier::external_body]
fn help_get_index(m: &HelpEntries, index: usize) -> (r: Option<(&String, &Vec<(String, String)>)>)
    ensures
        r is Some <==> index < help_groups(*m).len(),
        r matches Some(p) ==> p.0@ == help_groups(*m)[index as int].0 && p.1.deep_view()
            == help_groups(*m)[index as int].1,
{
    m.get_index(index)
}

/// The position of the group named `name`, by `IndexMap::get_index_of`.
#[verifier::external_body]
fn help_get_index_of(m: &HelpEntries, name: &str) -> (r: Option<usize>)
    ensures
        r is Some <==> group_position(help_groups(*m), name@) < help_groups(*m).len(),
        r matches Some(i) ==> i == group_position(help_groups(*m), name@),
{
    m.get_index_of(name)
}

/// Sets the entries of the group `name`, by `IndexMap::insert`: a group of
/// that name keeps its place, else the group goes last. Returns the entries
/// the group had.
#[verifier::external_body]
fn help_insert(m: &mut HelpEntries, name: String, entries: Vec<(String, String)>) -> (r: Option<
    Vec<(String, String)>,
>)
    ensures
        help_groups(*final(m)) == insert_group(help_groups(*old(m)), name@, entries.deep_view()),
        group_position(help_groups(*old(m)), name@) < help_groups(*old(m)).len() ==> (r matches Some(
            e,
        ) && e.deep_view() == help_groups(*old(m))[group_position(
            help_groups(*old(m)),
            name@,
        ) as int].1),
        group_position(help_groups(*old(m)), name@) >= help_groups(*old(m)).len() ==> r is None,
{
    m.insert(name, entries)
}

/// What `str::to_lowercase` makes of `s`.
pub uninterp spec fn lowercase(s: Seq<char>) -> Seq<char>;

/// `s` in lower case, by `str::to_lowercase`. The contract names the result.
#[verifier::external_body]
fn to_lowercase(s: &str) -> (r: String)
    ensures
        r@ == lowercase(s@),
{
    s.to_lowercase()
}

/// The position at which a stable sort by lower-cased key label inserts
/// `entry` into the already sorted `sorted`: before the first entry whose key
/// is greater.
pub open spec fn entry_insert_position(
    sorted: Seq<(Seq<char>, Seq<char>)>,
    entry: (Seq<char>, Seq<char>),
) -> nat
    decreases sorted.len(),
{
    if sorted.len() == 0 {
        0
    } else if lex_lt(lowercase(entry.0), lowercase(sorted[0].0)) {
        0
    } else {
        1 + entry_insert_position(sorted.drop_first(), entry)
    }
}

/// `entries` sorted by lower-cased key label, entries of equal keys keeping
/// their order: what `sort_by_key` with `to_lowercase` gives.
pub open spec fn sort_entries(entries: Seq<(Seq<char>, Seq<char>)>) -> Seq<(Seq<char>, Seq<char>)>
    decreases entries.len(),
{
    if entries.len() == 0 {
        entries
    } else {
        let sorted = sort_entries(entries.drop_last());
        sorted.insert(entry_insert_position(sorted, entries.last()) as int, entries.last())
    }
}

/// A copy of a list of entries.
fn copy_entries(entries: &Vec<(String, String)>) -> (r: Vec<(String, String)>)
    ensures
        r.deep_view() == entries.deep_view(),
{
    let mut r: Vec<(String, String)> = Vec::new();
    for i in 0..entries.len()
        invariant
            r.len() == i,
            r.deep_view() == entries.deep_view().take(i as int),
    {
        let (k, h) = &entries[i];
        r.push((k.clone(), h.clone()));
        assert(r.deep_view()[i as int] == entries.deep_view()[i as int]);
        assert(r.deep_view() =~= entries.deep_view().take(i + 1));
    }
    assert(entries.deep_view().take(entries.len() as int) =~= entries.deep_view());
    r
}

/// `entries` sorted by lower-cased key label, stably.
fn sorted_entries(entries: &Vec<(String, String)>) -> (r: Vec<(String, String)>)
    ensures
        r.deep_view() == sort_entries(entries.deep_view()),
{
    let mut r: Vec<(String, String)> = Vec::new();
    let mut keys: Vec<Vec<char>> = Vec::new();
    for i in 0..entries.len()
        invariant
            r.len() == keys.len(),
            forall|k: int| 0 <= k < r.len() ==> (#[trigger] keys@[k])@ == lowercase(r@[k].0@),
            r.deep_view() == sort_entries(entries.deep_view().take(i as int)),
    {
        let (k, h) = &entries[i];
        let lower = to_lowercase(k.as_str());
        let key = chars_of(lower.as_str());
        let ghost sorted = r.deep_view();
        let ghost entry = entries.deep_view()[i as int];
        assert(entries.deep_view().take(i + 1).drop_last() =~= entries.deep_view().take(i as int));
        let mut p: usize = 0;
        assert(sorted.skip(0) =~= sorted);
        while p < keys.len() && !chars_lt(&key, &keys[p])
            invariant
                r.len() == keys.len(),
                r.deep_view() == sorted,
                p <= keys.len(),
                forall|k: int| 0 <= k < r.len() ==> (#[trigger] keys@[k])@ == lowercase(r@[k].0@),
                key@ == lowercase(entry.0),
                entry_insert_position(sorted, entry) == p + entry_insert_position(
                    sorted.skip(p as int),
                    entry,
                ),
            decreases keys.len() - p,
        {
            assert(sorted.skip(p as int).drop_first() =~= sorted.skip(p + 1));
            assert(sorted.skip(p as int)[0] == sorted[p as int]);
            p = p + 1;
        }
        proof {
            if p < keys.len() {
                assert(sorted.skip(p as int)[0] == sorted[p as int]);
            }
        }
        assert(entry_insert_position(sorted, entry) == p);
        r.insert(p, (k.clone(), h.clone()));
        keys.insert(p, key);
        assert(r.deep_view() =~= sorted.insert(p as int, entry));
    }
    assert(entries.deep_view().take(entries.len() as int) =~= entries.deep_view());
    r
}

/// The children of a node: the node each key leads to, and the help of those keys.
/// The bindings are a list in which each key is bound at most once (binding
/// a key again replaces its node in place), looked up by the key: a map keyed
/// by a `Key`, hashed by a derived impl, would leave its lookups unproved.
#[derive(Debug)]
pub struct CommandTreeNodeChildren {
    nodes: Vec<(Key, CommandTreeNode)>,
    help: HelpEntries,
}

/// A node of the command tree: the keys that continue from it, and the message
/// it sends when reached.
#[derive(Debug)]
pub struct CommandTreeNode {
    pub children: Option<CommandTreeNodeChildren>,
    pub action: Option<Message>,
}

/// The node that `key` leads to among `nodes`: the first binding of that key.
pub open spec fn lookup(nodes: Seq<(Key, CommandTreeNode)>, key: Key) -> Option<CommandTreeNode>
    decreases nodes.len(),
{
    if nodes.len() == 0 {
        None
    } else if nodes[0].0 == key {
        Some(nodes[0].1)
    } else {
        lookup(nodes.drop_first(), key)
    }
}

/// The bindings after binding `key` to `node`: an existing binding of the key
/// is replaced in place, else the binding is added.
pub open spec fn bind(nodes: Seq<(Key, CommandTreeNode)>, key: Key, node: CommandTreeNode) -> Seq<
    (Key, CommandTreeNode),
>
    decreases nodes.len(),
{
    if nodes.len() == 0 {
        seq![(key, node)]
    } else if nodes[0].0 == key {
        nodes.update(0, (key, node))
    } else {
        seq![nodes[0]] + bind(nodes.drop_first(), key, node)
    }
}

/// After binding a key, the key leads to the new node and every other key
/// leads where it led before.
pub proof fn lemma_lookup_bind(
    nodes: Seq<(Key, CommandTreeNode)>,
    key: Key,
    node: CommandTreeNode,
    other: Key,
)
    ensures
        lookup(bind(nodes, key, node), key) == Some(node),
        other != key ==> lookup(bind(nodes, key, node), other) == lookup(nodes, other),
    decreases nodes.len(),
{
    if nodes.len() > 0 && nodes[0].0 != key {
        lemma_lookup_bind(nodes.drop_first(), key, node, other);
        let b = seq![nodes[0]] + bind(nodes.drop_first(), key, node);
        assert(b.drop_first() =~= bind(nodes.drop_first(), key, node));
        assert(b[0] == nodes[0]);
        assert(bind(nodes, key, node) == b);
        if other != key {
            if nodes[0].0 == other {
                assert(lookup(b, other) == Some(nodes[0].1));
            } else {
                assert(lookup(b, other) == lookup(b.drop_first(), other));
            }
        }
    } else if nodes.len() > 0 {
        let u = nodes.update(0, (key, node));
        assert(u.drop_first() =~= nodes.drop_first());
        assert(u[0] == (key, node));
        assert(bind(nodes, key, node) == u);
        assert(lookup(u, key) == Some(node));
        if other != key {
            assert(lookup(u, other) == lookup(u.drop_first(), other));
            assert(lookup(nodes, other) == lookup(nodes.drop_first(), other));
        }
    } else {
        let one = seq![(key, node)];
        assert(one.drop_first() =~= Seq::<(Key, CommandTreeNode)>::empty());
        assert(bind(nodes, key, node) == one);
        assert(one[0] == (key, node));
        if other != key {
            assert(lookup(one, other) == lookup(one.drop_first(), other));
            assert(lookup(one.drop_first(), other) is None);
            assert(lookup(nodes, other) is None);
        }
    }
}

/// The position of the first binding of `key` in `nodes`.
fn first_binding(nodes: &Vec<(Key, CommandTreeNode)>, key: Key) -> (r: Option<usize>)
    ensures
        r matches Some(i) ==> i < nodes.len() && nodes@[i as int].0 == key && forall|k: int|
            0 <= k < i ==> (#[trigger] nodes@[k]).0 != key,
        r is None ==> forall|k: int| 0 <= k < nodes.len() ==> (#[trigger] nodes@[k]).0 != key,
{
    let mut i: usize = 0;
    while i < nodes.len()
        invariant
            i <= nodes.len(),
            forall|k: int| 0 <= k < i ==> (#[trigger] nodes@[k]).0 != key,
        decreases nodes.len() - i,
    {
        if nodes[i].0 == key {
            return Some(i);
        }
        i = i + 1;
    }
    None
}

/// Binding a key that is bound at `i`, and not before, replaces that binding.
proof fn lemma_bind_existing(
    nodes: Seq<(Key, CommandTreeNode)>,
    key: Key,
    node: CommandTreeNode,
    i: int,
)
    requires
        0 <= i < nodes.len(),
        nodes[i].0 == key,
        forall|k: int| 0 <= k < i ==> (#[trigger] nodes[k]).0 != key,
    ensures
        bind(nodes, key, node) == nodes.update(i, (key, node)),
    decreases i,
{
    if i > 0 {
        lemma_bind_existing(nodes.drop_first(), key, node, i - 1);
        assert(nodes.drop_first()[i - 1] == nodes[i]);
        assert forall|k: int| 0 <= k < i - 1 implies (#[trigger] nodes.drop_first()[k]).0 != key by {
            assert(nodes.drop_first()[k] == nodes[k + 1]);
        }
        assert(seq![nodes[0]] + nodes.drop_first().update(i - 1, (key, node)) =~= nodes.update(
            i,
            (key, node),
        ));
    }
}

/// Binding a key that is not bound adds the binding last.
proof fn lemma_bind_new(nodes: Seq<(Key, CommandTreeNode)>, key: Key, node: CommandTreeNode)
    requires
        forall|k: int| 0 <= k < nodes.len() ==> (#[trigger] nodes[k]).0 != key,
    ensures
        bind(nodes, key, node) == nodes.push((key, node)),
    decreases nodes.len(),
{
    if nodes.len() > 0 {
        assert forall|k: int| 0 <= k < nodes.len() - 1 implies (#[trigger] nodes.drop_first()[k]).0
            != key by {
            assert(nodes.drop_first()[k] == nodes[k + 1]);
        }
        lemma_bind_new(nodes.drop_first(), key, node);
        assert(seq![nodes[0]] + nodes.drop_first().push((key, node)) =~= nodes.push((key, node)));
    } else {
        assert(seq![(key, node)] =~= nodes.push((key, node)));
    }
}

/// The node that the key sequence `path` leads to from `node`.
pub closed spec fn node_at(node: CommandTreeNode, path: Seq<Key>) -> Option<CommandTreeNode>
    decreases path.len(),
{
    if path.len() == 0 {
        Some(node)
    } else {
        match node.children {
            None => None,
            Some(children) => match lookup(children.nodes@, path[0]) {
                None => None,
                Some(child) => node_at(child, path.drop_first()),
            },
        }
    }
}

/// The position of the first binding of `key` among `nodes`.
pub open spec fn binding_index(nodes: Seq<(Key, CommandTreeNode)>, key: Key) -> Option<int>
    decreases nodes.len(),
{
    if nodes.len() == 0 {
        None
    } else if nodes[0].0 == key {
        Some(0)
    } else {
        match binding_index(nodes.drop_first(), key) {
            Some(i) => Some(i + 1),
            None => None,
        }
    }
}

/// The first binding of `key` is at `i`.
proof fn lemma_binding_index_found(nodes: Seq<(Key, CommandTreeNode)>, key: Key, i: int)
    requires
        0 <= i < nodes.len(),
        nodes[i].0 == key,
        forall|k: int| 0 <= k < i ==> (#[trigger] nodes[k]).0 != key,
    ensures
        binding_index(nodes, key) == Some(i),
    decreases i,
{
    if i > 0 {
        assert forall|k: int| 0 <= k < i - 1 implies (#[trigger] nodes.drop_first()[k]).0 != key by {
            assert(nodes.drop_first()[k] == nodes[k + 1]);
        }
        lemma_binding_index_found(nodes.drop_first(), key, i - 1);
    }
}

/// No binding of `key` means no position.
proof fn lemma_binding_index_absent(nodes: Seq<(Key, CommandTreeNode)>, key: Key)
    requires
        forall|k: int| 0 <= k < nodes.len() ==> (#[trigger] nodes[k]).0 != key,
    ensures
        binding_index(nodes, key) is None,
    decreases nodes.len(),
{
    if nodes.len() > 0 {
        assert forall|k: int| 0 <= k < nodes.len() - 1 implies (#[trigger] nodes.drop_first()[k]).0 != key by {
            assert(nodes.drop_first()[k] == nodes[k + 1]);
        }
        lemma_binding_index_absent(nodes.drop_first(), key);
    }
}

/// `new` is `old` with `child` bound to `key`, and the key's label and `help`
/// added to the help group `group`, below the node that `path` reaches, where
/// that node has children; else `new` is `old`.
pub closed spec fn added_below(
    old: CommandTreeNode,
    new: CommandTreeNode,
    path: Seq<Key>,
    key: Key,
    child: CommandTreeNode,
    group: Seq<char>,
    help: Seq<char>,
) -> bool
    decreases path.len(),
{
    match old.children {
        None => new == old,
        Some(c) => if path.len() == 0 {
            &&& new.action == old.action
            &&& new.children is Some
            &&& new.children->0.nodes@ == bind(c.nodes@, key, child)
            &&& exists|label: Seq<char>|
                key_label_matches(key, label) && help_groups(new.children->0.help) == add_help_entry(
                    help_groups(c.help),
                    group,
                    (label, help),
                )
        } else {
            match binding_index(c.nodes@, path[0]) {
                None => new == old,
                Some(i) => {
                    &&& new.action == old.action
                    &&& new.children is Some
                    &&& new.children->0.help == c.help
                    &&& new.children->0.nodes@.len() == c.nodes@.len()
                    &&& forall|j: int|
                        0 <= j < c.nodes@.len() && j != i ==> new.children->0.nodes@[j] == c.nodes@[j]
                    &&& new.children->0.nodes@[i].0 == path[0]
                    &&& added_below(
                        c.nodes@[i].1,
                        new.children->0.nodes@[i].1,
                        path.drop_first(),
                        key,
                        child,
                        group,
                        help,
                    )
                },
            }
        },
    }
}

/// The plain-value view of entries of the binding table: help group, help
/// text, key sequence, and node.
pub open spec fn entries_view(v: Seq<(&str, &str, Vec<Key>, CommandTreeNode)>) -> Seq<
    (Seq<char>, Seq<char>, Seq<Key>, CommandTreeNode),
> {
    v.map_values(|x: (&str, &str, Vec<Key>, CommandTreeNode)| (x.0@, x.1@, x.2@, x.3))
}

/// `new` is `old` after adding entry `e`: its node bound to the last of its
/// keys below the node the others reach; an entry without keys adds nothing.
pub closed spec fn entry_added(
    old: CommandTreeNode,
    new: CommandTreeNode,
    e: (Seq<char>, Seq<char>, Seq<Key>, CommandTreeNode),
) -> bool {
    if e.2.len() == 0 {
        new == old
    } else {
        added_below(old, new, e.2.drop_last(), e.2.last(), e.3, e.0, e.1)
    }
}

/// `states` are the trees before and after each of `entries` is added, in
/// turn.
pub closed spec fn adds_in_turn(
    states: Seq<CommandTreeNode>,
    entries: Seq<(Seq<char>, Seq<char>, Seq<Key>, CommandTreeNode)>,
) -> bool {
    &&& states.len() == entries.len() + 1
    &&& forall|k: int|
        #![trigger entries[k]]
        0 <= k < entries.len() ==> entry_added(states[k], states[k + 1], entries[k])
}

/// Adding two runs of entries in turn is adding them one after the other.
proof fn lemma_adds_in_turn_concat(
    s1: Seq<CommandTreeNode>,
    e1: Seq<(Seq<char>, Seq<char>, Seq<Key>, CommandTreeNode)>,
    s2: Seq<CommandTreeNode>,
    e2: Seq<(Seq<char>, Seq<char>, Seq<Key>, CommandTreeNode)>,
)
    requires
        adds_in_turn(s1, e1),
        adds_in_turn(s2, e2),
        s1.last() == s2[0],
    ensures
        adds_in_turn(s1 + s2.drop_first(), e1 + e2),
        (s1 + s2.drop_first())[0] == s1[0],
        (s1 + s2.drop_first()).last() == s2.last(),
{
    let s = s1 + s2.drop_first();
    let e = e1 + e2;
    assert forall|k: int| #![trigger e[k]] 0 <= k < e.len() implies entry_added(s[k], s[k + 1], e[k]) by {
        if k < e1.len() {
            assert(e[k] == e1[k]);
            assert(s[k] == s1[k]);
            assert(s[k + 1] == s1[k + 1]);
        } else {
            let j = k - e1.len();
            assert(e[k] == e2[j]);
            if j == 0 {
                assert(s[k] == s1.last());
            } else {
                assert(s[k] == s2.drop_first()[j - 1]);
                assert(s2.drop_first()[j - 1] == s2[j]);
            }
            assert(s[k + 1] == s2.drop_first()[j]);
            assert(s2.drop_first()[j] == s2[j + 1]);
        }
    }
}

impl CommandTreeNodeChildren {
    /// No children.
    fn new() -> (c: Self)
        ensures
            c.nodes@ == Seq::<(Key, CommandTreeNode)>::empty(),
            help_groups(c.help) == Seq::<(Seq<char>, Seq<(Seq<char>, Seq<char>)>)>::empty(),
    {
        CommandTreeNodeChildren { nodes: Vec::new(), help: help_new() }
    }

    /// The bindings of the keys that continue from here.
    pub closed spec fn bindings(&self) -> Seq<(Key, CommandTreeNode)> {
        self.nodes@
    }

    /// The help groups of the keys that continue from here.
    pub closed spec fn help_view(&self) -> Seq<(Seq<char>, Seq<(Seq<char>, Seq<char>)>)> {
        help_groups(self.help)
    }

    /// The node that `key_code` leads to.
    pub fn get_node(&self, key_code: &Key) -> (r: Option<&CommandTreeNode>)
        ensures
            r is Some == lookup(self.bindings(), *key_code) is Some,
            r matches Some(n) ==> lookup(self.bindings(), *key_code) == Some(*n),
    {
        let mut i: usize = 0;
        assert(self.nodes@.skip(0) =~= self.nodes@);
        while i < self.nodes.len()
            invariant
                i <= self.nodes.len(),
                lookup(self.nodes@, *key_code) == lookup(self.nodes@.skip(i as int), *key_code),
            decreases self.nodes.len() - i,
        {
            assert(self.nodes@.skip(i as int)[0] == self.nodes@[i as int]);
            if self.nodes[i].0 == *key_code {
                return Some(&self.nodes[i].1);
            }
            assert(self.nodes@.skip(i as int).drop_first() =~= self.nodes@.skip(i + 1));
            i = i + 1;
        }
        None
    }

    /// The help groups with each group's entries sorted by lower-cased key
    /// label, entries of equal keys keeping their order.
    fn get_help_entries(&self) -> (h: HelpEntries)
        ensures
            help_groups(h) == sorted_help(help_groups(self.help)),
    {
        let mut h = help_new();
        let n = help_len(&self.help);
        for i in 0..n
            invariant
                n == help_groups(self.help).len(),
                help_groups(h) == sorted_help(help_groups(self.help).take(i as int)),
        {
            match help_get_index(&self.help, i) {
                Some((name, entries)) => {
                    let sorted = sorted_entries(entries);
                    help_insert(&mut h, name.clone(), sorted);
                    assert(help_groups(self.help).take(i + 1).drop_last() =~= help_groups(
                        self.help,
                    ).take(i as int));
                },
                None => {},
            }
        }
        assert(help_groups(self.help).take(n as int) =~= help_groups(self.help));
        h
    }

    /// The help of the keys that continue from here, laid out in columns.
    pub fn get_help(&self) -> (lines: Vec<StyledLine>)
        requires
            has_entries(sorted_help(self.help_view())),
        ensures
            lines_view(lines@) == rendered_help(sorted_help(self.help_view())),
    {
        render_help_text(self.get_help_entries())
    }

    /// Whether the help of the keys that continue from here has anything to
    /// lay out.
    pub fn has_help(&self) -> (b: bool)
        ensures
            b == has_entries(sorted_help(self.help_view())),
    {
        let entries = self.get_help_entries();
        has_any_entry(&entries)
    }

    /// Binds `key_code` to `node`, and adds the key's label and `help_text` to
    /// the help group `help_group_text`.
    fn add_child(&mut self, help_group_text: &str, help_text: &str, key_code: Key, node: CommandTreeNode)
        ensures
            final(self).nodes@ == bind(old(self).nodes@, key_code, node),
            exists|label: Seq<char>|
                key_label_matches(key_code, label) && help_groups(final(self).help)
                    == add_help_entry(
                    help_groups(old(self).help),
                    help_group_text@,
                    (label, help_text@),
                ),
    {
        let ghost nodes = self.nodes@;
        match first_binding(&self.nodes, key_code) {
            Some(i) => {
                proof {
                    lemma_bind_existing(nodes, key_code, node, i as int);
                }
                self.nodes.set(i, (key_code, node));
            },
            None => {
                proof {
                    lemma_bind_new(nodes, key_code, node);
                }
                self.nodes.push((key_code, node));
            },
        }
        let label = key_label(key_code);
        let entry = (label, String::from_str(help_text));
        let ghost entry_view = entry.deep_view();
        let ghost groups = help_groups(self.help);
        assert(entry_view == (label@, help_text@));
        match help_get_index_of(&self.help, help_group_text) {
            Some(g) => {
                let mut entries = match help_get_index(&self.help, g) {
                    Some((_, e)) => copy_entries(e),
                    None => Vec::new(),
                };
                let ghost before = entries.deep_view();
                assert(before == groups[g as int].1);
                entries.push(entry);
                assert(entries.deep_view() =~= groups[g as int].1.push(entry_view));
                assert(g == group_position(groups, help_group_text@));
                help_insert(&mut self.help, String::from_str(help_group_text), entries);
                assert(help_groups(self.help) == insert_group(groups, help_group_text@, groups[g as int].1.push(entry_view)));
            },
            None => {
                let mut entries: Vec<(String, String)> = Vec::new();
                entries.push(entry);
                assert(entries.deep_view() =~= seq![entry_view]);
                help_insert(&mut self.help, String::from_str(help_group_text), entries);
                assert(help_groups(self.help) == insert_group(groups, help_group_text@, seq![entry_view]));
            },
        }
        assert(key_label_matches(key_code, entry_view.0));
        assert(help_groups(self.help) == add_help_entry(groups, help_group_text@, (entry_view.0, help_text@)));
    }
}

/// The help groups after adding `entry` to the group `name`: at the end of the
/// group, which is added last where there is none.
pub open spec fn add_help_entry(
    groups: Seq<(Seq<char>, Seq<(Seq<char>, Seq<char>)>)>,
    name: Seq<char>,
    entry: (Seq<char>, Seq<char>),
) -> Seq<(Seq<char>, Seq<(Seq<char>, Seq<char>)>)> {
    let i = group_position(groups, name);
    if i < groups.len() {
        insert_group(groups, name, groups[i as int].1.push(entry))
    } else {
        insert_group(groups, name, seq![entry])
    }
}

/// The help groups rebuilt in order, each group's entries sorted.
pub open spec fn sorted_help(groups: Seq<(Seq<char>, Seq<(Seq<char>, Seq<char>)>)>) -> Seq<
    (Seq<char>, Seq<(Seq<char>, Seq<char>)>),
>
    decreases groups.len(),
{
    if groups.len() == 0 {
        groups
    } else {
        insert_group(
            sorted_help(groups.drop_last()),
            groups.last().0,
            sort_entries(groups.last().1),
        )
    }
}

impl CommandTreeNode {
    /// A node with no children yet and no message.
    pub fn new_children() -> (n: Self)
        ensures
            n.children matches Some(c) && c.bindings() == Seq::<(Key, CommandTreeNode)>::empty()
                && c.help_view() == Seq::<(Seq<char>, Seq<(Seq<char>, Seq<char>)>)>::empty(),
            n.action is None,
    {
        CommandTreeNode { children: Some(CommandTreeNodeChildren::new()), action: None }
    }

    /// A leaf that sends `action`.
    pub fn new_action(action: Message) -> (n: Self)
        ensures
            n.children is None,
            n.action == Some(action),
    {
        CommandTreeNode { children: None, action: Some(action) }
    }

    /// A node that sends `action` and has children, none yet.
    pub fn new_action_with_children(action: Message) -> (n: Self)
        ensures
            n.children matches Some(c) && c.bindings() == Seq::<(Key, CommandTreeNode)>::empty()
                && c.help_view() == Seq::<(Seq<char>, Seq<(Seq<char>, Seq<char>)>)>::empty(),
            n.action == Some(action),
    {
        let mut node = Self::new_children();
        node.action = Some(action);
        node
    }
}

/// The width of a help column, in characters.
pub const COL_WIDTH: usize = 26;

/// The most entries one column holds; a longer group continues in further columns.
pub const MAX_ENTRIES_PER_COL: usize = 16;

/// `n` spaces.
pub open spec fn spaces(n: nat) -> Seq<char> {
    Seq::new(n, |i: int| ' ')
}

/// `s` padded with spaces to at least `width` characters, as `format!` pads it.
pub open spec fn padded(s: Seq<char>, width: nat) -> Seq<char> {
    if s.len() >= width {
        s
    } else {
        s + spaces((width - s.len()) as nat)
    }
}

/// The columns an entry is taken to fill: the UTF-8 lengths of its key label
/// and help text and the space between, less two where the label is not
/// ASCII (its arrow takes three bytes and one column).
pub open spec fn entry_width(entry: (Seq<char>, Seq<char>)) -> int {
    encode_utf8(entry.0).len() + 1 + encode_utf8(entry.1).len() - (if is_ascii_chars(entry.0) {
        0int
    } else {
        2int
    })
}

/// The spans of one help entry: the key label in green, a space, the help
/// text, and padding to the column width.
pub open spec fn entry_spans(entry: (Seq<char>, Seq<char>)) -> Seq<SpanView> {
    seq![
        SpanView { content: entry.0, color: Some(TextColor::Green) },
        SpanView { content: seq![' '], color: None },
        SpanView { content: entry.1, color: None },
        SpanView {
            content: spaces(
                if entry_width(entry) < COL_WIDTH {
                    (COL_WIDTH - entry_width(entry)) as nat
                } else {
                    0
                },
            ),
            color: None,
        },
    ]
}

/// The number of columns a group of `n` entries fills.
pub open spec fn chunk_count(n: nat) -> nat {
    ((n + MAX_ENTRIES_PER_COL - 1) / (MAX_ENTRIES_PER_COL as int)) as nat
}

/// Column `c` of the group `name`: the header, the group's name on the first
/// column and blank on the others, in blue and padded; then its entries.
pub open spec fn group_column(name: Seq<char>, entries: Seq<(Seq<char>, Seq<char>)>, c: int) -> Seq<
    Seq<SpanView>,
> {
    let start = c * MAX_ENTRIES_PER_COL;
    let end = if start + MAX_ENTRIES_PER_COL <= entries.len() {
        start + MAX_ENTRIES_PER_COL
    } else {
        entries.len() as int
    };
    seq![
        seq![
            SpanView {
                content: padded(if c == 0 { name } else { seq![] }, COL_WIDTH as nat),
                color: Some(TextColor::Blue),
            },
        ],
    ] + Seq::new((end - start) as nat, |j: int| entry_spans(entries[start + j]))
}

/// The columns of all groups, in order.
pub open spec fn help_columns(groups: Seq<(Seq<char>, Seq<(Seq<char>, Seq<char>)>)>) -> Seq<
    Seq<Seq<Seq<SpanView>>>,
>
    decreases groups.len(),
{
    if groups.len() == 0 {
        seq![]
    } else {
        let (name, entries) = groups.last();
        help_columns(groups.drop_last()).push(
            Seq::new(chunk_count(entries.len()), |c: int| group_column(name, entries, c)),
        )
    }
}

/// The columns of all groups, flattened.
pub open spec fn all_columns(groups: Seq<(Seq<char>, Seq<(Seq<char>, Seq<char>)>)>) -> Seq<
    Seq<Seq<SpanView>>,
> {
    help_columns(groups).flatten_alt()
}

/// There is at least one column to lay out.
pub open spec fn has_entries(groups: Seq<(Seq<char>, Seq<(Seq<char>, Seq<char>)>)>) -> bool {
    all_columns(groups).len() > 0
}

/// The length of the longest column.
pub open spec fn longest(columns: Seq<Seq<Seq<SpanView>>>) -> nat
    decreases columns.len(),
{
    if columns.len() == 0 {
        0
    } else {
        let rest = longest(columns.drop_last());
        if columns.last().len() > rest {
            columns.last().len()
        } else {
            rest
        }
    }
}

/// The spans of row `i` across `columns`: each column's line, or blank
/// padding where the column is shorter.
pub open spec fn row_spans(columns: Seq<Seq<Seq<SpanView>>>, i: int) -> Seq<SpanView>
    decreases columns.len(),
{
    if columns.len() == 0 {
        seq![]
    } else {
        row_spans(columns.drop_last(), i) + if i < columns.last().len() {
            columns.last()[i]
        } else {
            seq![SpanView { content: spaces(COL_WIDTH as nat), color: None }]
        }
    }
}

/// The help laid out: one line per row of the longest column, each starting
/// with a space.
pub open spec fn rendered_help(groups: Seq<(Seq<char>, Seq<(Seq<char>, Seq<char>)>)>) -> Seq<
    LineView,
> {
    let columns = all_columns(groups);
    Seq::new(
        longest(columns),
        |i: int|
            LineView::Spans(
                seq![SpanView { content: seq![' '], color: None }] + row_spans(columns, i),
            ),
    )
}

/// The views of columns of lines of spans.
pub open spec fn columns_view(columns: Seq<Vec<Vec<StyledSpan>>>) -> Seq<Seq<Seq<SpanView>>> {
    columns.map_values(|col: Vec<Vec<StyledSpan>>| col@.map_values(|l: Vec<StyledSpan>| spans_view(l@)))
}

/// The number of UTF-8 bytes of `s`, by `str::len`; no string is longer than
/// `isize::MAX` bytes.
#[verifier::external_body]
pub(crate) fn utf8_len(s: &str) -> (n: usize)
    ensures
        n == encode_utf8(s@).len(),
        n <= isize::MAX,
{
    s.len()
}

/// Every character takes at least one byte.
proof fn lemma_utf8_at_least_chars(s: Seq<char>)
    ensures
        encode_utf8(s).len() >= s.len(),
    decreases s.len(),
{
    if s.len() > 0 {
        lemma_utf8_at_least_chars(s.drop_first());
        assert(vstd::utf8::encode_scalar(s[0] as u32).len() >= 1);
    }
}

/// `n` spaces.
fn spaces_string(n: usize) -> (s: String)
    ensures
        s@ == spaces(n as nat),
{
    let mut s = String::new();
    proof {
        reveal_strlit(" ");
    }
    for i in 0..n
        invariant
            s@ == spaces(i as nat),
    {
        s.append(" ");
        proof {
            reveal_strlit(" ");
        }
        assert(s@ =~= spaces((i + 1) as nat));
    }
    s
}

/// `s` padded with spaces to at least `width` characters.
fn padded_string(s: &str, width: usize) -> (r: String)
    ensures
        r@ == padded(s@, width as nat),
{
    let len = s.unicode_len();
    let mut r = String::from_str(s);
    if len < width {
        let pad = spaces_string(width - len);
        r.append(pad.as_str());
    }
    r
}

/// The spans of one help entry.
fn render_entry(key: &String, help: &String) -> (spans: Vec<StyledSpan>)
    ensures
        spans_view(spans@) == entry_spans((key@, help@)),
{
    let key_len = utf8_len(key.as_str());
    let help_len = utf8_len(help.as_str());
    let mut num_cols = key_len + 1 + help_len;
    if !key.is_ascii() {
        proof {
            lemma_utf8_at_least_chars(key@);
            assert(key@.len() > 0);
        }
        num_cols = num_cols - 2;
    }
    let pad = spaces_string(if num_cols < COL_WIDTH { COL_WIDTH - num_cols } else { 0 });
    let mut spans: Vec<StyledSpan> = Vec::new();
    spans.push(StyledSpan::styled(key.clone(), TextColor::Green));
    proof {
        reveal_strlit(" ");
    }
    spans.push(StyledSpan::raw(String::from_str(" ")));
    spans.push(StyledSpan::raw(help.clone()));
    spans.push(StyledSpan::raw(pad));
    assert(num_cols == entry_width((key@, help@)));
    assert(" "@ =~= seq![' ']);
    assert(spans_view(spans@) =~= entry_spans((key@, help@)));
    spans
}

/// The entry lines of column `c` of a group: at most sixteen entries from
/// the `c`-th sixteen on.
fn render_chunk(entries: &Vec<(String, String)>, c: usize) -> (body: Vec<Vec<StyledSpan>>)
    requires
        c < chunk_count(entries.len() as nat),
    ensures
        body@.map_values(|l: Vec<StyledSpan>| spans_view(l@)) == group_column(
            seq![],
            entries.deep_view(),
            c as int,
        ).skip(1),
{
    let len = entries.len();
    assert(c * MAX_ENTRIES_PER_COL < len) by (nonlinear_arith)
        requires
            c < chunk_count(len as nat),
            MAX_ENTRIES_PER_COL == 16,
    ;
    let start = c * MAX_ENTRIES_PER_COL;
    let end = if len - start >= MAX_ENTRIES_PER_COL {
        start + MAX_ENTRIES_PER_COL
    } else {
        len
    };
    let ghost ev = entries.deep_view();
    let mut body: Vec<Vec<StyledSpan>> = Vec::new();
    for j in start..end
        invariant
            start <= end <= len,
            len == entries.len(),
            ev == entries.deep_view(),
            body@.len() == j - start,
            forall|k: int|
                0 <= k < j - start ==> spans_view((#[trigger] body@[k])@) == entry_spans(
                    ev[start + k],
                ),
    {
        let (k, h) = &entries[j];
        assert(ev[j as int] == (k@, h@));
        let line = render_entry(k, h);
        body.push(line);
    }
    assert(body@.map_values(|l: Vec<StyledSpan>| spans_view(l@)) =~= group_column(
        seq![],
        ev,
        c as int,
    ).skip(1));
    body
}

/// The help laid out in columns of at most sixteen entries, one column after
/// another in the order of the groups, joined into rows.
fn render_help_text(entries: HelpEntries) -> (lines: Vec<StyledLine>)
    requires
        has_entries(help_groups(entries)),
    ensures
        lines_view(lines@) == rendered_help(help_groups(entries)),
{
    let ghost groups = help_groups(entries);
    let mut columns: Vec<Vec<Vec<StyledSpan>>> = Vec::new();
    let n = help_len(&entries);
    assert(help_columns(groups.take(0)).flatten_alt() =~= Seq::<Seq<Seq<SpanView>>>::empty());
    for g in 0..n
        invariant
            n == groups.len(),
            groups == help_groups(entries),
            columns_view(columns@) == help_columns(groups.take(g as int)).flatten_alt(),
    {
        assert(groups.take(g + 1).drop_last() =~= groups.take(g as int));
        match help_get_index(&entries, g) {
            Some((name, group_entries)) => {
                let ghost ev = group_entries.deep_view();
                let len = group_entries.len();
                let chunks = len / MAX_ENTRIES_PER_COL + if len % MAX_ENTRIES_PER_COL == 0 {
                    0
                } else {
                    1
                };
                assert(chunks == chunk_count(len as nat));
                let ghost before = columns_view(columns@);
                let ghost group_cols = Seq::new(
                    chunk_count(len as nat),
                    |c: int| group_column(name@, ev, c),
                );
                for c in 0..chunks
                    invariant
                        len == ev.len(),
                        ev == group_entries.deep_view(),
                        chunks == chunk_count(len as nat),
                        group_cols == Seq::new(
                            chunk_count(len as nat),
                            |c: int| group_column(name@, ev, c),
                        ),
                        columns_view(columns@) == before + group_cols.take(c as int),
                {
                    let header = if c == 0 {
                        padded_string(name.as_str(), COL_WIDTH)
                    } else {
                        let blank = String::new();
                        padded_string(blank.as_str(), COL_WIDTH)
                    };
                    let mut header_spans: Vec<StyledSpan> = Vec::new();
                    header_spans.push(StyledSpan::styled(header, TextColor::Blue));
                    let mut col: Vec<Vec<StyledSpan>> = Vec::new();
                    col.push(header_spans);
                    assert(spans_view(col@[0]@) =~= seq![
                        SpanView {
                            content: padded(if c == 0 { name@ } else { seq![] }, COL_WIDTH as nat),
                            color: Some(TextColor::Blue),
                        },
                    ]);
                    let mut body = render_chunk(group_entries, c);
                    let ghost body_view = body@.map_values(|l: Vec<StyledSpan>| spans_view(l@));
                    let ghost col_before = col@;
                    col.append(&mut body);
                    assert(col@.map_values(|l: Vec<StyledSpan>| spans_view(l@)) =~= col_before.map_values(
                        |l: Vec<StyledSpan>| spans_view(l@),
                    ) + body_view);
                    assert(col@.map_values(|l: Vec<StyledSpan>| spans_view(l@)) =~= group_column(
                        name@,
                        ev,
                        c as int,
                    )) by {
                        assert(group_column(name@, ev, c as int).skip(1) =~= group_column(
                            seq![],
                            ev,
                            c as int,
                        ).skip(1));
                    }
                    let ghost columns_before = columns@;
                    columns.push(col);
                    assert(columns_view(columns@) =~= columns_view(columns_before).push(
                        col@.map_values(|l: Vec<StyledSpan>| spans_view(l@)),
                    ));
                    assert(group_cols.take(c + 1) =~= group_cols.take(c as int).push(
                        group_column(name@, ev, c as int),
                    ));
                    assert(columns_view(columns@) =~= before + group_cols.take(c + 1));
                }
                assert(group_cols.take(chunks as int) =~= group_cols);
                assert(groups.take(g + 1).last() == (name@, ev));
                assert(help_columns(groups.take(g + 1)) == help_columns(groups.take(g as int)).push(
                    group_cols,
                ));
                assert(help_columns(groups.take(g as int)).push(group_cols).drop_last() =~= help_columns(
                    groups.take(g as int),
                ));
                assert(help_columns(groups.take(g + 1)).flatten_alt() =~= help_columns(
                    groups.take(g as int),
                ).flatten_alt() + group_cols);
            },
            None => {},
        }
    }
    assert(groups.take(n as int) =~= groups);
    let ghost cols = columns_view(columns@);
    let mut num_rows: usize = 0;
    assert(cols.take(0) =~= Seq::<Seq<Seq<SpanView>>>::empty());
    for c in 0..columns.len()
        invariant
            cols == columns_view(columns@),
            num_rows == longest(cols.take(c as int)),
    {
        assert(cols.take(c + 1).drop_last() =~= cols.take(c as int));
        if columns[c].len() > num_rows {
            num_rows = columns[c].len();
        }
    }
    assert(cols.take(columns.len() as int) =~= cols);
    let mut lines: Vec<StyledLine> = Vec::new();
    for i in 0..num_rows
        invariant
            cols == columns_view(columns@),
            num_rows == longest(cols),
            lines@.len() == i,
            forall|r: int| 0 <= r < i ==> (#[trigger] lines@[r])@ == rendered_help(groups)[r],
            groups == help_groups(entries),
            cols == all_columns(groups),
    {
        let mut spans: Vec<StyledSpan> = Vec::new();
        proof {
            reveal_strlit(" ");
        }
        spans.push(StyledSpan::raw(String::from_str(" ")));
        assert(cols.take(0) =~= Seq::<Seq<Seq<SpanView>>>::empty());
        assert(row_spans(cols.take(0), i as int) =~= Seq::<SpanView>::empty());
        assert(" "@ =~= seq![' ']);
        assert(spans@[0]@ == SpanView { content: seq![' '], color: None });
        assert(spans_view(spans@) =~= seq![SpanView { content: seq![' '], color: None }]
            + row_spans(cols.take(0), i as int));
        for c in 0..columns.len()
            invariant
                cols == columns_view(columns@),
                spans_view(spans@) == seq![SpanView { content: seq![' '], color: None }] + row_spans(
                    cols.take(c as int),
                    i as int,
                ),
        {
            assert(cols.take(c + 1).drop_last() =~= cols.take(c as int));
            assert(cols.take(c + 1).last() == cols[c as int]);
            let ghost before = spans_view(spans@);
            if i < columns[c].len() {
                let mut more = crate::styled::duplicate_spans(&columns[c][i]);
                assert(spans_view(more@) == cols[c as int][i as int]);
                spans.append(&mut more);
                assert(spans_view(spans@) =~= before + cols[c as int][i as int]);
            } else {
                let mut blank: Vec<StyledSpan> = Vec::new();
                blank.push(StyledSpan::raw(spaces_string(COL_WIDTH)));
                spans.append(&mut blank);
                assert(spans_view(spans@) =~= before + seq![
                    SpanView { content: spaces(COL_WIDTH as nat), color: None },
                ]);
            }
        }
        assert(cols.take(columns.len() as int) =~= cols);
        lines.push(StyledLine::Spans(spans));
    }
    assert(lines_view(lines@) =~= rendered_help(groups));
    lines
}

/// The span that starts every report of an unbound key.
pub open spec fn unbound_prefix() -> SpanView {
    SpanView { content: " Unbound suffix: "@, color: Some(TextColor::Red) }
}

/// The line that reports the unbound key whose label is `label`.
pub open spec fn unbound_error_line(label: Seq<char>) -> Seq<SpanView> {
    seq![
        unbound_prefix(),
        SpanView { content: "'"@, color: None },
        SpanView { content: label, color: Some(TextColor::Green) },
        SpanView { content: "'"@, color: None },
    ]
}

/// `line` starts with the span of an unbound key report.
pub open spec fn starts_unbound_report(line: LineView) -> bool {
    line matches LineView::Spans(spans) && spans.len() > 0 && spans[0] == unbound_prefix()
}

/// The first line of `lines` has a first span to compare.
pub open spec fn first_line_has_span(lines: Seq<LineView>) -> bool {
    lines.len() > 0 && match lines[0] {
        LineView::Spans(spans) => spans.len() > 0,
        LineView::Ansi(text) => text.len() > 0,
    }
}

/// The info lines after reporting an unbound key whose label is `label`:
/// the report alone where the info is cleared or empty; else the lines without
/// a previous report at their end (and the line before it), a blank line
/// where the first line is not a report, and the report.
pub open spec fn unbound_reported(
    info_list: Option<Seq<LineView>>,
    label: Seq<char>,
    clear_existing: bool,
) -> Option<Seq<LineView>> {
    match info_list {
        Some(lines) if !clear_existing => {
            let kept = if starts_unbound_report(lines.last()) {
                lines.take(if lines.len() >= 2 { lines.len() - 2 } else { 0 })
            } else {
                lines
            };
            let blank = if starts_unbound_report(lines[0]) {
                seq![]
            } else {
                seq![LineView::Spans(seq![])]
            };
            Some(kept + blank + seq![LineView::Spans(unbound_error_line(label))])
        },
        _ => Some(seq![LineView::Spans(unbound_error_line(label))]),
    }
}

/// There are no info lines, or their first line has a span to compare.
pub open spec fn can_compare_first_line(info_list: Option<Seq<LineView>>) -> bool {
    match info_list {
        Some(lines) => first_line_has_span(lines),
        None => true,
    }
}

/// The views of an optional list of lines.
pub open spec fn info_view(info_list: Option<Vec<StyledLine>>) -> Option<Seq<LineView>> {
    match info_list {
        Some(lines) => Some(lines_view(lines@)),
        None => None,
    }
}

/// Whether `span` is the first span of an unbound key report.
fn is_unbound_prefix(span: &StyledSpan) -> (b: bool)
    ensures
        b == (span@ == unbound_prefix()),
{
    let prefix = String::from_str(" Unbound suffix: ");
    span.content == prefix && span.color == Some(TextColor::Red)
}

/// Whether `line` starts with the span of an unbound key report.
fn line_starts_unbound_report(line: &StyledLine) -> (b: bool)
    ensures
        b == starts_unbound_report(line@),
{
    match line {
        StyledLine::Spans(spans) => spans.len() > 0 && is_unbound_prefix(&spans[0]),
        StyledLine::Ansi(_) => false,
    }
}

/// Reports in the info lines that `key_code` continues no key sequence.
pub fn display_unbound_error_lines(
    info_list: &mut Option<Vec<StyledLine>>,
    key_code: &Key,
    clear_existing: bool,
)
    requires
        !clear_existing ==> can_compare_first_line(info_view(*old(info_list))),
    ensures
        exists|label: Seq<char>|
            key_label_matches(*key_code, label) && info_view(*final(info_list))
                == unbound_reported(info_view(*old(info_list)), label, clear_existing),
{
    let label = key_label(*key_code);
    let ghost label_view = label@;
    let mut error_spans: Vec<StyledSpan> = Vec::new();
    error_spans.push(StyledSpan::styled(String::from_str(" Unbound suffix: "), TextColor::Red));
    error_spans.push(StyledSpan::raw(String::from_str("'")));
    error_spans.push(StyledSpan::styled(label, TextColor::Green));
    error_spans.push(StyledSpan::raw(String::from_str("'")));
    assert(spans_view(error_spans@) =~= unbound_error_line(label_view));
    let error_line = StyledLine::Spans(error_spans);
    if clear_existing || info_list.is_none() {
        let mut lines: Vec<StyledLine> = Vec::new();
        lines.push(error_line);
        assert(lines_view(lines@) =~= seq![LineView::Spans(unbound_error_line(label_view))]);
        *info_list = Some(lines);
    } else {
        let mut lines = match info_list.take() {
            Some(lines) => lines,
            None => Vec::new(),
        };
        let ghost start = lines_view(lines@);
        let add_blank_line = !line_starts_unbound_report(&lines[0]);
        let ends_with_report = line_starts_unbound_report(&lines[lines.len() - 1]);
        if ends_with_report {
            lines.pop();
            lines.pop();
            assert(lines_view(lines@) =~= start.take(
                if start.len() >= 2 {
                    start.len() - 2
                } else {
                    0
                },
            ));
        }
        let ghost kept = lines_view(lines@);
        if add_blank_line {
            lines.push(StyledLine::empty());
        }
        let ghost with_blank = lines_view(lines@);
        lines.push(error_line);
        assert(lines_view(lines@) =~= with_blank + seq![
            LineView::Spans(unbound_error_line(label_view)),
        ]);
        assert(with_blank =~= kept + (if add_blank_line {
            seq![LineView::Spans(seq![])]
        } else {
            seq![]
        }));
        *info_list = Some(lines);
        assert(info_view(*info_list) == unbound_reported(
            info_view(*old(info_list)),
            label_view,
            clear_existing,
        ));
    }
    assert(key_label_matches(*key_code, label_view));
}

/// What an entry of the binding table adds: a group of keys, an action, or
/// an action with keys that continue from it.
pub enum NodeKind {
    Group,
    Action(Message),
    ActionGroup(Message),
}

/// An entry of the binding table: help group, help text, key sequence, and
/// the kind of node it adds.
pub struct TableEntry {
    pub group: Seq<char>,
    pub help: Seq<char>,
    pub keys: Seq<Key>,
    pub kind: NodeKind,
}

/// `node` has children, none yet, and no help.
pub open spec fn fresh_children(node: CommandTreeNode) -> bool {
    node.children matches Some(c) && c.bindings().len() == 0 && c.help_view().len() == 0
}

/// `node` is a new node of `kind`.
pub open spec fn fresh_node(node: CommandTreeNode, kind: NodeKind) -> bool {
    match kind {
        NodeKind::Group => node.action is None && fresh_children(node),
        NodeKind::Action(m) => node.action == Some(m) && node.children is None,
        NodeKind::ActionGroup(m) => node.action == Some(m) && fresh_children(node),
    }
}

/// `root` is a new group with the entries of the binding table added to it
/// in turn, each with a new node of its kind.
pub open spec fn built_from_table(root: CommandTreeNode) -> bool {
    exists|states: Seq<CommandTreeNode>, entries: Seq<(Seq<char>, Seq<char>, Seq<Key>, CommandTreeNode)>|
        fresh_node(states[0], NodeKind::Group) && states.last() == root && entries_fit(entries, binding_table())
            && adds_in_turn(states, entries)
}

/// `entries` are the entries of `table`, each with a new node of its kind.
pub open spec fn entries_fit(
    entries: Seq<(Seq<char>, Seq<char>, Seq<Key>, CommandTreeNode)>,
    table: Seq<TableEntry>,
) -> bool {
    &&& entries.len() == table.len()
    &&& forall|k: int|
        #![trigger entries[k]]
        0 <= k < entries.len() ==> {
            &&& entries[k].0 == table[k].group
            &&& entries[k].1 == table[k].help
            &&& entries[k].2 =~= table[k].keys
            &&& fresh_node(entries[k].3, table[k].kind)
        }
}

/// Entries that fit two tables, one after the other, fit the two tables.
proof fn lemma_entries_fit_concat(
    e1: Seq<(Seq<char>, Seq<char>, Seq<Key>, CommandTreeNode)>,
    t1: Seq<TableEntry>,
    e2: Seq<(Seq<char>, Seq<char>, Seq<Key>, CommandTreeNode)>,
    t2: Seq<TableEntry>,
)
    requires
        entries_fit(e1, t1),
        entries_fit(e2, t2),
    ensures
        entries_fit(e1 + e2, t1 + t2),
{
    let e = e1 + e2;
    let t = t1 + t2;
    assert forall|k: int| #![trigger e[k]] 0 <= k < e.len() implies {
        &&& e[k].0 == t[k].group
        &&& e[k].1 == t[k].help
        &&& e[k].2 == t[k].keys
        &&& fresh_node(e[k].3, t[k].kind)
    } by {
        if k < e1.len() {
            assert(e[k] == e1[k] && t[k] == t1[k]);
        } else {
            assert(e[k] == e2[k - e1.len()] && t[k] == t2[k - e1.len()]);
        }
    }
}

/// Every binding the interface makes, in the order the tree adds them.
pub open spec fn binding_table() -> Seq<TableEntry> {
    table_part_1() + table_part_2() + table_part_3() + table_part_4() + table_part_5()
        + table_part_6() + table_part_7() + table_part_8() + table_part_9() + table_part_10()
        + table_part_11() + table_part_12()
}

/// The entries of [`bindings_part_1`].
pub open spec fn table_part_1() -> Seq<TableEntry> {
    seq![
        TableEntry {
            group: "Commands"@,
            help: "Abandon"@,
            keys: seq![Key::Char('a')],
            kind: NodeKind::Group,
        },
        TableEntry {
            group: "Abandon"@,
            help: "Selection"@,
            keys: seq![Key::Char('a'), Key::Char('a')],
            kind: NodeKind::Action(Message::Abandon { mode: AbandonMode::Default }),
        },
        TableEntry {
            group: "Abandon"@,
            help: "Selection (retain bookmarks)"@,
            keys: seq![Key::Char('a'), Key::Char('b')],
            kind: NodeKind::Action(Message::Abandon { mode: AbandonMode::RetainBookmarks }),
        },
        TableEntry {
            group: "Abandon"@,
            help: "Selection (restore descendants)"@,
            keys: seq![Key::Char('a'), Key::Char('d')],
            kind: NodeKind::Action(Message::Abandon { mode: AbandonMode::RestoreDescendants }),
        },
        TableEntry {
            group: "Commands"@,
            help: "Absorb"@,
            keys: seq![Key::Char('A')],
            kind: NodeKind::Group,
        },
        TableEntry {
            group: "Absorb"@,
            help: "From selection"@,
            keys: seq![Key::Char('A'), Key::Char('a')],
            kind: NodeKind::Action(Message::Absorb { mode: AbsorbMode::Default }),
        },
        TableEntry {
            group: "Absorb"@,
            help: "From selection into destination"@,
            keys: seq![Key::Char('A'), Key::Char('i')],
            kind: NodeKind::ActionGroup(Message::SaveSelection),
        },
        TableEntry {
            group: "Absorb into"@,
            help: "Select destination"@,
            keys: seq![Key::Char('A'), Key::Char('i'), Key::Enter],
            kind: NodeKind::Action(Message::Absorb { mode: AbsorbMode::Into }),
        },
        TableEntry {
            group: "Commands"@,
            help: "Bookmark"@,
            keys: seq![Key::Char('b')],
            kind: NodeKind::Group,
        },
        TableEntry {
            group: "Commands"@,
            help: "Custom"@,
            keys: seq![Key::Char('C')],
            kind: NodeKind::Action(Message::Custom),
        },
        TableEntry {
            group: "Bookmark"@,
            help: "Create at selection"@,
            keys: seq![Key::Char('b'), Key::Char('c')],
            kind: NodeKind::Action(Message::BookmarkCreate),
        },
        TableEntry {
            group: "Bookmark"@,
            help: "List"@,
            keys: seq![Key::Char('b'), Key::Char('L')],
            kind: NodeKind::Group,
        },
        TableEntry {
            group: "Bookmark list"@,
            help: "All"@,
            keys: seq![Key::Char('b'), Key::Char('L'), Key::Char('a')],
            kind: NodeKind::Action(Message::BookmarkListAll),
        },
        TableEntry {
            group: "Bookmark list"@,
            help: "Local only"@,
            keys: seq![Key::Char('b'), Key::Char('L'), Key::Char('L')],
            kind: NodeKind::Action(Message::BookmarkListLocal),
        },
        TableEntry {
            group: "Bookmark list"@,
            help: "Tracked remote"@,
            keys: seq![Key::Char('b'), Key::Char('L'), Key::Char('t')],
            kind: NodeKind::Action(Message::BookmarkListTracked),
        },
        TableEntry {
            group: "Bookmark list"@,
            help: "Untracked remote"@,
            keys: seq![Key::Char('b'), Key::Char('L'), Key::Char('u')],
            kind: NodeKind::Action(Message::BookmarkListUntracked),
        },
        TableEntry {
            group: "Bookmark list"@,
            help: "Conflicted"@,
            keys: seq![Key::Char('b'), Key::Char('L'), Key::Char('c')],
            kind: NodeKind::Action(Message::BookmarkListConflicted),
        },
        TableEntry {
            group: "Bookmark"@,
            help: "Move"@,
            keys: seq![Key::Char('b'), Key::Char('m')],
            kind: NodeKind::Group,
        },
        TableEntry {
            group: "Bookmark move"@,
            help: "Selected bookmark to destination"@,
            keys: seq![Key::Char('b'), Key::Char('m'), Key::Char('m')],
            kind: NodeKind::ActionGroup(Message::SaveSelection),
        },
        TableEntry {
            group: "Move bookmark to"@,
            help: "Select destination"@,
            keys: seq![
                Key::Char('b'),
                Key::Char('m'),
                Key::Char('m'),
                Key::Enter,
            ],
            kind: NodeKind::Action(Message::BookmarkMove { mode: BookmarkMoveMode::Default }),
        },
    ]
}

/// The entries of [`bindings_part_2`].
pub open spec fn table_part_2() -> Seq<TableEntry> {
    seq![
        TableEntry {
            group: "Bookmark move"@,
            help: "Selected bookmark to destination (allow backwards)"@,
            keys: seq![Key::Char('b'), Key::Char('m'), Key::Char('M')],
            kind: NodeKind::ActionGroup(Message::SaveSelection),
        },
        TableEntry {
            group: "Move bookmark to (allow backwards)"@,
            help: "Select destination"@,
            keys: seq![
                Key::Char('b'),
                Key::Char('m'),
                Key::Char('M'),
                Key::Enter,
            ],
            kind: NodeKind::Action(Message::BookmarkMove { mode: BookmarkMoveMode::AllowBackwards }),
        },
        TableEntry {
            group: "Bookmark move"@,
            help: "Tug to selection"@,
            keys: seq![Key::Char('b'), Key::Char('m'), Key::Char('t')],
            kind: NodeKind::Action(Message::BookmarkMove { mode: BookmarkMoveMode::Tug }),
        },
        TableEntry {
            group: "Bookmark"@,
            help: "Rename"@,
            keys: seq![Key::Char('b'), Key::Char('r')],
            kind: NodeKind::Action(Message::BookmarkRename),
        },
        TableEntry {
            group: "Bookmark"@,
            help: "Track"@,
            keys: seq![Key::Char('b'), Key::Char('t')],
            kind: NodeKind::Action(Message::BookmarkTrack),
        },
        TableEntry {
            group: "Bookmark"@,
            help: "Untrack"@,
            keys: seq![Key::Char('b'), Key::Char('u')],
            kind: NodeKind::Action(Message::BookmarkUntrack),
        },
        TableEntry {
            group: "Bookmark"@,
            help: "Delete"@,
            keys: seq![Key::Char('b'), Key::Char('d')],
            kind: NodeKind::Action(Message::BookmarkDelete),
        },
        TableEntry {
            group: "Bookmark"@,
            help: "Forget"@,
            keys: seq![Key::Char('b'), Key::Char('f')],
            kind: NodeKind::Action(Message::BookmarkForget { include_remotes: false }),
        },
        TableEntry {
            group: "Bookmark"@,
            help: "Forget (including remotes)"@,
            keys: seq![Key::Char('b'), Key::Char('F')],
            kind: NodeKind::Action(Message::BookmarkForget { include_remotes: true }),
        },
        TableEntry {
            group: "Bookmark"@,
            help: "Set to selection"@,
            keys: seq![Key::Char('b'), Key::Char('s')],
            kind: NodeKind::Action(Message::BookmarkSet { mode: BookmarkSetMode::Default }),
        },
        TableEntry {
            group: "Bookmark"@,
            help: "Set to selection (allow backwards)"@,
            keys: seq![Key::Char('b'), Key::Char('S')],
            kind: NodeKind::Action(Message::BookmarkSet { mode: BookmarkSetMode::AllowBackwards }),
        },
        TableEntry {
            group: "Commands"@,
            help: "Commit"@,
            keys: seq![Key::Char('c')],
            kind: NodeKind::Group,
        },
        TableEntry {
            group: "Commit"@,
            help: "Selection"@,
            keys: seq![Key::Char('c'), Key::Char('c')],
            kind: NodeKind::Action(Message::Commit),
        },
        TableEntry {
            group: "Commands"@,
            help: "Describe"@,
            keys: seq![Key::Char('d')],
            kind: NodeKind::Group,
        },
        TableEntry {
            group: "Describe"@,
            help: "Selection"@,
            keys: seq![Key::Char('d'), Key::Char('d')],
            kind: NodeKind::Action(Message::DescribeInline),
        },
        TableEntry {
            group: "Describe"@,
            help: "Selection in editor"@,
            keys: seq![Key::Char('d'), Key::Char('D')],
            kind: NodeKind::Action(Message::Describe),
        },
        TableEntry {
            group: "Commands"@,
            help: "Duplicate"@,
            keys: seq![Key::Char('D')],
            kind: NodeKind::Group,
        },
        TableEntry {
            group: "Duplicate"@,
            help: "Selection"@,
            keys: seq![Key::Char('D'), Key::Char('d')],
            kind: NodeKind::Action(Message::Duplicate { destination_type: DuplicateDestinationType::Default, destination: DuplicateDestination::Default }),
        },
        TableEntry {
            group: "Commands"@,
            help: "Select"@,
            keys: seq![Key::Char('/')],
            kind: NodeKind::Group,
        },
        TableEntry {
            group: "Select"@,
            help: "Target"@,
            keys: seq![Key::Char('/'), Key::Char('/')],
            kind: NodeKind::Action(Message::SelectInRevset),
        },
    ]
}

/// The entries of [`bindings_part_3`].
pub open spec fn table_part_3() -> Seq<TableEntry> {
    seq![
        TableEntry {
            group: "Select"@,
            help: "Bookmark"@,
            keys: seq![Key::Char('/'), Key::Char('b')],
            kind: NodeKind::Action(Message::SelectByBookmark),
        },
        TableEntry {
            group: "Select"@,
            help: "Description"@,
            keys: seq![Key::Char('/'), Key::Char('d')],
            kind: NodeKind::Action(Message::SelectByDescription),
        },
        TableEntry {
            group: "Duplicate"@,
            help: "Selection onto destination"@,
            keys: seq![Key::Char('D'), Key::Char('o')],
            kind: NodeKind::ActionGroup(Message::SaveSelection),
        },
        TableEntry {
            group: "Duplicate onto"@,
            help: "Select destination"@,
            keys: seq![Key::Char('D'), Key::Char('o'), Key::Enter],
            kind: NodeKind::Action(Message::Duplicate { destination_type: DuplicateDestinationType::Onto, destination: DuplicateDestination::Selection }),
        },
        TableEntry {
            group: "Duplicate"@,
            help: "Selection insert after destination"@,
            keys: seq![Key::Char('D'), Key::Char('a')],
            kind: NodeKind::ActionGroup(Message::SaveSelection),
        },
        TableEntry {
            group: "Duplicate insert after"@,
            help: "Select destination"@,
            keys: seq![Key::Char('D'), Key::Char('a'), Key::Enter],
            kind: NodeKind::Action(Message::Duplicate { destination_type: DuplicateDestinationType::InsertAfter, destination: DuplicateDestination::Selection }),
        },
        TableEntry {
            group: "Duplicate"@,
            help: "Selection insert before destination"@,
            keys: seq![Key::Char('D'), Key::Char('b')],
            kind: NodeKind::ActionGroup(Message::SaveSelection),
        },
        TableEntry {
            group: "Duplicate insert before"@,
            help: "Select destination"@,
            keys: seq![Key::Char('D'), Key::Char('b'), Key::Enter],
            kind: NodeKind::Action(Message::Duplicate { destination_type: DuplicateDestinationType::InsertBefore, destination: DuplicateDestination::Selection }),
        },
        TableEntry {
            group: "Commands"@,
            help: "Edit"@,
            keys: seq![Key::Char('e')],
            kind: NodeKind::Group,
        },
        TableEntry {
            group: "Edit"@,
            help: "Selection"@,
            keys: seq![Key::Char('e'), Key::Char('e')],
            kind: NodeKind::Action(Message::Edit),
        },
        TableEntry {
            group: "Edit"@,
            help: "Target"@,
            keys: seq![Key::Char('e'), Key::Char('/')],
            kind: NodeKind::Action(Message::EditTarget),
        },
        TableEntry {
            group: "Commands"@,
            help: "Evolog"@,
            keys: seq![Key::Char('E')],
            kind: NodeKind::Group,
        },
        TableEntry {
            group: "Evolog"@,
            help: "Selection"@,
            keys: seq![Key::Char('E'), Key::Char('e')],
            kind: NodeKind::Action(Message::Evolog { patch: false }),
        },
        TableEntry {
            group: "Evolog"@,
            help: "Selection (patch)"@,
            keys: seq![Key::Char('E'), Key::Char('E')],
            kind: NodeKind::Action(Message::Evolog { patch: true }),
        },
        TableEntry {
            group: "Commands"@,
            help: "File"@,
            keys: seq![Key::Char('f')],
            kind: NodeKind::Group,
        },
        TableEntry {
            group: "File"@,
            help: "Track (enter filepath)"@,
            keys: seq![Key::Char('f'), Key::Char('t')],
            kind: NodeKind::Action(Message::FileTrack),
        },
        TableEntry {
            group: "File"@,
            help: "Untrack selection (must be ignored)"@,
            keys: seq![Key::Char('f'), Key::Char('u')],
            kind: NodeKind::Action(Message::FileUntrack),
        },
        TableEntry {
            group: "Commands"@,
            help: "Git"@,
            keys: seq![Key::Char('g')],
            kind: NodeKind::Group,
        },
        TableEntry {
            group: "Git"@,
            help: "Fetch"@,
            keys: seq![Key::Char('g'), Key::Char('f')],
            kind: NodeKind::Group,
        },
        TableEntry {
            group: "Git fetch"@,
            help: "Default"@,
            keys: seq![Key::Char('g'), Key::Char('f'), Key::Char('f')],
            kind: NodeKind::Action(Message::GitFetch { mode: GitFetchMode::Default }),
        },
    ]
}

/// The entries of [`bindings_part_4`].
pub open spec fn table_part_4() -> Seq<TableEntry> {
    seq![
        TableEntry {
            group: "Git fetch"@,
            help: "All remotes"@,
            keys: seq![Key::Char('g'), Key::Char('f'), Key::Char('a')],
            kind: NodeKind::Action(Message::GitFetch { mode: GitFetchMode::AllRemotes }),
        },
        TableEntry {
            group: "Git fetch"@,
            help: "Tracked bookmarks"@,
            keys: seq![Key::Char('g'), Key::Char('f'), Key::Char('t')],
            kind: NodeKind::Action(Message::GitFetch { mode: GitFetchMode::AllTracked }),
        },
        TableEntry {
            group: "Git fetch"@,
            help: "Branch by name"@,
            keys: seq![Key::Char('g'), Key::Char('f'), Key::Char('b')],
            kind: NodeKind::Action(Message::GitFetch { mode: GitFetchMode::Branch }),
        },
        TableEntry {
            group: "Git fetch"@,
            help: "Remote by name"@,
            keys: seq![Key::Char('g'), Key::Char('f'), Key::Char('r')],
            kind: NodeKind::Action(Message::GitFetch { mode: GitFetchMode::Remote }),
        },
        TableEntry {
            group: "Git"@,
            help: "Push"@,
            keys: seq![Key::Char('g'), Key::Char('p')],
            kind: NodeKind::Group,
        },
        TableEntry {
            group: "Git push"@,
            help: "Default"@,
            keys: seq![Key::Char('g'), Key::Char('p'), Key::Char('p')],
            kind: NodeKind::Action(Message::GitPush { mode: GitPushMode::Default }),
        },
        TableEntry {
            group: "Git push"@,
            help: "All bookmarks"@,
            keys: seq![Key::Char('g'), Key::Char('p'), Key::Char('a')],
            kind: NodeKind::Action(Message::GitPush { mode: GitPushMode::All }),
        },
        TableEntry {
            group: "Git push"@,
            help: "Bookmarks at selection"@,
            keys: seq![Key::Char('g'), Key::Char('p'), Key::Char('r')],
            kind: NodeKind::Action(Message::GitPush { mode: GitPushMode::Revision }),
        },
        TableEntry {
            group: "Git push"@,
            help: "Tracked bookmarks"@,
            keys: seq![Key::Char('g'), Key::Char('p'), Key::Char('t')],
            kind: NodeKind::Action(Message::GitPush { mode: GitPushMode::AllTracked }),
        },
        TableEntry {
            group: "Git push"@,
            help: "Deleted bookmarks"@,
            keys: seq![Key::Char('g'), Key::Char('p'), Key::Char('d')],
            kind: NodeKind::Action(Message::GitPush { mode: GitPushMode::Deleted }),
        },
        TableEntry {
            group: "Git push"@,
            help: "New bookmark for selection"@,
            keys: seq![Key::Char('g'), Key::Char('p'), Key::Char('c')],
            kind: NodeKind::Action(Message::GitPush { mode: GitPushMode::Change }),
        },
        TableEntry {
            group: "Git push"@,
            help: "New named bookmark for selection"@,
            keys: seq![Key::Char('g'), Key::Char('p'), Key::Char('n')],
            kind: NodeKind::Action(Message::GitPush { mode: GitPushMode::Named }),
        },
        TableEntry {
            group: "Git push"@,
            help: "Bookmark by name"@,
            keys: seq![Key::Char('g'), Key::Char('p'), Key::Char('b')],
            kind: NodeKind::Action(Message::GitPush { mode: GitPushMode::Bookmark }),
        },
        TableEntry {
            group: "Commands"@,
            help: "Interdiff"@,
            keys: seq![Key::Char('i')],
            kind: NodeKind::Group,
        },
        TableEntry {
            group: "Interdiff"@,
            help: "From @ to selection"@,
            keys: seq![Key::Char('i'), Key::Char('t')],
            kind: NodeKind::Action(Message::Interdiff { mode: InterdiffMode::ToSelection }),
        },
        TableEntry {
            group: "Interdiff"@,
            help: "From selection to @"@,
            keys: seq![Key::Char('i'), Key::Char('f')],
            kind: NodeKind::Action(Message::Interdiff { mode: InterdiffMode::FromSelection }),
        },
        TableEntry {
            group: "Interdiff"@,
            help: "From selection to destination"@,
            keys: seq![Key::Char('i'), Key::Char('i')],
            kind: NodeKind::ActionGroup(Message::SaveSelection),
        },
        TableEntry {
            group: "Interdiff to destination"@,
            help: "Select destination"@,
            keys: seq![Key::Char('i'), Key::Char('i'), Key::Enter],
            kind: NodeKind::Action(Message::Interdiff { mode: InterdiffMode::FromSelectionToDestination }),
        },
        TableEntry {
            group: "Commands"@,
            help: "Metaedit"@,
            keys: seq![Key::Char('m')],
            kind: NodeKind::Group,
        },
        TableEntry {
            group: "Metaedit"@,
            help: "Update change-id"@,
            keys: seq![Key::Char('m'), Key::Char('c')],
            kind: NodeKind::Action(Message::Metaedit { action: MetaeditAction::UpdateChangeId }),
        },
    ]
}

/// The entries of [`bindings_part_5`].
pub open spec fn table_part_5() -> Seq<TableEntry> {
    seq![
        TableEntry {
            group: "Metaedit"@,
            help: "Update author timestamp to now"@,
            keys: seq![Key::Char('m'), Key::Char('t')],
            kind: NodeKind::Action(Message::Metaedit { action: MetaeditAction::UpdateAuthorTimestamp }),
        },
        TableEntry {
            group: "Metaedit"@,
            help: "Update author to configured user"@,
            keys: seq![Key::Char('m'), Key::Char('a')],
            kind: NodeKind::Action(Message::Metaedit { action: MetaeditAction::UpdateAuthor }),
        },
        TableEntry {
            group: "Metaedit"@,
            help: "Set author"@,
            keys: seq![Key::Char('m'), Key::Char('A')],
            kind: NodeKind::Action(Message::Metaedit { action: MetaeditAction::SetAuthor }),
        },
        TableEntry {
            group: "Metaedit"@,
            help: "Set author timestamp"@,
            keys: seq![Key::Char('m'), Key::Char('T')],
            kind: NodeKind::Action(Message::Metaedit { action: MetaeditAction::SetAuthorTimestamp }),
        },
        TableEntry {
            group: "Metaedit"@,
            help: "Force rewrite"@,
            keys: seq![Key::Char('m'), Key::Char('r')],
            kind: NodeKind::Action(Message::Metaedit { action: MetaeditAction::ForceRewrite }),
        },
        TableEntry {
            group: "Commands"@,
            help: "Log revset"@,
            keys: seq![Key::Char('L')],
            kind: NodeKind::Group,
        },
        TableEntry {
            group: "Log revset"@,
            help: "Default"@,
            keys: seq![Key::Char('L'), Key::Char('d')],
            kind: NodeKind::Action(Message::SetRevset { mode: SetRevsetMode::Default }),
        },
        TableEntry {
            group: "Log revset"@,
            help: "Jj default"@,
            keys: seq![Key::Char('L'), Key::Char('D')],
            kind: NodeKind::Action(Message::SetRevset { mode: SetRevsetMode::JjDefault }),
        },
        TableEntry {
            group: "Log revset"@,
            help: "Custom"@,
            keys: seq![Key::Char('L'), Key::Char('L')],
            kind: NodeKind::Action(Message::SetRevset { mode: SetRevsetMode::Custom }),
        },
        TableEntry {
            group: "Log revset"@,
            help: "All commits"@,
            keys: seq![Key::Char('L'), Key::Char('a')],
            kind: NodeKind::Action(Message::SetRevset { mode: SetRevsetMode::All }),
        },
        TableEntry {
            group: "Log revset"@,
            help: "Mutable"@,
            keys: seq![Key::Char('L'), Key::Char('m')],
            kind: NodeKind::Action(Message::SetRevset { mode: SetRevsetMode::Mutable }),
        },
        TableEntry {
            group: "Log revset"@,
            help: "Current stack"@,
            keys: seq![Key::Char('L'), Key::Char('s')],
            kind: NodeKind::Action(Message::SetRevset { mode: SetRevsetMode::Stack }),
        },
        TableEntry {
            group: "Log revset"@,
            help: "Conflicts"@,
            keys: seq![Key::Char('L'), Key::Char('c')],
            kind: NodeKind::Action(Message::SetRevset { mode: SetRevsetMode::Conflicts }),
        },
        TableEntry {
            group: "Log revset"@,
            help: "@ ancestry"@,
            keys: seq![Key::Char('L'), Key::Char('w')],
            kind: NodeKind::Action(Message::SetRevset { mode: SetRevsetMode::WorkingCopyAncestry }),
        },
        TableEntry {
            group: "Log revset"@,
            help: "Mine"@,
            keys: seq![Key::Char('L'), Key::Char('i')],
            kind: NodeKind::Action(Message::SetRevset { mode: SetRevsetMode::Mine }),
        },
        TableEntry {
            group: "Log revset"@,
            help: "Bookmarks and tags"@,
            keys: seq![Key::Char('L'), Key::Char('b')],
            kind: NodeKind::Action(Message::SetRevset { mode: SetRevsetMode::Bookmarks }),
        },
        TableEntry {
            group: "Log revset"@,
            help: "Recent"@,
            keys: seq![Key::Char('L'), Key::Char('r')],
            kind: NodeKind::Action(Message::SetRevset { mode: SetRevsetMode::Recent }),
        },
        TableEntry {
            group: "Commands"@,
            help: "New"@,
            keys: seq![Key::Char('n')],
            kind: NodeKind::Group,
        },
        TableEntry {
            group: "New"@,
            help: "After selection"@,
            keys: seq![Key::Char('n'), Key::Char('n')],
            kind: NodeKind::Action(Message::New { mode: NewMode::Default }),
        },
        TableEntry {
            group: "New"@,
            help: "After selection (rebase children)"@,
            keys: seq![Key::Char('n'), Key::Char('a')],
            kind: NodeKind::Action(Message::New { mode: NewMode::InsertAfter }),
        },
    ]
}

/// The entries of [`bindings_part_6`].
pub open spec fn table_part_6() -> Seq<TableEntry> {
    seq![
        TableEntry {
            group: "New"@,
            help: "Before selection (rebase children)"@,
            keys: seq![Key::Char('n'), Key::Char('b')],
            kind: NodeKind::Action(Message::New { mode: NewMode::Before }),
        },
        TableEntry {
            group: "New"@,
            help: "After trunk"@,
            keys: seq![Key::Char('n'), Key::Char('m')],
            kind: NodeKind::Action(Message::New { mode: NewMode::AfterTrunk }),
        },
        TableEntry {
            group: "New"@,
            help: "After trunk (sync)"@,
            keys: seq![Key::Char('n'), Key::Char('M')],
            kind: NodeKind::Action(Message::NewAfterTrunkSync),
        },
        TableEntry {
            group: "New"@,
            help: "After target"@,
            keys: seq![Key::Char('n'), Key::Char('/')],
            kind: NodeKind::Action(Message::NewAtTarget),
        },
        TableEntry {
            group: "New"@,
            help: "After revsets"@,
            keys: seq![Key::Char('n'), Key::Char('r')],
            kind: NodeKind::Action(Message::NewRevsets),
        },
        TableEntry {
            group: "Commands"@,
            help: "Next"@,
            keys: seq![Key::Char('N')],
            kind: NodeKind::Group,
        },
        TableEntry {
            group: "Commands"@,
            help: "Open"@,
            keys: seq![Key::Char('o')],
            kind: NodeKind::Action(Message::Open),
        },
        TableEntry {
            group: "Commands"@,
            help: "Resolve"@,
            keys: seq![Key::Char('O')],
            kind: NodeKind::Action(Message::Resolve),
        },
        TableEntry {
            group: "Commands"@,
            help: "Parallelize"@,
            keys: seq![Key::Char('p')],
            kind: NodeKind::Group,
        },
        TableEntry {
            group: "Parallelize"@,
            help: "Selection with parent"@,
            keys: seq![Key::Char('p'), Key::Char('p')],
            kind: NodeKind::Action(Message::Parallelize { source: ParallelizeSource::Selection }),
        },
        TableEntry {
            group: "Parallelize"@,
            help: "From selection to destination"@,
            keys: seq![Key::Char('p'), Key::Char('P')],
            kind: NodeKind::ActionGroup(Message::SaveSelection),
        },
        TableEntry {
            group: "Parallelize range"@,
            help: "Select destination"@,
            keys: seq![Key::Char('p'), Key::Char('P'), Key::Enter],
            kind: NodeKind::Action(Message::Parallelize { source: ParallelizeSource::Range }),
        },
        TableEntry {
            group: "Parallelize"@,
            help: "Revset"@,
            keys: seq![Key::Char('p'), Key::Char('r')],
            kind: NodeKind::Action(Message::Parallelize { source: ParallelizeSource::Revset }),
        },
        TableEntry {
            group: "Next"@,
            help: "Next"@,
            keys: seq![Key::Char('N'), Key::Char('n')],
            kind: NodeKind::Action(Message::NextPrev { direction: NextPrevDirection::Next, mode: NextPrevMode::Default, offset: false }),
        },
        TableEntry {
            group: "Next"@,
            help: "Nth next"@,
            keys: seq![Key::Char('N'), Key::Char('N')],
            kind: NodeKind::Action(Message::NextPrev { direction: NextPrevDirection::Next, mode: NextPrevMode::Default, offset: true }),
        },
        TableEntry {
            group: "Next"@,
            help: "Next (edit)"@,
            keys: seq![Key::Char('N'), Key::Char('e')],
            kind: NodeKind::Action(Message::NextPrev { direction: NextPrevDirection::Next, mode: NextPrevMode::Edit, offset: false }),
        },
        TableEntry {
            group: "Next"@,
            help: "Nth next (edit)"@,
            keys: seq![Key::Char('N'), Key::Char('E')],
            kind: NodeKind::Action(Message::NextPrev { direction: NextPrevDirection::Next, mode: NextPrevMode::Edit, offset: true }),
        },
        TableEntry {
            group: "Next"@,
            help: "Next (no-edit)"@,
            keys: seq![Key::Char('N'), Key::Char('x')],
            kind: NodeKind::Action(Message::NextPrev { direction: NextPrevDirection::Next, mode: NextPrevMode::NoEdit, offset: false }),
        },
        TableEntry {
            group: "Next"@,
            help: "Nth next (no-edit)"@,
            keys: seq![Key::Char('N'), Key::Char('X')],
            kind: NodeKind::Action(Message::NextPrev { direction: NextPrevDirection::Next, mode: NextPrevMode::NoEdit, offset: true }),
        },
        TableEntry {
            group: "Next"@,
            help: "Next conflict"@,
            keys: seq![Key::Char('N'), Key::Char('c')],
            kind: NodeKind::Action(Message::NextPrev { direction: NextPrevDirection::Next, mode: NextPrevMode::Conflict, offset: false }),
        },
    ]
}

/// The entries of [`bindings_part_7`].
pub open spec fn table_part_7() -> Seq<TableEntry> {
    seq![
        TableEntry {
            group: "Commands"@,
            help: "Previous"@,
            keys: seq![Key::Char('P')],
            kind: NodeKind::Group,
        },
        TableEntry {
            group: "Previous"@,
            help: "Previous"@,
            keys: seq![Key::Char('P'), Key::Char('p')],
            kind: NodeKind::Action(Message::NextPrev { direction: NextPrevDirection::Prev, mode: NextPrevMode::Default, offset: false }),
        },
        TableEntry {
            group: "Previous"@,
            help: "Nth previous"@,
            keys: seq![Key::Char('P'), Key::Char('P')],
            kind: NodeKind::Action(Message::NextPrev { direction: NextPrevDirection::Prev, mode: NextPrevMode::Default, offset: true }),
        },
        TableEntry {
            group: "Previous"@,
            help: "Previous (edit)"@,
            keys: seq![Key::Char('P'), Key::Char('e')],
            kind: NodeKind::Action(Message::NextPrev { direction: NextPrevDirection::Prev, mode: NextPrevMode::Edit, offset: false }),
        },
        TableEntry {
            group: "Previous"@,
            help: "Nth previous (edit)"@,
            keys: seq![Key::Char('P'), Key::Char('E')],
            kind: NodeKind::Action(Message::NextPrev { direction: NextPrevDirection::Prev, mode: NextPrevMode::Edit, offset: true }),
        },
        TableEntry {
            group: "Previous"@,
            help: "Previous (no-edit)"@,
            keys: seq![Key::Char('P'), Key::Char('x')],
            kind: NodeKind::Action(Message::NextPrev { direction: NextPrevDirection::Prev, mode: NextPrevMode::NoEdit, offset: false }),
        },
        TableEntry {
            group: "Previous"@,
            help: "Nth previous (no-edit)"@,
            keys: seq![Key::Char('P'), Key::Char('X')],
            kind: NodeKind::Action(Message::NextPrev { direction: NextPrevDirection::Prev, mode: NextPrevMode::NoEdit, offset: true }),
        },
        TableEntry {
            group: "Previous"@,
            help: "Previous conflict"@,
            keys: seq![Key::Char('P'), Key::Char('c')],
            kind: NodeKind::Action(Message::NextPrev { direction: NextPrevDirection::Prev, mode: NextPrevMode::Conflict, offset: false }),
        },
        TableEntry {
            group: "Commands"@,
            help: "Squash"@,
            keys: seq![Key::Char('s')],
            kind: NodeKind::Group,
        },
        TableEntry {
            group: "Squash"@,
            help: "Selection into parent"@,
            keys: seq![Key::Char('s'), Key::Char('s')],
            kind: NodeKind::Action(Message::Squash { mode: SquashMode::Default }),
        },
        TableEntry {
            group: "Squash"@,
            help: "Selection into destination"@,
            keys: seq![Key::Char('s'), Key::Char('i')],
            kind: NodeKind::ActionGroup(Message::SaveSelection),
        },
        TableEntry {
            group: "Squash into"@,
            help: "Select destination"@,
            keys: seq![Key::Char('s'), Key::Char('i'), Key::Enter],
            kind: NodeKind::Action(Message::Squash { mode: SquashMode::Into }),
        },
        TableEntry {
            group: "Commands"@,
            help: "Status"@,
            keys: seq![Key::Char('t')],
            kind: NodeKind::Action(Message::Status),
        },
        TableEntry {
            group: "Commands"@,
            help: "Sign"@,
            keys: seq![Key::Char('S')],
            kind: NodeKind::Group,
        },
        TableEntry {
            group: "Sign"@,
            help: "Selection"@,
            keys: seq![Key::Char('S'), Key::Char('s')],
            kind: NodeKind::Action(Message::Sign { action: SignAction::Sign, range: false }),
        },
        TableEntry {
            group: "Sign"@,
            help: "From selection to destination"@,
            keys: seq![Key::Char('S'), Key::Char('S')],
            kind: NodeKind::ActionGroup(Message::SaveSelection),
        },
        TableEntry {
            group: "Sign range"@,
            help: "Select destination"@,
            keys: seq![Key::Char('S'), Key::Char('S'), Key::Enter],
            kind: NodeKind::Action(Message::Sign { action: SignAction::Sign, range: true }),
        },
        TableEntry {
            group: "Sign"@,
            help: "Unsign selection"@,
            keys: seq![Key::Char('S'), Key::Char('u')],
            kind: NodeKind::Action(Message::Sign { action: SignAction::Unsign, range: false }),
        },
        TableEntry {
            group: "Sign"@,
            help: "Unsign from selection to destination"@,
            keys: seq![Key::Char('S'), Key::Char('U')],
            kind: NodeKind::ActionGroup(Message::SaveSelection),
        },
        TableEntry {
            group: "Unsign range"@,
            help: "Select destination"@,
            keys: seq![Key::Char('S'), Key::Char('U'), Key::Enter],
            kind: NodeKind::Action(Message::Sign { action: SignAction::Unsign, range: true }),
        },
    ]
}

/// The entries of [`bindings_part_8`].
pub open spec fn table_part_8() -> Seq<TableEntry> {
    seq![
        TableEntry {
            group: "Commands"@,
            help: "Simplify parents"@,
            keys: seq![Key::Char('y')],
            kind: NodeKind::Group,
        },
        TableEntry {
            group: "Simplify parents of"@,
            help: "Selection"@,
            keys: seq![Key::Char('y'), Key::Char('y')],
            kind: NodeKind::Action(Message::SimplifyParents { mode: SimplifyParentsMode::Revisions }),
        },
        TableEntry {
            group: "Simplify parents of"@,
            help: "Selection with descendants"@,
            keys: seq![Key::Char('y'), Key::Char('Y')],
            kind: NodeKind::Action(Message::SimplifyParents { mode: SimplifyParentsMode::Source }),
        },
        TableEntry {
            group: "Commands"@,
            help: "Rebase"@,
            keys: seq![Key::Char('r')],
            kind: NodeKind::Group,
        },
        TableEntry {
            group: "Rebase"@,
            help: "Selected branch"@,
            keys: seq![Key::Char('r'), Key::Char('b')],
            kind: NodeKind::ActionGroup(Message::SaveSelection),
        },
        TableEntry {
            group: "Rebase"@,
            help: "Selected branch onto trunk"@,
            keys: seq![Key::Char('r'), Key::Char('m')],
            kind: NodeKind::Action(Message::RebaseSelectedBranchOntoTrunk),
        },
        TableEntry {
            group: "Rebase"@,
            help: "Selected branch onto trunk (sync)"@,
            keys: seq![Key::Char('r'), Key::Char('M')],
            kind: NodeKind::Action(Message::RebaseSelectedBranchOntoTrunkSync),
        },
        TableEntry {
            group: "Rebase"@,
            help: "Selected source"@,
            keys: seq![Key::Char('r'), Key::Char('s')],
            kind: NodeKind::ActionGroup(Message::SaveSelection),
        },
        TableEntry {
            group: "Rebase"@,
            help: "Selected revision"@,
            keys: seq![Key::Char('r'), Key::Char('r')],
            kind: NodeKind::ActionGroup(Message::SaveSelection),
        },
        TableEntry {
            group: "Rebase"@,
            help: "Custom"@,
            keys: seq![Key::Char('r'), Key::Char('c')],
            kind: NodeKind::Action(Message::RebaseCustom),
        },
        TableEntry {
            group: "Rebase branch"@,
            help: "Insert after"@,
            keys: seq![Key::Char('r'), Key::Char('b'), Key::Char('a')],
            kind: NodeKind::Group,
        },
        TableEntry {
            group: "Rebase branch"@,
            help: "Insert before"@,
            keys: seq![Key::Char('r'), Key::Char('b'), Key::Char('b')],
            kind: NodeKind::Group,
        },
        TableEntry {
            group: "Rebase branch"@,
            help: "Onto"@,
            keys: seq![Key::Char('r'), Key::Char('b'), Key::Char('o')],
            kind: NodeKind::Group,
        },
        TableEntry {
            group: "Rebase branch after"@,
            help: "Select destination"@,
            keys: seq![
                Key::Char('r'),
                Key::Char('b'),
                Key::Char('a'),
                Key::Enter,
            ],
            kind: NodeKind::Action(Message::Rebase { source_type: RebaseSourceType::Branch, destination_type: RebaseDestinationType::InsertAfter, destination: RebaseDestination::Selection }),
        },
        TableEntry {
            group: "Rebase branch after"@,
            help: "Trunk"@,
            keys: seq![
                Key::Char('r'),
                Key::Char('b'),
                Key::Char('a'),
                Key::Char('m'),
            ],
            kind: NodeKind::Action(Message::Rebase { source_type: RebaseSourceType::Branch, destination_type: RebaseDestinationType::InsertAfter, destination: RebaseDestination::Trunk }),
        },
        TableEntry {
            group: "Rebase branch after"@,
            help: "@"@,
            keys: seq![
                Key::Char('r'),
                Key::Char('b'),
                Key::Char('a'),
                Key::Char('c'),
            ],
            kind: NodeKind::Action(Message::Rebase { source_type: RebaseSourceType::Branch, destination_type: RebaseDestinationType::InsertAfter, destination: RebaseDestination::Current }),
        },
        TableEntry {
            group: "Rebase branch after"@,
            help: "Target"@,
            keys: seq![
                Key::Char('r'),
                Key::Char('b'),
                Key::Char('a'),
                Key::Char('/'),
            ],
            kind: NodeKind::Action(Message::RebaseTargetFuzzy { source_type: RebaseSourceType::Branch, destination_type: RebaseDestinationType::InsertAfter }),
        },
        TableEntry {
            group: "Rebase branch before"@,
            help: "Select destination"@,
            keys: seq![
                Key::Char('r'),
                Key::Char('b'),
                Key::Char('b'),
                Key::Enter,
            ],
            kind: NodeKind::Action(Message::Rebase { source_type: RebaseSourceType::Branch, destination_type: RebaseDestinationType::InsertBefore, destination: RebaseDestination::Selection }),
        },
        TableEntry {
            group: "Rebase branch before"@,
            help: "Trunk"@,
            keys: seq![
                Key::Char('r'),
                Key::Char('b'),
                Key::Char('b'),
                Key::Char('m'),
            ],
            kind: NodeKind::Action(Message::Rebase { source_type: RebaseSourceType::Branch, destination_type: RebaseDestinationType::InsertBefore, destination: RebaseDestination::Trunk }),
        },
        TableEntry {
            group: "Rebase branch before"@,
            help: "@"@,
            keys: seq![
                Key::Char('r'),
                Key::Char('b'),
                Key::Char('b'),
                Key::Char('c'),
            ],
            kind: NodeKind::Action(Message::Rebase { source_type: RebaseSourceType::Branch, destination_type: RebaseDestinationType::InsertBefore, destination: RebaseDestination::Current }),
        },
    ]
}

/// The entries of [`bindings_part_9`].
pub open spec fn table_part_9() -> Seq<TableEntry> {
    seq![
        TableEntry {
            group: "Rebase branch before"@,
            help: "Target"@,
            keys: seq![
                Key::Char('r'),
                Key::Char('b'),
                Key::Char('b'),
                Key::Char('/'),
            ],
            kind: NodeKind::Action(Message::RebaseTargetFuzzy { source_type: RebaseSourceType::Branch, destination_type: RebaseDestinationType::InsertBefore }),
        },
        TableEntry {
            group: "Rebase branch onto"@,
            help: "Select destination"@,
            keys: seq![
                Key::Char('r'),
                Key::Char('b'),
                Key::Char('o'),
                Key::Enter,
            ],
            kind: NodeKind::Action(Message::Rebase { source_type: RebaseSourceType::Branch, destination_type: RebaseDestinationType::Onto, destination: RebaseDestination::Selection }),
        },
        TableEntry {
            group: "Rebase branch onto"@,
            help: "Trunk"@,
            keys: seq![
                Key::Char('r'),
                Key::Char('b'),
                Key::Char('o'),
                Key::Char('m'),
            ],
            kind: NodeKind::Action(Message::Rebase { source_type: RebaseSourceType::Branch, destination_type: RebaseDestinationType::Onto, destination: RebaseDestination::Trunk }),
        },
        TableEntry {
            group: "Rebase branch onto"@,
            help: "@"@,
            keys: seq![
                Key::Char('r'),
                Key::Char('b'),
                Key::Char('o'),
                Key::Char('c'),
            ],
            kind: NodeKind::Action(Message::Rebase { source_type: RebaseSourceType::Branch, destination_type: RebaseDestinationType::Onto, destination: RebaseDestination::Current }),
        },
        TableEntry {
            group: "Rebase branch onto"@,
            help: "Target"@,
            keys: seq![
                Key::Char('r'),
                Key::Char('b'),
                Key::Char('o'),
                Key::Char('/'),
            ],
            kind: NodeKind::Action(Message::RebaseTargetFuzzy { source_type: RebaseSourceType::Branch, destination_type: RebaseDestinationType::Onto }),
        },
        TableEntry {
            group: "Rebase source"@,
            help: "Insert after"@,
            keys: seq![Key::Char('r'), Key::Char('s'), Key::Char('a')],
            kind: NodeKind::Group,
        },
        TableEntry {
            group: "Rebase source"@,
            help: "Insert before"@,
            keys: seq![Key::Char('r'), Key::Char('s'), Key::Char('b')],
            kind: NodeKind::Group,
        },
        TableEntry {
            group: "Rebase source"@,
            help: "Onto"@,
            keys: seq![Key::Char('r'), Key::Char('s'), Key::Char('o')],
            kind: NodeKind::Group,
        },
        TableEntry {
            group: "Rebase source after"@,
            help: "Select destination"@,
            keys: seq![
                Key::Char('r'),
                Key::Char('s'),
                Key::Char('a'),
                Key::Enter,
            ],
            kind: NodeKind::Action(Message::Rebase { source_type: RebaseSourceType::Source, destination_type: RebaseDestinationType::InsertAfter, destination: RebaseDestination::Selection }),
        },
        TableEntry {
            group: "Rebase source after"@,
            help: "Trunk"@,
            keys: seq![
                Key::Char('r'),
                Key::Char('s'),
                Key::Char('a'),
                Key::Char('m'),
            ],
            kind: NodeKind::Action(Message::Rebase { source_type: RebaseSourceType::Source, destination_type: RebaseDestinationType::InsertAfter, destination: RebaseDestination::Trunk }),
        },
        TableEntry {
            group: "Rebase source after"@,
            help: "@"@,
            keys: seq![
                Key::Char('r'),
                Key::Char('s'),
                Key::Char('a'),
                Key::Char('c'),
            ],
            kind: NodeKind::Action(Message::Rebase { source_type: RebaseSourceType::Source, destination_type: RebaseDestinationType::InsertAfter, destination: RebaseDestination::Current }),
        },
        TableEntry {
            group: "Rebase source after"@,
            help: "Target"@,
            keys: seq![
                Key::Char('r'),
                Key::Char('s'),
                Key::Char('a'),
                Key::Char('/'),
            ],
            kind: NodeKind::Action(Message::RebaseTargetFuzzy { source_type: RebaseSourceType::Source, destination_type: RebaseDestinationType::InsertAfter }),
        },
        TableEntry {
            group: "Rebase source before"@,
            help: "Select destination"@,
            keys: seq![
                Key::Char('r'),
                Key::Char('s'),
                Key::Char('b'),
                Key::Enter,
            ],
            kind: NodeKind::Action(Message::Rebase { source_type: RebaseSourceType::Source, destination_type: RebaseDestinationType::InsertBefore, destination: RebaseDestination::Selection }),
        },
        TableEntry {
            group: "Rebase source before"@,
            help: "Trunk"@,
            keys: seq![
                Key::Char('r'),
                Key::Char('s'),
                Key::Char('b'),
                Key::Char('m'),
            ],
            kind: NodeKind::Action(Message::Rebase { source_type: RebaseSourceType::Source, destination_type: RebaseDestinationType::InsertBefore, destination: RebaseDestination::Trunk }),
        },
        TableEntry {
            group: "Rebase source before"@,
            help: "@"@,
            keys: seq![
                Key::Char('r'),
                Key::Char('s'),
                Key::Char('b'),
                Key::Char('c'),
            ],
            kind: NodeKind::Action(Message::Rebase { source_type: RebaseSourceType::Source, destination_type: RebaseDestinationType::InsertBefore, destination: RebaseDestination::Current }),
        },
        TableEntry {
            group: "Rebase source before"@,
            help: "Target"@,
            keys: seq![
                Key::Char('r'),
                Key::Char('s'),
                Key::Char('b'),
                Key::Char('/'),
            ],
            kind: NodeKind::Action(Message::RebaseTargetFuzzy { source_type: RebaseSourceType::Source, destination_type: RebaseDestinationType::InsertBefore }),
        },
        TableEntry {
            group: "Rebase source onto"@,
            help: "Select destination"@,
            keys: seq![
                Key::Char('r'),
                Key::Char('s'),
                Key::Char('o'),
                Key::Enter,
            ],
            kind: NodeKind::Action(Message::Rebase { source_type: RebaseSourceType::Source, destination_type: RebaseDestinationType::Onto, destination: RebaseDestination::Selection }),
        },
        TableEntry {
            group: "Rebase source onto"@,
            help: "Trunk"@,
            keys: seq![
                Key::Char('r'),
                Key::Char('s'),
                Key::Char('o'),
                Key::Char('m'),
            ],
            kind: NodeKind::Action(Message::Rebase { source_type: RebaseSourceType::Source, destination_type: RebaseDestinationType::Onto, destination: RebaseDestination::Trunk }),
        },
        TableEntry {
            group: "Rebase source onto"@,
            help: "@"@,
            keys: seq![
                Key::Char('r'),
                Key::Char('s'),
                Key::Char('o'),
                Key::Char('c'),
            ],
            kind: NodeKind::Action(Message::Rebase { source_type: RebaseSourceType::Source, destination_type: RebaseDestinationType::Onto, destination: RebaseDestination::Current }),
        },
        TableEntry {
            group: "Rebase source onto"@,
            help: "Target"@,
            keys: seq![
                Key::Char('r'),
                Key::Char('s'),
                Key::Char('o'),
                Key::Char('/'),
            ],
            kind: NodeKind::Action(Message::RebaseTargetFuzzy { source_type: RebaseSourceType::Source, destination_type: RebaseDestinationType::Onto }),
        },
    ]
}

/// The entries of [`bindings_part_10`].
pub open spec fn table_part_10() -> Seq<TableEntry> {
    seq![
        TableEntry {
            group: "Rebase revision"@,
            help: "Insert after"@,
            keys: seq![Key::Char('r'), Key::Char('r'), Key::Char('a')],
            kind: NodeKind::Group,
        },
        TableEntry {
            group: "Rebase revision"@,
            help: "Insert before"@,
            keys: seq![Key::Char('r'), Key::Char('r'), Key::Char('b')],
            kind: NodeKind::Group,
        },
        TableEntry {
            group: "Rebase revision"@,
            help: "Onto"@,
            keys: seq![Key::Char('r'), Key::Char('r'), Key::Char('o')],
            kind: NodeKind::Group,
        },
        TableEntry {
            group: "Rebase revision after"@,
            help: "Select destination"@,
            keys: seq![
                Key::Char('r'),
                Key::Char('r'),
                Key::Char('a'),
                Key::Enter,
            ],
            kind: NodeKind::Action(Message::Rebase { source_type: RebaseSourceType::Revisions, destination_type: RebaseDestinationType::InsertAfter, destination: RebaseDestination::Selection }),
        },
        TableEntry {
            group: "Rebase revision after"@,
            help: "Trunk"@,
            keys: seq![
                Key::Char('r'),
                Key::Char('r'),
                Key::Char('a'),
                Key::Char('m'),
            ],
            kind: NodeKind::Action(Message::Rebase { source_type: RebaseSourceType::Revisions, destination_type: RebaseDestinationType::InsertAfter, destination: RebaseDestination::Trunk }),
        },
        TableEntry {
            group: "Rebase revision after"@,
            help: "@"@,
            keys: seq![
                Key::Char('r'),
                Key::Char('r'),
                Key::Char('a'),
                Key::Char('c'),
            ],
            kind: NodeKind::Action(Message::Rebase { source_type: RebaseSourceType::Revisions, destination_type: RebaseDestinationType::InsertAfter, destination: RebaseDestination::Current }),
        },
        TableEntry {
            group: "Rebase revision after"@,
            help: "Target"@,
            keys: seq![
                Key::Char('r'),
                Key::Char('r'),
                Key::Char('a'),
                Key::Char('/'),
            ],
            kind: NodeKind::Action(Message::RebaseTargetFuzzy { source_type: RebaseSourceType::Revisions, destination_type: RebaseDestinationType::InsertAfter }),
        },
        TableEntry {
            group: "Rebase revision before"@,
            help: "Select destination"@,
            keys: seq![
                Key::Char('r'),
                Key::Char('r'),
                Key::Char('b'),
                Key::Enter,
            ],
            kind: NodeKind::Action(Message::Rebase { source_type: RebaseSourceType::Revisions, destination_type: RebaseDestinationType::InsertBefore, destination: RebaseDestination::Selection }),
        },
        TableEntry {
            group: "Rebase revision before"@,
            help: "Trunk"@,
            keys: seq![
                Key::Char('r'),
                Key::Char('r'),
                Key::Char('b'),
                Key::Char('m'),
            ],
            kind: NodeKind::Action(Message::Rebase { source_type: RebaseSourceType::Revisions, destination_type: RebaseDestinationType::InsertBefore, destination: RebaseDestination::Trunk }),
        },
        TableEntry {
            group: "Rebase revision before"@,
            help: "@"@,
            keys: seq![
                Key::Char('r'),
                Key::Char('r'),
                Key::Char('b'),
                Key::Char('c'),
            ],
            kind: NodeKind::Action(Message::Rebase { source_type: RebaseSourceType::Revisions, destination_type: RebaseDestinationType::InsertBefore, destination: RebaseDestination::Current }),
        },
        TableEntry {
            group: "Rebase revision before"@,
            help: "Target"@,
            keys: seq![
                Key::Char('r'),
                Key::Char('r'),
                Key::Char('b'),
                Key::Char('/'),
            ],
            kind: NodeKind::Action(Message::RebaseTargetFuzzy { source_type: RebaseSourceType::Revisions, destination_type: RebaseDestinationType::InsertBefore }),
        },
        TableEntry {
            group: "Rebase revision onto"@,
            help: "Select destination"@,
            keys: seq![
                Key::Char('r'),
                Key::Char('r'),
                Key::Char('o'),
                Key::Enter,
            ],
            kind: NodeKind::Action(Message::Rebase { source_type: RebaseSourceType::Revisions, destination_type: RebaseDestinationType::Onto, destination: RebaseDestination::Selection }),
        },
        TableEntry {
            group: "Rebase revision onto"@,
            help: "Trunk"@,
            keys: seq![
                Key::Char('r'),
                Key::Char('r'),
                Key::Char('o'),
                Key::Char('m'),
            ],
            kind: NodeKind::Action(Message::Rebase { source_type: RebaseSourceType::Revisions, destination_type: RebaseDestinationType::Onto, destination: RebaseDestination::Trunk }),
        },
        TableEntry {
            group: "Rebase revision onto"@,
            help: "@"@,
            keys: seq![
                Key::Char('r'),
                Key::Char('r'),
                Key::Char('o'),
                Key::Char('c'),
            ],
            kind: NodeKind::Action(Message::Rebase { source_type: RebaseSourceType::Revisions, destination_type: RebaseDestinationType::Onto, destination: RebaseDestination::Current }),
        },
        TableEntry {
            group: "Rebase revision onto"@,
            help: "Target"@,
            keys: seq![
                Key::Char('r'),
                Key::Char('r'),
                Key::Char('o'),
                Key::Char('/'),
            ],
            kind: NodeKind::Action(Message::RebaseTargetFuzzy { source_type: RebaseSourceType::Revisions, destination_type: RebaseDestinationType::Onto }),
        },
        TableEntry {
            group: "Commands"@,
            help: "Restore"@,
            keys: seq![Key::Char('R')],
            kind: NodeKind::Group,
        },
        TableEntry {
            group: "Restore"@,
            help: "Changes in selection"@,
            keys: seq![Key::Char('R'), Key::Char('r')],
            kind: NodeKind::Action(Message::Restore { mode: RestoreMode::ChangesIn }),
        },
        TableEntry {
            group: "Restore"@,
            help: "Changes in selection (restore descendants)"@,
            keys: seq![Key::Char('R'), Key::Char('d')],
            kind: NodeKind::Action(Message::Restore { mode: RestoreMode::ChangesInRestoreDescendants }),
        },
        TableEntry {
            group: "Restore"@,
            help: "From selection into @"@,
            keys: seq![Key::Char('R'), Key::Char('f')],
            kind: NodeKind::Action(Message::Restore { mode: RestoreMode::From }),
        },
        TableEntry {
            group: "Restore"@,
            help: "From @ into selection"@,
            keys: seq![Key::Char('R'), Key::Char('i')],
            kind: NodeKind::Action(Message::Restore { mode: RestoreMode::Into }),
        },
    ]
}

/// The entries of [`bindings_part_11`].
pub open spec fn table_part_11() -> Seq<TableEntry> {
    seq![
        TableEntry {
            group: "Restore"@,
            help: "From selection into destination"@,
            keys: seq![Key::Char('R'), Key::Char('R')],
            kind: NodeKind::ActionGroup(Message::SaveSelection),
        },
        TableEntry {
            group: "Restore into"@,
            help: "Select destination"@,
            keys: seq![Key::Char('R'), Key::Char('R'), Key::Enter],
            kind: NodeKind::Action(Message::Restore { mode: RestoreMode::FromInto }),
        },
        TableEntry {
            group: "Commands"@,
            help: "View"@,
            keys: seq![Key::Char('v')],
            kind: NodeKind::Group,
        },
        TableEntry {
            group: "View"@,
            help: "Selection"@,
            keys: seq![Key::Char('v'), Key::Char('v')],
            kind: NodeKind::Action(Message::View { mode: ViewMode::Default }),
        },
        TableEntry {
            group: "View"@,
            help: "From selection to @"@,
            keys: seq![Key::Char('v'), Key::Char('f')],
            kind: NodeKind::Action(Message::View { mode: ViewMode::FromSelection }),
        },
        TableEntry {
            group: "View"@,
            help: "From trunk to selection"@,
            keys: seq![Key::Char('v'), Key::Char('m')],
            kind: NodeKind::Action(Message::View { mode: ViewMode::FromTrunkToSelection }),
        },
        TableEntry {
            group: "View"@,
            help: "From @ to selection"@,
            keys: seq![Key::Char('v'), Key::Char('t')],
            kind: NodeKind::Action(Message::View { mode: ViewMode::ToSelection }),
        },
        TableEntry {
            group: "View"@,
            help: "From selection to destination"@,
            keys: seq![Key::Char('v'), Key::Char('V')],
            kind: NodeKind::ActionGroup(Message::SaveSelection),
        },
        TableEntry {
            group: "View to destination"@,
            help: "Select destination"@,
            keys: seq![Key::Char('v'), Key::Char('V'), Key::Enter],
            kind: NodeKind::Action(Message::View { mode: ViewMode::FromSelectionToDestination }),
        },
        TableEntry {
            group: "Commands"@,
            help: "Revert"@,
            keys: seq![Key::Char('V')],
            kind: NodeKind::Group,
        },
        TableEntry {
            group: "Revert"@,
            help: "Selection onto @"@,
            keys: seq![Key::Char('V'), Key::Char('v')],
            kind: NodeKind::Action(Message::Revert { revision: RevertRevision::Selection, destination_type: RevertDestinationType::Onto, destination: RevertDestination::Current }),
        },
        TableEntry {
            group: "Revert"@,
            help: "Selection onto destination"@,
            keys: seq![Key::Char('V'), Key::Char('o')],
            kind: NodeKind::ActionGroup(Message::SaveSelection),
        },
        TableEntry {
            group: "Revert onto"@,
            help: "Select destination"@,
            keys: seq![Key::Char('V'), Key::Char('o'), Key::Enter],
            kind: NodeKind::Action(Message::Revert { revision: RevertRevision::Saved, destination_type: RevertDestinationType::Onto, destination: RevertDestination::Selection }),
        },
        TableEntry {
            group: "Revert"@,
            help: "Selection after destination"@,
            keys: seq![Key::Char('V'), Key::Char('a')],
            kind: NodeKind::ActionGroup(Message::SaveSelection),
        },
        TableEntry {
            group: "Revert after"@,
            help: "Select destination"@,
            keys: seq![Key::Char('V'), Key::Char('a'), Key::Enter],
            kind: NodeKind::Action(Message::Revert { revision: RevertRevision::Saved, destination_type: RevertDestinationType::InsertAfter, destination: RevertDestination::Selection }),
        },
        TableEntry {
            group: "Revert"@,
            help: "Selection before destination"@,
            keys: seq![Key::Char('V'), Key::Char('b')],
            kind: NodeKind::ActionGroup(Message::SaveSelection),
        },
        TableEntry {
            group: "Revert before"@,
            help: "Select destination"@,
            keys: seq![Key::Char('V'), Key::Char('b'), Key::Enter],
            kind: NodeKind::Action(Message::Revert { revision: RevertRevision::Saved, destination_type: RevertDestinationType::InsertBefore, destination: RevertDestination::Selection }),
        },
        TableEntry {
            group: "Commands"@,
            help: "Workspace"@,
            keys: seq![Key::Char('w')],
            kind: NodeKind::Group,
        },
        TableEntry {
            group: "Workspace"@,
            help: "Add"@,
            keys: seq![Key::Char('w'), Key::Char('a')],
            kind: NodeKind::Group,
        },
        TableEntry {
            group: "Workspace add"@,
            help: "By path (name from path)"@,
            keys: seq![Key::Char('w'), Key::Char('a'), Key::Char('a')],
            kind: NodeKind::Action(Message::WorkspaceAddPathOnly),
        },
    ]
}

/// The entries of [`bindings_part_12`].
pub open spec fn table_part_12() -> Seq<TableEntry> {
    seq![
        TableEntry {
            group: "Workspace add"@,
            help: "By name and path"@,
            keys: seq![Key::Char('w'), Key::Char('a'), Key::Char('n')],
            kind: NodeKind::Action(Message::WorkspaceAddNamed),
        },
        TableEntry {
            group: "Workspace"@,
            help: "Forget"@,
            keys: seq![Key::Char('w'), Key::Char('f')],
            kind: NodeKind::Group,
        },
        TableEntry {
            group: "Workspace forget"@,
            help: "Current"@,
            keys: seq![Key::Char('w'), Key::Char('f'), Key::Char('c')],
            kind: NodeKind::Action(Message::WorkspaceForgetCurrent),
        },
        TableEntry {
            group: "Workspace forget"@,
            help: "Target"@,
            keys: seq![Key::Char('w'), Key::Char('f'), Key::Char('/')],
            kind: NodeKind::Action(Message::WorkspaceForgetFuzzy),
        },
        TableEntry {
            group: "Workspace forget"@,
            help: "All at selected change"@,
            keys: seq![Key::Char('w'), Key::Char('f'), Key::Char('f')],
            kind: NodeKind::Action(Message::WorkspaceForgetAtSelection),
        },
        TableEntry {
            group: "Workspace"@,
            help: "List"@,
            keys: seq![Key::Char('w'), Key::Char('L')],
            kind: NodeKind::Action(Message::WorkspaceList),
        },
        TableEntry {
            group: "Workspace"@,
            help: "Rename current"@,
            keys: seq![Key::Char('w'), Key::Char('r')],
            kind: NodeKind::Action(Message::WorkspaceRename),
        },
        TableEntry {
            group: "Workspace"@,
            help: "Update stale"@,
            keys: seq![Key::Char('w'), Key::Char('u')],
            kind: NodeKind::Action(Message::WorkspaceUpdateStale),
        },
        TableEntry {
            group: "Commands"@,
            help: "Undo last operation"@,
            keys: seq![Key::Char('u')],
            kind: NodeKind::Action(Message::Undo),
        },
        TableEntry {
            group: "Commands"@,
            help: "Redo last operation"@,
            keys: seq![Key::Char('U')],
            kind: NodeKind::Action(Message::Redo),
        },
    ]
}

/// Part 1 of the bindings, in the order they are added.
fn bindings_part_1() -> (r: Vec<(&'static str, &'static str, Vec<Key>, CommandTreeNode)>)
    ensures
        entries_fit(entries_view(r@), table_part_1()),
{
    vec![
        (
            "Commands",
            "Abandon",
            vec![Key::Char('a')],
            CommandTreeNode::new_children(),
        ),
        (
            "Abandon",
            "Selection",
            vec![Key::Char('a'), Key::Char('a')],
            CommandTreeNode::new_action(Message::Abandon {
                mode: AbandonMode::Default,
            }),
        ),
        (
            "Abandon",
            "Selection (retain bookmarks)",
            vec![Key::Char('a'), Key::Char('b')],
            CommandTreeNode::new_action(Message::Abandon {
                mode: AbandonMode::RetainBookmarks,
            }),
        ),
        (
            "Abandon",
            "Selection (restore descendants)",
            vec![Key::Char('a'), Key::Char('d')],
            CommandTreeNode::new_action(Message::Abandon {
                mode: AbandonMode::RestoreDescendants,
            }),
        ),
        (
            "Commands",
            "Absorb",
            vec![Key::Char('A')],
            CommandTreeNode::new_children(),
        ),
        (
            "Absorb",
            "From selection",
            vec![Key::Char('A'), Key::Char('a')],
            CommandTreeNode::new_action(Message::Absorb {
                mode: AbsorbMode::Default,
            }),
        ),
        (
            "Absorb",
            "From selection into destination",
            vec![Key::Char('A'), Key::Char('i')],
            CommandTreeNode::new_action_with_children(Message::SaveSelection),
        ),
        (
            "Absorb into",
            "Select destination",
            vec![Key::Char('A'), Key::Char('i'), Key::Enter],
            CommandTreeNode::new_action(Message::Absorb {
                mode: AbsorbMode::Into,
            }),
        ),
        (
            "Commands",
            "Bookmark",
            vec![Key::Char('b')],
            CommandTreeNode::new_children(),
        ),
        (
            "Commands",
            "Custom",
            vec![Key::Char('C')],
            CommandTreeNode::new_action(Message::Custom),
        ),
        (
            "Bookmark",
            "Create at selection",
            vec![Key::Char('b'), Key::Char('c')],
            CommandTreeNode::new_action(Message::BookmarkCreate),
        ),
        (
            "Bookmark",
            "List",
            vec![Key::Char('b'), Key::Char('L')],
            CommandTreeNode::new_children(),
        ),
        (
            "Bookmark list",
            "All",
            vec![Key::Char('b'), Key::Char('L'), Key::Char('a')],
            CommandTreeNode::new_action(Message::BookmarkListAll),
        ),
        (
            "Bookmark list",
            "Local only",
            vec![Key::Char('b'), Key::Char('L'), Key::Char('L')],
            CommandTreeNode::new_action(Message::BookmarkListLocal),
        ),
        (
            "Bookmark list",
            "Tracked remote",
            vec![Key::Char('b'), Key::Char('L'), Key::Char('t')],
            CommandTreeNode::new_action(Message::BookmarkListTracked),
        ),
        (
            "Bookmark list",
            "Untracked remote",
            vec![Key::Char('b'), Key::Char('L'), Key::Char('u')],
            CommandTreeNode::new_action(Message::BookmarkListUntracked),
        ),
        (
            "Bookmark list",
            "Conflicted",
            vec![Key::Char('b'), Key::Char('L'), Key::Char('c')],
            CommandTreeNode::new_action(Message::BookmarkListConflicted),
        ),
        (
            "Bookmark",
            "Move",
            vec![Key::Char('b'), Key::Char('m')],
            CommandTreeNode::new_children(),
        ),
        (
            "Bookmark move",
            "Selected bookmark to destination",
            vec![Key::Char('b'), Key::Char('m'), Key::Char('m')],
            CommandTreeNode::new_action_with_children(Message::SaveSelection),
        ),
        (
            "Move bookmark to",
            "Select destination",
            vec![
                Key::Char('b'),
                Key::Char('m'),
                Key::Char('m'),
                Key::Enter,
            ],
            CommandTreeNode::new_action(Message::BookmarkMove {
                mode: BookmarkMoveMode::Default,
            }),
        ),
    ]
}

/// Part 2 of the bindings, in the order they are added.
fn bindings_part_2() -> (r: Vec<(&'static str, &'static str, Vec<Key>, CommandTreeNode)>)
    ensures
        entries_fit(entries_view(r@), table_part_2()),
{
    vec![
        (
            "Bookmark move",
            "Selected bookmark to destination (allow backwards)",
            vec![Key::Char('b'), Key::Char('m'), Key::Char('M')],
            CommandTreeNode::new_action_with_children(Message::SaveSelection),
        ),
        (
            "Move bookmark to (allow backwards)",
            "Select destination",
            vec![
                Key::Char('b'),
                Key::Char('m'),
                Key::Char('M'),
                Key::Enter,
            ],
            CommandTreeNode::new_action(Message::BookmarkMove {
                mode: BookmarkMoveMode::AllowBackwards,
            }),
        ),
        (
            "Bookmark move",
            "Tug to selection",
            vec![Key::Char('b'), Key::Char('m'), Key::Char('t')],
            CommandTreeNode::new_action(Message::BookmarkMove {
                mode: BookmarkMoveMode::Tug,
            }),
        ),
        (
            "Bookmark",
            "Rename",
            vec![Key::Char('b'), Key::Char('r')],
            CommandTreeNode::new_action(Message::BookmarkRename),
        ),
        (
            "Bookmark",
            "Track",
            vec![Key::Char('b'), Key::Char('t')],
            CommandTreeNode::new_action(Message::BookmarkTrack),
        ),
        (
            "Bookmark",
            "Untrack",
            vec![Key::Char('b'), Key::Char('u')],
            CommandTreeNode::new_action(Message::BookmarkUntrack),
        ),
        (
            "Bookmark",
            "Delete",
            vec![Key::Char('b'), Key::Char('d')],
            CommandTreeNode::new_action(Message::BookmarkDelete),
        ),
        (
            "Bookmark",
            "Forget",
            vec![Key::Char('b'), Key::Char('f')],
            CommandTreeNode::new_action(Message::BookmarkForget {
                include_remotes: false,
            }),
        ),
        (
            "Bookmark",
            "Forget (including remotes)",
            vec![Key::Char('b'), Key::Char('F')],
            CommandTreeNode::new_action(Message::BookmarkForget {
                include_remotes: true,
            }),
        ),
        (
            "Bookmark",
            "Set to selection",
            vec![Key::Char('b'), Key::Char('s')],
            CommandTreeNode::new_action(Message::BookmarkSet {
                mode: BookmarkSetMode::Default,
            }),
        ),
        (
            "Bookmark",
            "Set to selection (allow backwards)",
            vec![Key::Char('b'), Key::Char('S')],
            CommandTreeNode::new_action(Message::BookmarkSet {
                mode: BookmarkSetMode::AllowBackwards,
            }),
        ),
        (
            "Commands",
            "Commit",
            vec![Key::Char('c')],
            CommandTreeNode::new_children(),
        ),
        (
            "Commit",
            "Selection",
            vec![Key::Char('c'), Key::Char('c')],
            CommandTreeNode::new_action(Message::Commit),
        ),
        (
            "Commands",
            "Describe",
            vec![Key::Char('d')],
            CommandTreeNode::new_children(),
        ),
        (
            "Describe",
            "Selection",
            vec![Key::Char('d'), Key::Char('d')],
            CommandTreeNode::new_action(Message::DescribeInline),
        ),
        (
            "Describe",
            "Selection in editor",
            vec![Key::Char('d'), Key::Char('D')],
            CommandTreeNode::new_action(Message::Describe),
        ),
        (
            "Commands",
            "Duplicate",
            vec![Key::Char('D')],
            CommandTreeNode::new_children(),
        ),
        (
            "Duplicate",
            "Selection",
            vec![Key::Char('D'), Key::Char('d')],
            CommandTreeNode::new_action(Message::Duplicate {
                destination_type: DuplicateDestinationType::Default,
                destination: DuplicateDestination::Default,
            }),
        ),
        (
            "Commands",
            "Select",
            vec![Key::Char('/')],
            CommandTreeNode::new_children(),
        ),
        (
            "Select",
            "Target",
            vec![Key::Char('/'), Key::Char('/')],
            CommandTreeNode::new_action(Message::SelectInRevset),
        ),
    ]
}

/// Part 3 of the bindings, in the order they are added.
fn bindings_part_3() -> (r: Vec<(&'static str, &'static str, Vec<Key>, CommandTreeNode)>)
    ensures
        entries_fit(entries_view(r@), table_part_3()),
{
    vec![
        (
            "Select",
            "Bookmark",
            vec![Key::Char('/'), Key::Char('b')],
            CommandTreeNode::new_action(Message::SelectByBookmark),
        ),
        (
            "Select",
            "Description",
            vec![Key::Char('/'), Key::Char('d')],
            CommandTreeNode::new_action(Message::SelectByDescription),
        ),
        (
            "Duplicate",
            "Selection onto destination",
            vec![Key::Char('D'), Key::Char('o')],
            CommandTreeNode::new_action_with_children(Message::SaveSelection),
        ),
        (
            "Duplicate onto",
            "Select destination",
            vec![Key::Char('D'), Key::Char('o'), Key::Enter],
            CommandTreeNode::new_action(Message::Duplicate {
                destination_type: DuplicateDestinationType::Onto,
                destination: DuplicateDestination::Selection,
            }),
        ),
        (
            "Duplicate",
            "Selection insert after destination",
            vec![Key::Char('D'), Key::Char('a')],
            CommandTreeNode::new_action_with_children(Message::SaveSelection),
        ),
        (
            "Duplicate insert after",
            "Select destination",
            vec![Key::Char('D'), Key::Char('a'), Key::Enter],
            CommandTreeNode::new_action(Message::Duplicate {
                destination_type: DuplicateDestinationType::InsertAfter,
                destination: DuplicateDestination::Selection,
            }),
        ),
        (
            "Duplicate",
            "Selection insert before destination",
            vec![Key::Char('D'), Key::Char('b')],
            CommandTreeNode::new_action_with_children(Message::SaveSelection),
        ),
        (
            "Duplicate insert before",
            "Select destination",
            vec![Key::Char('D'), Key::Char('b'), Key::Enter],
            CommandTreeNode::new_action(Message::Duplicate {
                destination_type: DuplicateDestinationType::InsertBefore,
                destination: DuplicateDestination::Selection,
            }),
        ),
        (
            "Commands",
            "Edit",
            vec![Key::Char('e')],
            CommandTreeNode::new_children(),
        ),
        (
            "Edit",
            "Selection",
            vec![Key::Char('e'), Key::Char('e')],
            CommandTreeNode::new_action(Message::Edit),
        ),
        (
            "Edit",
            "Target",
            vec![Key::Char('e'), Key::Char('/')],
            CommandTreeNode::new_action(Message::EditTarget),
        ),
        (
            "Commands",
            "Evolog",
            vec![Key::Char('E')],
            CommandTreeNode::new_children(),
        ),
        (
            "Evolog",
            "Selection",
            vec![Key::Char('E'), Key::Char('e')],
            CommandTreeNode::new_action(Message::Evolog { patch: false }),
        ),
        (
            "Evolog",
            "Selection (patch)",
            vec![Key::Char('E'), Key::Char('E')],
            CommandTreeNode::new_action(Message::Evolog { patch: true }),
        ),
        (
            "Commands",
            "File",
            vec![Key::Char('f')],
            CommandTreeNode::new_children(),
        ),
        (
            "File",
            "Track (enter filepath)",
            vec![Key::Char('f'), Key::Char('t')],
            CommandTreeNode::new_action(Message::FileTrack),
        ),
        (
            "File",
            "Untrack selection (must be ignored)",
            vec![Key::Char('f'), Key::Char('u')],
            CommandTreeNode::new_action(Message::FileUntrack),
        ),
        (
            "Commands",
            "Git",
            vec![Key::Char('g')],
            CommandTreeNode::new_children(),
        ),
        (
            "Git",
            "Fetch",
            vec![Key::Char('g'), Key::Char('f')],
            CommandTreeNode::new_children(),
        ),
        (
            "Git fetch",
            "Default",
            vec![Key::Char('g'), Key::Char('f'), Key::Char('f')],
            CommandTreeNode::new_action(Message::GitFetch {
                mode: GitFetchMode::Default,
            }),
        ),
    ]
}

/// Part 4 of the bindings, in the order they are added.
fn bindings_part_4() -> (r: Vec<(&'static str, &'static str, Vec<Key>, CommandTreeNode)>)
    ensures
        entries_fit(entries_view(r@), table_part_4()),
{
    vec![
        (
            "Git fetch",
            "All remotes",
            vec![Key::Char('g'), Key::Char('f'), Key::Char('a')],
            CommandTreeNode::new_action(Message::GitFetch {
                mode: GitFetchMode::AllRemotes,
            }),
        ),
        (
            "Git fetch",
            "Tracked bookmarks",
            vec![Key::Char('g'), Key::Char('f'), Key::Char('t')],
            CommandTreeNode::new_action(Message::GitFetch {
                mode: GitFetchMode::AllTracked,
            }),
        ),
        (
            "Git fetch",
            "Branch by name",
            vec![Key::Char('g'), Key::Char('f'), Key::Char('b')],
            CommandTreeNode::new_action(Message::GitFetch {
                mode: GitFetchMode::Branch,
            }),
        ),
        (
            "Git fetch",
            "Remote by name",
            vec![Key::Char('g'), Key::Char('f'), Key::Char('r')],
            CommandTreeNode::new_action(Message::GitFetch {
                mode: GitFetchMode::Remote,
            }),
        ),
        (
            "Git",
            "Push",
            vec![Key::Char('g'), Key::Char('p')],
            CommandTreeNode::new_children(),
        ),
        (
            "Git push",
            "Default",
            vec![Key::Char('g'), Key::Char('p'), Key::Char('p')],
            CommandTreeNode::new_action(Message::GitPush {
                mode: GitPushMode::Default,
            }),
        ),
        (
            "Git push",
            "All bookmarks",
            vec![Key::Char('g'), Key::Char('p'), Key::Char('a')],
            CommandTreeNode::new_action(Message::GitPush {
                mode: GitPushMode::All,
            }),
        ),
        (
            "Git push",
            "Bookmarks at selection",
            vec![Key::Char('g'), Key::Char('p'), Key::Char('r')],
            CommandTreeNode::new_action(Message::GitPush {
                mode: GitPushMode::Revision,
            }),
        ),
        (
            "Git push",
            "Tracked bookmarks",
            vec![Key::Char('g'), Key::Char('p'), Key::Char('t')],
            CommandTreeNode::new_action(Message::GitPush {
                mode: GitPushMode::AllTracked,
            }),
        ),
        (
            "Git push",
            "Deleted bookmarks",
            vec![Key::Char('g'), Key::Char('p'), Key::Char('d')],
            CommandTreeNode::new_action(Message::GitPush {
                mode: GitPushMode::Deleted,
            }),
        ),
        (
            "Git push",
            "New bookmark for selection",
            vec![Key::Char('g'), Key::Char('p'), Key::Char('c')],
            CommandTreeNode::new_action(Message::GitPush {
                mode: GitPushMode::Change,
            }),
        ),
        (
            "Git push",
            "New named bookmark for selection",
            vec![Key::Char('g'), Key::Char('p'), Key::Char('n')],
            CommandTreeNode::new_action(Message::GitPush {
                mode: GitPushMode::Named,
            }),
        ),
        (
            "Git push",
            "Bookmark by name",
            vec![Key::Char('g'), Key::Char('p'), Key::Char('b')],
            CommandTreeNode::new_action(Message::GitPush {
                mode: GitPushMode::Bookmark,
            }),
        ),
        (
            "Commands",
            "Interdiff",
            vec![Key::Char('i')],
            CommandTreeNode::new_children(),
        ),
        (
            "Interdiff",
            "From @ to selection",
            vec![Key::Char('i'), Key::Char('t')],
            CommandTreeNode::new_action(Message::Interdiff {
                mode: InterdiffMode::ToSelection,
            }),
        ),
        (
            "Interdiff",
            "From selection to @",
            vec![Key::Char('i'), Key::Char('f')],
            CommandTreeNode::new_action(Message::Interdiff {
                mode: InterdiffMode::FromSelection,
            }),
        ),
        (
            "Interdiff",
            "From selection to destination",
            vec![Key::Char('i'), Key::Char('i')],
            CommandTreeNode::new_action_with_children(Message::SaveSelection),
        ),
        (
            "Interdiff to destination",
            "Select destination",
            vec![Key::Char('i'), Key::Char('i'), Key::Enter],
            CommandTreeNode::new_action(Message::Interdiff {
                mode: InterdiffMode::FromSelectionToDestination,
            }),
        ),
        (
            "Commands",
            "Metaedit",
            vec![Key::Char('m')],
            CommandTreeNode::new_children(),
        ),
        (
            "Metaedit",
            "Update change-id",
            vec![Key::Char('m'), Key::Char('c')],
            CommandTreeNode::new_action(Message::Metaedit {
                action: MetaeditAction::UpdateChangeId,
            }),
        ),
    ]
}

/// Part 5 of the bindings, in the order they are added.
fn bindings_part_5() -> (r: Vec<(&'static str, &'static str, Vec<Key>, CommandTreeNode)>)
    ensures
        entries_fit(entries_view(r@), table_part_5()),
{
    vec![
        (
            "Metaedit",
            "Update author timestamp to now",
            vec![Key::Char('m'), Key::Char('t')],
            CommandTreeNode::new_action(Message::Metaedit {
                action: MetaeditAction::UpdateAuthorTimestamp,
            }),
        ),
        (
            "Metaedit",
            "Update author to configured user",
            vec![Key::Char('m'), Key::Char('a')],
            CommandTreeNode::new_action(Message::Metaedit {
                action: MetaeditAction::UpdateAuthor,
            }),
        ),
        (
            "Metaedit",
            "Set author",
            vec![Key::Char('m'), Key::Char('A')],
            CommandTreeNode::new_action(Message::Metaedit {
                action: MetaeditAction::SetAuthor,
            }),
        ),
        (
            "Metaedit",
            "Set author timestamp",
            vec![Key::Char('m'), Key::Char('T')],
            CommandTreeNode::new_action(Message::Metaedit {
                action: MetaeditAction::SetAuthorTimestamp,
            }),
        ),
        (
            "Metaedit",
            "Force rewrite",
            vec![Key::Char('m'), Key::Char('r')],
            CommandTreeNode::new_action(Message::Metaedit {
                action: MetaeditAction::ForceRewrite,
            }),
        ),
        (
            "Commands",
            "Log revset",
            vec![Key::Char('L')],
            CommandTreeNode::new_children(),
        ),
        (
            "Log revset",
            "Default",
            vec![Key::Char('L'), Key::Char('d')],
            CommandTreeNode::new_action(Message::SetRevset {
                mode: SetRevsetMode::Default,
            }),
        ),
        (
            "Log revset",
            "Jj default",
            vec![Key::Char('L'), Key::Char('D')],
            CommandTreeNode::new_action(Message::SetRevset {
                mode: SetRevsetMode::JjDefault,
            }),
        ),
        (
            "Log revset",
            "Custom",
            vec![Key::Char('L'), Key::Char('L')],
            CommandTreeNode::new_action(Message::SetRevset {
                mode: SetRevsetMode::Custom,
            }),
        ),
        (
            "Log revset",
            "All commits",
            vec![Key::Char('L'), Key::Char('a')],
            CommandTreeNode::new_action(Message::SetRevset {
                mode: SetRevsetMode::All,
            }),
        ),
        (
            "Log revset",
            "Mutable",
            vec![Key::Char('L'), Key::Char('m')],
            CommandTreeNode::new_action(Message::SetRevset {
                mode: SetRevsetMode::Mutable,
            }),
        ),
        (
            "Log revset",
            "Current stack",
            vec![Key::Char('L'), Key::Char('s')],
            CommandTreeNode::new_action(Message::SetRevset {
                mode: SetRevsetMode::Stack,
            }),
        ),
        (
            "Log revset",
            "Conflicts",
            vec![Key::Char('L'), Key::Char('c')],
            CommandTreeNode::new_action(Message::SetRevset {
                mode: SetRevsetMode::Conflicts,
            }),
        ),
        (
            "Log revset",
            "@ ancestry",
            vec![Key::Char('L'), Key::Char('w')],
            CommandTreeNode::new_action(Message::SetRevset {
                mode: SetRevsetMode::WorkingCopyAncestry,
            }),
        ),
        (
            "Log revset",
            "Mine",
            vec![Key::Char('L'), Key::Char('i')],
            CommandTreeNode::new_action(Message::SetRevset {
                mode: SetRevsetMode::Mine,
            }),
        ),
        (
            "Log revset",
            "Bookmarks and tags",
            vec![Key::Char('L'), Key::Char('b')],
            CommandTreeNode::new_action(Message::SetRevset {
                mode: SetRevsetMode::Bookmarks,
            }),
        ),
        (
            "Log revset",
            "Recent",
            vec![Key::Char('L'), Key::Char('r')],
            CommandTreeNode::new_action(Message::SetRevset {
                mode: SetRevsetMode::Recent,
            }),
        ),
        (
            "Commands",
            "New",
            vec![Key::Char('n')],
            CommandTreeNode::new_children(),
        ),
        (
            "New",
            "After selection",
            vec![Key::Char('n'), Key::Char('n')],
            CommandTreeNode::new_action(Message::New {
                mode: NewMode::Default,
            }),
        ),
        (
            "New",
            "After selection (rebase children)",
            vec![Key::Char('n'), Key::Char('a')],
            CommandTreeNode::new_action(Message::New {
                mode: NewMode::InsertAfter,
            }),
        ),
    ]
}

/// Part 6 of the bindings, in the order they are added.
fn bindings_part_6() -> (r: Vec<(&'static str, &'static str, Vec<Key>, CommandTreeNode)>)
    ensures
        entries_fit(entries_view(r@), table_part_6()),
{
    vec![
        (
            "New",
            "Before selection (rebase children)",
            vec![Key::Char('n'), Key::Char('b')],
            CommandTreeNode::new_action(Message::New {
                mode: NewMode::Before,
            }),
        ),
        (
            "New",
            "After trunk",
            vec![Key::Char('n'), Key::Char('m')],
            CommandTreeNode::new_action(Message::New {
                mode: NewMode::AfterTrunk,
            }),
        ),
        (
            "New",
            "After trunk (sync)",
            vec![Key::Char('n'), Key::Char('M')],
            CommandTreeNode::new_action(Message::NewAfterTrunkSync),
        ),
        (
            "New",
            "After target",
            vec![Key::Char('n'), Key::Char('/')],
            CommandTreeNode::new_action(Message::NewAtTarget),
        ),
        (
            "New",
            "After revsets",
            vec![Key::Char('n'), Key::Char('r')],
            CommandTreeNode::new_action(Message::NewRevsets),
        ),
        (
            "Commands",
            "Next",
            vec![Key::Char('N')],
            CommandTreeNode::new_children(),
        ),
        (
            "Commands",
            "Open",
            vec![Key::Char('o')],
            CommandTreeNode::new_action(Message::Open),
        ),
        (
            "Commands",
            "Resolve",
            vec![Key::Char('O')],
            CommandTreeNode::new_action(Message::Resolve),
        ),
        (
            "Commands",
            "Parallelize",
            vec![Key::Char('p')],
            CommandTreeNode::new_children(),
        ),
        (
            "Parallelize",
            "Selection with parent",
            vec![Key::Char('p'), Key::Char('p')],
            CommandTreeNode::new_action(Message::Parallelize {
                source: ParallelizeSource::Selection,
            }),
        ),
        (
            "Parallelize",
            "From selection to destination",
            vec![Key::Char('p'), Key::Char('P')],
            CommandTreeNode::new_action_with_children(Message::SaveSelection),
        ),
        (
            "Parallelize range",
            "Select destination",
            vec![Key::Char('p'), Key::Char('P'), Key::Enter],
            CommandTreeNode::new_action(Message::Parallelize {
                source: ParallelizeSource::Range,
            }),
        ),
        (
            "Parallelize",
            "Revset",
            vec![Key::Char('p'), Key::Char('r')],
            CommandTreeNode::new_action(Message::Parallelize {
                source: ParallelizeSource::Revset,
            }),
        ),
        (
            "Next",
            "Next",
            vec![Key::Char('N'), Key::Char('n')],
            CommandTreeNode::new_action(Message::NextPrev {
                direction: NextPrevDirection::Next,
                mode: NextPrevMode::Default,
                offset: false,
            }),
        ),
        (
            "Next",
            "Nth next",
            vec![Key::Char('N'), Key::Char('N')],
            CommandTreeNode::new_action(Message::NextPrev {
                direction: NextPrevDirection::Next,
                mode: NextPrevMode::Default,
                offset: true,
            }),
        ),
        (
            "Next",
            "Next (edit)",
            vec![Key::Char('N'), Key::Char('e')],
            CommandTreeNode::new_action(Message::NextPrev {
                direction: NextPrevDirection::Next,
                mode: NextPrevMode::Edit,
                offset: false,
            }),
        ),
        (
            "Next",
            "Nth next (edit)",
            vec![Key::Char('N'), Key::Char('E')],
            CommandTreeNode::new_action(Message::NextPrev {
                direction: NextPrevDirection::Next,
                mode: NextPrevMode::Edit,
                offset: true,
            }),
        ),
        (
            "Next",
            "Next (no-edit)",
            vec![Key::Char('N'), Key::Char('x')],
            CommandTreeNode::new_action(Message::NextPrev {
                direction: NextPrevDirection::Next,
                mode: NextPrevMode::NoEdit,
                offset: false,
            }),
        ),
        (
            "Next",
            "Nth next (no-edit)",
            vec![Key::Char('N'), Key::Char('X')],
            CommandTreeNode::new_action(Message::NextPrev {
                direction: NextPrevDirection::Next,
                mode: NextPrevMode::NoEdit,
                offset: true,
            }),
        ),
        (
            "Next",
            "Next conflict",
            vec![Key::Char('N'), Key::Char('c')],
            CommandTreeNode::new_action(Message::NextPrev {
                direction: NextPrevDirection::Next,
                mode: NextPrevMode::Conflict,
                offset: false,
            }),
        ),
    ]
}

/// Part 7 of the bindings, in the order they are added.
fn bindings_part_7() -> (r: Vec<(&'static str, &'static str, Vec<Key>, CommandTreeNode)>)
    ensures
        entries_fit(entries_view(r@), table_part_7()),
{
    vec![
        (
            "Commands",
            "Previous",
            vec![Key::Char('P')],
            CommandTreeNode::new_children(),
        ),
        (
            "Previous",
            "Previous",
            vec![Key::Char('P'), Key::Char('p')],
            CommandTreeNode::new_action(Message::NextPrev {
                direction: NextPrevDirection::Prev,
                mode: NextPrevMode::Default,
                offset: false,
            }),
        ),
        (
            "Previous",
            "Nth previous",
            vec![Key::Char('P'), Key::Char('P')],
            CommandTreeNode::new_action(Message::NextPrev {
                direction: NextPrevDirection::Prev,
                mode: NextPrevMode::Default,
                offset: true,
            }),
        ),
        (
            "Previous",
            "Previous (edit)",
            vec![Key::Char('P'), Key::Char('e')],
            CommandTreeNode::new_action(Message::NextPrev {
                direction: NextPrevDirection::Prev,
                mode: NextPrevMode::Edit,
                offset: false,
            }),
        ),
        (
            "Previous",
            "Nth previous (edit)",
            vec![Key::Char('P'), Key::Char('E')],
            CommandTreeNode::new_action(Message::NextPrev {
                direction: NextPrevDirection::Prev,
                mode: NextPrevMode::Edit,
                offset: true,
            }),
        ),
        (
            "Previous",
            "Previous (no-edit)",
            vec![Key::Char('P'), Key::Char('x')],
            CommandTreeNode::new_action(Message::NextPrev {
                direction: NextPrevDirection::Prev,
                mode: NextPrevMode::NoEdit,
                offset: false,
            }),
        ),
        (
            "Previous",
            "Nth previous (no-edit)",
            vec![Key::Char('P'), Key::Char('X')],
            CommandTreeNode::new_action(Message::NextPrev {
                direction: NextPrevDirection::Prev,
                mode: NextPrevMode::NoEdit,
                offset: true,
            }),
        ),
        (
            "Previous",
            "Previous conflict",
            vec![Key::Char('P'), Key::Char('c')],
            CommandTreeNode::new_action(Message::NextPrev {
                direction: NextPrevDirection::Prev,
                mode: NextPrevMode::Conflict,
                offset: false,
            }),
        ),
        (
            "Commands",
            "Squash",
            vec![Key::Char('s')],
            CommandTreeNode::new_children(),
        ),
        (
            "Squash",
            "Selection into parent",
            vec![Key::Char('s'), Key::Char('s')],
            CommandTreeNode::new_action(Message::Squash {
                mode: SquashMode::Default,
            }),
        ),
        (
            "Squash",
            "Selection into destination",
            vec![Key::Char('s'), Key::Char('i')],
            CommandTreeNode::new_action_with_children(Message::SaveSelection),
        ),
        (
            "Squash into",
            "Select destination",
            vec![Key::Char('s'), Key::Char('i'), Key::Enter],
            CommandTreeNode::new_action(Message::Squash {
                mode: SquashMode::Into,
            }),
        ),
        (
            "Commands",
            "Status",
            vec![Key::Char('t')],
            CommandTreeNode::new_action(Message::Status),
        ),
        (
            "Commands",
            "Sign",
            vec![Key::Char('S')],
            CommandTreeNode::new_children(),
        ),
        (
            "Sign",
            "Selection",
            vec![Key::Char('S'), Key::Char('s')],
            CommandTreeNode::new_action(Message::Sign {
                action: SignAction::Sign,
                range: false,
            }),
        ),
        (
            "Sign",
            "From selection to destination",
            vec![Key::Char('S'), Key::Char('S')],
            CommandTreeNode::new_action_with_children(Message::SaveSelection),
        ),
        (
            "Sign range",
            "Select destination",
            vec![Key::Char('S'), Key::Char('S'), Key::Enter],
            CommandTreeNode::new_action(Message::Sign {
                action: SignAction::Sign,
                range: true,
            }),
        ),
        (
            "Sign",
            "Unsign selection",
            vec![Key::Char('S'), Key::Char('u')],
            CommandTreeNode::new_action(Message::Sign {
                action: SignAction::Unsign,
                range: false,
            }),
        ),
        (
            "Sign",
            "Unsign from selection to destination",
            vec![Key::Char('S'), Key::Char('U')],
            CommandTreeNode::new_action_with_children(Message::SaveSelection),
        ),
        (
            "Unsign range",
            "Select destination",
            vec![Key::Char('S'), Key::Char('U'), Key::Enter],
            CommandTreeNode::new_action(Message::Sign {
                action: SignAction::Unsign,
                range: true,
            }),
        ),
    ]
}

/// Part 8 of the bindings, in the order they are added.
fn bindings_part_8() -> (r: Vec<(&'static str, &'static str, Vec<Key>, CommandTreeNode)>)
    ensures
        entries_fit(entries_view(r@), table_part_8()),
{
    vec![
        (
            "Commands",
            "Simplify parents",
            vec![Key::Char('y')],
            CommandTreeNode::new_children(),
        ),
        (
            "Simplify parents of",
            "Selection",
            vec![Key::Char('y'), Key::Char('y')],
            CommandTreeNode::new_action(Message::SimplifyParents {
                mode: SimplifyParentsMode::Revisions,
            }),
        ),
        (
            "Simplify parents of",
            "Selection with descendants",
            vec![Key::Char('y'), Key::Char('Y')],
            CommandTreeNode::new_action(Message::SimplifyParents {
                mode: SimplifyParentsMode::Source,
            }),
        ),
        (
            "Commands",
            "Rebase",
            vec![Key::Char('r')],
            CommandTreeNode::new_children(),
        ),
        (
            "Rebase",
            "Selected branch",
            vec![Key::Char('r'), Key::Char('b')],
            CommandTreeNode::new_action_with_children(Message::SaveSelection),
        ),
        (
            "Rebase",
            "Selected branch onto trunk",
            vec![Key::Char('r'), Key::Char('m')],
            CommandTreeNode::new_action(Message::RebaseSelectedBranchOntoTrunk),
        ),
        (
            "Rebase",
            "Selected branch onto trunk (sync)",
            vec![Key::Char('r'), Key::Char('M')],
            CommandTreeNode::new_action(Message::RebaseSelectedBranchOntoTrunkSync),
        ),
        (
            "Rebase",
            "Selected source",
            vec![Key::Char('r'), Key::Char('s')],
            CommandTreeNode::new_action_with_children(Message::SaveSelection),
        ),
        (
            "Rebase",
            "Selected revision",
            vec![Key::Char('r'), Key::Char('r')],
            CommandTreeNode::new_action_with_children(Message::SaveSelection),
        ),
        (
            "Rebase",
            "Custom",
            vec![Key::Char('r'), Key::Char('c')],
            CommandTreeNode::new_action(Message::RebaseCustom),
        ),
        (
            "Rebase branch",
            "Insert after",
            vec![Key::Char('r'), Key::Char('b'), Key::Char('a')],
            CommandTreeNode::new_children(),
        ),
        (
            "Rebase branch",
            "Insert before",
            vec![Key::Char('r'), Key::Char('b'), Key::Char('b')],
            CommandTreeNode::new_children(),
        ),
        (
            "Rebase branch",
            "Onto",
            vec![Key::Char('r'), Key::Char('b'), Key::Char('o')],
            CommandTreeNode::new_children(),
        ),
        (
            "Rebase branch after",
            "Select destination",
            vec![
                Key::Char('r'),
                Key::Char('b'),
                Key::Char('a'),
                Key::Enter,
            ],
            CommandTreeNode::new_action(Message::Rebase {
                source_type: RebaseSourceType::Branch,
                destination_type: RebaseDestinationType::InsertAfter,
                destination: RebaseDestination::Selection,
            }),
        ),
        (
            "Rebase branch after",
            "Trunk",
            vec![
                Key::Char('r'),
                Key::Char('b'),
                Key::Char('a'),
                Key::Char('m'),
            ],
            CommandTreeNode::new_action(Message::Rebase {
                source_type: RebaseSourceType::Branch,
                destination_type: RebaseDestinationType::InsertAfter,
                destination: RebaseDestination::Trunk,
            }),
        ),
        (
            "Rebase branch after",
            "@",
            vec![
                Key::Char('r'),
                Key::Char('b'),
                Key::Char('a'),
                Key::Char('c'),
            ],
            CommandTreeNode::new_action(Message::Rebase {
                source_type: RebaseSourceType::Branch,
                destination_type: RebaseDestinationType::InsertAfter,
                destination: RebaseDestination::Current,
            }),
        ),
        (
            "Rebase branch after",
            "Target",
            vec![
                Key::Char('r'),
                Key::Char('b'),
                Key::Char('a'),
                Key::Char('/'),
            ],
            CommandTreeNode::new_action(Message::RebaseTargetFuzzy {
                source_type: RebaseSourceType::Branch,
                destination_type: RebaseDestinationType::InsertAfter,
            }),
        ),
        (
            "Rebase branch before",
            "Select destination",
            vec![
                Key::Char('r'),
                Key::Char('b'),
                Key::Char('b'),
                Key::Enter,
            ],
            CommandTreeNode::new_action(Message::Rebase {
                source_type: RebaseSourceType::Branch,
                destination_type: RebaseDestinationType::InsertBefore,
                destination: RebaseDestination::Selection,
            }),
        ),
        (
            "Rebase branch before",
            "Trunk",
            vec![
                Key::Char('r'),
                Key::Char('b'),
                Key::Char('b'),
                Key::Char('m'),
            ],
            CommandTreeNode::new_action(Message::Rebase {
                source_type: RebaseSourceType::Branch,
                destination_type: RebaseDestinationType::InsertBefore,
                destination: RebaseDestination::Trunk,
            }),
        ),
        (
            "Rebase branch before",
            "@",
            vec![
                Key::Char('r'),
                Key::Char('b'),
                Key::Char('b'),
                Key::Char('c'),
            ],
            CommandTreeNode::new_action(Message::Rebase {
                source_type: RebaseSourceType::Branch,
                destination_type: RebaseDestinationType::InsertBefore,
                destination: RebaseDestination::Current,
            }),
        ),
    ]
}

/// Part 9 of the bindings, in the order they are added.
fn bindings_part_9() -> (r: Vec<(&'static str, &'static str, Vec<Key>, CommandTreeNode)>)
    ensures
        entries_fit(entries_view(r@), table_part_9()),
{
    vec![
        (
            "Rebase branch before",
            "Target",
            vec![
                Key::Char('r'),
                Key::Char('b'),
                Key::Char('b'),
                Key::Char('/'),
            ],
            CommandTreeNode::new_action(Message::RebaseTargetFuzzy {
                source_type: RebaseSourceType::Branch,
                destination_type: RebaseDestinationType::InsertBefore,
            }),
        ),
        (
            "Rebase branch onto",
            "Select destination",
            vec![
                Key::Char('r'),
                Key::Char('b'),
                Key::Char('o'),
                Key::Enter,
            ],
            CommandTreeNode::new_action(Message::Rebase {
                source_type: RebaseSourceType::Branch,
                destination_type: RebaseDestinationType::Onto,
                destination: RebaseDestination::Selection,
            }),
        ),
        (
            "Rebase branch onto",
            "Trunk",
            vec![
                Key::Char('r'),
                Key::Char('b'),
                Key::Char('o'),
                Key::Char('m'),
            ],
            CommandTreeNode::new_action(Message::Rebase {
                source_type: RebaseSourceType::Branch,
                destination_type: RebaseDestinationType::Onto,
                destination: RebaseDestination::Trunk,
            }),
        ),
        (
            "Rebase branch onto",
            "@",
            vec![
                Key::Char('r'),
                Key::Char('b'),
                Key::Char('o'),
                Key::Char('c'),
            ],
            CommandTreeNode::new_action(Message::Rebase {
                source_type: RebaseSourceType::Branch,
                destination_type: RebaseDestinationType::Onto,
                destination: RebaseDestination::Current,
            }),
        ),
        (
            "Rebase branch onto",
            "Target",
            vec![
                Key::Char('r'),
                Key::Char('b'),
                Key::Char('o'),
                Key::Char('/'),
            ],
            CommandTreeNode::new_action(Message::RebaseTargetFuzzy {
                source_type: RebaseSourceType::Branch,
                destination_type: RebaseDestinationType::Onto,
            }),
        ),
        (
            "Rebase source",
            "Insert after",
            vec![Key::Char('r'), Key::Char('s'), Key::Char('a')],
            CommandTreeNode::new_children(),
        ),
        (
            "Rebase source",
            "Insert before",
            vec![Key::Char('r'), Key::Char('s'), Key::Char('b')],
            CommandTreeNode::new_children(),
        ),
        (
            "Rebase source",
            "Onto",
            vec![Key::Char('r'), Key::Char('s'), Key::Char('o')],
            CommandTreeNode::new_children(),
        ),
        (
            "Rebase source after",
            "Select destination",
            vec![
                Key::Char('r'),
                Key::Char('s'),
                Key::Char('a'),
                Key::Enter,
            ],
            CommandTreeNode::new_action(Message::Rebase {
                source_type: RebaseSourceType::Source,
                destination_type: RebaseDestinationType::InsertAfter,
                destination: RebaseDestination::Selection,
            }),
        ),
        (
            "Rebase source after",
            "Trunk",
            vec![
                Key::Char('r'),
                Key::Char('s'),
                Key::Char('a'),
                Key::Char('m'),
            ],
            CommandTreeNode::new_action(Message::Rebase {
                source_type: RebaseSourceType::Source,
                destination_type: RebaseDestinationType::InsertAfter,
                destination: RebaseDestination::Trunk,
            }),
        ),
        (
            "Rebase source after",
            "@",
            vec![
                Key::Char('r'),
                Key::Char('s'),
                Key::Char('a'),
                Key::Char('c'),
            ],
            CommandTreeNode::new_action(Message::Rebase {
                source_type: RebaseSourceType::Source,
                destination_type: RebaseDestinationType::InsertAfter,
                destination: RebaseDestination::Current,
            }),
        ),
        (
            "Rebase source after",
            "Target",
            vec![
                Key::Char('r'),
                Key::Char('s'),
                Key::Char('a'),
                Key::Char('/'),
            ],
            CommandTreeNode::new_action(Message::RebaseTargetFuzzy {
                source_type: RebaseSourceType::Source,
                destination_type: RebaseDestinationType::InsertAfter,
            }),
        ),
        (
            "Rebase source before",
            "Select destination",
            vec![
                Key::Char('r'),
                Key::Char('s'),
                Key::Char('b'),
                Key::Enter,
            ],
            CommandTreeNode::new_action(Message::Rebase {
                source_type: RebaseSourceType::Source,
                destination_type: RebaseDestinationType::InsertBefore,
                destination: RebaseDestination::Selection,
            }),
        ),
        (
            "Rebase source before",
            "Trunk",
            vec![
                Key::Char('r'),
                Key::Char('s'),
                Key::Char('b'),
                Key::Char('m'),
            ],
            CommandTreeNode::new_action(Message::Rebase {
                source_type: RebaseSourceType::Source,
                destination_type: RebaseDestinationType::InsertBefore,
                destination: RebaseDestination::Trunk,
            }),
        ),
        (
            "Rebase source before",
            "@",
            vec![
                Key::Char('r'),
                Key::Char('s'),
                Key::Char('b'),
                Key::Char('c'),
            ],
            CommandTreeNode::new_action(Message::Rebase {
                source_type: RebaseSourceType::Source,
                destination_type: RebaseDestinationType::InsertBefore,
                destination: RebaseDestination::Current,
            }),
        ),
        (
            "Rebase source before",
            "Target",
            vec![
                Key::Char('r'),
                Key::Char('s'),
                Key::Char('b'),
                Key::Char('/'),
            ],
            CommandTreeNode::new_action(Message::RebaseTargetFuzzy {
                source_type: RebaseSourceType::Source,
                destination_type: RebaseDestinationType::InsertBefore,
            }),
        ),
        (
            "Rebase source onto",
            "Select destination",
            vec![
                Key::Char('r'),
                Key::Char('s'),
                Key::Char('o'),
                Key::Enter,
            ],
            CommandTreeNode::new_action(Message::Rebase {
                source_type: RebaseSourceType::Source,
                destination_type: RebaseDestinationType::Onto,
                destination: RebaseDestination::Selection,
            }),
        ),
        (
            "Rebase source onto",
            "Trunk",
            vec![
                Key::Char('r'),
                Key::Char('s'),
                Key::Char('o'),
                Key::Char('m'),
            ],
            CommandTreeNode::new_action(Message::Rebase {
                source_type: RebaseSourceType::Source,
                destination_type: RebaseDestinationType::Onto,
                destination: RebaseDestination::Trunk,
            }),
        ),
        (
            "Rebase source onto",
            "@",
            vec![
                Key::Char('r'),
                Key::Char('s'),
                Key::Char('o'),
                Key::Char('c'),
            ],
            CommandTreeNode::new_action(Message::Rebase {
                source_type: RebaseSourceType::Source,
                destination_type: RebaseDestinationType::Onto,
                destination: RebaseDestination::Current,
            }),
        ),
        (
            "Rebase source onto",
            "Target",
            vec![
                Key::Char('r'),
                Key::Char('s'),
                Key::Char('o'),
                Key::Char('/'),
            ],
            CommandTreeNode::new_action(Message::RebaseTargetFuzzy {
                source_type: RebaseSourceType::Source,
                destination_type: RebaseDestinationType::Onto,
            }),
        ),
    ]
}

/// Part 10 of the bindings, in the order they are added.
fn bindings_part_10() -> (r: Vec<(&'static str, &'static str, Vec<Key>, CommandTreeNode)>)
    ensures
        entries_fit(entries_view(r@), table_part_10()),
{
    vec![
        (
            "Rebase revision",
            "Insert after",
            vec![Key::Char('r'), Key::Char('r'), Key::Char('a')],
            CommandTreeNode::new_children(),
        ),
        (
            "Rebase revision",
            "Insert before",
            vec![Key::Char('r'), Key::Char('r'), Key::Char('b')],
            CommandTreeNode::new_children(),
        ),
        (
            "Rebase revision",
            "Onto",
            vec![Key::Char('r'), Key::Char('r'), Key::Char('o')],
            CommandTreeNode::new_children(),
        ),
        (
            "Rebase revision after",
            "Select destination",
            vec![
                Key::Char('r'),
                Key::Char('r'),
                Key::Char('a'),
                Key::Enter,
            ],
            CommandTreeNode::new_action(Message::Rebase {
                source_type: RebaseSourceType::Revisions,
                destination_type: RebaseDestinationType::InsertAfter,
                destination: RebaseDestination::Selection,
            }),
        ),
        (
            "Rebase revision after",
            "Trunk",
            vec![
                Key::Char('r'),
                Key::Char('r'),
                Key::Char('a'),
                Key::Char('m'),
            ],
            CommandTreeNode::new_action(Message::Rebase {
                source_type: RebaseSourceType::Revisions,
                destination_type: RebaseDestinationType::InsertAfter,
                destination: RebaseDestination::Trunk,
            }),
        ),
        (
            "Rebase revision after",
            "@",
            vec![
                Key::Char('r'),
                Key::Char('r'),
                Key::Char('a'),
                Key::Char('c'),
            ],
            CommandTreeNode::new_action(Message::Rebase {
                source_type: RebaseSourceType::Revisions,
                destination_type: RebaseDestinationType::InsertAfter,
                destination: RebaseDestination::Current,
            }),
        ),
        (
            "Rebase revision after",
            "Target",
            vec![
                Key::Char('r'),
                Key::Char('r'),
                Key::Char('a'),
                Key::Char('/'),
            ],
            CommandTreeNode::new_action(Message::RebaseTargetFuzzy {
                source_type: RebaseSourceType::Revisions,
                destination_type: RebaseDestinationType::InsertAfter,
            }),
        ),
        (
            "Rebase revision before",
            "Select destination",
            vec![
                Key::Char('r'),
                Key::Char('r'),
                Key::Char('b'),
                Key::Enter,
            ],
            CommandTreeNode::new_action(Message::Rebase {
                source_type: RebaseSourceType::Revisions,
                destination_type: RebaseDestinationType::InsertBefore,
                destination: RebaseDestination::Selection,
            }),
        ),
        (
            "Rebase revision before",
            "Trunk",
            vec![
                Key::Char('r'),
                Key::Char('r'),
                Key::Char('b'),
                Key::Char('m'),
            ],
            CommandTreeNode::new_action(Message::Rebase {
                source_type: RebaseSourceType::Revisions,
                destination_type: RebaseDestinationType::InsertBefore,
                destination: RebaseDestination::Trunk,
            }),
        ),
        (
            "Rebase revision before",
            "@",
            vec![
                Key::Char('r'),
                Key::Char('r'),
                Key::Char('b'),
                Key::Char('c'),
            ],
            CommandTreeNode::new_action(Message::Rebase {
                source_type: RebaseSourceType::Revisions,
                destination_type: RebaseDestinationType::InsertBefore,
                destination: RebaseDestination::Current,
            }),
        ),
        (
            "Rebase revision before",
            "Target",
            vec![
                Key::Char('r'),
                Key::Char('r'),
                Key::Char('b'),
                Key::Char('/'),
            ],
            CommandTreeNode::new_action(Message::RebaseTargetFuzzy {
                source_type: RebaseSourceType::Revisions,
                destination_type: RebaseDestinationType::InsertBefore,
            }),
        ),
        (
            "Rebase revision onto",
            "Select destination",
            vec![
                Key::Char('r'),
                Key::Char('r'),
                Key::Char('o'),
                Key::Enter,
            ],
            CommandTreeNode::new_action(Message::Rebase {
                source_type: RebaseSourceType::Revisions,
                destination_type: RebaseDestinationType::Onto,
                destination: RebaseDestination::Selection,
            }),
        ),
        (
            "Rebase revision onto",
            "Trunk",
            vec![
                Key::Char('r'),
                Key::Char('r'),
                Key::Char('o'),
                Key::Char('m'),
            ],
            CommandTreeNode::new_action(Message::Rebase {
                source_type: RebaseSourceType::Revisions,
                destination_type: RebaseDestinationType::Onto,
                destination: RebaseDestination::Trunk,
            }),
        ),
        (
            "Rebase revision onto",
            "@",
            vec![
                Key::Char('r'),
                Key::Char('r'),
                Key::Char('o'),
                Key::Char('c'),
            ],
            CommandTreeNode::new_action(Message::Rebase {
                source_type: RebaseSourceType::Revisions,
                destination_type: RebaseDestinationType::Onto,
                destination: RebaseDestination::Current,
            }),
        ),
        (
            "Rebase revision onto",
            "Target",
            vec![
                Key::Char('r'),
                Key::Char('r'),
                Key::Char('o'),
                Key::Char('/'),
            ],
            CommandTreeNode::new_action(Message::RebaseTargetFuzzy {
                source_type: RebaseSourceType::Revisions,
                destination_type: RebaseDestinationType::Onto,
            }),
        ),
        (
            "Commands",
            "Restore",
            vec![Key::Char('R')],
            CommandTreeNode::new_children(),
        ),
        (
            "Restore",
            "Changes in selection",
            vec![Key::Char('R'), Key::Char('r')],
            CommandTreeNode::new_action(Message::Restore {
                mode: RestoreMode::ChangesIn,
            }),
        ),
        (
            "Restore",
            "Changes in selection (restore descendants)",
            vec![Key::Char('R'), Key::Char('d')],
            CommandTreeNode::new_action(Message::Restore {
                mode: RestoreMode::ChangesInRestoreDescendants,
            }),
        ),
        (
            "Restore",
            "From selection into @",
            vec![Key::Char('R'), Key::Char('f')],
            CommandTreeNode::new_action(Message::Restore {
                mode: RestoreMode::From,
            }),
        ),
        (
            "Restore",
            "From @ into selection",
            vec![Key::Char('R'), Key::Char('i')],
            CommandTreeNode::new_action(Message::Restore {
                mode: RestoreMode::Into,
            }),
        ),
    ]
}

/// Part 11 of the bindings, in the order they are added.
fn bindings_part_11() -> (r: Vec<(&'static str, &'static str, Vec<Key>, CommandTreeNode)>)
    ensures
        entries_fit(entries_view(r@), table_part_11()),
{
    vec![
        (
            "Restore",
            "From selection into destination",
            vec![Key::Char('R'), Key::Char('R')],
            CommandTreeNode::new_action_with_children(Message::SaveSelection),
        ),
        (
            "Restore into",
            "Select destination",
            vec![Key::Char('R'), Key::Char('R'), Key::Enter],
            CommandTreeNode::new_action(Message::Restore {
                mode: RestoreMode::FromInto,
            }),
        ),
        (
            "Commands",
            "View",
            vec![Key::Char('v')],
            CommandTreeNode::new_children(),
        ),
        (
            "View",
            "Selection",
            vec![Key::Char('v'), Key::Char('v')],
            CommandTreeNode::new_action(Message::View {
                mode: ViewMode::Default,
            }),
        ),
        (
            "View",
            "From selection to @",
            vec![Key::Char('v'), Key::Char('f')],
            CommandTreeNode::new_action(Message::View {
                mode: ViewMode::FromSelection,
            }),
        ),
        (
            "View",
            "From trunk to selection",
            vec![Key::Char('v'), Key::Char('m')],
            CommandTreeNode::new_action(Message::View {
                mode: ViewMode::FromTrunkToSelection,
            }),
        ),
        (
            "View",
            "From @ to selection",
            vec![Key::Char('v'), Key::Char('t')],
            CommandTreeNode::new_action(Message::View {
                mode: ViewMode::ToSelection,
            }),
        ),
        (
            "View",
            "From selection to destination",
            vec![Key::Char('v'), Key::Char('V')],
            CommandTreeNode::new_action_with_children(Message::SaveSelection),
        ),
        (
            "View to destination",
            "Select destination",
            vec![Key::Char('v'), Key::Char('V'), Key::Enter],
            CommandTreeNode::new_action(Message::View {
                mode: ViewMode::FromSelectionToDestination,
            }),
        ),
        (
            "Commands",
            "Revert",
            vec![Key::Char('V')],
            CommandTreeNode::new_children(),
        ),
        (
            "Revert",
            "Selection onto @",
            vec![Key::Char('V'), Key::Char('v')],
            CommandTreeNode::new_action(Message::Revert {
                revision: RevertRevision::Selection,
                destination_type: RevertDestinationType::Onto,
                destination: RevertDestination::Current,
            }),
        ),
        (
            "Revert",
            "Selection onto destination",
            vec![Key::Char('V'), Key::Char('o')],
            CommandTreeNode::new_action_with_children(Message::SaveSelection),
        ),
        (
            "Revert onto",
            "Select destination",
            vec![Key::Char('V'), Key::Char('o'), Key::Enter],
            CommandTreeNode::new_action(Message::Revert {
                revision: RevertRevision::Saved,
                destination_type: RevertDestinationType::Onto,
                destination: RevertDestination::Selection,
            }),
        ),
        (
            "Revert",
            "Selection after destination",
            vec![Key::Char('V'), Key::Char('a')],
            CommandTreeNode::new_action_with_children(Message::SaveSelection),
        ),
        (
            "Revert after",
            "Select destination",
            vec![Key::Char('V'), Key::Char('a'), Key::Enter],
            CommandTreeNode::new_action(Message::Revert {
                revision: RevertRevision::Saved,
                destination_type: RevertDestinationType::InsertAfter,
                destination: RevertDestination::Selection,
            }),
        ),
        (
            "Revert",
            "Selection before destination",
            vec![Key::Char('V'), Key::Char('b')],
            CommandTreeNode::new_action_with_children(Message::SaveSelection),
        ),
        (
            "Revert before",
            "Select destination",
            vec![Key::Char('V'), Key::Char('b'), Key::Enter],
            CommandTreeNode::new_action(Message::Revert {
                revision: RevertRevision::Saved,
                destination_type: RevertDestinationType::InsertBefore,
                destination: RevertDestination::Selection,
            }),
        ),
        (
            "Commands",
            "Workspace",
            vec![Key::Char('w')],
            CommandTreeNode::new_children(),
        ),
        (
            "Workspace",
            "Add",
            vec![Key::Char('w'), Key::Char('a')],
            CommandTreeNode::new_children(),
        ),
        (
            "Workspace add",
            "By path (name from path)",
            vec![Key::Char('w'), Key::Char('a'), Key::Char('a')],
            CommandTreeNode::new_action(Message::WorkspaceAddPathOnly),
        ),
    ]
}

/// Part 12 of the bindings, in the order they are added.
fn bindings_part_12() -> (r: Vec<(&'static str, &'static str, Vec<Key>, CommandTreeNode)>)
    ensures
        entries_fit(entries_view(r@), table_part_12()),
{
    vec![
        (
            "Workspace add",
            "By name and path",
            vec![Key::Char('w'), Key::Char('a'), Key::Char('n')],
            CommandTreeNode::new_action(Message::WorkspaceAddNamed),
        ),
        (
            "Workspace",
            "Forget",
            vec![Key::Char('w'), Key::Char('f')],
            CommandTreeNode::new_children(),
        ),
        (
            "Workspace forget",
            "Current",
            vec![Key::Char('w'), Key::Char('f'), Key::Char('c')],
            CommandTreeNode::new_action(Message::WorkspaceForgetCurrent),
        ),
        (
            "Workspace forget",
            "Target",
            vec![Key::Char('w'), Key::Char('f'), Key::Char('/')],
            CommandTreeNode::new_action(Message::WorkspaceForgetFuzzy),
        ),
        (
            "Workspace forget",
            "All at selected change",
            vec![Key::Char('w'), Key::Char('f'), Key::Char('f')],
            CommandTreeNode::new_action(Message::WorkspaceForgetAtSelection),
        ),
        (
            "Workspace",
            "List",
            vec![Key::Char('w'), Key::Char('L')],
            CommandTreeNode::new_action(Message::WorkspaceList),
        ),
        (
            "Workspace",
            "Rename current",
            vec![Key::Char('w'), Key::Char('r')],
            CommandTreeNode::new_action(Message::WorkspaceRename),
        ),
        (
            "Workspace",
            "Update stale",
            vec![Key::Char('w'), Key::Char('u')],
            CommandTreeNode::new_action(Message::WorkspaceUpdateStale),
        ),
        (
            "Commands",
            "Undo last operation",
            vec![Key::Char('u')],
            CommandTreeNode::new_action(Message::Undo),
        ),
        (
            "Commands",
            "Redo last operation",
            vec![Key::Char('U')],
            CommandTreeNode::new_action(Message::Redo),
        ),
    ]
}

/// The command tree: from its root, the key sequences that reach commands.
#[derive(Debug)]
pub struct CommandTree(CommandTreeNode);

impl CommandTree {
    /// The root node.
    pub closed spec fn root(&self) -> CommandTreeNode {
        self.0
    }

    /// Whether the root has children: a key can lead somewhere from it.
    pub fn root_has_children(&self) -> (b: bool)
        ensures
            b == self.root().children is Some,
    {
        self.0.children.is_some()
    }

    /// The node that the key sequence `key_codes` reaches.
    pub fn get_node(&self, key_codes: &[Key]) -> (r: Option<&CommandTreeNode>)
        ensures
            r is Some == node_at(self.root(), key_codes@) is Some,
            r matches Some(n) ==> node_at(self.root(), key_codes@) == Some(*n),
    {
        let mut node: &CommandTreeNode = &self.0;
        let mut i: usize = 0;
        assert(key_codes@.skip(0) =~= key_codes@);
        while i < key_codes.len()
            invariant
                i <= key_codes.len(),
                node_at(self.root(), key_codes@) == node_at(*node, key_codes@.skip(i as int)),
            decreases key_codes.len() - i,
        {
            assert(key_codes@.skip(i as int)[0] == key_codes@[i as int]);
            assert(key_codes@.skip(i as int).drop_first() =~= key_codes@.skip(i + 1));
            let children = match &node.children {
                None => return None,
                Some(children) => children,
            };
            node = match children.get_node(&key_codes[i]) {
                None => return None,
                Some(child) => child,
            };
            i = i + 1;
        }
        assert(key_codes@.skip(i as int) =~= Seq::<Key>::empty());
        Some(node)
    }

    /// Adds `child` below the node that `path` reaches, bound to `key` with
    /// `help_text` in the group `help_group_text`. Returns false, leaving the
    /// tree as it was, where `path` reaches no node with children.
    fn add_below(
        node: &mut CommandTreeNode,
        path: &Vec<Key>,
        depth: usize,
        help_group_text: &str,
        help_text: &str,
        key: Key,
        child: CommandTreeNode,
    ) -> (added: bool)
        requires
            depth <= path.len(),
        ensures
            old(node).children is Some ==> final(node).children is Some,
            added_below(*old(node), *final(node), path@.skip(depth as int), key, child, help_group_text@, help_text@),
        decreases path.len() - depth,
    {
        let ghost rest = path@.skip(depth as int);
        let mut children = match node.children.take() {
            Some(children) => children,
            None => return false,
        };
        let ghost before = children.nodes@;
        if depth == path.len() {
            assert(rest.len() == 0);
            children.add_child(help_group_text, help_text, key, child);
            node.children = Some(children);
            return true;
        }
        assert(rest[0] == path@[depth as int]);
        assert(rest.drop_first() =~= path@.skip(depth + 1));
        let i = match first_binding(&children.nodes, path[depth]) {
            Some(i) => i,
            None => {
                proof {
                    lemma_binding_index_absent(before, path@[depth as int]);
                }
                node.children = Some(children);
                return false;
            },
        };
        proof {
            lemma_binding_index_found(before, path@[depth as int], i as int);
        }
        let (k, mut sub) = children.nodes.remove(i);
        let ghost sub_before = sub;
        let added = Self::add_below(&mut sub, path, depth + 1, help_group_text, help_text, key, child);
        let ghost sub_after = sub;
        children.nodes.insert(i, (k, sub));
        assert(children.nodes@ =~= before.update(i as int, (k, sub_after)));
        assert(sub_before == before[i as int].1);
        node.children = Some(children);
        added
    }

    /// Adds each entry: a help group, a help text, the key sequence that
    /// reaches the new node, and the node. An entry whose sequence is empty or
    /// continues from no node with children is left out.
    fn add_children(&mut self, entries: Vec<(&str, &str, Vec<Key>, CommandTreeNode)>)
        ensures
            old(self).root().children is Some ==> final(self).root().children is Some,
            exists|states: Seq<CommandTreeNode>|
                states[0] == old(self).root() && states.last() == final(self).root() && adds_in_turn(
                    states,
                    entries_view(entries@),
                ),
    {
        let ghost all = entries_view(entries@);
        let ghost mut states: Seq<CommandTreeNode> = seq![self.0];
        let mut entries = entries;
        while entries.len() > 0
            invariant
                old(self).root().children is Some ==> self.root().children is Some,
                all.len() == states.len() - 1 + entries.len(),
                entries_view(entries@) == all.skip(states.len() - 1),
                states.len() >= 1,
                states[0] == old(self).root(),
                states.last() == self.root(),
                adds_in_turn(states, all.take(states.len() - 1)),
            decreases entries.len(),
        {
            let ghost done = states.len() - 1;
            let ghost before = self.0;
            let ghost view_before = entries_view(entries@);
            let (help_group_text, help_text, key_codes, node) = entries.remove(0);
            assert(entries_view(entries@) =~= view_before.drop_first());
            assert(all.skip(done + 1) =~= all.skip(done).drop_first());
            assert(all[done] == view_before[0]);
            let ghost e = all[done];
            if key_codes.len() > 0 {
                let last_key = key_codes[key_codes.len() - 1];
                let mut rest_keys = key_codes;
                rest_keys.pop();
                assert(rest_keys@.skip(0) =~= e.2.drop_last());
                let _ = Self::add_below(&mut self.0, &rest_keys, 0, help_group_text, help_text, last_key, node);
            }
            assert(entry_added(before, self.0, e));
            proof {
                let old_states = states;
                states = states.push(self.0);
                assert(all.take(done + 1) =~= all.take(done).push(e));
                assert forall|k: int|
                    #![trigger all.take(done + 1)[k]]
                    0 <= k < done + 1 implies entry_added(states[k], states[k + 1], all.take(done + 1)[k]) by {
                    if k < done {
                        assert(all.take(done + 1)[k] == all.take(done)[k]);
                        assert(states[k] == old_states[k]);
                        assert(states[k + 1] == old_states[k + 1]);
                    } else {
                        assert(states[k] == before);
                        assert(states[k + 1] == self.0);
                    }
                }
            }
        }
        assert(all.take(all.len() as int) =~= all);
    }

    /// The tree of every key sequence the interface binds: command groups
    /// under their first key, commands under further keys, and the keys that
    /// pick a destination after a selection was saved.
    pub fn new() -> (tree: Self)
        ensures
            tree.root().children is Some,
            built_from_table(tree.root()),
    {
        let mut tree = CommandTree(CommandTreeNode::new_children());
        let ghost root = tree.0;
        let part = bindings_part_1();
        let ghost e = entries_view(part@);
        tree.add_children(part);
        let ghost mut all_states = choose|s: Seq<CommandTreeNode>|
            s[0] == root && s.last() == tree.0 && adds_in_turn(s, e);
        let ghost mut all_entries = e;
        let ghost mut table = table_part_1();
        let ghost before = tree.0;
        let part = bindings_part_2();
        let ghost e = entries_view(part@);
        tree.add_children(part);
        proof {
            let s = choose|s: Seq<CommandTreeNode>| s[0] == before && s.last() == tree.0 && adds_in_turn(s, e);
            lemma_adds_in_turn_concat(all_states, all_entries, s, e);
            lemma_entries_fit_concat(all_entries, table, e, table_part_2());
            all_states = all_states + s.drop_first();
            all_entries = all_entries + e;
            table = table + table_part_2();
        }
        let ghost before = tree.0;
        let part = bindings_part_3();
        let ghost e = entries_view(part@);
        tree.add_children(part);
        proof {
            let s = choose|s: Seq<CommandTreeNode>| s[0] == before && s.last() == tree.0 && adds_in_turn(s, e);
            lemma_adds_in_turn_concat(all_states, all_entries, s, e);
            lemma_entries_fit_concat(all_entries, table, e, table_part_3());
            all_states = all_states + s.drop_first();
            all_entries = all_entries + e;
            table = table + table_part_3();
        }
        let ghost before = tree.0;
        let part = bindings_part_4();
        let ghost e = entries_view(part@);
        tree.add_children(part);
        proof {
            let s = choose|s: Seq<CommandTreeNode>| s[0] == before && s.last() == tree.0 && adds_in_turn(s, e);
            lemma_adds_in_turn_concat(all_states, all_entries, s, e);
            lemma_entries_fit_concat(all_entries, table, e, table_part_4());
            all_states = all_states + s.drop_first();
            all_entries = all_entries + e;
            table = table + table_part_4();
        }
        let ghost before = tree.0;
        let part = bindings_part_5();
        let ghost e = entries_view(part@);
        tree.add_children(part);
        proof {
            let s = choose|s: Seq<CommandTreeNode>| s[0] == before && s.last() == tree.0 && adds_in_turn(s, e);
            lemma_adds_in_turn_concat(all_states, all_entries, s, e);
            lemma_entries_fit_concat(all_entries, table, e, table_part_5());
            all_states = all_states + s.drop_first();
            all_entries = all_entries + e;
            table = table + table_part_5();
        }
        let ghost before = tree.0;
        let part = bindings_part_6();
        let ghost e = entries_view(part@);
        tree.add_children(part);
        proof {
            let s = choose|s: Seq<CommandTreeNode>| s[0] == before && s.last() == tree.0 && adds_in_turn(s, e);
            lemma_adds_in_turn_concat(all_states, all_entries, s, e);
            lemma_entries_fit_concat(all_entries, table, e, table_part_6());
            all_states = all_states + s.drop_first();
            all_entries = all_entries + e;
            table = table + table_part_6();
        }
        let ghost before = tree.0;
        let part = bindings_part_7();
        let ghost e = entries_view(part@);
        tree.add_children(part);
        proof {
            let s = choose|s: Seq<CommandTreeNode>| s[0] == before && s.last() == tree.0 && adds_in_turn(s, e);
            lemma_adds_in_turn_concat(all_states, all_entries, s, e);
            lemma_entries_fit_concat(all_entries, table, e, table_part_7());
            all_states = all_states + s.drop_first();
            all_entries = all_entries + e;
            table = table + table_part_7();
        }
        let ghost before = tree.0;
        let part = bindings_part_8();
        let ghost e = entries_view(part@);
        tree.add_children(part);
        proof {
            let s = choose|s: Seq<CommandTreeNode>| s[0] == before && s.last() == tree.0 && adds_in_turn(s, e);
            lemma_adds_in_turn_concat(all_states, all_entries, s, e);
            lemma_entries_fit_concat(all_entries, table, e, table_part_8());
            all_states = all_states + s.drop_first();
            all_entries = all_entries + e;
            table = table + table_part_8();
        }
        let ghost before = tree.0;
        let part = bindings_part_9();
        let ghost e = entries_view(part@);
        tree.add_children(part);
        proof {
            let s = choose|s: Seq<CommandTreeNode>| s[0] == before && s.last() == tree.0 && adds_in_turn(s, e);
            lemma_adds_in_turn_concat(all_states, all_entries, s, e);
            lemma_entries_fit_concat(all_entries, table, e, table_part_9());
            all_states = all_states + s.drop_first();
            all_entries = all_entries + e;
            table = table + table_part_9();
        }
        let ghost before = tree.0;
        let part = bindings_part_10();
        let ghost e = entries_view(part@);
        tree.add_children(part);
        proof {
            let s = choose|s: Seq<CommandTreeNode>| s[0] == before && s.last() == tree.0 && adds_in_turn(s, e);
            lemma_adds_in_turn_concat(all_states, all_entries, s, e);
            lemma_entries_fit_concat(all_entries, table, e, table_part_10());
            all_states = all_states + s.drop_first();
            all_entries = all_entries + e;
            table = table + table_part_10();
        }
        let ghost before = tree.0;
        let part = bindings_part_11();
        let ghost e = entries_view(part@);
        tree.add_children(part);
        proof {
            let s = choose|s: Seq<CommandTreeNode>| s[0] == before && s.last() == tree.0 && adds_in_turn(s, e);
            lemma_adds_in_turn_concat(all_states, all_entries, s, e);
            lemma_entries_fit_concat(all_entries, table, e, table_part_11());
            all_states = all_states + s.drop_first();
            all_entries = all_entries + e;
            table = table + table_part_11();
        }
        let ghost before = tree.0;
        let part = bindings_part_12();
        let ghost e = entries_view(part@);
        tree.add_children(part);
        proof {
            let s = choose|s: Seq<CommandTreeNode>| s[0] == before && s.last() == tree.0 && adds_in_turn(s, e);
            lemma_adds_in_turn_concat(all_states, all_entries, s, e);
            lemma_entries_fit_concat(all_entries, table, e, table_part_12());
            all_states = all_states + s.drop_first();
            all_entries = all_entries + e;
            table = table + table_part_12();
        }
        assert(table == binding_table());
        tree
    }

    /// The help of the whole tree: the groups of the keys at the root, each
    /// sorted, then the navigation and general keys.
    pub fn get_help(&self) -> (lines: Vec<StyledLine>)
        requires
            self.root().children is Some,
        ensures
            lines_view(lines@) == rendered_help(
                insert_group(
                    insert_group(
                        sorted_help(self.root().children->0.help_view()),
                        "Navigation"@,
                        navigation_help(),
                    ),
                    "General"@,
                    general_help(),
                ),
            ),
    {
        let mut entries = match &self.0.children {
            Some(children) => children.get_help_entries(),
            None => help_new(),
        };
        let nav = navigation_help_entries();
        let general = general_help_entries();
        help_insert(&mut entries, String::from_str("Navigation"), nav);
        help_insert(&mut entries, String::from_str("General"), general);
        proof {
            lemma_inserted_group_has_entries(
                insert_group(
                    sorted_help(self.root().children->0.help_view()),
                    "Navigation"@,
                    navigation_help(),
                ),
                "General"@,
                general_help(),
            );
        }
        render_help_text(entries)
    }
}

/// The help of the navigation keys.
pub open spec fn navigation_help() -> Seq<(Seq<char>, Seq<char>)> {
    seq![
        ("Tab "@, "Toggle folding"@),
        ("PgDn"@, "Move down page"@),
        ("PgUp"@, "Move up page"@),
        ("j/↓ "@, "Move down"@),
        ("k/↑ "@, "Move up"@),
        ("l/→ "@, "Next sibling"@),
        ("h/← "@, "Prev sibling"@),
        ("K"@, "Select parent"@),
        ("@"@, "Select @ change"@),
    ]
}

/// The help of the general keys.
pub open spec fn general_help() -> Seq<(Seq<char>, Seq<char>)> {
    seq![
        ("Spc/Bksp"@, "Refresh log tree"@),
        ("Esc"@, "Clear app state"@),
        ("I"@, "Toggle --ignore-immutable"@),
        ("?"@, "Show help"@),
        ("q"@, "Quit"@),
    ]
}

/// Appends the pair `key`, `help` to `entries`.
fn push_entry(entries: &mut Vec<(String, String)>, key: &str, help: &str)
    ensures
        final(entries).deep_view() == old(entries).deep_view().push((key@, help@)),
{
    entries.push((String::from_str(key), String::from_str(help)));
    assert(entries.deep_view() =~= old(entries).deep_view().push((key@, help@)));
}

/// The help of the navigation keys.
fn navigation_help_entries() -> (e: Vec<(String, String)>)
    ensures
        e.deep_view() == navigation_help(),
{
    let mut e: Vec<(String, String)> = Vec::new();
    push_entry(&mut e, "Tab ", "Toggle folding");
    push_entry(&mut e, "PgDn", "Move down page");
    push_entry(&mut e, "PgUp", "Move up page");
    push_entry(&mut e, "j/↓ ", "Move down");
    push_entry(&mut e, "k/↑ ", "Move up");
    push_entry(&mut e, "l/→ ", "Next sibling");
    push_entry(&mut e, "h/← ", "Prev sibling");
    push_entry(&mut e, "K", "Select parent");
    push_entry(&mut e, "@", "Select @ change");
    assert(e.deep_view() =~= navigation_help());
    e
}

/// The help of the general keys.
fn general_help_entries() -> (e: Vec<(String, String)>)
    ensures
        e.deep_view() == general_help(),
{
    let mut e: Vec<(String, String)> = Vec::new();
    push_entry(&mut e, "Spc/Bksp", "Refresh log tree");
    push_entry(&mut e, "Esc", "Clear app state");
    push_entry(&mut e, "I", "Toggle --ignore-immutable");
    push_entry(&mut e, "?", "Show help");
    push_entry(&mut e, "q", "Quit");
    assert(e.deep_view() =~= general_help());
    e
}

/// A group with entries gives at least one column.
proof fn lemma_group_gives_column(groups: Seq<(Seq<char>, Seq<(Seq<char>, Seq<char>)>)>, i: int)
    requires
        0 <= i < groups.len(),
        groups[i].1.len() > 0,
    ensures
        has_entries(groups),
    decreases groups.len(),
{
    help_columns(groups).lemma_flatten_and_flatten_alt_are_equivalent();
    if i == groups.len() - 1 {
        let cols = help_columns(groups);
        assert(cols.last().len() > 0);
        cols.lemma_flatten_length_ge_single_element_length(cols.len() - 1);
    } else {
        lemma_group_gives_column(groups.drop_last(), i);
        help_columns(groups.drop_last()).lemma_flatten_and_flatten_alt_are_equivalent();
        let cols = help_columns(groups);
        assert(cols.drop_last() == help_columns(groups.drop_last()));
        assert(cols.flatten_alt() == cols.drop_last().flatten_alt() + cols.last());
    }
}

/// Groups without entries give no column.
proof fn lemma_empty_groups_give_no_column(groups: Seq<(Seq<char>, Seq<(Seq<char>, Seq<char>)>)>)
    requires
        forall|i: int| 0 <= i < groups.len() ==> (#[trigger] groups[i]).1.len() == 0,
    ensures
        !has_entries(groups),
    decreases groups.len(),
{
    if groups.len() > 0 {
        lemma_empty_groups_give_no_column(groups.drop_last());
        let cols = help_columns(groups);
        assert(cols.drop_last() == help_columns(groups.drop_last()));
        assert(cols.last().len() == 0);
        assert(cols.flatten_alt() =~= cols.drop_last().flatten_alt() + cols.last());
    }
}

/// Whether some group of `h` has an entry.
fn has_any_entry(h: &HelpEntries) -> (b: bool)
    ensures
        b == has_entries(help_groups(*h)),
{
    let n = help_len(h);
    for i in 0..n
        invariant
            n == help_groups(*h).len(),
            forall|k: int| 0 <= k < i ==> (#[trigger] help_groups(*h)[k]).1.len() == 0,
    {
        match help_get_index(h, i) {
            Some((_, entries)) => {
                if entries.len() > 0 {
                    proof {
                        lemma_group_gives_column(help_groups(*h), i as int);
                    }
                    return true;
                }
            },
            None => {},
        }
    }
    proof {
        lemma_empty_groups_give_no_column(help_groups(*h));
    }
    false
}

/// Inserting a group with entries leaves something to lay out.
proof fn lemma_inserted_group_has_entries(
    groups: Seq<(Seq<char>, Seq<(Seq<char>, Seq<char>)>)>,
    name: Seq<char>,
    entries: Seq<(Seq<char>, Seq<char>)>,
)
    requires
        entries.len() > 0,
    ensures
        has_entries(insert_group(groups, name, entries)),
{
    let g = insert_group(groups, name, entries);
    let i = group_position(groups, name);
    if i < groups.len() {
        lemma_group_gives_column(g, i as int);
    } else {
        lemma_group_gives_column(g, groups.len() as int);
    }
}


/// The node `key` leads to among `nodes` is the node of its first binding.
proof fn lemma_lookup_at_binding_index(nodes: Seq<(Key, CommandTreeNode)>, key: Key)
    ensures
        match binding_index(nodes, key) {
            Some(i) => 0 <= i < nodes.len() && nodes[i].0 == key && lookup(nodes, key) == Some(nodes[i].1),
            None => lookup(nodes, key) is None,
        },
    decreases nodes.len(),
{
    if nodes.len() > 0 && nodes[0].0 != key {
        lemma_lookup_at_binding_index(nodes.drop_first(), key);
        match binding_index(nodes.drop_first(), key) {
            Some(i) => {
                assert(nodes.drop_first()[i] == nodes[i + 1]);
            },
            None => {},
        }
    }
}

/// Bindings with the same keys, position by position, find a key at the same
/// position.
proof fn lemma_binding_index_same_keys(a: Seq<(Key, CommandTreeNode)>, b: Seq<(Key, CommandTreeNode)>, key: Key)
    requires
        a.len() == b.len(),
        forall|j: int| 0 <= j < a.len() ==> (#[trigger] a[j]).0 == b[j].0,
    ensures
        binding_index(a, key) == binding_index(b, key),
    decreases a.len(),
{
    if a.len() > 0 {
        assert(a[0].0 == b[0].0);
        assert forall|j: int| 0 <= j < a.drop_first().len() implies (#[trigger] a.drop_first()[j]).0
            == b.drop_first()[j].0 by {
            assert(a.drop_first()[j] == a[j + 1]);
            assert(b.drop_first()[j] == b[j + 1]);
            assert(a[j + 1].0 == b[j + 1].0);
        }
        lemma_binding_index_same_keys(a.drop_first(), b.drop_first(), key);
    }
}

/// A node with children reached by `path` gets the new node under `key`.
proof fn lemma_added_below_adds(
    old: CommandTreeNode,
    new: CommandTreeNode,
    path: Seq<Key>,
    key: Key,
    child: CommandTreeNode,
    group: Seq<char>,
    help: Seq<char>,
)
    requires
        added_below(old, new, path, key, child, group, help),
        node_at(old, path) matches Some(n) && n.children is Some,
    ensures
        node_at(new, path.push(key)) == Some(child),
    decreases path.len(),
{
    let c = old.children->0;
    if path.len() == 0 {
        assert(old.children is Some);
        lemma_lookup_bind(c.nodes@, key, child, key);
        let p = path.push(key);
        assert(p.drop_first() =~= Seq::<Key>::empty());
        assert(p[0] == key);
        assert(lookup(new.children->0.nodes@, key) == Some(child));
        assert(node_at(child, p.drop_first()) == Some(child));
    } else {
        assert(old.children is Some);
        lemma_lookup_at_binding_index(c.nodes@, path[0]);
        let i = binding_index(c.nodes@, path[0])->0;
        let c2 = new.children->0;
        let sub = c.nodes@[i].1;
        let sub2 = c2.nodes@[i].1;
        assert(lookup(c.nodes@, path[0]) == Some(sub));
        assert(node_at(old, path) == node_at(sub, path.drop_first()));
        lemma_added_below_adds(sub, sub2, path.drop_first(), key, child, group, help);
        assert forall|j: int| 0 <= j < c.nodes@.len() implies (#[trigger] c.nodes@[j]).0 == c2.nodes@[j].0 by {
            if j != i {
                assert(c2.nodes@[j] == c.nodes@[j]);
            }
        }
        lemma_binding_index_same_keys(c.nodes@, c2.nodes@, path[0]);
        lemma_lookup_at_binding_index(c2.nodes@, path[0]);
        let p = path.push(key);
        assert(p[0] == path[0]);
        assert(p.drop_first() =~= path.drop_first().push(key));
        assert(lookup(c2.nodes@, path[0]) == Some(sub2));
        assert(node_at(new, p) == node_at(sub2, p.drop_first()));
    }
}

/// A key sequence that does not pass through the new key reaches a node
/// after the addition exactly where it did before, with the same action.
proof fn lemma_added_below_keeps(
    old: CommandTreeNode,
    new: CommandTreeNode,
    path: Seq<Key>,
    key: Key,
    child: CommandTreeNode,
    group: Seq<char>,
    help: Seq<char>,
    p: Seq<Key>,
)
    requires
        added_below(old, new, path, key, child, group, help),
        !(path.len() < p.len() && p.take(path.len() + 1int) == path.push(key)),
    ensures
        node_at(new, p) is Some == node_at(old, p) is Some,
        node_at(new, p) is Some ==> node_at(new, p)->0.action == node_at(old, p)->0.action,
        node_at(new, p) is Some ==> (node_at(new, p)->0.children is Some <==> node_at(
            old,
            p,
        )->0.children is Some),
    decreases p.len(),
{
    if p.len() == 0 || old.children is None {
    } else {
        let c = old.children->0;
        let c2 = new.children->0;
        if path.len() == 0 {
            assert(p.take(1) =~= seq![p[0]]);
            assert(seq![key] =~= path.push(key));
            assert(p[0] != key);
            lemma_lookup_bind(c.nodes@, key, child, p[0]);
        } else {
            match binding_index(c.nodes@, path[0]) {
                None => {},
                Some(i) => {
                    lemma_lookup_at_binding_index(c.nodes@, path[0]);
                    assert forall|j: int| 0 <= j < c.nodes@.len() implies (#[trigger] c.nodes@[j]).0 == c2.nodes@[j].0 by {
                        if j != i {
                            assert(c2.nodes@[j] == c.nodes@[j]);
                        }
                    }
                    lemma_binding_index_same_keys(c.nodes@, c2.nodes@, p[0]);
                    lemma_lookup_at_binding_index(c.nodes@, p[0]);
                    lemma_lookup_at_binding_index(c2.nodes@, p[0]);
                    if p[0] == path[0] {
                        let rest = p.drop_first();
                        if path.drop_first().len() < rest.len() && rest.take(path.drop_first().len() + 1int)
                            == path.drop_first().push(key) {
                            assert(p.take(path.len() + 1int) =~= seq![p[0]] + rest.take(path.drop_first().len() + 1int));
                            assert(path.push(key) =~= seq![path[0]] + path.drop_first().push(key));
                        }
                        lemma_added_below_keeps(
                            c.nodes@[i].1,
                            c2.nodes@[i].1,
                            path.drop_first(),
                            key,
                            child,
                            group,
                            help,
                            rest,
                        );
                    } else {
                        let k = binding_index(c.nodes@, p[0]);
                        if k is Some {
                            assert(k->0 != i);
                            assert(c2.nodes@[k->0] == c.nodes@[k->0]);
                        }
                    }
                },
            }
        }
    }
}

/// Adding a node under `key` below the node that `path` reaches, where that
/// node has children, makes `path` with `key` reach the new node; every other
/// key sequence that does not pass through the new key reaches a node after
/// the addition exactly where it did before, with the same action.
pub proof fn lemma_added_below_reaches(
    old: CommandTreeNode,
    new: CommandTreeNode,
    path: Seq<Key>,
    key: Key,
    child: CommandTreeNode,
    group: Seq<char>,
    help: Seq<char>,
    other: Seq<Key>,
)
    requires
        added_below(old, new, path, key, child, group, help),
    ensures
        (node_at(old, path) matches Some(n) && n.children is Some) ==> node_at(new, path.push(key)) == Some(child),
        !(path.len() < other.len() && other.take(path.len() + 1int) == path.push(key)) ==> {
            &&& node_at(new, other) is Some == node_at(old, other) is Some
            &&& node_at(new, other) is Some ==> node_at(new, other)->0.action == node_at(old, other)->0.action
        },
{
    if node_at(old, path) matches Some(n) && n.children is Some {
        lemma_added_below_adds(old, new, path, key, child, group, help);
    }
    if !(path.len() < other.len() && other.take(path.len() + 1int) == path.push(key)) {
        lemma_added_below_keeps(old, new, path, key, child, group, help, other);
    }
}

/// `a` is the first keys of `b`, or `b` itself.
pub open spec fn is_key_prefix(a: Seq<Key>, b: Seq<Key>) -> bool {
    a.len() <= b.len() && b.take(a.len() as int) == a
}

/// The entries of a binding table are in an order that building a tree from
/// them keeps: each has keys; each below the root comes after a group entry
/// for the keys before its last; and no entry has the keys of an earlier one,
/// or the first keys of them.
pub open spec fn table_in_order(entries: Seq<(Seq<char>, Seq<char>, Seq<Key>, CommandTreeNode)>) -> bool {
    &&& forall|k: int| 0 <= k < entries.len() ==> (#[trigger] entries[k]).2.len() > 0
    &&& forall|k: int|
        0 <= k < entries.len() && (#[trigger] entries[k]).2.len() > 1 ==> exists|i: int|
            0 <= i < k && (#[trigger] entries[i]).2 == entries[k].2.drop_last() && entries[i].3.children is Some
    &&& forall|k: int, j: int|
        0 <= k < j < entries.len() ==> !is_key_prefix(#[trigger] entries[j].2, #[trigger] entries[k].2)
}

/// The keys of entry `e` lead from `root` to a node with the action of the
/// entry's node, which has children exactly where the entry's node has.
pub open spec fn reaches_entry(root: CommandTreeNode, e: (Seq<char>, Seq<char>, Seq<Key>, CommandTreeNode)) -> bool {
    node_at(root, e.2) matches Some(n) && n.action == e.3.action && (n.children is Some <==> e.3.children is Some)
}

/// After the first `t` entries, the root still has children and the keys of
/// each of them reach it.
proof fn lemma_built_in_turn(
    states: Seq<CommandTreeNode>,
    entries: Seq<(Seq<char>, Seq<char>, Seq<Key>, CommandTreeNode)>,
    t: int,
)
    requires
        states[0].children is Some,
        adds_in_turn(states, entries),
        table_in_order(entries),
        0 <= t <= entries.len(),
    ensures
        states[t].children is Some,
        forall|k: int| 0 <= k < t ==> reaches_entry(states[t], #[trigger] entries[k]),
    decreases t,
{
    if t > 0 {
        let s = t - 1;
        lemma_built_in_turn(states, entries, s);
        let e = entries[s];
        assert(entry_added(states[s], states[t], e));
        let path = e.2.drop_last();
        let key = e.2.last();
        assert(path.push(key) =~= e.2);
        assert(added_below(states[s], states[t], path, key, e.3, e.0, e.1));
        // The root keeps its children.
        lemma_added_below_keeps(states[s], states[t], path, key, e.3, e.0, e.1, Seq::empty());
        assert(node_at(states[s], Seq::empty()) == Some(states[s]));
        assert(node_at(states[t], Seq::empty()) == Some(states[t]));
        // The node that the entry is added below has children.
        if path.len() == 0 {
            assert(node_at(states[s], path) == Some(states[s]));
        } else {
            assert(e.2.len() > 1);
            let i = choose|i: int| 0 <= i < s && (#[trigger] entries[i]).2 == e.2.drop_last() && entries[i].3.children is Some;
            assert(reaches_entry(states[s], entries[i]));
        }
        lemma_added_below_adds(states[s], states[t], path, key, e.3, e.0, e.1);
        assert forall|k: int| 0 <= k < t implies reaches_entry(states[t], #[trigger] entries[k]) by {
            if k < s {
                assert(reaches_entry(states[s], entries[k]));
                let other = entries[k].2;
                assert(!is_key_prefix(entries[s].2, entries[k].2));
                if path.len() < other.len() && other.take(path.len() + 1int) == path.push(key) {
                    assert(is_key_prefix(e.2, other));
                }
                lemma_added_below_keeps(states[s], states[t], path, key, e.3, e.0, e.1, other);
            }
        }
    }
}

/// A tree built from a root with children by adding the entries of a table
/// in order, where the table is in order, leads by the keys of each entry to
/// a node with the action of the entry's node.
pub proof fn lemma_table_keys_reach_their_actions(
    states: Seq<CommandTreeNode>,
    entries: Seq<(Seq<char>, Seq<char>, Seq<Key>, CommandTreeNode)>,
    k: int,
)
    requires
        states[0].children is Some,
        adds_in_turn(states, entries),
        table_in_order(entries),
        0 <= k < entries.len(),
    ensures
        node_at(states.last(), entries[k].2) matches Some(n) && n.action == entries[k].3.action,
{
    lemma_built_in_turn(states, entries, entries.len() as int);
    assert(states.last() == states[entries.len() as int]);
    assert(reaches_entry(states[entries.len() as int], entries[k]));
}

/// The action that a node of `kind` sends.
pub open spec fn kind_action(kind: NodeKind) -> Option<Message> {
    match kind {
        NodeKind::Group => None,
        NodeKind::Action(m) => Some(m),
        NodeKind::ActionGroup(m) => Some(m),
    }
}

/// The key sequences of `table` are in an order that building a tree keeps:
/// each has keys; each below the root comes after an entry with children for
/// the keys before its last; and no entry has the keys of an earlier one, or
/// the first keys of them.
pub open spec fn keys_in_order(table: Seq<TableEntry>) -> bool {
    &&& forall|k: int| 0 <= k < table.len() ==> (#[trigger] table[k]).keys.len() > 0
    &&& forall|k: int|
        0 <= k < table.len() && (#[trigger] table[k]).keys.len() > 1 ==> exists|i: int|
            0 <= i < k && (#[trigger] table[i]).keys == table[k].keys.drop_last() && !(table[i].kind is Action)
    &&& forall|k: int, j: int|
        0 <= k < j < table.len() ==> !is_key_prefix(#[trigger] table[j].keys, #[trigger] table[k].keys)
}

/// In the tree built from the binding table, the keys of each entry lead to
/// a node that sends the entry's action.
pub proof fn lemma_built_tree_reaches_table(root: CommandTreeNode, k: int)
    requires
        built_from_table(root),
        0 <= k < binding_table().len(),
    ensures
        node_at(root, binding_table()[k].keys) matches Some(n) && n.action == kind_action(binding_table()[k].kind),
{
    crate::binding_order::lemma_binding_table_in_order();
    let table = binding_table();
    let (states, entries) = choose|
        states: Seq<CommandTreeNode>,
        entries: Seq<(Seq<char>, Seq<char>, Seq<Key>, CommandTreeNode)>,
    |
        fresh_node(states[0], NodeKind::Group) && states.last() == root && entries_fit(entries, table)
            && adds_in_turn(states, entries);
    assert forall|j: int| 0 <= j < entries.len() implies ((#[trigger] entries[j]).2 == table[j].keys && (
    entries[j].3.children is Some <==> !(table[j].kind is Action)) && entries[j].3.action == kind_action(
        table[j].kind,
    )) by {
        assert(entries[j].2 =~= table[j].keys);
    }
    assert(table_in_order(entries)) by {
        assert forall|j: int| 0 <= j < entries.len() && (#[trigger] entries[j]).2.len() > 1 implies exists|i: int|
            0 <= i < j && (#[trigger] entries[i]).2 == entries[j].2.drop_last() && entries[i].3.children is Some by {
            assert(table[j].keys.len() > 1);
            let i = choose|i: int| 0 <= i < j && (#[trigger] table[i]).keys == table[j].keys.drop_last() && !(table[i].kind is Action);
            assert(entries[i].2 == table[i].keys);
        }
        assert forall|a: int, b: int| 0 <= a < b < entries.len() implies !is_key_prefix(
            #[trigger] entries[b].2,
            #[trigger] entries[a].2,
        ) by {
            assert(!is_key_prefix(table[b].keys, table[a].keys));
            assert(entries[a].2 == table[a].keys);
            assert(entries[b].2 == table[b].keys);
        }
        assert forall|j: int| 0 <= j < entries.len() implies (#[trigger] entries[j]).2.len() > 0 by {
            assert(table[j].keys.len() > 0);
            assert(entries[j].2 == table[j].keys);
        }
    }
    lemma_table_keys_reach_their_actions(states, entries, k);
    assert(entries[k].2 == table[k].keys);
}

/// The empty key sequence reaches the node itself; a key sequence with one
/// more key reaches, among the children of the node that the sequence
/// reaches, the one that the key leads to.
pub proof fn lemma_node_at_push(root: CommandTreeNode, keys: Seq<Key>, key: Key)
    ensures
        node_at(root, Seq::empty()) == Some(root),
        node_at(root, keys.push(key)) == match node_at(root, keys) {
            Some(n) => match n.children {
                Some(c) => lookup(c.bindings(), key),
                None => None,
            },
            None => None,
        },
    decreases keys.len(),
{
    let p = keys.push(key);
    if keys.len() == 0 {
        assert(p.drop_first() =~= Seq::<Key>::empty());
        assert(p[0] == key);
        match root.children {
            Some(c) => match lookup(c.nodes@, key) {
                Some(child) => assert(node_at(child, p.drop_first()) == Some(child)),
                None => {},
            },
            None => {},
        }
    } else {
        assert(p[0] == keys[0]);
        assert(p.drop_first() =~= keys.drop_first().push(key));
        match root.children {
            Some(c) => match lookup(c.nodes@, keys[0]) {
                Some(child) => lemma_node_at_push(child, keys.drop_first(), key),
                None => {},
            },
            None => {},
        }
    }
}

/// A key sequence that reaches no node cannot be continued to reach one.
pub proof fn lemma_node_at_none_extends(root: CommandTreeNode, keys: Seq<Key>, more: Seq<Key>)
    requires
        node_at(root, keys) is None,
    ensures
        node_at(root, keys + more) is None,
    decreases more.len(),
{
    if more.len() > 0 {
        lemma_node_at_none_extends(root, keys, more.drop_last());
        assert(keys + more =~= (keys + more.drop_last()).push(more.last()));
        lemma_node_at_push(root, keys + more.drop_last(), more.last());
    } else {
        assert(keys + more =~= keys);
    }
}

} // verus!
