//! How the mounted filesystem answers the kernel: which inode stands for
//! which path, what a lookup, an attribute request, a directory listing, an
//! open and a read give.
use vstd::prelude::*;
use crate::storage::FileMapping;
use crate::tree::{
    context_for,
    count_contexts,
    find_mapping_index,
    is_proper_prefix,
    same_components,
    context_of,
    file_for,
    file_of,
    find_mapping,
    kind_of,
    mapped,
    node_kind,
    proper_prefix,
    split_path,
    string_of,
    tail_from,
    views,
    virtual_part,
    NodeKind,
};

verus! {

/// The inode of the root directory.
pub const ROOT_INODE: u64 = 1;

/// The most nodes besides the root that are given an inode.
pub const MAX_NODES: usize = 0xffff_fff0;

/// The paths of the inode table: entry `k` is the path of inode `k + 2`.
pub open spec fn paths(nodes: Seq<Vec<String>>) -> Seq<Seq<Seq<char>>> {
    nodes.map_values(|v: Vec<String>| views(v@))
}

/// The path of an inode: the root for inode 1, else the table's entry.
pub open spec fn node_at(t: Seq<Seq<Seq<char>>>, ino: u64) -> Option<Seq<Seq<char>>> {
    if ino == ROOT_INODE {
        Some(Seq::empty())
    } else if 2 <= ino && ino - 2 < t.len() {
        Some(t[ino - 2])
    } else {
        None
    }
}

/// The first entry at or after `i` that holds path `c`.
pub open spec fn index_from(t: Seq<Seq<Seq<char>>>, c: Seq<Seq<char>>, i: int) -> Option<int>
    decreases t.len() - i,
{
    if i < 0 || i >= t.len() {
        None
    } else if t[i] == c {
        Some(i)
    } else {
        index_from(t, c, i + 1)
    }
}

/// The inode a path has been given, if any.
pub open spec fn inode_of(t: Seq<Seq<Seq<char>>>, c: Seq<Seq<char>>) -> Option<u64> {
    if c.len() == 0 {
        Some(ROOT_INODE)
    } else {
        match index_from(t, c, 0) {
            Some(k) => Some((k + 2) as u64),
            None => None,
        }
    }
}

/// The names directly below `rest`, in the order in which the first
/// `n` mappings reach them, each once.
pub open spec fn children_upto(ms: Seq<FileMapping>, rest: Seq<Seq<char>>, n: int) -> Seq<Seq<char>>
    decreases n,
{
    if n <= 0 {
        Seq::empty()
    } else {
        let prev = children_upto(ms, rest, n - 1);
        let m = mapped(ms[n - 1]);
        if proper_prefix(rest, m) && !prev.contains(m[rest.len() as int]) {
            prev.push(m[rest.len() as int])
        } else {
            prev
        }
    }
}

/// The names directly below `rest`, in mapping order, each once.
pub open spec fn children(ms: Seq<FileMapping>, rest: Seq<Seq<char>>) -> Seq<Seq<char>> {
    children_upto(ms, rest, ms.len() as int)
}

/// A name below `rest` is a file where a mapping ends there, else a
/// directory.
pub open spec fn child_kind(ms: Seq<FileMapping>, rest: Seq<Seq<char>>, name: Seq<char>) -> NodeKind {
    if find_mapping(ms, rest.push(name), 0) is Some {
        NodeKind::File
    } else {
        NodeKind::Directory
    }
}

/// `data[offset .. offset + size]`, cut at the end of `data`.
pub open spec fn slice_of(data: Seq<u8>, offset: int, size: int) -> Seq<u8> {
    let start = if offset < data.len() {
        offset
    } else {
        data.len() as int
    };
    let end = if offset + size < data.len() {
        offset + size
    } else {
        data.len() as int
    };
    data.subrange(start, end)
}

proof fn lemma_index_from_found(t: Seq<Seq<Seq<char>>>, c: Seq<Seq<char>>, i: int)
    ensures
        index_from(t, c, i) matches Some(k) ==> 0 <= i <= k < t.len() && t[k] == c,
        0 <= i < t.len() && t.last() == c ==> index_from(t, c, i) is Some,
    decreases t.len() - i,
{
    if 0 <= i < t.len() && t[i] != c {
        lemma_index_from_found(t, c, i + 1);
    }
}

/// An inode stands for one path: the inode a path has been given leads
/// back to that path, and a path added to the table is given an inode.
pub proof fn lemma_inode_names_its_path(t: Seq<Seq<Seq<char>>>, c: Seq<Seq<char>>)
    requires
        c.len() > 0,
        t.len() <= MAX_NODES,
    ensures
        inode_of(t, c) matches Some(ino) ==> node_at(t, ino) == Some(c),
        inode_of(t.push(c), c) is Some,
{
    lemma_index_from_found(t, c, 0);
    lemma_index_from_found(t.push(c), c, 0);
}

/// Every name a directory lists continues some mapping's virtual path:
/// that path has all of the directory's components as its leading
/// components, followed by the name.
pub proof fn lemma_listed_names_continue_a_mapping(
    ms: Seq<FileMapping>,
    rest: Seq<Seq<char>>,
    n: int,
    name: Seq<char>,
)
    requires
        0 <= n <= ms.len(),
        children_upto(ms, rest, n).contains(name),
    ensures
        exists|i: int|
            0 <= i < n && mapped(ms[i]).len() > rest.len() && (forall|k: int|
                0 <= k < rest.len() ==> #[trigger] mapped(ms[i])[k] == rest[k]) && mapped(
                ms[i],
            )[rest.len() as int] == name,
    decreases n,
{
    if n > 0 {
        let prev = children_upto(ms, rest, n - 1);
        let m = mapped(ms[n - 1]);
        if prev.contains(name) {
            lemma_listed_names_continue_a_mapping(ms, rest, n - 1, name);
        } else {
            assert(proper_prefix(rest, m) && !prev.contains(m[rest.len() as int]));
            assert(prev.push(m[rest.len() as int]).contains(name));
            let j = choose|j: int|
                0 <= j < prev.push(m[rest.len() as int]).len() && prev.push(
                    m[rest.len() as int],
                )[j] == name;
            if j < prev.len() {
                assert(prev[j] == name);
                assert(false);
            }
            assert forall|k: int| 0 <= k < rest.len() implies #[trigger] m[k] == rest[k] by {
                assert(m.take(rest.len() as int)[k] == m[k]);
            }
        }
    }
}

/// A path other than a context is a directory only where some mapping's
/// virtual path runs through it: the path's components are that mapping's
/// leading components, and the mapping goes on below them.
pub proof fn lemma_directories_lie_on_mappings(ms: Seq<FileMapping>, c: Seq<Seq<char>>)
    requires
        node_kind(ms, c) == Some(NodeKind::Directory),
        virtual_part(c).len() > 0,
    ensures
        exists|i: int|
            0 <= i < ms.len() && mapped(ms[i]).len() > virtual_part(c).len() && forall|k: int|
                0 <= k < virtual_part(c).len() ==> #[trigger] mapped(ms[i])[k] == virtual_part(
                    c,
                )[k],
{
    let rest = virtual_part(c);
    let i = choose|i: int| 0 <= i < ms.len() && proper_prefix(rest, #[trigger] mapped(ms[i]));
    assert forall|k: int| 0 <= k < rest.len() implies #[trigger] mapped(ms[i])[k] == rest[k] by {
        assert(mapped(ms[i]).take(rest.len() as int)[k] == mapped(ms[i])[k]);
    }
}

/// An entry of a directory listing.
#[derive(Debug)]
pub struct DirEntry {
    pub name: String,
    pub kind: NodeKind,
    /// The entry's inode where it has been given one.
    pub ino: Option<u64>,
}

/// What a read is to render: the mapping, the context and the label.
#[derive(Debug)]
pub struct ReadTarget {
    /// The position of the mapping in the list.
    pub mapping: usize,
    /// The context the path sets, as key/value pairs in order.
    pub context: Vec<(String, String)>,
    /// The label after `@`, where the path has one.
    pub label: Option<String>,
}

/// The context key under which a path's `@label` is handed to the
/// configuration provider.
pub const LABEL_KEY: &'static str = "context";

/// The context a read is evaluated in: the path's `key=value` settings in
/// order, then the label under `LABEL_KEY` where the path has one.
pub open spec fn evaluation_context_of(
    context: Seq<(Seq<char>, Seq<char>)>,
    label: Option<Seq<char>>,
) -> Seq<(Seq<char>, Seq<char>)> {
    match label {
        Some(l) => context.push((LABEL_KEY@, l)),
        None => context,
    }
}

/// A read is evaluated in the path's own context: its `key=value` pairs
/// come first, in their order, whatever the label; the label, where there
/// is one, adds exactly one pair after them, and without a label the pairs
/// are all there is.
pub proof fn lemma_evaluation_context_keeps_the_path_context(
    context: Seq<(Seq<char>, Seq<char>)>,
    label: Option<Seq<char>>,
)
    ensures
        evaluation_context_of(context, label).len() == context.len() + if label is Some {
            1int
        } else {
            0int
        },
        forall|i: int|
            0 <= i < context.len() ==> #[trigger] evaluation_context_of(context, label)[i]
                == context[i],
        label is None ==> evaluation_context_of(context, label) == context,
        label matches Some(l) ==> evaluation_context_of(context, label)[context.len() as int] == (
            LABEL_KEY@,
            l,
        ),
{
}

/// The context a read is evaluated in, as key/value pairs.
pub fn evaluation_context(target: &ReadTarget) -> (pairs: Vec<(String, String)>)
    ensures
        pairs@.map_values(|p: (String, String)| (p.0@, p.1@)) == evaluation_context_of(
            target.context@.map_values(|p: (String, String)| (p.0@, p.1@)),
            match target.label {
                Some(l) => Some(l@),
                None => None,
            },
        ),
{
    let mut pairs: Vec<(String, String)> = Vec::new();
    let mut i: usize = 0;
    while i < target.context.len()
        invariant
            i <= target.context@.len(),
            pairs@.map_values(|p: (String, String)| (p.0@, p.1@)) == target.context@.take(
                i as int,
            ).map_values(|p: (String, String)| (p.0@, p.1@)),
        decreases target.context.len() - i,
    {
        let ghost before = pairs@;
        let (k, v) = &target.context[i];
        pairs.push((k.clone(), v.clone()));
        assert(pairs@.map_values(|p: (String, String)| (p.0@, p.1@)) =~= before.map_values(
            |p: (String, String)| (p.0@, p.1@),
        ).push((k@, v@)));
        assert(target.context@.take(i + 1).map_values(|p: (String, String)| (p.0@, p.1@))
            =~= target.context@.take(i as int).map_values(|p: (String, String)| (p.0@, p.1@)).push(
            (k@, v@),
        ));
        i += 1;
    }
    assert(target.context@.take(target.context@.len() as int) =~= target.context@);
    if let Some(l) = &target.label {
        let ghost before = pairs@;
        pairs.push((LABEL_KEY.to_owned(), l.clone()));
        assert(pairs@.map_values(|p: (String, String)| (p.0@, p.1@)) =~= before.map_values(
            |p: (String, String)| (p.0@, p.1@),
        ).push((LABEL_KEY@, l@)));
    }
    pairs
}

/// The answer to an open.
#[derive(Debug, Clone, Copy, PartialEq, Eq, Structural)]
pub struct OpenReply {
    /// The file handle.
    pub handle: u64,
    /// Whether reads bypass the page cache.
    pub direct_io: bool,
}

/// The answer to opening any inode: handle 0, no open flags.
pub fn open_reply() -> (r: OpenReply)
    ensures
        r == (OpenReply { handle: 0, direct_io: false }),
{
    OpenReply { handle: 0, direct_io: false }
}

/// The inodes given out so far: entry `k` holds the path of inode `k + 2`.
pub struct FsTable {
    nodes: Vec<Vec<String>>,
}

impl View for FsTable {
    type V = Seq<Seq<Seq<char>>>;

    /// The paths of the table, in inode order.
    closed spec fn view(&self) -> Seq<Seq<Seq<char>>> {
        paths(self.nodes@)
    }
}

impl FsTable {
    /// The table holds at most `MAX_NODES` paths.
    #[verifier::type_invariant]
    spec fn bounded(self) -> bool {
        self.nodes@.len() <= MAX_NODES
    }

    /// An empty table: only the root has an inode.
    pub fn new() -> (t: Self)
        ensures
            t@ == Seq::<Seq<Seq<char>>>::empty(),
    {
        let t = FsTable { nodes: Vec::new() };
        assert(t@ =~= Seq::<Seq<Seq<char>>>::empty());
        t
    }

    /// The path of an inode.
    pub fn node(&self, ino: u64) -> (r: Option<Vec<String>>)
        ensures
            match node_at(self@, ino) {
                Some(c) => r matches Some(v) && views(v@) == c,
                None => r is None,
            },
    {
        if ino == ROOT_INODE {
            let v: Vec<String> = Vec::new();
            assert(views(v@) =~= Seq::<Seq<char>>::empty());
            return Some(v);
        }
        if ino < 2 || ino - 2 >= self.nodes.len() as u64 {
            return None;
        }
        let k = (ino - 2) as usize;
        let v = tail_from(&self.nodes[k], 0);
        assert(views(self.nodes@[k as int]@).skip(0) =~= views(self.nodes@[k as int]@));
        Some(v)
    }

    /// The inode a path has been given, if any.
    pub fn inode(&self, c: &Vec<String>) -> (r: Option<u64>)
        ensures
            r == inode_of(self@, views(c@)),
    {
        proof {
            use_type_invariant(self);
        }
        if c.len() == 0 {
            return Some(ROOT_INODE);
        }
        assert(views(c@).len() == c@.len());
        let ghost t = self@;
        let mut k: usize = 0;
        while k < self.nodes.len()
            invariant
                self.nodes@.len() <= MAX_NODES,
                t == self@,
                c@.len() > 0,
                k <= self.nodes@.len(),
                index_from(t, views(c@), 0) == index_from(t, views(c@), k as int),
            decreases self.nodes.len() - k,
        {
            if same_components(&self.nodes[k], c) {
                assert(t[k as int] == views(self.nodes@[k as int]@));
                assert(index_from(t, views(c@), k as int) == Some(k as int));
                assert(views(c@).len() == c@.len());
                assert(inode_of(t, views(c@)) == Some((k as int + 2) as u64));
                assert(k as u64 + 2 == (k as int + 2) as u64);
                return Some(k as u64 + 2);
            }
            k += 1;
        }
        None
    }

    /// Looks `name` up in directory `parent`. The path found is given an
    /// inode where it has none yet and the table has room.
    pub fn lookup(&mut self, ms: &Vec<FileMapping>, parent: u64, name: &str) -> (r: Option<
        (u64, NodeKind),
    >)
        ensures
            match node_at(old(self)@, parent) {
                None => r is None && final(self)@ == old(self)@,
                Some(p) => match node_kind(ms@, p.push(name@)) {
                    None => r is None && final(self)@ == old(self)@,
                    Some(kind) => match inode_of(old(self)@, p.push(name@)) {
                        Some(ino) => r == Some((ino, kind)) && final(self)@ == old(self)@,
                        None => if old(self)@.len() < MAX_NODES {
                            r == Some(((old(self)@.len() + 2) as u64, kind)) && final(self)@ == old(self)@.push(p.push(name@))
                        } else {
                            r is None && final(self)@ == old(self)@
                        },
                    },
                },
            },
    {
        proof {
            use_type_invariant(&*self);
        }
        let mut c = match self.node(parent) {
            Some(c) => c,
            None => return None,
        };
        let ghost p = views(c@);
        c.push(name.to_owned());
        assert(views(c@) =~= p.push(name@));
        let kind = match kind_of(ms, &c) {
            Some(kind) => kind,
            None => return None,
        };
        match self.inode(&c) {
            Some(ino) => Some((ino, kind)),
            None => {
                if self.nodes.len() >= MAX_NODES {
                    return None;
                }
                let ino = self.nodes.len() as u64 + 2;
                let mut nodes: Vec<Vec<String>> = Vec::new();
                std::mem::swap(&mut nodes, &mut self.nodes);
                let ghost before = nodes@;
                nodes.push(c);
                assert(paths(nodes@) =~= paths(before).push(p.push(name@)));
                self.nodes = nodes;
                Some((ino, kind))
            },
        }
    }

    /// What an inode is, for its attributes.
    pub fn kind(&self, ms: &Vec<FileMapping>, ino: u64) -> (r: Option<NodeKind>)
        ensures
            r == match node_at(self@, ino) {
                Some(c) => node_kind(ms@, c),
                None => None,
            },
    {
        match self.node(ino) {
            Some(c) => kind_of(ms, &c),
            None => None,
        }
    }

    /// The listing of a directory inode: each name directly below it, in
    /// mapping order, with its kind and its inode where it has one.
    pub fn readdir(&self, ms: &Vec<FileMapping>, ino: u64) -> (r: Option<Vec<DirEntry>>)
        ensures
            match node_at(self@, ino) {
                Some(c) => if node_kind(ms@, c) == Some(NodeKind::Directory) {
                    r matches Some(entries) && entries@.len() == children(
                        ms@,
                        virtual_part(c),
                    ).len() && forall|i: int|
                        0 <= i < entries@.len() ==> {
                            let name = children(ms@, virtual_part(c))[i];
                            &&& (#[trigger] entries@[i]).name@ == name
                            &&& entries@[i].kind == child_kind(ms@, virtual_part(c), name)
                            &&& entries@[i].ino == inode_of(self@, c.push(name))
                        }
                } else {
                    r is None
                },
                None => r is None,
            },
    {
        let c = match self.node(ino) {
            Some(c) => c,
            None => return None,
        };
        match kind_of(ms, &c) {
            Some(NodeKind::Directory) => {},
            _ => return None,
        }
        let rest = tail_from(&c, count_contexts(&c));
        let names = child_names(ms, &rest);
        let ghost cv = views(c@);
        let ghost rv = views(rest@);
        let mut entries: Vec<DirEntry> = Vec::new();
        let mut i: usize = 0;
        while i < names.len()
            invariant
                cv == views(c@),
                rv == views(rest@),
                rv == virtual_part(cv),
                views(names@) == children(ms@, rv),
                i <= names@.len(),
                entries@.len() == i,
                forall|j: int|
                    0 <= j < i ==> {
                        let name = children(ms@, rv)[j];
                        &&& (#[trigger] entries@[j]).name@ == name
                        &&& entries@[j].kind == child_kind(ms@, rv, name)
                        &&& entries@[j].ino == inode_of(self@, cv.push(name))
                    },
            decreases names.len() - i,
        {
            let mut below = tail_from(&rest, 0);
            assert(rv.skip(0) =~= rv);
            below.push(names[i].clone());
            assert(views(below@) =~= rv.push(names@[i as int]@));
            let kind = match find_mapping_index(ms, &below) {
                Some(_) => NodeKind::File,
                None => NodeKind::Directory,
            };
            let mut child = tail_from(&c, 0);
            assert(cv.skip(0) =~= cv);
            child.push(names[i].clone());
            assert(views(child@) =~= cv.push(names@[i as int]@));
            let ino = self.inode(&child);
            assert(views(names@)[i as int] == names@[i as int]@);
            entries.push(DirEntry { name: names[i].clone(), kind, ino });
            i += 1;
        }
        Some(entries)
    }

    /// What a read of an inode is to render: the mapping its path names,
    /// the context the path sets and its label.
    pub fn read_target(&self, ms: &Vec<FileMapping>, ino: u64) -> (r: Option<ReadTarget>)
        ensures
            match node_at(self@, ino) {
                Some(c) => match file_of(ms@, c) {
                    Some((i, label)) => r matches Some(t) && {
                        &&& t.mapping == i
                        &&& t.context@.map_values(|p: (String, String)| (p.0@, p.1@))
                            == context_of(c)
                        &&& match label {
                            Some(l) => t.label matches Some(s) && s@ == l,
                            None => t.label is None,
                        }
                    },
                    None => r is None,
                },
                None => r is None,
            },
    {
        let c = match self.node(ino) {
            Some(c) => c,
            None => return None,
        };
        match file_for(ms, &c) {
            Some((mapping, label)) => Some(ReadTarget { mapping, context: context_for(&c), label }),
            None => None,
        }
    }
}

/// Does `names` hold `name`?
fn holds(names: &Vec<String>, name: &String) -> (r: bool)
    ensures
        r == views(names@).contains(name@),
{
    let mut i: usize = 0;
    while i < names.len()
        invariant
            i <= names@.len(),
            forall|k: int| 0 <= k < i ==> names@[k]@ != name@,
        decreases names.len() - i,
    {
        if names[i] == *name {
            assert(views(names@)[i as int] == name@);
            return true;
        }
        i += 1;
    }
    assert(!views(names@).contains(name@)) by {
        if views(names@).contains(name@) {
            let k = choose|k: int| 0 <= k < views(names@).len() && views(names@)[k] == name@;
            assert(names@[k]@ == name@);
        }
    }
    false
}

/// The names directly below `rest`, in mapping order, each once.
fn child_names(ms: &Vec<FileMapping>, rest: &Vec<String>) -> (names: Vec<String>)
    ensures
        views(names@) == children(ms@, views(rest@)),
{
    let mut names: Vec<String> = Vec::new();
    let mut i: usize = 0;
    assert(views(names@) =~= children_upto(ms@, views(rest@), 0));
    while i < ms.len()
        invariant
            i <= ms@.len(),
            views(names@) == children_upto(ms@, views(rest@), i as int),
        decreases ms.len() - i,
    {
        let parts = split_path(ms[i].virtual_path.as_str());
        if is_proper_prefix(rest, &parts) {
            let next = parts[rest.len()].clone();
            assert(next@ == mapped(ms@[i as int])[views(rest@).len() as int]);
            if !holds(&names, &next) {
                let ghost before = names@;
                names.push(next);
                assert(views(names@) =~= views(before).push(next@));
            }
        }
        i += 1;
    }
    names
}

/// The bytes of a read: `data[offset .. offset + size]`, cut at the end of
/// `data`.
pub fn read_slice(data: &Vec<u8>, offset: u64, size: u32) -> (out: Vec<u8>)
    ensures
        out@ == slice_of(data@, offset as int, size as int),
{
    let len = data.len();
    let start: usize = if (offset as u128) < (len as u128) {
        offset as usize
    } else {
        len
    };
    let end: usize = if (offset as u128) + (size as u128) < (len as u128) {
        (offset as u128 + size as u128) as usize
    } else {
        len
    };
    let mut out: Vec<u8> = Vec::new();
    let mut i = start;
    while i < end
        invariant
            start <= i <= end,
            end <= data@.len(),
            out@ == data@.subrange(start as int, i as int),
        decreases end - i,
    {
        out.push(data[i]);
        assert(data@.subrange(start as int, i + 1) =~= data@.subrange(start as int, i as int).push(
            data@[i as int],
        ));
        i += 1;
    }
    out
}

} // verus!
