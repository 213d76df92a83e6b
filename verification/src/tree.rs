//! The tree that the mappings span: which paths of the mounted filesystem
//! are directories, which are mapped files, and under which context a file
//! is read.
//!
//! A path is a sequence of components. Leading components of the form
//! `key=value` set the context (`/env=prod/config/app.yaml`); the rest is a
//! virtual path. A last component `name@label` reads the mapped file `name`
//! with the label `label` (`/config/app.yaml@production`).
use vstd::prelude::*;
use crate::storage::FileMapping;
use crate::text::{char_vec, contains_text, occurs_in};

verus! {

/// The text of each string.
pub open spec fn views(v: Seq<String>) -> Seq<Seq<char>> {
    v.map_values(|s: String| s@)
}

// ---------------------------------------------------------------------
// Splitting a path into components
// ---------------------------------------------------------------------

/// Splits what is left of a path, `done` being the components found so far
/// and `current` the one being read; empty components are dropped.
pub open spec fn split_from(s: Seq<char>, done: Seq<Seq<char>>, current: Seq<char>) -> Seq<
    Seq<char>,
>
    decreases s.len(),
{
    if s.len() == 0 {
        if current.len() > 0 {
            done.push(current)
        } else {
            done
        }
    } else if s[0] == '/' {
        split_from(
            s.drop_first(),
            if current.len() > 0 {
                done.push(current)
            } else {
                done
            },
            Seq::empty(),
        )
    } else {
        split_from(s.drop_first(), done, current.push(s[0]))
    }
}

/// The components of a path: the non-empty texts between its slashes.
pub open spec fn path_components(s: Seq<char>) -> Seq<Seq<char>> {
    split_from(s, Seq::empty(), Seq::empty())
}

/// The characters `chars[from..to]` as a string.
pub fn string_of(chars: &Vec<char>, from: usize, to: usize) -> (s: String)
    requires
        from <= to <= chars@.len(),
    ensures
        s@ == chars@.subrange(from as int, to as int),
{
    let mut s = String::new();
    let mut i = from;
    while i < to
        invariant
            from <= i <= to,
            to <= chars@.len(),
            s@ == chars@.subrange(from as int, i as int),
        decreases to - i,
    {
        s.push(chars[i]);
        assert(chars@.subrange(from as int, i + 1) =~= chars@.subrange(from as int, i as int).push(
            chars@[i as int],
        ));
        i += 1;
    }
    s
}

/// The components of a path.
pub fn split_path(path: &str) -> (parts: Vec<String>)
    ensures
        views(parts@) == path_components(path@),
{
    let chars = char_vec(path);
    let mut parts: Vec<String> = Vec::new();
    let mut start: usize = 0;
    let mut i: usize = 0;
    assert(chars@.skip(0) =~= chars@);
    assert(chars@.subrange(0, 0) =~= Seq::<char>::empty());
    assert(views(parts@) =~= Seq::<Seq<char>>::empty());
    while i < chars.len()
        invariant
            chars@ == path@,
            start <= i <= chars@.len(),
            path_components(path@) == split_from(
                chars@.skip(i as int),
                views(parts@),
                chars@.subrange(start as int, i as int),
            ),
        decreases chars.len() - i,
    {
        let ghost rest = chars@.skip(i as int);
        assert(rest.drop_first() =~= chars@.skip(i + 1));
        assert(rest[0] == chars@[i as int]);
        if chars[i] == '/' {
            if start < i {
                let part = string_of(&chars, start, i);
                let ghost before = parts@;
                parts.push(part);
                assert(views(parts@) =~= views(before).push(chars@.subrange(start as int, i as int)));
            }
            start = i + 1;
            assert(chars@.subrange(start as int, i + 1) =~= Seq::<char>::empty());
        } else {
            assert(chars@.subrange(start as int, i + 1) =~= chars@.subrange(start as int, i as int).push(
                chars@[i as int],
            ));
        }
        i += 1;
    }
    assert(chars@.skip(i as int) =~= Seq::<char>::empty());
    if start < i {
        let part = string_of(&chars, start, i);
        let ghost before = parts@;
        parts.push(part);
        assert(views(parts@) =~= views(before).push(chars@.subrange(start as int, i as int)));
    }
    parts
}

// ---------------------------------------------------------------------
// Contexts and labels
// ---------------------------------------------------------------------

/// Is this component a context setting `key=value`?
pub open spec fn is_context(component: Seq<char>) -> bool {
    occurs_in(component, "="@)
}

/// How many leading components set the context.
pub open spec fn context_count(c: Seq<Seq<char>>) -> nat
    decreases c.len(),
{
    if c.len() > 0 && is_context(c[0]) {
        1 + context_count(c.drop_first())
    } else {
        0
    }
}

/// The virtual path that a filesystem path names: what follows its context.
pub open spec fn virtual_part(c: Seq<Seq<char>>) -> Seq<Seq<char>> {
    c.skip(context_count(c) as int)
}

/// The first position of `ch` in `s` at or after `i`.
pub open spec fn find_char_from(s: Seq<char>, ch: char, i: int) -> Option<int>
    decreases s.len() - i,
{
    if i < 0 || i >= s.len() {
        None
    } else if s[i] == ch {
        Some(i)
    } else {
        find_char_from(s, ch, i + 1)
    }
}

/// The last position of `ch` among the first `n` characters of `s`.
pub open spec fn find_char_before(s: Seq<char>, ch: char, n: int) -> Option<int>
    decreases n,
{
    if n <= 0 {
        None
    } else if s[n - 1] == ch {
        Some(n - 1)
    } else {
        find_char_before(s, ch, n - 1)
    }
}

/// A context setting `key=value`, split at its first `=`.
pub open spec fn context_pair(component: Seq<char>) -> (Seq<char>, Seq<char>) {
    match find_char_from(component, '=', 0) {
        Some(p) => (component.take(p), component.skip(p + 1)),
        None => (component, Seq::empty()),
    }
}

/// The context that a filesystem path sets, in order.
pub open spec fn context_of(c: Seq<Seq<char>>) -> Seq<(Seq<char>, Seq<char>)> {
    c.take(context_count(c) as int).map_values(|k: Seq<char>| context_pair(k))
}

/// The position of the first `ch` in `s` at or after `from`.
fn find_char(s: &Vec<char>, ch: char, from: usize) -> (r: Option<usize>)
    requires
        from <= s@.len(),
    ensures
        match r {
            Some(p) => find_char_from(s@, ch, from as int) == Some(p as int) && p < s@.len(),
            None => find_char_from(s@, ch, from as int) is None,
        },
{
    let mut i = from;
    while i < s.len()
        invariant
            from <= i <= s@.len(),
            find_char_from(s@, ch, from as int) == find_char_from(s@, ch, i as int),
        decreases s.len() - i,
    {
        if s[i] == ch {
            return Some(i);
        }
        i += 1;
    }
    None
}

/// The position of the last `ch` in `s`.
fn find_last_char(s: &Vec<char>, ch: char) -> (r: Option<usize>)
    ensures
        match r {
            Some(p) => find_char_before(s@, ch, s@.len() as int) == Some(p as int) && p < s@.len(),
            None => find_char_before(s@, ch, s@.len() as int) is None,
        },
{
    let mut n = s.len();
    while n > 0
        invariant
            n <= s@.len(),
            find_char_before(s@, ch, s@.len() as int) == find_char_before(s@, ch, n as int),
        decreases n,
    {
        if s[n - 1] == ch {
            return Some(n - 1);
        }
        n -= 1;
    }
    None
}

/// How many leading components set the context.
pub fn count_contexts(c: &Vec<String>) -> (k: usize)
    ensures
        k == context_count(views(c@)),
        k <= c@.len(),
{
    let mut k: usize = 0;
    assert(views(c@).skip(0) =~= views(c@));
    while k < c.len()
        invariant
            k <= c@.len(),
            context_count(views(c@)) == k + context_count(views(c@).skip(k as int)),
        decreases c.len() - k,
    {
        let ghost rest = views(c@).skip(k as int);
        assert(rest.drop_first() =~= views(c@).skip(k + 1));
        assert(rest[0] == c@[k as int]@);
        if !contains_text(c[k].as_str(), "=") {
            return k;
        }
        k += 1;
    }
    assert(views(c@).skip(k as int) =~= Seq::<Seq<char>>::empty());
    k
}

/// A context setting split at its first `=`.
fn split_context(component: &String) -> (pair: (String, String))
    ensures
        (pair.0@, pair.1@) == context_pair(component@),
{
    let chars = char_vec(component.as_str());
    match find_char(&chars, '=', 0) {
        Some(p) => {
            let key = string_of(&chars, 0, p);
            assert(p < chars.len());
            let value = string_of(&chars, p + 1, chars.len());
            assert(chars@.take(p as int) =~= chars@.subrange(0, p as int));
            assert(chars@.skip(p + 1) =~= chars@.subrange(p + 1, chars@.len() as int));
            (key, value)
        },
        None => {
            let key = string_of(&chars, 0, chars.len());
            assert(chars@.subrange(0, chars@.len() as int) =~= chars@);
            (key, String::new())
        },
    }
}

// ---------------------------------------------------------------------
// Nodes
// ---------------------------------------------------------------------

/// A node of the tree: a directory or a mapped file.
#[derive(Debug, Clone, Copy, PartialEq, Eq, Structural)]
pub enum NodeKind {
    Directory,
    File,
}

/// The components of a mapping's virtual path.
pub open spec fn mapped(m: FileMapping) -> Seq<Seq<char>> {
    path_components(m.virtual_path@)
}

/// The first mapping at or after `i` whose virtual path is `rest`.
pub open spec fn find_mapping(ms: Seq<FileMapping>, rest: Seq<Seq<char>>, i: int) -> Option<int>
    decreases ms.len() - i,
{
    if i < 0 || i >= ms.len() {
        None
    } else if mapped(ms[i]) == rest {
        Some(i)
    } else {
        find_mapping(ms, rest, i + 1)
    }
}

/// Is `a` a proper prefix of `b`?
pub open spec fn proper_prefix(a: Seq<Seq<char>>, b: Seq<Seq<char>>) -> bool {
    a.len() < b.len() && b.take(a.len() as int) == a
}

/// Does some mapping lie below `rest`?
pub open spec fn has_below(ms: Seq<FileMapping>, rest: Seq<Seq<char>>) -> bool {
    exists|i: int| 0 <= i < ms.len() && proper_prefix(rest, #[trigger] mapped(ms[i]))
}

/// The mapping a filesystem path reads, with its label: the path's virtual
/// part as a whole, else with a `@label` taken off its last component.
pub open spec fn file_of(ms: Seq<FileMapping>, c: Seq<Seq<char>>) -> Option<(int, Option<Seq<char>>)> {
    let rest = virtual_part(c);
    if rest.len() == 0 {
        None
    } else {
        match find_mapping(ms, rest, 0) {
            Some(i) => Some((i, None)),
            None => {
                let last = rest.last();
                match find_char_before(last, '@', last.len() as int) {
                    Some(p) => match find_mapping(ms, rest.drop_last().push(last.take(p)), 0) {
                        Some(i) => Some((i, Some(last.skip(p + 1)))),
                        None => None,
                    },
                    None => None,
                }
            },
        }
    }
}

/// What a filesystem path is: a directory where its virtual part is empty
/// or lies above a mapping, a file where it names one, else nothing.
pub open spec fn node_kind(ms: Seq<FileMapping>, c: Seq<Seq<char>>) -> Option<NodeKind> {
    if virtual_part(c).len() == 0 {
        Some(NodeKind::Directory)
    } else if file_of(ms, c) is Some {
        Some(NodeKind::File)
    } else if has_below(ms, virtual_part(c)) {
        Some(NodeKind::Directory)
    } else {
        None
    }
}

/// Do two component lists hold the same texts?
pub fn same_components(a: &Vec<String>, b: &Vec<String>) -> (r: bool)
    ensures
        r == (views(a@) == views(b@)),
{
    if a.len() != b.len() {
        assert(views(a@).len() != views(b@).len());
        return false;
    }
    let mut i: usize = 0;
    while i < a.len()
        invariant
            a@.len() == b@.len(),
            i <= a@.len(),
            forall|k: int| 0 <= k < i ==> a@[k]@ == b@[k]@,
        decreases a.len() - i,
    {
        if a[i] != b[i] {
            assert(views(a@)[i as int] != views(b@)[i as int]);
            return false;
        }
        i += 1;
    }
    assert(views(a@) =~= views(b@));
    true
}

/// Is `a` a proper prefix of `b`?
pub fn is_proper_prefix(a: &Vec<String>, b: &Vec<String>) -> (r: bool)
    ensures
        r == proper_prefix(views(a@), views(b@)),
{
    if a.len() >= b.len() {
        return false;
    }
    let mut i: usize = 0;
    while i < a.len()
        invariant
            a@.len() < b@.len(),
            i <= a@.len(),
            forall|k: int| 0 <= k < i ==> a@[k]@ == b@[k]@,
        decreases a.len() - i,
    {
        if a[i] != b[i] {
            assert(views(b@).take(a@.len() as int)[i as int] != views(a@)[i as int]);
            return false;
        }
        i += 1;
    }
    assert(views(b@).take(a@.len() as int) =~= views(a@));
    true
}

/// The first mapping whose virtual path is `rest`.
pub fn find_mapping_index(ms: &Vec<FileMapping>, rest: &Vec<String>) -> (r: Option<usize>)
    ensures
        match r {
            Some(i) => find_mapping(ms@, views(rest@), 0) == Some(i as int),
            None => find_mapping(ms@, views(rest@), 0) is None,
        },
{
    let mut i: usize = 0;
    while i < ms.len()
        invariant
            i <= ms@.len(),
            find_mapping(ms@, views(rest@), 0) == find_mapping(ms@, views(rest@), i as int),
        decreases ms.len() - i,
    {
        let parts = split_path(ms[i].virtual_path.as_str());
        if same_components(&parts, rest) {
            return Some(i);
        }
        i += 1;
    }
    None
}

/// Does some mapping lie below `rest`?
fn any_below(ms: &Vec<FileMapping>, rest: &Vec<String>) -> (r: bool)
    ensures
        r == has_below(ms@, views(rest@)),
{
    let mut i: usize = 0;
    while i < ms.len()
        invariant
            i <= ms@.len(),
            forall|k: int| 0 <= k < i ==> !proper_prefix(views(rest@), #[trigger] mapped(ms@[k])),
        decreases ms.len() - i,
    {
        let parts = split_path(ms[i].virtual_path.as_str());
        if is_proper_prefix(rest, &parts) {
            assert(proper_prefix(views(rest@), mapped(ms@[i as int])));
            return true;
        }
        i += 1;
    }
    false
}

/// The components after the first `k`.
pub fn tail_from(c: &Vec<String>, k: usize) -> (r: Vec<String>)
    requires
        k <= c@.len(),
    ensures
        views(r@) == views(c@).skip(k as int),
{
    let mut r: Vec<String> = Vec::new();
    let mut i = k;
    while i < c.len()
        invariant
            k <= i <= c@.len(),
            views(r@) == views(c@).subrange(k as int, i as int),
        decreases c.len() - i,
    {
        let ghost before = r@;
        r.push(c[i].clone());
        assert(views(r@) =~= views(before).push(c@[i as int]@));
        assert(views(c@).subrange(k as int, i + 1) =~= views(c@).subrange(k as int, i as int).push(
            c@[i as int]@,
        ));
        i += 1;
    }
    assert(views(c@).subrange(k as int, c@.len() as int) =~= views(c@).skip(k as int));
    r
}

/// The mapping a filesystem path reads, with its label.
pub fn file_for(ms: &Vec<FileMapping>, c: &Vec<String>) -> (r: Option<(usize, Option<String>)>)
    ensures
        match file_of(ms@, views(c@)) {
            Some((i, label)) => r matches Some((j, l)) && j == i && match label {
                Some(t) => l matches Some(s) && s@ == t,
                None => l is None,
            },
            None => r is None,
        },
{
    let k = count_contexts(c);
    let rest = tail_from(c, k);
    if rest.len() == 0 {
        return None;
    }
    match find_mapping_index(ms, &rest) {
        Some(i) => Some((i, None)),
        None => {
            let last = char_vec(rest[rest.len() - 1].as_str());
            match find_last_char(&last, '@') {
                Some(p) => {
                    let mut base = tail_from(&rest, 0);
                    let ghost all = views(rest@);
                    assert(all.skip(0) =~= all);
                    base.pop();
                    base.push(string_of(&last, 0, p));
                    assert(last@.subrange(0, p as int) =~= last@.take(p as int));
                    assert(views(base@) =~= all.drop_last().push(all.last().take(p as int)));
                    match find_mapping_index(ms, &base) {
                        Some(i) => {
                            assert(p < last.len());
                            let label = string_of(&last, p + 1, last.len());
                            assert(last@.subrange(p + 1, last@.len() as int) =~= last@.skip(p + 1));
                            Some((i, Some(label)))
                        },
                        None => None,
                    }
                },
                None => None,
            }
        },
    }
}

/// What a filesystem path is.
pub fn kind_of(ms: &Vec<FileMapping>, c: &Vec<String>) -> (r: Option<NodeKind>)
    ensures
        r == node_kind(ms@, views(c@)),
{
    let k = count_contexts(c);
    let rest = tail_from(c, k);
    if rest.len() == 0 {
        return Some(NodeKind::Directory);
    }
    if file_for(ms, c).is_some() {
        return Some(NodeKind::File);
    }
    if any_below(ms, &rest) {
        return Some(NodeKind::Directory);
    }
    None
}

/// The context a filesystem path sets, as key/value pairs in order.
pub fn context_for(c: &Vec<String>) -> (pairs: Vec<(String, String)>)
    ensures
        pairs@.map_values(|p: (String, String)| (p.0@, p.1@)) == context_of(views(c@)),
{
    let k = count_contexts(c);
    let mut pairs: Vec<(String, String)> = Vec::new();
    let mut i: usize = 0;
    while i < k
        invariant
            k == context_count(views(c@)),
            k <= c@.len(),
            i <= k,
            pairs@.map_values(|p: (String, String)| (p.0@, p.1@)) == views(c@).take(
                i as int,
            ).map_values(|s: Seq<char>| context_pair(s)),
        decreases k - i,
    {
        let pair = split_context(&c[i]);
        let ghost before = pairs@;
        pairs.push(pair);
        assert(pairs@.map_values(|p: (String, String)| (p.0@, p.1@)) =~= before.map_values(
            |p: (String, String)| (p.0@, p.1@),
        ).push(context_pair(c@[i as int]@)));
        assert(views(c@).take(i + 1).map_values(|s: Seq<char>| context_pair(s)) =~= views(
            c@,
        ).take(i as int).map_values(|s: Seq<char>| context_pair(s)).push(
            context_pair(c@[i as int]@),
        ));
        i += 1;
    }
    pairs
}

} // verus!
