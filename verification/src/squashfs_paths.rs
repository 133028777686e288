//! The paths of the entries of a squashfs archive: how they are named when
//! listed, where they come from when an archive is made, and where they go
//! when it is unpacked.
use vstd::prelude::*;

use crate::text::{push_char, str_eq};

verus! {

/// `s` with every occurrence of `from` replaced by `to`, the occurrences
/// being found from left to right without overlap. An empty `from` occurs
/// before every character and at the end.
pub open spec fn replace_all(s: Seq<char>, from: Seq<char>, to: Seq<char>) -> Seq<char>
    decreases s.len(),
{
    if from.len() == 0 {
        if s.len() == 0 {
            to
        } else {
            to + seq![s[0]] + replace_all(s.drop_first(), from, to)
        }
    } else if from.len() <= s.len() && s.take(from.len() as int) == from {
        to + replace_all(s.skip(from.len() as int), from, to)
    } else if s.len() == 0 {
        seq![]
    } else {
        seq![s[0]] + replace_all(s.drop_first(), from, to)
    }
}

fn matches_at(s: &Vec<char>, i: usize, from: &Vec<char>) -> (b: bool)
    requires
        i <= s@.len(),
    ensures
        b == (from@.len() <= s@.len() - i && s@.skip(i as int).take(from@.len() as int) == from@),
{
    if from.len() > s.len() - i {
        return false;
    }
    let n = s.len();
    let mut k: usize = 0;
    while k < from.len()
        invariant
            n == s@.len(),
            i <= s@.len(),
            from@.len() <= s@.len() - i,
            k <= from@.len(),
            forall|j: int| 0 <= j < k ==> s@[i + j] == from@[j],
        decreases from@.len() - k,
    {
        if s[i + k] != from[k] {
            assert(s@.skip(i as int).take(from@.len() as int)[k as int] != from@[k as int]);
            return false;
        }
        k = k + 1;
    }
    assert(s@.skip(i as int).take(from@.len() as int) =~= from@);
    true
}

fn chars_of(s: &str) -> (v: Vec<char>)
    ensures
        v@ == s@,
{
    let mut v: Vec<char> = Vec::new();
    for c in it: s.chars()
        invariant
            it.seq() == s@,
            v@ == s@.take(it.index() as int),
    {
        v.push(c);
        assert(v@ =~= s@.take(it.index() + 1));
    }
    assert(v@ =~= s@);
    v
}

/// `s` with every occurrence of `from` replaced by `to`.
pub fn replace(s: &str, from: &str, to: &str) -> (r: String)
    ensures
        r@ == replace_all(s@, from@, to@),
{
    let cs = chars_of(s);
    let fs = chars_of(from);
    let mut out = String::new();
    let mut i: usize = 0;
    assert(cs@.skip(0) =~= cs@);
    assert(out@ + replace_all(cs@.skip(0), fs@, to@) =~= replace_all(s@, from@, to@));
    while i < cs.len()
        invariant
            cs@ == s@,
            fs@ == from@,
            i <= cs@.len(),
            out@ + replace_all(cs@.skip(i as int), fs@, to@) == replace_all(s@, from@, to@),
        decreases cs@.len() - i,
    {
        let ghost rest = cs@.skip(i as int);
        if fs.len() > 0 && matches_at(&cs, i, &fs) {
            let ghost before = out@;
            out.append(to);
            assert(rest.skip(fs@.len() as int) =~= cs@.skip(i + fs@.len()));
            assert(before + replace_all(rest, fs@, to@) =~= out@ + replace_all(
                cs@.skip(i + fs@.len()),
                fs@,
                to@,
            ));
            i = i + fs.len();
        } else {
            let ghost before = out@;
            if fs.len() == 0 {
                out.append(to);
            }
            push_char(&mut out, cs[i]);
            assert(rest.drop_first() =~= cs@.skip(i + 1));
            assert(rest[0] == cs@[i as int]);
            assert(before + replace_all(rest, fs@, to@) =~= out@ + replace_all(
                cs@.skip(i + 1),
                fs@,
                to@,
            ));
            i = i + 1;
        }
    }
    assert(cs@.skip(i as int) =~= Seq::<char>::empty());
    if fs.len() == 0 {
        let ghost before = out@;
        out.append(to);
        assert(before + replace_all(Seq::<char>::empty(), fs@, to@) =~= out@);
    } else {
        assert(out@ + replace_all(Seq::<char>::empty(), fs@, to@) =~= out@);
    }
    out
}

/// True when `s` ends with `/`, the mark of a directory entry.
pub open spec fn is_dir_name(s: Seq<char>) -> bool {
    s.len() > 0 && s.last() == '/'
}

/// True when the entry `name` is a directory.
pub fn is_dir_entry(name: &str) -> (b: bool)
    ensures
        b == is_dir_name(name@),
{
    let mut last: Option<char> = None;
    for c in it: name.chars()
        invariant
            it.seq() == name@,
            it.index() == 0 ==> last is None,
            it.index() > 0 ==> last == Some(name@[it.index() - 1]),
    {
        last = Some(c);
    }
    match last {
        Some(c) => c == '/',
        None => false,
    }
}

/// The name under which an archive lists a node: its full path, followed by
/// `/` when it is not a file.
pub fn entry_name(full_path: &str, is_file: bool) -> (n: String)
    ensures
        n@ == (if is_file {
            full_path@
        } else {
            full_path@ + "/"@
        }),
{
    let mut n = full_path.to_owned();
    if !is_file {
        n.append("/");
    }
    n
}

/// The path inside the archive of a file found under `source_dir`: the file's
/// path with every occurrence of `source_dir` taken out.
pub fn archive_path(file: &str, source_dir: &str) -> (p: String)
    ensures
        p@ == replace_all(file@, source_dir@, Seq::<char>::empty()),
{
    let r = replace(file, source_dir, "");
    assert(""@ =~= Seq::<char>::empty()) by {
        reveal_strlit("");
    }
    r
}

/// Where an entry of an archive is unpacked: `{output_path}{entry}`.
pub fn unpack_target(output_path: &str, entry: &str) -> (p: String)
    ensures
        p@ == output_path@ + entry@,
{
    let mut p = output_path.to_owned();
    p.append(entry);
    p
}

/// The position of the first file among the nodes of an archive (each a full
/// path and whether it is a file) whose full path is `path`.
pub fn find_file(nodes: &Vec<(String, bool)>, path: &str) -> (r: Option<usize>)
    ensures
        match r {
            Some(i) => i < nodes@.len() && nodes@[i as int].1 && nodes@[i as int].0@ == path@
                && forall|j: int| 0 <= j < i ==> !(nodes@[j].1 && nodes@[j].0@ == path@),
            None => forall|j: int| 0 <= j < nodes@.len() ==> !(nodes@[j].1 && nodes@[j].0@ == path@),
        },
{
    let mut i: usize = 0;
    while i < nodes.len()
        invariant
            i <= nodes@.len(),
            forall|j: int| 0 <= j < i ==> !(nodes@[j].1 && nodes@[j].0@ == path@),
        decreases nodes@.len() - i,
    {
        if nodes[i].1 && str_eq(nodes[i].0.as_str(), path) {
            return Some(i);
        }
        i = i + 1;
    }
    None
}


/// `from` occurs nowhere in `s`.
pub open spec fn occurs_nowhere(s: Seq<char>, from: Seq<char>) -> bool {
    forall|i: int|
        0 <= i <= s.len() ==> !(from.len() <= s.len() - i && #[trigger] s.skip(i).take(from.len() as int)
            == from)
}

proof fn lemma_replace_without_occurrence(s: Seq<char>, from: Seq<char>, to: Seq<char>)
    requires
        from.len() > 0,
        occurs_nowhere(s, from),
    ensures
        replace_all(s, from, to) == s,
    decreases s.len(),
{
    assert(s.skip(0) =~= s);
    if s.len() > 0 {
        let t = s.drop_first();
        assert forall|i: int|
            0 <= i <= t.len() implies !(from.len() <= t.len() - i && #[trigger] t.skip(i).take(
                from.len() as int,
            ) == from) by {
            assert(t.skip(i) =~= s.skip(i + 1));
        }
        lemma_replace_without_occurrence(t, from, to);
        assert(seq![s[0]] + t =~= s);
    }
}

/// A file below a directory is archived under its path relative to the
/// directory, and unpacked at that path below the output folder, when the
/// directory's path occurs nowhere in the relative path.
pub proof fn law_archive_path_relative(dir: Seq<char>, rel: Seq<char>, output: Seq<char>)
    requires
        dir.len() > 0,
        occurs_nowhere(rel, dir),
    ensures
        replace_all(dir + rel, dir, Seq::<char>::empty()) == rel,
        output + replace_all(dir + rel, dir, Seq::<char>::empty()) == output + rel,
{
    let s = dir + rel;
    assert(s.take(dir.len() as int) =~= dir);
    assert(s.skip(dir.len() as int) =~= rel);
    lemma_replace_without_occurrence(rel, dir, Seq::<char>::empty());
    assert(Seq::<char>::empty() + rel =~= rel);
}

} // verus!
