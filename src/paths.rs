use vstd::prelude::*;
use vstd::std_specs::iter::IteratorSpec;
use vstd::string::*;

verus! {

/// A path is absolute when it starts at the root.
pub open spec fn is_absolute(p: Seq<char>) -> bool {
    p.len() > 0 && p[0] == '/'
}

/// `parent` followed by `dir`, with one separator between them where
/// `parent` does not already end in one; an absolute `dir` replaces `parent`.
pub open spec fn path_join(parent: Seq<char>, dir: Seq<char>) -> Seq<char> {
    if is_absolute(dir) {
        dir
    } else if parent.len() == 0 || parent.last() == '/' {
        parent + dir
    } else {
        parent + "/"@ + dir
    }
}

/// The pieces of `s` between its colons, in order; a string without a colon is
/// one piece.
pub open spec fn colon_pieces(s: Seq<char>) -> Seq<Seq<char>>
    decreases s.len(),
{
    if s.len() == 0 {
        seq![Seq::empty()]
    } else {
        let rest = colon_pieces(s.drop_last());
        if s.last() == ':' {
            rest.push(Seq::empty())
        } else {
            rest.update(rest.len() - 1, rest.last().push(s.last()))
        }
    }
}

/// The views of a sequence of strings.
pub open spec fn string_views(v: Seq<String>) -> Seq<Seq<char>> {
    v.map_values(|s: String| s@)
}

/// Whether the first character of `s` is `c`.
fn starts_with_char(s: &str, c: char) -> (r: bool)
    ensures
        r == (s@.len() > 0 && s@[0] == c),
{
    let mut it = s.chars();
    match it.next() {
        Some(x) => x == c,
        None => false,
    }
}

/// Whether the last character of `s` is `c`.
fn ends_with_char(s: &str, c: char) -> (r: bool)
    ensures
        r == (s@.len() > 0 && s@.last() == c),
{
    let mut it = s.chars();
    let mut last: Option<char> = None;
    let ghost mut k: int = 0;
    loop
        invariant
            0 <= k <= s@.len(),
            it.remaining() == s@.subrange(k, s@.len() as int),
            k == 0 ==> last is None,
            k > 0 ==> last == Some(s@[k - 1]),
        ensures
            k == s@.len(),
            k == 0 ==> last is None,
            k > 0 ==> last == Some(s@[k - 1]),
        decreases s@.len() - k,
    {
        match it.next() {
            Some(x) => {
                proof {
                    assert(x == s@[k]);
                    k = k + 1;
                }
                last = Some(x);
            },
            None => {
                break ;
            },
        }
    }
    match last {
        Some(x) => x == c,
        None => false,
    }
}

/// Relies on `str::split` with the pattern `':'`: the pieces between the
/// colons, in order, each turned into an owned `String`.
#[verifier::external_body]
fn split_colons(s: &str) -> (r: Vec<String>)
    ensures
        string_views(r@) == colon_pieces(s@),
{
    s.split(':').map(|p| p.to_string()).collect()
}

/// Whether `p` is an absolute path.
pub fn path_is_absolute(p: &str) -> (r: bool)
    ensures
        r == is_absolute(p@),
{
    starts_with_char(p, '/')
}

/// Resolves `dir` against `parent`: an absolute `dir` is returned unchanged,
/// a relative one is joined under `parent`.
pub fn resolve_dir(parent: &str, dir: &str) -> (r: String)
    ensures
        r@ == path_join(parent@, dir@),
{
    if path_is_absolute(dir) {
        return dir.to_owned();
    }
    let mut r = parent.to_owned();
    if !(parent.is_empty() || ends_with_char(parent, '/')) {
        r.append("/");
    }
    r.append(dir);
    r
}

/// A relative directory resolves to the parent, a separator where the parent
/// lacks one, and the directory.
pub proof fn lemma_resolve_relative(parent: Seq<char>, dir: Seq<char>)
    requires
        !is_absolute(dir),
    ensures
        path_join(parent, dir) == (if parent.len() == 0 || parent.last() == '/' {
            parent + dir
        } else {
            parent + "/"@ + dir
        }),
{
}

/// An absolute directory resolves to itself, whatever the parent.
pub proof fn lemma_resolve_absolute(parent: Seq<char>, dir: Seq<char>)
    requires
        is_absolute(dir),
    ensures
        path_join(parent, dir) == dir,
{
}

/// The places where an executable named `exec` is looked for, in order: the
/// name itself when it is an absolute path, else the name under each directory
/// of the search path `path_var` (colon-separated).
pub open spec fn search_places(exec: Seq<char>, path_var: Seq<char>) -> Seq<Seq<char>> {
    if is_absolute(exec) {
        seq![exec]
    } else {
        colon_pieces(path_var).map_values(|d: Seq<char>| path_join(d, exec))
    }
}

/// The candidates at which `exec` may be found, given the search path.
pub fn search_candidates(exec: &str, path_var: &str) -> (r: Vec<String>)
    ensures
        string_views(r@) == search_places(exec@, path_var@),
{
    let mut out: Vec<String> = Vec::new();
    if path_is_absolute(exec) {
        out.push(exec.to_owned());
        assert(string_views(out@) =~= search_places(exec@, path_var@));
        return out;
    }
    let dirs = split_colons(path_var);
    let ghost pieces = colon_pieces(path_var@);
    let mut i: usize = 0;
    while i < dirs.len()
        invariant
            i <= dirs@.len(),
            string_views(dirs@) == pieces,
            string_views(out@) =~= pieces.take(i as int).map_values(
                |d: Seq<char>| path_join(d, exec@),
            ),
        decreases dirs@.len() - i,
    {
        let c = resolve_dir(dirs[i].as_str(), exec);
        let ghost before = out@;
        out.push(c);
        proof {
            assert(pieces[i as int] == string_views(dirs@)[i as int]);
            assert(out@ == before.push(c));
            assert(string_views(out@) =~= string_views(before).push(c@));
            assert(pieces.take(i + 1) =~= pieces.take(i as int).push(pieces[i as int]));
            assert(string_views(out@) =~= pieces.take(i + 1).map_values(
                |d: Seq<char>| path_join(d, exec@),
            ));
        }
        i = i + 1;
    }
    assert(pieces.take(i as int) =~= pieces);
    out
}

/// The index of the first `true` in `flags`, if any.
pub open spec fn first_true(flags: Seq<bool>) -> Option<nat>
    decreases flags.len(),
{
    if flags.len() == 0 {
        None
    } else if flags[0] {
        Some(0)
    } else {
        match first_true(flags.drop_first()) {
            Some(j) => Some(j + 1),
            None => None,
        }
    }
}

/// `first_true` finds the earliest true flag, and none exists without it.
pub proof fn lemma_first_true(flags: Seq<bool>)
    ensures
        first_true(flags) is None <==> (forall|i: int| 0 <= i < flags.len() ==> !flags[i]),
        first_true(flags) is Some ==> first_true(flags)->Some_0 < flags.len(),
        first_true(flags) is Some ==> flags[first_true(flags)->Some_0 as int],
        first_true(flags) is Some ==> forall|i: int|
            0 <= i < first_true(flags)->Some_0 ==> !flags[i],
    decreases flags.len(),
{
    if flags.len() > 0 {
        lemma_first_true(flags.drop_first());
        if !flags[0] {
            assert forall|i: int| 0 <= i < flags.len() && i != 0 implies flags[i]
                == flags.drop_first()[i - 1] by {}
        }
    }
}

/// The first candidate that exists, where `exists[i]` says whether
/// `candidates[i]` was found.
pub fn look_path(candidates: &Vec<String>, exists: &Vec<bool>) -> (r: Option<String>)
    requires
        candidates@.len() == exists@.len(),
    ensures
        r is None <==> first_true(exists@) is None,
        r matches Some(p) ==> p@ == candidates@[first_true(exists@)->Some_0 as int]@,
{
    proof {
        lemma_first_true(exists@);
    }
    let mut i: usize = 0;
    while i < exists.len()
        invariant
            i <= exists@.len(),
            candidates@.len() == exists@.len(),
            forall|k: int| 0 <= k < i ==> !exists@[k],
        decreases exists@.len() - i,
    {
        if exists[i] {
            proof {
                assert(exists@[i as int]);
                lemma_first_true(exists@);
                assert(first_true(exists@) is Some);
                let j = first_true(exists@)->Some_0;
                if j < i {
                    assert(!exists@[j as int]);
                }
                if j > i {
                    assert(!exists@[i as int]);
                }
                assert(j == i);
            }
            return Some(candidates[i].clone());
        }
        i = i + 1;
    }
    None
}

} // verus!
