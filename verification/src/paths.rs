//! Turning a request path into the path of the file that answers it.

use vstd::prelude::*;
use vstd::string::*;
use crate::extensions::ExtensionSet;

verus! {

/// Whether `text` ends with a slash.
pub open spec fn ends_with_slash(text: Seq<char>) -> bool {
    text.len() > 0 && text.last() == '/'
}

/// Whether `text` starts with a slash.
pub open spec fn starts_with_slash(text: Seq<char>) -> bool {
    text.len() > 0 && text.first() == '/'
}

/// Whether `text` ends with `suffix`.
pub open spec fn ends_with(text: Seq<char>, suffix: Seq<char>) -> bool {
    suffix.len() <= text.len() && text.skip(text.len() - suffix.len()) == suffix
}

/// Where the extension of `path` starts: just behind its last dot, or at 0
/// when it has no dot.
pub open spec fn extension_start(path: Seq<char>) -> int
    decreases path.len(),
{
    if path.len() == 0 {
        0
    } else if path.last() == '.' {
        path.len() as int
    } else {
        extension_start(path.drop_last())
    }
}

/// The extension of `path`: what follows its last dot, or all of it when it
/// has no dot.
pub open spec fn extension_of(path: Seq<char>) -> Seq<char> {
    path.skip(extension_start(path))
}

/// Whether `path` names a file of a known kind: it does not end with a slash
/// and its extension is in `known`.
pub open spec fn has_known_extension(known: Set<Seq<char>>, path: Seq<char>) -> bool {
    !ends_with_slash(path) && known.contains(extension_of(path))
}

/// The request path with the index document added where it names a directory.
pub open spec fn with_index(known: Set<Seq<char>>, path: Seq<char>) -> Seq<char> {
    if ends_with_slash(path) {
        path + "index.html"@
    } else if !has_known_extension(known, path) {
        path + "/index.html"@
    } else {
        path
    }
}

/// `incoming` behind `base`, with one of two slashes that would meet dropped.
pub open spec fn joined(base: Seq<char>, incoming: Seq<char>) -> Seq<char> {
    if ends_with_slash(base) && starts_with_slash(incoming) {
        base + incoming.skip(1)
    } else {
        base + incoming
    }
}

/// The file under `base` that answers a request for `path`.
pub open spec fn resolved(base: Seq<char>, known: Set<Seq<char>>, path: Seq<char>) -> Seq<char> {
    joined(base, with_index(known, path))
}

/// `base` without the slash at its end, if it has one.
pub open spec fn stem(base: Seq<char>) -> Seq<char> {
    if ends_with_slash(base) {
        base.drop_last()
    } else {
        base
    }
}

/// The extension starts inside the path, holds no dot, and stands at the
/// start of the path or right behind a dot.
pub proof fn lemma_extension_start(path: Seq<char>)
    ensures
        0 <= extension_start(path) <= path.len(),
        forall|i: int| extension_start(path) <= i < path.len() ==> path[i] != '.',
        extension_start(path) == 0 || path[extension_start(path) - 1] == '.',
    decreases path.len(),
{
    if path.len() > 0 && path.last() != '.' {
        let front = path.drop_last();
        lemma_extension_start(front);
        assert forall|i: int| extension_start(path) <= i < path.len() implies path[i] != '.' by {
            if i < front.len() {
                assert(front[i] == path[i]);
            }
        }
    }
}

/// The extension start is the only position that the three facts of
/// `lemma_extension_start` allow.
pub proof fn lemma_extension_start_unique(path: Seq<char>, k: int)
    requires
        0 <= k <= path.len(),
        forall|i: int| k <= i < path.len() ==> path[i] != '.',
        k == 0 || path[k - 1] == '.',
    ensures
        extension_start(path) == k,
{
    lemma_extension_start(path);
    let s = extension_start(path);
    if s < k {
        assert(path[k - 1] == '.');
    } else if k < s {
        assert(path[s - 1] == '.');
    }
}

/// A request for `/` is answered by the index document right under the base.
pub proof fn lemma_root_resolves_to_index(base: Seq<char>, known: Set<Seq<char>>)
    ensures
        resolved(base, known, "/"@) == stem(base) + "/index.html"@,
{
    reveal_strlit("/");
    reveal_strlit("index.html");
    reveal_strlit("/index.html");
    let incoming = "/"@ + "index.html"@;
    assert(incoming =~= "/index.html"@);
    assert("/"@.last() == '/');
    assert(with_index(known, "/"@) == incoming);
    if ends_with_slash(base) {
        assert(base + incoming.skip(1) =~= base.drop_last() + incoming);
    }
}

/// Where the request path starts with a slash, the resolved path is the base
/// without its closing slash, followed by the request path with its index
/// document: no slash is lost at the join and none is added.
pub proof fn lemma_join_point(base: Seq<char>, known: Set<Seq<char>>, path: Seq<char>)
    requires
        starts_with_slash(path),
    ensures
        resolved(base, known, path) == stem(base) + with_index(known, path),
        starts_with_slash(with_index(known, path)),
{
    let incoming = with_index(known, path);
    assert(incoming[0] == path[0]);
    if ends_with_slash(base) {
        assert(base + incoming.skip(1) =~= base.drop_last() + incoming);
    }
}

/// A path that names no file of a known kind is answered by the index
/// document of the directory it names; one that does is answered by the file
/// it names.
pub proof fn lemma_directory_or_file(base: Seq<char>, known: Set<Seq<char>>, path: Seq<char>)
    requires
        starts_with_slash(path),
        !ends_with_slash(path),
    ensures
        known.contains(extension_of(path)) ==> resolved(base, known, path) == stem(base) + path,
        !known.contains(extension_of(path)) ==> resolved(base, known, path) == stem(base) + path
            + "/index.html"@,
{
    lemma_join_point(base, known, path);
    assert(stem(base) + (path + "/index.html"@) =~= stem(base) + path + "/index.html"@);
}

/// For a request path that starts with exactly one slash, the resolved path
/// is the base without its closing slash, one slash, and a rest that starts
/// with none: the join neither doubles the slash nor loses it, whether or not
/// the base is written with a slash at its end.
pub proof fn lemma_one_slash_at_join(base: Seq<char>, known: Set<Seq<char>>, path: Seq<char>)
    requires
        starts_with_slash(path),
        path.len() < 2 || path[1] != '/',
    ensures
        resolved(base, known, path) == stem(base) + seq!['/'] + with_index(known, path).skip(1),
        !starts_with_slash(with_index(known, path).skip(1)),
{
    reveal_strlit("index.html");
    reveal_strlit("/index.html");
    let incoming = with_index(known, path);
    assert(incoming[0] == '/');
    assert(incoming.len() >= 2 ==> incoming[1] != '/') by {
        if path.len() < 2 {
            assert(ends_with_slash(path));
            assert(incoming[1] == 'i');
        } else {
            assert(incoming[1] == path[1]);
        }
    }
    assert(incoming =~= seq!['/'] + incoming.skip(1));
    if ends_with_slash(base) {
        assert(base =~= base.drop_last() + seq!['/']);
        assert(base + incoming.skip(1) =~= stem(base) + seq!['/'] + incoming.skip(1));
    } else {
        assert(base + incoming =~= stem(base) + seq!['/'] + incoming.skip(1));
    }
}

/// The base may be written with or without a slash at its end: a request
/// path that starts with a slash resolves to the same file either way.
pub proof fn lemma_base_slash_is_optional(base: Seq<char>, known: Set<Seq<char>>, path: Seq<char>)
    requires
        starts_with_slash(path),
        !ends_with_slash(base),
    ensures
        resolved(base + seq!['/'], known, path) == resolved(base, known, path),
{
    reveal_strlit("index.html");
    reveal_strlit("/index.html");
    let incoming = with_index(known, path);
    assert(incoming[0] == '/');
    assert((base + seq!['/']).last() == '/');
    assert(base + seq!['/'] + incoming.skip(1) =~= base + incoming);
}

/// Whether `text` ends with a slash.
pub fn has_slash_at_end(text: &str) -> (found: bool)
    ensures
        found == ends_with_slash(text@),
{
    let n = text.unicode_len();
    n > 0 && text.get_char(n - 1) == '/'
}

/// Whether `text` starts with a slash.
pub fn has_slash_at_start(text: &str) -> (found: bool)
    ensures
        found == starts_with_slash(text@),
{
    let n = text.unicode_len();
    n > 0 && text.get_char(0) == '/'
}

/// Whether `text` ends with `suffix`.
pub fn has_suffix(text: &str, suffix: &str) -> (found: bool)
    ensures
        found == ends_with(text@, suffix@),
{
    let n = text.unicode_len();
    let m = suffix.unicode_len();
    if m > n {
        return false;
    }
    let end = text.substring_char(n - m, n);
    assert(text@.subrange(n - m, n as int) =~= text@.skip(n - m));
    end.to_owned() == suffix.to_owned()
}

/// The extension of `path`: what follows its last dot, or all of it when it
/// has no dot.
pub fn extension<'a>(path: &'a str) -> (ext: &'a str)
    ensures
        ext@ == extension_of(path@),
{
    broadcast use vstd::string::group_string_axioms;

    let n = path.unicode_len();
    let mut start: usize = 0;
    let mut i: usize = 0;
    for c in it: path.chars()
        invariant
            it.seq() == path@,
            n == path@.len(),
            i == it.index(),
            i <= n,
            start == extension_start(path@.take(i as int)),
            start <= i,
    {
        proof {
            let seen = path@.take(i + 1);
            assert(seen.drop_last() =~= path@.take(i as int));
            assert(seen.last() == c);
        }
        i = i + 1;
        if c == '.' {
            start = i;
        }
    }
    assert(path@.take(n as int) =~= path@);
    path.substring_char(start, n)
}

/// Whether `path` names a file of a known kind.
pub fn names_known_file(known: &ExtensionSet, path: &str) -> (found: bool)
    ensures
        found == has_known_extension(known@, path@),
{
    if has_slash_at_end(path) {
        return false;
    }
    known.contains(extension(path))
}

/// `incoming` behind `base`, with one of two slashes that would meet dropped.
pub fn join(base: &str, incoming: &str) -> (path: String)
    ensures
        path@ == joined(base@, incoming@),
{
    let mut path = String::from_str(base);
    if has_slash_at_end(base) && has_slash_at_start(incoming) {
        let n = incoming.unicode_len();
        path.append(incoming.substring_char(1, n));
    } else {
        path.append(incoming);
    }
    path
}

/// The file under `base` that answers a request for `path`.
pub fn resolve(base: &str, known: &ExtensionSet, path: &str) -> (file: String)
    ensures
        file@ == resolved(base@, known@, path@),
{
    let mut incoming = String::from_str(path);
    if has_slash_at_end(path) {
        incoming.append("index.html");
    } else if !names_known_file(known, path) {
        incoming.append("/index.html");
    }
    join(base, incoming.as_str())
}

} // verus!
