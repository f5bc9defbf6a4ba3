//! Paths as texts: joining a name to a path, and renaming a path's
//! extension.

use vstd::prelude::*;
use vstd::string::*;

verus! {

/// The path of `name` below `base`, with `/` between the two where none
/// stands there yet. A name that begins with `/` is a path of its own, and
/// below no base. Where `/` parts a path, this is what
/// `std::path::Path::join` makes of the two.
pub open spec fn joined_path(base: Seq<char>, name: Seq<char>) -> Seq<char> {
    if name.len() > 0 && name[0] == '/' {
        name
    } else if base.len() == 0 || base.last() == '/' {
        base + name
    } else {
        base + seq!['/'] + name
    }
}

/// The path of what stands at `inner` within the directory `dir`.
pub open spec fn below(dir: Seq<char>, inner: Seq<char>) -> Seq<char> {
    dir + seq!['/'] + inner
}

/// Whether `path` opens with the path of `dir` and a `/`.
pub open spec fn has_head(dir: Seq<char>, path: Seq<char>) -> bool {
    path.len() > dir.len() && path.subrange(0, dir.len() as int + 1) == dir + seq!['/']
}

/// Whether `path` lies below the directory `dir`: it is made of the
/// directory's path, a `/` and more.
pub open spec fn is_below(dir: Seq<char>, path: Seq<char>) -> bool {
    has_head(dir, path) && path.len() > dir.len() as int + 1
}

/// Whether `dir` lies above `path`: it is a part of the path that is not
/// empty and ends before a `/`. These are the directories that must stand
/// for something to stand at the path.
pub open spec fn is_above(dir: Seq<char>, path: Seq<char>) -> bool {
    dir.len() > 0 && has_head(dir, path)
}

/// The path within `dir` of a path that lies below it.
pub open spec fn within(dir: Seq<char>, path: Seq<char>) -> Seq<char> {
    path.subrange(dir.len() as int + 1, path.len() as int)
}

/// Whether `path` has no part in the directory `dir`: it is not the
/// directory, does not open with the directory's path and a `/`, and does
/// not lie above the directory.
pub open spec fn is_outside(dir: Seq<char>, path: Seq<char>) -> bool {
    path != dir && !has_head(dir, path) && !is_above(path, dir)
}

/// Whether `path` stands in the directory `dir` itself: it lies below the
/// directory, and no `/` follows the one after the directory's path.
pub open spec fn is_child(dir: Seq<char>, path: Seq<char>) -> bool {
    is_below(dir, path) && forall|i: int| dir.len() < i < path.len() ==> path[i] != '/'
}

/// What lies above a path that stands in a directory is the directory, or
/// lies above the directory.
pub proof fn lemma_above_of_child(dir: Seq<char>, path: Seq<char>, above: Seq<char>)
    requires
        is_child(dir, path),
        is_above(above, path),
    ensures
        above == dir || is_above(above, dir),
{
    let head = path.subrange(0, above.len() as int + 1);
    assert(head[above.len() as int] == (above + seq!['/'])[above.len() as int]);
    assert(path[above.len() as int] == '/');
    if above.len() == dir.len() {
        let dir_head = path.subrange(0, dir.len() as int + 1);
        assert(above =~= head.subrange(0, above.len() as int));
        assert(dir =~= dir_head.subrange(0, dir.len() as int));
    } else {
        lemma_heads_are_nested(above, dir, path);
    }
}

/// A path that opens with a directory that opens with another opens with
/// that other.
pub proof fn lemma_heads_chain(top: Seq<char>, dir: Seq<char>, path: Seq<char>)
    requires
        has_head(top, dir),
        has_head(dir, path),
    ensures
        has_head(top, path),
{
    let head = path.subrange(0, dir.len() as int + 1);
    let short = top.len() as int + 1;
    assert(path.subrange(0, short) =~= head.subrange(0, short));
    assert(head.subrange(0, short) =~= dir.subrange(0, short));
}

/// A path that opens with two directories has the shorter one above the
/// longer one, where they are not of one length.
pub proof fn lemma_heads_are_nested(first: Seq<char>, second: Seq<char>, path: Seq<char>)
    requires
        has_head(first, path),
        has_head(second, path),
        first.len() < second.len(),
    ensures
        has_head(first, second),
{
    let head = path.subrange(0, second.len() as int + 1);
    assert(second.subrange(0, first.len() as int + 1) =~= head.subrange(
        0,
        first.len() as int + 1,
    ));
    assert(head.subrange(0, first.len() as int + 1) =~= path.subrange(
        0,
        first.len() as int + 1,
    ));
}

/// Whether two directories have no part in each other: they are two, and
/// the path of neither opens with the path of the other and a `/`.
pub open spec fn are_apart(first: Seq<char>, second: Seq<char>) -> bool {
    first != second && !has_head(first, second) && !has_head(second, first)
}

/// Nothing lies below both of two directories that have no part in each
/// other, and neither lies below the other.
pub proof fn lemma_apart_directories(first: Seq<char>, second: Seq<char>)
    requires
        are_apart(first, second),
    ensures
        !is_below(first, second),
        !is_below(second, first),
        forall|path: Seq<char>|
            is_below(first, path) ==> path != second && !is_below(second, path),
{
    assert forall|path: Seq<char>| is_below(first, path) implies path != second && !is_below(
        second,
        path,
    ) by {
        if is_below(second, path) {
            if first.len() < second.len() {
                lemma_heads_are_nested(first, second, path);
            } else if second.len() < first.len() {
                lemma_heads_are_nested(second, first, path);
            } else {
                let head = path.subrange(0, first.len() as int + 1);
                assert(first =~= head.subrange(0, first.len() as int));
                assert(second =~= head.subrange(0, first.len() as int));
            }
        }
    }
}

/// A path within a directory lies below the directory, and is found again
/// from there.
pub proof fn lemma_below_within(dir: Seq<char>, inner: Seq<char>)
    requires
        inner.len() > 0,
    ensures
        is_below(dir, below(dir, inner)),
        within(dir, below(dir, inner)) == inner,
        below(dir, inner) != dir,
{
    let path = below(dir, inner);
    assert(path.subrange(0, dir.len() as int + 1) =~= dir + seq!['/']);
    assert(within(dir, path) =~= inner);
}

/// A path below a directory is the path of its part within the directory.
pub proof fn lemma_within_below(dir: Seq<char>, path: Seq<char>)
    requires
        is_below(dir, path),
    ensures
        within(dir, path).len() > 0,
        below(dir, within(dir, path)) == path,
{
    let head = path.subrange(0, dir.len() as int + 1);
    assert(below(dir, within(dir, path)) =~= head + within(dir, path));
    assert(head + within(dir, path) =~= path);
}

/// Whether a text can be a path's extension: it holds none of the
/// characters that part a path.
pub open spec fn is_extension(extension: Seq<char>) -> bool {
    forall|i: int| 0 <= i < extension.len() ==> extension[i] != '/' && extension[i] != '\\'
}

/// The path that `std::path::Path::with_extension` makes of a path and an
/// extension.
pub uninterp spec fn path_with_extension(path: Seq<char>, extension: Seq<char>) -> Seq<char>;

/// The path of `name` below `base`.
pub fn join_path(base: &str, name: &str) -> (joined: String)
    ensures
        joined@ == joined_path(base@, name@),
{
    let name_len: usize = name.unicode_len();
    if name_len > 0 && name.get_char(0) == '/' {
        return name.to_owned();
    }
    let base_len: usize = base.unicode_len();
    if base_len == 0 || base.get_char(base_len - 1) == '/' {
        base.to_owned().concat(name)
    } else {
        proof {
            reveal_strlit("/");
            assert("/"@ =~= seq!['/']);
        }
        base.to_owned().concat("/").concat(name)
    }
}

/// Whether `path` opens with the path of `dir` and a `/`.
pub fn opens_with(dir: &str, path: &str) -> (opens: bool)
    ensures
        opens == has_head(dir@, path@),
{
    let dir_len: usize = dir.unicode_len();
    let path_len: usize = path.unicode_len();
    if path_len <= dir_len {
        return false;
    }
    let mut i: usize = 0;
    while i < dir_len
        invariant
            i <= dir_len == dir@.len(),
            path_len == path@.len(),
            dir_len < path_len,
            forall|j: int| 0 <= j < i ==> path@[j] == dir@[j],
        decreases dir_len - i,
    {
        if path.get_char(i) != dir.get_char(i) {
            proof {
                let head = path@.subrange(0, dir@.len() as int + 1);
                assert(head[i as int] != (dir@ + seq!['/'])[i as int]);
            }
            return false;
        }
        i += 1;
    }
    let parted: bool = path.get_char(dir_len) == '/';
    proof {
        let head = path@.subrange(0, dir@.len() as int + 1);
        if parted {
            assert(head =~= dir@ + seq!['/']);
        } else {
            assert(head[dir_len as int] != (dir@ + seq!['/'])[dir_len as int]);
        }
    }
    parted
}

/// Whether `path` lies below the directory `dir`.
pub fn lies_below(dir: &str, path: &str) -> (lies: bool)
    ensures
        lies == is_below(dir@, path@),
{
    let dir_len: usize = dir.unicode_len();
    let path_len: usize = path.unicode_len();
    opens_with(dir, path) && path_len - dir_len > 1
}

/// Whether `dir` lies above `path`.
pub fn lies_above(dir: &str, path: &str) -> (lies: bool)
    ensures
        lies == is_above(dir@, path@),
{
    dir.unicode_len() > 0 && opens_with(dir, path)
}

/// Whether two directories have no part in each other.
pub fn lie_apart(first: &str, second: &str) -> (apart: bool)
    ensures
        apart == are_apart(first@, second@),
{
    let same: bool = first.to_owned() == second.to_owned();
    !same && !opens_with(first, second) && !opens_with(second, first)
}

/// Whether `path` has no part in the directory `dir`.
pub fn lies_outside(dir: &str, path: &str) -> (lies: bool)
    ensures
        lies == is_outside(dir@, path@),
{
    let same: bool = path.to_owned() == dir.to_owned();
    !same && !opens_with(dir, path) && !lies_above(path, dir)
}

/// Replaces the extension of a path's last part, by
/// `std::path::Path::with_extension`. That function panics on an extension
/// that holds a path separator, so none is taken here. The result is made
/// from the two texts alone; it is known by the name `path_with_extension`.
#[verifier::external_body]
pub(crate) fn with_extension(path: &str, extension: &str) -> (renamed: String)
    requires
        is_extension(extension@),
    ensures
        renamed@ == path_with_extension(path@, extension@),
{
    std::path::Path::new(path).with_extension(extension).to_string_lossy().into_owned()
}

/// The three extensions that the store gives its paths are extensions.
pub proof fn lemma_store_extensions()
    ensures
        is_extension("modb"@),
        is_extension("ldb"@),
        is_extension("tmp.tar"@),
{
    reveal_strlit("modb");
    reveal_strlit("ldb");
    reveal_strlit("tmp.tar");
}

} // verus!
