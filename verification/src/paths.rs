//! Paths, and what is found at them.

use vstd::prelude::*;
use crate::text::{characters, same_text, text_of, texts, utf8};

verus! {

pub const MAX_PATH_BYTES: usize = 512;

/// Where the part of a path at some place ends: at the next slash, or at the end.
pub open spec fn part_end(path: Seq<char>, from: int) -> int
    decreases path.len() - from,
{
    if from >= path.len() {
        path.len() as int
    } else if path[from] == '/' {
        from
    } else {
        part_end(path, from + 1)
    }
}

/// The names in a path from some place on. What is empty, or a single dot, is no name.
pub open spec fn names_from(path: Seq<char>, from: int) -> Seq<Seq<char>>
    decreases path.len() + 1 - from,
{
    let end = part_end(path, from);
    if from < 0 || from >= path.len() || end < from || end > path.len() {
        seq![]
    } else {
        let part = path.subrange(from, end);
        if part.len() == 0 || part == "."@ {
            names_from(path, end + 1)
        } else {
            seq![part] + names_from(path, end + 1)
        }
    }
}

/// The names in a path.
pub open spec fn path_names(path: Seq<char>) -> Seq<Seq<char>> {
    names_from(path, 0)
}

/// A path begins at the root.
pub open spec fn from_root(path: Seq<char>) -> bool {
    path.len() > 0 && path[0] == '/'
}

/// A part of a path that names something: not empty, not one dot, not two.
pub open spec fn plain_part(part: Seq<char>) -> bool {
    part.len() > 0 && part != seq!['.'] && part != seq!['.', '.']
}

/// Every part of a path from some place on names something.
pub open spec fn plain_parts(path: Seq<char>, from: int) -> bool
    decreases path.len() - from,
{
    let end = part_end(path, from);
    if from < 0 || end < from {
        false
    } else if end >= path.len() {
        plain_part(path.subrange(from, path.len() as int))
    } else {
        plain_part(path.subrange(from, end)) && plain_parts(path, end + 1)
    }
}

/// A path begins at the root, is written in the only way it can be, and is no longer than paths are:
/// parts that name something, with one slash before each, or the root itself.
pub open spec fn normalized_absolute(path: Seq<char>) -> bool {
    &&& utf8(path).len() <= MAX_PATH_BYTES
    &&& from_root(path)
    &&& path.len() == 1 || plain_parts(path, 1)
}

/// A path begins at the root, leads only downwards, and is no longer than paths are, however it is
/// written.
pub open spec fn absolute_without_parents(path: Seq<char>) -> bool {
    &&& utf8(path).len() <= MAX_PATH_BYTES
    &&& from_root(path)
    &&& forall|i: int|
        0 <= i < path_names(path).len() ==> #[trigger] path_names(path)[i] != ".."@
}

/// Two paths from the root lead through the same names.
pub open spec fn same_place(a: Seq<char>, b: Seq<char>) -> bool {
    from_root(a) == from_root(b) && path_names(a) == path_names(b)
}

proof fn lemma_part_end(path: Seq<char>, from: int)
    requires
        0 <= from <= path.len(),
    ensures
        from <= part_end(path, from) <= path.len(),
    decreases path.len() - from,
{
    if from < path.len() && path[from] != '/' {
        lemma_part_end(path, from + 1);
    }
}

/// Behind every slash of a path, from some place on, stands what is neither a slash nor a dot.
pub open spec fn names_begin_from(path: Seq<char>, from: int) -> bool
    decreases path.len() - from,
{
    from >= path.len() || ((path[from] != '/' || (from + 1 < path.len() && path[from + 1] != '/'
        && path[from + 1] != '.')) && names_begin_from(path, from + 1))
}

proof fn lemma_names_begin(path: Seq<char>, from: int, at: int)
    requires
        names_begin_from(path, from),
        from <= at <= path.len(),
    ensures
        names_begin_from(path, at),
    decreases at - from,
{
    if from < at {
        lemma_names_begin(path, from + 1, at);
    }
}

proof fn lemma_plain_parts(path: Seq<char>, from: int)
    requires
        0 <= from < path.len(),
        path[from] != '/' && path[from] != '.',
        names_begin_from(path, from),
    ensures
        plain_parts(path, from),
    decreases path.len() - from,
{
    lemma_part_end(path, from + 1);
    let end = part_end(path, from);
    let part = path.subrange(from, end);
    assert(part[0] == path[from]);
    assert(seq!['.'][0] == '.' && seq!['.', '.'][0] == '.');
    if end < path.len() {
        lemma_slash_at(path, from);
        lemma_names_begin(path, from, end);
        lemma_plain_parts(path, end + 1);
    }
}

proof fn lemma_slash_at(path: Seq<char>, from: int)
    requires
        0 <= from <= path.len(),
        part_end(path, from) < path.len(),
    ensures
        path[part_end(path, from)] == '/',
    decreases path.len() - from,
{
    if path[from] != '/' {
        lemma_slash_at(path, from + 1);
    }
}

/// A path of ASCII from the root, in which neither a slash nor a dot stands behind a slash, and no
/// slash at the end, is written in the only way it can be.
pub proof fn lemma_plain_path(path: Seq<char>)
    requires
        from_root(path),
        vstd::utf8::is_ascii_chars(path),
        names_begin_from(path, 0),
        path.len() <= MAX_PATH_BYTES,
    ensures
        normalized_absolute(path),
{
    lemma_names_begin(path, 0, 1);
    lemma_plain_parts(path, 1);
    vstd::utf8::is_ascii_chars_encode_utf8(path);
}

proof fn lemma_plain_names(path: Seq<char>, from: int)
    requires
        0 <= from,
        plain_parts(path, from) || from > path.len(),
    ensures
        forall|i: int|
            0 <= i < names_from(path, from).len() ==> #[trigger] names_from(path, from)[i]
                != ".."@,
    decreases path.len() + 1 - from,
{
    reveal_strlit("..");
    assert(".."@ =~= seq!['.', '.']);
    if from < path.len() {
        lemma_part_end(path, from);
        let end = part_end(path, from);
        let part = path.subrange(from, end);
        let rest = names_from(path, end + 1);
        lemma_plain_names(path, end + 1);
        assert forall|i: int| 0 <= i < names_from(path, from).len() implies #[trigger] names_from(
            path,
            from,
        )[i] != ".."@ by {
            if names_from(path, from) != rest {
                assert(names_from(path, from) == seq![part] + rest);
                if i > 0 {
                    assert((seq![part] + rest)[i] == rest[i - 1]);
                }
            }
        }
    }
}

/// A normalized path leads only downwards.
pub proof fn lemma_normalized_paths_lead_downwards(path: Seq<char>)
    requires
        normalized_absolute(path),
    ensures
        absolute_without_parents(path),
{
    assert(part_end(path, 0) == 0);
    if path.len() == 1 {
        assert(names_from(path, 1) =~= seq![]);
    } else {
        lemma_plain_names(path, 1);
    }
    assert(path_names(path) == names_from(path, 1));
}

/// Where the part of a path at some place ends.
pub(crate) fn find_part_end(all: &Vec<char>, from: usize) -> (r: usize)
    requires
        from <= all@.len(),
    ensures
        r == part_end(all@, from as int),
        from <= r <= all@.len(),
{
    let mut i: usize = from;
    while i < all.len() && all[i] != '/'
        invariant
            from <= i <= all@.len(),
            part_end(all@, from as int) == part_end(all@, i as int),
        decreases all.len() - i,
    {
        i += 1;
    }
    i
}

/// Whether every part of a path from some place on names something.
pub(crate) fn parts_are_plain(all: &Vec<char>, start: usize) -> (r: bool)
    requires
        start <= all@.len(),
    ensures
        r == plain_parts(all@, start as int),
{
    let mut from: usize = start;
    loop
        invariant
            start <= from <= all@.len(),
            plain_parts(all@, start as int) == plain_parts(all@, from as int),
        decreases all.len() - from,
    {
        let end = find_part_end(all, from);
        let size: usize = end - from;
        let ghost part = all@.subrange(from as int, end as int);
        let plain = size > 0 && !(size == 1 && all[from] == '.') && !(size == 2 && all[from] == '.'
            && all[from + 1] == '.');
        proof {
            let one = seq!['.'];
            let two = seq!['.', '.'];
            assert(one.len() == 1 && one[0] == '.');
            assert(two.len() == 2 && two[0] == '.' && two[1] == '.');
            assert(part.len() == size);
            if size == 1 {
                assert(part[0] == all@[from as int]);
                assert((part =~= one) == (all@[from as int] == '.'));
            }
            if size == 2 {
                assert(part[0] == all@[from as int] && part[1] == all@[from + 1]);
                assert((part =~= two) == (all@[from as int] == '.' && all@[from + 1] == '.'));
            }
            assert(plain == plain_part(part));
        }
        if !plain || end >= all.len() {
            return plain;
        }
        from = end + 1;
    }
}

/// The names in a path.
pub fn split_path(path: &str) -> (r: Vec<String>)
    ensures
        texts(r@) == path_names(path@),
{
    let all = characters(path);
    let mut found: Vec<String> = Vec::new();
    let mut from: usize = 0;
    assert(texts(found@) + names_from(path@, 0) =~= path_names(path@));
    while from < all.len()
        invariant
            from <= all.len(),
            all@ == path@,
            texts(found@) + names_from(path@, from as int) == path_names(path@),
        decreases all.len() - from,
    {
        let end = find_part_end(&all, from);
        let part = text_of(&all, from, end);
        let ghost before = found@;
        let ghost place = from as int;
        let next: usize = if end < all.len() {
            end + 1
        } else {
            end
        };
        proof {
            lemma_part_end(path@, place);
            assert(part@ == path@.subrange(place, end as int));
            assert(names_from(path@, next as int) == names_from(path@, end + 1));
        }
        if end > from && !same_text(part.as_str(), ".") {
            let ghost name = part@;
            found.push(part);
            proof {
                assert(texts(found@) =~= texts(before).push(name));
                assert(texts(before) + (seq![name] + names_from(path@, next as int)) =~= texts(
                    found@,
                ) + names_from(path@, next as int));
            }
        }
        from = next;
    }
    assert(names_from(path@, from as int) =~= seq![]);
    assert(texts(found@) + names_from(path@, from as int) =~= texts(found@));
    found
}

fn is_from_root(path: &str) -> (r: bool)
    ensures
        r == from_root(path@),
{
    let all = characters(path);
    all.len() > 0 && all[0] == '/'
}

/// Whether a path begins at the root, is written in the only way it can be, and is no longer than
/// paths are.
pub fn is_normalized_absolute_path(path: &str) -> (r: bool)
    ensures
        r == normalized_absolute(path@),
{
    if path.as_bytes().len() > MAX_PATH_BYTES {
        return false;
    }
    let all = characters(path);
    if all.len() == 0 || all[0] != '/' {
        return false;
    }
    all.len() == 1 || parts_are_plain(&all, 1)
}

/// Whether a path begins at the root, leads only downwards, and is no longer than paths are.
pub fn is_absolute_without_parents(path: &str) -> (r: bool)
    ensures
        r == absolute_without_parents(path@),
{
    if path.as_bytes().len() > MAX_PATH_BYTES || !is_from_root(path) {
        return false;
    }
    let names = split_path(path);
    let mut i: usize = 0;
    while i < names.len()
        invariant
            i <= names.len(),
            texts(names@) == path_names(path@),
            forall|k: int| 0 <= k < i ==> #[trigger] path_names(path@)[k] != ".."@,
        decreases names.len() - i,
    {
        assert(texts(names@)[i as int] == names@[i as int]@);
        if same_text(names[i].as_str(), "..") {
            return false;
        }
        i += 1;
    }
    true
}

/// Whether two paths from the root lead through the same names.
pub fn is_same_place(a: &str, b: &str) -> (r: bool)
    ensures
        r == same_place(a@, b@),
{
    if is_from_root(a) != is_from_root(b) {
        return false;
    }
    let left = split_path(a);
    let right = split_path(b);
    if left.len() != right.len() {
        assert(texts(left@).len() != texts(right@).len());
        return false;
    }
    let mut i: usize = 0;
    while i < left.len()
        invariant
            i <= left.len(),
            left.len() == right.len(),
            texts(left@) == path_names(a@),
            texts(right@) == path_names(b@),
            forall|k: int| 0 <= k < i ==> (#[trigger] left@[k])@ == right@[k]@,
        decreases left.len() - i,
    {
        if !same_text(left[i].as_str(), right[i].as_str()) {
            assert(texts(left@)[i as int] != texts(right@)[i as int]);
            return false;
        }
        i += 1;
    }
    assert(texts(left@) =~= texts(right@));
    true
}

/// What is found at a path, of what matters for a socket.
#[derive(Debug, Clone, Copy)]
pub struct NodeFacts {
    pub is_directory: bool,
    pub is_symlink: bool,
    pub is_socket: bool,
    pub uid: u32,
    pub gid: u32,
    pub mode: u32,
    pub device: u64,
    pub inode: u64,
}

impl NodeFacts {
    /// Two nodes are one.
    pub open spec fn is_node(self, device: u64, inode: u64) -> bool {
        self.device == device && self.inode == inode
    }
}

/// What a socket was when it was bound. Its path is only cleared while it still leads there.
#[derive(Debug)]
pub struct SocketCleanupGuard {
    pub path: String,
    pub device: u64,
    pub inode: u64,
}

impl SocketCleanupGuard {
    /// Whether the path is cleared, by what is found at it.
    pub fn clears(&self, found: &Option<NodeFacts>) -> (r: bool)
        ensures
            r == (found matches Some(facts) && facts.is_socket && facts.is_node(
                self.device,
                self.inode,
            )),
    {
        match found {
            Some(facts) => facts.is_socket && facts.device == self.device && facts.inode
                == self.inode,
            None => false,
        }
    }
}

/// What stands between two slashes of a path, or between one and an end of it.
pub open spec fn part_at(path: Seq<char>, a: int, b: int) -> bool {
    &&& 0 <= a <= b <= path.len()
    &&& a == 0 || path[a - 1] == '/'
    &&& b == path.len() || path[b] == '/'
    &&& forall|k: int| a <= k < b ==> #[trigger] path[k] != '/'
}

proof fn lemma_part_ends(path: Seq<char>, from: int, b: int)
    requires
        0 <= from <= b <= path.len(),
        b == path.len() || path[b] == '/',
        forall|k: int| from <= k < b ==> #[trigger] path[k] != '/',
    ensures
        part_end(path, from) == b,
    decreases b - from,
{
    if from < b {
        assert(path[from] != '/');
        lemma_part_ends(path, from + 1, b);
    }
}

proof fn lemma_no_slash_before_the_end(path: Seq<char>, from: int, at: int)
    requires
        0 <= from <= at < path.len(),
        path[at] == '/',
    ensures
        part_end(path, from) <= at,
    decreases at - from,
{
    if from < at && path[from] != '/' {
        lemma_no_slash_before_the_end(path, from + 1, at);
    }
}

/// Every part of a path whose parts are plain is plain.
pub proof fn lemma_every_part_is_plain(path: Seq<char>, from: int, a: int, b: int)
    requires
        plain_parts(path, from),
        0 <= from <= a,
        part_at(path, a, b),
    ensures
        plain_part(path.subrange(a, b)),
    decreases a - from,
{
    if from == a {
        lemma_part_ends(path, a, b);
    } else {
        lemma_part_end(path, from);
        lemma_no_slash_before_the_end(path, from, a - 1);
        lemma_every_part_is_plain(path, part_end(path, from) + 1, a, b);
    }
}

/// A normalized path leads from the root, and between two slashes of it, or behind the last one,
/// stands a name that is neither a place itself nor what is above it.
pub proof fn law_normalized_paths_have_names_only(path: &str, a: int, b: int)
    requires
        call_ensures(is_normalized_absolute_path, (path,), true),
        path@.len() > 1,
        1 <= a,
        part_at(path@, a, b),
    ensures
        path@[0] == '/',
        a < b,
        path@.subrange(a, b) != seq!['.'],
        path@.subrange(a, b) != seq!['.', '.'],
{
    lemma_every_part_is_plain(path@, 1, a, b);
}

/// Two paths are the same place only if both lead from the root or neither does, and through the same
/// names; and any path is the same place as itself, whoever asks first.
pub proof fn law_places_are_the_same_both_ways(
    a: &str,
    b: &str,
    there: bool,
    back: bool,
    itself: bool,
)
    requires
        call_ensures(is_same_place, (a, b), there),
        call_ensures(is_same_place, (b, a), back),
        call_ensures(is_same_place, (a, a), itself),
    ensures
        there == back,
        itself,
        there && a@.len() > 0 && b@.len() > 0 ==> (a@[0] == '/' <==> b@[0] == '/'),
{
}

/// A path that is taken begins at the root, is of 512 bytes at most, and leads only downwards. The root
/// itself is taken.
pub proof fn law_taken_paths_are_short_and_begin_at_the_root(
    path: &str,
    normalized: bool,
    downwards: bool,
)
    requires
        call_ensures(is_normalized_absolute_path, (path,), normalized),
        call_ensures(is_absolute_without_parents, (path,), downwards),
    ensures
        normalized || downwards ==> utf8(path@).len() <= 512 && path@.len() > 0 && path@[0] == '/',
        path@ == "/"@ ==> normalized,
        normalized || downwards ==> forall|i: int|
            0 <= i < path_names(path@).len() ==> #[trigger] path_names(path@)[i] != ".."@,
{
    reveal_strlit("/");
    if normalized {
        lemma_normalized_paths_lead_downwards(path@);
    }
    if path@ == "/"@ {
        lemma_root_is_short(path@);
    }
}

proof fn lemma_root_is_short(path: Seq<char>)
    requires
        path == "/"@,
    ensures
        utf8(path).len() <= 512,
{
    reveal_strlit("/");
    vstd::utf8::is_ascii_chars_encode_utf8(path);
}

} // verus!
