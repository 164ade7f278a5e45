//! Request paths, read lexically: split into segments, walked down from the
//! static root, and joined onto it. Nothing here looks at the filesystem.

use vstd::prelude::*;
use vstd::string::StringExecFns;
use crate::text::{ends_with, match_prefix, push_char, PrefixMatch};

verus! {

/// The segments of a path: what stands between its slashes. A path of `n`
/// slashes has `n + 1` segments, some of which may be empty.
pub open spec fn split_path(path: Seq<char>) -> Seq<Seq<char>>
    decreases path.len(),
{
    if path.len() == 0 {
        seq![Seq::empty()]
    } else {
        let before = split_path(path.drop_last());
        if path.last() == '/' {
            before.push(Seq::empty())
        } else {
            before.drop_last().push(before.last().push(path.last()))
        }
    }
}

/// A segment that names nothing: the empty one and `.`.
pub open spec fn is_skipped(segment: Seq<char>) -> bool {
    segment.len() == 0 || (segment.len() == 1 && segment[0] == '.')
}

/// The segment `..`, which names the directory above.
pub open spec fn is_parent(segment: Seq<char>) -> bool {
    segment.len() == 2 && segment[0] == '.' && segment[1] == '.'
}

/// A segment that names an entry of a directory.
pub open spec fn is_name(segment: Seq<char>) -> bool {
    &&& !is_skipped(segment)
    &&& !is_parent(segment)
    &&& !segment.contains('/')
}

/// One step of the walk: where `segment` leads from the directory that
/// `names` leads to, or `None` where it leads above the root or the walk had
/// left the root before.
pub open spec fn step_down(names: Option<Seq<Seq<char>>>, segment: Seq<char>) -> Option<
    Seq<Seq<char>>,
> {
    match names {
        None => None,
        Some(names) => if is_skipped(segment) {
            Some(names)
        } else if is_parent(segment) {
            if names.len() == 0 {
                None
            } else {
                Some(names.drop_last())
            }
        } else {
            Some(names.push(segment))
        },
    }
}

/// Walks the segments down from the root. The result is the names that lead
/// from the root to where the walk ends, or `None` if any step of it climbed
/// above the root.
pub open spec fn descend(segments: Seq<Seq<char>>) -> Option<Seq<Seq<char>>>
    decreases segments.len(),
{
    if segments.len() == 0 {
        Some(Seq::empty())
    } else {
        step_down(descend(segments.drop_last()), segments.last())
    }
}

/// The path of the entry that `names` lead to from `root`.
pub open spec fn join_under(root: Seq<char>, names: Seq<Seq<char>>) -> Seq<char>
    decreases names.len(),
{
    if names.len() == 0 {
        root
    } else {
        join_under(root, names.drop_last()) + seq!['/'] + names.last()
    }
}

/// Whether `path` is `root` itself or lies beneath it: it begins with `root`,
/// and what follows, if anything, starts a new segment.
pub open spec fn is_within(root: Seq<char>, path: Seq<char>) -> bool {
    &&& root.is_prefix_of(path)
    &&& (path.len() == root.len() || path[root.len() as int] == '/' || (root.len() > 0
        && root.last() == '/'))
}

/// The texts that a list of strings holds.
pub open spec fn texts(names: Seq<String>) -> Seq<Seq<char>> {
    Seq::new(names.len(), |i: int| names[i]@)
}

/// A path always has a last segment, and none of its segments holds a slash.
pub proof fn split_path_segments(path: Seq<char>)
    ensures
        split_path(path).len() >= 1,
        forall|i: int|
            0 <= i < split_path(path).len() ==> !(#[trigger] split_path(path)[i]).contains('/'),
    decreases path.len(),
{
    if path.len() > 0 {
        split_path_segments(path.drop_last());
        let before = split_path(path.drop_last());
        let now = split_path(path);
        assert forall|i: int| 0 <= i < now.len() implies !(#[trigger] now[i]).contains('/') by {
            if i < now.len() - 1 {
                assert(now[i] == before[i]);
            } else if path.last() != '/' {
                let grown = before.last().push(path.last());
                assert(now[i] == grown);
                if grown.contains('/') {
                    let k = choose|k: int| 0 <= k < grown.len() && grown[k] == '/';
                    assert(before.last()[k] == '/');
                    assert(before.last().contains('/'));
                }
            }
        }
    }
}

/// The segments with a slash between each two.
pub open spec fn join_segments(segments: Seq<Seq<char>>) -> Seq<char>
    decreases segments.len(),
{
    if segments.len() == 0 {
        Seq::empty()
    } else if segments.len() == 1 {
        segments[0]
    } else {
        join_segments(segments.drop_last()) + seq!['/'] + segments.last()
    }
}

/// Splitting loses nothing: the segments, joined by slashes, are the path.
pub proof fn split_path_joins_back(path: Seq<char>)
    ensures
        join_segments(split_path(path)) == path,
    decreases path.len(),
{
    if path.len() > 0 {
        let init = path.drop_last();
        let before = split_path(init);
        split_path_joins_back(init);
        split_path_segments(init);
        if path.last() == '/' {
            assert(before.push(Seq::empty()).drop_last() == before);
            assert(init + seq!['/'] + Seq::<char>::empty() == path);
        } else {
            let grown = before.last().push(path.last());
            let now = before.drop_last().push(grown);
            if before.len() == 1 {
                assert(now[0] == grown);
                assert(grown == path);
            } else {
                assert(now.drop_last() == before.drop_last());
                let head = join_segments(before.drop_last()) + seq!['/'];
                assert(head + grown == (head + before.last()).push(path.last()));
                assert(init.push(path.last()) == path);
            }
        }
    }
}

proof fn descend_keeps_names(segments: Seq<Seq<char>>)
    requires
        forall|i: int| 0 <= i < segments.len() ==> !(#[trigger] segments[i]).contains('/'),
    ensures
        descend(segments) matches Some(names) ==> forall|i: int|
            0 <= i < names.len() ==> is_name(#[trigger] names[i]),
    decreases segments.len(),
{
    if segments.len() > 0 {
        let init = segments.drop_last();
        assert forall|i: int| 0 <= i < init.len() implies !(#[trigger] init[i]).contains('/') by {
            assert(init[i] == segments[i]);
        }
        descend_keeps_names(init);
        assert(!segments[segments.len() - 1].contains('/'));
    }
}

/// Where the walk over a path ends, only names lead there: no empty segment,
/// no `.`, no `..`, and nothing with a slash in it.
pub proof fn walk_keeps_names(path: Seq<char>)
    ensures
        descend(split_path(path)) matches Some(names) ==> forall|i: int|
            0 <= i < names.len() ==> is_name(#[trigger] names[i]),
{
    split_path_segments(path);
    descend_keeps_names(split_path(path));
}

/// Whatever names are joined onto a root, the result lies within the root.
pub proof fn join_under_is_within(root: Seq<char>, names: Seq<Seq<char>>)
    ensures
        is_within(root, join_under(root, names)),
        join_under(root, names).len() >= root.len(),
        names.len() > 0 ==> join_under(root, names).len() > root.len() && join_under(
            root,
            names,
        )[root.len() as int] == '/',
    decreases names.len(),
{
    if names.len() > 0 {
        join_under_is_within(root, names.drop_last());
    }
}

/// How many directories a segment leads down: one for a name, none for a
/// segment that is skipped, one up for `..`.
pub open spec fn descent(segment: Seq<char>) -> int {
    if is_skipped(segment) {
        0
    } else if is_parent(segment) {
        -1
    } else {
        1
    }
}

/// How far below the root the segments lead, each step counted as it stands.
pub open spec fn depth(segments: Seq<Seq<char>>) -> int
    decreases segments.len(),
{
    if segments.len() == 0 {
        0
    } else {
        depth(segments.drop_last()) + descent(segments.last())
    }
}

/// Whether the segments lead above the root at some point on the way:
/// whether, after some number of them, more have led up than down.
pub open spec fn climbs_above_root(segments: Seq<Seq<char>>) -> bool {
    exists|k: int| 0 <= k <= segments.len() && depth(#[trigger] segments.take(k)) < 0
}

/// The walk is refused exactly when the segments lead above the root at some
/// point, and otherwise ends as deep as they lead.
pub proof fn refused_iff_climbs(segments: Seq<Seq<char>>)
    ensures
        descend(segments) is None <==> climbs_above_root(segments),
        descend(segments) matches Some(names) ==> names.len() == depth(segments),
    decreases segments.len(),
{
    if segments.len() == 0 {
        assert forall|k: int| 0 <= k <= segments.len() implies depth(#[trigger] segments.take(k))
            >= 0 by {
            assert(segments.take(k) == segments);
        }
    } else {
        let init = segments.drop_last();
        refused_iff_climbs(init);
        assert(segments.take(segments.len() as int) == segments);
        assert forall|k: int| 0 <= k <= init.len() implies #[trigger] segments.take(k) == init.take(
            k,
        ) by {}
        if climbs_above_root(init) {
            let k = choose|k: int| 0 <= k <= init.len() && depth(#[trigger] init.take(k)) < 0;
            assert(segments.take(k) == init.take(k));
        } else {
            assert forall|k: int| 0 <= k <= init.len() implies depth(#[trigger] segments.take(k))
                >= 0 by {
                assert(segments.take(k) == init.take(k));
            }
        }
    }
}

/// What the segment being read looks like so far.
#[derive(Clone, Copy, PartialEq, Eq, Structural)]
enum Shape {
    Empty,
    Dot,
    DotDot,
    Name,
}

spec fn shape_of(segment: Seq<char>) -> Shape {
    if segment.len() == 0 {
        Shape::Empty
    } else if is_skipped(segment) {
        Shape::Dot
    } else if is_parent(segment) {
        Shape::DotDot
    } else {
        Shape::Name
    }
}

/// The shape of a segment that grew by one character.
fn grow(shape: Shape, c: char, Ghost(segment): Ghost<Seq<char>>) -> (out: Shape)
    requires
        shape == shape_of(segment),
    ensures
        out == shape_of(segment.push(c)),
{
    match shape {
        Shape::Empty => if c == '.' {
            Shape::Dot
        } else {
            Shape::Name
        },
        Shape::Dot => if c == '.' {
            Shape::DotDot
        } else {
            Shape::Name
        },
        Shape::DotDot | Shape::Name => Shape::Name,
    }
}

/// Takes one finished segment into the walk.
fn close_segment(names: &mut Vec<String>, left_root: &mut bool, segment: String, shape: Shape)
    requires
        shape == shape_of(segment@),
    ensures
        (if *final(left_root) {
            None
        } else {
            Some(texts(final(names)@))
        }) == step_down(
            if *old(left_root) {
                None
            } else {
                Some(texts(old(names)@))
            },
            segment@,
        ),
{
    if *left_root {
        return ;
    }
    match shape {
        Shape::Empty | Shape::Dot => {},
        Shape::DotDot => {
            if names.len() == 0 {
                *left_root = true;
            } else {
                names.pop();
                assert(texts(names@) == texts(old(names)@).drop_last());
            }
        },
        Shape::Name => {
            names.push(segment);
            assert(texts(names@) == texts(old(names)@).push(segment@));
        },
    }
}

/// Walks a request path down from the root. Returns the names that lead to
/// the entry it asks for, or `None` if the path climbs above the root at any
/// point, whatever it does afterwards.
pub fn normalize(requested: &str) -> (out: Option<Vec<String>>)
    ensures
        match out {
            Some(names) => descend(split_path(requested@)) == Some(texts(names@)),
            None => descend(split_path(requested@)) is None,
        },
{
    let mut names: Vec<String> = Vec::new();
    let mut left_root = false;
    let mut current = String::new();
    let mut shape = Shape::Empty;
    assert(requested@.take(0) == Seq::<char>::empty());
    assert(split_path(Seq::<char>::empty()).drop_last() == Seq::<Seq<char>>::empty());
    assert(texts(names@) == Seq::<Seq<char>>::empty());
    for c in it: requested.chars()
        invariant
            it.seq() == requested@,
            split_path(requested@.take(it.index())).len() >= 1,
            split_path(requested@.take(it.index())).last() == current@,
            shape == shape_of(current@),
            descend(split_path(requested@.take(it.index())).drop_last()) == (if left_root {
                None
            } else {
                Some(texts(names@))
            }),
    {
        let ghost read = requested@.take(it.index());
        let ghost next = requested@.take(it.index() + 1);
        assert(next.drop_last() == read);
        assert(next.last() == c);
        proof {
            split_path_segments(next);
        }
        if c == '/' {
            assert(split_path(next).drop_last() == split_path(read));
            close_segment(&mut names, &mut left_root, current, shape);
            current = String::new();
            shape = Shape::Empty;
        } else {
            assert(split_path(next).drop_last() == split_path(read).drop_last());
            shape = grow(shape, c, Ghost(current@));
            push_char(&mut current, c);
        }
    }
    assert(requested@.take(requested@.len() as int) == requested@);
    close_segment(&mut names, &mut left_root, current, shape);
    if left_root {
        None
    } else {
        Some(names)
    }
}

/// Joins names onto a root, a slash before each.
pub fn join(root: &str, names: &Vec<String>) -> (out: String)
    ensures
        out@ == join_under(root@, texts(names@)),
{
    let mut out = root.to_owned();
    let mut i: usize = 0;
    assert(texts(names@).take(0) == Seq::<Seq<char>>::empty());
    while i < names.len()
        invariant
            i <= names.len(),
            out@ == join_under(root@, texts(names@).take(i as int)),
        decreases names.len() - i,
    {
        let ghost done = texts(names@).take(i as int);
        let ghost next = texts(names@).take(i as int + 1);
        assert(next.drop_last() == done);
        assert(next.last() == names@[i as int]@);
        push_char(&mut out, '/');
        out.append(names[i].as_str());
        i += 1;
    }
    assert(texts(names@).take(names@.len() as int) == texts(names@));
    out
}

/// Whether `path` is `root` itself or lies beneath it.
pub fn within(root: &str, path: &str) -> (out: bool)
    ensures
        out == is_within(root@, path@),
{
    match match_prefix(path, root) {
        PrefixMatch::Missing => false,
        PrefixMatch::Whole => true,
        PrefixMatch::Proper(next) => next == '/' || ends_with(root, '/'),
    }
}

} // verus!
