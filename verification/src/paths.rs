//! Lexical resolution of the working directory that a session tracks. The
//! sandbox's file system is never consulted.

use crate::docker_vm::DockerVmManager;
use crate::text::chars_of;
use vstd::prelude::*;
use vstd::string::StringExecFns;

verus! {

/// The directory every session starts in, that a bare `cd` returns to, and
/// above which `..` never climbs.
pub open spec fn home_directory() -> Seq<char> {
    "/home/hacker"@
}

/// Number of characters at the front of `path` before its first `/`.
pub open spec fn segment_len(path: Seq<char>) -> nat
    decreases path.len(),
{
    if path.len() > 0 && path[0] != '/' {
        1 + segment_len(path.drop_first())
    } else {
        0
    }
}

/// The segments of `path`: its maximal runs of characters other than `/`,
/// in order. Repeated, leading and trailing slashes yield no segment.
pub open spec fn path_segments(path: Seq<char>) -> Seq<Seq<char>>
    decreases path.len(),
{
    if path.len() == 0 {
        Seq::empty()
    } else if path[0] == '/' {
        path_segments(path.drop_first())
    } else {
        proof {
            lemma_segment_len_bound(path);
        }
        let n = segment_len(path) as int;
        seq![path.take(n)] + path_segments(path.skip(n))
    }
}

/// The segments joined by single slashes, with no slash in front.
pub open spec fn joined(segments: Seq<Seq<char>>) -> Seq<char>
    decreases segments.len(),
{
    if segments.len() == 0 {
        Seq::empty()
    } else if segments.len() == 1 {
        segments[0]
    } else {
        joined(segments.drop_last()) + seq!['/'] + segments.last()
    }
}

/// Whether a directory with these segments lies above the home directory:
/// whether it is the root or `/home`.
pub open spec fn is_above_home(segments: Seq<Seq<char>>) -> bool {
    segments.len() == 0 || (segments.len() == 1 && segments[0] == "home"@)
}

/// The directory above `dir`: `dir` without its last segment, written with
/// single slashes. Where that would lie above the home directory, and where
/// `dir` has no segment at all, it is the home directory instead.
pub open spec fn parent_of(dir: Seq<char>) -> Seq<char> {
    let segments = path_segments(dir);
    if segments.len() == 0 || is_above_home(segments.drop_last()) {
        home_directory()
    } else {
        seq!['/'] + joined(segments.drop_last())
    }
}

/// Where a directory change to `target` leads from `current`.
pub open spec fn resolved(current: Seq<char>, target: Seq<char>) -> Seq<char>
    decreases target.len(),
{
    if target.len() > 0 && target[0] == '/' {
        target
    } else if target == ".."@ {
        parent_of(current)
    } else if target == "."@ {
        current
    } else if target.len() >= 3 && target.take(3) == "../"@ {
        resolved(parent_of(current), target.skip(3))
    } else if current.len() > 0 && current.last() == '/' {
        current + target
    } else {
        current + seq!['/'] + target
    }
}

/// The segment at the front of a path ends before the first slash, or at
/// the end of the path.
pub proof fn lemma_segment_len_bound(path: Seq<char>)
    ensures
        segment_len(path) <= path.len(),
        path.len() > 0 && path[0] != '/' ==> segment_len(path) >= 1,
        forall|i: int| 0 <= i < segment_len(path) ==> #[trigger] path[i] != '/',
        segment_len(path) < path.len() ==> path[segment_len(path) as int] == '/',
    decreases path.len(),
{
    if path.len() > 0 && path[0] != '/' {
        let t = path.drop_first();
        lemma_segment_len_bound(t);
        assert forall|i: int| 0 <= i < segment_len(path) implies #[trigger] path[i] != '/' by {
            if i > 0 {
                assert(path[i] == t[i - 1]);
            }
        }
        if segment_len(path) < path.len() {
            assert(path[segment_len(path) as int] == t[segment_len(t) as int]);
        }
    }
}

/// The length of the segment at the front is the position of the first slash.
pub proof fn lemma_segment_len_is(path: Seq<char>, k: int)
    requires
        0 <= k <= path.len(),
        forall|i: int| 0 <= i < k ==> #[trigger] path[i] != '/',
        k < path.len() ==> path[k] == '/',
    ensures
        segment_len(path) == k,
{
    lemma_segment_len_bound(path);
    let n = segment_len(path) as int;
    if n < k {
        assert(path[n] != '/');
    } else if n > k {
        assert(path[k] != '/');
    }
}

/// Whether a text can be a segment of a path: it is not empty and holds no
/// slash.
pub open spec fn is_segment(text: Seq<char>) -> bool {
    text.len() > 0 && forall|i: int| 0 <= i < text.len() ==> #[trigger] text[i] != '/'
}

/// Whether each text of a list can be a segment of a path.
pub open spec fn are_segments(list: Seq<Seq<char>>) -> bool {
    forall|k: int| 0 <= k < list.len() ==> is_segment(#[trigger] list[k])
}

/// No segment of a path is empty and none holds a slash.
pub proof fn lemma_segments_are_segments(path: Seq<char>)
    ensures
        are_segments(path_segments(path)),
    decreases path.len(),
{
    if path.len() == 0 {
    } else if path[0] == '/' {
        lemma_segments_are_segments(path.drop_first());
    } else {
        lemma_segment_len_bound(path);
        let n = segment_len(path) as int;
        lemma_segments_are_segments(path.skip(n));
        let head = path.take(n);
        let tail = path_segments(path.skip(n));
        let all = path_segments(path);
        assert(all == seq![head] + tail);
        assert forall|i: int| 0 <= i < head.len() implies #[trigger] head[i] != '/' by {
            assert(head[i] == path[i]);
        }
        assert(is_segment(head));
        assert forall|k: int| 0 <= k < all.len() implies is_segment(#[trigger] all[k]) by {
            if k > 0 {
                assert(all[k] == tail[k - 1]);
            }
        }
    }
}

/// Joining two or more segments puts the first in front of the others
/// joined.
pub proof fn lemma_joined_front(segments: Seq<Seq<char>>)
    requires
        segments.len() >= 2,
    ensures
        joined(segments) == segments[0] + seq!['/'] + joined(segments.drop_first()),
    decreases segments.len(),
{
    let front = segments.drop_last();
    let back = segments.drop_first();
    if segments.len() == 2 {
        assert(joined(front) == segments[0]);
        assert(joined(back) == segments[1]);
    } else {
        lemma_joined_front(front);
        assert(back.drop_last() =~= front.drop_first());
        assert(back.last() == segments.last());
        assert(joined(back) == joined(back.drop_last()) + seq!['/'] + back.last());
        assert(joined(segments) =~= segments[0] + seq!['/'] + joined(back));
    }
}

/// A path that is written by joining segments has those segments, with or
/// without a slash in front.
pub proof fn lemma_segments_of_joined(segments: Seq<Seq<char>>)
    requires
        are_segments(segments),
    ensures
        path_segments(joined(segments)) == segments,
        path_segments(seq!['/'] + joined(segments)) == segments,
    decreases segments.len(),
{
    let path = joined(segments);
    if segments.len() == 0 {
        assert(path_segments(path) =~= segments);
    } else if segments.len() == 1 {
        let only = segments[0];
        assert(is_segment(only));
        lemma_segment_len_is(only, only.len() as int);
        assert(only.take(only.len() as int) =~= only);
        assert(only.skip(only.len() as int) =~= Seq::<char>::empty());
        assert(path_segments(only.skip(only.len() as int)) =~= Seq::<Seq<char>>::empty());
        assert(path_segments(path) =~= segments);
    } else {
        let first = segments[0];
        let others = segments.drop_first();
        let rest = joined(others);
        lemma_joined_front(segments);
        assert(is_segment(first));
        assert forall|k: int| 0 <= k < others.len() implies is_segment(#[trigger] others[k]) by {
            assert(others[k] == segments[k + 1]);
        }
        lemma_segments_of_joined(others);
        let n = first.len() as int;
        assert forall|i: int| 0 <= i < n implies #[trigger] path[i] != '/' by {
            assert(path[i] == first[i]);
        }
        assert(path[n] == '/');
        lemma_segment_len_is(path, n);
        assert(path.take(n) =~= first);
        assert(path.skip(n) =~= seq!['/'] + rest);
        assert((seq!['/'] + rest)[0] == '/');
        assert((seq!['/'] + rest).drop_first() =~= rest);
        assert(path_segments(seq!['/'] + rest) == path_segments(rest));
        assert(path_segments(path) =~= segments);
    }
    let slashed = seq!['/'] + path;
    assert(slashed[0] == '/');
    assert(slashed.drop_first() =~= path);
}

/// The home directory has the two segments `home` and `hacker`.
pub proof fn lemma_home_segments()
    ensures
        path_segments(home_directory()) == seq!["home"@, "hacker"@],
{
    reveal_strlit("/home/hacker");
    reveal_strlit("home");
    reveal_strlit("hacker");
    let segments = seq!["home"@, "hacker"@];
    assert(is_segment("home"@));
    assert(is_segment("hacker"@));
    assert(joined(segments.drop_last()) == "home"@);
    assert(joined(segments) == "home"@ + seq!['/'] + "hacker"@);
    assert(home_directory() =~= seq!['/'] + joined(segments));
    lemma_segments_of_joined(segments);
}

/// The bounds of the segments of a path, in order: segment `k` is the
/// subrange of the path from `bounds[k].0` to `bounds[k].1`.
pub open spec fn marks_segments(path: Seq<char>, bounds: Seq<(usize, usize)>) -> bool {
    &&& bounds.len() == path_segments(path).len()
    &&& forall|k: int|
        0 <= k < bounds.len() ==> {
            &&& (#[trigger] bounds[k]).0 <= bounds[k].1 <= path.len()
            &&& path_segments(path)[k] == path.subrange(bounds[k].0 as int, bounds[k].1 as int)
        }
}

/// Finds the segments of a path.
pub fn segment_bounds(path: &Vec<char>) -> (bounds: Vec<(usize, usize)>)
    ensures
        marks_segments(path@, bounds@),
{
    let mut bounds: Vec<(usize, usize)> = Vec::new();
    let mut pos: usize = 0;
    let ghost mut found: Seq<Seq<char>> = Seq::empty();
    proof {
        assert(path@.skip(0) =~= path@);
    }
    while pos < path.len()
        invariant
            pos <= path.len(),
            bounds@.len() == found.len(),
            found + path_segments(path@.skip(pos as int)) == path_segments(path@),
            forall|k: int|
                0 <= k < bounds@.len() ==> {
                    &&& (#[trigger] bounds@[k]).0 <= bounds@[k].1 <= path.len()
                    &&& found[k] == path@.subrange(bounds@[k].0 as int, bounds@[k].1 as int)
                },
        decreases path.len() - pos,
    {
        let ghost rest = path@.skip(pos as int);
        if path[pos] == '/' {
            proof {
                assert(rest[0] == '/');
                assert(rest.drop_first() =~= path@.skip(pos + 1));
            }
            pos += 1;
        } else {
            let start = pos;
            while pos < path.len() && path[pos] != '/'
                invariant
                    start <= pos <= path.len(),
                    forall|i: int| start <= i < pos ==> #[trigger] path@[i] != '/',
                decreases path.len() - pos,
            {
                pos += 1;
            }
            proof {
                assert forall|i: int| 0 <= i < pos - start implies #[trigger] rest[i] != '/' by {
                    assert(rest[i] == path@[start + i]);
                }
                if pos < path.len() {
                    assert(rest[pos - start] == path@[pos as int]);
                }
                lemma_segment_len_is(rest, pos - start);
                let segment = rest.take(pos - start);
                assert(segment =~= path@.subrange(start as int, pos as int));
                assert(rest.skip(pos - start) =~= path@.skip(pos as int));
                assert(path_segments(rest) == seq![segment] + path_segments(path@.skip(pos as int)));
                assert(found.push(segment) + path_segments(path@.skip(pos as int)) =~= found
                    + path_segments(rest));
                found = found.push(segment);
            }
            bounds.push((start, pos));
        }
    }
    proof {
        assert(path@.skip(path.len() as int) =~= Seq::<char>::empty());
        assert(found + Seq::<Seq<char>>::empty() =~= found);
    }
    bounds
}

/// Writes the directory above `dir`.
pub fn parent_directory(dir: &str) -> (parent: String)
    ensures
        parent@ == parent_of(dir@),
{
    let chars = chars_of(dir);
    let bounds = segment_bounds(&chars);
    let ghost segments = path_segments(dir@);
    if bounds.len() <= 1 {
        return "/home/hacker".to_string();
    }
    if bounds.len() == 2 {
        let (start, end) = bounds[0];
        proof {
            reveal_strlit("home");
            assert(segments.drop_last()[0] == chars@.subrange(start as int, end as int));
        }
        if end - start == 4 && chars[start] == 'h' && chars[start + 1] == 'o' && chars[start + 2]
            == 'm' && chars[start + 3] == 'e' {
            assert(chars@.subrange(start as int, end as int) =~= "home"@);
            return "/home/hacker".to_string();
        }
        proof {
            let first = chars@.subrange(start as int, end as int);
            if first == "home"@ {
                assert(first[0] == chars@[start as int]);
                assert(first[1] == chars@[start + 1]);
                assert(first[2] == chars@[start + 2]);
                assert(first[3] == chars@[start + 3]);
            }
        }
    }
    let kept: usize = bounds.len() - 1;
    let mut parent = String::from_str("/");
    let mut k: usize = 0;
    proof {
        reveal_strlit("/");
        assert("/"@ =~= seq!['/']);
        assert(segments.take(0) =~= Seq::<Seq<char>>::empty());
        assert(parent@ =~= seq!['/'] + joined(segments.take(0)));
    }
    while k < kept
        invariant
            chars@ == dir@,
            segments == path_segments(dir@),
            marks_segments(chars@, bounds@),
            kept == bounds.len() - 1,
            k <= kept,
            "/"@ == seq!['/'],
            parent@ == seq!['/'] + joined(segments.take(k as int)),
        decreases kept - k,
    {
        let (start, end) = bounds[k];
        if k > 0 {
            parent.append("/");
        }
        parent.append(dir.substring_char(start, end));
        proof {
            let before = segments.take(k as int);
            let after = segments.take(k + 1);
            assert(after.drop_last() =~= before);
            assert(after.last() == segments[k as int]);
            assert(segments[k as int] == dir@.subrange(start as int, end as int));
            if k == 0 {
                assert(joined(after) == after[0]);
                assert(joined(before) =~= Seq::<char>::empty());
                assert(parent@ =~= seq!['/'] + joined(after));
            } else {
                assert(joined(after) == joined(before) + seq!['/'] + segments[k as int]);
                assert(parent@ =~= seq!['/'] + joined(after));
            }
        }
        k += 1;
    }
    proof {
        assert(segments.take(kept as int) =~= segments.drop_last());
    }
    parent
}

impl DockerVmManager {
    /// Resolves the target of a directory change against the current
    /// directory of a session.
    ///
    /// An absolute target is taken as it is, `.` stays, `..` climbs one
    /// segment but never to a directory above the home directory, a target that starts with
    /// `../` climbs once and resolves what follows from there, and any other
    /// target is appended after exactly one slash.
    pub fn resolve_path(current_dir: &str, target: &str) -> (dir: String)
        ensures
            dir@ == resolved(current_dir@, target@),
        decreases target@.len(),
    {
        let t = chars_of(target);
        proof {
            reveal_strlit("..");
            reveal_strlit(".");
            reveal_strlit("../");
            reveal_strlit("/");
        }
        if t.len() > 0 && t[0] == '/' {
            String::from_str(target)
        } else if t.len() == 2 && t[0] == '.' && t[1] == '.' {
            assert(target@ =~= ".."@);
            parent_directory(current_dir)
        } else if t.len() == 1 && t[0] == '.' {
            assert(target@ =~= "."@);
            String::from_str(current_dir)
        } else if t.len() >= 3 && t[0] == '.' && t[1] == '.' && t[2] == '/' {
            let parent = parent_directory(current_dir);
            let remaining = target.substring_char(3, t.len());
            proof {
                assert(remaining@ =~= target@.skip(3));
                assert(target@.take(3) =~= "../"@);
            }
            Self::resolve_path(parent.as_str(), remaining)
        } else {
            let c = chars_of(current_dir);
            let mut dir = String::from_str(current_dir);
            if !(c.len() > 0 && c[c.len() - 1] == '/') {
                dir.append("/");
            }
            dir.append(target);
            proof {
                assert("/"@ =~= seq!['/']);
                if target@.len() >= 3 && target@.take(3) == "../"@ {
                    assert(target@[0] == target@.take(3)[0]);
                    assert(target@[1] == target@.take(3)[1]);
                    assert(target@[2] == target@.take(3)[2]);
                }
            }
            dir
        }
    }
}

} // verus!
