//! Paths as text, with `/` between their segments.

use crate::text::same;
use vstd::prelude::*;
use vstd::string::StringExecFns;

verus! {

/// The text after the last `/` of `path`; all of it where it holds none.
pub open spec fn last_segment(path: Seq<char>) -> Seq<char>
    decreases path.len(),
{
    if path.len() == 0 || path.last() == '/' {
        Seq::empty()
    } else {
        last_segment(path.drop_last()).push(path.last())
    }
}

/// The name of the file or directory that `path` ends in: its last segment
/// that is neither empty nor `.`. A path without such a segment has no
/// name, nor has one whose last such segment is `..`.
pub open spec fn base_name(path: Seq<char>) -> Option<Seq<char>>
    decreases path.len(),
{
    let segment = last_segment(path);
    if segment.len() == 0 || segment == "."@ {
        if segment.len() >= path.len() {
            None
        } else {
            base_name(path.take(path.len() - segment.len() - 1))
        }
    } else if segment == ".."@ {
        None
    } else {
        Some(segment)
    }
}

/// The last segment of `path` starts at `start` where no `/` follows
/// `start` and one stands just before it, or `start` is the beginning.
pub proof fn lemma_last_segment(path: Seq<char>, start: int)
    requires
        0 <= start <= path.len(),
        forall|i: int| start <= i < path.len() ==> path[i] != '/',
        start > 0 ==> path[start - 1] == '/',
    ensures
        last_segment(path) == path.skip(start),
    decreases path.len() - start,
{
    if start == path.len() {
        assert(path.skip(start) =~= Seq::empty());
    } else {
        let shorter = path.drop_last();
        lemma_last_segment(shorter, start);
        assert(shorter.skip(start).push(path.last()) =~= path.skip(start));
    }
}

/// The name of the file or directory that `path` ends in.
pub fn file_name(path: &str) -> (r: Option<String>)
    ensures
        r.deep_view() == base_name(path@),
{
    let n = path.unicode_len();
    let mut end: usize = n;
    proof {
        assert(path@.take(n as int) =~= path@);
    }
    loop
        invariant
            end <= n,
            n == path@.len(),
            base_name(path@) == base_name(path@.take(end as int)),
        decreases end,
    {
        let ghost head = path@.take(end as int);
        let mut start: usize = end;
        while start > 0 && path.get_char(start - 1) != '/'
            invariant
                start <= end <= n,
                n == path@.len(),
                forall|i: int| start <= i < end ==> path@[i] != '/',
            decreases start,
        {
            start -= 1;
        }
        let segment = path.substring_char(start, end);
        proof {
            lemma_last_segment(head, start as int);
            assert(head.skip(start as int) =~= path@.subrange(start as int, end as int));
        }
        if start == end || same(segment, ".") {
            if start == 0 {
                return None;
            }
            proof {
                assert(head.take(head.len() - segment@.len() - 1) =~= path@.take(start - 1));
            }
            end = start - 1;
        } else if same(segment, "..") {
            return None;
        } else {
            return Some(String::from_str(segment));
        }
    }
}

/// How much of the front of `path` is no name: 1 for the `/` of an
/// absolute path and for the `.` that a relative path begins with, else 0.
pub open spec fn floor(path: Seq<char>) -> int {
    if path.len() > 0 && (path[0] == '/' || (path[0] == '.' && (path.len() == 1 || path[1]
        == '/'))) {
        1
    } else {
        0
    }
}

/// Where the last segment of `path` begins, the first `floor` characters
/// left aside: behind the last `/` that follows them, or right behind them.
pub open spec fn segment_start(path: Seq<char>, floor: int) -> int
    decreases path.len(),
{
    if path.len() <= floor || path.len() == 0 {
        floor
    } else if path.last() == '/' {
        path.len() as int
    } else {
        segment_start(path.drop_last(), floor)
    }
}

/// The last segment begins within the path, not before the floor.
pub proof fn lemma_segment_start_bounds(path: Seq<char>, floor: int)
    requires
        0 <= floor <= path.len(),
    ensures
        floor <= segment_start(path, floor) <= path.len(),
    decreases path.len(),
{
    if path.len() > floor && path.last() != '/' {
        lemma_segment_start_bounds(path.drop_last(), floor);
    }
}

/// Whether a segment stands for nothing: it is empty or `.`.
pub open spec fn blank(segment: Seq<char>) -> bool {
    segment.len() == 0 || segment == "."@
}

/// `path` without its last segment and the `/` before it.
pub open spec fn without_last(path: Seq<char>, floor: int) -> Seq<char> {
    let start = segment_start(path, floor);
    path.take(
        if start == floor {
            floor
        } else {
            start - 1
        },
    )
}

/// `path` without the blank segments at its end.
pub open spec fn without_blanks(path: Seq<char>, floor: int) -> Seq<char>
    decreases path.len(),
{
    if 0 <= floor < path.len() && blank(path.skip(segment_start(path, floor))) {
        proof {
            lemma_segment_start_bounds(path, floor);
        }
        without_blanks(without_last(path, floor), floor)
    } else {
        path
    }
}

/// The parent of what is left of a path, `floor` being that of the whole
/// path.
pub open spec fn parent_from(path: Seq<char>, floor: int) -> Option<Seq<char>>
    decreases path.len(),
{
    if !(0 <= floor < path.len()) {
        if floor == 1 && path.len() == 1 && path[0] == '.' {
            Some(Seq::empty())
        } else {
            None
        }
    } else if blank(path.skip(segment_start(path, floor))) {
        proof {
            lemma_segment_start_bounds(path, floor);
        }
        parent_from(without_last(path, floor), floor)
    } else {
        Some(without_blanks(without_last(path, floor), floor))
    }
}

/// The directory that holds what `path` ends in: `path` without its last
/// name and without the `/` and the blank segments before it. A path that
/// ends in no name, such as `/` or the empty path, has no parent; the
/// parent of a single relative name is the empty path.
pub open spec fn parent_dir(path: Seq<char>) -> Option<Seq<char>> {
    parent_from(path, floor(path))
}

/// The last segment starts at `start` where no `/` follows `start` and one
/// stands just before it, or `start` is the floor.
pub proof fn lemma_segment_start(path: Seq<char>, floor: int, start: int)
    requires
        0 <= floor <= start <= path.len(),
        forall|i: int| start <= i < path.len() ==> path[i] != '/',
        start > floor ==> path[start - 1] == '/',
    ensures
        segment_start(path, floor) == start,
    decreases path.len() - start,
{
    if start < path.len() {
        lemma_segment_start(path.drop_last(), floor, start);
    }
}

fn find_segment_start(path: &str, floor: usize, end: usize) -> (start: usize)
    requires
        floor <= end <= path@.len(),
    ensures
        floor <= start <= end,
        start == segment_start(path@.take(end as int), floor as int),
{
    let mut start: usize = end;
    while start > floor && path.get_char(start - 1) != '/'
        invariant
            floor <= start <= end <= path@.len(),
            forall|i: int| start <= i < end ==> path@[i] != '/',
        decreases start,
    {
        start -= 1;
    }
    proof {
        lemma_segment_start(path@.take(end as int), floor as int, start as int);
    }
    start
}

/// Whether the segment of `path` from `start` to `end` is blank.
fn is_blank(path: &str, start: usize, end: usize) -> (r: bool)
    requires
        start <= end <= path@.len(),
    ensures
        r == blank(path@.subrange(start as int, end as int)),
{
    start == end || same(path.substring_char(start, end), ".")
}

/// The directory that holds what `path` ends in.
pub fn parent(path: &str) -> (r: Option<String>)
    ensures
        r.deep_view() == parent_dir(path@),
{
    let n = path.unicode_len();
    let floor: usize = if n > 0 && (path.get_char(0) == '/' || (path.get_char(0) == '.' && (n == 1
        || path.get_char(1) == '/'))) {
        1
    } else {
        0
    };
    let mut end: usize = n;
    proof {
        assert(path@.take(n as int) =~= path@);
    }
    loop
        invariant
            floor <= end <= n,
            n == path@.len(),
            floor == self::floor(path@),
            parent_dir(path@) == parent_from(path@.take(end as int), floor as int),
        decreases end,
    {
        let ghost left = path@.take(end as int);
        if end <= floor {
            if floor == 1 && path.get_char(0) == '.' {
                let none = String::new();
                return Some(none);
            }
            return None;
        }
        let start = find_segment_start(path, floor, end);
        let cut = if start == floor {
            floor
        } else {
            start - 1
        };
        proof {
            assert(left.skip(start as int) =~= path@.subrange(start as int, end as int));
            assert(left.take(cut as int) =~= path@.take(cut as int));
        }
        if is_blank(path, start, end) {
            end = cut;
        } else {
            let mut stop: usize = cut;
            loop
                invariant
                    floor <= stop <= n,
                    n == path@.len(),
                    without_blanks(path@.take(cut as int), floor as int) == without_blanks(
                        path@.take(stop as int),
                        floor as int,
                    ),
                ensures
                    floor <= stop <= n,
                    without_blanks(path@.take(cut as int), floor as int) == path@.take(stop as int),
                decreases stop,
            {
                let ghost kept = path@.take(stop as int);
                if stop <= floor {
                    break ;
                }
                let begin = find_segment_start(path, floor, stop);
                proof {
                    assert(kept.skip(begin as int) =~= path@.subrange(begin as int, stop as int));
                }
                if is_blank(path, begin, stop) {
                    let shorter = if begin == floor {
                        floor
                    } else {
                        begin - 1
                    };
                    proof {
                        assert(kept.take(shorter as int) =~= path@.take(shorter as int));
                    }
                    stop = shorter;
                } else {
                    break ;
                }
            }
            let dir = path.substring_char(0, stop);
            proof {
                assert(path@.subrange(0, stop as int) =~= path@.take(stop as int));
            }
            return Some(String::from_str(dir));
        }
    }
}

} // verus!
