//! Request routing: a path of the form `/<window>/<command>[/...]` names a
//! target window and a command. The path splits on `/`; the first non-empty
//! segment is the window, the second the command, and anything after them is
//! ignored. A path with fewer than two non-empty segments does not route.

use vstd::prelude::*;
use vstd::string::StrSliceExecFns;
use vstd::string::StringExecFns;

verus! {

/// Splitting `s` on `/` with `cur` as the segment read so far: the non-empty
/// segments, in order.
pub open spec fn split_acc(s: Seq<char>, cur: Seq<char>) -> Seq<Seq<char>>
    decreases s.len(),
{
    if s.len() == 0 {
        if cur.len() > 0 {
            seq![cur]
        } else {
            seq![]
        }
    } else if s[0] == '/' {
        (if cur.len() > 0 {
            seq![cur]
        } else {
            seq![]
        }) + split_acc(s.drop_first(), seq![])
    } else {
        split_acc(s.drop_first(), cur.push(s[0]))
    }
}

/// The non-empty `/`-separated segments of a path.
pub open spec fn split_path(s: Seq<char>) -> Seq<Seq<char>> {
    split_acc(s, seq![])
}

/// The window and command a path routes to, if it has two non-empty
/// segments.
pub open spec fn spec_route(p: Seq<char>) -> Option<(Seq<char>, Seq<char>)> {
    let segs = split_path(p);
    if segs.len() >= 2 {
        Some((segs[0], segs[1]))
    } else {
        None
    }
}

/// Every segment the split yields is non-empty.
pub proof fn lemma_split_acc_nonempty(s: Seq<char>, cur: Seq<char>)
    ensures
        forall|i: int| 0 <= i < split_acc(s, cur).len() ==> split_acc(s, cur)[i].len() > 0,
    decreases s.len(),
{
    if s.len() == 0 {
    } else if s[0] == '/' {
        lemma_split_acc_nonempty(s.drop_first(), seq![]);
        let a: Seq<Seq<char>> = if cur.len() > 0 {
            seq![cur]
        } else {
            seq![]
        };
        let b = split_acc(s.drop_first(), seq![]);
        assert(split_acc(s, cur) == a + b);
        assert forall|i: int| 0 <= i < split_acc(s, cur).len() implies split_acc(s, cur)[i].len()
            > 0 by {
            if i < a.len() {
                assert((a + b)[i] == cur);
            } else {
                assert((a + b)[i] == b[i - a.len()]);
            }
        }
    } else {
        lemma_split_acc_nonempty(s.drop_first(), cur.push(s[0]));
        assert(split_acc(s, cur) == split_acc(s.drop_first(), cur.push(s[0])));
    }
}

/// A routed window and command are both non-empty.
pub proof fn lemma_route_segments_nonempty(p: Seq<char>)
    ensures
        match spec_route(p) {
            Some((w, c)) => w.len() > 0 && c.len() > 0,
            None => true,
        },
{
    lemma_split_acc_nonempty(p, seq![]);
}

/// The character sequences a list of strings stands for.
pub open spec fn strings_view(v: Seq<String>) -> Seq<Seq<char>> {
    v.map_values(|s: String| s@)
}

/// Collects the non-empty `/`-separated segments of a path.
pub fn split_path_segments(path: &str) -> (segs: Vec<String>)
    ensures
        strings_view(segs@) == split_path(path@),
{
    let n = path.unicode_len();
    let mut segs: Vec<String> = Vec::new();
    let mut start: usize = 0;
    let mut i: usize = 0;
    proof {
        assert(path@.skip(0) =~= path@);
        assert(path@.subrange(0, 0) =~= Seq::<char>::empty());
        assert(strings_view(segs@) =~= Seq::<Seq<char>>::empty());
    }
    while i < n
        invariant
            start <= i <= n,
            n == path@.len(),
            strings_view(segs@) + split_acc(path@.skip(i as int), path@.subrange(start as int, i as int))
                =~= split_path(path@),
        decreases n - i,
    {
        let ghost rest = path@.skip(i as int);
        let ghost cur = path@.subrange(start as int, i as int);
        proof {
            assert(rest[0] == path@[i as int]);
            assert(rest.drop_first() =~= path@.skip(i as int + 1));
        }
        let c = path.get_char(i);
        if c == '/' {
            if start < i {
                let seg = path.substring_char(start, i);
                segs.push(String::from_str(seg));
                proof {
                    assert(strings_view(segs@) =~= strings_view(segs@.drop_last()) + seq![cur]);
                }
            }
            proof {
                assert(path@.subrange(i as int + 1, i as int + 1) =~= Seq::<char>::empty());
            }
            start = i + 1;
        } else {
            proof {
                assert(cur.push(path@[i as int]) =~= path@.subrange(start as int, i as int + 1));
            }
        }
        i += 1;
    }
    proof {
        assert(path@.skip(n as int) =~= Seq::<char>::empty());
    }
    if start < n {
        let seg = path.substring_char(start, n);
        segs.push(String::from_str(seg));
        proof {
            assert(strings_view(segs@) =~= strings_view(segs@.drop_last()) + seq![
                path@.subrange(start as int, n as int),
            ]);
        }
    }
    segs
}

/// Routes a path to its window and command, if it has them.
pub fn route_path(path: &str) -> (r: Option<(String, String)>)
    ensures
        match r {
            Some((w, c)) => spec_route(path@) == Some((w@, c@)),
            None => spec_route(path@) is None,
        },
{
    let mut segs = split_path_segments(path);
    if segs.len() >= 2 {
        let c = segs.remove(1);
        let w = segs.remove(0);
        Some((w, c))
    } else {
        None
    }
}

} // verus!
