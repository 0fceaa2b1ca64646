use vstd::prelude::*;
use crate::lyrics::{Lyrics, Time};

verus! {

/// The lines are in ascending order of time.
pub open spec fn sorted_by_time(lines: Seq<Lyrics>) -> bool {
    forall|i: int, j: int| 0 <= i < j < lines.len() ==> lines[i].time <= lines[j].time
}

/// The index of the last line that starts at or before `t`, found by a scan
/// from the end; `None` when no line does.
pub open spec fn resolve(lines: Seq<Lyrics>, t: usize) -> Option<int>
    decreases lines.len(),
{
    if lines.len() == 0 {
        None
    } else if lines.last().time <= t {
        Some(lines.len() - 1)
    } else {
        resolve(lines.drop_last(), t)
    }
}

/// An index as an optional mathematical integer.
pub open spec fn as_int(r: Option<usize>) -> Option<int> {
    match r {
        Some(i) => Some(i as int),
        None => None,
    }
}

/// `r` stands where the lines change from starting at or before `t` to
/// starting after it: the line at `r` (if any) starts at or before `t`, and
/// the line after it (if any) starts after `t`.
pub open spec fn is_boundary(lines: Seq<Lyrics>, t: usize, r: Option<usize>) -> bool {
    match r {
        Some(i) => i < lines.len() && lines[i as int].time <= t && (i + 1 == lines.len()
            || lines[i + 1].time > t),
        None => lines.len() == 0 || lines[0].time > t,
    }
}

/// `resolve` gives the largest index whose line starts at or before `t`, and
/// `None` exactly when every line starts after `t`.
pub proof fn lemma_resolve_is_last_at_or_before(lines: Seq<Lyrics>, t: usize)
    ensures
        match resolve(lines, t) {
            Some(i) => 0 <= i < lines.len() && lines[i].time <= t && forall|j: int|
                i < j < lines.len() ==> #[trigger] lines[j].time > t,
            None => forall|j: int| 0 <= j < lines.len() ==> #[trigger] lines[j].time > t,
        },
    decreases lines.len(),
{
    if lines.len() > 0 && lines.last().time > t {
        let rest = lines.drop_last();
        lemma_resolve_is_last_at_or_before(rest, t);
        match resolve(rest, t) {
            Some(i) => {
                assert forall|j: int| i < j < lines.len() implies #[trigger] lines[j].time > t by {
                    if j < lines.len() - 1 {
                        assert(lines[j] == rest[j]);
                    }
                }
            },
            None => {
                assert forall|j: int| 0 <= j < lines.len() implies #[trigger] lines[j].time > t by {
                    if j < lines.len() - 1 {
                        assert(lines[j] == rest[j]);
                    }
                }
            },
        }
        assert(resolve(lines, t) == resolve(rest, t));
    }
}

/// On sorted lines, a boundary is the index that `resolve` gives.
proof fn lemma_boundary_resolves(lines: Seq<Lyrics>, t: usize, r: Option<usize>)
    requires
        sorted_by_time(lines),
        is_boundary(lines, t, r),
    ensures
        as_int(r) == resolve(lines, t),
{
    lemma_resolve_is_last_at_or_before(lines, t);
    match resolve(lines, t) {
        Some(k) => {
            match r {
                Some(i) => {
                    if (i as int) < k {
                        assert(lines[i + 1].time <= lines[k].time);
                    } else if (i as int) > k {
                        assert(lines[i as int].time > t);
                    }
                },
                None => {
                    assert(lines[0].time <= lines[k].time);
                },
            }
        },
        None => {
            if let Some(i) = r {
                assert(lines[i as int].time > t);
            }
        },
    }
}

/// Finds, by binary search, the last line that starts at or before `time`.
/// On sorted lines that is the largest such index, or `None` when every line
/// starts later (an empty list included). On unsorted lines the result is still
/// a point where the lines go from "at or before" to "after".
pub fn find_lyric_line(lyrics: &Vec<Lyrics>, time: Time) -> (r: Option<usize>)
    ensures
        is_boundary(lyrics@, time.time, r),
        sorted_by_time(lyrics@) ==> as_int(r) == resolve(lyrics@, time.time),
{
    let mut left: usize = 0;
    let mut right: usize = lyrics.len();
    while left < right
        invariant
            left <= right <= lyrics@.len(),
            left == 0 || lyrics@[left - 1].time <= time.time,
            right == lyrics@.len() || lyrics@[right as int].time > time.time,
        decreases right - left,
    {
        let mid = left + (right - left) / 2;
        if lyrics[mid].time <= time.time {
            left = mid + 1;
        } else {
            right = mid;
        }
    }
    let r = if left > 0 {
        Some(left - 1)
    } else {
        None
    };
    proof {
        if sorted_by_time(lyrics@) {
            lemma_boundary_resolves(lyrics@, time.time, r);
        }
    }
    r
}

} // verus!
