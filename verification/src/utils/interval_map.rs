//! A map from half-open ranges of integer keys to the values that hold over them.
//!
//! The map is what was pushed into it: a sequence of values, each with the
//! range of keys over which it is active. For the sake of lookups it keeps
//! breakpoints, the keys at which the active values change, each with the
//! values that are active from there on. The functions of this file that take
//! a sequence of breakpoints say what such a sequence means and how a push
//! changes it.

use core::ops::Range;
use vstd::prelude::*;

verus! {

/// The values of the pushes whose range holds `key`, in the order of the
/// pushes. A push is its start, its end and its value; its range holds the
/// keys from the start up to, and without, the end.
pub open spec fn holding<V>(pushes: Seq<(int, int, V)>, key: int) -> Seq<V>
    decreases pushes.len(),
{
    if pushes.len() == 0 {
        Seq::empty()
    } else {
        let front = holding(pushes.drop_last(), key);
        let last = pushes.last();
        if last.0 <= key < last.1 {
            front.push(last.2)
        } else {
            front
        }
    }
}

/// The keys that the pushes mark: the start of each push, and the end of
/// each push whose range is not empty.
pub open spec fn marks<V>(pushes: Seq<(int, int, V)>) -> Set<int>
    decreases pushes.len(),
{
    if pushes.len() == 0 {
        Set::empty()
    } else {
        let front = marks(pushes.drop_last());
        let last = pushes.last();
        if last.0 < last.1 {
            front.insert(last.0).insert(last.1)
        } else {
            front.insert(last.0)
        }
    }
}

/// Whether the keys of a sequence of breakpoints strictly increase.
pub open spec fn increasing<V>(points: Seq<(int, Seq<V>)>) -> bool {
    forall|i: int, j: int| 0 <= i < j < points.len() ==> points[i].0 < points[j].0
}

/// The position of the last breakpoint whose key is at most `key`, or -1 where
/// there is none.
pub open spec fn floor<V>(points: Seq<(int, Seq<V>)>, key: int) -> int
    decreases points.len(),
{
    if points.len() == 0 {
        -1
    } else if points.last().0 <= key {
        points.len() - 1
    } else {
        floor(points.drop_last(), key)
    }
}

/// The values that are active at `key`: those of the breakpoint that `key` falls
/// under, none before the first breakpoint.
pub open spec fn active<V>(points: Seq<(int, Seq<V>)>, key: int) -> Seq<V> {
    let at = floor(points, key);
    if at < 0 {
        Seq::empty()
    } else {
        points[at].1
    }
}

/// The keys at which a sequence of breakpoints has a breakpoint.
pub open spec fn keys<V>(points: Seq<(int, Seq<V>)>) -> Set<int> {
    Set::new(|key: int| exists|i: int| 0 <= i < points.len() && #[trigger] points[i].0 == key)
}

/// `floor` is below the length, its breakpoint is at or before `key`, and every
/// later breakpoint is after `key`.
pub proof fn lemma_floor_bounds<V>(points: Seq<(int, Seq<V>)>, key: int)
    ensures
        -1 <= floor(points, key) < points.len(),
        floor(points, key) >= 0 ==> points[floor(points, key)].0 <= key,
        forall|j: int| floor(points, key) < j < points.len() ==> key < #[trigger] points[j].0,
    decreases points.len(),
{
    if points.len() > 0 && points.last().0 > key {
        let front = points.drop_last();
        lemma_floor_bounds(front, key);
        assert forall|j: int| floor(points, key) < j < points.len() implies key
            < #[trigger] points[j].0 by {
            if j < front.len() {
                assert(front[j] == points[j]);
            }
        }
    }
}

/// A position with a key at or before `key` and only greater keys behind it
/// is the `floor` of `key`.
pub proof fn lemma_floor_is<V>(points: Seq<(int, Seq<V>)>, key: int, at: int)
    requires
        -1 <= at < points.len(),
        at >= 0 ==> points[at].0 <= key,
        forall|j: int| at < j < points.len() ==> key < #[trigger] points[j].0,
    ensures
        floor(points, key) == at,
    decreases points.len(),
{
    if points.len() > 0 && at < points.len() - 1 {
        let front = points.drop_last();
        assert forall|j: int| at < j < front.len() implies key < #[trigger] front[j].0 by {
            assert(front[j] == points[j]);
        }
        lemma_floor_is(front, key, at);
    }
}

/// Where the keys increase, a key that has a breakpoint has the values of that
/// breakpoint active.
pub proof fn lemma_active_at_breakpoint<V>(points: Seq<(int, Seq<V>)>, at: int)
    requires
        increasing(points),
        0 <= at < points.len(),
    ensures
        floor(points, points[at].0) == at,
        active(points, points[at].0) == points[at].1,
{
    lemma_floor_is(points, points[at].0, at);
}

/// The breakpoints `points` with one more at `at`, whose key is `key` and
/// whose values are those of the breakpoint before it.
pub open spec fn with_breakpoint<V>(points: Seq<(int, Seq<V>)>, at: int, key: int) -> Seq<
    (int, Seq<V>),
> {
    points.insert(
        at,
        (
            key,
            if at == 0 {
                Seq::empty()
            } else {
                points[at - 1].1
            },
        ),
    )
}

/// A breakpoint put between its neighbours, with the values of the one before
/// it, adds its key and changes the active values at no key.
pub proof fn lemma_with_breakpoint<V>(points: Seq<(int, Seq<V>)>, at: int, key: int)
    requires
        increasing(points),
        0 <= at <= points.len(),
        forall|i: int| 0 <= i < at ==> (#[trigger] points[i]).0 < key,
        forall|i: int| at <= i < points.len() ==> key < (#[trigger] points[i]).0,
    ensures
        increasing(with_breakpoint(points, at, key)),
        keys(with_breakpoint(points, at, key)) == keys(points).insert(key),
        forall|k: int| active(with_breakpoint(points, at, key), k) == active(points, k),
{
    let grown = with_breakpoint(points, at, key);
    assert forall|i: int, j: int| 0 <= i < j < grown.len() implies grown[i].0 < grown[j].0 by {
        let before = if i < at {
            i
        } else {
            i - 1
        };
        let behind = if j < at {
            j
        } else {
            j - 1
        };
        if i != at && j != at {
            assert(points[before].0 < points[behind].0);
        } else if i == at {
            assert(key < points[behind].0);
        } else {
            assert(points[before].0 < key);
        }
    }
    assert forall|k: int| keys(grown).contains(k) <==> keys(points).insert(key).contains(k) by {
        if keys(grown).contains(k) {
            let i = choose|i: int| 0 <= i < grown.len() && #[trigger] grown[i].0 == k;
            if i < at {
                assert(points[i].0 == k);
            } else if i > at {
                assert(points[i - 1].0 == k);
            }
        }
        if keys(points).contains(k) {
            let i = choose|i: int| 0 <= i < points.len() && #[trigger] points[i].0 == k;
            if i < at {
                assert(grown[i].0 == k);
            } else {
                assert(grown[i + 1].0 == k);
            }
        }
        if k == key {
            assert(grown[at].0 == k);
        }
    }
    assert(keys(grown) =~= keys(points).insert(key));
    assert forall|k: int| active(grown, k) == active(points, k) by {
        let old_at = floor(points, k);
        lemma_floor_bounds(points, k);
        if k < key {
            if old_at >= at {
                assert(key < points[old_at].0);
            }
            assert forall|j: int| old_at < j < grown.len() implies k < #[trigger] grown[j].0 by {
                if j < at {
                    assert(k < points[j].0);
                } else if j > at {
                    assert(k < points[j - 1].0);
                }
            }
            lemma_floor_is(grown, k, old_at);
        } else {
            if at > 0 && old_at < at - 1 {
                assert(points[at - 1].0 < key);
                assert(k < points[at - 1].0);
            }
            assert forall|j: int| old_at + 1 < j < grown.len() implies k
                < #[trigger] grown[j].0 by {
                assert(k < points[j - 1].0);
            }
            lemma_floor_is(grown, k, old_at + 1);
        }
    }
}

/// The breakpoints `points` with a breakpoint at `key`: `points` itself where it
/// has one there, else with one more, which has the values that were active
/// at `key`.
pub open spec fn marked<V>(points: Seq<(int, Seq<V>)>, key: int) -> Seq<(int, Seq<V>)> {
    if keys(points).contains(key) {
        points
    } else {
        with_breakpoint(points, floor(points, key) + 1, key)
    }
}

/// The breakpoints `points` with `value` added behind the values of those at
/// the positions from `first` up to, and without, `last`.
pub open spec fn with_value<V>(points: Seq<(int, Seq<V>)>, first: int, last: int, value: V) -> Seq<
    (int, Seq<V>),
> {
    Seq::new(
        points.len(),
        |i: int|
            if first <= i < last {
                (points[i].0, points[i].1.push(value))
            } else {
                points[i]
            },
    )
}

/// A value added at the breakpoints from the one at `first` to the one before
/// `last` is active, behind the others, at the keys from that of `first` up to,
/// and without, that of `last`, and changes nothing at any other key.
pub proof fn lemma_with_value<V>(points: Seq<(int, Seq<V>)>, first: int, last: int, value: V)
    requires
        increasing(points),
        0 <= first < last < points.len(),
    ensures
        increasing(with_value(points, first, last, value)),
        keys(with_value(points, first, last, value)) == keys(points),
        forall|k: int|
            active(with_value(points, first, last, value), k) == if points[first].0 <= k
                < points[last].0 {
                active(points, k).push(value)
            } else {
                active(points, k)
            },
{
    let filled = with_value(points, first, last, value);
    assert forall|i: int, j: int| 0 <= i < j < filled.len() implies filled[i].0 < filled[j].0 by {
        assert(points[i].0 < points[j].0);
    }
    assert forall|k: int| keys(filled).contains(k) <==> keys(points).contains(k) by {
        if keys(filled).contains(k) {
            let i = choose|i: int| 0 <= i < filled.len() && #[trigger] filled[i].0 == k;
            assert(points[i].0 == k);
        }
        if keys(points).contains(k) {
            let i = choose|i: int| 0 <= i < points.len() && #[trigger] points[i].0 == k;
            assert(filled[i].0 == k);
        }
    }
    assert(keys(filled) =~= keys(points));
    assert forall|k: int|
        active(filled, k) == if points[first].0 <= k < points[last].0 {
            active(points, k).push(value)
        } else {
            active(points, k)
        } by {
        let at = floor(points, k);
        lemma_floor_bounds(points, k);
        assert forall|j: int| at < j < filled.len() implies k < #[trigger] filled[j].0 by {
            assert(k < points[j].0);
        }
        lemma_floor_is(filled, k, at);
        if points[first].0 <= k < points[last].0 {
            if at < first {
                assert(k < points[first].0);
            }
            if at >= last {
                if at > last {
                    assert(points[last].0 < points[at].0);
                }
            }
        } else if k < points[first].0 {
            if at >= first {
                if at > first {
                    assert(points[first].0 < points[at].0);
                }
            }
        } else {
            if at < last {
                assert(k < points[last].0);
            }
        }
    }
}

/// The breakpoints after a push of `value` over the keys from `start` up to,
/// and without, `end`: there is a breakpoint at `start`; where the range is not
/// empty there is one at `end` too, and `value` stands behind the values of
/// every breakpoint from `start` to the last one before `end`.
pub open spec fn pushed<V>(points: Seq<(int, Seq<V>)>, start: int, end: int, value: V) -> Seq<
    (int, Seq<V>),
> {
    if start < end {
        let both = marked(marked(points, start), end);
        with_value(both, floor(both, start), floor(both, end), value)
    } else {
        marked(points, start)
    }
}

/// A breakpoint added where a key has none adds that key and changes the
/// active values at no key.
pub proof fn lemma_marked<V>(points: Seq<(int, Seq<V>)>, key: int)
    requires
        increasing(points),
    ensures
        increasing(marked(points, key)),
        keys(marked(points, key)) == keys(points).insert(key),
        forall|k: int| active(marked(points, key), k) == active(points, k),
{
    if keys(points).contains(key) {
        assert(keys(points) =~= keys(points).insert(key));
    } else {
        let at = floor(points, key) + 1;
        lemma_floor_bounds(points, key);
        assert forall|i: int| 0 <= i < at implies (#[trigger] points[i]).0 < key by {
            if i < at - 1 {
                assert(points[i].0 < points[at - 1].0);
            }
            assert(keys(points).contains(points[i].0));
        }
        lemma_with_breakpoint(points, at, key);
    }
}

/// What a push means: the value is active, behind the others, at the keys
/// of its range and changes nothing at any other key; the keys stay in order,
/// and the ends of the range are the only keys that may be new.
pub proof fn lemma_pushed<V>(points: Seq<(int, Seq<V>)>, start: int, end: int, value: V)
    requires
        increasing(points),
    ensures
        increasing(pushed(points, start, end, value)),
        keys(pushed(points, start, end, value)) == if start < end {
            keys(points).insert(start).insert(end)
        } else {
            keys(points).insert(start)
        },
        forall|k: int|
            active(pushed(points, start, end, value), k) == if start <= k < end {
                active(points, k).push(value)
            } else {
                active(points, k)
            },
{
    lemma_marked(points, start);
    if start < end {
        let one = marked(points, start);
        lemma_marked(one, end);
        let both = marked(one, end);
        let first = floor(both, start);
        let last = floor(both, end);
        lemma_floor_bounds(both, start);
        lemma_floor_bounds(both, end);
        assert(keys(both).contains(start));
        assert(keys(both).contains(end));
        let i = choose|i: int| 0 <= i < both.len() && #[trigger] both[i].0 == start;
        let j = choose|j: int| 0 <= j < both.len() && #[trigger] both[j].0 == end;
        lemma_active_at_breakpoint(both, i);
        lemma_active_at_breakpoint(both, j);
        assert(i < j) by {
            if i > j {
                assert(both[j].0 < both[i].0);
            }
        }
        lemma_with_value(both, first, last, value);
    }
}

/// Whether a sequence of breakpoints stands for a sequence of pushes: its
/// keys strictly increase and are the keys that the pushes mark, and at every
/// key the active values are those of the pushes whose range holds the key.
pub open spec fn agrees<V>(points: Seq<(int, Seq<V>)>, pushes: Seq<(int, int, V)>) -> bool {
    &&& increasing(points)
    &&& keys(points) == marks(pushes)
    &&& forall|key: int| #[trigger] active(points, key) == holding(pushes, key)
}

/// Breakpoints that stand for some pushes stand, after one more push, for
/// those pushes and the new one.
pub proof fn lemma_push_agrees<V>(
    points: Seq<(int, Seq<V>)>,
    pushes: Seq<(int, int, V)>,
    start: int,
    end: int,
    value: V,
)
    requires
        agrees(points, pushes),
    ensures
        agrees(pushed(points, start, end, value), pushes.push((start, end, value))),
{
    let more = pushes.push((start, end, value));
    lemma_pushed(points, start, end, value);
    assert(more.drop_last() =~= pushes);
    assert(more.last() == (start, end, value));
    assert forall|key: int| #[trigger]
        active(pushed(points, start, end, value), key) == holding(more, key) by {
        assert(active(points, key) == holding(pushes, key));
    }
}

/// Only one sequence of breakpoints stands for a sequence of pushes.
pub proof fn lemma_agrees_once<V>(
    one: Seq<(int, Seq<V>)>,
    other: Seq<(int, Seq<V>)>,
    pushes: Seq<(int, int, V)>,
)
    requires
        agrees(one, pushes),
        agrees(other, pushes),
    ensures
        one == other,
{
    lemma_same_keys(one, other, one.len() as int);
    lemma_same_keys(other, one, other.len() as int);
    assert forall|i: int| 0 <= i < one.len() implies one[i] == other[i] by {
        lemma_active_at_breakpoint(one, i);
        lemma_active_at_breakpoint(other, i);
        assert(active(one, one[i].0) == holding(pushes, one[i].0));
        assert(active(other, other[i].0) == holding(pushes, other[i].0));
    }
    assert(one =~= other);
}

/// Of two increasing sequences of breakpoints with the same keys, the second
/// is as long as the first at least, and has the same key at each position of
/// the first.
proof fn lemma_same_keys<V>(one: Seq<(int, Seq<V>)>, other: Seq<(int, Seq<V>)>, upto: int)
    requires
        increasing(one),
        increasing(other),
        keys(one) == keys(other),
        0 <= upto <= one.len(),
    ensures
        upto <= other.len(),
        forall|i: int| 0 <= i < upto ==> (#[trigger] one[i]).0 == other[i].0,
    decreases upto,
{
    if upto > 0 {
        lemma_same_keys(one, other, upto - 1);
        let at = upto - 1;
        // the key of `one` at `at` is above the keys before it, so it stands
        // in `other` at `at` or behind
        assert(keys(one).contains(one[at].0));
        let there = choose|j: int| 0 <= j < other.len() && #[trigger] other[j].0 == one[at].0;
        if there < at {
            assert(one[there].0 == other[there].0);
            assert(one[there].0 < one[at].0);
        }
        // and the key of `other` at `at` stands in `one` at `at` or behind
        assert(keys(other).contains(other[at].0));
        let here = choose|j: int| 0 <= j < one.len() && #[trigger] one[j].0 == other[at].0;
        if here < at {
            assert(one[here].0 == other[here].0);
            assert(other[here].0 < other[at].0);
        }
        if there > at {
            assert(other[at].0 < other[there].0);
            if here > at {
                assert(one[at].0 < one[here].0);
            }
        }
    }
}

/// A value that is active at a key is the value of a push whose range holds
/// the key.
pub proof fn lemma_holding_is_pushed<V>(pushes: Seq<(int, int, V)>, key: int, value: V)
    requires
        holding(pushes, key).contains(value),
    ensures
        exists|i: int|
            0 <= i < pushes.len() && #[trigger] pushes[i].2 == value && pushes[i].0 <= key
                < pushes[i].1,
    decreases pushes.len(),
{
    if pushes.len() > 0 {
        let front = pushes.drop_last();
        let last = pushes.last();
        if last.0 <= key < last.1 && last.2 == value {
            assert(pushes[pushes.len() - 1].2 == value);
        } else {
            if last.0 <= key < last.1 {
                let found = holding(front, key).push(last.2);
                let i = choose|i: int| 0 <= i < found.len() && found[i] == value;
                assert(holding(front, key)[i] == value);
            }
            lemma_holding_is_pushed(front, key, value);
            let i = choose|i: int|
                0 <= i < front.len() && #[trigger] front[i].2 == value && front[i].0 <= key
                    < front[i].1;
            assert(pushes[i].2 == value);
        }
    }
}

/// The value of a push is active at every key that its range holds.
pub proof fn lemma_pushed_is_holding<V>(pushes: Seq<(int, int, V)>, at: int, key: int)
    requires
        0 <= at < pushes.len(),
        pushes[at].0 <= key < pushes[at].1,
    ensures
        holding(pushes, key).contains(pushes[at].2),
    decreases pushes.len(),
{
    let front = pushes.drop_last();
    let last = pushes.last();
    if at == pushes.len() - 1 {
        let found = holding(front, key).push(last.2);
        assert(found[found.len() - 1] == last.2);
    } else {
        assert(front[at] == pushes[at]);
        lemma_pushed_is_holding(front, at, key);
        let found = holding(front, key);
        let i = choose|i: int| 0 <= i < found.len() && found[i] == pushes[at].2;
        if last.0 <= key < last.1 {
            assert(found.push(last.2)[i] == pushes[at].2);
        }
    }
}

/// The start of every push is a key that the pushes mark.
pub proof fn lemma_start_is_marked<V>(pushes: Seq<(int, int, V)>, at: int)
    requires
        0 <= at < pushes.len(),
    ensures
        marks(pushes).contains(pushes[at].0),
    decreases pushes.len(),
{
    if at < pushes.len() - 1 {
        let front = pushes.drop_last();
        assert(front[at] == pushes[at]);
        lemma_start_is_marked(front, at);
    }
}

/// Breakpoints that stand for some pushes hold values of those pushes only,
/// and hold the value of every push whose range is not empty: it stands at the
/// breakpoint of its start.
pub proof fn lemma_breakpoints_hold_pushes<V>(
    points: Seq<(int, Seq<V>)>,
    pushes: Seq<(int, int, V)>,
)
    requires
        agrees(points, pushes),
    ensures
        forall|i: int, value: V|
            0 <= i < points.len() && #[trigger] points[i].1.contains(value) ==> exists|j: int|
                0 <= j < pushes.len() && #[trigger] pushes[j].2 == value,
        forall|j: int|
            0 <= j < pushes.len() && (#[trigger] pushes[j]).0 < pushes[j].1 ==> exists|i: int|
                0 <= i < points.len() && #[trigger] points[i].0 == pushes[j].0
                    && points[i].1.contains(pushes[j].2),
{
    assert forall|i: int, value: V|
        0 <= i < points.len() && #[trigger] points[i].1.contains(value) implies exists|j: int|
        0 <= j < pushes.len() && #[trigger] pushes[j].2 == value by {
        lemma_active_at_breakpoint(points, i);
        assert(active(points, points[i].0) == holding(pushes, points[i].0));
        lemma_holding_is_pushed(pushes, points[i].0, value);
    }
    assert forall|j: int|
        0 <= j < pushes.len() && (#[trigger] pushes[j]).0 < pushes[j].1 implies exists|i: int|
        0 <= i < points.len() && #[trigger] points[i].0 == pushes[j].0 && points[i].1.contains(
            pushes[j].2,
        ) by {
        let start = pushes[j].0;
        lemma_start_is_marked(pushes, j);
        assert(keys(points).contains(start));
        let i = choose|i: int| 0 <= i < points.len() && #[trigger] points[i].0 == start;
        lemma_active_at_breakpoint(points, i);
        assert(active(points, start) == holding(pushes, start));
        lemma_pushed_is_holding(pushes, j, start);
    }
}

/// One push: a value with the range of keys over which it is active.
struct Entry<V> {
    start: i32,
    end: i32,
    value: V,
}

/// One breakpoint: from `key` on, until the next breakpoint, the values of the
/// pushes at the positions listed are active.
struct Breakpoint {
    key: i32,
    active: Vec<usize>,
}

/// A map from half-open ranges of keys to values.
///
/// It holds every push in the order of the pushes, and a breakpoint at each key
/// where the active values change. A breakpoint lists the values that are
/// active from its key up to the next breakpoint, in the order of their pushes.
pub struct IntervalMap<V> {
    parts: Parts<V>,
}

/// The two parts of a map: the pushes, and the breakpoints that list them.
struct Parts<V> {
    entries: Vec<Entry<V>>,
    points: Vec<Breakpoint>,
}

/// The pushes that some entries stand for.
spec fn history<V>(entries: Seq<Entry<V>>) -> Seq<(int, int, V)> {
    entries.map_values(|entry: Entry<V>| (entry.start as int, entry.end as int, entry.value))
}

/// The values of the entries at the given positions.
spec fn select<V>(entries: Seq<Entry<V>>, positions: Seq<usize>) -> Seq<V> {
    positions.map_values(|position: usize| entries[position as int].value)
}

/// The breakpoints with their values looked up.
spec fn resolve<V>(entries: Seq<Entry<V>>, points: Seq<Breakpoint>) -> Seq<(int, Seq<V>)> {
    points.map_values(|point: Breakpoint| (point.key as int, select(entries, point.active@)))
}

/// Whether every position listed by a breakpoint is one of an entry.
spec fn listed<V>(entries: Seq<Entry<V>>, points: Seq<Breakpoint>) -> bool {
    forall|i: int, j: int|
        0 <= i < points.len() && 0 <= j < points[i].active@.len() ==> (
        #[trigger] points[i].active@[j]) < entries.len()
}

/// What the lookups need of the parts of a map: the keys strictly increase,
/// and every position that a breakpoint lists is that of an entry.
spec fn sound<V>(entries: Seq<Entry<V>>, points: Seq<Breakpoint>) -> bool {
    &&& listed(entries, points)
    &&& increasing(resolve(entries, points))
}

/// One more entry changes nothing for breakpoints that do not list it.
proof fn lemma_resolve_more<V>(entries: Seq<Entry<V>>, entry: Entry<V>, points: Seq<Breakpoint>)
    requires
        listed(entries, points),
    ensures
        listed(entries.push(entry), points),
        resolve(entries.push(entry), points) == resolve(entries, points),
{
    let more = entries.push(entry);
    assert forall|i: int| 0 <= i < points.len() implies resolve(more, points)[i] == resolve(
        entries,
        points,
    )[i] by {
        assert forall|j: int| 0 <= j < points[i].active@.len() implies select(
            more,
            points[i].active@,
        )[j] == select(entries, points[i].active@)[j] by {
            assert(points[i].active@[j] < entries.len());
        }
        assert(select(more, points[i].active@) =~= select(entries, points[i].active@));
    }
    assert(resolve(more, points) =~= resolve(entries, points));
}

/// Looks for `key` among the breakpoints. The position returned is that of the
/// first breakpoint whose key is not below `key`.
fn search<V>(entries: &Vec<Entry<V>>, points: &Vec<Breakpoint>, key: i32) -> (found: (bool, usize))
    requires
        increasing(resolve(entries@, points@)),
    ensures
        found.1 <= points@.len(),
        found.0 <==> found.1 < points@.len() && points@[found.1 as int].key == key,
        found.0 <==> keys(resolve(entries@, points@)).contains(key as int),
        floor(resolve(entries@, points@), key as int) == if found.0 {
            found.1 as int
        } else {
            found.1 - 1
        },
        forall|i: int| 0 <= i < found.1 ==> (#[trigger] points@[i]).key < key,
        forall|i: int|
            found.1 <= i < points@.len() && !(found.0 && i == found.1) ==> key < (
            #[trigger] points@[i]).key,
{
    let ghost model = resolve(entries@, points@);
    let mut low: usize = 0;
    let mut high: usize = points.len();
    while low < high
        invariant
            model == resolve(entries@, points@),
            increasing(model),
            low <= high <= points@.len(),
            forall|i: int| 0 <= i < low ==> (#[trigger] points@[i]).key < key,
            forall|i: int| high <= i < points@.len() ==> key <= (#[trigger] points@[i]).key,
        decreases high - low,
    {
        let middle = low + (high - low) / 2;
        if points[middle].key < key {
            assert forall|i: int| 0 <= i < middle + 1 implies (#[trigger] points@[i]).key < key by {
                if i < middle {
                    assert(model[i].0 < model[middle as int].0);
                }
            }
            low = middle + 1;
        } else {
            assert forall|i: int| middle <= i < points@.len() implies key <= (
            #[trigger] points@[i]).key by {
                if middle < i {
                    assert(model[middle as int].0 < model[i].0);
                }
            }
            high = middle;
        }
    }
    let found = low < points.len() && points[low].key == key;
    proof {
        assert forall|i: int| low <= i < points@.len() && !(found && i == low) implies key < (
        #[trigger] points@[i]).key by {
            if low < i {
                assert(model[low as int].0 < model[i].0);
            }
        }
        let at = if found {
            low as int
        } else {
            low - 1
        };
        assert forall|j: int| at < j < model.len() implies key < #[trigger] model[j].0 by {
            assert(key < points@[j].key);
        }
        if at >= 0 {
            assert(model[at].0 == points@[at].key);
        }
        lemma_floor_is(model, key as int, at);
        if found {
            assert(model[low as int].0 == key);
        } else if keys(model).contains(key as int) {
            let i = choose|i: int| 0 <= i < model.len() && #[trigger] model[i].0 == key;
            assert(points@[i].key == key);
        }
    }
    (found, low)
}

/// Makes sure that `key` has a breakpoint. A new one takes over the values of
/// the breakpoint before it, so that no key sees a change.
fn mark<V>(entries: &Vec<Entry<V>>, points: &mut Vec<Breakpoint>, key: i32)
    requires
        sound(entries@, old(points)@),
    ensures
        sound(entries@, final(points)@),
        resolve(entries@, final(points)@) == marked(resolve(entries@, old(points)@), key as int),
{
    let ghost model = resolve(entries@, points@);
    let (found, at) = search(entries, points, key);
    proof {
        lemma_marked(model, key as int);
    }
    if !found {
        let carried = if at == 0 {
            Vec::new()
        } else {
            points[at - 1].active.clone()
        };
        proof {
            if at > 0 {
                assert(carried@ =~= points@[at - 1].active@);
            }
        }
        points.insert(at, Breakpoint { key, active: carried });
        proof {
            let grown = with_breakpoint(model, at as int, key as int);
            let after = resolve(entries@, points@);
            assert forall|i: int| 0 <= i < grown.len() implies after[i] == grown[i] by {
                if i < at {
                    assert(points@[i] == old(points)@[i]);
                } else if i > at {
                    assert(points@[i] == old(points)@[i - 1]);
                } else if at > 0 {
                    assert(after[i].1 =~= model[at - 1].1);
                } else {
                    assert(after[i].1 =~= Seq::<V>::empty());
                }
            }
            assert(after =~= grown);
            assert forall|i: int, j: int|
                0 <= i < points@.len() && 0 <= j < points@[i].active@.len() implies (
            #[trigger] points@[i].active@[j]) < entries@.len() by {
                if i < at {
                    assert(points@[i] == old(points)@[i]);
                } else if i > at {
                    assert(points@[i] == old(points)@[i - 1]);
                } else if at > 0 {
                    assert(points@[i].active@[j] == old(points)@[at - 1].active@[j]);
                }
            }
        }
    }
}

/// Lists the entry at `place` behind the values of the breakpoints from the
/// one at `first` to the one before `last`.
fn fill<V>(
    entries: &Vec<Entry<V>>,
    points: &mut Vec<Breakpoint>,
    first: usize,
    last: usize,
    place: usize,
)
    requires
        listed(entries@, old(points)@),
        first <= last <= old(points)@.len(),
        place < entries@.len(),
    ensures
        listed(entries@, final(points)@),
        resolve(entries@, final(points)@) == with_value(
            resolve(entries@, old(points)@),
            first as int,
            last as int,
            entries@[place as int].value,
        ),
{
    let ghost model = resolve(entries@, points@);
    let ghost value = entries@[place as int].value;
    assert(model =~= with_value(model, first as int, first as int, value));
    let mut i = first;
    while i < last
        invariant
            first <= i <= last <= points@.len(),
            listed(entries@, points@),
            place < entries@.len(),
            value == entries@[place as int].value,
            model.len() == points@.len(),
            resolve(entries@, points@) == with_value(model, first as int, i as int, value),
        decreases last - i,
    {
        let ghost before = points@;
        points[i].active.push(place);
        proof {
            let filled = with_value(model, first as int, i + 1, value);
            let after = resolve(entries@, points@);
            assert forall|j: int| 0 <= j < filled.len() implies after[j] == filled[j] by {
                if j == i {
                    assert(after[j].1 =~= resolve(entries@, before)[j].1.push(value));
                } else {
                    assert(points@[j] == before[j]);
                    assert(after[j] == resolve(entries@, before)[j]);
                }
            }
            assert(after =~= filled);
            assert forall|a: int, b: int|
                0 <= a < points@.len() && 0 <= b < points@[a].active@.len() implies (
            #[trigger] points@[a].active@[b]) < entries@.len() by {
                if a != i {
                    assert(points@[a] == before[a]);
                } else if b < before[a].active@.len() {
                    assert(points@[a].active@[b] == before[a].active@[b]);
                }
            }
        }
        i = i + 1;
    }
}

impl<V> View for IntervalMap<V> {
    type V = Seq<(int, int, V)>;

    /// The pushes in their order: of each the start, the end and the value.
    closed spec fn view(&self) -> Seq<(int, int, V)> {
        history(self.parts.entries@)
    }
}

impl<V> Parts<V> {
    /// Whether the breakpoints list entries only, and stand for the pushes.
    spec fn wf(&self) -> bool {
        &&& listed(self.entries@, self.points@)
        &&& agrees(resolve(self.entries@, self.points@), history(self.entries@))
    }

    /// The parts of a map without pushes.
    fn new() -> (parts: Self)
        ensures
            parts.wf(),
            parts.entries@.len() == 0,
            parts.points@.len() == 0,
    {
        let entries: Vec<Entry<V>> = Vec::new();
        let points: Vec<Breakpoint> = Vec::new();
        proof {
            let none = Seq::<(int, Seq<V>)>::empty();
            assert(resolve(entries@, points@) =~= none);
            assert(history(entries@) =~= Seq::<(int, int, V)>::empty());
            assert(keys(none) =~= Set::<int>::empty());
        }
        Parts { entries, points }
    }

    /// Adds a push, and brings the breakpoints in line with it.
    fn push(&mut self, start: i32, end: i32, value: V)
        requires
            old(self).wf(),
        ensures
            final(self).wf(),
            history(final(self).entries@) == history(old(self).entries@).push(
                (start as int, end as int, value),
            ),
            resolve(final(self).entries@, final(self).points@) == pushed(
                resolve(old(self).entries@, old(self).points@),
                start as int,
                end as int,
                value,
            ),
    {
        let ghost before = resolve(self.entries@, self.points@);
        proof {
            lemma_pushed(before, start as int, end as int, value);
            lemma_push_agrees(before, history(self.entries@), start as int, end as int, value);
            lemma_marked(before, start as int);
            lemma_marked(marked(before, start as int), end as int);
        }
        let place = self.entries.len();
        let entry = Entry { start, end, value };
        proof {
            lemma_resolve_more(self.entries@, entry, self.points@);
            assert(history(self.entries@.push(entry)) =~= history(self.entries@).push(
                (start as int, end as int, value),
            ));
        }
        self.entries.push(entry);
        mark(&self.entries, &mut self.points, start);
        if start < end {
            mark(&self.entries, &mut self.points, end);
            let (_, first) = search(&self.entries, &self.points, start);
            let (_, last) = search(&self.entries, &self.points, end);
            proof {
                let both = resolve(self.entries@, self.points@);
                if first >= last {
                    if first > last {
                        assert(both[last as int].0 < both[first as int].0);
                    }
                }
            }
            fill(&self.entries, &mut self.points, first, last, place);
        }
    }
}

impl<V> Default for IntervalMap<V> {
    /// A map without pushes.
    fn default() -> (map: Self)
        ensures
            map@ == Seq::<(int, int, V)>::empty(),
            map.breakpoints() == Seq::<(int, Seq<V>)>::empty(),
    {
        IntervalMap::new()
    }
}

impl<V> IntervalMap<V> {
    /// The breakpoints in the order of their keys, each with its active values.
    pub closed spec fn breakpoints(&self) -> Seq<(int, Seq<V>)> {
        resolve(self.parts.entries@, self.parts.points@)
    }

    /// The invariant of the map: the breakpoints stand for the pushes.
    #[verifier::type_invariant]
    spec fn wf(&self) -> bool {
        self.parts.wf()
    }

    /// A map without pushes.
    pub fn new() -> (map: Self)
        ensures
            map@ == Seq::<(int, int, V)>::empty(),
            map.breakpoints() == Seq::<(int, Seq<V>)>::empty(),
    {
        let parts = Parts::new();
        proof {
            assert(resolve(parts.entries@, parts.points@) =~= Seq::<(int, Seq<V>)>::empty());
            assert(history(parts.entries@) =~= Seq::<(int, int, V)>::empty());
        }
        IntervalMap { parts }
    }

    /// The number of pushes.
    pub fn count(&self) -> (count: usize)
        ensures
            count == self@.len(),
    {
        self.parts.entries.len()
    }

    /// The range of the push at `index`.
    pub fn range_of(&self, index: usize) -> (range: Range<i32>)
        requires
            index < self@.len(),
        ensures
            range.start == self@[index as int].0,
            range.end == self@[index as int].1,
    {
        self.parts.entries[index].start..self.parts.entries[index].end
    }

    /// The value of the push at `index`.
    pub fn value_of(&self, index: usize) -> (value: &V)
        requires
            index < self@.len(),
        ensures
            *value == self@[index as int].2,
    {
        &self.parts.entries[index].value
    }

    /// The number of breakpoints. The breakpoints stand for the pushes.
    pub fn len(&self) -> (count: usize)
        ensures
            count == self.breakpoints().len(),
            agrees(self.breakpoints(), self@),
    {
        proof {
            use_type_invariant(self);
        }
        self.parts.points.len()
    }

    /// The key of the breakpoint at `index`.
    pub fn key_at(&self, index: usize) -> (key: i32)
        requires
            index < self.breakpoints().len(),
        ensures
            key == self.breakpoints()[index as int].0,
    {
        self.parts.points[index].key
    }

    /// The values of the breakpoint at `index`: those of the pushes whose range
    /// holds its key.
    pub fn values_at(&self, index: usize) -> (values: Vec<&V>)
        requires
            index < self.breakpoints().len(),
        ensures
            values@.map_values(|value: &V| *value) == self.breakpoints()[index as int].1,
            values@.map_values(|value: &V| *value) == holding(
                self@,
                self.breakpoints()[index as int].0,
            ),
    {
        proof {
            use_type_invariant(self);
            lemma_active_at_breakpoint(self.breakpoints(), index as int);
        }
        let entries = &self.parts.entries;
        let positions = &self.parts.points[index].active;
        let mut values: Vec<&V> = Vec::new();
        let mut i: usize = 0;
        while i < positions.len()
            invariant
                i <= positions.len(),
                entries == &self.parts.entries,
                listed(entries@, self.parts.points@),
                index < self.parts.points@.len(),
                positions == &self.parts.points@[index as int].active,
                values@.len() == i,
                forall|j: int|
                    0 <= j < i ==> *(#[trigger] values@[j]) == entries@[positions@[j] as int].value,
            decreases positions.len() - i,
        {
            let position = positions[i];
            assert(position == self.parts.points@[index as int].active@[i as int]);
            values.push(&entries[position].value);
            i = i + 1;
        }
        assert(values@.map_values(|value: &V| *value) =~= self.breakpoints()[index as int].1);
        values
    }

    /// Makes `value` active at the keys from `range.start` up to, and without,
    /// `range.end`, behind the values that are active there already.
    ///
    /// The map gets a breakpoint at `range.start` and, where the range is not
    /// empty, one at `range.end`; a new breakpoint starts with the values that
    /// were active at its key. A range whose end is not above its start is
    /// empty: the push is kept, and its value is active at no key.
    pub fn push(&mut self, range: Range<i32>, value: V)
        ensures
            final(self)@ == old(self)@.push((range.start as int, range.end as int, value)),
            final(self).breakpoints() == pushed(
                old(self).breakpoints(),
                range.start as int,
                range.end as int,
                value,
            ),
            agrees(final(self).breakpoints(), final(self)@),
    {
        proof {
            use_type_invariant(&*self);
        }
        let mut parts = Parts::new();
        core::mem::swap(&mut parts, &mut self.parts);
        parts.push(range.start, range.end, value);
        self.parts = parts;
    }

    /// The values that are active at `key`: those of the pushes whose range
    /// holds `key`, in the order of the pushes.
    pub fn get(&self, key: &i32) -> (values: Vec<&V>)
        ensures
            values@.map_values(|value: &V| *value) == holding(self@, *key as int),
    {
        proof {
            use_type_invariant(self);
            assert(active(self.breakpoints(), *key as int) == holding(self@, *key as int));
        }
        let (found, at) = search(&self.parts.entries, &self.parts.points, *key);
        if found {
            self.values_at(at)
        } else if at == 0 {
            let none: Vec<&V> = Vec::new();
            assert(none@.map_values(|value: &V| *value) =~= Seq::<V>::empty());
            none
        } else {
            self.values_at(at - 1)
        }
    }
}

} // verus!
