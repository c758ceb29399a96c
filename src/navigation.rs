//! Ring navigation of the cursor over the keys `1..=count` of the pane index.
use vstd::prelude::*;

verus! {

/// The cursor is absent or names one of the keys `1..=count`.
pub open spec fn cursor_in_range(cursor: Option<usize>, count: nat) -> bool {
    match cursor {
        Some(i) => 1 <= i <= count,
        None => true,
    }
}

/// Where move-down takes the cursor: to the next key, from the last key back
/// to the first, and from no cursor to the first key if there is one.
pub open spec fn down_of(cursor: Option<usize>, count: nat) -> Option<usize> {
    match cursor {
        Some(i) => if i < count { Some((i + 1) as usize) } else { Some(1) },
        None => if count >= 1 { Some(1) } else { None },
    }
}

/// Where move-up takes the cursor: to the previous key, from the first key to
/// the last, and from no cursor to the first key if there is one.
pub open spec fn up_of(cursor: Option<usize>, count: nat) -> Option<usize> {
    match cursor {
        Some(i) => if i > 1 { Some((i - 1) as usize) } else { Some(count as usize) },
        None => if count >= 1 { Some(1) } else { None },
    }
}

/// The cursor after `steps` moves down.
pub open spec fn down_times(cursor: Option<usize>, count: nat, steps: nat) -> Option<usize>
    decreases steps,
{
    if steps == 0 {
        cursor
    } else {
        down_times(down_of(cursor, count), count, (steps - 1) as nat)
    }
}

/// The cursor after `steps` moves up.
pub open spec fn up_times(cursor: Option<usize>, count: nat, steps: nat) -> Option<usize>
    decreases steps,
{
    if steps == 0 {
        cursor
    } else {
        up_times(up_of(cursor, count), count, (steps - 1) as nat)
    }
}

/// Moves the cursor down one key, wrapping from the last key to the first.
pub fn move_down(cursor: Option<usize>, count: usize) -> (r: Option<usize>)
    requires
        cursor_in_range(cursor, count as nat),
    ensures
        r == down_of(cursor, count as nat),
        cursor_in_range(r, count as nat),
{
    match cursor {
        Some(i) => if i < count {
            Some(i + 1)
        } else {
            Some(1)
        },
        None => if count >= 1 {
            Some(1)
        } else {
            None
        },
    }
}

/// Moves the cursor up one key, wrapping from the first key to the last.
pub fn move_up(cursor: Option<usize>, count: usize) -> (r: Option<usize>)
    requires
        cursor_in_range(cursor, count as nat),
    ensures
        r == up_of(cursor, count as nat),
        cursor_in_range(r, count as nat),
{
    match cursor {
        Some(i) => if i > 1 {
            Some(i - 1)
        } else {
            Some(count)
        },
        None => if count >= 1 {
            Some(1)
        } else {
            None
        },
    }
}

/// Keeps the cursor within `1..=count` after the index has changed size: a
/// cursor past the end moves to the last key, or disappears when no key is left.
pub fn clamp_cursor(cursor: Option<usize>, count: usize) -> (r: Option<usize>)
    ensures
        r == clamped(cursor, count as nat),
        cursor_in_range(r, count as nat),
{
    match cursor {
        Some(i) => if i == 0 || count == 0 {
            None
        } else if i > count {
            Some(count)
        } else {
            Some(i)
        },
        None => None,
    }
}

/// The cursor kept within `1..=count`.
pub open spec fn clamped(cursor: Option<usize>, count: nat) -> Option<usize> {
    match cursor {
        Some(i) => if i == 0 || count == 0 {
            None
        } else if i > count {
            Some(count as usize)
        } else {
            Some(i)
        },
        None => None,
    }
}

proof fn lemma_down_split(cursor: Option<usize>, count: nat, a: nat, b: nat)
    ensures
        down_times(cursor, count, a + b) == down_times(down_times(cursor, count, a), count, b),
    decreases a,
{
    if a > 0 {
        lemma_down_split(down_of(cursor, count), count, (a - 1) as nat, b);
        assert((a - 1) as nat + b == (a + b - 1) as nat);
    }
}

proof fn lemma_up_split(cursor: Option<usize>, count: nat, a: nat, b: nat)
    ensures
        up_times(cursor, count, a + b) == up_times(up_times(cursor, count, a), count, b),
    decreases a,
{
    if a > 0 {
        lemma_up_split(up_of(cursor, count), count, (a - 1) as nat, b);
        assert((a - 1) as nat + b == (a + b - 1) as nat);
    }
}

proof fn lemma_down_walk(i: usize, count: nat, steps: nat)
    requires
        1 <= i,
        i + steps <= count,
        count <= usize::MAX,
    ensures
        down_times(Some(i), count, steps) == Some((i + steps) as usize),
    decreases steps,
{
    if steps > 0 {
        lemma_down_walk((i + 1) as usize, count, (steps - 1) as nat);
    }
}

proof fn lemma_up_walk(i: usize, count: nat, steps: nat)
    requires
        steps < i,
    ensures
        up_times(Some(i), count, steps) == Some((i - steps) as usize),
    decreases steps,
{
    if steps > 0 {
        lemma_up_walk((i - 1) as usize, count, (steps - 1) as nat);
    }
}

/// Moving down `count` times from any key of an index of `count` keys comes
/// back to that key.
pub proof fn ring_closure_down(i: usize, count: usize)
    requires
        1 <= i <= count,
    ensures
        down_times(Some(i), count as nat, count as nat) == Some(i),
{
    let n = count as nat;
    lemma_down_split(Some(i), n, (n - i) as nat, i as nat);
    lemma_down_walk(i, n, (n - i) as nat);
    assert(down_of(Some(count), n) == Some(1usize));
    assert(down_times(Some(count), n, i as nat) == down_times(Some(1usize), n, (i - 1) as nat));
    lemma_down_walk(1, n, (i - 1) as nat);
}

/// Moving up `count` times from any key of an index of `count` keys comes
/// back to that key.
pub proof fn ring_closure_up(i: usize, count: usize)
    requires
        1 <= i <= count,
    ensures
        up_times(Some(i), count as nat, count as nat) == Some(i),
{
    let n = count as nat;
    lemma_up_split(Some(i), n, (i - 1) as nat, (n - i + 1) as nat);
    lemma_up_walk(i, n, (i - 1) as nat);
    assert(up_of(Some(1usize), n) == Some(count));
    assert(up_times(Some(1usize), n, (n - i + 1) as nat) == up_times(Some(count), n, (n - i) as nat));
    lemma_up_walk(count, n, (n - i) as nat);
}

} // verus!
