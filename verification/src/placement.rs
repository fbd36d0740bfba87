//! Placing a group of labels clear of the labels already on screen: the group
//! stays where it is preferred when nothing is in its way, and is otherwise
//! shifted by the first of a fixed series of offsets that clears it. The
//! rectangles, the overlap test and the shift are the caller's.
use vstd::prelude::*;

verus! {

/// How many rings of offsets are tried.
pub const SHIFT_RINGS: usize = 24;

/// How many offsets each ring holds.
pub const SHIFTS_PER_RING: usize = 10;

/// How many placements are tried before the fallback: the preferred one and
/// every offset of every ring.
pub const TRIED_PLACEMENTS: usize = 241;

/// The offset, in half steps, of offset `k` of ring `ring`: up, down, left,
/// right, the four diagonals, then further left and further right.
pub open spec fn ring_offset(ring: int, k: int) -> (int, int) {
    let d = 2 * ring;
    if k == 0 {
        (0, -d)
    } else if k == 1 {
        (0, d)
    } else if k == 2 {
        (-d, 0)
    } else if k == 3 {
        (d, 0)
    } else if k == 4 {
        (-d, -d)
    } else if k == 5 {
        (d, -d)
    } else if k == 6 {
        (-d, d)
    } else if k == 7 {
        (d, d)
    } else if k == 8 {
        (0 - 3 * ring, 0)
    } else {
        (3 * ring, 0)
    }
}

/// Placement `n`, as an offset in half steps: 0 is the preferred place, 1 to
/// 240 go through the rings from the nearest out, and any later one is the
/// fallback, 25 steps down.
pub open spec fn placement_offset(n: int) -> (int, int) {
    if n <= 0 {
        (0, 0)
    } else if n >= TRIED_PLACEMENTS {
        (0, 50)
    } else {
        ring_offset((n - 1) / 10 + 1, (n - 1) % 10)
    }
}

/// The offset of placement `n`, in half steps.
pub fn placement_shift(n: usize) -> (r: (i32, i32))
    ensures
        r.0 == placement_offset(n as int).0,
        r.1 == placement_offset(n as int).1,
{
    if n == 0 {
        return (0, 0);
    }
    if n >= TRIED_PLACEMENTS {
        return (0, 50);
    }
    let ring_index: usize = (n - 1) / 10 + 1;
    assert(ring_index <= SHIFT_RINGS);
    let ring: i32 = ring_index as i32;
    let k: usize = (n - 1) % 10;
    let d: i32 = 2 * ring;
    if k == 0 {
        (0, -d)
    } else if k == 1 {
        (0, d)
    } else if k == 2 {
        (-d, 0)
    } else if k == 3 {
        (d, 0)
    } else if k == 4 {
        (-d, -d)
    } else if k == 5 {
        (d, -d)
    } else if k == 6 {
        (-d, d)
    } else if k == 7 {
        (d, d)
    } else if k == 8 {
        (0 - 3 * ring, 0)
    } else {
        (3 * ring, 0)
    }
}

/// Whether the overlap test may have found no rectangle of `group` touching
/// one of `occupied`.
pub open spec fn clear_of<R, F: Fn(R, R) -> bool>(group: Seq<R>, occupied: Seq<R>, overlaps: F) -> bool {
    forall|i: int, j: int|
        0 <= i < group.len() && 0 <= j < occupied.len() ==> call_ensures(
            overlaps,
            (group[i], occupied[j]),
            false,
        )
}

/// Whether the overlap test may have found a rectangle of `group` touching
/// one of `occupied`.
pub open spec fn blocked<R, F: Fn(R, R) -> bool>(group: Seq<R>, occupied: Seq<R>, overlaps: F) -> bool {
    exists|i: int, j: int|
        0 <= i < group.len() && 0 <= j < occupied.len() && call_ensures(
            overlaps,
            (group[i], occupied[j]),
            true,
        )
}

/// Whether no rectangle of `group` overlaps one of `occupied`.
pub fn group_clear<R: Copy, F: Fn(R, R) -> bool>(group: &Vec<R>, occupied: &Vec<R>, overlaps: &F) -> (clear: bool)
    requires
        forall|a: R, b: R| call_requires(*overlaps, (a, b)),
    ensures
        clear ==> clear_of(group@, occupied@, *overlaps),
        !clear ==> blocked(group@, occupied@, *overlaps),
{
    let mut i: usize = 0;
    while i < group.len()
        invariant
            i <= group@.len(),
            forall|a: R, b: R| call_requires(*overlaps, (a, b)),
            forall|ii: int, j: int|
                0 <= ii < i && 0 <= j < occupied@.len() ==> call_ensures(
                    *overlaps,
                    (group@[ii], occupied@[j]),
                    false,
                ),
        decreases group@.len() - i,
    {
        let mut j: usize = 0;
        while j < occupied.len()
            invariant
                i < group@.len(),
                j <= occupied@.len(),
                forall|a: R, b: R| call_requires(*overlaps, (a, b)),
                forall|ii: int, jj: int|
                    0 <= ii < i && 0 <= jj < occupied@.len() ==> call_ensures(
                        *overlaps,
                        (group@[ii], occupied@[jj]),
                        false,
                    ),
                forall|jj: int|
                    0 <= jj < j ==> call_ensures(*overlaps, (group@[i as int], occupied@[jj]), false),
            decreases occupied@.len() - j,
        {
            let hit = overlaps(group[i], occupied[j]);
            if hit {
                assert(call_ensures(*overlaps, (group@[i as int], occupied@[j as int]), true));
                return false;
            }
            j = j + 1;
        }
        i = i + 1;
    }
    true
}

/// Whether `placed` is `preferred` moved by `offset` (half steps): the
/// preferred group itself for no offset, otherwise each rectangle shifted by
/// `shift`.
pub open spec fn moved_by<R, T: Fn(R, i32, i32) -> R>(
    preferred: Seq<R>,
    placed: Seq<R>,
    offset: (int, int),
    shift: T,
) -> bool {
    &&& placed.len() == preferred.len()
    &&& offset == (0int, 0int) ==> placed == preferred
    &&& offset != (0int, 0int) ==> forall|i: int|
        0 <= i < preferred.len() ==> call_ensures(
            shift,
            (preferred[i], offset.0 as i32, offset.1 as i32),
            #[trigger] placed[i],
        )
}

/// Whether placement `m` of `preferred` may have been found blocked.
pub open spec fn placement_blocked<R, F: Fn(R, R) -> bool, T: Fn(R, i32, i32) -> R>(
    preferred: Seq<R>,
    m: int,
    occupied: Seq<R>,
    overlaps: F,
    shift: T,
) -> bool {
    exists|g: Seq<R>| moved_by(preferred, g, placement_offset(m), shift) && blocked(g, occupied, overlaps)
}

/// The group moved by `(dx, dy)` half steps.
fn shifted_group<R: Copy, T: Fn(R, i32, i32) -> R>(preferred: &Vec<R>, dx: i32, dy: i32, shift: &T) -> (placed: Vec<R>)
    requires
        forall|r: R, x: i32, y: i32| call_requires(*shift, (r, x, y)),
    ensures
        placed@.len() == preferred@.len(),
        forall|i: int|
            0 <= i < preferred@.len() ==> call_ensures(*shift, (preferred@[i], dx, dy), #[trigger] placed@[i]),
{
    let mut placed: Vec<R> = Vec::new();
    let mut i: usize = 0;
    while i < preferred.len()
        invariant
            i <= preferred@.len(),
            placed@.len() == i,
            forall|r: R, x: i32, y: i32| call_requires(*shift, (r, x, y)),
            forall|ii: int| 0 <= ii < i ==> call_ensures(*shift, (preferred@[ii], dx, dy), #[trigger] placed@[ii]),
        decreases preferred@.len() - i,
    {
        let moved = shift(preferred[i], dx, dy);
        placed.push(moved);
        i = i + 1;
    }
    placed
}

/// The group placed by `placement_offset(n)`.
fn placed_group<R: Copy, T: Fn(R, i32, i32) -> R>(preferred: &Vec<R>, n: usize, shift: &T) -> (placed: Vec<R>)
    requires
        forall|r: R, x: i32, y: i32| call_requires(*shift, (r, x, y)),
    ensures
        moved_by(preferred@, placed@, placement_offset(n as int), *shift),
{
    let (dx, dy) = placement_shift(n);
    if dx == 0 && dy == 0 {
        let mut copy: Vec<R> = Vec::new();
        let mut i: usize = 0;
        while i < preferred.len()
            invariant
                i <= preferred@.len(),
                copy@ == preferred@.take(i as int),
            decreases preferred@.len() - i,
        {
            copy.push(preferred[i]);
            assert(preferred@.take(i + 1) =~= preferred@.take(i as int).push(preferred@[i as int]));
            i = i + 1;
        }
        assert(preferred@.take(preferred@.len() as int) =~= preferred@);
        copy
    } else {
        shifted_group(preferred, dx, dy, shift)
    }
}

/// Places the group `preferred` clear of `occupied`: the first placement, in
/// the order of `placement_offset`, that the overlap test finds clear, or the
/// fallback when none is.
pub fn resolve_group<R: Copy, F: Fn(R, R) -> bool, T: Fn(R, i32, i32) -> R>(
    preferred: &Vec<R>,
    occupied: &Vec<R>,
    overlaps: &F,
    shift: &T,
) -> (placed: Vec<R>)
    requires
        forall|a: R, b: R| call_requires(*overlaps, (a, b)),
        forall|r: R, x: i32, y: i32| call_requires(*shift, (r, x, y)),
    ensures
        exists|n: int|
            0 <= n <= TRIED_PLACEMENTS && moved_by(preferred@, placed@, placement_offset(n), *shift)
                && (n < TRIED_PLACEMENTS ==> clear_of(placed@, occupied@, *overlaps)) && forall|m: int|
                0 <= m < n ==> #[trigger] placement_blocked(preferred@, m, occupied@, *overlaps, *shift),
{
    let ghost mut tried: Seq<Seq<R>> = Seq::empty();
    let mut n: usize = 0;
    while n < TRIED_PLACEMENTS
        invariant
            n <= TRIED_PLACEMENTS,
            tried.len() == n,
            forall|a: R, b: R| call_requires(*overlaps, (a, b)),
            forall|r: R, x: i32, y: i32| call_requires(*shift, (r, x, y)),
            forall|m: int|
                0 <= m < n ==> moved_by(preferred@, #[trigger] tried[m], placement_offset(m), *shift)
                    && blocked(tried[m], occupied@, *overlaps),
        decreases TRIED_PLACEMENTS - n,
    {
        let candidate = placed_group(preferred, n, shift);
        if group_clear(&candidate, occupied, overlaps) {
            assert forall|m: int| 0 <= m < n implies #[trigger] placement_blocked(
                preferred@,
                m,
                occupied@,
                *overlaps,
                *shift,
            ) by {
                assert(moved_by(preferred@, tried[m], placement_offset(m), *shift));
            }
            return candidate;
        }
        proof {
            tried = tried.push(candidate@);
            assert(tried[n as int] == candidate@);
        }
        n = n + 1;
    }
    let fallback = placed_group(preferred, TRIED_PLACEMENTS, shift);
    assert forall|m: int| 0 <= m < TRIED_PLACEMENTS implies #[trigger] placement_blocked(
        preferred@,
        m,
        occupied@,
        *overlaps,
        *shift,
    ) by {
        assert(moved_by(preferred@, tried[m], placement_offset(m), *shift));
    }
    fallback
}

/// How many rings of moves an angle label tries.
pub const ANGLE_RINGS: u32 = 18;

/// How many moves each ring of an angle label holds.
pub const ANGLE_MOVES_PER_RING: u32 = 9;

/// How many moved places an angle label tries before the fallback.
pub const ANGLE_TRIED_MOVES: usize = 162;

/// Move `n` (from 1) of an angle label, as (ring, move within the ring):
/// rings from the nearest out, nine moves each; any later one is the
/// fallback, move 6 (straight down) of ring 19.
pub open spec fn angle_move(n: int) -> (int, int) {
    if n > ANGLE_TRIED_MOVES {
        (19, 6)
    } else {
        ((n - 1) / 9 + 1, (n - 1) % 9)
    }
}

/// Whether `placed` is the label `panel` at place `n`: the label itself for
/// 0, otherwise the label moved by `shift` with move `angle_move(n)`.
pub open spec fn angle_label_at<R, T: Fn(R, u32, u32) -> R>(panel: R, placed: R, n: int, shift: T) -> bool {
    if n == 0 {
        placed == panel
    } else {
        call_ensures(shift, (panel, angle_move(n).0 as u32, angle_move(n).1 as u32), placed)
    }
}

/// Whether place `n` of the label may have been found blocked.
pub open spec fn angle_place_blocked<R, F: Fn(R, R) -> bool, T: Fn(R, u32, u32) -> R>(
    panel: R,
    n: int,
    occupied: Seq<R>,
    overlaps: F,
    shift: T,
) -> bool {
    exists|g: R| angle_label_at(panel, g, n, shift) && blocked(seq![g], occupied, overlaps)
}

/// Place `n` of the label, as `angle_label_at` describes it.
fn angle_label_place<R: Copy, T: Fn(R, u32, u32) -> R>(panel: R, n: usize, shift: &T) -> (placed: R)
    requires
        n <= ANGLE_TRIED_MOVES + 1,
        forall|r: R, ring: u32, k: u32| call_requires(*shift, (r, ring, k)),
    ensures
        angle_label_at(panel, placed, n as int, *shift),
{
    if n == 0 {
        panel
    } else if n > ANGLE_TRIED_MOVES {
        shift(panel, 19, 6)
    } else {
        let ring: u32 = ((n - 1) / 9 + 1) as u32;
        let k: u32 = ((n - 1) % 9) as u32;
        shift(panel, ring, k)
    }
}

/// Places the angle label `panel` clear of `occupied`: where it is when
/// nothing is in its way, otherwise the first move, in the order of
/// `angle_move`, that the overlap test finds clear, or the fallback when none
/// is. What each move is (outward from the vertex, sideways, diagonally, then
/// up, down, left and right, by the ring's distance) is the caller's `shift`.
pub fn resolve_angle_panel<R: Copy, F: Fn(R, R) -> bool, T: Fn(R, u32, u32) -> R>(
    panel: R,
    occupied: &Vec<R>,
    overlaps: &F,
    shift: &T,
) -> (placed: R)
    requires
        forall|a: R, b: R| call_requires(*overlaps, (a, b)),
        forall|r: R, ring: u32, k: u32| call_requires(*shift, (r, ring, k)),
    ensures
        exists|n: int|
            0 <= n <= ANGLE_TRIED_MOVES + 1 && angle_label_at(panel, placed, n, *shift) && (n
                <= ANGLE_TRIED_MOVES ==> clear_of(seq![placed], occupied@, *overlaps)) && forall|m: int|
                0 <= m < n ==> #[trigger] angle_place_blocked(panel, m, occupied@, *overlaps, *shift),
{
    let ghost mut tried: Seq<R> = Seq::empty();
    let mut n: usize = 0;
    while n <= ANGLE_TRIED_MOVES
        invariant
            n <= ANGLE_TRIED_MOVES + 1,
            tried.len() == n,
            forall|a: R, b: R| call_requires(*overlaps, (a, b)),
            forall|r: R, ring: u32, k: u32| call_requires(*shift, (r, ring, k)),
            forall|m: int|
                0 <= m < n ==> angle_label_at(panel, #[trigger] tried[m], m, *shift) && blocked(
                    seq![tried[m]],
                    occupied@,
                    *overlaps,
                ),
        decreases ANGLE_TRIED_MOVES + 1 - n,
    {
        let candidate = angle_label_place(panel, n, shift);
        let group = vec![candidate];
        if group_clear(&group, occupied, overlaps) {
            assert(group@ =~= seq![candidate]);
            assert forall|m: int| 0 <= m < n implies #[trigger] angle_place_blocked(
                panel,
                m,
                occupied@,
                *overlaps,
                *shift,
            ) by {
                assert(angle_label_at(panel, tried[m], m, *shift));
            }
            return candidate;
        }
        proof {
            assert(group@ =~= seq![candidate]);
            tried = tried.push(candidate);
            assert(tried[n as int] == candidate);
        }
        n = n + 1;
    }
    let fallback = angle_label_place(panel, ANGLE_TRIED_MOVES + 1, shift);
    assert forall|m: int| 0 <= m < ANGLE_TRIED_MOVES + 1 implies #[trigger] angle_place_blocked(
        panel,
        m,
        occupied@,
        *overlaps,
        *shift,
    ) by {
        assert(angle_label_at(panel, tried[m], m, *shift));
    }
    fallback
}

} // verus!
