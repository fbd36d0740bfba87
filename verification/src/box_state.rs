//! The box path: up to ten numbered points joined by dashed segments, open or
//! closed, saved in a small file of its own.
//!
//! The points' coordinates are floating-point numbers; the file reader keeps
//! them as tokens, and learns from the caller, token by token, whether a token
//! reads as a finite number, as a non-finite one, or not as a number.
use vstd::prelude::*;
use crate::scan::{
    decimal_text, flag_text, is_space, is_token, lemma_decimal_text, lemma_flag_text,
    lemma_separated_tokens, parse_u32, parse_u8, parse_usize, separated, split_whitespace,
    string_views, u32_token, u8_token, usize_token, whitespace_tokens, TokenWriter,
};
use crate::settings::{PointTokens};

verus! {

/// The most points a box path holds.
pub const MAX_BOX_POINTS: usize = 10;

/// How a token reads as a floating-point number.
#[derive(Clone, Copy, Debug, PartialEq, Eq, Structural)]
pub enum FloatClass {
    /// Not a number.
    Invalid,
    /// An infinity or a NaN.
    NonFinite,
    /// A finite number.
    Finite,
}

/// The contents of a box file.
pub struct BoxModel {
    pub visible: bool,
    pub closed: bool,
    pub points: Seq<(Seq<char>, Seq<char>)>,
    pub locked: Seq<bool>,
}

/// What a missing or unreadable box file stands for: a hidden, empty path.
pub open spec fn default_box() -> BoxModel {
    BoxModel { visible: false, closed: false, points: Seq::empty(), locked: Seq::empty() }
}

/// A flag token: set when the token at `i` reads as a non-zero `u8`; a missing
/// or unreadable token counts as unset.
pub open spec fn box_flag(toks: Seq<Seq<char>>, i: int) -> bool {
    if 0 <= i < toks.len() {
        match u8_token(toks[i]) {
            Some(b) => b != 0,
            None => false,
        }
    } else {
        false
    }
}

/// The number of point records: the fourth token as a `usize` (0 when missing
/// or unreadable), at most `MAX_BOX_POINTS`.
pub open spec fn box_count(toks: Seq<Seq<char>>) -> nat {
    let c: nat = if 3 < toks.len() {
        match usize_token(toks[3]) {
            Some(c) => c as nat,
            None => 0,
        }
    } else {
        0
    };
    if c > 10 { 10 } else { c }
}

/// Every coordinate token of the first `count` records exists and reads as a
/// number (with no records, nothing is needed).
pub open spec fn box_coords_ok(toks: Seq<Seq<char>>, classes: Seq<FloatClass>, count: nat) -> bool {
    &&& count == 0 || 4 + 2 * count <= toks.len()
    &&& forall|j: int| 4 <= j < 4 + 2 * count ==> classes[j] != FloatClass::Invalid
}

/// The points of the first `n` records whose two coordinates are finite, in order.
pub open spec fn kept_points(toks: Seq<Seq<char>>, classes: Seq<FloatClass>, n: nat) -> Seq<(Seq<char>, Seq<char>)>
    decreases n,
{
    if n == 0 {
        Seq::empty()
    } else {
        let prev = kept_points(toks, classes, (n - 1) as nat);
        let x = 4 + 2 * (n - 1);
        if classes[x] == FloatClass::Finite && classes[x + 1] == FloatClass::Finite {
            prev.push((toks[x], toks[x + 1]))
        } else {
            prev
        }
    }
}

/// What a box file's tokens hold, given how each token reads as a number.
/// The version (1 or 2) comes first, then the visible and closed flags, the
/// record count, the coordinate pairs, and, in version 2, one lock flag per
/// kept point. A closed path needs three points.
pub open spec fn box_from_tokens(toks: Seq<Seq<char>>, classes: Seq<FloatClass>) -> BoxModel {
    if toks.len() == 0 || !(u32_token(toks[0]) == Some(1u32) || u32_token(toks[0]) == Some(2u32)) {
        default_box()
    } else {
        let count = box_count(toks);
        if !box_coords_ok(toks, classes, count) {
            default_box()
        } else {
            let points = kept_points(toks, classes, count);
            let base = 4 + 2 * count;
            let v2 = u32_token(toks[0]) == Some(2u32);
            BoxModel {
                visible: box_flag(toks, 1),
                closed: box_flag(toks, 2) && points.len() >= 3,
                points,
                locked: Seq::new(points.len(), |i: int| v2 && box_flag(toks, base + i)),
            }
        }
    }
}

/// The contents of a box file, coordinates kept as tokens.
#[derive(Clone, Debug)]
pub struct BoxSavedState {
    pub visible: bool,
    pub closed: bool,
    pub points: Vec<PointTokens>,
    pub locked: Vec<bool>,
}

/// The characters of each point's coordinate tokens.
pub open spec fn point_views(v: Seq<PointTokens>) -> Seq<(Seq<char>, Seq<char>)> {
    v.map_values(|p: PointTokens| (p.x@, p.y@))
}

impl View for BoxSavedState {
    type V = BoxModel;

    open spec fn view(&self) -> BoxModel {
        BoxModel {
            visible: self.visible,
            closed: self.closed,
            points: point_views(self.points@),
            locked: self.locked@,
        }
    }
}

/// A hidden, empty path.
fn empty_box() -> (r: BoxSavedState)
    ensures
        r@ == default_box(),
        r.points@.len() == 0,
        r.locked@.len() == 0,
{
    let r = BoxSavedState { visible: false, closed: false, points: Vec::new(), locked: Vec::new() };
    assert(r@.points =~= Seq::<(Seq<char>, Seq<char>)>::empty());
    assert(r@.locked =~= Seq::<bool>::empty());
    r
}

/// Reads a flag token (unset when missing or unreadable).
fn read_box_flag(tokens: &Vec<String>, i: usize) -> (b: bool)
    ensures
        b == box_flag(string_views(tokens@), i as int),
{
    if i < tokens.len() {
        match parse_u8(tokens[i].as_str()) {
            Some(b) => b != 0,
            None => false,
        }
    } else {
        false
    }
}

/// Reads what a box file's tokens hold; `classes[k]` tells how token `k` reads
/// as a floating-point number.
pub fn parse_box_state(tokens: &Vec<String>, classes: &Vec<FloatClass>) -> (r: BoxSavedState)
    requires
        classes@.len() == tokens@.len(),
    ensures
        r@ == box_from_tokens(string_views(tokens@), classes@),
        r.points@.len() <= MAX_BOX_POINTS,
        r.locked@.len() == r.points@.len(),
        r.closed ==> r.points@.len() >= 3,
{
    let ghost toks = string_views(tokens@);
    if tokens.len() == 0 {
        return empty_box();
    }
    let version = parse_u32(tokens[0].as_str());
    assert(toks[0] == tokens@[0]@);
    let v2 = match version {
        Some(v) => if v == 1 { false } else if v == 2 { true } else {
            return empty_box();
        },
        None => {
            return empty_box();
        },
    };
    let visible = read_box_flag(tokens, 1);
    let closed = read_box_flag(tokens, 2);
    let raw: usize = if 3 < tokens.len() {
        assert(toks[3] == tokens@[3]@);
        match parse_usize(tokens[3].as_str()) {
            Some(c) => c,
            None => 0,
        }
    } else {
        0
    };
    let count: usize = if raw > MAX_BOX_POINTS { MAX_BOX_POINTS } else { raw };
    assert(count == box_count(toks));
    if count > 0 && tokens.len() < 4 + 2 * count {
        return empty_box();
    }
    let mut points: Vec<PointTokens> = Vec::new();
    let mut j: usize = 0;
    while j < count
        invariant
            toks == string_views(tokens@),
            classes@.len() == tokens@.len(),
            count <= 10,
            count == box_count(toks),
            toks.len() > 0,
            u32_token(toks[0]) == Some(1u32) || u32_token(toks[0]) == Some(2u32),
            count == 0 || 4 + 2 * count <= tokens@.len(),
            j <= count,
            forall|i: int| 4 <= i < 4 + 2 * j ==> classes@[i] != FloatClass::Invalid,
            point_views(points@) == kept_points(toks, classes@, j as nat),
            points@.len() <= j,
        decreases count - j,
    {
        let x = 4 + 2 * j;
        if classes[x] == FloatClass::Invalid || classes[x + 1] == FloatClass::Invalid {
            assert(!box_coords_ok(toks, classes@, count as nat));
            return empty_box();
        }
        if classes[x] == FloatClass::Finite && classes[x + 1] == FloatClass::Finite {
            let ghost before = points@;
            points.push(PointTokens { x: tokens[x].clone(), y: tokens[x + 1].clone() });
            assert(point_views(points@) =~= point_views(before).push((toks[x as int], toks[x + 1])));
        }
        j = j + 1;
    }
    assert(box_coords_ok(toks, classes@, count as nat));
    let n = points.len();
    let base = 4 + 2 * count;
    let mut locked: Vec<bool> = Vec::new();
    let mut i: usize = 0;
    while i < n
        invariant
            toks == string_views(tokens@),
            n == points@.len(),
            n <= 10,
            base == 4 + 2 * count,
            count <= 10,
            i <= n,
            locked@.len() == i,
            forall|k: int| 0 <= k < i ==> locked@[k] == (v2 && box_flag(toks, base + k)),
        decreases n - i,
    {
        let b = if v2 { read_box_flag(tokens, base + i) } else { false };
        locked.push(b);
        i = i + 1;
    }
    let r = BoxSavedState { visible, closed: closed && n >= 3, points, locked };
    assert(v2 == (u32_token(toks[0]) == Some(2u32)));
    assert(r@.locked =~= Seq::new(
        kept_points(toks, classes@, count as nat).len(),
        |k: int| v2 && box_flag(toks, base + k),
    ));
    r
}

/// How many points a box file holds: at most `MAX_BOX_POINTS`.
pub open spec fn saved_count(n: nat) -> nat {
    if n > 10 { 10 } else { n }
}

/// The tokens of a box file written by `format_box_state`: version 2, the
/// visible flag, the closed flag (set only for a closed path of at least
/// three saved points), the count, each saved point's two coordinates, and
/// each saved point's lock flag (unset where `locked` has no entry).
pub open spec fn box_save_tokens(
    visible: bool,
    closed: bool,
    pts: Seq<(Seq<char>, Seq<char>)>,
    locked: Seq<bool>,
) -> Seq<Seq<char>> {
    let n = saved_count(pts.len());
    seq![decimal_text(2), flag_text(visible), flag_text(closed && n >= 3), decimal_text(n)]
        + Seq::new(2 * n, |j: int| if j % 2 == 0 { pts[j / 2].0 } else { pts[j / 2].1 })
        + Seq::new(n, |i: int| flag_text(i < locked.len() && locked[i]))
}

/// The character after each token: a point's two coordinates share a line;
/// every other token ends its line.
pub open spec fn box_save_seps(n: nat) -> Seq<char> {
    Seq::new(
        4 + 3 * n,
        |k: int| if 4 <= k < 4 + 2 * n && (k - 4) % 2 == 0 { ' ' } else { '\n' },
    )
}

/// The text of a box file written from the given path.
pub open spec fn box_text(
    visible: bool,
    closed: bool,
    pts: Seq<(Seq<char>, Seq<char>)>,
    locked: Seq<bool>,
) -> Seq<char> {
    separated(box_save_tokens(visible, closed, pts, locked), box_save_seps(saved_count(pts.len())))
}

/// Taking one more element of a sequence.
proof fn lemma_take_one_more<A>(s: Seq<A>, k: int)
    requires
        0 <= k < s.len(),
    ensures
        s.take(k).push(s[k]) == s.take(k + 1),
{
    assert(s.take(k).push(s[k]) =~= s.take(k + 1));
}

/// Writes a box file: at most `MAX_BOX_POINTS` points, each with its lock flag.
pub fn format_box_state(
    visible: bool,
    closed: bool,
    points: &Vec<PointTokens>,
    locked: &Vec<bool>,
) -> (text: String)
    ensures
        text@ == box_text(visible, closed, point_views(points@), locked@),
{
    let ghost pts = point_views(points@);
    let n: usize = if points.len() > MAX_BOX_POINTS { MAX_BOX_POINTS } else { points.len() };
    let ghost toks = box_save_tokens(visible, closed, pts, locked@);
    let ghost seps = box_save_seps(n as nat);
    assert(toks.len() == 4 + 3 * n);
    let mut w = TokenWriter::new();
    proof {
        assert(toks.take(0) =~= Seq::<Seq<char>>::empty());
        assert(seps.take(0) =~= Seq::<char>::empty());
    }
    w.emit_u32(2, '\n');
    proof { lemma_take_one_more(toks, 0); lemma_take_one_more(seps, 0); }
    w.emit_flag(visible, '\n');
    proof { lemma_take_one_more(toks, 1); lemma_take_one_more(seps, 1); }
    w.emit_flag(closed && n >= 3, '\n');
    proof { lemma_take_one_more(toks, 2); lemma_take_one_more(seps, 2); }
    w.emit_u32(n as u32, '\n');
    proof { lemma_take_one_more(toks, 3); lemma_take_one_more(seps, 3); }
    let mut j: usize = 0;
    while j < n
        invariant
            n <= 10,
            n == saved_count(points@.len() as nat),
            pts == point_views(points@),
            toks == box_save_tokens(visible, closed, pts, locked@),
            seps == box_save_seps(n as nat),
            toks.len() == 4 + 3 * n,
            j <= n,
            w.wf(),
            w.toks@ == toks.take(4 + 2 * j),
            w.seps@ == seps.take(4 + 2 * j),
        decreases n - j,
    {
        let k = 4 + 2 * j;
        assert(toks[k as int] == pts[j as int].0);
        assert(toks[k + 1] == pts[j as int].1);
        w.emit_text(points[j].x.as_str(), ' ');
        proof { lemma_take_one_more(toks, k as int); lemma_take_one_more(seps, k as int); }
        w.emit_text(points[j].y.as_str(), '\n');
        proof { lemma_take_one_more(toks, k + 1); lemma_take_one_more(seps, k + 1); }
        j = j + 1;
    }
    let mut i: usize = 0;
    while i < n
        invariant
            n <= 10,
            toks == box_save_tokens(visible, closed, pts, locked@),
            seps == box_save_seps(n as nat),
            n == saved_count(pts.len()),
            toks.len() == 4 + 3 * n,
            i <= n,
            w.wf(),
            w.toks@ == toks.take(4 + 2 * n + i),
            w.seps@ == seps.take(4 + 2 * n + i),
        decreases n - i,
    {
        let b = if i < locked.len() { locked[i] } else { false };
        let k = 4 + 2 * n + i;
        assert(toks[k as int] == flag_text(b));
        w.emit_flag(b, '\n');
        proof { lemma_take_one_more(toks, k as int); lemma_take_one_more(seps, k as int); }
        i = i + 1;
    }
    proof {
        assert(toks.take(4 + 3 * n) =~= toks);
        assert(seps.take(4 + 3 * n) =~= seps);
        w.lemma_text();
    }
    w.text
}

/// The points that the reader keeps from records whose coordinates are all
/// finite are exactly the records.
proof fn lemma_kept_all(
    toks: Seq<Seq<char>>,
    classes: Seq<FloatClass>,
    pts: Seq<(Seq<char>, Seq<char>)>,
    m: nat,
)
    requires
        m <= pts.len(),
        4 + 2 * m <= toks.len(),
        4 + 2 * m <= classes.len(),
        forall|j: int| 0 <= j < m ==> toks[4 + 2 * j] == (#[trigger] pts[j]).0 && toks[4 + 2 * j + 1] == pts[j].1,
        forall|k: int| 4 <= k < 4 + 2 * m ==> classes[k] == FloatClass::Finite,
    ensures
        kept_points(toks, classes, m) == pts.take(m as int),
    decreases m,
{
    if m > 0 {
        lemma_kept_all(toks, classes, pts, (m - 1) as nat);
        assert(toks[4 + 2 * (m - 1)] == pts[m - 1].0);
        assert(pts.take(m - 1).push(pts[m - 1]) =~= pts.take(m as int));
    } else {
        assert(pts.take(0) =~= Seq::<(Seq<char>, Seq<char>)>::empty());
    }
}

/// Every token of a box file written from points with well-formed
/// coordinate tokens is a token.
proof fn lemma_box_save_tokens_wf(
    visible: bool,
    closed: bool,
    pts: Seq<(Seq<char>, Seq<char>)>,
    locked: Seq<bool>,
)
    requires
        forall|i: int| 0 <= i < pts.len() ==> is_token(#[trigger] pts[i].0) && is_token(pts[i].1),
    ensures
        forall|k: int|
            0 <= k < box_save_tokens(visible, closed, pts, locked).len() ==> is_token(
                #[trigger] box_save_tokens(visible, closed, pts, locked)[k],
            ),
{
    let n = saved_count(pts.len());
    let toks = box_save_tokens(visible, closed, pts, locked);
    lemma_decimal_text(2);
    lemma_decimal_text(n);
    lemma_flag_text(visible);
    lemma_flag_text(closed && n >= 3);
    let a = seq![decimal_text(2), flag_text(visible), flag_text(closed && n >= 3), decimal_text(n)];
    let b = Seq::new(2 * n, |j: int| if j % 2 == 0 { pts[j / 2].0 } else { pts[j / 2].1 });
    let c = Seq::new(n, |i: int| flag_text(i < locked.len() && locked[i]));
    assert(toks == a + b + c);
    assert forall|k: int| 0 <= k < toks.len() implies is_token(#[trigger] toks[k]) by {
        if k < 4 {
            assert(toks[k] == a[k]);
        } else if k < 4 + 2 * n {
            let j = (k - 4) / 2;
            assert(0 <= j < n);
            assert(toks[k] == b[k - 4]);
            assert(is_token(pts[j].0) && is_token(pts[j].1));
        } else {
            let i = k - 4 - 2 * n;
            assert(toks[k] == c[i]);
            lemma_flag_text(i < locked.len() && locked[i]);
        }
    }
}

/// The tokens of a box file written by `format_box_state`, by position.
proof fn lemma_box_save_tokens_at(
    visible: bool,
    closed: bool,
    pts: Seq<(Seq<char>, Seq<char>)>,
    locked: Seq<bool>,
)
    ensures
        ({
            let n = saved_count(pts.len());
            let toks = box_save_tokens(visible, closed, pts, locked);
            &&& toks.len() == 4 + 3 * n
            &&& toks[0] == decimal_text(2)
            &&& toks[1] == flag_text(visible)
            &&& toks[2] == flag_text(closed && n >= 3)
            &&& toks[3] == decimal_text(n)
            &&& forall|j: int|
                0 <= j < n ==> toks[4 + 2 * j] == (#[trigger] pts[j]).0 && toks[4 + 2 * j + 1]
                    == pts[j].1
            &&& forall|i: int|
                0 <= i < n ==> #[trigger] toks[4 + 2 * n + i] == flag_text(
                    i < locked.len() && locked[i],
                )
        }),
{
    let n = saved_count(pts.len());
    let toks = box_save_tokens(visible, closed, pts, locked);
    let a = seq![decimal_text(2), flag_text(visible), flag_text(closed && n >= 3), decimal_text(n)];
    let b = Seq::new(2 * n, |j: int| if j % 2 == 0 { pts[j / 2].0 } else { pts[j / 2].1 });
    let c = Seq::new(n, |i: int| flag_text(i < locked.len() && locked[i]));
    assert(toks == a + b + c);
    assert forall|j: int| 0 <= j < n implies toks[4 + 2 * j] == (#[trigger] pts[j]).0 && toks[4
        + 2 * j + 1] == pts[j].1 by {
        assert(toks[4 + 2 * j] == b[2 * j]);
        assert(toks[4 + 2 * j + 1] == b[2 * j + 1]);
        assert((2 * j) % 2 == 0);
        assert((2 * j + 1) % 2 == 1);
        assert((2 * j) / 2 == j);
        assert((2 * j + 1) / 2 == j);
    }
    assert forall|i: int| 0 <= i < n implies #[trigger] toks[4 + 2 * n + i] == flag_text(
        i < locked.len() && locked[i],
    ) by {
        assert(toks[4 + 2 * n + i] == c[i]);
    }
}

/// Saving then loading a box path: every saved point comes back (at most
/// `MAX_BOX_POINTS`), with its lock flag; the path is closed only if it has at
/// least three points. The law holds when each coordinate token is a token that
/// reads as a finite number.
pub proof fn lemma_box_roundtrip(
    visible: bool,
    closed: bool,
    pts: Seq<(Seq<char>, Seq<char>)>,
    locked: Seq<bool>,
    classes: Seq<FloatClass>,
)
    requires
        forall|i: int| 0 <= i < pts.len() ==> is_token(#[trigger] pts[i].0) && is_token(pts[i].1),
        classes.len() == 4 + 3 * saved_count(pts.len()),
        forall|k: int| 4 <= k < 4 + 2 * saved_count(pts.len()) ==> classes[k] == FloatClass::Finite,
    ensures
        box_from_tokens(whitespace_tokens(box_text(visible, closed, pts, locked)), classes)
            == (BoxModel {
            visible,
            closed: closed && saved_count(pts.len()) >= 3,
            points: pts.take(saved_count(pts.len()) as int),
            locked: Seq::new(saved_count(pts.len()), |i: int| i < locked.len() && locked[i]),
        }),
{
    let n = saved_count(pts.len());
    let toks = box_save_tokens(visible, closed, pts, locked);
    let seps = box_save_seps(n);
    lemma_box_save_tokens_wf(visible, closed, pts, locked);
    lemma_box_save_tokens_at(visible, closed, pts, locked);
    assert forall|k: int| 0 <= k < seps.len() implies is_space(#[trigger] seps[k]) by {}
    lemma_separated_tokens(toks, seps);
    assert(u32_token(toks[0]) == Some(2u32)) by { lemma_decimal_text(2); }
    assert(usize_token(toks[3]) == Some(n as usize)) by { lemma_decimal_text(n); }
    assert(box_flag(toks, 1) == visible) by { lemma_flag_text(visible); }
    assert(box_flag(toks, 2) == (closed && n >= 3)) by { lemma_flag_text(closed && n >= 3); }
    assert(box_count(toks) == n);
    assert(box_coords_ok(toks, classes, n));
    lemma_kept_all(toks, classes, pts, n);
    let got = box_from_tokens(toks, classes);
    assert(got.points.len() == n);
    assert forall|i: int| 0 <= i < n implies box_flag(toks, 4 + 2 * n + i) == (i < locked.len()
        && locked[i]) by {
        lemma_flag_text(i < locked.len() && locked[i]);
    }
    assert(got.locked =~= Seq::new(n, |i: int| i < locked.len() && locked[i]));
}

} // verus!
