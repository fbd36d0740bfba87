//! Editing the box path: adding points, closing the path on its first point,
//! deleting points, hiding the labels of its segments, and walking its
//! segments. Points are of any type: the geometry that finds which marker a
//! click hits is the caller's.
use vstd::prelude::*;
use crate::box_state::MAX_BOX_POINTS;

verus! {

/// A label of a box segment: its length or its bearing, with the segment's index.
#[derive(Clone, Copy, Debug, PartialEq, Eq, Structural)]
pub enum BoxPanelKind {
    Distance(usize),
    Bearing(usize),
}

/// A label placed on screen: its kind, its rectangle and its text.
#[derive(Clone, Debug)]
pub struct BoxPanel<R> {
    pub kind: BoxPanelKind,
    pub rect: R,
    pub text: String,
}

/// The labels of the box path, in drawing order.
#[derive(Clone, Debug)]
pub struct BoxPanelLayout<R> {
    pub panels: Vec<BoxPanel<R>>,
}

impl<R: Copy> BoxPanelLayout<R> {
    /// No labels.
    pub fn new() -> (l: Self)
        ensures
            l.panels@.len() == 0,
    {
        BoxPanelLayout { panels: Vec::new() }
    }

    /// The rectangles of the labels, in order.
    pub fn rects(&self) -> (rects: Vec<R>)
        ensures
            rects@ == self.panels@.map_values(|p: BoxPanel<R>| p.rect),
    {
        let mut rects: Vec<R> = Vec::new();
        let mut i: usize = 0;
        while i < self.panels.len()
            invariant
                i <= self.panels@.len(),
                rects@ == self.panels@.take(i as int).map_values(|p: BoxPanel<R>| p.rect),
            decreases self.panels@.len() - i,
        {
            rects.push(self.panels[i].rect);
            assert(self.panels@.take(i + 1).map_values(|p: BoxPanel<R>| p.rect) =~= self.panels@.take(
                i as int,
            ).map_values(|p: BoxPanel<R>| p.rect).push(self.panels@[i as int].rect));
            i = i + 1;
        }
        assert(self.panels@.take(self.panels@.len() as int) =~= self.panels@);
        rects
    }

    /// The kind of the first label whose rectangle the test `contains`
    /// accepts.
    pub fn hit_test<F: Fn(R) -> bool>(&self, contains: &F) -> (r: Option<BoxPanelKind>)
        requires
            forall|rect: R| call_requires(*contains, (rect,)),
        ensures
            match r {
                Some(kind) => exists|i: int|
                    0 <= i < self.panels@.len() && self.panels@[i].kind == kind && call_ensures(
                        *contains,
                        (self.panels@[i].rect,),
                        true,
                    ) && forall|j: int|
                        0 <= j < i ==> call_ensures(*contains, (#[trigger] self.panels@[j].rect,), false),
                None => forall|j: int|
                    0 <= j < self.panels@.len() ==> call_ensures(
                        *contains,
                        (#[trigger] self.panels@[j].rect,),
                        false,
                    ),
            },
    {
        let mut i: usize = 0;
        while i < self.panels.len()
            invariant
                i <= self.panels@.len(),
                forall|rect: R| call_requires(*contains, (rect,)),
                forall|j: int| 0 <= j < i ==> call_ensures(*contains, (#[trigger] self.panels@[j].rect,), false),
            decreases self.panels@.len() - i,
        {
            let rect = self.panels[i].rect;
            if contains(rect) {
                return Some(self.panels[i].kind);
            }
            i = i + 1;
        }
        None
    }
}

/// The index of the first point whose marker the test `hits` accepts.
pub fn box_point_at<P: Copy, F: Fn(P) -> bool>(points: &Vec<P>, hits: &F) -> (r: Option<usize>)
    requires
        forall|p: P| call_requires(*hits, (p,)),
    ensures
        match r {
            Some(i) => i < points@.len() && call_ensures(*hits, (points@[i as int],), true) && forall|j: int|
                0 <= j < i ==> call_ensures(*hits, (#[trigger] points@[j],), false),
            None => forall|j: int| 0 <= j < points@.len() ==> call_ensures(*hits, (#[trigger] points@[j],), false),
        },
{
    let mut i: usize = 0;
    while i < points.len()
        invariant
            i <= points@.len(),
            forall|p: P| call_requires(*hits, (p,)),
            forall|j: int| 0 <= j < i ==> call_ensures(*hits, (#[trigger] points@[j],), false),
        decreases points@.len() - i,
    {
        if hits(points[i]) {
            return Some(i);
        }
        i = i + 1;
    }
    None
}

/// Whether a click closes the path: it has at least three points and the
/// first point that the click hits is the first point of the path.
pub fn is_close_target(point_count: usize, hit: Option<usize>) -> (b: bool)
    ensures
        b == (point_count >= 3 && hit == Some(0usize)),
{
    point_count >= 3 && hit == Some(0usize)
}

/// The number of segments of a path of `len` points: none below two points,
/// one per point when the path is closed (which takes three points), otherwise
/// one fewer than the points.
pub open spec fn spec_segment_count(len: nat, closed: bool) -> nat {
    if len < 2 {
        0
    } else if closed && len >= 3 {
        len
    } else {
        (len - 1) as nat
    }
}

/// The number of segments of the path.
pub fn segment_count<P>(points: &Vec<P>, closed: bool) -> (n: usize)
    ensures
        n == spec_segment_count(points@.len(), closed),
{
    if points.len() < 2 {
        0
    } else if closed && points.len() >= 3 {
        points.len()
    } else {
        points.len() - 1
    }
}

/// Segment `index` of the path: from point `index` to the next point, the last
/// segment of a closed path returning to the first point; `None` past the last
/// segment.
pub fn segment<P: Copy>(points: &Vec<P>, closed: bool, index: usize) -> (s: Option<(P, P)>)
    ensures
        index >= spec_segment_count(points@.len(), closed) ==> s is None,
        index < spec_segment_count(points@.len(), closed) ==> s == Some(
            (
                points@[index as int],
                if index + 1 < points@.len() { points@[index + 1] } else { points@[0] },
            ),
        ),
{
    let count = segment_count(points, closed);
    if index >= count {
        return None;
    }
    let from = points[index];
    let to = if index + 1 < points.len() { points[index + 1] } else { points[0] };
    Some((from, to))
}

/// What a click did to the box path.
#[derive(Clone, Copy, Debug, PartialEq, Eq, Structural)]
pub enum BoxClick {
    /// The path is hidden or closed: the click is not the path's.
    NotHandled,
    /// The click on the first point closed the path.
    Closed,
    /// The click landed on a point, or the path is full: nothing changed.
    Consumed,
    /// A point was added at the click.
    Added,
}

/// The box path with its display state.
#[derive(Clone, Debug)]
pub struct BoxPath<P> {
    pub visible: bool,
    pub closed: bool,
    pub points: Vec<P>,
    /// Bit `i` set: the length label of segment `i` is hidden.
    pub hidden_distance: u16,
    /// Bit `i` set: the bearing label of segment `i` is hidden.
    pub hidden_bearing: u16,
}

impl<P> BoxPath<P> {
    /// At most `MAX_BOX_POINTS` points, and a closed path has at least three.
    pub open spec fn wf(&self) -> bool {
        &&& self.points@.len() <= MAX_BOX_POINTS
        &&& self.closed ==> self.points@.len() >= 3
    }

    /// Shows or hides the path; every label is shown again.
    pub fn toggle_visible(&mut self)
        ensures
            final(self).visible == !old(self).visible,
            final(self).closed == old(self).closed,
            final(self).points@ == old(self).points@,
            final(self).hidden_distance == 0,
            final(self).hidden_bearing == 0,
    {
        self.visible = !self.visible;
        self.hidden_distance = 0;
        self.hidden_bearing = 0;
    }

    /// A click at `point`; `hit` is the first point whose marker the click
    /// lands on. On a visible open path, a click on the first of at least three
    /// points closes the path; a click on another point, or on a full path,
    /// changes nothing; any other click adds a point. Closing or adding shows
    /// every label again.
    pub fn add_or_close(&mut self, point: P, hit: Option<usize>) -> (r: BoxClick)
        ensures
            r == (if !old(self).visible || old(self).closed {
                BoxClick::NotHandled
            } else if old(self).points@.len() >= 3 && hit == Some(0usize) {
                BoxClick::Closed
            } else if hit is Some || old(self).points@.len() >= MAX_BOX_POINTS {
                BoxClick::Consumed
            } else {
                BoxClick::Added
            }),
            final(self).visible == old(self).visible,
            final(self).closed == (old(self).closed || r == BoxClick::Closed),
            r == BoxClick::Added ==> final(self).points@ == old(self).points@.push(point),
            r != BoxClick::Added ==> final(self).points@ == old(self).points@,
            r == BoxClick::Closed || r == BoxClick::Added ==> final(self).hidden_distance == 0
                && final(self).hidden_bearing == 0,
            r == BoxClick::NotHandled || r == BoxClick::Consumed ==> final(self).hidden_distance
                == old(self).hidden_distance && final(self).hidden_bearing
                == old(self).hidden_bearing,
            old(self).wf() ==> final(self).wf(),
    {
        if !self.visible || self.closed {
            return BoxClick::NotHandled;
        }
        if is_close_target(self.points.len(), hit) {
            self.closed = true;
            self.hidden_distance = 0;
            self.hidden_bearing = 0;
            return BoxClick::Closed;
        }
        if hit.is_some() || self.points.len() >= MAX_BOX_POINTS {
            return BoxClick::Consumed;
        }
        self.points.push(point);
        self.hidden_distance = 0;
        self.hidden_bearing = 0;
        BoxClick::Added
    }

    /// Deletes point `index`, if there is one: a path left with fewer than
    /// three points opens, an empty path is hidden, and every label is shown
    /// again. Returns whether a point was deleted.
    pub fn delete_point(&mut self, index: usize) -> (deleted: bool)
        ensures
            deleted == (index < old(self).points@.len()),
            !deleted ==> final(self).points@ == old(self).points@ && final(self).visible == old(
                self,
            ).visible && final(self).closed == old(self).closed && final(self).hidden_distance
                == old(self).hidden_distance && final(self).hidden_bearing == old(
                self,
            ).hidden_bearing,
            deleted ==> final(self).points@ == old(self).points@.remove(index as int),
            deleted ==> final(self).closed == (old(self).closed && final(self).points@.len() >= 3),
            deleted ==> final(self).visible == (old(self).visible && final(self).points@.len()
                > 0),
            deleted ==> final(self).hidden_distance == 0 && final(self).hidden_bearing == 0,
            old(self).wf() ==> final(self).wf(),
    {
        if index >= self.points.len() {
            return false;
        }
        self.points.remove(index);
        if self.points.len() < 3 {
            self.closed = false;
        }
        if self.points.len() == 0 {
            self.visible = false;
            self.closed = false;
        }
        self.hidden_distance = 0;
        self.hidden_bearing = 0;
        true
    }

    /// Hides one label of the path.
    pub fn hide_panel(&mut self, kind: BoxPanelKind)
        requires
            match kind {
                BoxPanelKind::Distance(i) => i < 16,
                BoxPanelKind::Bearing(i) => i < 16,
            },
        ensures
            final(self).visible == old(self).visible,
            final(self).closed == old(self).closed,
            final(self).points@ == old(self).points@,
            match kind {
                BoxPanelKind::Distance(i) => final(self).hidden_distance == old(
                    self,
                ).hidden_distance | (1u16 << i) && final(self).hidden_bearing == old(
                    self,
                ).hidden_bearing,
                BoxPanelKind::Bearing(i) => final(self).hidden_bearing == old(self).hidden_bearing
                    | (1u16 << i) && final(self).hidden_distance == old(self).hidden_distance,
            },
    {
        match kind {
            BoxPanelKind::Distance(i) => {
                self.hidden_distance = self.hidden_distance | (1u16 << i);
            },
            BoxPanelKind::Bearing(i) => {
                self.hidden_bearing = self.hidden_bearing | (1u16 << i);
            },
        }
    }
}

/// Whether the label of segment `index` is hidden in `mask`.
pub fn label_hidden(mask: u16, index: usize) -> (hidden: bool)
    requires
        index < 16,
    ensures
        hidden == (mask & (1u16 << index) != 0),
{
    mask & (1u16 << index) != 0
}

/// The labels of segment `index`: its length, when lengths are shown and
/// that label is not hidden, then its bearing likewise.
pub open spec fn spec_segment_labels(
    index: usize,
    show_distance: bool,
    show_bearing: bool,
    hidden_distance: u16,
    hidden_bearing: u16,
) -> Seq<BoxPanelKind> {
    let d = if show_distance && hidden_distance & (1u16 << index) == 0 {
        seq![BoxPanelKind::Distance(index)]
    } else {
        Seq::empty()
    };
    if show_bearing && hidden_bearing & (1u16 << index) == 0 {
        d.push(BoxPanelKind::Bearing(index))
    } else {
        d
    }
}

/// The labels of segment `index`, in drawing order.
pub fn segment_labels(
    index: usize,
    show_distance: bool,
    show_bearing: bool,
    hidden_distance: u16,
    hidden_bearing: u16,
) -> (kinds: Vec<BoxPanelKind>)
    requires
        index < 16,
    ensures
        kinds@ == spec_segment_labels(index, show_distance, show_bearing, hidden_distance, hidden_bearing),
{
    let mut kinds: Vec<BoxPanelKind> = Vec::new();
    if show_distance && !label_hidden(hidden_distance, index) {
        kinds.push(BoxPanelKind::Distance(index));
    }
    if show_bearing && !label_hidden(hidden_bearing, index) {
        kinds.push(BoxPanelKind::Bearing(index));
    }
    proof {
        let d = if show_distance && hidden_distance & (1u16 << index) == 0 {
            seq![BoxPanelKind::Distance(index)]
        } else {
            Seq::empty()
        };
        assert(kinds@.take(d.len() as int) =~= d);
    }
    assert(kinds@ =~= spec_segment_labels(index, show_distance, show_bearing, hidden_distance, hidden_bearing));
    kinds
}

/// A label that was hidden stays hidden whatever else is hidden with it.
pub proof fn lemma_hidden_after_hide(mask: u16, index: u16)
    requires
        index < 16,
    ensures
        (mask | (1u16 << index)) & (1u16 << index) != 0,
{
    assert((mask | (1u16 << index)) & (1u16 << index) != 0) by (bit_vector)
        requires
            index < 16,
    ;
}

/// Where the angle labels stand on screen; a label that is not shown has none.
#[derive(Clone, Debug)]
pub struct AnglePanelLayout<R> {
    pub main: Option<R>,
    pub north: Option<R>,
    pub course: Option<R>,
    pub helper_left: Option<R>,
    pub helper_right: Option<R>,
    pub helper_yellow: Option<R>,
    pub helper_delta: Option<R>,
}

/// The labels that are shown, in the order main, North, course, helper left,
/// helper right, helper yellow, helper delta.
pub open spec fn shown_rects<R>(l: AnglePanelLayout<R>) -> Seq<R> {
    let all = seq![l.main, l.north, l.course, l.helper_left, l.helper_right, l.helper_yellow, l.helper_delta];
    all.filter(|o: Option<R>| o is Some).map_values(|o: Option<R>| o->0)
}

/// Appends the rectangle of a label, if it is shown.
fn push_shown<R: Copy>(v: &mut Vec<R>, o: Option<R>)
    ensures
        final(v)@ == (match o {
            Some(r) => old(v)@.push(r),
            None => old(v)@,
        }),
{
    match o {
        Some(r) => v.push(r),
        None => {},
    }
}

impl<R: Copy> AnglePanelLayout<R> {
    /// No label shown.
    pub fn new() -> (l: Self)
        ensures
            shown_rects(l) == Seq::<R>::empty(),
    {
        let l = AnglePanelLayout {
            main: None,
            north: None,
            course: None,
            helper_left: None,
            helper_right: None,
            helper_yellow: None,
            helper_delta: None,
        };
        proof {
            reveal_with_fuel(Seq::filter, 8);
            let all = seq![l.main, l.north, l.course, l.helper_left, l.helper_right, l.helper_yellow, l.helper_delta];
            assert(all.filter(|o: Option<R>| o is Some) =~= Seq::<Option<R>>::empty());
        }
        l
    }

    /// The rectangles of the labels that are shown, in order.
    pub fn rects(&self) -> (v: Vec<R>)
        ensures
            v@ == shown_rects(*self),
    {
        let mut v: Vec<R> = Vec::new();
        push_shown(&mut v, self.main);
        push_shown(&mut v, self.north);
        push_shown(&mut v, self.course);
        push_shown(&mut v, self.helper_left);
        push_shown(&mut v, self.helper_right);
        push_shown(&mut v, self.helper_yellow);
        push_shown(&mut v, self.helper_delta);
        proof {
            reveal_with_fuel(Seq::filter, 8);
            let all = seq![self.main, self.north, self.course, self.helper_left, self.helper_right, self.helper_yellow, self.helper_delta];
            assert(v@ =~= all.filter(|o: Option<R>| o is Some).map_values(|o: Option<R>| o->0));
        }
        v
    }
}

} // verus!
