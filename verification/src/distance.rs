//! The distance labels and the editor in which the user types a distance.
use vstd::prelude::*;
use vstd::string::StrSliceExecFns;
use vstd::utf8::{encode_utf8, encode_scalar};
use crate::scan::{is_digit, pop_char, push_char, push_text};

verus! {

/// A measured segment of the construction.
#[derive(Clone, Copy, Debug, PartialEq, Eq, Structural)]
pub enum DistanceKind {
    /// From the vertex to the helper point.
    Base,
    /// From the vertex to the left red point.
    LeftRay,
    /// From the vertex to the right red point.
    RightRay,
    /// Between the two red points.
    Hypotenuse,
    /// From the helper point to the left red point.
    FrontLeft,
    /// From the helper point to the right red point.
    FrontRight,
}

/// The labelled segments: the base and both rays always, the hypotenuse and
/// the two front segments when their features are on, in that order.
pub open spec fn spec_visible_kinds(show_hypotenuse: bool, show_front_plus: bool) -> Seq<DistanceKind> {
    let base = seq![DistanceKind::Base, DistanceKind::LeftRay, DistanceKind::RightRay];
    let with_hyp = if show_hypotenuse { base.push(DistanceKind::Hypotenuse) } else { base };
    if show_front_plus {
        with_hyp.push(DistanceKind::FrontLeft).push(DistanceKind::FrontRight)
    } else {
        with_hyp
    }
}

/// The labelled segments, in drawing order.
pub fn visible_kinds(show_hypotenuse: bool, show_front_plus: bool) -> (kinds: Vec<DistanceKind>)
    ensures
        kinds@ == spec_visible_kinds(show_hypotenuse, show_front_plus),
{
    let mut kinds = Vec::new();
    kinds.push(DistanceKind::Base);
    kinds.push(DistanceKind::LeftRay);
    kinds.push(DistanceKind::RightRay);
    if show_hypotenuse {
        kinds.push(DistanceKind::Hypotenuse);
    }
    if show_front_plus {
        kinds.push(DistanceKind::FrontLeft);
        kinds.push(DistanceKind::FrontRight);
    }
    assert(kinds@ =~= spec_visible_kinds(show_hypotenuse, show_front_plus));
    kinds
}

/// The distance labels that the user has hidden by clicking them.
#[derive(Clone, Copy, Debug, Default)]
pub struct HiddenDistancePanels {
    pub base: bool,
    pub left_ray: bool,
    pub right_ray: bool,
    pub hypotenuse: bool,
    pub front_left: bool,
    pub front_right: bool,
}

impl HiddenDistancePanels {
    /// Whether the label of `kind` is hidden.
    pub open spec fn is_hidden(self, kind: DistanceKind) -> bool {
        match kind {
            DistanceKind::Base => self.base,
            DistanceKind::LeftRay => self.left_ray,
            DistanceKind::RightRay => self.right_ray,
            DistanceKind::Hypotenuse => self.hypotenuse,
            DistanceKind::FrontLeft => self.front_left,
            DistanceKind::FrontRight => self.front_right,
        }
    }

    /// No label hidden.
    pub open spec fn none_hidden() -> Self {
        HiddenDistancePanels {
            base: false,
            left_ray: false,
            right_ray: false,
            hypotenuse: false,
            front_left: false,
            front_right: false,
        }
    }

    /// The same labels hidden, except that the label of `kind` is hidden
    /// exactly when `hidden` holds.
    pub open spec fn with_hidden(self, kind: DistanceKind, hidden: bool) -> Self {
        match kind {
            DistanceKind::Base => HiddenDistancePanels { base: hidden, ..self },
            DistanceKind::LeftRay => HiddenDistancePanels { left_ray: hidden, ..self },
            DistanceKind::RightRay => HiddenDistancePanels { right_ray: hidden, ..self },
            DistanceKind::Hypotenuse => HiddenDistancePanels { hypotenuse: hidden, ..self },
            DistanceKind::FrontLeft => HiddenDistancePanels { front_left: hidden, ..self },
            DistanceKind::FrontRight => HiddenDistancePanels { front_right: hidden, ..self },
        }
    }

    /// Whether the label of `kind` is hidden.
    pub fn hidden(&self, kind: DistanceKind) -> (b: bool)
        ensures
            b == self.is_hidden(kind),
    {
        match kind {
            DistanceKind::Base => self.base,
            DistanceKind::LeftRay => self.left_ray,
            DistanceKind::RightRay => self.right_ray,
            DistanceKind::Hypotenuse => self.hypotenuse,
            DistanceKind::FrontLeft => self.front_left,
            DistanceKind::FrontRight => self.front_right,
        }
    }

    /// Sets whether the label of `kind` is hidden, leaving the others.
    fn set(&mut self, kind: DistanceKind, hidden: bool)
        ensures
            *final(self) == old(self).with_hidden(kind, hidden),
    {
        match kind {
            DistanceKind::Base => self.base = hidden,
            DistanceKind::LeftRay => self.left_ray = hidden,
            DistanceKind::RightRay => self.right_ray = hidden,
            DistanceKind::Hypotenuse => self.hypotenuse = hidden,
            DistanceKind::FrontLeft => self.front_left = hidden,
            DistanceKind::FrontRight => self.front_right = hidden,
        }
    }

    /// Hides the label of `kind`.
    pub fn hide_label(&mut self, kind: DistanceKind)
        ensures
            *final(self) == old(self).with_hidden(kind, true),
    {
        self.set(kind, true);
    }

    /// Shows the label of `kind` again.
    pub fn show_label(&mut self, kind: DistanceKind)
        ensures
            *final(self) == old(self).with_hidden(kind, false),
    {
        self.set(kind, false);
    }

    /// Shows every label again.
    pub fn clear_all(&mut self)
        ensures
            *final(self) == HiddenDistancePanels::none_hidden(),
    {
        *self = HiddenDistancePanels {
            base: false,
            left_ray: false,
            right_ray: false,
            hypotenuse: false,
            front_left: false,
            front_right: false,
        };
    }
}

/// Hiding or showing one distance label changes only that label, and with
/// none hidden no label is hidden.
pub proof fn lemma_with_hidden(d: HiddenDistancePanels, kind: DistanceKind, hidden: bool, k: DistanceKind)
    ensures
        d.with_hidden(kind, hidden).is_hidden(k) == (if k == kind {
            hidden
        } else {
            d.is_hidden(k)
        }),
        !HiddenDistancePanels::none_hidden().is_hidden(k),
{
}

/// The labelled segments whose labels the user has not hidden, in drawing
/// order.
pub open spec fn spec_shown_kinds(
    show_hypotenuse: bool,
    show_front_plus: bool,
    hidden: HiddenDistancePanels,
) -> Seq<DistanceKind> {
    spec_visible_kinds(show_hypotenuse, show_front_plus).filter(|k: DistanceKind| !hidden.is_hidden(k))
}

/// The labelled segments whose labels are shown, in drawing order.
pub fn shown_kinds(show_hypotenuse: bool, show_front_plus: bool, hidden: &HiddenDistancePanels) -> (kinds: Vec<DistanceKind>)
    ensures
        kinds@ == spec_shown_kinds(show_hypotenuse, show_front_plus, *hidden),
{
    let all = visible_kinds(show_hypotenuse, show_front_plus);
    let ghost all_view = all@;
    let mut kinds: Vec<DistanceKind> = Vec::new();
    let mut i: usize = 0;
    while i < all.len()
        invariant
            i <= all@.len(),
            all@ == all_view,
            kinds@ == all_view.take(i as int).filter(|k: DistanceKind| !hidden.is_hidden(k)),
        decreases all@.len() - i,
    {
        let k = all[i];
        proof {
            reveal(Seq::filter);
            assert(all_view.take(i + 1).drop_last() =~= all_view.take(i as int));
        }
        if !hidden.hidden(k) {
            kinds.push(k);
        }
        i = i + 1;
    }
    assert(all_view.take(all_view.len() as int) =~= all_view);
    kinds
}

/// The most bytes the editor's buffer grows to by typing.
pub const MAX_INPUT_BYTES: usize = 12;

/// A decimal separator: `.` or `,`.
pub open spec fn is_separator(c: char) -> bool {
    c == '.' || c == ','
}

/// A character that typing puts into the buffer: a digit or a separator.
pub open spec fn is_input_char(c: char) -> bool {
    is_digit(c) || is_separator(c)
}

/// The length of `s` in UTF-8 bytes (what `String::len` counts).
pub open spec fn byte_len(s: Seq<char>) -> nat {
    encode_utf8(s).len()
}

/// Typing one character: a digit is appended while the buffer is under
/// `MAX_INPUT_BYTES`; a separator is appended as `.`, likewise, when the
/// buffer has none yet; anything else is ignored.
pub open spec fn type_char(buf: Seq<char>, c: char) -> Seq<char> {
    if is_digit(c) && byte_len(buf) < 12 {
        buf.push(c)
    } else if is_separator(c) && !(exists|i: int| 0 <= i < buf.len() && is_separator(
        #[trigger] buf[i],
    )) && byte_len(buf) < 12 {
        buf.push('.')
    } else {
        buf
    }
}

/// Typing the characters of `text` one after the other.
pub open spec fn type_text(buf: Seq<char>, text: Seq<char>) -> Seq<char>
    decreases text.len(),
{
    if text.len() == 0 {
        buf
    } else {
        type_char(type_text(buf, text.drop_last()), text.last())
    }
}

/// A buffer that typing keeps as it is: at most `MAX_INPUT_BYTES` bytes and at
/// most one separator.
pub open spec fn buffer_wf(buf: Seq<char>) -> bool {
    &&& byte_len(buf) <= 12
    &&& forall|i: int, j: int|
        0 <= i < j < buf.len() ==> !(is_separator(#[trigger] buf[i]) && is_separator(#[trigger] buf[j]))
}

/// `text` with its trailing zeros removed, then a trailing `.` removed.
pub open spec fn trim_zeros(s: Seq<char>) -> Seq<char>
    decreases s.len(),
{
    if s.len() > 0 && s.last() == '0' {
        trim_zeros(s.drop_last())
    } else {
        s
    }
}

/// A decimal text without the zeros that end its fraction, and without the
/// point when nothing of the fraction is left.
pub open spec fn trim_fraction(s: Seq<char>) -> Seq<char> {
    let t = trim_zeros(s);
    if t.len() > 0 && t.last() == '.' {
        t.drop_last()
    } else {
        t
    }
}

/// Bytes of a sequence with one more character.
pub proof fn lemma_byte_len_push(s: Seq<char>, c: char)
    ensures
        byte_len(s.push(c)) == byte_len(s) + encode_scalar(c as u32).len(),
    decreases s.len(),
{
    let t = s.push(c);
    assert(encode_utf8(t) == encode_scalar(t[0] as u32) + encode_utf8(t.drop_first()));
    if s.len() == 0 {
        assert(t.drop_first() =~= Seq::<char>::empty());
        assert(encode_utf8(s).len() == 0);
        assert(encode_utf8(t.drop_first()).len() == 0);
    } else {
        assert(encode_utf8(s) == encode_scalar(s[0] as u32) + encode_utf8(s.drop_first()));
        assert(t.drop_first() =~= s.drop_first().push(c));
        lemma_byte_len_push(s.drop_first(), c);
    }
}

/// An ASCII character is one byte.
pub proof fn lemma_ascii_one_byte(c: char)
    requires
        (c as u32) < 0x80,
    ensures
        encode_scalar(c as u32).len() == 1,
{
}

/// The length of the string in bytes.
fn byte_length(s: &String) -> (n: usize)
    ensures
        n as nat == byte_len(s@),
{
    s.as_str().as_bytes().len()
}

/// Removes the zeros that end the fraction of a decimal text, then the point
/// if nothing of the fraction is left.
pub fn trim_fraction_zeros(text: &str) -> (t: String)
    ensures
        t@ == trim_fraction(text@),
{
    let mut t = text.to_owned();
    let mut n = t.as_str().unicode_len();
    while n > 0 && t.as_str().get_char(n - 1) == '0'
        invariant
            n == t@.len(),
            trim_zeros(t@) == trim_zeros(text@),
        decreases n,
    {
        pop_char(&mut t);
        n = n - 1;
    }
    if n > 0 && t.as_str().get_char(n - 1) == '.' {
        pop_char(&mut t);
    }
    t
}

/// The editor of one distance label: the text typed so far.
#[derive(Clone, Debug)]
pub struct DistanceEditor {
    pub kind: DistanceKind,
    pub buffer: String,
    /// The first typed character replaces the whole buffer.
    pub replace_on_input: bool,
}

/// Whether `text` holds a digit or a separator.
fn holds_input(text: &str) -> (b: bool)
    ensures
        b == exists|i: int| 0 <= i < text@.len() && is_input_char(#[trigger] text@[i]),
{
    let n = text.unicode_len();
    let mut i: usize = 0;
    while i < n
        invariant
            n == text@.len(),
            i <= n,
            forall|k: int| 0 <= k < i ==> !is_input_char(#[trigger] text@[k]),
        decreases n - i,
    {
        let c = text.get_char(i);
        let u = c as u32;
        if (48 <= u && u <= 57) || c == '.' || c == ',' {
            assert(is_input_char(text@[i as int]));
            return true;
        }
        i = i + 1;
    }
    false
}

/// Whether `text` holds a separator.
fn holds_separator(text: &str) -> (b: bool)
    ensures
        b == exists|i: int| 0 <= i < text@.len() && is_separator(#[trigger] text@[i]),
{
    let n = text.unicode_len();
    let mut i: usize = 0;
    while i < n
        invariant
            n == text@.len(),
            i <= n,
            forall|k: int| 0 <= k < i ==> !is_separator(#[trigger] text@[k]),
        decreases n - i,
    {
        let c = text.get_char(i);
        if c == '.' || c == ',' {
            assert(is_separator(text@[i as int]));
            return true;
        }
        i = i + 1;
    }
    false
}

impl DistanceEditor {
    /// Starts editing a label with its current text; the first typed
    /// character replaces it.
    pub fn new(kind: DistanceKind, buffer: String) -> (e: Self)
        ensures
            e.kind == kind,
            e.buffer@ == buffer@,
            e.replace_on_input,
    {
        DistanceEditor { kind, buffer, replace_on_input: true }
    }

    /// Types `text`: if it holds a digit or a separator while the buffer is
    /// still to be replaced, the buffer is emptied first; then each character
    /// is typed (see `type_char`).
    pub fn append_input(&mut self, text: &str)
        ensures
            final(self).kind == old(self).kind,
            ({
                let has_input = exists|i: int| 0 <= i < text@.len() && is_input_char(#[trigger] text@[i]);
                let start = if old(self).replace_on_input && has_input {
                    Seq::<char>::empty()
                } else {
                    old(self).buffer@
                };
                &&& final(self).buffer@ == type_text(start, text@)
                &&& final(self).replace_on_input == (old(self).replace_on_input && !has_input)
            }),
            buffer_wf(old(self).buffer@) ==> buffer_wf(final(self).buffer@),
    {
        let contains_input = holds_input(text);
        if self.replace_on_input && contains_input {
            self.buffer = String::new();
            self.replace_on_input = false;
        }
        let ghost start = self.buffer@;
        let ghost rep = self.replace_on_input;
        proof {
            if buffer_wf(old(self).buffer@) {
                assert(buffer_wf(start)) by {
                    if start.len() == 0 {
                        assert(start =~= Seq::<char>::empty());
                        assert(encode_utf8(start).len() == 0);
                    }
                }
            }
        }
        let n = text.unicode_len();
        let mut i: usize = 0;
        while i < n
            invariant
                n == text@.len(),
                i <= n,
                self.buffer@ == type_text(start, text@.take(i as int)),
                self.kind == old(self).kind,
                self.replace_on_input == rep,
                buffer_wf(start) ==> buffer_wf(self.buffer@),
            decreases n - i,
        {
            let c = text.get_char(i);
            let ghost before = self.buffer@;
            assert(text@.take(i + 1).drop_last() =~= text@.take(i as int));
            assert(text@.take(i + 1).last() == c);
            let u = c as u32;
            if 48 <= u && u <= 57 && byte_length(&self.buffer) < MAX_INPUT_BYTES {
                push_char(&mut self.buffer, c);
                proof {
                    lemma_byte_len_push(before, c);
                    lemma_ascii_one_byte(c);
                    if buffer_wf(before) {
                        assert forall|a: int, b: int|
                            0 <= a < b < self.buffer@.len() implies !(is_separator(
                                #[trigger] self.buffer@[a],
                            ) && is_separator(#[trigger] self.buffer@[b])) by {
                            if b < before.len() {
                                assert(self.buffer@[a] == before[a]);
                                assert(self.buffer@[b] == before[b]);
                            }
                        }
                    }
                }
            } else if (c == '.' || c == ',') && !holds_separator(self.buffer.as_str())
                && byte_length(&self.buffer) < MAX_INPUT_BYTES {
                push_char(&mut self.buffer, '.');
                proof {
                    lemma_byte_len_push(before, '.');
                    lemma_ascii_one_byte('.');
                    if buffer_wf(before) {
                        assert forall|a: int, b: int|
                            0 <= a < b < self.buffer@.len() implies !(is_separator(
                                #[trigger] self.buffer@[a],
                            ) && is_separator(#[trigger] self.buffer@[b])) by {
                            if b < before.len() {
                                assert(self.buffer@[a] == before[a]);
                                assert(self.buffer@[b] == before[b]);
                            } else {
                                assert(self.buffer@[a] == before[a]);
                            }
                        }
                    }
                }
            }
            i = i + 1;
        }
        assert(text@.take(n as int) =~= text@);
    }

    /// Deletes backwards: a buffer still to be replaced is emptied; otherwise
    /// its last character goes.
    pub fn backspace(&mut self)
        ensures
            final(self).kind == old(self).kind,
            final(self).replace_on_input == false,
            old(self).replace_on_input ==> final(self).buffer@ == Seq::<char>::empty(),
            !old(self).replace_on_input ==> final(self).buffer@ == (if old(self).buffer@.len() > 0 {
                old(self).buffer@.drop_last()
            } else {
                old(self).buffer@
            }),
            buffer_wf(old(self).buffer@) ==> buffer_wf(final(self).buffer@),
    {
        if self.replace_on_input {
            self.buffer = String::new();
            self.replace_on_input = false;
            proof {
                assert(encode_utf8(self.buffer@).len() == 0);
            }
        } else {
            let ghost before = self.buffer@;
            pop_char(&mut self.buffer);
            proof {
                if before.len() > 0 {
                    lemma_byte_len_push(before.drop_last(), before.last());
                    assert(before.drop_last().push(before.last()) =~= before);
                    if buffer_wf(before) {
                        assert forall|a: int, b: int|
                            0 <= a < b < self.buffer@.len() implies !(is_separator(
                                #[trigger] self.buffer@[a],
                            ) && is_separator(#[trigger] self.buffer@[b])) by {
                            assert(self.buffer@[a] == before[a]);
                            assert(self.buffer@[b] == before[b]);
                        }
                    }
                }
            }
        }
    }

    /// The buffer with each `,` read as `.`, ready to be read as a number.
    pub fn normalized_buffer(&self) -> (t: String)
        ensures
            t@ == self.buffer@.map_values(|c: char| if c == ',' { '.' } else { c }),
    {
        let b = self.buffer.as_str();
        let n = b.unicode_len();
        let mut t = String::new();
        let mut i: usize = 0;
        while i < n
            invariant
                n == b@.len(),
                b@ == self.buffer@,
                i <= n,
                t@ == b@.take(i as int).map_values(|c: char| if c == ',' { '.' } else { c }),
            decreases n - i,
        {
            let c = b.get_char(i);
            push_char(&mut t, if c == ',' { '.' } else { c });
            assert(b@.take(i + 1).map_values(|c: char| if c == ',' { '.' } else { c }) =~= b@.take(
                i as int,
            ).map_values(|c: char| if c == ',' { '.' } else { c }).push(
                if c == ',' { '.' } else { c },
            ));
            i = i + 1;
        }
        assert(b@.take(n as int) =~= b@);
        t
    }

    /// The label shown while editing: the buffer followed by the metre sign.
    pub fn label(&self) -> (t: String)
        ensures
            t@ == self.buffer@.push('м'),
    {
        let mut t = String::new();
        push_text(&mut t, self.buffer.as_str());
        push_char(&mut t, 'м');
        assert(Seq::<char>::empty() + self.buffer@ =~= self.buffer@);
        t
    }
}

/// Typing only appends to the buffer, at most one character for each one
/// typed, and what it appends is digits and `.`: a `,` goes in as `.`.
pub proof fn lemma_typing_appends(buf: Seq<char>, text: Seq<char>)
    ensures
        buf.len() <= type_text(buf, text).len() <= buf.len() + text.len(),
        type_text(buf, text).subrange(0, buf.len() as int) =~= buf,
        forall|i: int|
            buf.len() <= i < type_text(buf, text).len() ==> is_digit(#[trigger] type_text(buf, text)[i])
                || type_text(buf, text)[i] == '.',
    decreases text.len(),
{
    if text.len() > 0 {
        lemma_typing_appends(buf, text.drop_last());
        let p = type_text(buf, text.drop_last());
        let q = type_text(buf, text);
        assert(q == type_char(p, text.last()));
        assert forall|i: int| buf.len() <= i < q.len() implies is_digit(#[trigger] q[i]) || q[i] == '.' by {
            if i < p.len() {
                assert(q[i] == p[i]);
            }
        }
        assert(q.subrange(0, buf.len() as int) =~= p.subrange(0, buf.len() as int));
    }
}

} // verus!
