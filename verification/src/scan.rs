//! Whitespace tokenizing and decimal integer tokens, as read and written by the
//! settings files.
use vstd::prelude::*;
use vstd::string::StrSliceExecFns;

verus! {

/// The characters with the Unicode `White_Space` property (what
/// `char::is_whitespace` tests, and what separates the tokens of a file).
pub open spec fn is_space(c: char) -> bool {
    let u = c as u32;
    ||| 0x09 <= u <= 0x0D
    ||| u == 0x20
    ||| u == 0x85
    ||| u == 0xA0
    ||| u == 0x1680
    ||| 0x2000 <= u <= 0x200A
    ||| u == 0x2028
    ||| u == 0x2029
    ||| u == 0x202F
    ||| u == 0x205F
    ||| u == 0x3000
}

/// A token: a non-empty run of characters none of which is whitespace.
pub open spec fn is_token(t: Seq<char>) -> bool {
    t.len() > 0 && forall|i: int| 0 <= i < t.len() ==> !is_space(#[trigger] t[i])
}

/// The characters of each string of a sequence.
pub open spec fn string_views(v: Seq<String>) -> Seq<Seq<char>> {
    v.map_values(|t: String| t@)
}

/// Reading `s` from the left: the tokens completed so far, and the token
/// still open at the end of `s` (empty when `s` ends in whitespace).
pub open spec fn scan_tokens(s: Seq<char>) -> (Seq<Seq<char>>, Seq<char>)
    decreases s.len(),
{
    if s.len() == 0 {
        (Seq::empty(), Seq::empty())
    } else {
        let prev = scan_tokens(s.drop_last());
        let c = s.last();
        if is_space(c) {
            if prev.1.len() > 0 {
                (prev.0.push(prev.1), Seq::empty())
            } else {
                prev
            }
        } else {
            (prev.0, prev.1.push(c))
        }
    }
}

/// The maximal runs of non-whitespace characters of `s`, in order (what
/// `str::split_whitespace` yields).
pub open spec fn whitespace_tokens(s: Seq<char>) -> Seq<Seq<char>> {
    let r = scan_tokens(s);
    if r.1.len() > 0 {
        r.0.push(r.1)
    } else {
        r.0
    }
}

/// Every token that the scan completes is a token, and the open token holds no
/// whitespace.
pub proof fn lemma_scan_tokens_wf(s: Seq<char>)
    ensures
        forall|k: int| 0 <= k < scan_tokens(s).0.len() ==> is_token(#[trigger] scan_tokens(s).0[k]),
        forall|i: int| 0 <= i < scan_tokens(s).1.len() ==> !is_space(#[trigger] scan_tokens(s).1[i]),
    decreases s.len(),
{
    if s.len() > 0 {
        let prev = scan_tokens(s.drop_last());
        lemma_scan_tokens_wf(s.drop_last());
        let c = s.last();
        if is_space(c) {
            if prev.1.len() > 0 {
                let done = prev.0.push(prev.1);
                assert forall|k: int| 0 <= k < done.len() implies is_token(#[trigger] done[k]) by {
                    if k < prev.0.len() {
                        assert(done[k] == prev.0[k]);
                    } else {
                        assert(done[k] == prev.1);
                    }
                }
            }
        } else {
            let cur = prev.1.push(c);
            assert forall|i: int| 0 <= i < cur.len() implies !is_space(#[trigger] cur[i]) by {
                if i < prev.1.len() {
                    assert(cur[i] == prev.1[i]);
                }
            }
        }
    }
}

/// Each piece that `whitespace_tokens` yields is a token.
pub proof fn lemma_whitespace_tokens_wf(s: Seq<char>)
    ensures
        forall|k: int|
            0 <= k < whitespace_tokens(s).len() ==> is_token(#[trigger] whitespace_tokens(s)[k]),
{
    lemma_scan_tokens_wf(s);
}

/// Scanning a prefix that closed all its tokens, then one token: the token is
/// left open.
proof fn lemma_scan_append_token(p: Seq<char>, t: Seq<char>)
    requires
        scan_tokens(p).1.len() == 0,
        forall|i: int| 0 <= i < t.len() ==> !is_space(#[trigger] t[i]),
    ensures
        scan_tokens(p + t) == (scan_tokens(p).0, t),
    decreases t.len(),
{
    if t.len() == 0 {
        assert(p + t =~= p);
    } else {
        let q = p + t;
        assert(q.drop_last() =~= p + t.drop_last());
        lemma_scan_append_token(p, t.drop_last());
        assert(q.last() == t.last());
        assert(t.drop_last().push(t.last()) =~= t);
    }
}

/// Text made of tokens, each followed by one whitespace character.
pub open spec fn separated(tokens: Seq<Seq<char>>, seps: Seq<char>) -> Seq<char>
    decreases tokens.len(),
{
    if tokens.len() == 0 {
        Seq::empty()
    } else {
        separated(tokens.drop_last(), seps) + tokens.last().push(seps[tokens.len() - 1])
    }
}

/// Tokenizing text laid out as tokens each followed by a whitespace character
/// gives back exactly those tokens.
pub proof fn lemma_separated_tokens(tokens: Seq<Seq<char>>, seps: Seq<char>)
    requires
        seps.len() == tokens.len(),
        forall|k: int| 0 <= k < tokens.len() ==> is_token(#[trigger] tokens[k]),
        forall|k: int| 0 <= k < seps.len() ==> is_space(#[trigger] seps[k]),
    ensures
        scan_tokens(separated(tokens, seps)) == (tokens, Seq::<char>::empty()),
        whitespace_tokens(separated(tokens, seps)) == tokens,
    decreases tokens.len(),
{
    if tokens.len() == 0 {
        assert(tokens =~= Seq::<Seq<char>>::empty());
    } else {
        let n = tokens.len();
        let front = tokens.drop_last();
        assert forall|k: int| 0 <= k < front.len() implies is_token(#[trigger] front[k]) by {
            assert(front[k] == tokens[k]);
        }
        let fseps = seps.drop_last();
        assert forall|k: int| 0 <= k < fseps.len() implies is_space(#[trigger] fseps[k]) by {
            assert(fseps[k] == seps[k]);
        }
        lemma_separated_tokens(front, fseps);
        assert(separated(front, seps) =~= separated(front, fseps)) by {
            lemma_separated_prefix_seps(front, seps, fseps);
        }
        let p = separated(front, seps);
        let t = tokens.last();
        assert(is_token(tokens[n - 1]));
        lemma_scan_append_token(p, t);
        let whole = separated(tokens, seps);
        assert(whole =~= (p + t).push(seps[n - 1]));
        assert(whole.drop_last() =~= p + t);
        assert(is_space(seps[n - 1]));
        assert(front.push(t) =~= tokens);
    }
}

/// Only the separators that follow the tokens matter.
proof fn lemma_separated_prefix_seps(tokens: Seq<Seq<char>>, a: Seq<char>, b: Seq<char>)
    requires
        a.len() >= tokens.len(),
        b.len() >= tokens.len(),
        forall|k: int| 0 <= k < tokens.len() ==> a[k] == b[k],
    ensures
        separated(tokens, a) == separated(tokens, b),
    decreases tokens.len(),
{
    if tokens.len() > 0 {
        lemma_separated_prefix_seps(tokens.drop_last(), a, b);
        assert(a[tokens.len() - 1] == b[tokens.len() - 1]);
    }
}

/// Tests whether `c` is whitespace (`char::is_whitespace`).
pub fn is_space_char(c: char) -> (r: bool)
    ensures
        r == is_space(c),
{
    let u = c as u32;
    (0x09 <= u && u <= 0x0D) || u == 0x20 || u == 0x85 || u == 0xA0 || u == 0x1680 || (0x2000
        <= u && u <= 0x200A) || u == 0x2028 || u == 0x2029 || u == 0x202F || u == 0x205F || u
        == 0x3000
}

/// `String::push`: appends one character at the end of the string.
#[verifier::external_body]
pub(crate) fn push_char(s: &mut String, c: char)
    ensures
        final(s)@ == old(s)@.push(c),
{
    s.push(c);
}

/// `String::pop`: removes the last character, if there is one, and returns it.
#[verifier::external_body]
pub(crate) fn pop_char(s: &mut String) -> (c: Option<char>)
    ensures
        old(s)@.len() > 0 ==> c == Some(old(s)@.last()) && final(s)@ == old(s)@.drop_last(),
        old(s)@.len() == 0 ==> c is None && final(s)@ == old(s)@,
{
    s.pop()
}

/// Splits `text` into its whitespace-separated tokens.
pub fn split_whitespace(text: &str) -> (tokens: Vec<String>)
    ensures
        string_views(tokens@) == whitespace_tokens(text@),
{
    let n = text.unicode_len();
    let mut tokens: Vec<String> = Vec::new();
    let mut cur = String::new();
    let mut cur_len: usize = 0;
    let mut i: usize = 0;
    while i < n
        invariant
            n == text@.len(),
            i <= n,
            cur_len == cur@.len(),
            cur_len <= i,
            string_views(tokens@) == scan_tokens(text@.take(i as int)).0,
            cur@ == scan_tokens(text@.take(i as int)).1,
        decreases n - i,
    {
        let c = text.get_char(i);
        let ghost before = text@.take(i as int);
        assert(text@.take(i + 1).drop_last() =~= before);
        assert(text@.take(i + 1).last() == c);
        if is_space_char(c) {
            if cur_len > 0 {
                let ghost old_tokens = tokens@;
                tokens.push(cur);
                assert(string_views(tokens@) =~= string_views(old_tokens).push(
                    scan_tokens(before).1,
                ));
                cur = String::new();
                cur_len = 0;
            }
        } else {
            push_char(&mut cur, c);
            cur_len = cur_len + 1;
        }
        i = i + 1;
    }
    assert(text@.take(n as int) =~= text@);
    if cur_len > 0 {
        let ghost old_tokens = tokens@;
        tokens.push(cur);
        assert(string_views(tokens@) =~= string_views(old_tokens).push(scan_tokens(text@).1));
    }
    tokens
}

// ----- decimal integers -----
/// An ASCII decimal digit.
pub open spec fn is_digit(c: char) -> bool {
    48 <= (c as u32) <= 57
}

/// The value of the decimal digits `s` (most significant first).
pub open spec fn digits_value(s: Seq<char>) -> nat
    decreases s.len(),
{
    if s.len() == 0 {
        0
    } else {
        digits_value(s.drop_last()) * 10 + ((s.last() as u32) - 48) as nat
    }
}

/// The value of `s` read as a non-empty string of decimal digits, if it is one.
pub open spec fn digits_of(s: Seq<char>) -> Option<nat> {
    if s.len() > 0 && forall|i: int| 0 <= i < s.len() ==> is_digit(#[trigger] s[i]) {
        Some(digits_value(s))
    } else {
        None
    }
}

/// An unsigned decimal integer as `str::parse` reads it: an optional `+` and
/// at least one digit, nothing else.
pub open spec fn unsigned_decimal(s: Seq<char>) -> Option<nat> {
    if s.len() > 0 && s[0] == '+' {
        digits_of(s.drop_first())
    } else {
        digits_of(s)
    }
}

/// A signed decimal integer as `str::parse` reads it: an optional `+` or `-`
/// and at least one digit, nothing else.
pub open spec fn signed_decimal(s: Seq<char>) -> Option<int> {
    if s.len() > 0 && s[0] == '-' {
        match digits_of(s.drop_first()) {
            Some(m) => Some(-m),
            None => None,
        }
    } else {
        match unsigned_decimal(s) {
            Some(m) => Some(m as int),
            None => None,
        }
    }
}

/// The token read as a `u8` (`str::parse::<u8>`).
pub open spec fn u8_token(s: Seq<char>) -> Option<u8> {
    match unsigned_decimal(s) {
        Some(v) => if v <= u8::MAX { Some(v as u8) } else { None },
        None => None,
    }
}

/// The token read as a `u32` (`str::parse::<u32>`).
pub open spec fn u32_token(s: Seq<char>) -> Option<u32> {
    match unsigned_decimal(s) {
        Some(v) => if v <= u32::MAX { Some(v as u32) } else { None },
        None => None,
    }
}

/// The token read as a `usize` (`str::parse::<usize>`).
pub open spec fn usize_token(s: Seq<char>) -> Option<usize> {
    match unsigned_decimal(s) {
        Some(v) => if v <= usize::MAX { Some(v as usize) } else { None },
        None => None,
    }
}

/// The token read as an `i32` (`str::parse::<i32>`).
pub open spec fn i32_token(s: Seq<char>) -> Option<i32> {
    match signed_decimal(s) {
        Some(v) => if i32::MIN <= v <= i32::MAX { Some(v as i32) } else { None },
        None => None,
    }
}

/// Reads the characters of `s` from `start` on as decimal digits; `None` when
/// they are not all digits, when there are none, or when the value exceeds
/// `max`.
fn parse_digits(s: &str, start: usize, max: u128) -> (r: Option<u128>)
    requires
        start <= s@.len(),
        max <= u64::MAX,
    ensures
        r == (match digits_of(s@.skip(start as int)) {
            Some(v) => if v <= max { Some(v as u128) } else { None },
            None => None,
        }),
{
    let n = s.unicode_len();
    if start == n {
        assert(s@.skip(start as int).len() == 0);
        return None;
    }
    let ghost body = s@.skip(start as int);
    let mut value: u128 = 0;
    let mut too_big = false;
    let mut i: usize = start;
    while i < n
        invariant
            n == s@.len(),
            start <= i <= n,
            start < n,
            body == s@.skip(start as int),
            max <= u64::MAX,
            value <= max,
            forall|k: int| start <= k < i ==> is_digit(#[trigger] s@[k]),
            !too_big ==> value == digits_value(body.take(i - start)),
            too_big ==> digits_value(body.take(i - start)) > max,
        decreases n - i,
    {
        let c = s.get_char(i);
        let u = c as u32;
        if u < 48 || u > 57 {
            assert(body[i - start] == c);
            assert(!is_digit(body[i - start]));
            return None;
        }
        let ghost pre = body.take(i - start);
        assert(body.take(i + 1 - start).drop_last() =~= pre);
        assert(body.take(i + 1 - start).last() == c);
        if !too_big {
            let next = value * 10 + (u - 48) as u128;
            if next > max {
                too_big = true;
            } else {
                value = next;
            }
        }
        i = i + 1;
    }
    assert(body.take(n - start) =~= body);
    assert forall|k: int| 0 <= k < body.len() implies is_digit(#[trigger] body[k]) by {
        assert(body[k] == s@[k + start]);
    }
    if too_big {
        None
    } else {
        Some(value)
    }
}

/// Reads an unsigned decimal token whose value is at most `max`.
fn parse_unsigned(s: &str, max: u128) -> (r: Option<u128>)
    requires
        max <= u64::MAX,
    ensures
        r == (match unsigned_decimal(s@) {
            Some(v) => if v <= max { Some(v as u128) } else { None },
            None => None,
        }),
{
    let n = s.unicode_len();
    if n > 0 && s.get_char(0) == '+' {
        assert(s@.skip(1) =~= s@.drop_first());
        parse_digits(s, 1, max)
    } else {
        assert(s@.skip(0) =~= s@);
        parse_digits(s, 0, max)
    }
}

/// `str::parse::<u8>`.
pub fn parse_u8(s: &str) -> (r: Option<u8>)
    ensures
        r == u8_token(s@),
{
    match parse_unsigned(s, 255) {
        Some(v) => Some(v as u8),
        None => None,
    }
}

/// `str::parse::<u32>`.
pub fn parse_u32(s: &str) -> (r: Option<u32>)
    ensures
        r == u32_token(s@),
{
    match parse_unsigned(s, 0xFFFF_FFFF) {
        Some(v) => Some(v as u32),
        None => None,
    }
}

/// `str::parse::<usize>`.
pub fn parse_usize(s: &str) -> (r: Option<usize>)
    ensures
        r == usize_token(s@),
{
    let max = usize::MAX as u128;
    match parse_unsigned(s, max) {
        Some(v) => Some(v as usize),
        None => None,
    }
}

/// `str::parse::<i32>`.
pub fn parse_i32(s: &str) -> (r: Option<i32>)
    ensures
        r == i32_token(s@),
{
    let n = s.unicode_len();
    if n > 0 && s.get_char(0) == '-' {
        assert(s@.skip(1) =~= s@.drop_first());
        match parse_digits(s, 1, 0x8000_0000) {
            Some(m) => Some((0 - (m as i64)) as i32),
            None => None,
        }
    } else {
        match parse_unsigned(s, 0x7FFF_FFFF) {
            Some(v) => Some(v as i32),
            None => None,
        }
    }
}

// ----- writing decimal integers -----
/// The digit character for `d < 10`.
pub open spec fn digit_char(d: nat) -> char {
    if d == 0 { '0' }
    else if d == 1 { '1' }
    else if d == 2 { '2' }
    else if d == 3 { '3' }
    else if d == 4 { '4' }
    else if d == 5 { '5' }
    else if d == 6 { '6' }
    else if d == 7 { '7' }
    else if d == 8 { '8' }
    else { '9' }
}

/// The decimal digits of `n`, without leading zeros (what `to_string` writes
/// for an unsigned integer).
pub closed spec fn decimal_text(n: nat) -> Seq<char>
    decreases n,
{
    if n < 10 {
        seq![digit_char(n)]
    } else {
        decimal_text(n / 10).push(digit_char(n % 10))
    }
}

/// What `to_string` writes for a signed integer: a `-` for negative values,
/// then the digits of the magnitude.
pub closed spec fn signed_text(v: int) -> Seq<char> {
    if v < 0 {
        seq!['-'] + decimal_text((-v) as nat)
    } else {
        decimal_text(v as nat)
    }
}

/// A digit character's code is 48 more than its value.
pub proof fn lemma_digit_char(d: nat)
    requires
        d < 10,
    ensures
        (digit_char(d) as u32) == d + 48,
        is_digit(digit_char(d)),
{
}

/// The digits of a number are a non-empty run of digits with that value.
pub proof fn lemma_decimal_text(n: nat)
    ensures
        decimal_text(n).len() > 0,
        forall|i: int| 0 <= i < decimal_text(n).len() ==> is_digit(#[trigger] decimal_text(n)[i]),
        digits_value(decimal_text(n)) == n,
        digits_of(decimal_text(n)) == Some(n),
        unsigned_decimal(decimal_text(n)) == Some(n),
        is_token(decimal_text(n)),
    decreases n,
{
    let t = decimal_text(n);
    lemma_digit_char(n % 10);
    if n < 10 {
        assert(t.drop_last() =~= Seq::<char>::empty());
        assert(n % 10 == n);
        assert(digits_value(t) == digits_value(t.drop_last()) * 10 + ((t.last() as u32) - 48) as nat);
    } else {
        lemma_decimal_text(n / 10);
        let p = decimal_text(n / 10);
        assert(t.drop_last() =~= p);
        assert(t.last() == digit_char(n % 10));
        assert(digits_value(t) == digits_value(p) * 10 + ((t.last() as u32) - 48) as nat);
        assert(n == (n / 10) * 10 + n % 10) by (nonlinear_arith);
        assert forall|i: int| 0 <= i < t.len() implies is_digit(#[trigger] t[i]) by {
            if i < p.len() {
                assert(t[i] == p[i]);
            }
        }
    }
    assert(is_digit(t[0]));
    assert forall|i: int| 0 <= i < t.len() implies !is_space(#[trigger] t[i]) by {
        assert(is_digit(t[i]));
    }
}

/// Reading back what was written for a signed integer gives the integer.
pub proof fn lemma_signed_text(v: int)
    ensures
        signed_decimal(signed_text(v)) == Some(v),
        is_token(signed_text(v)),
{
    if v < 0 {
        let m = (-v) as nat;
        lemma_decimal_text(m);
        let t = signed_text(v);
        assert(t.drop_first() =~= decimal_text(m));
        assert forall|i: int| 0 <= i < t.len() implies !is_space(#[trigger] t[i]) by {
            if i > 0 {
                assert(t[i] == decimal_text(m)[i - 1]);
                assert(is_digit(decimal_text(m)[i - 1]));
            }
        }
    } else {
        lemma_decimal_text(v as nat);
        assert(is_digit(decimal_text(v as nat)[0]));
    }
}

/// The character of a digit value.
fn digit_to_char(d: u32) -> (c: char)
    requires
        d < 10,
    ensures
        c == digit_char(d as nat),
{
    if d == 0 { '0' }
    else if d == 1 { '1' }
    else if d == 2 { '2' }
    else if d == 3 { '3' }
    else if d == 4 { '4' }
    else if d == 5 { '5' }
    else if d == 6 { '6' }
    else if d == 7 { '7' }
    else if d == 8 { '8' }
    else { '9' }
}

/// Appends the decimal digits of `n`.
pub fn push_decimal(s: &mut String, n: u32)
    ensures
        final(s)@ == old(s)@ + decimal_text(n as nat),
    decreases n,
{
    if n < 10 {
        push_char(s, digit_to_char(n));
        assert(old(s)@.push(digit_char(n as nat)) =~= old(s)@ + decimal_text(n as nat));
    } else {
        push_decimal(s, n / 10);
        push_char(s, digit_to_char(n % 10));
        assert(old(s)@ + decimal_text((n / 10) as nat) + seq![digit_char((n % 10) as nat)]
            =~= old(s)@ + decimal_text(n as nat));
    }
}

/// Appends an `i32` as `to_string` writes it.
pub fn push_signed(s: &mut String, v: i32)
    ensures
        final(s)@ == old(s)@ + signed_text(v as int),
{
    if v < 0 {
        push_char(s, '-');
        let m: u32 = if v == i32::MIN { 0x8000_0000 } else { (0 - v) as u32 };
        push_decimal(s, m);
        assert(old(s)@.push('-') + decimal_text(m as nat) =~= old(s)@ + signed_text(v as int));
    } else {
        push_decimal(s, v as u32);
    }
}

/// Appends every character of `t`.
pub fn push_text(s: &mut String, t: &str)
    ensures
        final(s)@ == old(s)@ + t@,
{
    let n = t.unicode_len();
    let mut i: usize = 0;
    while i < n
        invariant
            n == t@.len(),
            i <= n,
            s@ == old(s)@ + t@.take(i as int),
        decreases n - i,
    {
        let c = t.get_char(i);
        push_char(s, c);
        assert(old(s)@ + t@.take(i + 1) =~= old(s)@ + t@.take(i as int) + seq![c]);
        i = i + 1;
    }
    assert(t@.take(n as int) =~= t@);
}

/// Text written as tokens, each followed by a whitespace character; the ghost
/// fields record the tokens and separators written so far.
pub struct TokenWriter {
    pub text: String,
    pub toks: Ghost<Seq<Seq<char>>>,
    pub seps: Ghost<Seq<char>>,
}

impl TokenWriter {
    /// The text holds exactly the recorded tokens and separators.
    pub closed spec fn wf(&self) -> bool {
        &&& self.toks@.len() == self.seps@.len()
        &&& self.text@ == separated(self.toks@, self.seps@)
    }

    /// What a well-formed writer's text is.
    pub proof fn lemma_text(&self)
        requires
            self.wf(),
        ensures
            self.text@ == separated(self.toks@, self.seps@),
    {
    }

    /// An empty writer.
    pub fn new() -> (w: Self)
        ensures
            w.wf(),
            w.toks@ == Seq::<Seq<char>>::empty(),
            w.seps@ == Seq::<char>::empty(),
    {
        TokenWriter { text: String::new(), toks: Ghost(Seq::empty()), seps: Ghost(Seq::empty()) }
    }

    /// Records that `tok` was written, then writes the separator.
    fn close_token(&mut self, tok: Ghost<Seq<char>>, sep: char)
        requires
            old(self).toks@.len() == old(self).seps@.len(),
            old(self).text@ == separated(old(self).toks@, old(self).seps@) + tok@,
        ensures
            final(self).wf(),
            final(self).toks@ == old(self).toks@.push(tok@),
            final(self).seps@ == old(self).seps@.push(sep),
    {
        let ghost old_toks = self.toks@;
        let ghost old_seps = self.seps@;
        push_char(&mut self.text, sep);
        self.toks = Ghost(old_toks.push(tok@));
        self.seps = Ghost(old_seps.push(sep));
        proof {
            let nt = old_toks.push(tok@);
            let ns = old_seps.push(sep);
            assert(nt.drop_last() =~= old_toks);
            lemma_separated_prefix_seps(old_toks, ns, old_seps);
            assert(separated(nt, ns) =~= separated(old_toks, old_seps) + tok@.push(sep));
        }
    }

    /// Writes a text token followed by `sep`.
    pub fn emit_text(&mut self, t: &str, sep: char)
        requires
            old(self).wf(),
        ensures
            final(self).wf(),
            final(self).toks@ == old(self).toks@.push(t@),
            final(self).seps@ == old(self).seps@.push(sep),
    {
        push_text(&mut self.text, t);
        self.close_token(Ghost(t@), sep);
    }

    /// Writes an unsigned decimal token followed by `sep`.
    pub fn emit_u32(&mut self, n: u32, sep: char)
        requires
            old(self).wf(),
        ensures
            final(self).wf(),
            final(self).toks@ == old(self).toks@.push(decimal_text(n as nat)),
            final(self).seps@ == old(self).seps@.push(sep),
    {
        push_decimal(&mut self.text, n);
        self.close_token(Ghost(decimal_text(n as nat)), sep);
    }

    /// Writes a flag as `1` or `0` followed by `sep`.
    pub fn emit_flag(&mut self, b: bool, sep: char)
        requires
            old(self).wf(),
        ensures
            final(self).wf(),
            final(self).toks@ == old(self).toks@.push(flag_text(b)),
            final(self).seps@ == old(self).seps@.push(sep),
    {
        self.emit_u32(if b { 1 } else { 0 }, sep);
    }

    /// Writes a signed decimal token followed by `sep`.
    pub fn emit_i32(&mut self, v: i32, sep: char)
        requires
            old(self).wf(),
        ensures
            final(self).wf(),
            final(self).toks@ == old(self).toks@.push(signed_text(v as int)),
            final(self).seps@ == old(self).seps@.push(sep),
    {
        push_signed(&mut self.text, v);
        self.close_token(Ghost(signed_text(v as int)), sep);
    }
}

/// What a flag is written as: `1` for true, `0` for false.
pub closed spec fn flag_text(b: bool) -> Seq<char> {
    decimal_text(if b { 1 } else { 0 })
}

/// A flag written as `1` or `0` reads back as a `u8` that is non-zero exactly
/// when the flag was set.
pub proof fn lemma_flag_text(b: bool)
    ensures
        u8_token(flag_text(b)) == Some(if b { 1u8 } else { 0u8 }),
        is_token(flag_text(b)),
{
    lemma_decimal_text(if b { 1 } else { 0 });
}

} // verus!
