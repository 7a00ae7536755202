//! Character-level text primitives shared by the policy modules.

use vstd::prelude::*;

verus! {

/// Unicode `White_Space` property (PropList.txt).
pub open spec fn is_white_space(c: char) -> bool {
    let n = c as u32;
    (0x9 <= n && n <= 0xd) || n == 0x20 || n == 0x85 || n == 0xa0 || n == 0x1680
        || (0x2000 <= n && n <= 0x200a) || n == 0x2028 || n == 0x2029 || n == 0x202f
        || n == 0x205f || n == 0x3000
}

/// Unicode general category `Cc`.
pub open spec fn is_control_char(c: char) -> bool {
    let n = c as u32;
    n <= 0x1f || (0x7f <= n && n <= 0x9f)
}

pub assume_specification[ char::is_whitespace ](c: char) -> (b: bool)
    ensures
        b == is_white_space(c),
;

pub assume_specification[ char::is_control ](c: char) -> (b: bool)
    ensures
        b == is_control_char(c),
;

pub assume_specification[ String::push ](s: &mut String, ch: char)
    ensures
        final(s)@ == old(s)@.push(ch),
;

/// Copies the scalar values of a string slice into a vector.
pub fn chars_of(s: &str) -> (v: Vec<char>)
    ensures
        v@ == s@,
{
    let mut v: Vec<char> = Vec::new();
    for c in it: s.chars()
        invariant
            v@ == it.seq().take(it.index() as int),
            it.seq() == s@,
    {
        v.push(c);
    }
    v
}

/// Builds an owned string from scalar values.
pub fn string_of(v: &[char]) -> (s: String)
    ensures
        s@ == v@,
{
    let mut s = String::new();
    let mut i: usize = 0;
    while i < v.len()
        invariant
            i <= v.len(),
            s@ == v@.take(i as int),
        decreases v.len() - i,
    {
        s.push(v[i]);
        assert(v@.take(i as int + 1) == v@.take(i as int).push(v@[i as int]));
        i = i + 1;
    }
    assert(v@.take(v.len() as int) == v@);
    s
}


/// The whitespace predicate as a first-class spec function.
pub open spec fn white_space() -> spec_fn(char) -> bool {
    |c: char| is_white_space(c)
}

/// Drops the leading characters that satisfy `p`.
pub open spec fn trim_start_by(s: Seq<char>, p: spec_fn(char) -> bool) -> Seq<char>
    decreases s.len(),
{
    if s.len() > 0 && p(s[0]) {
        trim_start_by(s.drop_first(), p)
    } else {
        s
    }
}

/// Drops the trailing characters that satisfy `p`.
pub open spec fn trim_end_by(s: Seq<char>, p: spec_fn(char) -> bool) -> Seq<char>
    decreases s.len(),
{
    if s.len() > 0 && p(s.last()) {
        trim_end_by(s.drop_last(), p)
    } else {
        s
    }
}

/// `str::trim_matches(char::is_whitespace)` on scalar sequences.
pub open spec fn trim_ws(s: Seq<char>) -> Seq<char> {
    trim_end_by(trim_start_by(s, white_space()), white_space())
}

pub proof fn lemma_trim_start_skip(s: Seq<char>, p: spec_fn(char) -> bool, k: int)
    requires
        0 <= k <= s.len(),
        forall|i: int| 0 <= i < k ==> #[trigger] p(s[i]),
    ensures
        trim_start_by(s, p) == trim_start_by(s.skip(k), p),
    decreases k,
{
    if k > 0 {
        assert(p(s[0]));
        let t = s.drop_first();
        assert forall|i: int| 0 <= i < k - 1 implies #[trigger] p(t[i]) by {
            assert(t[i] == s[i + 1]);
        }
        lemma_trim_start_skip(t, p, k - 1);
        assert(t.skip(k - 1) =~= s.skip(k));
    } else {
        assert(s.skip(0) =~= s);
    }
}

pub proof fn lemma_trim_end_take(s: Seq<char>, p: spec_fn(char) -> bool, k: int)
    requires
        0 <= k <= s.len(),
        forall|i: int| k <= i < s.len() ==> #[trigger] p(s[i]),
    ensures
        trim_end_by(s, p) == trim_end_by(s.take(k), p),
    decreases s.len() - k,
{
    if k < s.len() {
        assert(p(s[s.len() - 1]));
        let t = s.drop_last();
        assert forall|i: int| k <= i < t.len() implies #[trigger] p(t[i]) by {
            assert(t[i] == s[i]);
        }
        lemma_trim_end_take(t, p, k);
        assert(t.take(k) =~= s.take(k));
    } else {
        assert(s.take(k) =~= s);
    }
}

/// What remains after trimming the start does not start with a trimmed
/// character.
pub proof fn lemma_trim_start_head(s: Seq<char>, p: spec_fn(char) -> bool)
    ensures
        trim_start_by(s, p).len() > 0 ==> !p(trim_start_by(s, p)[0]),
    decreases s.len(),
{
    if s.len() > 0 && p(s[0]) {
        lemma_trim_start_head(s.drop_first(), p);
    }
}

/// Trimming the end keeps a prefix that does not end with a trimmed
/// character.
pub proof fn lemma_trim_end_shape(s: Seq<char>, p: spec_fn(char) -> bool)
    ensures
        trim_end_by(s, p).len() <= s.len(),
        trim_end_by(s, p) == s.take(trim_end_by(s, p).len() as int),
        trim_end_by(s, p).len() > 0 ==> !p(trim_end_by(s, p).last()),
    decreases s.len(),
{
    if s.len() > 0 && p(s.last()) {
        let d = s.drop_last();
        lemma_trim_end_shape(d, p);
        let k = trim_end_by(d, p).len() as int;
        assert(d.take(k) =~= s.take(k));
    } else {
        assert(s.take(s.len() as int) =~= s);
    }
}

/// Trimming white space twice is trimming it once.
pub proof fn lemma_trim_ws_idempotent(s: Seq<char>)
    ensures
        trim_ws(trim_ws(s)) == trim_ws(s),
{
    let u = trim_start_by(s, white_space());
    let t = trim_end_by(u, white_space());
    lemma_trim_start_head(s, white_space());
    lemma_trim_end_shape(u, white_space());
    if t.len() > 0 {
        assert(t[0] == u.take(t.len() as int)[0]);
        assert(t[0] == u[0]);
    }
    assert(trim_start_by(t, white_space()) == t);
    assert(trim_end_by(t, white_space()) == t);
}

/// Bounds `[a, b)` of the whitespace-trimmed part of `v`.
pub fn trim_ws_bounds(v: &[char]) -> (r: (usize, usize))
    ensures
        r.0 <= r.1 <= v@.len(),
        v@.subrange(r.0 as int, r.1 as int) == trim_ws(v@),
{
    let n = v.len();
    let mut a: usize = 0;
    while a < n && v[a].is_whitespace()
        invariant
            a <= n == v@.len(),
            forall|i: int| 0 <= i < a ==> #[trigger] is_white_space(v@[i]),
        decreases n - a,
    {
        a = a + 1;
    }
    proof {
        assert forall|i: int| 0 <= i < a implies #[trigger] white_space()(v@[i]) by {
            assert(is_white_space(v@[i]));
        }
        lemma_trim_start_skip(v@, white_space(), a as int);
        let rest = v@.skip(a as int);
        if rest.len() > 0 {
            assert(rest[0] == v@[a as int]);
        }
        assert(trim_start_by(rest, white_space()) == rest);
    }
    let mut b: usize = n;
    while b > a && v[b - 1].is_whitespace()
        invariant
            a <= b <= n == v@.len(),
            forall|i: int| b <= i < n ==> #[trigger] is_white_space(v@[i]),
        decreases b,
    {
        b = b - 1;
    }
    proof {
        let rest = v@.skip(a as int);
        let k = (b - a) as int;
        assert forall|i: int| k <= i < rest.len() implies #[trigger] white_space()(rest[i]) by {
            assert(rest[i] == v@[i + a]);
            assert(is_white_space(v@[i + a]));
        }
        lemma_trim_end_take(rest, white_space(), k);
        let mid = rest.take(k);
        assert(mid =~= v@.subrange(a as int, b as int));
        if mid.len() > 0 {
            assert(mid.last() == v@[b - 1]);
        }
        assert(trim_end_by(mid, white_space()) == mid);
    }
    (a, b)
}


/// Appends the scalar values of `s`.
pub fn push_str(v: &mut Vec<char>, s: &str)
    ensures
        final(v)@ == old(v)@ + s@,
{
    let extra = chars_of(s);
    push_chars(v, &extra);
}

/// Appends the scalar values held by `extra`.
pub fn push_chars(v: &mut Vec<char>, extra: &Vec<char>)
    ensures
        final(v)@ == old(v)@ + extra@,
{
    let ghost start = v@;
    let mut i: usize = 0;
    while i < extra.len()
        invariant
            i <= extra@.len(),
            v@ == start + extra@.take(i as int),
        decreases extra.len() - i,
    {
        v.push(extra[i]);
        assert(extra@.take(i as int + 1) == extra@.take(i as int).push(extra@[i as int]));
        i = i + 1;
    }
    assert(extra@.take(extra@.len() as int) =~= extra@);
}

/// The abstract contents of a list of character vectors.
pub open spec fn views(ls: Seq<Vec<char>>) -> Seq<Seq<char>> {
    ls.map_values(|l: Vec<char>| l@)
}

/// The abstract contents of a list of strings.
pub open spec fn string_views(ls: Seq<String>) -> Seq<Seq<char>> {
    ls.map_values(|l: String| l@)
}

/// Elements of `list` separated by `sep`.
pub open spec fn seq_join(list: Seq<Seq<char>>, sep: Seq<char>) -> Seq<char>
    decreases list.len(),
{
    if list.len() == 0 {
        Seq::empty()
    } else if list.len() == 1 {
        list[0]
    } else {
        seq_join(list.drop_last(), sep) + sep + list.last()
    }
}

/// Joins character vectors with a separator.
pub fn join_chars(list: &Vec<Vec<char>>, sep: &str) -> (r: Vec<char>)
    ensures
        r@ == seq_join(views(list@), sep@),
{
    let mut r: Vec<char> = Vec::new();
    let mut i: usize = 0;
    while i < list.len()
        invariant
            i <= list@.len(),
            r@ == seq_join(views(list@).take(i as int), sep@),
        decreases list.len() - i,
    {
        let ghost prefix = views(list@).take(i as int + 1);
        assert(prefix.drop_last() =~= views(list@).take(i as int));
        assert(prefix.last() == list@[i as int]@);
        if i != 0 {
            push_str(&mut r, sep);
        } else {
            assert(prefix.len() == 1);
        }
        push_chars(&mut r, &list[i]);
        i = i + 1;
    }
    assert(views(list@).take(list@.len() as int) =~= views(list@));
    r
}

/// Whitespace-trimmed entries that are not blank, in order.
pub open spec fn trimmed_nonempty(values: Seq<Seq<char>>) -> Seq<Seq<char>>
    decreases values.len(),
{
    if values.len() == 0 {
        Seq::empty()
    } else {
        let prev = trimmed_nonempty(values.drop_last());
        let t = trim_ws(values.last());
        if t.len() > 0 {
            prev.push(t)
        } else {
            prev
        }
    }
}

/// Copies the trimmed part of a string.
pub fn trimmed_chars(s: &str) -> (r: Vec<char>)
    ensures
        r@ == trim_ws(s@),
{
    let chars = chars_of(s);
    let (a, b) = trim_ws_bounds(chars.as_slice());
    let mut out: Vec<char> = Vec::new();
    let mut i: usize = a;
    while i < b
        invariant
            a <= i <= b <= chars@.len(),
            out@ == chars@.subrange(a as int, i as int),
        decreases b - i,
    {
        out.push(chars[i]);
        i = i + 1;
    }
    out
}

/// Trims every string and keeps the non-blank results.
pub fn trim_nonempty_all(values: &Vec<String>) -> (r: Vec<Vec<char>>)
    ensures
        views(r@) == trimmed_nonempty(string_views(values@)),
{
    let mut r: Vec<Vec<char>> = Vec::new();
    let mut i: usize = 0;
    while i < values.len()
        invariant
            i <= values@.len(),
            views(r@) == trimmed_nonempty(string_views(values@).take(i as int)),
        decreases values.len() - i,
    {
        let t = trimmed_chars(values[i].as_str());
        let ghost prefix = string_views(values@).take(i as int + 1);
        assert(prefix.drop_last() =~= string_views(values@).take(i as int));
        assert(prefix.last() == values@[i as int]@);
        if t.len() > 0 {
            let ghost before = r@;
            r.push(t);
            assert(views(r@) =~= views(before).push(t@));
        }
        i = i + 1;
    }
    assert(string_views(values@).take(values@.len() as int) =~= string_views(values@));
    r
}


pub open spec fn digit_char(d: nat) -> char {
    ((48 + d) as u32) as char
}

/// Decimal digits of `n`, most significant first, without leading zeros.
pub open spec fn decimal_text(n: nat) -> Seq<char>
    decreases n,
{
    if n < 10 {
        seq![digit_char(n)]
    } else {
        decimal_text(n / 10).push(digit_char(n % 10))
    }
}

/// Appends the decimal representation of `n`.
pub fn push_decimal(v: &mut Vec<char>, n: u64)
    ensures
        final(v)@ == old(v)@ + decimal_text(n as nat),
    decreases n,
{
    if n >= 10 {
        push_decimal(v, n / 10);
    }
    let d: u8 = (n % 10) as u8;
    let c: char = (48u8 + d) as char;
    assert(c == digit_char((n % 10) as nat));
    v.push(c);
    assert(v@ =~= old(v)@ + decimal_text(n as nat));
}

/// Compares two strings character by character.
pub fn str_equal(a: &str, b: &str) -> (r: bool)
    ensures
        r == (a@ == b@),
{
    let x = chars_of(a);
    let y = chars_of(b);
    if x.len() != y.len() {
        return false;
    }
    let mut i: usize = 0;
    while i < x.len()
        invariant
            x.len() == y.len(),
            x@ == a@,
            y@ == b@,
            i <= x.len(),
            forall|j: int| 0 <= j < i ==> x@[j] == y@[j],
        decreases x.len() - i,
    {
        if x[i] != y[i] {
            assert(x@[i as int] != y@[i as int]);
            return false;
        }
        i = i + 1;
    }
    assert(x@ =~= y@);
    true
}

} // verus!
