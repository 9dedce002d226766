//! Character-level string helpers with exact specifications.

use vstd::prelude::*;

verus! {

broadcast use vstd::string::group_string_axioms;

/// Appends one character to a `String` (`String::push`).
#[verifier::external_body]
pub(crate) fn push_char(s: &mut String, c: char)
    ensures
        final(s)@ == old(s)@.push(c),
{
    s.push(c);
}

/// The `String` of `bytes` when they form UTF-8 (`String::from_utf8`),
/// else `None`.
#[verifier::external_body]
pub(crate) fn string_from_utf8(bytes: Vec<u8>) -> (r: Option<String>)
    ensures
        r is Some <==> vstd::utf8::valid_utf8(bytes@),
        r matches Some(s) ==> s@ == vstd::utf8::decode_utf8(bytes@),
{
    String::from_utf8(bytes).ok()
}

/// The characters of `s`, in order.
pub fn chars_of(s: &str) -> (v: Vec<char>)
    ensures
        v@ == s@,
{
    let mut v: Vec<char> = Vec::new();
    for c in it: s.chars()
        invariant
            v@ == it.seq().take(it.index() as int),
    {
        v.push(c);
    }
    v
}


/// A `String` holding exactly the given characters.
pub fn string_from_chars(v: &[char]) -> (s: String)
    ensures
        s@ == v@,
{
    let mut s = String::new();
    let mut i: usize = 0;
    while i < v.len()
        invariant
            i <= v@.len(),
            s@ == v@.take(i as int),
        decreases v@.len() - i,
    {
        push_char(&mut s, v[i]);
        proof {
            assert(v@.take(i + 1) =~= v@.take(i as int).push(v@[i as int]));
        }
        i = i + 1;
    }
    proof {
        assert(v@.take(v@.len() as int) =~= v@);
    }
    s
}

/// An owned copy of `s`.
pub fn to_string(s: &str) -> (r: String)
    ensures
        r@ == s@,
{
    s.to_owned()
}

/// `p` is a prefix of `s`.
pub open spec fn has_prefix(s: Seq<char>, p: Seq<char>) -> bool {
    p.len() <= s.len() && s.take(p.len() as int) == p
}

/// Whether the characters of `a` and `b` are the same.
pub fn str_eq(a: &str, b: &str) -> (r: bool)
    ensures
        r == (a@ == b@),
{
    let av = chars_of(a);
    let bv = chars_of(b);
    chars_eq(&av, &bv)
}

/// Whether two character slices hold the same characters.
pub fn chars_eq(a: &[char], b: &[char]) -> (r: bool)
    ensures
        r == (a@ == b@),
{
    if a.len() != b.len() {
        return false;
    }
    let mut i: usize = 0;
    while i < a.len()
        invariant
            i <= a@.len(),
            a@.len() == b@.len(),
            forall|j: int| 0 <= j < i ==> a@[j] == b@[j],
        decreases a@.len() - i,
    {
        if a[i] != b[i] {
            return false;
        }
        i = i + 1;
    }
    proof {
        assert(a@ =~= b@);
    }
    true
}

/// Whether `p` is a prefix of `s`.
pub fn str_starts_with(s: &str, p: &str) -> (r: bool)
    ensures
        r == has_prefix(s@, p@),
{
    let sv = chars_of(s);
    let pv = chars_of(p);
    chars_start_with(&sv, &pv)
}

/// Whether `p` is a prefix of `s`.
pub fn chars_start_with(s: &[char], p: &[char]) -> (r: bool)
    ensures
        r == has_prefix(s@, p@),
{
    if p.len() > s.len() {
        return false;
    }
    let mut i: usize = 0;
    while i < p.len()
        invariant
            i <= p@.len() <= s@.len(),
            forall|j: int| 0 <= j < i ==> s@[j] == p@[j],
        decreases p@.len() - i,
    {
        if s[i] != p[i] {
            proof {
                assert(s@.take(p@.len() as int)[i as int] != p@[i as int]);
            }
            return false;
        }
        i = i + 1;
    }
    proof {
        assert(s@.take(p@.len() as int) =~= p@);
    }
    true
}

/// Unicode `White_Space`, the property that `char::is_whitespace` tests.
pub open spec fn is_ws(c: char) -> bool {
    ||| '\u{9}' <= c <= '\u{d}'
    ||| c == ' '
    ||| c == '\u{85}'
    ||| c == '\u{a0}'
    ||| c == '\u{1680}'
    ||| '\u{2000}' <= c <= '\u{200a}'
    ||| c == '\u{2028}'
    ||| c == '\u{2029}'
    ||| c == '\u{202f}'
    ||| c == '\u{205f}'
    ||| c == '\u{3000}'
}

/// Whether `c` is Unicode white space.
pub fn is_whitespace(c: char) -> (r: bool)
    ensures
        r == is_ws(c),
{
    ('\u{9}' <= c && c <= '\u{d}') || c == ' ' || c == '\u{85}' || c == '\u{a0}' || c
        == '\u{1680}' || ('\u{2000}' <= c && c <= '\u{200a}') || c == '\u{2028}' || c
        == '\u{2029}' || c == '\u{202f}' || c == '\u{205f}' || c == '\u{3000}'
}

/// Some character of `s` is white space.
pub open spec fn has_ws(s: Seq<char>) -> bool {
    exists|i: int| 0 <= i < s.len() && is_ws(#[trigger] s[i])
}

/// Whether some character of `s` is white space.
pub fn contains_whitespace(s: &[char]) -> (r: bool)
    ensures
        r == has_ws(s@),
{
    let mut i: usize = 0;
    while i < s.len()
        invariant
            i <= s@.len(),
            forall|j: int| 0 <= j < i ==> !is_ws(#[trigger] s@[j]),
        decreases s@.len() - i,
    {
        if is_whitespace(s[i]) {
            return true;
        }
        i = i + 1;
    }
    false
}

/// `i` is the position of the first `c` in `s`.
pub open spec fn is_first_index(s: Seq<char>, c: char, i: int) -> bool {
    &&& 0 <= i < s.len()
    &&& s[i] == c
    &&& forall|j: int| 0 <= j < i ==> s[j] != c
}

/// The position of the first `c` in `s`, or `s.len()` when `s` has none.
pub open spec fn first_index_of(s: Seq<char>, c: char) -> int {
    if exists|i: int| is_first_index(s, c, i) {
        choose|i: int| is_first_index(s, c, i)
    } else {
        s.len() as int
    }
}

/// The first position of `c` is unique.
pub proof fn lemma_first_index(s: Seq<char>, c: char, i: int)
    requires
        0 <= i <= s.len(),
        i < s.len() ==> s[i] == c,
        forall|j: int| 0 <= j < i ==> s[j] != c,
    ensures
        first_index_of(s, c) == i,
{
    if i < s.len() {
        assert(is_first_index(s, c, i));
        let k = choose|k: int| is_first_index(s, c, k);
        assert(is_first_index(s, c, k));
        if k < i {
            assert(s[k] != c);
        }
        if i < k {
            assert(s[i] != c);
        }
    } else {
        assert(!exists|k: int| is_first_index(s, c, k));
    }
}

/// The position of the first `c` in `s`, or `s.len()` when `s` has none.
pub fn find_char(s: &[char], c: char) -> (r: usize)
    ensures
        r == first_index_of(s@, c),
        r <= s@.len(),
        r < s@.len() ==> s@[r as int] == c,
        r == s@.len() ==> !s@.contains(c),
{
    let mut i: usize = 0;
    while i < s.len()
        invariant
            i <= s@.len(),
            forall|j: int| 0 <= j < i ==> s@[j] != c,
        decreases s@.len() - i,
    {
        if s[i] == c {
            proof {
                lemma_first_index(s@, c, i as int);
            }
            return i;
        }
        i = i + 1;
    }
    proof {
        lemma_first_index(s@, c, i as int);
    }
    i
}


/// Lexicographic order on characters by code point. UTF-8 keeps code point
/// order, so this is also the byte order that `Ord for str` uses.
pub open spec fn seq_lt(a: Seq<char>, b: Seq<char>) -> bool
    decreases a.len(),
{
    if a.len() == 0 {
        b.len() > 0
    } else if b.len() == 0 {
        false
    } else if a[0] != b[0] {
        a[0] < b[0]
    } else {
        seq_lt(a.drop_first(), b.drop_first())
    }
}

/// No sequence is below itself.
pub proof fn lemma_seq_lt_irreflexive(a: Seq<char>)
    ensures
        !seq_lt(a, a),
    decreases a.len(),
{
    if a.len() > 0 {
        lemma_seq_lt_irreflexive(a.drop_first());
    }
}

/// Of two different sequences one is below the other, and not both.
pub proof fn lemma_seq_lt_total(a: Seq<char>, b: Seq<char>)
    ensures
        a != b ==> seq_lt(a, b) || seq_lt(b, a),
        !(seq_lt(a, b) && seq_lt(b, a)),
    decreases a.len(),
{
    if a.len() > 0 && b.len() > 0 {
        if a[0] == b[0] {
            lemma_seq_lt_total(a.drop_first(), b.drop_first());
            if a != b {
                assert(a =~= seq![a[0]] + a.drop_first());
                assert(b =~= seq![b[0]] + b.drop_first());
            }
        } else {
        }
    } else if a.len() == 0 && b.len() == 0 {
        assert(a =~= b);
    }
}

/// The order is transitive.
pub proof fn lemma_seq_lt_transitive(a: Seq<char>, b: Seq<char>, c: Seq<char>)
    requires
        seq_lt(a, b),
        seq_lt(b, c),
    ensures
        seq_lt(a, c),
    decreases a.len(),
{
    if a.len() > 0 && b.len() > 0 && c.len() > 0 {
        if a[0] == b[0] && b[0] == c[0] {
            lemma_seq_lt_transitive(a.drop_first(), b.drop_first(), c.drop_first());
        }
    }
}

/// Whether `a` comes before `b` in code point order.
pub fn chars_lt(a: &[char], b: &[char]) -> (r: bool)
    ensures
        r == seq_lt(a@, b@),
{
    let mut i: usize = 0;
    proof {
        assert(a@.skip(0) =~= a@);
        assert(b@.skip(0) =~= b@);
    }
    while i < a.len() && i < b.len()
        invariant
            i <= a@.len(),
            i <= b@.len(),
            seq_lt(a@, b@) == seq_lt(a@.skip(i as int), b@.skip(i as int)),
        decreases a@.len() - i,
    {
        if a[i] != b[i] {
            return a[i] < b[i];
        }
        proof {
            assert(a@.skip(i as int).drop_first() =~= a@.skip(i + 1));
            assert(b@.skip(i as int).drop_first() =~= b@.skip(i + 1));
        }
        i = i + 1;
    }
    i < b.len()
}


/// `s` cut at every `c` (`str::split` with a character pattern).
pub open spec fn split_on(s: Seq<char>, c: char) -> Seq<Seq<char>>
    decreases s.len(),
{
    let i = first_index_of(s, c);
    if i >= s.len() {
        seq![s]
    } else {
        seq![s.take(i)] + split_on(s.skip(i + 1), c)
    }
}

proof fn lemma_first_index_bounds(s: Seq<char>, c: char)
    ensures
        0 <= first_index_of(s, c) <= s.len(),
{
    if exists|i: int| is_first_index(s, c, i) {
        let i = choose|i: int| is_first_index(s, c, i);
        assert(is_first_index(s, c, i));
    }
}

/// The pieces of `s` between the occurrences of `c`, in order.
pub fn split_char(s: &str, c: char) -> (r: Vec<String>)
    ensures
        r@.map_values(|p: String| p@) == split_on(s@, c),
{
    let cs = chars_of(s);
    let mut out: Vec<String> = Vec::new();
    let mut start: usize = 0;
    let ghost whole = s@;
    proof {
        assert(whole.skip(0) =~= whole);
        assert(out@.map_values(|p: String| p@) =~= Seq::<Seq<char>>::empty());
    }
    loop
        invariant
            start <= cs@.len(),
            cs@ == whole,
            whole == s@,
            out@.map_values(|p: String| p@) + split_on(whole.skip(start as int), c) == split_on(
                whole,
                c,
            ),
        decreases cs@.len() - start,
    {
        let rest = s.substring_char(start, cs.len());
        let rc = chars_of(rest);
        let i = find_char(&rc, c);
        let ghost r = whole.skip(start as int);
        assert(rest@ == r);
        proof {
            lemma_first_index_bounds(r, c);
        }
        if i == rc.len() {
            let ghost before = out@.map_values(|p: String| p@);
            out.push(to_string(rest));
            proof {
                assert(split_on(r, c) == seq![r]);
                assert(out@.map_values(|p: String| p@) =~= before + seq![r]);
            }
            return out;
        }
        let piece = rest.substring_char(0, i);
        let ghost before = out@.map_values(|p: String| p@);
        out.push(to_string(piece));
        proof {
            assert(split_on(r, c) == seq![r.take(i as int)] + split_on(r.skip(i + 1), c));
            assert(r.skip(i + 1) =~= whole.skip(start + i + 1));
            assert(out@.map_values(|p: String| p@) =~= before + seq![r.take(i as int)]);
            assert(before + seq![r.take(i as int)] + split_on(whole.skip(start + i + 1), c) =~= before
                + split_on(r, c));
        }
        start = start + i + 1;
    }
}

/// The number of leading white-space characters of `s`.
pub open spec fn leading_ws(s: Seq<char>) -> nat
    decreases s.len(),
{
    if s.len() > 0 && is_ws(s[0]) {
        1 + leading_ws(s.skip(1))
    } else {
        0
    }
}

/// The number of trailing white-space characters of `s`.
pub open spec fn trailing_ws(s: Seq<char>) -> nat
    decreases s.len(),
{
    if s.len() > 0 && is_ws(s.last()) {
        1 + trailing_ws(s.drop_last())
    } else {
        0
    }
}

/// `s` without leading and trailing white space (`str::trim`).
pub open spec fn trim_ws(s: Seq<char>) -> Seq<char> {
    let t = s.skip(leading_ws(s) as int);
    t.take(t.len() - trailing_ws(t))
}

proof fn lemma_leading_ws(s: Seq<char>, i: int)
    requires
        0 <= i <= s.len(),
        forall|j: int| 0 <= j < i ==> is_ws(s[j]),
        i < s.len() ==> !is_ws(s[i]),
    ensures
        leading_ws(s) == i,
    decreases i,
{
    if i > 0 {
        lemma_leading_ws(s.skip(1), i - 1);
    }
}

proof fn lemma_trailing_ws(s: Seq<char>, k: int)
    requires
        0 <= k <= s.len(),
        forall|j: int| s.len() - k <= j < s.len() ==> is_ws(s[j]),
        k < s.len() ==> !is_ws(s[s.len() - k - 1]),
    ensures
        trailing_ws(s) == k,
    decreases k,
{
    if k > 0 {
        lemma_trailing_ws(s.drop_last(), k - 1);
    }
}

/// `s` without leading and trailing white space.
pub fn trim(s: &str) -> (r: &str)
    ensures
        r@ == trim_ws(s@),
{
    let cs = chars_of(s);
    let n = cs.len();
    let mut i: usize = 0;
    while i < n && is_whitespace(cs[i])
        invariant
            i <= n,
            n == cs@.len(),
            forall|j: int| 0 <= j < i ==> is_ws(cs@[j]),
        decreases n - i,
    {
        i = i + 1;
    }
    proof {
        lemma_leading_ws(cs@, i as int);
    }
    let mut e: usize = n;
    while e > i && is_whitespace(cs[e - 1])
        invariant
            i <= e <= n,
            n == cs@.len(),
            forall|j: int| e <= j < n ==> is_ws(cs@[j]),
        decreases e,
    {
        e = e - 1;
    }
    let ghost t = cs@.skip(i as int);
    proof {
        assert forall|j: int| t.len() - (n - e) <= j < t.len() implies is_ws(t[j]) by {
            assert(t[j] == cs@[i + j]);
        }
        if n - e < t.len() {
            assert(t[t.len() - (n - e) - 1] == cs@[e - 1]);
        }
        lemma_trailing_ws(t, (n - e) as int);
    }
    let r = s.substring_char(i, e);
    assert(r@ =~= t.take(t.len() - (n - e)));
    r
}

/// The value of the decimal digits `d` (all of them digits).
pub open spec fn digits_value(d: Seq<char>) -> int
    decreases d.len(),
{
    if d.len() == 0 {
        0
    } else {
        digits_value(d.drop_last()) * 10 + (d.last() as int - '0' as int)
    }
}

/// Every character of `d` is an ASCII digit.
pub open spec fn all_digits(d: Seq<char>) -> bool {
    forall|i: int| 0 <= i < d.len() ==> '0' <= #[trigger] d[i] <= '9'
}

/// What `str::parse::<u16>` gives: an optional `+`, then at least one
/// decimal digit and nothing else, with a value that fits.
pub open spec fn parse_u16_spec(s: Seq<char>) -> Option<u16> {
    let d = if s.len() > 0 && s[0] == '+' { s.skip(1) } else { s };
    if d.len() > 0 && all_digits(d) && digits_value(d) <= 65535 {
        Some(digits_value(d) as u16)
    } else {
        None
    }
}

proof fn lemma_digits_value_nonneg(d: Seq<char>)
    requires
        all_digits(d),
    ensures
        digits_value(d) >= 0,
    decreases d.len(),
{
    if d.len() > 0 {
        assert(all_digits(d.drop_last())) by {
            assert forall|i: int| 0 <= i < d.drop_last().len() implies '0' <= #[trigger] d.drop_last()[i]
                <= '9' by {
                assert(d.drop_last()[i] == d[i]);
            }
        }
        lemma_digits_value_nonneg(d.drop_last());
        assert('0' <= d[d.len() - 1] <= '9');
    }
}

/// Parses a decimal `u16` as `str::parse` does.
pub fn parse_u16(s: &str) -> (r: Option<u16>)
    ensures
        r == parse_u16_spec(s@),
{
    let cs = chars_of(s);
    let start: usize = if cs.len() > 0 && cs[0] == '+' { 1 } else { 0 };
    let ghost d = if s@.len() > 0 && s@[0] == '+' { s@.skip(1) } else { s@ };
    assert(d =~= cs@.skip(start as int));
    if start == cs.len() {
        return None;
    }
    let mut v: u32 = 0;
    let mut i: usize = start;
    proof {
        assert(cs@.skip(start as int).take(0) =~= Seq::<char>::empty());
    }
    while i < cs.len()
        invariant
            start <= i <= cs@.len(),
            d == cs@.skip(start as int),
            d == (if s@.len() > 0 && s@[0] == '+' { s@.skip(1) } else { s@ }),
            all_digits(d.take(i - start)),
            v == digits_value(d.take(i - start)),
            v <= 65535,
        decreases cs@.len() - i,
    {
        let c = cs[i];
        let ghost pre = d.take(i - start);
        proof {
            assert(d.take(i - start + 1).drop_last() =~= pre);
            assert(d.take(i - start + 1).last() == c);
        }
        if c < '0' || c > '9' {
            proof {
                assert(d[i - start] == c);
                assert(!('0' <= d[i - start] <= '9'));
                assert(!all_digits(d));
                assert(parse_u16_spec(s@) is None);
            }
            return None;
        }
        let digit = (c as u32) - ('0' as u32);
        let nv = v * 10 + digit;
        if nv > 65535 {
            proof {
                assert(all_digits(d.take(i - start + 1))) by {
                    assert forall|k: int| 0 <= k < i - start + 1 implies '0' <= #[trigger] d.take(
                        i - start + 1,
                    )[k] <= '9' by {
                        if k < i - start {
                            assert(d.take(i - start + 1)[k] == pre[k]);
                        }
                    }
                }
                lemma_digits_prefix_grows(d, i - start + 1);
                assert(digits_value(d.take(i - start + 1)) == v * 10 + digit);
                assert(parse_u16_spec(s@) is None);
            }
            return None;
        }
        v = nv;
        proof {
            assert(all_digits(d.take(i - start + 1))) by {
                assert forall|k: int| 0 <= k < i - start + 1 implies '0' <= #[trigger] d.take(
                    i - start + 1,
                )[k] <= '9' by {
                    if k < i - start {
                        assert(d.take(i - start + 1)[k] == pre[k]);
                    }
                }
            }
        }
        i = i + 1;
    }
    proof {
        assert(d.take(d.len() as int) =~= d);
    }
    Some(v as u16)
}

/// Adding digits never lowers the value: a prefix above a bound keeps the
/// whole above it.
proof fn lemma_digits_prefix_grows(d: Seq<char>, k: int)
    requires
        0 <= k <= d.len(),
        all_digits(d.take(k)),
    ensures
        all_digits(d) ==> digits_value(d) >= digits_value(d.take(k)),
    decreases d.len() - k,
{
    if k < d.len() && all_digits(d) {
        let t1 = d.take(k + 1);
        assert(all_digits(t1)) by {
            assert forall|i: int| 0 <= i < t1.len() implies '0' <= #[trigger] t1[i] <= '9' by {
                assert(t1[i] == d[i]);
            }
        }
        lemma_digits_prefix_grows(d, k + 1);
        assert(t1.drop_last() =~= d.take(k));
        lemma_digits_value_nonneg(d.take(k));
        assert('0' <= d[k] <= '9');
    }
    if k == d.len() {
        assert(d.take(k) =~= d);
    }
}


/// The decimal digits of `n`.
pub open spec fn digits_of(n: nat) -> Seq<char>
    decreases n,
{
    if n < 10 {
        seq![('0' as u8 + n) as char]
    } else {
        digits_of(n / 10) + seq![('0' as u8 + (n % 10)) as char]
    }
}

/// The decimal text of `n`, with a `-` when negative (`i64::to_string`).
pub open spec fn decimal_of(n: int) -> Seq<char> {
    if n < 0 {
        seq!['-'] + digits_of((-n) as nat)
    } else {
        digits_of(n as nat)
    }
}

/// Appends the decimal digits of `n`.
pub(crate) fn push_digits(s: &mut String, n: u64)
    ensures
        final(s)@ == old(s)@ + digits_of(n as nat),
    decreases n,
{
    if n >= 10 {
        push_digits(s, n / 10);
    }
    let d: u8 = (n % 10) as u8;
    push_char(s, (48u8 + d) as char);
    proof {
        assert(('0' as u8 + (n % 10)) as char == (48u8 + d) as char);
    }
}

/// The decimal text of `n`.
pub fn format_i64(n: i64) -> (r: String)
    ensures
        r@ == decimal_of(n as int),
{
    let mut s = String::new();
    if n < 0 {
        push_char(&mut s, '-');
        let m: u64 = (0i128 - (n as i128)) as u64;
        push_digits(&mut s, m);
    } else {
        push_digits(&mut s, n as u64);
    }
    s
}

/// An optional string's view.
pub open spec fn opt_view(o: Option<String>) -> Option<Seq<char>> {
    match o {
        Some(s) => Some(s@),
        None => None,
    }
}

/// `o`, or `d` when absent.
pub open spec fn or_else(o: Option<Seq<char>>, d: Seq<char>) -> Seq<char> {
    match o {
        Some(s) => s,
        None => d,
    }
}

/// What `char::escape_debug` writes for `c`.
pub uninterp spec fn char_debug_escape(c: char) -> Seq<char>;

/// `char::escape_debug`, collected into a `String`; tied to
/// `char_debug_escape`, nothing more is claimed.
#[verifier::external_body]
fn escape_debug_char(c: char) -> (r: String)
    ensures
        r@ == char_debug_escape(c),
{
    c.escape_debug().to_string()
}

/// The lowercase hexadecimal digit of `n` (below 16).
pub open spec fn hex_digit(n: u32) -> char {
    if n < 10 {
        ((48 + n) as u8) as char
    } else {
        ((87 + n) as u8) as char
    }
}

/// How `{:?}` writes one character inside a string: the backslash escapes
/// of NUL, tab, carriage return, line feed, backslash and the double
/// quote; `\u{..}` in lowercase hex for the other ASCII control
/// characters; printable ASCII as it is; any other character as
/// `char::escape_debug` writes it.
pub open spec fn debug_escaped(c: char) -> Seq<char> {
    if c == '\0' {
        seq!['\\', '0']
    } else if c == '\t' {
        seq!['\\', 't']
    } else if c == '\r' {
        seq!['\\', 'r']
    } else if c == '\n' {
        seq!['\\', 'n']
    } else if c == '\\' {
        seq!['\\', '\\']
    } else if c == '"' {
        seq!['\\', '"']
    } else if (c as u32) < 16 {
        seq!['\\', 'u', '{', hex_digit(c as u32), '}']
    } else if (c as u32) < 32 || (c as u32) == 127 {
        seq!['\\', 'u', '{', hex_digit((c as u32) / 16), hex_digit((c as u32) % 16), '}']
    } else if (c as u32) < 128 {
        seq![c]
    } else {
        char_debug_escape(c)
    }
}

/// The escaped characters of `s`, in order.
pub open spec fn debug_body(s: Seq<char>) -> Seq<char>
    decreases s.len(),
{
    if s.len() == 0 {
        Seq::empty()
    } else {
        debug_body(s.drop_last()) + debug_escaped(s.last())
    }
}

/// `s` as `{:?}` writes a string: quoted, each character escaped.
pub open spec fn debug_quoted(s: Seq<char>) -> Seq<char> {
    seq!['"'] + debug_body(s) + seq!['"']
}

fn push_hex_digit(out: &mut String, n: u32)
    requires
        n < 16,
    ensures
        final(out)@ == old(out)@.push(hex_digit(n)),
{
    let d: u8 = n as u8;
    if d < 10 {
        push_char(out, (48u8 + d) as char);
    } else {
        push_char(out, (87u8 + d) as char);
    }
}

fn push_debug_escaped(out: &mut String, c: char)
    ensures
        final(out)@ == old(out)@ + debug_escaped(c),
{
    let ghost start = out@;
    let code: u32 = c as u32;
    if c == '\0' {
        push_char(out, '\\');
        push_char(out, '0');
    } else if c == '\t' {
        push_char(out, '\\');
        push_char(out, 't');
    } else if c == '\r' {
        push_char(out, '\\');
        push_char(out, 'r');
    } else if c == '\n' {
        push_char(out, '\\');
        push_char(out, 'n');
    } else if c == '\\' {
        push_char(out, '\\');
        push_char(out, '\\');
    } else if c == '"' {
        push_char(out, '\\');
        push_char(out, '"');
    } else if code < 16 {
        push_char(out, '\\');
        push_char(out, 'u');
        push_char(out, '{');
        push_hex_digit(out, code);
        push_char(out, '}');
    } else if code < 32 || code == 127 {
        push_char(out, '\\');
        push_char(out, 'u');
        push_char(out, '{');
        push_hex_digit(out, code / 16);
        push_hex_digit(out, code % 16);
        push_char(out, '}');
    } else if code < 128 {
        push_char(out, c);
    } else {
        let e = escape_debug_char(c);
        out.append(e.as_str());
    }
    assert(out@ =~= start + debug_escaped(c));
}

/// `s` as `{:?}` writes a string.
pub fn debug_str(s: &str) -> (r: String)
    ensures
        r@ == debug_quoted(s@),
{
    let cs = chars_of(s);
    let mut out = String::new();
    push_char(&mut out, '"');
    let mut i: usize = 0;
    while i < cs.len()
        invariant
            i <= cs@.len(),
            cs@ == s@,
            out@ == seq!['"'] + debug_body(s@.take(i as int)),
        decreases cs@.len() - i,
    {
        proof {
            assert(s@.take(i + 1).drop_last() =~= s@.take(i as int));
            assert(s@.take(i + 1).last() == cs@[i as int]);
        }
        push_debug_escaped(&mut out, cs[i]);
        proof {
            assert(out@ =~= seq!['"'] + debug_body(s@.take(i + 1)));
        }
        i = i + 1;
    }
    proof {
        assert(s@.take(cs@.len() as int) =~= s@);
    }
    push_char(&mut out, '"');
    assert(out@ =~= debug_quoted(s@));
    out
}

} // verus!
