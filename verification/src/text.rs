//! Text primitives over sequences of characters.
//!
//! A `str` or `String` is viewed as the sequence of its characters. The
//! functions here state what the usual string operations (trim, find, replace,
//! split, decimal rendering) mean on that view, and compute them.

use vstd::prelude::*;
use vstd::string::StringExecFns;

verus! {

// ── Characters ────────────────────────────────────────────────────────────

/// The characters with the Unicode `White_Space` property.
pub open spec fn is_white_space(c: char) -> bool {
    let n = c as u32;
    ||| 0x09 <= n <= 0x0d
    ||| n == 0x20
    ||| n == 0x85
    ||| n == 0xa0
    ||| n == 0x1680
    ||| 0x2000 <= n <= 0x200a
    ||| n == 0x2028
    ||| n == 0x2029
    ||| n == 0x202f
    ||| n == 0x205f
    ||| n == 0x3000
}

/// Whether `c` has the Unicode `White_Space` property.
pub fn white_space(c: char) -> (b: bool)
    ensures
        b == is_white_space(c),
{
    let n: u32 = c as u32;
    (0x09 <= n && n <= 0x0d) || n == 0x20 || n == 0x85 || n == 0xa0 || n == 0x1680 || (0x2000 <= n
        && n <= 0x200a) || n == 0x2028 || n == 0x2029 || n == 0x202f || n == 0x205f || n == 0x3000
}

pub open spec fn is_ascii_lower(c: char) -> bool {
    'a' <= c <= 'z'
}

pub open spec fn is_ascii_upper(c: char) -> bool {
    'A' <= c <= 'Z'
}

pub open spec fn is_ascii_digit(c: char) -> bool {
    '0' <= c <= '9'
}

pub open spec fn is_ascii_alnum(c: char) -> bool {
    is_ascii_lower(c) || is_ascii_upper(c) || is_ascii_digit(c)
}

/// `c` with an ASCII capital made small; every other character unchanged.
pub open spec fn ascii_lower(c: char) -> char {
    if is_ascii_upper(c) {
        ((c as u32) + 32) as char
    } else {
        c
    }
}

/// `c` with an ASCII small letter made capital; every other character unchanged.
pub open spec fn ascii_upper(c: char) -> char {
    if is_ascii_lower(c) {
        ((c as u32) - 32) as char
    } else {
        c
    }
}

pub fn to_ascii_lower(c: char) -> (r: char)
    ensures
        r == ascii_lower(c),
{
    if 'A' <= c && c <= 'Z' {
        ((c as u8) + 32) as char
    } else {
        c
    }
}

pub fn to_ascii_upper(c: char) -> (r: char)
    ensures
        r == ascii_upper(c),
{
    if 'a' <= c && c <= 'z' {
        ((c as u8) - 32) as char
    } else {
        c
    }
}

// ── Between strings and character vectors ─────────────────────────────────

/// `String::push` appends one character at the end.
pub assume_specification[ std::string::String::push ](s: &mut std::string::String, c: char)
    ensures
        final(s)@ == old(s)@.push(c),
;

/// The characters of `s`, in order.
pub fn chars_of(s: &str) -> (v: Vec<char>)
    ensures
        v@ == s@,
{
    let mut v: Vec<char> = Vec::new();
    for c in iter: s.chars()
        invariant
            v@ == iter.seq().take(iter.index()),
            iter.seq() == s@,
    {
        v.push(c);
    }
    v
}

/// The string that holds the characters `from..to` of `v`.
pub fn string_of(v: &Vec<char>, from: usize, to: usize) -> (s: String)
    requires
        from <= to <= v@.len(),
    ensures
        s@ == v@.subrange(from as int, to as int),
{
    let mut s: String = String::new();
    let mut i: usize = from;
    while i < to
        invariant
            from <= i <= to <= v@.len(),
            s@ == v@.subrange(from as int, i as int),
        decreases to - i,
    {
        s.push(v[i]);
        i += 1;
    }
    s
}

/// Whether two strings hold the same characters.
pub fn same(a: &str, b: &str) -> (r: bool)
    ensures
        r == (a@ == b@),
{
    let x: String = String::from_str(a);
    let y: String = String::from_str(b);
    x == y
}

/// `a` followed by `b`.
pub fn join2(a: &str, b: &str) -> (s: String)
    ensures
        s@ == a@ + b@,
{
    let mut s: String = String::from_str(a);
    s.append(b);
    s
}

/// `a`, `b` and `c` one after another.
pub fn join3(a: &str, b: &str, c: &str) -> (s: String)
    ensures
        s@ == a@ + b@ + c@,
{
    let mut s: String = String::from_str(a);
    s.append(b);
    s.append(c);
    s
}

// ── Trimming ──────────────────────────────────────────────────────────────

/// `s` without its leading white space.
pub open spec fn trim_start(s: Seq<char>) -> Seq<char>
    decreases s.len(),
{
    if s.len() > 0 && is_white_space(s[0]) {
        trim_start(s.drop_first())
    } else {
        s
    }
}

/// `s` without its trailing white space.
pub open spec fn trim_end(s: Seq<char>) -> Seq<char>
    decreases s.len(),
{
    if s.len() > 0 && is_white_space(s.last()) {
        trim_end(s.drop_last())
    } else {
        s
    }
}

/// `s` without leading and trailing white space.
pub open spec fn trimmed(s: Seq<char>) -> Seq<char> {
    trim_end(trim_start(s))
}

/// A text that holds nothing but white space.
pub open spec fn blank(s: Seq<char>) -> bool {
    forall|i: int| 0 <= i < s.len() ==> is_white_space(#[trigger] s[i])
}

/// Trimming leaves nothing exactly when the text is blank.
pub proof fn trimmed_empty_iff_blank(s: Seq<char>)
    ensures
        trimmed(s).len() == 0 <==> blank(s),
{
    trim_start_shape(s);
    let t = trim_start(s);
    if t.len() > 0 {
        trim_end_keeps_first(t);
        let k: int = s.len() - t.len();
        assert(s[k] == t[0]);
    }
}

/// Trimming the front drops a prefix of white space, and what stays starts
/// with something else.
pub proof fn trim_start_shape(s: Seq<char>)
    ensures
        trim_start(s).len() <= s.len(),
        trim_start(s) == s.skip(s.len() - trim_start(s).len()),
        forall|i: int| 0 <= i < s.len() - trim_start(s).len() ==> is_white_space(#[trigger] s[i]),
        trim_start(s).len() > 0 ==> !is_white_space(trim_start(s)[0]),
    decreases s.len(),
{
    if s.len() > 0 && is_white_space(s[0]) {
        let r = s.drop_first();
        trim_start_shape(r);
        assert forall|i: int| 0 <= i < s.len() - trim_start(s).len() implies is_white_space(
            #[trigger] s[i],
        ) by {
            if i > 0 {
                assert(s[i] == r[i - 1]);
            }
        }
        assert(trim_start(s) =~= s.skip(s.len() - trim_start(s).len()));
    } else {
        assert(trim_start(s) =~= s.skip(0));
    }
}

proof fn trim_end_keeps_first(s: Seq<char>)
    requires
        s.len() > 0,
        !is_white_space(s[0]),
    ensures
        trim_end(s).len() > 0,
    decreases s.len(),
{
    if is_white_space(s.last()) {
        assert(s.drop_last()[0] == s[0]);
        trim_end_keeps_first(s.drop_last());
    }
}

/// The bounds of the characters that stay when `v` is trimmed.
pub fn trim_bounds(v: &Vec<char>) -> (r: (usize, usize))
    ensures
        r.0 <= r.1 <= v@.len(),
        v@.subrange(r.0 as int, r.1 as int) == trimmed(v@),
{
    let mut a: usize = 0;
    let n: usize = v.len();
    assert(v@.skip(0) =~= v@);
    while a < n && white_space(v[a])
        invariant
            a <= n == v@.len(),
            trim_start(v@.skip(a as int)) == trim_start(v@),
        decreases n - a,
    {
        assert(v@.skip(a as int).drop_first() =~= v@.skip(a + 1));
        a += 1;
    }
    assert(trim_start(v@) == v@.skip(a as int));
    let mut b: usize = n;
    assert(v@.subrange(a as int, b as int) =~= v@.skip(a as int));
    while a < b && white_space(v[b - 1])
        invariant
            a <= b <= n == v@.len(),
            trim_end(v@.subrange(a as int, b as int)) == trimmed(v@),
        decreases b - a,
    {
        assert(v@.subrange(a as int, b as int).drop_last() =~= v@.subrange(a as int, b - 1));
        b -= 1;
    }
    (a, b)
}

/// `s` without leading and trailing white space.
pub fn trim(s: &str) -> (r: String)
    ensures
        r@ == trimmed(s@),
{
    let v: Vec<char> = chars_of(s);
    let (a, b) = trim_bounds(&v);
    string_of(&v, a, b)
}

/// Whether `s` holds nothing but white space.
pub fn is_blank(s: &str) -> (r: bool)
    ensures
        r == blank(s@),
{
    let v: Vec<char> = chars_of(s);
    let (a, b) = trim_bounds(&v);
    proof {
        trimmed_empty_iff_blank(s@);
    }
    a == b
}

/// `s` without its trailing copies of `c`.
pub open spec fn trim_end_char(s: Seq<char>, c: char) -> Seq<char>
    decreases s.len(),
{
    if s.len() > 0 && s.last() == c {
        trim_end_char(s.drop_last(), c)
    } else {
        s
    }
}

/// `s` without its trailing copies of `c`.
pub fn trim_end_of(s: &str, c: char) -> (r: String)
    ensures
        r@ == trim_end_char(s@, c),
{
    let v: Vec<char> = chars_of(s);
    let mut b: usize = v.len();
    assert(v@.subrange(0, b as int) =~= v@);
    while 0 < b && v[b - 1] == c
        invariant
            b <= v@.len(),
            trim_end_char(v@.subrange(0, b as int), c) == trim_end_char(s@, c),
        decreases b,
    {
        assert(v@.subrange(0, b as int).drop_last() =~= v@.subrange(0, b - 1));
        b -= 1;
    }
    string_of(&v, 0, b)
}

// ── Searching ─────────────────────────────────────────────────────────────

/// Whether `pat` stands in `s` at position `i`.
pub open spec fn stands_at(s: Seq<char>, pat: Seq<char>, i: int) -> bool {
    0 <= i && i + pat.len() <= s.len() && s.subrange(i, i + pat.len()) == pat
}

/// The first position from `i` on at which `pat` stands in `s`.
pub open spec fn find_from(s: Seq<char>, pat: Seq<char>, i: int) -> Option<int>
    decreases s.len() + 1 - i,
{
    if i < 0 || i + pat.len() > s.len() {
        None
    } else if stands_at(s, pat, i) {
        Some(i)
    } else {
        find_from(s, pat, i + 1)
    }
}

/// The first position at which `pat` stands in `s`.
pub open spec fn find(s: Seq<char>, pat: Seq<char>) -> Option<int> {
    find_from(s, pat, 0)
}

/// Whether `pat` stands anywhere in `s`.
pub open spec fn contains(s: Seq<char>, pat: Seq<char>) -> bool {
    exists|i: int| stands_at(s, pat, i)
}

/// `find_from` gives the least position from `i` on, and none only where there
/// is none.
pub proof fn find_from_is_first(s: Seq<char>, pat: Seq<char>, i: int)
    requires
        0 <= i,
    ensures
        match find_from(s, pat, i) {
            Some(k) => i <= k && stands_at(s, pat, k) && forall|j: int|
                i <= j < k ==> !stands_at(s, pat, j),
            None => forall|j: int| i <= j ==> !stands_at(s, pat, j),
        },
    decreases s.len() + 1 - i,
{
    if i + pat.len() <= s.len() && !stands_at(s, pat, i) {
        find_from_is_first(s, pat, i + 1);
    }
}

/// Whether `pat` stands in `v` at `i`.
pub fn match_at(v: &Vec<char>, pat: &Vec<char>, i: usize) -> (r: bool)
    requires
        i <= v@.len(),
    ensures
        r == stands_at(v@, pat@, i as int),
{
    if pat.len() > v.len() - i {
        return false;
    }
    let mut k: usize = 0;
    while k < pat.len()
        invariant
            k <= pat@.len(),
            i + pat.len() <= v.len(),
            forall|j: int| 0 <= j < k ==> v@[i + j] == pat@[j],
        decreases pat@.len() - k,
    {
        if v[i + k] != pat[k] {
            assert(v@.subrange(i as int, i + pat@.len())[k as int] != pat@[k as int]);
            return false;
        }
        k += 1;
    }
    assert(v@.subrange(i as int, i + pat@.len()) =~= pat@);
    true
}

/// The first position from `from` on at which `pat` stands in `v`.
pub fn find_in(v: &Vec<char>, pat: &Vec<char>, from: usize) -> (r: Option<usize>)
    requires
        from <= v@.len(),
    ensures
        match r {
            Some(k) => find_from(v@, pat@, from as int) == Some(k as int),
            None => find_from(v@, pat@, from as int) is None,
        },
        r matches Some(k) ==> from <= k && k + pat.len() <= v.len(),
{
    let mut i: usize = from;
    while i <= v.len() && pat.len() <= v.len() - i
        invariant
            from <= i,
            i <= v@.len() + 1,
            find_from(v@, pat@, i as int) == find_from(v@, pat@, from as int),
        decreases v@.len() + 1 - i,
    {
        if match_at(v, pat, i) {
            return Some(i);
        }
        if i == v.len() {
            assert(find_from(v@, pat@, i + 1) is None);
            return None;
        }
        i += 1;
    }
    None
}

/// Whether `s` starts with `p`.
pub open spec fn starts_with(s: Seq<char>, p: Seq<char>) -> bool {
    p.len() <= s.len() && s.take(p.len() as int) == p
}

/// What follows the prefix `p` in `s`, if `s` starts with it.
pub open spec fn after_prefix(s: Seq<char>, p: Seq<char>) -> Option<Seq<char>> {
    if starts_with(s, p) {
        Some(s.skip(p.len() as int))
    } else {
        None
    }
}

/// What follows the prefix `p` in `s`, if `s` starts with it.
pub fn strip_prefix(s: &str, p: &str) -> (r: Option<String>)
    ensures
        match r {
            Some(t) => after_prefix(s@, p@) == Some(t@),
            None => after_prefix(s@, p@) is None,
        },
{
    let v: Vec<char> = chars_of(s);
    let q: Vec<char> = chars_of(p);
    assert(p@.len() <= s@.len() ==> s@.take(p@.len() as int) =~= s@.subrange(0, p@.len() as int));
    if match_at(&v, &q, 0) {
        assert(s@.skip(p@.len() as int) =~= s@.subrange(p@.len() as int, s@.len() as int));
        Some(string_of(&v, q.len(), v.len()))
    } else {
        None
    }
}

// ── Replacing ─────────────────────────────────────────────────────────────

/// `s` with every non-overlapping `pat`, taken from the left, replaced by
/// `with`.
pub open spec fn replaced(s: Seq<char>, pat: Seq<char>, with: Seq<char>) -> Seq<char>
    decreases s.len(),
{
    if s.len() == 0 || pat.len() == 0 {
        s
    } else if starts_with(s, pat) {
        with + replaced(s.skip(pat.len() as int), pat, with)
    } else {
        seq![s[0]] + replaced(s.drop_first(), pat, with)
    }
}

/// `s` with every non-overlapping `pat`, taken from the left, replaced by
/// `with`.
pub fn replace(s: &str, pat: &str, with: &str) -> (r: String)
    requires
        pat@.len() > 0,
    ensures
        r@ == replaced(s@, pat@, with@),
{
    let v: Vec<char> = chars_of(s);
    let p: Vec<char> = chars_of(pat);
    let mut out: String = String::new();
    let mut i: usize = 0;
    assert(v@.skip(0) =~= v@);
    while i < v.len()
        invariant
            i <= v@.len(),
            p@ == pat@,
            p@.len() > 0,
            out@ + replaced(v@.skip(i as int), pat@, with@) == replaced(v@, pat@, with@),
        decreases v@.len() - i,
    {
        let ghost rest = v@.skip(i as int);
        let ghost before = out@;
        assert(i + p@.len() <= v@.len() ==> rest.take(p@.len() as int) =~= v@.subrange(
            i as int,
            i + p@.len(),
        ));
        if match_at(&v, &p, i) {
            out.append(with);
            assert(rest.skip(p@.len() as int) =~= v@.skip(i + p@.len()));
            assert(out@ + replaced(v@.skip(i + p@.len()), pat@, with@) =~= before + replaced(
                rest,
                pat@,
                with@,
            ));
            i += p.len();
        } else {
            out.push(v[i]);
            assert(rest.drop_first() =~= v@.skip(i + 1));
            assert(out@ + replaced(v@.skip(i + 1), pat@, with@) =~= before + replaced(
                rest,
                pat@,
                with@,
            ));
            i += 1;
        }
    }
    assert(out@ + replaced(v@.skip(i as int), pat@, with@) =~= out@);
    out
}

/// A text in which `pat` does not occur is left as it is.
pub proof fn replaced_without_match(s: Seq<char>, pat: Seq<char>, with: Seq<char>)
    requires
        !contains(s, pat),
    ensures
        replaced(s, pat, with) == s,
    decreases s.len(),
{
    if s.len() > 0 && pat.len() > 0 {
        if starts_with(s, pat) {
            assert(s.take(pat.len() as int) =~= s.subrange(0, pat.len() as int));
            assert(stands_at(s, pat, 0));
        }
        let r = s.drop_first();
        assert forall|i: int| !stands_at(r, pat, i) by {
            if stands_at(r, pat, i) {
                assert(r.subrange(i, i + pat.len()) =~= s.subrange(i + 1, i + 1 + pat.len()));
                assert(stands_at(s, pat, i + 1));
            }
        }
        replaced_without_match(r, pat, with);
        assert(seq![s[0]] + r =~= s);
    }
}

// ── Splitting ─────────────────────────────────────────────────────────────

/// The views of a sequence of strings.
pub open spec fn texts(v: Seq<String>) -> Seq<Seq<char>> {
    Seq::new(v.len(), |i: int| v[i]@)
}

/// The pieces of `s` between the occurrences of `c`.
pub open spec fn pieces(s: Seq<char>, c: char) -> Seq<Seq<char>>
    decreases s.len(),
{
    match find(s, seq![c]) {
        Some(i) => if 0 <= i < s.len() {
            seq![s.take(i)] + pieces(s.skip(i + 1), c)
        } else {
            seq![s]
        },
        None => seq![s],
    }
}

/// The pieces of `s` between the occurrences of `c`.
pub fn split(s: &str, c: char) -> (r: Vec<String>)
    ensures
        texts(r@) == pieces(s@, c),
        r@.len() > 0,
{
    let v: Vec<char> = chars_of(s);
    let mut pat: Vec<char> = Vec::new();
    pat.push(c);
    assert(pat@ =~= seq![c]);
    let mut out: Vec<String> = Vec::new();
    let mut from: usize = 0;
    assert(v@.skip(0) =~= v@);
    assert(texts(out@) + pieces(v@, c) =~= pieces(v@, c));
    loop
        invariant_except_break
            from <= v@.len(),
            pat@ == seq![c],
            v@ == s@,
            texts(out@) + pieces(v@.skip(from as int), c) == pieces(v@, c),
        ensures
            texts(out@) == pieces(s@, c),
            out@.len() > 0,
        decreases v@.len() - from,
    {
        let ghost rest = v@.skip(from as int);
        let ghost before = out@;
        proof {
            find_shift(v@, pat@, from as int, from as int);
        }
        match find_in(&v, &pat, from) {
            Some(k) => {
                assert(k < v.len());
                out.push(string_of(&v, from, k));
                proof {
                    assert(rest.take(k - from) =~= v@.subrange(from as int, k as int));
                    assert(rest.skip(k - from + 1) =~= v@.skip(k + 1));
                    assert(texts(out@) =~= texts(before).push(v@.subrange(from as int, k as int)));
                    assert(texts(out@) + pieces(v@.skip(k + 1), c) =~= texts(before) + pieces(
                        rest,
                        c,
                    ));
                }
                from = k + 1;
            },
            None => {
                let n: usize = v.len();
                out.push(string_of(&v, from, n));
                proof {
                    assert(rest =~= v@.subrange(from as int, n as int));
                    assert(texts(out@) =~= texts(before) + seq![rest]);
                }
                break;
            },
        }
    }
    out
}

/// Searching from a position is searching the rest of the text.
pub proof fn find_shift(s: Seq<char>, pat: Seq<char>, from: int, i: int)
    requires
        0 <= from <= s.len(),
        from <= i,
    ensures
        match find_from(s, pat, i) {
            Some(k) => find_from(s.skip(from), pat, i - from) == Some(k - from),
            None => find_from(s.skip(from), pat, i - from) is None,
        },
    decreases s.len() + 1 - i,
{
    if i + pat.len() <= s.len() {
        assert(s.subrange(i, i + pat.len()) =~= s.skip(from).subrange(
            i - from,
            i - from + pat.len(),
        ));
        if !stands_at(s, pat, i) {
            find_shift(s, pat, from, i + 1);
        }
    }
}

// ── Decimal numbers ───────────────────────────────────────────────────────

/// The digit `d` as a character.
pub open spec fn digit(d: nat) -> char {
    (48 + d) as char
}

/// The decimal digits of `n`, with no leading zero.
pub open spec fn decimal(n: nat) -> Seq<char>
    decreases n,
{
    if n < 10 {
        seq![digit(n)]
    } else {
        decimal(n / 10).push(digit(n % 10))
    }
}

/// The decimal text of an integer, with a leading `-` where it is negative.
pub open spec fn decimal_int(n: int) -> Seq<char> {
    if n < 0 {
        seq!['-'] + decimal((-n) as nat)
    } else {
        decimal(n as nat)
    }
}

/// The decimal digits of `n`.
pub fn decimal_text(n: u64) -> (s: String)
    ensures
        s@ == decimal(n as nat),
    decreases n,
{
    let d: u8 = (n % 10) as u8;
    let c: char = (48 + d) as char;
    if n < 10 {
        let mut s: String = String::new();
        s.push(c);
        assert(s@ =~= seq![digit(n as nat)]);
        s
    } else {
        let mut s: String = decimal_text(n / 10);
        s.push(c);
        s
    }
}

/// The decimal text of `n`.
pub fn decimal_int_text(n: i64) -> (s: String)
    ensures
        s@ == decimal_int(n as int),
{
    if n < 0 {
        let m: u64 = (-(n as i128)) as u64;
        let mut s: String = String::new();
        s.push('-');
        let d: String = decimal_text(m);
        s.append(d.as_str());
        assert(s@ =~= seq!['-'] + decimal(m as nat));
        s
    } else {
        decimal_text(n as u64)
    }
}

/// Numbers with the same digits are the same.
pub proof fn decimal_is_one_to_one(a: nat, b: nat)
    requires
        decimal(a) == decimal(b),
    ensures
        a == b,
    decreases a,
{
    if a >= 10 {
        decimal_is_long(a);
    }
    if b >= 10 {
        decimal_is_long(b);
    }
    assert(decimal(a).last() == digit(a % 10));
    assert(decimal(b).last() == digit(b % 10));
    if a >= 10 && b >= 10 {
        assert(decimal(a).drop_last() =~= decimal(a / 10));
        assert(decimal(b).drop_last() =~= decimal(b / 10));
        decimal_is_one_to_one(a / 10, b / 10);
    }
}

proof fn decimal_is_long(a: nat)
    requires
        a >= 10,
    ensures
        decimal(a).len() >= 2,
{
    assert(decimal(a / 10).len() >= 1);
}

proof fn decimal_starts_with_digit(a: nat)
    ensures
        decimal(a).len() >= 1,
        '0' <= decimal(a)[0] <= '9',
    decreases a,
{
    if a >= 10 {
        decimal_starts_with_digit(a / 10);
    }
}

/// Integers with the same decimal text are the same.
pub proof fn decimal_int_is_one_to_one(a: int, b: int)
    requires
        decimal_int(a) == decimal_int(b),
    ensures
        a == b,
{
    let x = (if a < 0 {
        -a
    } else {
        a
    }) as nat;
    let y = (if b < 0 {
        -b
    } else {
        b
    }) as nat;
    decimal_starts_with_digit(x);
    decimal_starts_with_digit(y);
    if a < 0 {
        assert(decimal_int(a)[0] == '-');
        assert(decimal_int(a).drop_first() =~= decimal(x));
    }
    if b < 0 {
        assert(decimal_int(b)[0] == '-');
        assert(decimal_int(b).drop_first() =~= decimal(y));
    }
    decimal_is_one_to_one(x, y);
}

/// The number that a run of digits stands for.
pub open spec fn digits_value(s: Seq<char>) -> nat
    decreases s.len(),
{
    if s.len() == 0 {
        0
    } else {
        digits_value(s.drop_last()) * 10 + ((s.last() as u32) - 48) as nat
    }
}

/// A text that holds ASCII digits only.
pub open spec fn all_digits(s: Seq<char>) -> bool {
    forall|i: int| 0 <= i < s.len() ==> is_ascii_digit(#[trigger] s[i])
}

/// The machine-size number that `s` stands for: one or more digits, after an
/// optional `+`, of a value that fits.
pub open spec fn index_value(s: Seq<char>) -> Option<nat> {
    let d = if s.len() > 0 && s[0] == '+' {
        s.drop_first()
    } else {
        s
    };
    if d.len() > 0 && all_digits(d) && digits_value(d) <= usize::MAX {
        Some(digits_value(d))
    } else {
        None
    }
}

proof fn digits_value_grows(s: Seq<char>, k: int)
    requires
        0 <= k <= s.len(),
        all_digits(s),
    ensures
        digits_value(s.take(k)) <= digits_value(s),
    decreases s.len() - k,
{
    if k < s.len() {
        digits_value_grows(s, k + 1);
        assert(s.take(k + 1).drop_last() =~= s.take(k));
        assert(is_ascii_digit(s[k]));
    } else {
        assert(s.take(k) =~= s);
    }
}

/// The machine-size number that `s` stands for.
pub fn parse_index(s: &str) -> (r: Option<usize>)
    ensures
        match r {
            Some(n) => index_value(s@) == Some(n as nat),
            None => index_value(s@) is None,
        },
{
    let v: Vec<char> = chars_of(s);
    let from: usize = if v.len() > 0 && v[0] == '+' {
        1
    } else {
        0
    };
    let ghost d = s@.skip(from as int);
    assert(from == 0 ==> d =~= s@);
    assert(from == 1 ==> d =~= s@.drop_first());
    if from == v.len() {
        return None;
    }
    let mut n: usize = 0;
    let mut i: usize = from;
    let mut fits: bool = true;
    while i < v.len()
        invariant
            from <= i <= v@.len(),
            v@ == s@,
            d == s@.skip(from as int),
            forall|j: int| 0 <= j < i - from ==> is_ascii_digit(#[trigger] d[j]),
            fits ==> n == digits_value(d.take(i - from)),
            !fits ==> digits_value(d.take(i - from)) > usize::MAX,
            index_value(s@) is Some ==> all_digits(d),
        decreases v@.len() - i,
    {
        let c: char = v[i];
        assert(d[i - from] == c);
        if !('0' <= c && c <= '9') {
            return None;
        }
        let k: usize = ((c as u8) - 48) as usize;
        proof {
            assert(d.take(i - from + 1).drop_last() =~= d.take(i - from));
        }
        if fits {
            match n.checked_mul(10) {
                Some(m) => match m.checked_add(k) {
                    Some(t) => {
                        n = t;
                    },
                    None => {
                        fits = false;
                    },
                },
                None => {
                    fits = false;
                },
            }
        }
        i += 1;
    }
    assert(d.take(i - from) =~= d);
    if fits {
        Some(n)
    } else {
        None
    }
}

} // verus!
