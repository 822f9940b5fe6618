//! Laws of the text primitives.

use crate::text::{
    after_prefix, all_digits, ascii_lower, ascii_upper, blank, contains, decimal, decimal_int,
    digits_value, find, find_from_is_first, find_shift, index_value, is_ascii_alnum,
    is_ascii_digit, is_ascii_lower, is_ascii_upper, is_white_space, pieces, replaced,
    replaced_without_match, stands_at, starts_with, texts, trim_end, trim_end_char, trim_start,
    trim_start_shape, trimmed, trimmed_empty_iff_blank,
};
use vstd::prelude::*;

verus! {

// ── Characters ────────────────────────────────────────────────────────────

/// The white-space characters, all of them.
pub proof fn white_space_is_this(c: char)
    ensures
        is_white_space(c) <==> "\t\n\u{b}\u{c}\r \u{85}\u{a0}\u{1680}\u{2000}\u{2001}\u{2002}\u{2003}\u{2004}\u{2005}\u{2006}\u{2007}\u{2008}\u{2009}\u{200a}\u{2028}\u{2029}\u{202f}\u{205f}\u{3000}"@.contains(
            c,
        ),
{
    reveal_strlit(
        "\t\n\u{b}\u{c}\r \u{85}\u{a0}\u{1680}\u{2000}\u{2001}\u{2002}\u{2003}\u{2004}\u{2005}\u{2006}\u{2007}\u{2008}\u{2009}\u{200a}\u{2028}\u{2029}\u{202f}\u{205f}\u{3000}",
    );
    let w =
        "\t\n\u{b}\u{c}\r \u{85}\u{a0}\u{1680}\u{2000}\u{2001}\u{2002}\u{2003}\u{2004}\u{2005}\u{2006}\u{2007}\u{2008}\u{2009}\u{200a}\u{2028}\u{2029}\u{202f}\u{205f}\u{3000}"@;
    assert(w.len() == 25);
    assert(w[0] as u32 == 0x09 && w[1] as u32 == 0x0a && w[2] as u32 == 0x0b && w[3] as u32 == 0x0c);
    assert(w[4] as u32 == 0x0d && w[5] as u32 == 0x20 && w[6] as u32 == 0x85 && w[7] as u32 == 0xa0);
    assert(w[8] as u32 == 0x1680 && w[9] as u32 == 0x2000 && w[10] as u32 == 0x2001);
    assert(w[11] as u32 == 0x2002 && w[12] as u32 == 0x2003 && w[13] as u32 == 0x2004);
    assert(w[14] as u32 == 0x2005 && w[15] as u32 == 0x2006 && w[16] as u32 == 0x2007);
    assert(w[17] as u32 == 0x2008 && w[18] as u32 == 0x2009 && w[19] as u32 == 0x200a);
    assert(w[20] as u32 == 0x2028 && w[21] as u32 == 0x2029 && w[22] as u32 == 0x202f);
    assert(w[23] as u32 == 0x205f && w[24] as u32 == 0x3000);
    if is_white_space(c) {
        let n = c as u32;
        let i = if n <= 0x0d {
            n - 0x09
        } else if n == 0x20 {
            5
        } else if n == 0x85 {
            6
        } else if n == 0xa0 {
            7
        } else if n == 0x1680 {
            8
        } else if n <= 0x200a {
            9 + n - 0x2000
        } else if n == 0x2028 {
            20
        } else if n == 0x2029 {
            21
        } else if n == 0x202f {
            22
        } else if n == 0x205f {
            23
        } else {
            24
        };
        assert(w[i] == c);
    }
}

/// The ASCII letters change case one for one, and nothing else changes; letters and
/// digits are these.
pub proof fn ascii_letters_change_case(c: char, i: int)
    ensures
        0 <= i < 26 ==> {
            &&& ascii_lower("ABCDEFGHIJKLMNOPQRSTUVWXYZ"@[i]) == "abcdefghijklmnopqrstuvwxyz"@[i]
            &&& ascii_upper("abcdefghijklmnopqrstuvwxyz"@[i]) == "ABCDEFGHIJKLMNOPQRSTUVWXYZ"@[i]
            &&& is_ascii_alnum("ABCDEFGHIJKLMNOPQRSTUVWXYZ"@[i])
            &&& is_ascii_alnum("abcdefghijklmnopqrstuvwxyz"@[i])
        },
        0 <= i < 10 ==> is_ascii_alnum("0123456789"@[i]) && is_ascii_digit("0123456789"@[i]),
        !"ABCDEFGHIJKLMNOPQRSTUVWXYZ"@.contains(c) ==> ascii_lower(c) == c,
        !"abcdefghijklmnopqrstuvwxyz"@.contains(c) ==> ascii_upper(c) == c,
        is_ascii_digit(c) ==> "0123456789"@.contains(c),
        is_ascii_alnum(c) ==> "0123456789"@.contains(c) || "ABCDEFGHIJKLMNOPQRSTUVWXYZ"@.contains(c)
            || "abcdefghijklmnopqrstuvwxyz"@.contains(c),
{
    reveal_strlit("ABCDEFGHIJKLMNOPQRSTUVWXYZ");
    reveal_strlit("abcdefghijklmnopqrstuvwxyz");
    reveal_strlit("0123456789");
    let up = "ABCDEFGHIJKLMNOPQRSTUVWXYZ"@;
    let low = "abcdefghijklmnopqrstuvwxyz"@;
    let dig = "0123456789"@;
    if is_ascii_upper(c) {
        assert(up[(c as u32) - 65] == c);
    }
    if is_ascii_lower(c) {
        assert(low[(c as u32) - 97] == c);
    }
    if is_ascii_digit(c) {
        assert(dig[(c as u32) - 48] == c);
    }
}

// ── Trimming ──────────────────────────────────────────────────────────────

proof fn trim_end_shape(s: Seq<char>)
    ensures
        trim_end(s).len() <= s.len(),
        trim_end(s) == s.take(trim_end(s).len() as int),
        forall|i: int| trim_end(s).len() <= i < s.len() ==> is_white_space(#[trigger] s[i]),
        trim_end(s).len() > 0 ==> !is_white_space(trim_end(s).last()),
    decreases s.len(),
{
    if s.len() > 0 && is_white_space(s.last()) {
        let r = s.drop_last();
        trim_end_shape(r);
        assert forall|i: int| trim_end(s).len() <= i < s.len() implies is_white_space(
            #[trigger] s[i],
        ) by {
            if i < r.len() {
                assert(s[i] == r[i]);
            }
        }
        assert(trim_end(s) =~= s.take(trim_end(s).len() as int));
    } else {
        assert(trim_end(s) =~= s.take(s.len() as int));
    }
}

/// Trimming cuts white space off both ends, all of it and nothing else; it leaves
/// nothing exactly of a blank text, which is white space throughout.
pub proof fn trimming_cuts_white_space(s: Seq<char>)
    ensures
        exists|a: int, b: int|
            #![trigger s.subrange(a, b)]
            {
                &&& 0 <= a <= b <= s.len()
                &&& trimmed(s) == s.subrange(a, b)
                &&& forall|i: int| 0 <= i < a ==> is_white_space(#[trigger] s[i])
                &&& forall|i: int| b <= i < s.len() ==> is_white_space(#[trigger] s[i])
            },
        trimmed(s).len() > 0 ==> !is_white_space(trimmed(s)[0]) && !is_white_space(
            trimmed(s).last(),
        ),
        trimmed(s).len() == 0 <==> blank(s),
        blank(s) <==> forall|i: int| 0 <= i < s.len() ==> is_white_space(#[trigger] s[i]),
{
    trim_start_shape(s);
    let t = trim_start(s);
    trim_end_shape(t);
    trimmed_empty_iff_blank(s);
    let a = s.len() - t.len();
    let b = a + trimmed(s).len();
    assert(trimmed(s) =~= s.subrange(a, b));
    assert forall|i: int| b <= i < s.len() implies is_white_space(#[trigger] s[i]) by {
        assert(s[i] == t[i - a]);
    }
    if trimmed(s).len() > 0 {
        assert(trimmed(s)[0] == t[0]);
    }
}

/// Only the character asked for is cut off the end, and all of it.
pub proof fn only_that_character_is_cut(s: Seq<char>, c: char)
    ensures
        trim_end_char(s, c).len() <= s.len(),
        trim_end_char(s, c) == s.take(trim_end_char(s, c).len() as int),
        forall|i: int| trim_end_char(s, c).len() <= i < s.len() ==> #[trigger] s[i] == c,
        trim_end_char(s, c).len() > 0 ==> trim_end_char(s, c).last() != c,
    decreases s.len(),
{
    if s.len() > 0 && s.last() == c {
        let r = s.drop_last();
        only_that_character_is_cut(r, c);
        assert forall|i: int| trim_end_char(s, c).len() <= i < s.len() implies #[trigger] s[i]
            == c by {
            if i < r.len() {
                assert(s[i] == r[i]);
            }
        }
        assert(trim_end_char(s, c) =~= s.take(trim_end_char(s, c).len() as int));
    } else {
        assert(trim_end_char(s, c) =~= s.take(s.len() as int));
    }
}

// ── Searching and replacing ───────────────────────────────────────────────

/// What is found is there, and there is none before it; what is not found is
/// nowhere.
pub proof fn search_finds_the_first(s: Seq<char>, pat: Seq<char>)
    ensures
        match find(s, pat) {
            Some(k) => {
                &&& 0 <= k
                &&& k + pat.len() <= s.len()
                &&& s.subrange(k, k + pat.len()) == pat
                &&& forall|j: int|
                    #![trigger s.subrange(j, j + pat.len())]
                    0 <= j < k ==> s.subrange(j, j + pat.len()) != pat
            },
            None => forall|j: int|
                #![trigger s.subrange(j, j + pat.len())]
                0 <= j && j + pat.len() <= s.len() ==> s.subrange(j, j + pat.len()) != pat,
        },
        contains(s, pat) <==> find(s, pat) is Some,
        forall|i: int|
            #![trigger stands_at(s, pat, i)]
            stands_at(s, pat, i) <==> 0 <= i && i + pat.len() <= s.len() && s.subrange(
                i,
                i + pat.len(),
            ) == pat,
{
    find_from_is_first(s, pat, 0);
    match find(s, pat) {
        Some(k) => {
            assert forall|j: int|
                #![trigger s.subrange(j, j + pat.len())]
                0 <= j < k implies s.subrange(j, j + pat.len()) != pat by {
                assert(!stands_at(s, pat, j));
            }
        },
        None => {
            assert forall|j: int|
                #![trigger s.subrange(j, j + pat.len())]
                0 <= j && j + pat.len() <= s.len() implies s.subrange(j, j + pat.len()) != pat by {
                assert(!stands_at(s, pat, j));
            }
        },
    }
}

/// The first match is replaced, what stands before it stays, and what stands behind
/// it goes the same way; without a match the text stays.
pub proof fn matches_are_replaced_in_turn(s: Seq<char>, pat: Seq<char>, with: Seq<char>)
    requires
        pat.len() > 0,
    ensures
        match find(s, pat) {
            Some(k) => replaced(s, pat, with) == s.take(k) + with + replaced(
                s.skip(k + pat.len()),
                pat,
                with,
            ),
            None => replaced(s, pat, with) == s,
        },
    decreases s.len(),
{
    find_from_is_first(s, pat, 0);
    match find(s, pat) {
        None => {
            replaced_without_match(s, pat, with);
        },
        Some(k) => {
            assert(s.take(pat.len() as int) =~= s.subrange(0, pat.len() as int));
            if k == 0 {
                assert(starts_with(s, pat));
                assert(s.take(0) + with + replaced(s.skip(pat.len() as int), pat, with)
                    =~= replaced(s, pat, with));
            } else {
                assert(!stands_at(s, pat, 0));
                assert(!starts_with(s, pat));
                let r = s.drop_first();
                find_shift(s, pat, 1, 1);
                assert(s.skip(1) =~= r);
                assert(crate::text::find_from(s, pat, 0) == crate::text::find_from(s, pat, 1));
                matches_are_replaced_in_turn(r, pat, with);
                assert(r.skip(k - 1 + pat.len()) =~= s.skip(k + pat.len()));
                assert(seq![s[0]] + r.take(k - 1) =~= s.take(k));
                assert(replaced(s, pat, with) =~= s.take(k) + with + replaced(
                    s.skip(k + pat.len()),
                    pat,
                    with,
                ));
            }
        },
    }
}

/// A prefix is cut off exactly where it is there.
pub proof fn prefix_is_cut_off(s: Seq<char>, p: Seq<char>, rest: Seq<char>)
    ensures
        after_prefix(p + rest, p) == Some(rest),
        after_prefix(s, p) == Some(rest) <==> s == p + rest,
        starts_with(s, p) <==> after_prefix(s, p) is Some,
{
    assert((p + rest).take(p.len() as int) =~= p);
    assert((p + rest).skip(p.len() as int) =~= rest);
    if starts_with(s, p) {
        assert(s =~= p + s.skip(p.len() as int));
    }
}

/// A text without the separator is one piece; otherwise the first piece ends at the
/// first separator, and the others are those of what follows it.
pub proof fn pieces_lie_between_separators(a: Seq<char>, c: char, b: Seq<char>)
    requires
        !a.contains(c),
    ensures
        pieces(a, c) == seq![a],
        pieces(a + seq![c] + b, c) == seq![a] + pieces(b, c),
{
    find_from_is_first(a, seq![c], 0);
    if let Some(k) = find(a, seq![c]) {
        assert(a.subrange(k, k + 1)[0] == c);
        assert(a[k] == c);
    }
    let s = a + seq![c] + b;
    let n = a.len() as int;
    find_from_is_first(s, seq![c], 0);
    assert(s.subrange(n, n + 1) =~= seq![c]);
    assert(stands_at(s, seq![c], n));
    let k = find(s, seq![c])->Some_0;
    if k < n {
        assert(s.subrange(k, k + 1)[0] == c);
        assert(a[k] == c);
    }
    assert(s.take(n) =~= a);
    assert(s.skip(n + 1) =~= b);
}

// ── Numbers ───────────────────────────────────────────────────────────────

/// A digit is written as itself, a further one behind the others, and a negative
/// number with a minus.
pub proof fn decimals_are_written_by_digits(q: nat, d: nat)
    requires
        d < 10,
    ensures
        decimal(d) == seq!["0123456789"@[d as int]],
        q > 0 ==> decimal(10 * q + d) == decimal(q).push("0123456789"@[d as int]),
        decimal_int(q as int) == decimal(q),
        q > 0 ==> decimal_int(-(q as int)) == seq!['-'] + decimal(q),
{
    reveal_strlit("0123456789");
    assert(crate::text::digit(d) == "0123456789"@[d as int]);
}

proof fn digits_of_decimal(n: nat)
    ensures
        all_digits(decimal(n)),
        decimal(n).len() > 0,
        digits_value(decimal(n)) == n,
    decreases n,
{
    if n >= 10 {
        digits_of_decimal(n / 10);
        assert(decimal(n).drop_last() =~= decimal(n / 10));
    } else {
        assert(decimal(n).drop_last() =~= seq![]);
        assert(digits_value(decimal(n).drop_last()) == 0);
    }
}

proof fn leading_zero_counts_nothing(s: Seq<char>)
    ensures
        digits_value(seq!['0'] + s) == digits_value(s),
    decreases s.len(),
{
    let z = seq!['0'] + s;
    if s.len() == 0 {
        assert(z.drop_last() =~= seq![]);
        assert(digits_value(z.drop_last()) == 0);
    } else {
        assert(z.drop_last() =~= seq!['0'] + s.drop_last());
        leading_zero_counts_nothing(s.drop_last());
    }
}

/// An index is read from its digits, with a plus or zeros before them, where it
/// fits; nothing else is an index.
pub proof fn indices_are_read_from_digits(n: nat, s: Seq<char>)
    ensures
        index_value(decimal(n)) == (if n <= usize::MAX {
            Some(n)
        } else {
            None
        }),
        index_value(seq!['+'] + decimal(n)) == index_value(decimal(n)),
        index_value(s) is Some && s[0] != '+' ==> index_value(seq!['0'] + s) == index_value(s),
        index_value(s) is Some ==> s.len() > 0 && (s[0] == '+' && s.len() > 1 || is_ascii_digit(
            s[0],
        )) && forall|i: int| 1 <= i < s.len() ==> is_ascii_digit(#[trigger] s[i]),
{
    digits_of_decimal(n);
    let d = decimal(n);
    assert(is_ascii_digit(d[0]));
    assert((seq!['+'] + d).drop_first() =~= d);
    if index_value(s) is Some {
        if s[0] != '+' {
            leading_zero_counts_nothing(s);
            let z = seq!['0'] + s;
            assert forall|i: int| 0 <= i < z.len() implies is_ascii_digit(#[trigger] z[i]) by {
                if i > 0 {
                    assert(z[i] == s[i - 1]);
                }
            }
        } else {
            let r = s.drop_first();
            assert forall|i: int| 1 <= i < s.len() implies is_ascii_digit(#[trigger] s[i]) by {
                assert(s[i] == r[i - 1]);
            }
        }
    }
}

/// Strings are seen one by one, in order.
pub proof fn strings_are_seen_in_order(v: Seq<String>, i: int)
    ensures
        texts(v).len() == v.len(),
        0 <= i < v.len() ==> texts(v)[i] == v[i]@,
{
}

} // verus!
