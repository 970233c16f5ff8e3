//! What holds of the text building blocks: how splitting, trimming, numbers, paths and
//! padding relate to the texts that they are made from.
use crate::text::{self, NumberError};
use vstd::prelude::*;

verus! {

/// Whether a character is a digit in base 10 or 16.
pub open spec fn is_digit(c: char, radix: int) -> bool {
    ||| '0' <= c <= '9'
    ||| radix == 16 && ('a' <= c <= 'f' || 'A' <= c <= 'F')
}

/// What a digit counts.
pub open spec fn counts(c: char) -> int {
    if '0' <= c <= '9' {
        c as int - '0' as int
    } else if 'a' <= c <= 'f' {
        c as int - 'a' as int + 10
    } else {
        c as int - 'A' as int + 10
    }
}

/// Whether a text is made of digits.
pub open spec fn all_digits(s: Seq<char>, radix: int) -> bool {
    forall|i: int| 0 <= i < s.len() ==> is_digit(#[trigger] s[i], radix)
}

/// The number that digits stand for by their places.
pub open spec fn place_value(s: Seq<char>, radix: int) -> int
    decreases s.len(),
{
    if s.len() == 0 {
        0
    } else {
        place_value(s.drop_last(), radix) * radix + counts(s.last())
    }
}

/// A text without digits stands for nothing, and a number is never negative.
pub proof fn place_value_is_not_negative(s: Seq<char>, radix: int)
    requires
        radix == 10 || radix == 16,
        all_digits(s, radix),
    ensures
        place_value(s, radix) >= 0,
    decreases s.len(),
{
    if s.len() > 0 {
        assert forall|i: int| 0 <= i < s.drop_last().len() implies is_digit(
            #[trigger] s.drop_last()[i],
            radix,
        ) by {
            assert(s[i] == s.drop_last()[i]);
        }
        place_value_is_not_negative(s.drop_last(), radix);
        let v = place_value(s.drop_last(), radix);
        assert(is_digit(s[s.len() - 1], radix));
        assert(v * radix >= 0) by (nonlinear_arith)
            requires
                v >= 0,
                radix == 10 || radix == 16,
        ;
    }
}

proof fn lemma_digit(c: char, radix: int)
    requires
        radix == 10 || radix == 16,
    ensures
        is_digit(c, radix) ==> text::digit_value(c, radix as nat) == Some(counts(c) as nat)
            && counts(c) >= 0,
        !is_digit(c, radix) ==> text::digit_value(c, radix as nat) is None,
{
}

/// Digits are read as the number that they stand for, as long as it is not too large.
pub proof fn lemma_scan_value(s: Seq<char>, radix: int, max: nat)
    requires
        radix == 10 || radix == 16,
        all_digits(s, radix),
    ensures
        text::scan_digits(s, radix as nat, max, 0) == (if place_value(s, radix) <= max {
            Ok::<nat, NumberError>(place_value(s, radix) as nat)
        } else {
            Err(NumberError::PosOverflow)
        }),
        place_value(s, radix) >= 0,
    decreases s.len(),
{
    place_value_is_not_negative(s, radix);
    if s.len() > 0 {
        let t = s.drop_last();
        let c = s.last();
        assert forall|i: int| 0 <= i < t.len() implies is_digit(#[trigger] t[i], radix) by {
            assert(s[i] == t[i]);
        }
        lemma_scan_value(t, radix, max);
        assert(is_digit(s[s.len() - 1], radix));
        lemma_digit(c, radix);
        assert(t.push(c) =~= s);
        text::lemma_scan_push(t, c, radix as nat, max, 0);
        let v = place_value(t, radix);
        if v <= max {
            text::lemma_scan_one(c, counts(c) as nat, radix as nat, max, v as nat);
            assert((v as nat) * (radix as nat) == v * radix) by (nonlinear_arith)
                requires
                    v >= 0,
                    radix >= 0,
            ;
        } else {
            assert(v * radix >= v) by (nonlinear_arith)
                requires
                    v >= 0,
                    radix >= 1,
            ;
        }
    }
}

/// Only digits are read as a number.
proof fn lemma_scan_digits_only(s: Seq<char>, radix: int, max: nat, acc: nat)
    requires
        radix == 10 || radix == 16,
        text::scan_digits(s, radix as nat, max, acc) is Ok,
    ensures
        all_digits(s, radix),
    decreases s.len(),
{
    if s.len() > 0 {
        lemma_digit(s[0], radix);
        let d = text::digit_value(s[0], radix as nat)->Some_0;
        lemma_scan_digits_only(s.drop_first(), radix, max, acc * (radix as nat) + d);
        assert forall|i: int| 0 <= i < s.len() implies is_digit(#[trigger] s[i], radix) by {
            if i > 0 {
                assert(s.drop_first()[i - 1] == s[i]);
            }
        }
    }
}

/// An unsigned numeral is read as what its digits stand for by their places, a plus sign
/// before them does not count, and nothing else is read as a number.
pub proof fn numerals_are_read_by_place(
    s: &str,
    radix: u64,
    max: u64,
    r: Result<u64, NumberError>,
)
    requires
        radix == 10 || radix == 16,
        call_ensures(text::parse_unsigned, (s, radix, max), r),
    ensures
        s@.len() == 0 ==> r == Err::<u64, NumberError>(NumberError::Empty),
        s@.len() > 0 && all_digits(s@, radix as int) ==> match r {
            Ok(n) => n == place_value(s@, radix as int),
            Err(e) => e == NumberError::PosOverflow && place_value(s@, radix as int) > max,
        },
        s@.len() > 1 && s@[0] == '+' && all_digits(s@.skip(1), radix as int) ==> match r {
            Ok(n) => n == place_value(s@.skip(1), radix as int),
            Err(e) => e == NumberError::PosOverflow && place_value(s@.skip(1), radix as int) > max,
        },
        r matches Ok(n) ==> n <= max && s@.len() > 0 && (all_digits(s@, radix as int) || (s@[0]
            == '+' && s@.len() > 1 && all_digits(s@.skip(1), radix as int))),
{
    let rad = radix as int;
    if s@.len() > 0 {
        assert(s@.skip(1) =~= s@.drop_first());
        let body = if s@[0] == '+' && s@.len() > 1 {
            s@.drop_first()
        } else {
            s@
        };
        if all_digits(s@, rad) {
            assert(is_digit(s@[0], rad));
            assert(s@[0] != '+');
            lemma_scan_value(s@, rad, max as nat);
        }
        if s@.len() > 1 && all_digits(s@.skip(1), rad) {
            lemma_scan_value(s@.skip(1), rad, max as nat);
        }
        if r is Ok {
            lemma_scan_digits_only(body, rad, max as nat, 0);
        }
    }
}

/// A signed numeral is read as what its digits stand for, negative behind a minus sign.
pub proof fn signed_numerals_are_read_by_place(s: &str, r: Result<i32, NumberError>)
    requires
        call_ensures(text::parse_i32, (s,), r),
    ensures
        s@.len() > 0 && all_digits(s@, 10) ==> match r {
            Ok(n) => n == place_value(s@, 10),
            Err(e) => e == NumberError::PosOverflow && place_value(s@, 10) > i32::MAX,
        },
        s@.len() > 1 && s@[0] == '-' && all_digits(s@.skip(1), 10) ==> match r {
            Ok(n) => n == -place_value(s@.skip(1), 10),
            Err(e) => e == NumberError::NegOverflow && -place_value(s@.skip(1), 10) < i32::MIN,
        },
        r is Ok ==> s@.len() > 0 && (all_digits(s@, 10) || (s@.len() > 1 && (s@[0] == '-' || s@[0]
            == '+') && all_digits(s@.skip(1), 10))),
{
    if s@.len() > 0 {
        assert(s@.skip(1) =~= s@.drop_first());
        if all_digits(s@, 10) {
            assert(is_digit(s@[0], 10));
            lemma_scan_value(s@, 10, 0x7fff_ffff);
        }
        if s@.len() > 1 && all_digits(s@.skip(1), 10) {
            lemma_scan_value(s@.skip(1), 10, 0x8000_0000);
            lemma_scan_value(s@.skip(1), 10, 0x7fff_ffff);
        }
        if r is Ok {
            if s@[0] == '-' && s@.len() > 1 {
                lemma_scan_digits_only(s@.drop_first(), 10, 0x8000_0000, 0);
            } else if s@[0] == '+' && s@.len() > 1 {
                lemma_scan_digits_only(s@.drop_first(), 10, 0x7fff_ffff, 0);
            } else {
                lemma_scan_digits_only(s@, 10, 0x7fff_ffff, 0);
            }
        }
    }
}

/// The numeral of a number is made of digits that stand for it, the letters among them in
/// lower case, and begins with no zero but that of zero itself.
pub proof fn lemma_numeral(n: nat, radix: nat)
    requires
        radix == 10 || radix == 16,
    ensures
        ({
            let s = text::numeral(n, radix);
            &&& s.len() > 0
            &&& all_digits(s, radix as int)
            &&& place_value(s, radix as int) == n
            &&& n > 0 ==> s[0] != '0'
            &&& n < radix ==> s.len() == 1
            &&& forall|i: int| 0 <= i < s.len() ==> !('A' <= #[trigger] s[i] <= 'F')
        }),
    decreases n,
{
    let s = text::numeral(n, radix);
    let rad = radix as int;
    reveal_with_fuel(place_value, 2);
    if n < radix {
        assert(s =~= seq![text::digit_char(n)]);
        assert(s.drop_last() =~= Seq::<char>::empty());
        assert(counts(text::digit_char(n)) == n);
    } else {
        let q = n / radix;
        let d = n % radix;
        assert(0 < q < n && q * radix + d == n && d < radix) by (nonlinear_arith)
            requires
                n >= radix,
                radix == 10 || radix == 16,
                q == n / radix,
                d == n % radix,
        ;
        lemma_numeral(q, radix);
        let t = text::numeral(q, radix);
        assert(s == t.push(text::digit_char(d)));
        assert(s.drop_last() =~= t);
        assert(s[0] == t[0]);
        assert(counts(text::digit_char(d)) == d);
        assert forall|i: int| 0 <= i < s.len() implies is_digit(#[trigger] s[i], rad) && !('A'
            <= s[i] <= 'F') by {
            if i < t.len() {
                assert(s[i] == t[i]);
            }
        }
    }
}

/// A number is written by digits that stand for it, the letters among them in lower case, and
/// with no zero in front.
pub proof fn numbers_are_written_by_place(
    n: u64,
    radix: u64,
    s: String,
    decimal: String,
    i: i64,
    signed: String,
)
    requires
        radix == 10 || radix == 16,
        call_ensures(text::to_numeral, (n, radix), s),
        call_ensures(text::to_dec, (n,), decimal),
        call_ensures(text::to_dec_int, (i,), signed),
    ensures
        s@.len() > 0,
        all_digits(s@, radix as int),
        place_value(s@, radix as int) == n,
        n > 0 ==> s@[0] != '0',
        n == 0 ==> s@.len() == 1,
        forall|k: int| 0 <= k < s@.len() ==> !('A' <= #[trigger] s@[k] <= 'F'),
        decimal@.len() > 0,
        all_digits(decimal@, 10),
        place_value(decimal@, 10) == n,
        n > 0 ==> decimal@[0] != '0',
        i >= 0 ==> all_digits(signed@, 10) && place_value(signed@, 10) == i,
        i < 0 ==> signed@.len() > 1 && signed@[0] == '-' && all_digits(signed@.skip(1), 10)
            && place_value(signed@.skip(1), 10) == -i,
{
    lemma_numeral(n as nat, radix as nat);
    lemma_numeral(n as nat, 10);
    if i >= 0 {
        lemma_numeral(i as nat, 10);
    } else {
        lemma_numeral((-i) as nat, 10);
        assert(signed@.skip(1) =~= text::dec((-i) as nat));
    }
}

/// White space is what Unicode calls so.
pub proof fn white_space_is_that_of_unicode(c: char, r: bool)
    requires
        call_ensures(text::is_whitespace, (c,), r),
    ensures
        r <==> (c == ' ' || c == '\t' || c == '\n' || c == '\r' || c == '\u{b}' || c == '\u{c}' || c
            == '\u{85}' || c == '\u{a0}' || c == '\u{1680}' || '\u{2000}' <= c <= '\u{200a}' || c
            == '\u{2028}' || c == '\u{2029}' || c == '\u{202f}' || c == '\u{205f}' || c
            == '\u{3000}'),
{
}

/// Whether a text holds nothing but white space.
pub open spec fn blank(s: Seq<char>) -> bool {
    forall|i: int| 0 <= i < s.len() ==> text::is_space(#[trigger] s[i])
}

/// Whether a text holds no white space.
pub open spec fn solid(s: Seq<char>) -> bool {
    forall|i: int| 0 <= i < s.len() ==> !text::is_space(#[trigger] s[i])
}

proof fn lemma_trim_start(s: Seq<char>) -> (k: int)
    ensures
        0 <= k <= s.len(),
        text::trim_start(s) == s.skip(k),
        blank(s.take(k)),
        k < s.len() ==> !text::is_space(s[k]),
    decreases s.len(),
{
    if s.len() > 0 && text::is_space(s[0]) {
        let k = lemma_trim_start(s.drop_first());
        assert(s.drop_first().skip(k) =~= s.skip(k + 1));
        assert forall|i: int| 0 <= i < s.take(k + 1).len() implies text::is_space(
            #[trigger] s.take(k + 1)[i],
        ) by {
            if i > 0 {
                assert(s.drop_first().take(k)[i - 1] == s[i]);
            }
        }
        k + 1
    } else {
        assert(s.skip(0) =~= s);
        0
    }
}

proof fn lemma_trim_end(s: Seq<char>) -> (k: int)
    ensures
        0 <= k <= s.len(),
        text::trim_end(s) == s.take(k),
        blank(s.skip(k)),
        k > 0 ==> !text::is_space(s[k - 1]),
    decreases s.len(),
{
    if s.len() > 0 && text::is_space(s.last()) {
        let k = lemma_trim_end(s.drop_last());
        assert(s.drop_last().take(k) =~= s.take(k));
        assert forall|i: int| 0 <= i < s.skip(k).len() implies text::is_space(
            #[trigger] s.skip(k)[i],
        ) by {
            if i < s.skip(k).len() - 1 {
                assert(s.drop_last().skip(k)[i] == s.skip(k)[i]);
            }
        }
        k
    } else {
        assert(s.take(s.len() as int) =~= s);
        s.len() as int
    }
}

/// Trimming takes white space away at both ends, all of it and nothing else.
pub proof fn trimming_takes_the_ends(s: &str, r: String)
    requires
        call_ensures(text::trim, (s,), r),
    ensures
        exists|from: int, to: int|
            0 <= from <= to <= s@.len() && r@ == #[trigger] s@.subrange(from, to) && blank(
                s@.take(from),
            ) && blank(s@.skip(to)),
        r@.len() > 0 ==> !text::is_space(r@[0]) && !text::is_space(r@.last()),
{
    let a = lemma_trim_start(s@);
    let rest = s@.skip(a);
    let b = lemma_trim_end(rest);
    assert(r@ =~= s@.subrange(a, a + b));
    assert(s@.skip(a + b) =~= rest.skip(b));
    if r@.len() > 0 {
        assert(r@[0] == s@[a]);
        assert(r@.last() == rest[b - 1]);
    }
    let (from, to) = (a, a + b);
    assert(0 <= from <= to <= s@.len() && r@ == s@.subrange(from, to) && blank(s@.take(from))
        && blank(s@.skip(to)));
}

/// A text between white space is what trimming gives.
pub proof fn lemma_trimmed_is(before: Seq<char>, s: Seq<char>, after: Seq<char>)
    requires
        blank(before),
        blank(after),
        s.len() > 0 ==> !text::is_space(s[0]) && !text::is_space(s.last()),
    ensures
        text::trimmed(before + s + after) == s,
{
    let all = before + s + after;
    let a = lemma_trim_start(all);
    let rest = all.skip(a);
    let b = lemma_trim_end(rest);
    if s.len() > 0 {
        assert(all[before.len() as int] == s[0]);
        if a > before.len() {
            assert(text::is_space(all.take(a)[before.len() as int]));
        }
        if a < before.len() {
            assert(all[a] == before[a]);
        }
        assert(a == before.len());
        assert(rest =~= s + after);
        let last = s.len() - 1;
        assert(rest[last] == s.last());
        if b < s.len() {
            assert(rest.skip(b)[last - b] == rest[last]);
        }
        if b > s.len() {
            assert(rest[b - 1] == after[b - 1 - s.len()]);
        }
        assert(rest.take(b) =~= s);
    } else {
        if a < all.len() {
            if a < before.len() {
                assert(all[a] == before[a]);
            } else {
                assert(all[a] == after[a - before.len()]);
            }
        }
        assert(rest.len() == 0);
        assert(rest.take(b) =~= s);
    }
}

/// What is left once the repetitions of a character are taken off the end does not end in it,
/// and what was taken off is nothing else.
pub proof fn stripping_takes_the_end(s: &str, c: char, r: String)
    requires
        call_ensures(text::strip_end, (s, c), r),
    ensures
        r@.len() <= s@.len(),
        r@ == s@.take(r@.len() as int),
        forall|i: int| r@.len() <= i < s@.len() ==> #[trigger] s@[i] == c,
        r@.len() > 0 ==> r@.last() != c,
{
    lemma_stripped(s@, c);
}

proof fn lemma_stripped(s: Seq<char>, c: char)
    ensures
        ({
            let r = text::stripped(s, c);
            &&& r.len() <= s.len()
            &&& r == s.take(r.len() as int)
            &&& forall|i: int| r.len() <= i < s.len() ==> #[trigger] s[i] == c
            &&& r.len() > 0 ==> r.last() != c
        }),
    decreases s.len(),
{
    if s.len() > 0 && s.last() == c {
        let t = s.drop_last();
        lemma_stripped(t, c);
        let r = text::stripped(t, c);
        assert(t.take(r.len() as int) =~= s.take(r.len() as int));
        assert forall|i: int| r.len() <= i < s.len() implies #[trigger] s[i] == c by {
            if i < t.len() {
                assert(t[i] == s[i]);
            }
        }
    } else {
        assert(s.take(s.len() as int) =~= s);
    }
}

proof fn lemma_first_index_is(s: Seq<char>, c: char)
    ensures
        text::first_index(s, c) <= s.len(),
        forall|i: int| 0 <= i < text::first_index(s, c) ==> #[trigger] s[i] != c,
        text::first_index(s, c) < s.len() ==> s[text::first_index(s, c) as int] == c,
    decreases s.len(),
{
    if s.len() > 0 && s[0] != c {
        let t = s.drop_first();
        lemma_first_index_is(t, c);
        assert forall|i: int| 0 <= i < text::first_index(s, c) implies #[trigger] s[i] != c by {
            if i > 0 {
                assert(t[i - 1] == s[i]);
            }
        }
    }
}

/// A text that is split at a character is what comes before, the character and what comes
/// after, and the character does not occur before; a text without it is not split.
pub proof fn split_parts_make_the_text(s: &str, c: char, r: Option<(String, String)>)
    requires
        call_ensures(text::split_once, (s, c), r),
    ensures
        r is Some <==> s@.contains(c),
        r matches Some((a, b)) ==> s@ == a@ + seq![c] + b@ && !a@.contains(c),
{
    lemma_first_index_is(s@, c);
    let i = text::first_index(s@, c) as int;
    if i < s@.len() {
        assert(s@[i] == c);
        assert(s@ =~= s@.take(i) + seq![c] + s@.skip(i + 1));
        assert(!s@.take(i).contains(c)) by {
            if s@.take(i).contains(c) {
                let j = choose|j: int| 0 <= j < s@.take(i).len() && s@.take(i)[j] == c;
                assert(s@[j] == c);
            }
        }
    } else if s@.contains(c) {
        let j = choose|j: int| 0 <= j < s@.len() && s@[j] == c;
        assert(s@[j] != c);
    }
}

/// A text is split where a character first occurs.
pub proof fn lemma_split_is(before: Seq<char>, c: char, after: Seq<char>)
    requires
        forall|i: int| 0 <= i < before.len() ==> #[trigger] before[i] != c,
    ensures
        text::split_at_first(before + seq![c] + after, c) == Some((before, after)),
{
    let all = before + seq![c] + after;
    lemma_first_index_is(all, c);
    let n = before.len() as int;
    let i = text::first_index(all, c) as int;
    assert(all[n] == c);
    if i < n {
        assert(all[i] == before[i]);
    }
    assert(i == n);
    assert(all.take(n) =~= before);
    assert(all.skip(n + 1) =~= after);
}

/// A text without a character is not split at it.
pub proof fn lemma_no_split(s: Seq<char>, c: char)
    requires
        forall|i: int| 0 <= i < s.len() ==> #[trigger] s[i] != c,
    ensures
        text::split_at_first(s, c) is None,
{
    lemma_first_index_is(s, c);
    let i = text::first_index(s, c) as int;
    if i < s.len() {
        assert(s[i] == c);
    }
}

/// Only white space is trimmed to nothing.
pub proof fn lemma_trimmed_empty(s: Seq<char>)
    ensures
        text::trimmed(s).len() == 0 <==> blank(s),
{
    let a = lemma_trim_start(s);
    let rest = s.skip(a);
    let b = lemma_trim_end(rest);
    if a < s.len() {
        assert(rest[0] == s[a]);
        if b == 0 {
            assert(rest.skip(0)[0] == rest[0]);
        }
        assert(!blank(s));
    } else {
        assert(s.take(a) =~= s);
    }
}

/// A text begins with what it is a continuation of, and holds what stands somewhere in it.
pub proof fn parts_are_found(
    s: &str,
    part: &str,
    begins: bool,
    holds: bool,
    before: Seq<char>,
    after: Seq<char>,
)
    requires
        call_ensures(text::starts_with, (s, part), begins),
        call_ensures(text::contains, (s, part), holds),
    ensures
        s@ == part@ + after ==> begins,
        begins ==> part@.len() <= s@.len() && s@ == part@ + s@.skip(part@.len() as int),
        s@ == before + part@ + after ==> holds,
        holds ==> exists|i: int|
            0 <= i <= s@.len() - part@.len() && s@ == #[trigger] s@.take(i) + part@ + s@.skip(
                i + part@.len(),
            ),
{
    if s@ == part@ + after {
        assert(s@.take(part@.len() as int) =~= part@);
    }
    if begins {
        assert(s@ =~= part@ + s@.skip(part@.len() as int));
    }
    if s@ == before + part@ + after {
        let i = before.len() as int;
        assert(s@.subrange(i, i + part@.len()) =~= part@);
    }
    if holds {
        let i = choose|i: int|
            0 <= i <= s@.len() - part@.len() && #[trigger] s@.subrange(i, i + part@.len()) == part@;
        assert(s@ =~= s@.take(i) + s@.subrange(i, i + part@.len()) + s@.skip(i + part@.len()));
    }
}

/// A relative path lies below the one that it is joined to, with one slash between them, and
/// an absolute path stands for itself.
pub proof fn joined_path_lies_below(base: &str, child: &str, r: String)
    requires
        call_ensures(text::path_join, (base, child), r),
    ensures
        child@.len() > 0 && child@[0] == '/' ==> r@ == child@,
        !(child@.len() > 0 && child@[0] == '/') && base@.len() > 0 && base@.last() != '/' ==> r@
            == base@ + seq!['/'] + child@,
        !(child@.len() > 0 && child@[0] == '/') && base@.len() > 0 && base@.last() == '/' ==> r@
            == base@ + child@,
{
}

proof fn lemma_word(s: Seq<char>)
    ensures
        text::word_len(s) <= s.len(),
        solid(s.take(text::word_len(s) as int)),
        text::word_len(s) < s.len() ==> text::is_space(s[text::word_len(s) as int]),
    decreases s.len(),
{
    if s.len() > 0 && !text::is_space(s[0]) {
        let t = s.drop_first();
        lemma_word(t);
        let n = text::word_len(s) as int;
        assert(n == text::word_len(t) + 1);
        assert forall|i: int| 0 <= i < s.take(n).len() implies !text::is_space(
            #[trigger] s.take(n)[i],
        ) by {
            if i > 0 {
                assert(t.take(n - 1)[i - 1] == s.take(n)[i]);
            }
        }
        if n < s.len() {
            assert(t[n - 1] == s[n]);
        }
    }
}

proof fn lemma_word_of_solid(s: Seq<char>, c: char, b: Seq<char>)
    requires
        text::is_space(c),
    ensures
        text::word_len(s + seq![c] + b) == text::word_len(s),
    decreases s.len(),
{
    let all = s + seq![c] + b;
    if s.len() == 0 {
        assert(all[0] == c);
    } else {
        assert(all[0] == s[0]);
        if !text::is_space(s[0]) {
            assert(all.drop_first() =~= s.drop_first() + seq![c] + b);
            lemma_word_of_solid(s.drop_first(), c, b);
        }
    }
}

proof fn lemma_words_split(a: Seq<char>, c: char, b: Seq<char>)
    requires
        text::is_space(c),
    ensures
        text::words(a + seq![c] + b) == text::words(a) + text::words(b),
    decreases a.len(),
{
    let all = a + seq![c] + b;
    if a.len() == 0 {
        assert(all[0] == c);
        assert(all.drop_first() =~= b);
        assert(text::words(a) + text::words(b) =~= text::words(b));
    } else if text::is_space(a[0]) {
        assert(all[0] == a[0]);
        assert(all.drop_first() =~= a.drop_first() + seq![c] + b);
        lemma_words_split(a.drop_first(), c, b);
    } else {
        assert(all[0] == a[0]);
        let n = text::word_len(a) as int;
        lemma_word_of_solid(a, c, b);
        text::word_len_bounded(a);
        assert(all.take(n) =~= a.take(n));
        assert(all.skip(n) =~= a.skip(n) + seq![c] + b);
        lemma_words_split(a.skip(n), c, b);
        assert(text::words(all) =~= text::words(a) + text::words(b));
    }
}

/// The words of two texts with white space between them are those of the one followed by
/// those of the other; a text without white space is its own only word.
pub proof fn words_are_told_apart_by_white_space(
    s: &str,
    a: &str,
    c: char,
    b: &str,
    all: Vec<String>,
    first: Vec<String>,
    second: Vec<String>,
)
    requires
        text::is_space(c),
        s@ == a@ + seq![c] + b@,
        call_ensures(text::split_whitespace, (s,), all),
        call_ensures(text::split_whitespace, (a,), first),
        call_ensures(text::split_whitespace, (b,), second),
    ensures
        all@.len() == first@.len() + second@.len(),
        forall|i: int| 0 <= i < first@.len() ==> (#[trigger] all@[i])@ == first@[i]@,
        forall|i: int|
            first@.len() <= i < all@.len() ==> (#[trigger] all@[i])@ == second@[i
                - first@.len()]@,
        solid(a@) && a@.len() > 0 ==> first@.len() == 1 && first@[0]@ == a@,
        a@.len() == 0 ==> first@.len() == 0,
{
    lemma_words_split(a@, c, b@);
    let w = text::words(s@);
    assert(text::views(all@).len() == all@.len());
    assert(text::views(first@).len() == first@.len());
    assert(text::views(second@).len() == second@.len());
    assert forall|i: int| 0 <= i < all@.len() implies (#[trigger] all@[i])@ == w[i] by {
        assert(text::views(all@)[i] == all@[i]@);
    }
    assert forall|i: int| 0 <= i < first@.len() implies text::words(a@)[i] == (
    #[trigger] first@[i])@ by {
        assert(text::views(first@)[i] == first@[i]@);
    }
    assert forall|i: int| 0 <= i < second@.len() implies text::words(b@)[i] == (
    #[trigger] second@[i])@ by {
        assert(text::views(second@)[i] == second@[i]@);
    }
    if solid(a@) && a@.len() > 0 {
        lemma_solid_word(a@);
    }
}

/// A text without white space is its own only word.
pub proof fn lemma_solid_word(s: Seq<char>)
    requires
        solid(s),
        s.len() > 0,
    ensures
        text::words(s) == seq![s],
{
    lemma_word(s);
    let n = text::word_len(s) as int;
    assert(n == s.len());
    assert(s.take(n) =~= s);
    assert(s.skip(n) =~= Seq::<char>::empty());
    assert(text::words(s.skip(n)) =~= Seq::<Seq<char>>::empty());
    assert(text::words(s) =~= seq![s]);
}

/// White space in front of a text does not change its words.
pub proof fn lemma_blank_front(gap: Seq<char>, s: Seq<char>)
    requires
        blank(gap),
    ensures
        text::words(gap + s) == text::words(s),
    decreases gap.len(),
{
    if gap.len() == 0 {
        assert(gap + s =~= s);
    } else {
        assert((gap + s)[0] == gap[0]);
        assert((gap + s).drop_first() =~= gap.drop_first() + s);
        assert forall|i: int| 0 <= i < gap.drop_first().len() implies text::is_space(
            #[trigger] gap.drop_first()[i],
        ) by {
            assert(gap.drop_first()[i] == gap[i + 1]);
        }
        lemma_blank_front(gap.drop_first(), s);
    }
}

/// A word at the beginning of a text is its first word.
pub proof fn lemma_front_word(word: Seq<char>, tail: Seq<char>)
    requires
        solid(word),
        word.len() > 0,
        tail.len() == 0 || text::is_space(tail[0]),
    ensures
        text::words(word + tail) == seq![word] + text::words(tail),
{
    lemma_solid_word(word);
    if tail.len() == 0 {
        assert(word + tail =~= word);
        assert(seq![word] + text::words(tail) =~= seq![word]);
    } else {
        let c = tail[0];
        let rest = tail.drop_first();
        assert(word + tail =~= word + seq![c] + rest);
        lemma_words_split(word, c, rest);
        assert(text::words(tail) == text::words(rest));
    }
}

/// Two words with white space between them are the first two words of a text that they
/// begin.
pub proof fn lemma_front_words(a: Seq<char>, gap: Seq<char>, b: Seq<char>, tail: Seq<char>)
    requires
        solid(a),
        a.len() > 0,
        blank(gap),
        gap.len() > 0,
        solid(b),
        b.len() > 0,
        tail.len() == 0 || text::is_space(tail[0]),
    ensures
        text::words(a + gap + b + tail) == seq![a, b] + text::words(tail),
{
    let rest = gap + b + tail;
    assert(a + gap + b + tail =~= a + rest);
    assert(rest[0] == gap[0]);
    lemma_front_word(a, rest);
    assert(rest =~= gap + (b + tail));
    lemma_blank_front(gap, b + tail);
    lemma_front_word(b, tail);
    assert(text::words(a + rest) =~= seq![a, b] + text::words(tail));
}

/// Digits are no white space.
pub proof fn lemma_digits_are_solid(s: Seq<char>)
    requires
        all_digits(s, 10),
    ensures
        solid(s),
{
    assert forall|i: int| 0 <= i < s.len() implies !text::is_space(#[trigger] s[i]) by {
        assert(is_digit(s[i], 10));
    }
}

/// A text is filled up to a width with nothing but the fill character, on the side that was
/// asked for, and never cut.
pub proof fn padding_fills_up(s: &str, width: usize, c: char, right: String, left: String)
    requires
        call_ensures(text::pad_right, (s, width, c), right),
        call_ensures(text::pad_left, (s, width, c), left),
    ensures
        s@.len() >= width ==> right@ == s@ && left@ == s@,
        s@.len() < width ==> right@.len() == width && left@.len() == width,
        right@.take(s@.len() as int) == s@,
        left@.skip(left@.len() - s@.len()) == s@,
        forall|i: int| s@.len() <= i < right@.len() ==> #[trigger] right@[i] == c,
        forall|i: int| 0 <= i < left@.len() - s@.len() ==> #[trigger] left@[i] == c,
{
    assert(right@.take(s@.len() as int) =~= s@);
    assert(left@.skip(left@.len() - s@.len()) =~= s@);
}

/// A repeated character stands as often as was asked for.
pub proof fn repetition_repeats(c: char, n: usize, r: String)
    requires
        call_ensures(text::repeat, (c, n), r),
    ensures
        r@.len() == n,
        forall|i: int| 0 <= i < r@.len() ==> #[trigger] r@[i] == c,
{
}

/// The items of a list stand in order with a comma and a space between each two.
pub proof fn list_puts_commas_between(
    items: &Vec<String>,
    last: String,
    more: &Vec<String>,
    r: String,
    longer: String,
)
    requires
        more@ == items@.push(last),
        call_ensures(text::list, (items,), r),
        call_ensures(text::list, (more,), longer),
    ensures
        items@.len() == 0 ==> r@.len() == 0 && longer@ == last@,
        items@.len() > 0 ==> longer@ == r@ + ", "@ + last@,
{
    let v = text::views(more@);
    assert(v.drop_last() =~= text::views(items@));
    assert(v.last() == last@);
    assert(v.len() == items@.len() + 1);
    if items@.len() == 0 {
        assert(text::views(items@) =~= Seq::<Seq<char>>::empty());
        assert(v[0] == last@);
    }
}

/// Characters make up the text that they were taken from.
pub proof fn characters_make_the_text(
    s: &str,
    v: Vec<char>,
    from: usize,
    to: usize,
    part: String,
    a: &str,
    b: &str,
    equal: bool,
)
    requires
        call_ensures(text::to_chars, (s,), v),
        from <= to <= s@.len(),
        call_ensures(text::from_chars, (&v, from, to), part),
        call_ensures(text::same, (a, b), equal),
    ensures
        v@ == s@,
        part@ == s@.subrange(from as int, to as int),
        equal <==> a@ == b@,
{
}

/// Texts that are put behind each other stand in the order in which they were given.
pub proof fn texts_stand_in_order(
    a: &str,
    b: &str,
    c: &str,
    d: &str,
    e: &str,
    two: String,
    three: String,
    four: String,
    five: String,
)
    requires
        call_ensures(text::cat2, (a, b), two),
        call_ensures(text::cat3, (a, b, c), three),
        call_ensures(text::cat4, (a, b, c, d), four),
        call_ensures(text::cat5, (a, b, c, d, e), five),
    ensures
        two@ == a@ + b@,
        three@ == two@ + c@,
        four@ == three@ + d@,
        five@ == four@ + e@,
{
}

proof fn lemma_tail(dir: Seq<char>, name: Seq<char>)
    requires
        forall|i: int| 0 <= i < name.len() ==> #[trigger] name[i] != '/',
    ensures
        text::tail_len(dir + seq!['/'] + name) == name.len(),
    decreases name.len(),
{
    let all = dir + seq!['/'] + name;
    if name.len() == 0 {
        assert(all.last() == '/');
    } else {
        assert(all.last() == name.last());
        assert(name.last() == name[name.len() - 1]);
        let shorter = name.drop_last();
        assert forall|i: int| 0 <= i < shorter.len() implies #[trigger] shorter[i] != '/' by {
            assert(shorter[i] == name[i]);
        }
        assert(all.drop_last() =~= dir + seq!['/'] + shorter);
        lemma_tail(dir, shorter);
    }
}

/// The file name of a path is what follows its last slash; slashes at the end do not count.
pub proof fn file_name_follows_the_last_slash(
    dir: Seq<char>,
    name: Seq<char>,
    path: &str,
    r: Option<String>,
    slashed: &str,
    same: Option<String>,
)
    requires
        name.len() > 0,
        forall|i: int| 0 <= i < name.len() ==> #[trigger] name[i] != '/',
        name != "."@,
        name != ".."@,
        path@ == dir + seq!['/'] + name,
        slashed@ == path@ + seq!['/'],
        call_ensures(text::path_file_name, (path,), r),
        call_ensures(text::path_file_name, (slashed,), same),
    ensures
        r matches Some(n) && n@ == name,
        same matches Some(n) && n@ == name,
{
    lemma_tail(dir, name);
    assert(path@.skip(path@.len() - name.len()) =~= name);
    lemma_tail(path@, Seq::<char>::empty());
    assert(slashed@ =~= path@ + seq!['/'] + Seq::<char>::empty());
    assert(slashed@.take(slashed@.len() - 1) =~= path@);
    assert(text::file_name(path@) == Some(name));
    assert(text::file_name(slashed@) == text::file_name(path@));
}

/// A digit counts what it is written as, and is written in lower case.
pub proof fn digits_count_what_they_are(
    c: char,
    radix: u64,
    r: Option<u64>,
    d: u8,
    written: char,
)
    requires
        radix == 10 || radix == 16,
        call_ensures(text::digit, (c, radix), r),
        d < 16,
        call_ensures(text::to_digit_char, (d,), written),
    ensures
        r is Some <==> is_digit(c, radix as int),
        r matches Some(n) ==> n == counts(c),
        is_digit(written, 16),
        counts(written) == d,
        !('A' <= written <= 'F'),
{
}

/// What is said of a text that is no number.
pub proof fn bad_numbers_are_told_why(e: NumberError, m: String)
    requires
        call_ensures(NumberError::message, (e,), m),
    ensures
        e is Empty ==> m@ == "cannot parse integer from empty string"@,
        e is InvalidDigit ==> m@ == "invalid digit found in string"@,
        e is PosOverflow ==> m@ == "number too large to fit in target type"@,
        e is NegOverflow ==> m@ == "number too small to fit in target type"@,
{
}

} // verus!
