//! Text building blocks: whitespace splitting, trimming, number parsing and
//! number rendering over sequences of characters.
use vstd::prelude::*;
use vstd::string::StringExecFns;

verus! {

/// `String::push` appends one character to the end of the string.
pub assume_specification[ String::push ](s: &mut String, c: char)
    ensures
        final(s)@ == old(s)@.push(c),
;

/// The views of a list of strings.
pub open spec fn views(v: Seq<String>) -> Seq<Seq<char>> {
    v.map_values(|s: String| s@)
}

/// The characters with the Unicode `White_Space` property.
pub open spec fn is_space(c: char) -> bool {
    let n = c as u32;
    ||| 9 <= n <= 13
    ||| n == 0x20
    ||| n == 0x85
    ||| n == 0xa0
    ||| n == 0x1680
    ||| 0x2000 <= n <= 0x200a
    ||| n == 0x2028
    ||| n == 0x2029
    ||| n == 0x202f
    ||| n == 0x205f
    ||| n == 0x3000
}

/// Whether `c` is white space.
pub fn is_whitespace(c: char) -> (r: bool)
    ensures
        r == is_space(c),
{
    let n: u32 = c as u32;
    (9 <= n && n <= 13) || n == 0x20 || n == 0x85 || n == 0xa0 || n == 0x1680 || (0x2000 <= n && n
        <= 0x200a) || n == 0x2028 || n == 0x2029 || n == 0x202f || n == 0x205f || n == 0x3000
}

/// The characters of `s`, in order.
pub fn to_chars(s: &str) -> (v: Vec<char>)
    ensures
        v@ == s@,
{
    let mut v: Vec<char> = Vec::new();
    for c in it: s.chars()
        invariant
            v@ == s@.take(it.index() as int),
            it.seq() == s@,
    {
        v.push(c);
        proof {
            assert(s@.take(it.index() + 1) =~= s@.take(it.index() as int).push(s@[it.index() as int]));
        }
    }
    assert(s@.take(s@.len() as int) =~= s@);
    v
}

/// The string made of `v[from..to]`.
pub fn from_chars(v: &Vec<char>, from: usize, to: usize) -> (s: String)
    requires
        from <= to <= v@.len(),
    ensures
        s@ == v@.subrange(from as int, to as int),
{
    let mut s = String::new();
    let mut i: usize = from;
    while i < to
        invariant
            from <= i <= to <= v@.len(),
            s@ == v@.subrange(from as int, i as int),
        decreases to - i,
    {
        s.push(v[i]);
        i += 1;
        assert(v@.subrange(from as int, i as int) =~= v@.subrange(from as int, i - 1).push(v@[i - 1]));
    }
    s
}

/// Two texts, one after the other.
pub fn cat2(a: &str, b: &str) -> (r: String)
    ensures
        r@ == a@ + b@,
{
    a.to_owned().concat(b)
}

/// Three texts, one after the other.
pub fn cat3(a: &str, b: &str, c: &str) -> (r: String)
    ensures
        r@ == a@ + b@ + c@,
{
    a.to_owned().concat(b).concat(c)
}

/// Four texts, one after the other.
pub fn cat4(a: &str, b: &str, c: &str, d: &str) -> (r: String)
    ensures
        r@ == a@ + b@ + c@ + d@,
{
    a.to_owned().concat(b).concat(c).concat(d)
}

/// Five texts, one after the other.
pub fn cat5(a: &str, b: &str, c: &str, d: &str, e: &str) -> (r: String)
    ensures
        r@ == a@ + b@ + c@ + d@ + e@,
{
    a.to_owned().concat(b).concat(c).concat(d).concat(e)
}

/// Whether two texts are the same.
pub fn same(a: &str, b: &str) -> (r: bool)
    ensures
        r == (a@ == b@),
{
    a.to_owned() == b.to_owned()
}

/// Whether a text begins with another one.
pub open spec fn begins_with(s: Seq<char>, prefix: Seq<char>) -> bool {
    prefix.len() <= s.len() && s.take(prefix.len() as int) == prefix
}

/// Whether a text occurs in another one.
pub open spec fn occurs_in(needle: Seq<char>, s: Seq<char>) -> bool {
    exists|i: int|
        0 <= i <= s.len() - needle.len() && #[trigger] s.subrange(i, i + needle.len()) == needle
}

fn matches_at(v: &Vec<char>, at: usize, needle: &Vec<char>) -> (r: bool)
    requires
        at + needle@.len() <= v@.len(),
    ensures
        r == (v@.subrange(at as int, at + needle@.len()) == needle@),
{
    let len: usize = v.len();
    let mut k: usize = 0;
    while k < needle.len()
        invariant
            k <= needle@.len(),
            at + needle@.len() <= v@.len(),
            v@.len() == len,
            forall|j: int| 0 <= j < k ==> v@[at + j] == #[trigger] needle@[j],
        decreases needle@.len() - k,
    {
        if v[at + k] != needle[k] {
            proof {
                assert(v@.subrange(at as int, at + needle@.len())[k as int] != needle@[k as int]);
            }
            return false;
        }
        k += 1;
    }
    assert(v@.subrange(at as int, at + needle@.len()) =~= needle@);
    true
}

/// Whether a text begins with another one.
pub fn starts_with(s: &str, prefix: &str) -> (r: bool)
    ensures
        r == begins_with(s@, prefix@),
{
    let v = to_chars(s);
    let p = to_chars(prefix);
    if p.len() > v.len() {
        return false;
    }
    assert(v@.subrange(0, p@.len() as int) =~= s@.take(p@.len() as int));
    matches_at(&v, 0, &p)
}

/// Whether a text occurs in another one.
pub fn contains(s: &str, needle: &str) -> (r: bool)
    ensures
        r == occurs_in(needle@, s@),
{
    let v = to_chars(s);
    let n = to_chars(needle);
    if n.len() > v.len() {
        return false;
    }
    let last: usize = v.len() - n.len();
    let mut i: usize = 0;
    while i < last
        invariant
            v@ == s@,
            n@ == needle@,
            i <= last,
            last == v@.len() - n@.len(),
            forall|j: int| 0 <= j < i ==> #[trigger] v@.subrange(j, j + n@.len()) != n@,
        decreases last - i,
    {
        if matches_at(&v, i, &n) {
            return true;
        }
        i += 1;
    }
    matches_at(&v, last, &n)
}

/// A path below another one: an absolute path stands for itself, any other path is
/// appended after a `/`.
pub open spec fn joined(base: Seq<char>, child: Seq<char>) -> Seq<char> {
    if child.len() > 0 && child[0] == '/' {
        child
    } else if base.len() == 0 || base.last() == '/' {
        base + child
    } else {
        base + seq!['/'] + child
    }
}

/// Joins two paths.
pub fn path_join(base: &str, child: &str) -> (r: String)
    ensures
        r@ == joined(base@, child@),
{
    let b = to_chars(base);
    let c = to_chars(child);
    if c.len() > 0 && c[0] == '/' {
        child.to_owned()
    } else if b.len() == 0 || b[b.len() - 1] == '/' {
        cat2(base, child)
    } else {
        let mut r = base.to_owned();
        r.push('/');
        assert(r@ =~= base@ + seq!['/']);
        r.concat(child)
    }
}

/// How many of the first characters of `s` are not white space.
pub open spec fn word_len(s: Seq<char>) -> nat
    decreases s.len(),
{
    if s.len() == 0 || is_space(s[0]) {
        0
    } else {
        1 + word_len(s.drop_first())
    }
}

/// A word is never longer than the text that it starts.
pub proof fn word_len_bounded(s: Seq<char>)
    ensures
        word_len(s) <= s.len(),
        s.len() > 0 && !is_space(s[0]) ==> word_len(s) > 0,
    decreases s.len(),
{
    if s.len() > 0 && !is_space(s[0]) {
        word_len_bounded(s.drop_first());
    }
}

/// The maximal runs of characters that are not white space, in order.
pub open spec fn words(s: Seq<char>) -> Seq<Seq<char>>
    decreases s.len(),
{
    if s.len() == 0 {
        Seq::empty()
    } else if is_space(s[0]) {
        words(s.drop_first())
    } else {
        proof {
            word_len_bounded(s);
        }
        seq![s.take(word_len(s) as int)] + words(s.skip(word_len(s) as int))
    }
}

proof fn lemma_word_len_is(s: Seq<char>, n: nat)
    requires
        n <= s.len(),
        forall|k: int| 0 <= k < n ==> !is_space(#[trigger] s[k]),
        n == s.len() || is_space(s[n as int]),
    ensures
        word_len(s) == n,
    decreases s.len(),
{
    if n > 0 {
        let t = s.drop_first();
        assert forall|k: int| 0 <= k < n - 1 implies !is_space(#[trigger] t[k]) by {
            assert(t[k] == s[k + 1]);
        }
        lemma_word_len_is(t, (n - 1) as nat);
    }
}

/// Splits a text at white space, leaving out empty pieces.
pub fn split_whitespace(s: &str) -> (r: Vec<String>)
    ensures
        views(r@) == words(s@),
{
    let v = to_chars(s);
    let mut out: Vec<String> = Vec::new();
    let mut i: usize = 0;
    proof {
        assert(v@.skip(0) =~= v@);
        assert(views(out@) + words(v@) =~= words(v@));
    }
    while i < v.len()
        invariant
            i <= v@.len(),
            views(out@) + words(v@.skip(i as int)) == words(v@),
        decreases v@.len() - i,
    {
        let ghost rest = v@.skip(i as int);
        if is_whitespace(v[i]) {
            assert(rest[0] == v@[i as int]);
            i += 1;
            assert(rest.drop_first() =~= v@.skip(i as int));
        } else {
            let mut j: usize = i;
            while j < v.len() && !is_whitespace(v[j])
                invariant
                    i <= j <= v@.len(),
                    forall|k: int| i <= k < j ==> !is_space(#[trigger] v@[k]),
                decreases v@.len() - j,
            {
                j += 1;
            }
            let word = from_chars(&v, i, j);
            let ghost before = out@;
            out.push(word);
            proof {
                let n = (j - i) as nat;
                assert forall|k: int| 0 <= k < n implies !is_space(#[trigger] rest[k]) by {
                    assert(rest[k] == v@[i + k]);
                }
                if j < v@.len() {
                    assert(rest[n as int] == v@[j as int]);
                }
                lemma_word_len_is(rest, n);
                if n == 0 {
                    assert(rest[0] == v@[i as int]);
                }
                assert(rest[0] == v@[i as int]);
                assert(rest.take(n as int) =~= word@);
                assert(rest.skip(n as int) =~= v@.skip(j as int));
                assert(words(rest) == seq![word@] + words(v@.skip(j as int)));
                assert(views(out@) =~= views(before).push(word@));
                assert(views(out@) + words(v@.skip(j as int)) =~= views(before) + words(rest));
            }
            i = j;
        }
    }
    assert(v@.skip(i as int) =~= Seq::<char>::empty());
    assert(words(v@.skip(i as int)) =~= Seq::<Seq<char>>::empty());
    assert(views(out@) =~= words(s@));
    out
}


/// A text without the white space that it starts with.
pub open spec fn trim_start(s: Seq<char>) -> Seq<char>
    decreases s.len(),
{
    if s.len() > 0 && is_space(s[0]) {
        trim_start(s.drop_first())
    } else {
        s
    }
}

/// A text without the white space that it ends with.
pub open spec fn trim_end(s: Seq<char>) -> Seq<char>
    decreases s.len(),
{
    if s.len() > 0 && is_space(s.last()) {
        trim_end(s.drop_last())
    } else {
        s
    }
}

/// A text without the white space around it.
pub open spec fn trimmed(s: Seq<char>) -> Seq<char> {
    trim_end(trim_start(s))
}

/// Takes the white space around a text away.
pub fn trim(s: &str) -> (r: String)
    ensures
        r@ == trimmed(s@),
{
    let v = to_chars(s);
    let mut from: usize = 0;
    assert(v@.skip(0) =~= v@);
    while from < v.len() && is_whitespace(v[from])
        invariant
            from <= v@.len(),
            trim_start(v@.skip(from as int)) == trim_start(v@),
        decreases v@.len() - from,
    {
        assert(v@.skip(from as int)[0] == v@[from as int]);
        assert(v@.skip(from as int).drop_first() =~= v@.skip(from + 1));
        from += 1;
    }
    assert(trim_start(v@) == v@.skip(from as int)) by {
        if from < v@.len() {
            assert(v@.skip(from as int)[0] == v@[from as int]);
        }
    }
    let mut to: usize = v.len();
    assert(v@.subrange(from as int, to as int) =~= v@.skip(from as int));
    while from < to && is_whitespace(v[to - 1])
        invariant
            from <= to <= v@.len(),
            trim_end(v@.subrange(from as int, to as int)) == trimmed(v@),
        decreases to,
    {
        let ghost cut = v@.subrange(from as int, to as int);
        assert(cut.last() == v@[to - 1]);
        assert(cut.drop_last() =~= v@.subrange(from as int, to - 1));
        to -= 1;
    }
    assert(trimmed(v@) == v@.subrange(from as int, to as int)) by {
        let cut = v@.subrange(from as int, to as int);
        if from < to {
            assert(cut.last() == v@[to - 1]);
        }
    }
    from_chars(&v, from, to)
}

/// A text without the repetitions of a character that it ends with.
pub open spec fn stripped(s: Seq<char>, c: char) -> Seq<char>
    decreases s.len(),
{
    if s.len() > 0 && s.last() == c {
        stripped(s.drop_last(), c)
    } else {
        s
    }
}

/// Takes the repetitions of a character that a text ends with away.
pub fn strip_end(s: &str, c: char) -> (r: String)
    ensures
        r@ == stripped(s@, c),
{
    let v = to_chars(s);
    let mut to: usize = v.len();
    assert(v@.take(to as int) =~= v@);
    while to > 0 && v[to - 1] == c
        invariant
            to <= v@.len(),
            stripped(v@.take(to as int), c) == stripped(v@, c),
        decreases to,
    {
        assert(v@.take(to as int).last() == v@[to - 1]);
        assert(v@.take(to as int).drop_last() =~= v@.take(to - 1));
        to -= 1;
    }
    assert(stripped(v@, c) == v@.take(to as int)) by {
        if to > 0 {
            assert(v@.take(to as int).last() == v@[to - 1]);
        }
    }
    assert(v@.take(to as int) =~= v@.subrange(0, to as int));
    from_chars(&v, 0, to)
}

/// What `str::to_lowercase` gives for a text.
pub uninterp spec fn lowered(s: Seq<char>) -> Seq<char>;

/// An ASCII letter in lower case; any other character as it is.
pub open spec fn ascii_lower(c: char) -> char {
    if 'A' <= c <= 'Z' {
        (c as u32 + 32) as char
    } else {
        c
    }
}

/// Whether a text, if it is ASCII, has each letter in lower case in another one.
pub open spec fn lowers_ascii(s: Seq<char>, r: Seq<char>) -> bool {
    (forall|i: int| 0 <= i < s.len() ==> #[trigger] s[i] <= '\u{7f}') ==> r == s.map_values(
        |c: char| ascii_lower(c),
    )
}

/// Calls `str::to_lowercase`, which follows Unicode: what it gives depends on the
/// text alone. Stated of ASCII alone, where each letter gets its lower case.
#[verifier::external_body]
pub(crate) fn to_lowercase(s: &str) -> (r: String)
    ensures
        r@ == lowered(s@),
        lowers_ascii(s@, r@),
{
    s.to_lowercase()
}

/// What comes before and after the first occurrence of a character.
pub open spec fn split_at_first(s: Seq<char>, c: char) -> Option<(Seq<char>, Seq<char>)> {
    let i = first_index(s, c);
    if i < s.len() {
        Some((s.take(i as int), s.skip(i as int + 1)))
    } else {
        None
    }
}

/// How many characters come before the first occurrence of a character.
pub open spec fn first_index(s: Seq<char>, c: char) -> nat
    decreases s.len(),
{
    if s.len() == 0 || s[0] == c {
        0
    } else {
        1 + first_index(s.drop_first(), c)
    }
}

proof fn lemma_first_index(s: Seq<char>, c: char, n: nat)
    requires
        n <= s.len(),
        forall|k: int| 0 <= k < n ==> #[trigger] s[k] != c,
        n == s.len() || s[n as int] == c,
    ensures
        first_index(s, c) == n,
    decreases s.len(),
{
    if n > 0 {
        let t = s.drop_first();
        assert forall|k: int| 0 <= k < n - 1 implies #[trigger] t[k] != c by {
            assert(t[k] == s[k + 1]);
        }
        lemma_first_index(t, c, (n - 1) as nat);
    }
}

/// Splits a text at the first occurrence of a character.
pub fn split_once(s: &str, c: char) -> (r: Option<(String, String)>)
    ensures
        match r {
            Some((a, b)) => split_at_first(s@, c) == Some((a@, b@)),
            None => split_at_first(s@, c) is None,
        },
{
    let v = to_chars(s);
    let mut i: usize = 0;
    while i < v.len() && v[i] != c
        invariant
            i <= v@.len(),
            forall|k: int| 0 <= k < i ==> #[trigger] v@[k] != c,
        decreases v@.len() - i,
    {
        i += 1;
    }
    proof {
        lemma_first_index(v@, c, i as nat);
    }
    if i < v.len() {
        let a = from_chars(&v, 0, i);
        let b = from_chars(&v, i + 1, v.len());
        assert(a@ =~= s@.take(i as int));
        assert(b@ =~= s@.skip(i + 1));
        Some((a, b))
    } else {
        None
    }
}

/// Why a text is not a number.
#[derive(Clone, Copy, Debug, PartialEq, Eq, Structural)]
pub enum NumberError {
    Empty,
    InvalidDigit,
    PosOverflow,
    NegOverflow,
}

impl NumberError {
    /// What the error reads as.
    pub open spec fn text(self) -> Seq<char> {
        match self {
            NumberError::Empty => "cannot parse integer from empty string"@,
            NumberError::InvalidDigit => "invalid digit found in string"@,
            NumberError::PosOverflow => "number too large to fit in target type"@,
            NumberError::NegOverflow => "number too small to fit in target type"@,
        }
    }

    /// The error's text.
    pub fn message(self) -> (r: String)
        ensures
            r@ == self.text(),
    {
        match self {
            NumberError::Empty => "cannot parse integer from empty string".to_owned(),
            NumberError::InvalidDigit => "invalid digit found in string".to_owned(),
            NumberError::PosOverflow => "number too large to fit in target type".to_owned(),
            NumberError::NegOverflow => "number too small to fit in target type".to_owned(),
        }
    }
}

/// The value of a digit in base 10 or 16; letters count in either case.
pub open spec fn digit_value(c: char, radix: nat) -> Option<nat> {
    if '0' <= c <= '9' {
        Some((c as nat - '0' as nat) as nat)
    } else if radix == 16 && 'a' <= c <= 'f' {
        Some((c as nat - 'a' as nat + 10) as nat)
    } else if radix == 16 && 'A' <= c <= 'F' {
        Some((c as nat - 'A' as nat + 10) as nat)
    } else {
        None
    }
}

/// The value of a digit in base 10 or 16.
pub fn digit(c: char, radix: u64) -> (r: Option<u64>)
    ensures
        match r {
            Some(d) => digit_value(c, radix as nat) == Some(d as nat) && d < 16,
            None => digit_value(c, radix as nat) is None,
        },
{
    let n: u32 = c as u32;
    if '0' <= c && c <= '9' {
        Some((n - 48) as u64)
    } else if radix == 16 && 'a' <= c && c <= 'f' {
        Some((n - 97 + 10) as u64)
    } else if radix == 16 && 'A' <= c && c <= 'F' {
        Some((n - 65 + 10) as u64)
    } else {
        None
    }
}

/// Reads the digits of `s` after a number `acc`. The first character that is no
/// digit, or that takes the number beyond `max`, decides the error.
pub open spec fn scan_digits(s: Seq<char>, radix: nat, max: nat, acc: nat) -> Result<
    nat,
    NumberError,
>
    decreases s.len(),
{
    if s.len() == 0 {
        Ok(acc)
    } else {
        match digit_value(s[0], radix) {
            None => Err(NumberError::InvalidDigit),
            Some(d) => if acc * radix + d > max {
                Err(NumberError::PosOverflow)
            } else {
                scan_digits(s.drop_first(), radix, max, acc * radix + d)
            },
        }
    }
}

/// The number that an unsigned numeral of at most `max` stands for: digits, after
/// a `+` where there is one.
pub open spec fn unsigned_number(s: Seq<char>, radix: nat, max: nat) -> Result<nat, NumberError> {
    if s.len() == 0 {
        Err(NumberError::Empty)
    } else if s[0] == '+' && s.len() > 1 {
        scan_digits(s.drop_first(), radix, max, 0)
    } else {
        scan_digits(s, radix, max, 0)
    }
}

fn scan(v: &Vec<char>, from: usize, radix: u64, max: u64) -> (r: Result<u64, NumberError>)
    requires
        from <= v@.len(),
        radix == 10 || radix == 16,
    ensures
        match r {
            Ok(n) => scan_digits(v@.skip(from as int), radix as nat, max as nat, 0) == Ok::<
                nat,
                NumberError,
            >(n as nat) && n <= max,
            Err(e) => scan_digits(v@.skip(from as int), radix as nat, max as nat, 0) == Err::<
                nat,
                NumberError,
            >(e),
        },
{
    let mut acc: u64 = 0;
    let mut i: usize = from;
    while i < v.len()
        invariant
            i <= v@.len(),
            from <= v@.len(),
            acc <= max,
            radix == 10 || radix == 16,
            scan_digits(v@.skip(from as int), radix as nat, max as nat, 0) == scan_digits(
                v@.skip(i as int),
                radix as nat,
                max as nat,
                acc as nat,
            ),
        decreases v@.len() - i,
    {
        let ghost rest = v@.skip(i as int);
        assert(rest[0] == v@[i as int]);
        assert(rest.drop_first() =~= v@.skip(i + 1));
        match digit(v[i], radix) {
            None => {
                return Err(NumberError::InvalidDigit);
            },
            Some(d) => {
                let wide: u128 = if radix == 10 {
                    (acc as u128) * 10 + d as u128
                } else {
                    (acc as u128) * 16 + d as u128
                };
                assert(wide == acc * radix + d);
                if wide > max as u128 {
                    return Err(NumberError::PosOverflow);
                }
                acc = wide as u64;
                i += 1;
            },
        }
    }
    assert(v@.skip(i as int) =~= Seq::<char>::empty());
    Ok(acc)
}

/// Parses an unsigned numeral in base 10 or 16.
pub fn parse_unsigned(s: &str, radix: u64, max: u64) -> (r: Result<u64, NumberError>)
    requires
        radix == 10 || radix == 16,
    ensures
        match r {
            Ok(n) => unsigned_number(s@, radix as nat, max as nat) == Ok::<nat, NumberError>(
                n as nat,
            ) && n <= max,
            Err(e) => unsigned_number(s@, radix as nat, max as nat) == Err::<nat, NumberError>(e),
        },
{
    let v = to_chars(s);
    if v.len() == 0 {
        return Err(NumberError::Empty);
    }
    assert(v@.skip(0) =~= v@);
    assert(v@.skip(1) =~= v@.drop_first());
    if v[0] == '+' && v.len() > 1 {
        scan(&v, 1, radix, max)
    } else {
        scan(&v, 0, radix, max)
    }
}

/// The number that a decimal numeral with an optional sign stands for, within
/// the range of 32-bit integers.
pub open spec fn signed_number(s: Seq<char>) -> Result<int, NumberError> {
    if s.len() == 0 {
        Err(NumberError::Empty)
    } else if s[0] == '-' && s.len() > 1 {
        match scan_digits(s.drop_first(), 10, 0x8000_0000, 0) {
            Ok(n) => Ok(-(n as int)),
            Err(NumberError::PosOverflow) => Err(NumberError::NegOverflow),
            Err(e) => Err(e),
        }
    } else {
        match unsigned_number(s, 10, 0x7fff_ffff) {
            Ok(n) => Ok(n as int),
            Err(e) => Err(e),
        }
    }
}

/// Parses a decimal numeral with an optional sign.
pub fn parse_i32(s: &str) -> (r: Result<i32, NumberError>)
    ensures
        match r {
            Ok(n) => signed_number(s@) == Ok::<int, NumberError>(n as int),
            Err(e) => signed_number(s@) == Err::<int, NumberError>(e),
        },
{
    let v = to_chars(s);
    if v.len() > 1 && v[0] == '-' {
        assert(v@.skip(1) =~= v@.drop_first());
        match scan(&v, 1, 10, 0x8000_0000) {
            Ok(n) => Ok((-(n as i64)) as i32),
            Err(NumberError::PosOverflow) => Err(NumberError::NegOverflow),
            Err(e) => Err(e),
        }
    } else {
        match parse_unsigned(s, 10, 0x7fff_ffff) {
            Ok(n) => Ok(n as i32),
            Err(e) => Err(e),
        }
    }
}

/// The character of a digit below 16, letters in lower case.
pub open spec fn digit_char(d: nat) -> char {
    if d < 10 {
        ('0' as nat + d) as char
    } else {
        ('a' as nat + d - 10) as char
    }
}

/// The character of a digit below 16.
pub fn to_digit_char(d: u8) -> (c: char)
    requires
        d < 16,
    ensures
        c == digit_char(d as nat),
{
    if d < 10 {
        (48u8 + d) as char
    } else {
        (87u8 + d) as char
    }
}

/// A number written out in a base, without leading zeros.
pub open spec fn numeral(n: nat, radix: nat) -> Seq<char>
    decreases n,
{
    if radix < 2 || n < radix {
        seq![digit_char(n)]
    } else {
        proof {
            vstd::arithmetic::div_mod::lemma_div_decreases(n as int, radix as int);
        }
        numeral(n / radix, radix).push(digit_char(n % radix))
    }
}

/// A number in decimal.
pub open spec fn dec(n: nat) -> Seq<char> {
    numeral(n, 10)
}

/// An integer in decimal, with a `-` before a negative one.
pub open spec fn dec_int(n: int) -> Seq<char> {
    if n < 0 {
        seq!['-'] + dec((-n) as nat)
    } else {
        dec(n as nat)
    }
}

/// Writes a number out in a base.
pub fn to_numeral(n: u64, radix: u64) -> (s: String)
    requires
        radix == 10 || radix == 16,
    ensures
        s@ == numeral(n as nat, radix as nat),
    decreases n,
{
    if n < radix {
        let mut s = String::new();
        s.push(to_digit_char(n as u8));
        assert(s@ =~= seq![digit_char(n as nat)]);
        s
    } else {
        let mut s = to_numeral(n / radix, radix);
        s.push(to_digit_char((n % radix) as u8));
        s
    }
}

/// Writes a number out in decimal.
pub fn to_dec(n: u64) -> (s: String)
    ensures
        s@ == dec(n as nat),
{
    to_numeral(n, 10)
}

/// Writes an integer out in decimal.
pub fn to_dec_int(n: i64) -> (s: String)
    ensures
        s@ == dec_int(n as int),
{
    if n < 0 {
        let m: u64 = (-(n as i128)) as u64;
        let mut s = String::new();
        s.push('-');
        let t = to_dec(m);
        assert(s@ =~= seq!['-']);
        s.concat(t.as_str())
    } else {
        to_dec(n as u64)
    }
}

/// How many characters follow the last slash.
pub open spec fn tail_len(s: Seq<char>) -> nat
    decreases s.len(),
{
    if s.len() == 0 || s.last() == '/' {
        0
    } else {
        1 + tail_len(s.drop_last())
    }
}

/// The last part of a path: empty parts and single dots do not count, and two dots
/// are no name.
pub open spec fn file_name(path: Seq<char>) -> Option<Seq<char>>
    decreases path.len(),
{
    let n = tail_len(path);
    if n > path.len() {
        None
    } else {
        let last = path.skip(path.len() - n);
        if n == 0 || last == "."@ {
            if n == path.len() {
                None
            } else {
                file_name(path.take(path.len() - n - 1))
            }
        } else if last == ".."@ {
            None
        } else {
            Some(last)
        }
    }
}

/// The last part of a path.
pub fn path_file_name(path: &str) -> (r: Option<String>)
    ensures
        match r {
            Some(name) => file_name(path@) == Some(name@),
            None => file_name(path@) is None,
        },
{
    let chars = to_chars(path);
    let ghost all = chars@;
    let mut end: usize = chars.len();
    assert(all.take(all.len() as int) =~= all);
    loop
        invariant
            chars@ == all,
            all == path@,
            end <= all.len(),
            file_name(all) == file_name(all.take(end as int)),
        decreases end,
    {
        let mut start: usize = end;
        let ghost rest = all.take(end as int);
        assert(rest.take(end as int) =~= rest);
        while start > 0 && chars[start - 1] != '/'
            invariant
                chars@ == all,
                start <= end <= all.len(),
                rest == all.take(end as int),
                tail_len(rest) == (end - start) + tail_len(rest.take(start as int)),
            decreases start,
        {
            let ghost part = rest.take(start as int);
            assert(part.drop_last() =~= rest.take(start - 1));
            assert(part.last() == all[start - 1]);
            start -= 1;
        }
        proof {
            let part = rest.take(start as int);
            if start > 0 {
                assert(part.last() == all[start - 1]);
            }
            assert(tail_len(part) == 0);
        }
        let last = from_chars(&chars, start, end);
        assert(last@ =~= rest.skip(start as int));
        if start == end || same(last.as_str(), ".") {
            if start == 0 {
                return None;
            }
            assert(rest.take(start - 1) =~= all.take(start - 1));
            end = start - 1;
        } else if same(last.as_str(), "..") {
            return None;
        } else {
            return Some(last);
        }
    }
}

/// What `format!("{:?}")` gives for a `str`.
pub uninterp spec fn quoted(s: Seq<char>) -> Seq<char>;

/// Whether a text holds only letters and digits of ASCII.
pub open spec fn is_alphanumeric(s: Seq<char>) -> bool {
    forall|i: int|
        0 <= i < s.len() ==> ('0' <= #[trigger] s[i] <= '9' || 'A' <= s[i] <= 'Z' || 'a' <= s[i]
            <= 'z')
}

/// Formats a `str` with `{:?}`: the text in quotes, with what cannot be printed
/// escaped. What it gives depends on the text alone. Letters and digits of ASCII stay
/// as they are; which other characters are escaped is not stated.
#[verifier::external_body]
pub(crate) fn quote(s: &str) -> (r: String)
    ensures
        r@ == quoted(s@),
        is_alphanumeric(s@) ==> r@ == seq!['"'] + s@ + seq!['"'],
{
    format!("{:?}", s)
}

/// Texts behind each other, with a comma between two of them.
pub open spec fn listed(items: Seq<Seq<char>>) -> Seq<char>
    decreases items.len(),
{
    if items.len() == 0 {
        Seq::empty()
    } else if items.len() == 1 {
        items[0]
    } else {
        listed(items.drop_last()) + ", "@ + items.last()
    }
}

/// Puts texts behind each other, with a comma between two of them.
pub fn list(items: &Vec<String>) -> (r: String)
    ensures
        r@ == listed(views(items@)),
{
    let mut r = String::new();
    let mut i: usize = 0;
    assert(views(items@).take(0) =~= Seq::<Seq<char>>::empty());
    while i < items.len()
        invariant
            i <= items@.len(),
            r@ == listed(views(items@).take(i as int)),
        decreases items@.len() - i,
    {
        let ghost done = views(items@).take(i + 1);
        assert(done.drop_last() =~= views(items@).take(i as int));
        assert(done.last() == items@[i as int]@);
        if i > 0 {
            r = cat3(r.as_str(), ", ", items[i].as_str());
        } else {
            r = items[i].clone();
        }
        i += 1;
    }
    assert(views(items@).take(i as int) =~= views(items@));
    r
}

/// A character repeated.
pub open spec fn repeated(c: char, n: nat) -> Seq<char> {
    Seq::new(n, |i: int| c)
}

/// A text filled up on the right to a width.
pub open spec fn padded_right(s: Seq<char>, width: nat, c: char) -> Seq<char> {
    if s.len() < width {
        s + repeated(c, (width - s.len()) as nat)
    } else {
        s
    }
}

/// A text filled up on the left to a width.
pub open spec fn padded_left(s: Seq<char>, width: nat, c: char) -> Seq<char> {
    if s.len() < width {
        repeated(c, (width - s.len()) as nat) + s
    } else {
        s
    }
}

/// Writes a character as often as is asked.
pub fn repeat(c: char, n: usize) -> (r: String)
    ensures
        r@ == repeated(c, n as nat),
{
    let mut r = String::new();
    let mut i: usize = 0;
    while i < n
        invariant
            i <= n,
            r@ == repeated(c, i as nat),
        decreases n - i,
    {
        r.push(c);
        i += 1;
        assert(r@ =~= repeated(c, i as nat));
    }
    r
}

/// Fills a text up on the right to a width.
pub fn pad_right(s: &str, width: usize, c: char) -> (r: String)
    ensures
        r@ == padded_right(s@, width as nat, c),
{
    let len: usize = to_chars(s).len();
    if len < width {
        let fill = repeat(c, width - len);
        cat2(s, fill.as_str())
    } else {
        s.to_owned()
    }
}

/// Fills a text up on the left to a width.
pub fn pad_left(s: &str, width: usize, c: char) -> (r: String)
    ensures
        r@ == padded_left(s@, width as nat, c),
{
    let len: usize = to_chars(s).len();
    if len < width {
        let fill = repeat(c, width - len);
        cat2(fill.as_str(), s)
    } else {
        s.to_owned()
    }
}

proof fn lemma_digit_reads_back(d: nat, radix: nat)
    requires
        radix == 10 || radix == 16,
        d < radix,
    ensures
        digit_value(digit_char(d), radix) == Some(d),
        digit_char(d) != '+',
{
}

/// Reading on after one more character.
pub proof fn lemma_scan_push(s: Seq<char>, c: char, radix: nat, max: nat, acc: nat)
    ensures
        scan_digits(s.push(c), radix, max, acc) == (match scan_digits(s, radix, max, acc) {
            Ok(n) => scan_digits(seq![c], radix, max, n),
            Err(e) => Err(e),
        }),
    decreases s.len(),
{
    if s.len() == 0 {
        assert(s.push(c) =~= seq![c]);
    } else {
        let t = s.push(c);
        assert(t[0] == s[0]);
        assert(t.drop_first() =~= s.drop_first().push(c));
        match digit_value(s[0], radix) {
            None => {},
            Some(d) => {
                if acc * radix + d <= max {
                    lemma_scan_push(s.drop_first(), c, radix, max, acc * radix + d);
                }
            },
        }
    }
}

/// Reading a single digit.
pub proof fn lemma_scan_one(c: char, d: nat, radix: nat, max: nat, acc: nat)
    requires
        digit_value(c, radix) == Some(d),
    ensures
        scan_digits(seq![c], radix, max, acc) == (if acc * radix + d > max {
            Err::<nat, NumberError>(NumberError::PosOverflow)
        } else {
            Ok(acc * radix + d)
        }),
{
    let s = seq![c];
    assert(s.drop_first() =~= Seq::<char>::empty());
    assert(s[0] == c);
    reveal_with_fuel(scan_digits, 2);
}

/// The digits of a number are read back as the number.
pub proof fn digits_read_back(n: nat, radix: nat, max: nat)
    requires
        radix == 10 || radix == 16,
        n <= max,
    ensures
        scan_digits(numeral(n, radix), radix, max, 0) == Ok::<nat, NumberError>(n),
        numeral(n, radix).len() > 0,
        numeral(n, radix)[0] != '+',
    decreases n,
{
    if n < radix {
        lemma_digit_reads_back(n, radix);
        lemma_scan_one(digit_char(n), n, radix, max, 0);
    } else {
        let q = n / radix;
        let d = n % radix;
        assert(q < n && q * radix + d == n && d < radix) by (nonlinear_arith)
            requires
                n >= radix,
                radix == 10 || radix == 16,
                q == n / radix,
                d == n % radix,
        ;
        digits_read_back(q, radix, max);
        lemma_digit_reads_back(d, radix);
        let s = numeral(q, radix);
        assert(numeral(n, radix) == s.push(digit_char(d)));
        lemma_scan_push(s, digit_char(d), radix, max, 0);
        lemma_scan_one(digit_char(d), d, radix, max, q);
        assert(s.push(digit_char(d))[0] == s[0]);
    }
}

/// A number that is written out is read back as the number, in base 10 and 16.
pub proof fn written_number_reads_back(n: nat, radix: nat, max: nat)
    requires
        radix == 10 || radix == 16,
        n <= max,
    ensures
        unsigned_number(numeral(n, radix), radix, max) == Ok::<nat, NumberError>(n),
{
    digits_read_back(n, radix, max);
}

/// Zeros before a number do not change what is read.
pub proof fn zeros_do_not_count(s: Seq<char>, k: nat, radix: nat, max: nat)
    requires
        radix == 10 || radix == 16,
    ensures
        scan_digits(repeated('0', k) + s, radix, max, 0) == scan_digits(s, radix, max, 0),
    decreases k,
{
    if k == 0 {
        assert(repeated('0', 0) + s =~= s);
    } else {
        let t = repeated('0', k) + s;
        assert(t[0] == '0');
        assert(t.drop_first() =~= repeated('0', (k - 1) as nat) + s);
        assert(digit_value('0', radix) == Some(0nat));
        assert(0 * radix + 0 == 0) by (nonlinear_arith);
        zeros_do_not_count(s, (k - 1) as nat, radix, max);
    }
}

/// A number that is filled up with zeros is read back as the number.
pub proof fn padded_number_reads_back(n: nat, width: nat, radix: nat, max: nat)
    requires
        radix == 10 || radix == 16,
        n <= max,
    ensures
        unsigned_number(padded_left(numeral(n, radix), width, '0'), radix, max) == Ok::<
            nat,
            NumberError,
        >(n),
{
    let s = numeral(n, radix);
    digits_read_back(n, radix, max);
    if s.len() < width {
        let k = (width - s.len()) as nat;
        zeros_do_not_count(s, k, radix, max);
        assert((repeated('0', k) + s)[0] == '0');
    }
}

} // verus!
