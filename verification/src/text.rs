//! Text helpers: the parts of string handling that the rest of the crate decides by.
//!
//! Texts are modelled as `Seq<char>`; lengths are in characters unless a name says bytes.
use vstd::prelude::*;
use vstd::utf8::encode_utf8;

verus! {

/// `String::push` of the standard library: appends one character.
pub assume_specification[ String::push ](s: &mut String, c: char)
    ensures
        final(s)@ == old(s)@.push(c),
;

/// The text that `str::to_lowercase` gives.
pub uninterp spec fn lowercase(s: Seq<char>) -> Seq<char>;

/// The text that `str::to_uppercase` gives.
pub uninterp spec fn uppercase(s: Seq<char>) -> Seq<char>;

/// The lower case of an ASCII letter; any other character as it is.
pub open spec fn ascii_lower_char(c: char) -> char {
    if 'A' <= c && c <= 'Z' {
        ((c as u8) + 32) as u8 as char
    } else {
        c
    }
}

/// The upper case of an ASCII letter; any other character as it is.
pub open spec fn ascii_upper_char(c: char) -> char {
    if 'a' <= c && c <= 'z' {
        ((c as u8) - 32) as u8 as char
    } else {
        c
    }
}

/// A text with its ASCII letters in lower case.
pub open spec fn ascii_lower(s: Seq<char>) -> Seq<char> {
    s.map_values(|c: char| ascii_lower_char(c))
}

/// A text with its ASCII letters in upper case.
pub open spec fn ascii_upper(s: Seq<char>) -> Seq<char> {
    s.map_values(|c: char| ascii_upper_char(c))
}

/// Whether every character is an ASCII one.
pub open spec fn all_ascii(s: Seq<char>) -> bool {
    forall|i: int| 0 <= i < s.len() ==> (#[trigger] s[i]) as u32 <= 127
}

/// Calls `str::to_lowercase`. Its result depends on the text alone, and on an ASCII text
/// it changes the letters `A` to `Z` and nothing else.
#[verifier::external_body]
pub(crate) fn to_lowercase(s: &str) -> (r: String)
    ensures
        r@ == lowercase(s@),
        all_ascii(s@) ==> r@ == ascii_lower(s@),
{
    s.to_lowercase()
}

/// Calls `str::to_uppercase`. Its result depends on the text alone, and on an ASCII text
/// it changes the letters `a` to `z` and nothing else.
#[verifier::external_body]
pub(crate) fn to_uppercase(s: &str) -> (r: String)
    ensures
        r@ == uppercase(s@),
        all_ascii(s@) ==> r@ == ascii_upper(s@),
{
    s.to_uppercase()
}

/// The characters of a text.
pub fn chars_of(s: &str) -> (r: Vec<char>)
    ensures
        r@ == s@,
{
    let mut v: Vec<char> = Vec::new();
    for c in it: s.chars()
        invariant
            v@ == s@.take(it.index() as int),
            it.seq() == s@,
    {
        v.push(c);
    }
    v
}

/// Whether two texts are the same.
pub fn same_text(a: &str, b: &str) -> (r: bool)
    ensures
        r == (a@ == b@),
{
    a.to_owned() == b.to_owned()
}

/// A copy of a text that may be absent.
pub fn copy_opt(s: &Option<String>) -> (r: Option<String>)
    ensures
        opt_text(r) == opt_text(*s),
        r is Some <==> s is Some,
{
    match s {
        Some(t) => Some(t.clone()),
        None => None,
    }
}

/// What an optional text holds.
pub open spec fn opt_text(s: Option<String>) -> Option<Seq<char>> {
    match s {
        Some(t) => Some(t@),
        None => None,
    }
}

/// What an optional text holds, an absent one counting as empty.
pub open spec fn text_or_empty(s: Option<String>) -> Seq<char> {
    match s {
        Some(t) => t@,
        None => Seq::empty(),
    }
}

/// An optional text, an absent one counting as empty.
pub fn or_empty(s: &Option<String>) -> (r: &str)
    ensures
        r@ == text_or_empty(*s),
{
    match s {
        Some(t) => t.as_str(),
        None => {
            proof {
                reveal_strlit("");
                assert(""@ =~= Seq::<char>::empty());
            }
            ""
        },
    }
}

/// The length of a text in bytes of UTF-8.
pub open spec fn byte_len(s: Seq<char>) -> nat {
    encode_utf8(s).len()
}

/// The length of a text in bytes of UTF-8.
pub fn len_bytes(s: &str) -> (r: usize)
    ensures
        r == byte_len(s@),
{
    s.as_bytes().len()
}

/// The characters with the Unicode property `White_Space`.
pub open spec fn is_space(c: char) -> bool {
    let n = c as u32;
    ||| 0x9 <= n <= 0xd
    ||| n == 0x20
    ||| n == 0x85
    ||| n == 0xa0
    ||| n == 0x1680
    ||| 0x2000 <= n <= 0x200a
    ||| n == 0x2028
    ||| n == 0x2029
    ||| n == 0x202f
    ||| n == 0x205f
    ||| n == 0x3000
}

/// Whether a character is white space.
pub fn is_whitespace(c: char) -> (r: bool)
    ensures
        r == is_space(c),
{
    let n: u32 = c as u32;
    (0x9 <= n && n <= 0xd) || n == 0x20 || n == 0x85 || n == 0xa0 || n == 0x1680 || (0x2000 <= n
        && n <= 0x200a) || n == 0x2028 || n == 0x2029 || n == 0x202f || n == 0x205f || n == 0x3000
}

/// A text without the white space it starts with.
pub open spec fn trim_start_of(s: Seq<char>) -> Seq<char>
    decreases s.len(),
{
    if s.len() > 0 && is_space(s[0]) {
        trim_start_of(s.skip(1))
    } else {
        s
    }
}

/// A text without the white space it ends with.
pub open spec fn trim_end_of(s: Seq<char>) -> Seq<char>
    decreases s.len(),
{
    if s.len() > 0 && is_space(s.last()) {
        trim_end_of(s.drop_last())
    } else {
        s
    }
}

/// A text without the white space around it.
pub open spec fn trimmed(s: Seq<char>) -> Seq<char> {
    trim_end_of(trim_start_of(s))
}

/// Trimming leaves a text that neither starts nor ends with white space.
pub proof fn trimmed_has_no_outer_space(s: Seq<char>)
    ensures
        trimmed(s).len() > 0 ==> !is_space(trimmed(s)[0]) && !is_space(trimmed(s).last()),
{
    lemma_trim_start_head(s);
    lemma_trim_end_tail(trim_start_of(s));
}

/// Trimming a trimmed text changes nothing.
pub proof fn trimmed_is_idempotent(s: Seq<char>)
    ensures
        trimmed(trimmed(s)) == trimmed(s),
{
    trimmed_has_no_outer_space(s);
}

proof fn lemma_trim_start_head(s: Seq<char>)
    ensures
        trim_start_of(s).len() > 0 ==> !is_space(trim_start_of(s)[0]),
    decreases s.len(),
{
    if s.len() > 0 && is_space(s[0]) {
        lemma_trim_start_head(s.skip(1));
    }
}

proof fn lemma_trim_end_tail(s: Seq<char>)
    ensures
        trim_end_of(s).len() > 0 ==> !is_space(trim_end_of(s).last()),
        trim_end_of(s).len() <= s.len(),
        trim_end_of(s) == s.take(trim_end_of(s).len() as int),
    decreases s.len(),
{
    if s.len() > 0 && is_space(s.last()) {
        lemma_trim_end_tail(s.drop_last());
        assert(s.drop_last().take(trim_end_of(s).len() as int) =~= s.take(
            trim_end_of(s).len() as int,
        ));
    } else {
        assert(s.take(s.len() as int) =~= s);
    }
}

/// A text without the white space around it.
pub fn trim(s: &str) -> (r: &str)
    ensures
        r@ == trimmed(s@),
{
    let v = chars_of(s);
    let n: usize = v.len();
    let mut i: usize = 0;
    proof {
        assert(s@.skip(0) =~= s@);
    }
    while i < n && is_whitespace(v[i])
        invariant
            i <= n == v.len(),
            v@ == s@,
            trim_start_of(s@) == trim_start_of(s@.skip(i as int)),
        decreases n - i,
    {
        proof {
            assert(s@.skip(i as int).skip(1) =~= s@.skip(i + 1));
        }
        i = i + 1;
    }
    let mut j: usize = n;
    proof {
        assert(s@.subrange(i as int, n as int) =~= s@.skip(i as int));
    }
    while i < j && is_whitespace(v[j - 1])
        invariant
            i <= j <= n == v.len(),
            v@ == s@,
            trim_end_of(s@.subrange(i as int, j as int)) == trimmed(s@),
        decreases j,
    {
        proof {
            assert(s@.subrange(i as int, j as int).drop_last() =~= s@.subrange(i as int, j - 1));
        }
        j = j - 1;
    }
    s.substring_char(i, j)
}

/// Whether nothing but white space is there.
pub fn is_blank(s: &str) -> (r: bool)
    ensures
        r == (trimmed(s@).len() == 0),
{
    trim(s).is_empty()
}

/// A text with its ASCII letters in lower case.
pub fn to_ascii_lowercase(s: &str) -> (r: String)
    ensures
        r@ == ascii_lower(s@),
{
    let v = chars_of(s);
    let mut out = String::new();
    let mut i: usize = 0;
    while i < v.len()
        invariant
            i <= v.len(),
            v@ == s@,
            out@ == ascii_lower(s@.take(i as int)),
        decreases v.len() - i,
    {
        let c = v[i];
        let d: char = if 'A' <= c && c <= 'Z' {
            ((c as u8) + 32) as char
        } else {
            c
        };
        out.push(d);
        proof {
            assert(ascii_lower(s@.take(i + 1)) =~= ascii_lower(s@.take(i as int)).push(d));
        }
        i = i + 1;
    }
    proof {
        assert(s@.take(v.len() as int) =~= s@);
    }
    out
}

/// Whether two texts are the same up to the case of ASCII letters.
pub fn eq_ignore_ascii_case(a: &str, b: &str) -> (r: bool)
    ensures
        r == (ascii_lower(a@) == ascii_lower(b@)),
{
    to_ascii_lowercase(a) == to_ascii_lowercase(b)
}

/// Whether `v` holds `p` at `at`.
pub open spec fn holds_at(v: Seq<char>, p: Seq<char>, at: int) -> bool {
    0 <= at && at + p.len() <= v.len() && v.subrange(at, at + p.len()) == p
}

fn match_at(v: &Vec<char>, p: &Vec<char>, at: usize) -> (r: bool)
    ensures
        r == holds_at(v@, p@, at as int),
{
    if at > v.len() || p.len() > v.len() - at {
        return false;
    }
    let mut i: usize = 0;
    while i < p.len()
        invariant
            i <= p.len(),
            at + p.len() <= v.len(),
            forall|k: int| 0 <= k < i ==> v@[at + k] == p@[k],
        decreases p.len() - i,
    {
        if v[at + i] != p[i] {
            proof {
                assert(v@.subrange(at as int, at + p@.len())[i as int] == v@[at + i]);
            }
            return false;
        }
        i = i + 1;
    }
    proof {
        assert(v@.subrange(at as int, at + p@.len()) =~= p@);
    }
    true
}

/// Whether a text starts with another.
pub open spec fn begins_with(s: Seq<char>, prefix: Seq<char>) -> bool {
    holds_at(s, prefix, 0)
}

/// Whether a text starts with another.
pub fn starts_with(s: &str, prefix: &str) -> (r: bool)
    ensures
        r == begins_with(s@, prefix@),
{
    match_at(&chars_of(s), &chars_of(prefix), 0)
}

/// What follows a prefix, if the text starts with it.
pub fn strip_prefix<'a>(s: &'a str, prefix: &str) -> (r: Option<&'a str>)
    ensures
        r is Some <==> begins_with(s@, prefix@),
        r matches Some(t) ==> t@ == s@.skip(prefix@.len() as int),
{
    if starts_with(s, prefix) {
        let n: usize = s.unicode_len();
        let k: usize = prefix.unicode_len();
        proof {
            assert(s@.subrange(k as int, n as int) =~= s@.skip(k as int));
        }
        Some(s.substring_char(k, n))
    } else {
        None
    }
}

/// Whether a text occurs in another.
pub open spec fn occurs_in(s: Seq<char>, p: Seq<char>) -> bool {
    exists|at: int| #[trigger] holds_at(s, p, at)
}

/// Whether a text occurs in another.
pub fn contains_text(s: &str, p: &str) -> (r: bool)
    ensures
        r == occurs_in(s@, p@),
{
    let v = chars_of(s);
    let q = chars_of(p);
    let mut i: usize = 0;
    while i < v.len()
        invariant
            i <= v.len(),
            v@ == s@,
            q@ == p@,
            forall|k: int| 0 <= k < i ==> !holds_at(v@, q@, k),
        decreases v.len() - i,
    {
        if match_at(&v, &q, i) {
            proof {
                assert(holds_at(s@, p@, i as int));
            }
            return true;
        }
        i = i + 1;
    }
    let last = match_at(&v, &q, i);
    proof {
        if last {
            assert(holds_at(s@, p@, i as int));
        }
    }
    last
}

/// Whether a character occurs in a text.
pub fn contains_char(s: &str, c: char) -> (r: bool)
    ensures
        r == s@.contains(c),
{
    let v = chars_of(s);
    let mut i: usize = 0;
    while i < v.len()
        invariant
            i <= v.len(),
            v@ == s@,
            forall|k: int| 0 <= k < i ==> v@[k] != c,
        decreases v.len() - i,
    {
        if v[i] == c {
            return true;
        }
        i = i + 1;
    }
    false
}

/// The position of the last `c`, or -1.
pub open spec fn last_position(s: Seq<char>, c: char) -> int
    decreases s.len(),
{
    if s.len() == 0 {
        -1
    } else if s.last() == c {
        s.len() - 1
    } else {
        last_position(s.drop_last(), c)
    }
}

/// What follows the last `c`; the whole text if there is none.
pub open spec fn after_last(s: Seq<char>, c: char) -> Seq<char> {
    s.skip(last_position(s, c) + 1)
}

/// What follows the last `c`; the whole text if there is none.
pub fn text_after_last(s: &str, c: char) -> (r: &str)
    ensures
        r@ == after_last(s@, c),
{
    let v = chars_of(s);
    let n: usize = v.len();
    let mut i: usize = n;
    proof {
        assert(s@.take(n as int) =~= s@);
    }
    while i > 0 && v[i - 1] != c
        invariant
            i <= n == v.len(),
            v@ == s@,
            last_position(s@.take(i as int), c) == last_position(s@, c),
        decreases i,
    {
        proof {
            assert(s@.take(i as int).drop_last() =~= s@.take(i - 1));
        }
        i = i - 1;
    }
    proof {
        assert(last_position(s@, c) == i - 1);
        assert(s@.subrange(i as int, n as int) =~= s@.skip(i as int));
    }
    s.substring_char(i, n)
}

/// A text without the copies of `c` that it ends with.
pub open spec fn without_trailing(s: Seq<char>, c: char) -> Seq<char>
    decreases s.len(),
{
    if s.len() > 0 && s.last() == c {
        without_trailing(s.drop_last(), c)
    } else {
        s
    }
}

/// A text without the copies of `c` that it ends with.
pub fn trim_end_char(s: &str, c: char) -> (r: &str)
    ensures
        r@ == without_trailing(s@, c),
{
    let v = chars_of(s);
    let mut j: usize = v.len();
    proof {
        assert(s@.take(j as int) =~= s@);
    }
    while j > 0 && v[j - 1] == c
        invariant
            j <= v.len(),
            v@ == s@,
            without_trailing(s@.take(j as int), c) == without_trailing(s@, c),
        decreases j,
    {
        proof {
            assert(s@.take(j as int).drop_last() =~= s@.take(j - 1));
        }
        j = j - 1;
    }
    proof {
        assert(s@.subrange(0, j as int) =~= s@.take(j as int));
    }
    s.substring_char(0, j)
}

/// A text without the copies of a non-empty `p` that it starts with.
pub open spec fn without_leading(s: Seq<char>, p: Seq<char>) -> Seq<char>
    decreases s.len(),
{
    if p.len() > 0 && begins_with(s, p) {
        without_leading(s.skip(p.len() as int), p)
    } else {
        s
    }
}

/// A text without the copies of `p` that it starts with; an empty `p` removes nothing.
pub fn trim_start_text<'a>(s: &'a str, p: &str) -> (r: &'a str)
    ensures
        r@ == without_leading(s@, p@),
{
    let v = chars_of(s);
    let q = chars_of(p);
    let n: usize = v.len();
    let mut i: usize = 0;
    proof {
        assert(s@.skip(0) =~= s@);
    }
    while q.len() > 0 && match_at(&v, &q, i)
        invariant
            i <= n == v.len(),
            v@ == s@,
            q@ == p@,
            without_leading(s@.skip(i as int), p@) == without_leading(s@, p@),
        decreases n - i,
    {
        proof {
            assert(s@.skip(i as int).subrange(0, p@.len() as int) =~= s@.subrange(
                i as int,
                i + p@.len(),
            ));
            assert(s@.skip(i as int).skip(p@.len() as int) =~= s@.skip(i + p@.len()));
        }
        i = i + q.len();
    }
    proof {
        if p@.len() > 0 && begins_with(s@.skip(i as int), p@) {
            assert(s@.skip(i as int).subrange(0, p@.len() as int) =~= s@.subrange(
                i as int,
                i + p@.len(),
            ));
        }
        assert(s@.subrange(i as int, n as int) =~= s@.skip(i as int));
    }
    s.substring_char(i, n)
}

/// Whether a character is a decimal digit.
pub open spec fn is_digit(c: char) -> bool {
    '0' <= c && c <= '9'
}

/// The number that decimal digits write.
pub open spec fn digits_value(s: Seq<char>) -> nat
    decreases s.len(),
{
    if s.len() == 0 {
        0
    } else {
        10 * digits_value(s.drop_last()) + (s.last() as u32 - '0' as u32) as nat
    }
}

/// Whether a text is one or more decimal digits.
pub open spec fn all_digits(s: Seq<char>) -> bool {
    s.len() > 0 && forall|i: int| 0 <= i < s.len() ==> is_digit(#[trigger] s[i])
}

/// A text without one leading `+`.
pub open spec fn without_plus(s: Seq<char>) -> Seq<char> {
    if s.len() > 0 && s[0] == '+' {
        s.skip(1)
    } else {
        s
    }
}

/// The number that a text writes, if it is an optional `+` and decimal digits with a
/// value up to `max`.
pub open spec fn number_in(s: Seq<char>, max: nat) -> Option<nat> {
    let d = without_plus(s);
    if all_digits(d) && digits_value(d) <= max {
        Some(digits_value(d))
    } else {
        None
    }
}

proof fn lemma_digits_value_grows(s: Seq<char>, i: int)
    requires
        0 <= i <= s.len(),
        forall|k: int| 0 <= k < s.len() ==> is_digit(#[trigger] s[k]),
    ensures
        digits_value(s.take(i)) <= digits_value(s),
    decreases s.len(),
{
    if i == s.len() {
        assert(s.take(i) =~= s);
    } else {
        lemma_digits_value_grows(s.drop_last(), i);
        assert(s.drop_last().take(i) =~= s.take(i));
    }
}

/// Reads a decimal number up to `max`, as the integer types of the standard library do.
pub fn parse_number(s: &str, max: u64) -> (r: Option<u64>)
    ensures
        match r {
            Some(n) => number_in(s@, max as nat) == Some(n as nat),
            None => number_in(s@, max as nat) is None,
        },
{
    let v = chars_of(s);
    let start: usize = if v.len() > 0 && v[0] == '+' {
        1
    } else {
        0
    };
    let ghost d = without_plus(s@);
    proof {
        assert(s@.skip(0) =~= s@);
        assert(d == s@.skip(start as int));
    }
    if start == v.len() {
        return None;
    }
    let mut i: usize = start;
    let mut n: u64 = 0;
    proof {
        assert(d.take(0) =~= Seq::<char>::empty());
    }
    while i < v.len()
        invariant
            start <= i <= v.len(),
            start <= 1,
            v@ == s@,
            d == s@.skip(start as int),
            d == without_plus(s@),
            d.len() > 0,
            forall|k: int| 0 <= k < i - start ==> is_digit(#[trigger] d[k]),
            n == digits_value(d.take(i - start)),
            n <= max,
        decreases v.len() - i,
    {
        let c = v[i];
        proof {
            assert(d[i - start] == c);
        }
        if !('0' <= c && c <= '9') {
            return None;
        }
        let k: u64 = (c as u32 - '0' as u32) as u64;
        let next: u128 = (n as u128) * 10 + (k as u128);
        proof {
            assert(d.take(i + 1 - start).drop_last() =~= d.take(i - start));
            assert(next == digits_value(d.take(i + 1 - start)));
        }
        if next > max as u128 {
            proof {
                if all_digits(d) {
                    lemma_digits_value_grows(d, i + 1 - start);
                }
            }
            return None;
        }
        n = next as u64;
        i = i + 1;
    }
    proof {
        assert(d.take(i - start) =~= d);
    }
    Some(n)
}

/// The decimal digits of a number.
pub open spec fn decimal(n: nat) -> Seq<char>
    decreases n,
{
    if n < 10 {
        seq![digit_char(n)]
    } else {
        decimal(n / 10).push(digit_char(n % 10))
    }
}

/// The digit that writes a number under ten.
pub open spec fn digit_char(n: nat) -> char {
    ('0' as u32 + n) as char
}

/// Reading back the decimal digits of a number gives the number.
pub proof fn decimal_reads_back(n: nat)
    ensures
        all_digits(decimal(n)),
        digits_value(decimal(n)) == n,
        number_in(decimal(n), n) == Some(n),
    decreases n,
{
    if n >= 10 {
        decimal_reads_back(n / 10);
        let s = decimal(n);
        assert(s.drop_last() =~= decimal(n / 10));
        assert(s.last() == digit_char(n % 10));
        assert forall|i: int| 0 <= i < s.len() implies is_digit(#[trigger] s[i]) by {
            if i < s.len() - 1 {
                assert(s[i] == decimal(n / 10)[i]);
            }
        }
    } else {
        reveal_with_fuel(digits_value, 2);
        assert(decimal(n).drop_last() =~= Seq::<char>::empty());
    }
    assert(decimal(n)[0] != '+');
}

/// Appends the decimal digits of a number.
pub fn push_decimal(out: &mut String, n: u64)
    ensures
        final(out)@ == old(out)@ + decimal(n as nat),
    decreases n,
{
    if n >= 10 {
        push_decimal(out, n / 10);
    }
    let d: u8 = (n % 10) as u8;
    out.push((48u8 + d) as char);
    proof {
        if n >= 10 {
            assert(old(out)@ + decimal(n as nat) =~= (old(out)@ + decimal((n / 10) as nat)).push(
                digit_char((n % 10) as nat),
            ));
        } else {
            assert(old(out)@ + decimal(n as nat) =~= old(out)@.push(digit_char(n as nat)));
        }
    }
}

/// The decimal digits of a number.
pub fn decimal_text(n: u64) -> (r: String)
    ensures
        r@ == decimal(n as nat),
{
    let mut out = String::new();
    push_decimal(&mut out, n);
    proof {
        assert(Seq::<char>::empty() + decimal(n as nat) =~= decimal(n as nat));
    }
    out
}

/// A signed number in decimal, with a `-` before a negative one.
pub open spec fn signed_decimal(n: int) -> Seq<char> {
    if n < 0 {
        seq!['-'] + decimal((-n) as nat)
    } else {
        decimal(n as nat)
    }
}

/// Appends a signed number in decimal.
pub fn push_signed(out: &mut String, n: i64)
    ensures
        final(out)@ == old(out)@ + signed_decimal(n as int),
{
    if n < 0 {
        out.push('-');
        let m: u64 = (-(n as i128)) as u64;
        push_decimal(out, m);
        proof {
            assert(old(out)@.push('-') + decimal(m as nat) =~= old(out)@ + (seq!['-'] + decimal(
                m as nat,
            )));
        }
    } else {
        push_decimal(out, n as u64);
    }
}

/// How many characters come before the first white space.
pub open spec fn word_len(s: Seq<char>) -> nat
    decreases s.len(),
{
    if s.len() == 0 || is_space(s[0]) {
        0
    } else {
        1 + word_len(s.skip(1))
    }
}

proof fn lemma_word_len(s: Seq<char>, n: int)
    requires
        0 <= n <= s.len(),
        forall|k: int| 0 <= k < n ==> !is_space(#[trigger] s[k]),
        n == s.len() || is_space(s[n]),
    ensures
        word_len(s) == n,
    decreases s.len(),
{
    if n > 0 {
        assert forall|k: int| 0 <= k < n - 1 implies !is_space(#[trigger] s.skip(1)[k]) by {
            assert(s.skip(1)[k] == s[k + 1]);
        }
        lemma_word_len(s.skip(1), n - 1);
    }
}

proof fn lemma_word_len_bound(s: Seq<char>)
    ensures
        word_len(s) <= s.len(),
    decreases s.len(),
{
    if s.len() > 0 && !is_space(s[0]) {
        lemma_word_len_bound(s.skip(1));
    }
}

proof fn lemma_trim_start_len(s: Seq<char>)
    ensures
        trim_start_of(s).len() <= s.len(),
    decreases s.len(),
{
    if s.len() > 0 && is_space(s[0]) {
        lemma_trim_start_len(s.skip(1));
    }
}

/// The words of a text: what stands between white space.
pub open spec fn words(s: Seq<char>) -> Seq<Seq<char>>
    decreases s.len(),
    via words_terminates
{
    let t = trim_start_of(s);
    if t.len() == 0 {
        Seq::empty()
    } else {
        seq![t.take(word_len(t) as int)] + words(t.skip(word_len(t) as int))
    }
}

#[via_fn]
proof fn words_terminates(s: Seq<char>) {
    let t = trim_start_of(s);
    lemma_trim_start_len(s);
    lemma_trim_start_head(s);
    lemma_word_len_bound(t);
}

/// Texts joined by single spaces.
pub open spec fn spaced(ws: Seq<Seq<char>>) -> Seq<char>
    decreases ws.len(),
{
    if ws.len() == 0 {
        Seq::empty()
    } else if ws.len() == 1 {
        ws[0]
    } else {
        spaced(ws.drop_last()) + seq![' '] + ws.last()
    }
}

/// The words of a text joined by single spaces.
pub fn collapse_spaces(s: &str) -> (r: String)
    ensures
        r@ == spaced(words(s@)),
{
    let v = chars_of(s);
    let n: usize = v.len();
    let mut out = String::new();
    let mut i: usize = 0;
    let ghost mut done: Seq<Seq<char>> = Seq::empty();
    let mut first = true;
    proof {
        assert(s@.skip(0) =~= s@);
        assert(done + words(s@) =~= words(s@));
    }
    loop
        invariant
            i <= n == v.len(),
            v@ == s@,
            first == (done.len() == 0),
            done + words(s@.skip(i as int)) == words(s@),
            out@ == spaced(done),
        ensures
            out@ == spaced(words(s@)),
        decreases n - i,
    {
        let ghost before = s@.skip(i as int);
        let ghost i0 = i;
        while i < n && is_whitespace(v[i])
            invariant
                i0 <= i <= n == v.len(),
                v@ == s@,
                trim_start_of(s@.skip(i as int)) == trim_start_of(before),
            decreases n - i,
        {
            proof {
                assert(s@.skip(i as int).skip(1) =~= s@.skip(i + 1));
            }
            i = i + 1;
        }
        let ghost t = s@.skip(i as int);
        proof {
            assert(trim_start_of(before) == t);
        }
        if i == n {
            proof {
                assert(words(before) =~= Seq::empty());
                assert(done + words(before) =~= done);
            }
            break;
        }
        let start: usize = i;
        if !first {
            out.push(' ');
        }
        let ghost head = out@;
        while i < n && !is_whitespace(v[i])
            invariant
                start <= i <= n == v.len(),
                v@ == s@,
                t == s@.skip(start as int),
                forall|k: int| start <= k < i ==> !is_space(#[trigger] v@[k]),
                out@ == head + s@.subrange(start as int, i as int),
            decreases n - i,
        {
            out.push(v[i]);
            proof {
                assert(head + s@.subrange(start as int, i + 1) =~= (head + s@.subrange(
                    start as int,
                    i as int,
                )).push(v@[i as int]));
            }
            i = i + 1;
        }
        proof {
            let w = t.take(i - start);
            assert forall|k: int| 0 <= k < i - start implies !is_space(#[trigger] t[k]) by {
                assert(t[k] == v@[start + k]);
            }
            lemma_word_len(t, i - start);
            assert(t.skip(i - start) =~= s@.skip(i as int));
            assert(words(before) == seq![w] + words(s@.skip(i as int)));
            let more = done.push(w);
            assert(more + words(s@.skip(i as int)) =~= done + words(before));
            assert(s@.subrange(start as int, i as int) =~= w);
            assert(more.drop_last() =~= done);
            if done.len() == 0 {
                assert(out@ =~= w);
            } else {
                assert(out@ =~= spaced(done) + seq![' '] + w);
            }
            assert(out@ == spaced(more));
            done = more;
        }
        first = false;
    }
    out
}

/// Whether a text is a word: not empty, and without white space.
pub open spec fn is_word(w: Seq<char>) -> bool {
    w.len() > 0 && forall|i: int| 0 <= i < w.len() ==> !is_space(#[trigger] w[i])
}

/// Whether texts are words.
pub open spec fn all_words(ws: Seq<Seq<char>>) -> bool {
    forall|k: int| 0 <= k < ws.len() ==> is_word(#[trigger] ws[k])
}

proof fn lemma_word_len_chars(s: Seq<char>)
    ensures
        word_len(s) <= s.len(),
        forall|k: int| 0 <= k < word_len(s) ==> !is_space(#[trigger] s[k]),
        word_len(s) < s.len() ==> is_space(s[word_len(s) as int]),
    decreases s.len(),
{
    if s.len() > 0 && !is_space(s[0]) {
        let rest = s.skip(1);
        lemma_word_len_chars(rest);
        assert forall|k: int| 0 <= k < word_len(s) implies !is_space(#[trigger] s[k]) by {
            if k > 0 {
                assert(rest[k - 1] == s[k]);
            }
        }
        if word_len(s) < s.len() {
            assert(rest[word_len(rest) as int] == s[word_len(s) as int]);
        }
    }
}

proof fn lemma_trim_start_chars(s: Seq<char>)
    ensures
        forall|c: char| trim_start_of(s).contains(c) ==> #[trigger] s.contains(c),
    decreases s.len(),
{
    if s.len() > 0 && is_space(s[0]) {
        lemma_trim_start_chars(s.skip(1));
        assert forall|c: char| trim_start_of(s).contains(c) implies #[trigger] s.contains(c) by {
            assert(s.skip(1).contains(c));
            let i = choose|i: int| 0 <= i < s.skip(1).len() && s.skip(1)[i] == c;
            assert(s[i + 1] == c);
        }
    }
}

/// The words of a text are words, made of its characters.
pub proof fn words_are_words(s: Seq<char>)
    ensures
        all_words(words(s)),
        forall|k: int, i: int|
            0 <= k < words(s).len() && 0 <= i < words(s)[k].len() ==> s.contains(
                #[trigger] words(s)[k][i],
            ),
    decreases s.len(),
{
    let t = trim_start_of(s);
    lemma_trim_start_len(s);
    lemma_trim_start_head(s);
    lemma_trim_start_chars(s);
    if t.len() > 0 {
        let n = word_len(t) as int;
        lemma_word_len_chars(t);
        let rest = t.skip(n);
        words_are_words(rest);
        let ws = words(s);
        assert(ws == seq![t.take(n)] + words(rest));
        assert forall|k: int| 0 <= k < ws.len() implies is_word(#[trigger] ws[k]) by {
            if k == 0 {
                assert forall|i: int| 0 <= i < ws[0].len() implies !is_space(
                    #[trigger] ws[0][i],
                ) by {
                    assert(ws[0][i] == t[i]);
                }
            } else {
                assert(ws[k] == words(rest)[k - 1]);
            }
        }
        assert forall|k: int, i: int| 0 <= k < ws.len() && 0 <= i < ws[k].len() implies s.contains(
            #[trigger] ws[k][i],
        ) by {
            if k == 0 {
                assert(ws[0][i] == t[i]);
                assert(t.contains(ws[0][i]));
            } else {
                let c = words(rest)[k - 1][i];
                assert(ws[k] == words(rest)[k - 1]);
                assert(rest.contains(c));
                let j = choose|j: int| 0 <= j < rest.len() && rest[j] == c;
                assert(t[n + j] == c);
                assert(t.contains(c));
            }
        }
    }
}

proof fn lemma_spaced_front(ws: Seq<Seq<char>>)
    requires
        ws.len() >= 2,
    ensures
        spaced(ws) == ws[0] + seq![' '] + spaced(ws.skip(1)),
    decreases ws.len(),
{
    if ws.len() == 2 {
        assert(spaced(ws.drop_last()) == ws[0]);
        assert(ws.skip(1).len() == 1);
    } else {
        lemma_spaced_front(ws.drop_last());
        assert(ws.drop_last().skip(1) =~= ws.skip(1).drop_last());
        assert(ws.skip(1).last() == ws.last());
        assert(spaced(ws) =~= ws[0] + seq![' '] + spaced(ws.skip(1)));
    }
}

/// Words joined by single spaces are the words of the joined text.
pub proof fn joined_words_come_apart(ws: Seq<Seq<char>>)
    requires
        all_words(ws),
    ensures
        words(spaced(ws)) == ws,
    decreases ws.len(),
{
    let s = spaced(ws);
    if ws.len() == 0 {
        assert(words(s) =~= ws);
    } else {
        let w = ws[0];
        assert(is_word(w));
        assert(!is_space(w[0]));
        if ws.len() == 1 {
            lemma_word_len(s, s.len() as int);
            assert(s.take(s.len() as int) =~= w);
            let rest = s.skip(s.len() as int);
            assert(rest.len() == 0);
            assert(words(rest) =~= Seq::empty());
            assert(words(s) =~= ws);
        } else {
            lemma_spaced_front(ws);
            let more = ws.skip(1);
            assert forall|k: int| 0 <= k < more.len() implies is_word(#[trigger] more[k]) by {
                assert(more[k] == ws[k + 1]);
            }
            joined_words_come_apart(more);
            let n = w.len() as int;
            assert(s[0] == w[0]);
            assert forall|k: int| 0 <= k < n implies !is_space(#[trigger] s[k]) by {
                assert(s[k] == w[k]);
            }
            assert(s[n] == ' ');
            assert(is_space(' '));
            lemma_word_len(s, n);
            assert(s.take(n) =~= w);
            let rest = s.skip(n);
            assert(rest[0] == ' ');
            assert(rest.skip(1) =~= spaced(more));
            assert(trim_start_of(rest) == trim_start_of(spaced(more)));
            assert(words(rest) == words(spaced(more)));
            assert(words(s) =~= seq![w] + more);
            assert(words(s) =~= ws);
        }
    }
}

/// Whether a text has no white space but single spaces between words.
pub open spec fn is_tidy(s: Seq<char>) -> bool {
    &&& s.len() > 0 ==> !is_space(s[0]) && !is_space(s.last())
    &&& forall|i: int|
        0 <= i < s.len() && is_space(#[trigger] s[i]) ==> s[i] == ' ' && 0 < i < s.len() - 1
            && !is_space(s[i + 1])
}

/// Words joined by single spaces have no other white space.
pub proof fn joined_words_are_tidy(ws: Seq<Seq<char>>)
    requires
        all_words(ws),
    ensures
        is_tidy(spaced(ws)),
        ws.len() > 0 ==> spaced(ws).len() > 0,
        forall|i: int|
            0 <= i < spaced(ws).len() ==> (#[trigger] spaced(ws)[i] == ' ' || exists|k: int, j: int|
                0 <= k < ws.len() && 0 <= j < ws[k].len() && #[trigger] ws[k][j] == spaced(ws)[i]),
    decreases ws.len(),
{
    let s = spaced(ws);
    if ws.len() == 1 {
        assert(is_word(ws[0]));
        assert forall|i: int| 0 <= i < s.len() implies (#[trigger] s[i] == ' ' || exists|k: int,
            j: int|
            0 <= k < ws.len() && 0 <= j < ws[k].len() && #[trigger] ws[k][j] == s[i]) by {
            assert(ws[0][i] == s[i]);
        }
    } else if ws.len() > 1 {
        let front = ws.drop_last();
        let w = ws.last();
        assert forall|k: int| 0 <= k < front.len() implies is_word(#[trigger] front[k]) by {
            assert(front[k] == ws[k]);
        }
        assert(is_word(ws[ws.len() - 1]));
        joined_words_are_tidy(front);
        let a = spaced(front);
        assert(s == a + seq![' '] + w);
        assert(s[0] == a[0]);
        assert(s.last() == w[w.len() - 1]);
        assert forall|i: int| 0 <= i < s.len() && is_space(#[trigger] s[i]) implies s[i] == ' ' && 0
            < i < s.len() - 1 && !is_space(s[i + 1]) by {
            if i < a.len() {
                assert(s[i] == a[i]);
                assert(s[i + 1] == a[i + 1]);
            } else if i == a.len() {
                assert(s[i + 1] == w[0]);
            } else {
                assert(s[i] == w[i - a.len() - 1]);
            }
        }
        assert forall|i: int| 0 <= i < s.len() implies (#[trigger] s[i] == ' ' || exists|k: int,
            j: int|
            0 <= k < ws.len() && 0 <= j < ws[k].len() && #[trigger] ws[k][j] == s[i]) by {
            if i < a.len() {
                assert(s[i] == a[i]);
                if a[i] != ' ' {
                    let (k, j) = choose|k: int, j: int|
                        0 <= k < front.len() && 0 <= j < front[k].len() && #[trigger] front[k][j]
                            == a[i];
                    assert(ws[k][j] == s[i]);
                }
            } else if i > a.len() {
                assert(ws[ws.len() - 1][i - a.len() - 1] == s[i]);
            }
        }
    }
}

/// Collapsing white space leaves nothing to collapse.
pub proof fn collapsing_is_idempotent(s: Seq<char>)
    ensures
        spaced(words(spaced(words(s)))) == spaced(words(s)),
        words(spaced(words(s))) == words(s),
        is_tidy(spaced(words(s))),
{
    words_are_words(s);
    joined_words_come_apart(words(s));
    joined_words_are_tidy(words(s));
}

/// Changing characters one by one, white space into white space and others into others, keeps
/// the number of words.
pub proof fn words_are_counted_by_their_gaps(s: Seq<char>, t: Seq<char>)
    requires
        s.len() == t.len(),
        forall|i: int| 0 <= i < s.len() ==> is_space(#[trigger] s[i]) == is_space(t[i]),
    ensures
        words(s).len() == words(t).len(),
    decreases s.len(),
{
    if s.len() > 0 {
        if is_space(s[0]) {
            let (a, b) = (s.skip(1), t.skip(1));
            assert forall|i: int| 0 <= i < a.len() implies is_space(#[trigger] a[i]) == is_space(
                b[i],
            ) by {
                assert(a[i] == s[i + 1]);
                assert(b[i] == t[i + 1]);
            }
            words_are_counted_by_their_gaps(a, b);
            assert(trim_start_of(s) == trim_start_of(a));
            assert(trim_start_of(t) == trim_start_of(b));
            assert(words(s) == words(a));
            assert(words(t) == words(b));
        } else {
            let n = word_len(s) as int;
            lemma_word_len_chars(s);
            assert forall|k: int| 0 <= k < n implies !is_space(#[trigger] t[k]) by {
                assert(!is_space(s[k]));
            }
            if n < s.len() {
                assert(is_space(s[n]));
            }
            lemma_word_len(t, n);
            let (a, b) = (s.skip(n), t.skip(n));
            assert forall|i: int| 0 <= i < a.len() implies is_space(#[trigger] a[i]) == is_space(
                b[i],
            ) by {
                assert(a[i] == s[n + i]);
                assert(b[i] == t[n + i]);
            }
            assert(n > 0);
            words_are_counted_by_their_gaps(a, b);
            assert(words(s) == seq![s.take(n)] + words(a));
            assert(words(t) == seq![t.take(n)] + words(b));
        }
    }
}

/// The parts of a text between copies of `c`: one more than there are copies.
pub open spec fn parts(s: Seq<char>, c: char) -> Seq<Seq<char>>
    decreases s.len(),
{
    if s.len() == 0 {
        seq![Seq::empty()]
    } else {
        let p = parts(s.drop_last(), c);
        if s.last() == c {
            p.push(Seq::empty())
        } else {
            p.drop_last().push(p.last().push(s.last()))
        }
    }
}

proof fn lemma_parts_nonempty(s: Seq<char>, c: char)
    ensures
        parts(s, c).len() > 0,
    decreases s.len(),
{
    if s.len() > 0 {
        lemma_parts_nonempty(s.drop_last(), c);
    }
}

/// The parts of a text between copies of `c`.
pub fn split_text(s: &str, c: char) -> (r: Vec<String>)
    ensures
        r@.map_values(|t: String| t@) == parts(s@, c),
{
    let v = chars_of(s);
    let mut done: Vec<String> = Vec::new();
    let mut cur = String::new();
    let mut i: usize = 0;
    let ghost view = |t: String| t@;
    proof {
        assert(done@.map_values(view).push(cur@) =~= seq![Seq::<char>::empty()]);
    }
    while i < v.len()
        invariant
            i <= v.len(),
            v@ == s@,
            view == (|t: String| t@),
            done@.map_values(view).push(cur@) == parts(s@.take(i as int), c),
        decreases v.len() - i,
    {
        let ghost before = done@.map_values(view);
        proof {
            assert(s@.take(i + 1).drop_last() =~= s@.take(i as int));
            assert(before.push(cur@).drop_last() =~= before);
        }
        if v[i] == c {
            proof {
                assert(done@.push(cur).map_values(view) =~= before.push(cur@));
            }
            done.push(cur);
            cur = String::new();
        } else {
            cur.push(v[i]);
        }
        i = i + 1;
    }
    proof {
        assert(s@.take(v@.len() as int) =~= s@);
        assert(done@.push(cur).map_values(view) =~= done@.map_values(view).push(cur@));
    }
    done.push(cur);
    done
}

/// An absent text counts as empty, and one that is there as itself.
pub proof fn absent_texts_are_empty(s: Option<String>)
    ensures
        s is None ==> opt_text(s) is None && text_or_empty(s).len() == 0,
        s is Some ==> opt_text(s) == Some(s->0@) && text_or_empty(s) == s->0@,
{
}

/// Exactly these twenty-five characters are white space.
pub proof fn white_space_is_known(c: char)
    ensures
        c as u32 <= 127 ==> (is_space(c) <==> c == ' ' || (9 <= c as u32 && c as u32 <= 13)),
        c as u32 > 127 ==> (is_space(c) <==> c as u32 == 133 || c as u32 == 160 || c as u32 == 5760 || (
        8192 <= c as u32 && c as u32 <= 8202) || c as u32 == 8232 || c as u32 == 8233 || c as u32
            == 8239 || c as u32 == 8287 || c as u32 == 12288),
{
}

/// Lower case moves the letters `A` to `Z` by thirty-two places, upper case moves them back, and
/// neither touches any other character.
pub proof fn ascii_cases_mirror_each_other(s: Seq<char>, i: int)
    requires
        0 <= i < s.len(),
    ensures
        ascii_lower(s).len() == s.len(),
        ascii_upper(s).len() == s.len(),
        65 <= s[i] as u32 <= 90 ==> ascii_lower(s)[i] as u32 == s[i] as u32 + 32
            && ascii_upper(s)[i] == s[i],
        97 <= s[i] as u32 <= 122 ==> ascii_upper(s)[i] as u32 == s[i] as u32 - 32
            && ascii_lower(s)[i] == s[i],
        !(65 <= s[i] as u32 <= 90 || 97 <= s[i] as u32 <= 122) ==> ascii_lower(s)[i] == s[i]
            && ascii_upper(s)[i] == s[i],
{
}

/// Whether a text is nothing but white space.
pub open spec fn all_space(s: Seq<char>) -> bool {
    forall|i: int| 0 <= i < s.len() ==> is_space(#[trigger] s[i])
}

proof fn lemma_trim_start_of_space(a: Seq<char>, t: Seq<char>)
    requires
        all_space(a),
    ensures
        trim_start_of(a + t) == trim_start_of(t),
    decreases a.len(),
{
    if a.len() > 0 {
        assert((a + t)[0] == a[0]);
        assert((a + t).skip(1) =~= a.skip(1) + t);
        assert forall|i: int| 0 <= i < a.skip(1).len() implies is_space(#[trigger] a.skip(1)[i]) by {
            assert(a.skip(1)[i] == a[i + 1]);
        }
        lemma_trim_start_of_space(a.skip(1), t);
    } else {
        assert(a + t =~= t);
    }
}

proof fn lemma_trim_end_of_space(t: Seq<char>, b: Seq<char>)
    requires
        all_space(b),
    ensures
        trim_end_of(t + b) == trim_end_of(t),
    decreases b.len(),
{
    if b.len() > 0 {
        assert((t + b).last() == b.last());
        assert(is_space(b[b.len() - 1]));
        assert((t + b).drop_last() =~= t + b.drop_last());
        lemma_trim_end_of_space(t, b.drop_last());
    } else {
        assert(t + b =~= t);
    }
}

/// Trimming takes away whatever white space stands around a text, and nothing of the text.
pub proof fn trimming_takes_only_the_space_around(a: Seq<char>, t: Seq<char>, b: Seq<char>)
    requires
        all_space(a),
        all_space(b),
        t.len() > 0 ==> !is_space(t[0]) && !is_space(t.last()),
    ensures
        trimmed(a + t + b) == t,
{
    assert(a + t + b =~= a + (t + b));
    lemma_trim_start_of_space(a, t + b);
    if t.len() > 0 {
        assert((t + b)[0] == t[0]);
        lemma_trim_end_of_space(t, b);
    } else {
        assert(t + b =~= b + t);
        lemma_trim_start_of_space(b, t);
        assert(t =~= Seq::<char>::empty());
    }
}

/// A text begins with another exactly if it is that one with something behind it, and a text
/// occurs wherever it stands between two others.
pub proof fn texts_begin_and_occur(a: Seq<char>, p: Seq<char>, b: Seq<char>, s: Seq<char>)
    ensures
        begins_with(p + b, p),
        begins_with(s, p) ==> p + s.skip(p.len() as int) == s,
        occurs_in(a + p + b, p),
        occurs_in(s, p) ==> exists|i: int|
            0 <= i <= s.len() - p.len() && s.take(i) + p + #[trigger] s.skip(i + p.len()) == s,
{
    assert((p + b).subrange(0, p.len() as int) =~= p);
    assert(holds_at(p + b, p, 0));
    if begins_with(s, p) {
        assert(p + s.skip(p.len() as int) =~= s.subrange(0, p.len() as int) + s.skip(
            p.len() as int,
        ));
        assert(s.subrange(0, p.len() as int) + s.skip(p.len() as int) =~= s);
    }
    assert((a + p + b).subrange(a.len() as int, (a.len() + p.len()) as int) =~= p);
    assert(holds_at(a + p + b, p, a.len() as int));
    if occurs_in(s, p) {
        let i = choose|at: int| #[trigger] holds_at(s, p, at);
        assert(s.take(i) + s.subrange(i, i + p.len()) + s.skip(i + p.len()) =~= s);
    }
}

proof fn lemma_last_position(a: Seq<char>, c: char, b: Seq<char>)
    requires
        !b.contains(c),
    ensures
        last_position(a.push(c) + b, c) == a.len(),
        last_position(b, c) == -1,
    decreases b.len(),
{
    if b.len() == 0 {
        assert(a.push(c) + b =~= a.push(c));
    } else {
        assert(b[b.len() - 1] != c);
        assert forall|x: char| b.drop_last().contains(x) implies b.contains(x) by {
            let i = choose|i: int| 0 <= i < b.drop_last().len() && b.drop_last()[i] == x;
            assert(b[i] == x);
        }
        assert((a.push(c) + b).last() == b.last());
        assert((a.push(c) + b).drop_last() =~= a.push(c) + b.drop_last());
        lemma_last_position(a, c, b.drop_last());
    }
}

/// What follows the last copy of a character is what stands behind it; without a copy it is the
/// whole text.
pub proof fn what_follows_the_last_copy(a: Seq<char>, c: char, b: Seq<char>)
    requires
        !b.contains(c),
    ensures
        after_last(a.push(c) + b, c) == b,
        after_last(b, c) == b,
{
    lemma_last_position(a, c, b);
    assert((a.push(c) + b).skip((a.len() + 1) as int) =~= b);
    assert(b.skip(0) =~= b);
}

/// Copies at the end go one by one until another character stands there; copies at the start go
/// until the text begins otherwise.
pub proof fn outer_copies_go(s: Seq<char>, c: char, p: Seq<char>)
    ensures
        without_trailing(s.push(c), c) == without_trailing(s, c),
        s.len() == 0 || s.last() != c ==> without_trailing(s, c) == s,
        p.len() > 0 ==> without_leading(p + s, p) == without_leading(s, p),
        p.len() == 0 || !begins_with(s, p) ==> without_leading(s, p) == s,
{
    assert(s.push(c).drop_last() =~= s);
    assert((p + s).subrange(0, p.len() as int) =~= p);
    assert((p + s).skip(p.len() as int) =~= s);
}

/// Each further digit counts for one and lifts the ones before it tenfold; a sign `+` may stand
/// before the digits, and anything else, or a number above the limit, is no number.
pub proof fn numbers_are_read_digit_by_digit(s: Seq<char>, c: char, max: nat)
    ensures
        is_digit(c) <==> 48 <= c as u32 <= 57,
        is_digit(c) ==> digits_value(s.push(c)) == 10 * digits_value(s) + (c as u32 - 48),
        digits_value(Seq::empty()) == 0,
        all_digits(s) ==> number_in(seq!['+'] + s, max) == number_in(s, max),
        all_digits(s) && digits_value(s) <= max ==> number_in(s, max) == Some(digits_value(s)),
        all_digits(s) && digits_value(s) > max ==> number_in(s, max) is None,
        number_in(s, max) is Some ==> s.len() > 0 && number_in(s, max)->0 <= max && (all_digits(s)
            || (s[0] == '+' && all_digits(s.skip(1)))),
        !all_digits(Seq::empty()),
        s.len() > 0 ==> (all_digits(s.push(c)) <==> all_digits(s) && is_digit(c)),
{
    assert(s.push(c).drop_last() =~= s);
    assert((seq!['+'] + s)[0] == '+');
    assert((seq!['+'] + s).skip(1) =~= s);
    if all_digits(s) {
        assert(is_digit(s[0]));
    }
    if s.len() > 0 {
        if all_digits(s.push(c)) {
            assert(is_digit(s.push(c)[s.len() as int]));
            assert forall|i: int| 0 <= i < s.len() implies is_digit(#[trigger] s[i]) by {
                assert(s.push(c)[i] == s[i]);
            }
        }
        if all_digits(s) && is_digit(c) {
            assert forall|i: int| 0 <= i < s.push(c).len() implies is_digit(#[trigger] s.push(c)[i]) by {
                if i < s.len() {
                    assert(s.push(c)[i] == s[i]);
                }
            }
        }
    }
}

/// A number above zero is not written with a zero at the start, and a negative one with a `-`
/// before its digits.
pub proof fn numbers_are_written_plainly(n: nat)
    ensures
        n > 0 ==> decimal(n)[0] != '0',
        n < 10 ==> decimal(n).len() == 1,
        signed_decimal(n as int) == decimal(n),
        n > 0 ==> signed_decimal(-(n as int)) == seq!['-'] + decimal(n),
    decreases n,
{
    if n >= 10 {
        numbers_are_written_plainly(n / 10);
        decimal_reads_back(n / 10);
        assert(decimal(n)[0] == decimal(n / 10)[0]);
    }
}

/// Each copy of the character ends a part, and every other character belongs to the part that it
/// stands in.
pub proof fn parts_end_at_each_copy(s: Seq<char>, c: char, x: char)
    ensures
        parts(Seq::empty(), c) == seq![Seq::<char>::empty()],
        parts(s.push(c), c) == parts(s, c).push(Seq::empty()),
        x != c ==> parts(s.push(x), c).len() == parts(s, c).len() && parts(s.push(x), c).last()
            == parts(s, c).last().push(x) && parts(s.push(x), c).drop_last() == parts(
            s,
            c,
        ).drop_last(),
        parts(s, c).len() > 0,
{
    lemma_parts_nonempty(s, c);
    assert(s.push(c).drop_last() =~= s);
    assert(s.push(x).drop_last() =~= s);
    if x != c {
        let p = parts(s, c);
        assert(parts(s.push(x), c) == p.drop_last().push(p.last().push(x)));
        assert(parts(s.push(x), c).drop_last() =~= p.drop_last());
    }
}

/// White space before a text makes no word.
pub proof fn leading_space_makes_no_word(a: Seq<char>, s: Seq<char>)
    requires
        all_space(a),
    ensures
        words(a + s) == words(s),
        words(a).len() == 0,
{
    lemma_trim_start_of_space(a, s);
    lemma_trim_start_of_space(a, Seq::empty());
    assert(a + Seq::<char>::empty() =~= a);
}

} // verus!
