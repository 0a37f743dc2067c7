//! Text helpers over `str` and `String`: comparison, prefix and substring tests,
//! splitting on a separator, and decimal conversion of integers.
use vstd::prelude::*;

verus! {

/// `p` is a prefix of `s`.
pub open spec fn has_prefix(s: Seq<char>, p: Seq<char>) -> bool {
    p.len() <= s.len() && s.subrange(0, p.len() as int) == p
}

/// `needle` occurs in `s` starting at position `k`.
pub open spec fn occurs_at(s: Seq<char>, needle: Seq<char>, k: int) -> bool {
    0 <= k && k + needle.len() <= s.len() && s.subrange(k, k + needle.len()) == needle
}

/// `needle` occurs somewhere in `s` (the empty needle occurs everywhere).
pub open spec fn contains_seq(s: Seq<char>, needle: Seq<char>) -> bool {
    exists|k: int| occurs_at(s, needle, k)
}

/// The pieces of `s` between occurrences of `sep`, as `str::split` with a `char` pattern gives them.
pub open spec fn split_on(s: Seq<char>, sep: char) -> Seq<Seq<char>>
    decreases s.len(),
{
    if s.len() == 0 {
        seq![Seq::<char>::empty()]
    } else {
        let rest = split_on(s.drop_last(), sep);
        if s.last() == sep {
            rest.push(Seq::<char>::empty())
        } else {
            rest.update(rest.len() - 1, rest.last().push(s.last()))
        }
    }
}

pub open spec fn is_ascii_digit(c: char) -> bool {
    '0' <= c && c <= '9'
}

pub open spec fn digit_value(c: char) -> int {
    c as int - '0' as int
}

pub open spec fn all_digits(s: Seq<char>) -> bool {
    forall|i: int| 0 <= i < s.len() ==> is_ascii_digit(#[trigger] s[i])
}

/// The value of a string of decimal digits, most significant first.
pub open spec fn digits_value(s: Seq<char>) -> nat
    decreases s.len(),
{
    if s.len() == 0 {
        0
    } else {
        (digits_value(s.drop_last()) * 10 + digit_value(s.last())) as nat
    }
}

/// The digits after an optional leading `+`.
pub open spec fn unsigned_digits(s: Seq<char>) -> Seq<char> {
    if s.len() > 0 && s[0] == '+' {
        s.drop_first()
    } else {
        s
    }
}

/// What `u32::from_str` accepts and returns: an optional `+`, then one or more decimal
/// digits whose value fits in a `u32`.
pub open spec fn parse_u32_spec(s: Seq<char>) -> Option<u32> {
    let d = unsigned_digits(s);
    if d.len() > 0 && all_digits(d) && digits_value(d) <= u32::MAX {
        Some(digits_value(d) as u32)
    } else {
        None
    }
}

pub open spec fn digit_char(d: nat) -> char
    recommends
        d < 10,
{
    if d == 0 {
        '0'
    } else if d == 1 {
        '1'
    } else if d == 2 {
        '2'
    } else if d == 3 {
        '3'
    } else if d == 4 {
        '4'
    } else if d == 5 {
        '5'
    } else if d == 6 {
        '6'
    } else if d == 7 {
        '7'
    } else if d == 8 {
        '8'
    } else {
        '9'
    }
}

/// The decimal representation of `n`, as `Display` writes an unsigned integer.
pub open spec fn decimal(n: nat) -> Seq<char>
    decreases n,
{
    if n < 10 {
        seq![digit_char(n)]
    } else {
        decimal(n / 10).push(digit_char(n % 10))
    }
}

/// The decimal representation of a signed integer, with a leading `-` when negative.
pub open spec fn signed_decimal(n: int) -> Seq<char> {
    if n < 0 {
        seq!['-'] + decimal((-n) as nat)
    } else {
        decimal(n as nat)
    }
}

/// Character-wise equality of two strings.
pub fn str_eq(a: &str, b: &str) -> (r: bool)
    ensures
        r == (a@ == b@),
{
    let n = a.unicode_len();
    let m = b.unicode_len();
    if n != m {
        return false;
    }
    let mut i: usize = 0;
    while i < n
        invariant
            n == a@.len(),
            m == b@.len(),
            n == m,
            i <= n,
            forall|j: int| 0 <= j < i ==> a@[j] == b@[j],
        decreases n - i,
    {
        if a.get_char(i) != b.get_char(i) {
            return false;
        }
        i = i + 1;
    }
    assert(a@ =~= b@);
    true
}

/// Whether `s` starts with `p`.
pub fn str_starts_with(s: &str, p: &str) -> (r: bool)
    ensures
        r == has_prefix(s@, p@),
{
    let n = s.unicode_len();
    let m = p.unicode_len();
    if m > n {
        return false;
    }
    let mut i: usize = 0;
    while i < m
        invariant
            n == s@.len(),
            m == p@.len(),
            m <= n,
            i <= m,
            forall|j: int| 0 <= j < i ==> s@[j] == p@[j],
        decreases m - i,
    {
        if s.get_char(i) != p.get_char(i) {
            assert(s@.subrange(0, m as int)[i as int] != p@[i as int]);
            return false;
        }
        i = i + 1;
    }
    assert(s@.subrange(0, m as int) =~= p@);
    true
}

/// Whether `needle` occurs at position `k` of `s`.
fn occurs_at_exec(s: &str, n: usize, needle: &str, m: usize, k: usize) -> (r: bool)
    requires
        n == s@.len(),
        m == needle@.len(),
        k + m <= n,
    ensures
        r == occurs_at(s@, needle@, k as int),
{
    let mut i: usize = 0;
    while i < m
        invariant
            n == s@.len(),
            m == needle@.len(),
            k + m <= n,
            i <= m,
            forall|j: int| 0 <= j < i ==> s@[k + j] == needle@[j],
        decreases m - i,
    {
        if s.get_char(k + i) != needle.get_char(i) {
            assert(s@.subrange(k as int, k + m)[i as int] != needle@[i as int]);
            return false;
        }
        i = i + 1;
    }
    assert(s@.subrange(k as int, k + m) =~= needle@);
    true
}

/// Whether `needle` occurs in `s`.
pub fn str_contains(s: &str, needle: &str) -> (r: bool)
    ensures
        r == contains_seq(s@, needle@),
{
    let n = s.unicode_len();
    let m = needle.unicode_len();
    if m > n {
        assert forall|k: int| !occurs_at(s@, needle@, k) by {}
        return false;
    }
    if m == 0 {
        assert(s@.subrange(0, 0) =~= needle@);
        assert(occurs_at(s@, needle@, 0));
        return true;
    }
    let mut k: usize = 0;
    while k <= n - m
        invariant
            n == s@.len(),
            m == needle@.len(),
            0 < m <= n,
            k <= n - m + 1,
            forall|j: int| 0 <= j < k ==> !occurs_at(s@, needle@, j),
        decreases n - m + 1 - k,
    {
        if occurs_at_exec(s, n, needle, m, k) {
            return true;
        }
        k = k + 1;
    }
    assert forall|j: int| !occurs_at(s@, needle@, j) by {
        if 0 <= j && j < k {
        }
    }
    false
}

/// Splitting always yields at least one piece.
pub proof fn lemma_split_on_nonempty(s: Seq<char>, sep: char)
    ensures
        split_on(s, sep).len() >= 1,
    decreases s.len(),
{
    if s.len() > 0 {
        lemma_split_on_nonempty(s.drop_last(), sep);
    }
}

/// Splits `s` on every occurrence of `sep`, as `str::split` does with a `char` pattern.
pub fn split_char(s: &str, sep: char) -> (parts: Vec<String>)
    ensures
        parts@.map_values(|p: String| p@) == split_on(s@, sep),
{
    let n = s.unicode_len();
    let mut parts: Vec<String> = Vec::new();
    let mut start: usize = 0;
    let mut i: usize = 0;
    assert(s@.subrange(0, 0) =~= Seq::<char>::empty());
    while i < n
        invariant
            n == s@.len(),
            start <= i <= n,
            parts@.map_values(|p: String| p@).push(s@.subrange(start as int, i as int)) == split_on(
                s@.subrange(0, i as int),
                sep,
            ),
        decreases n - i,
    {
        let c = s.get_char(i);
        let ghost prev = s@.subrange(0, i as int);
        let ghost pieces = parts@.map_values(|p: String| p@);
        assert(s@.subrange(0, i + 1).drop_last() =~= prev);
        assert(s@.subrange(0, i + 1).last() == c);
        if c == sep {
            let piece = String::from_str(s.substring_char(start, i));
            parts.push(piece);
            assert(parts@.map_values(|p: String| p@) =~= pieces.push(s@.subrange(start as int, i as int)));
            start = i + 1;
            assert(s@.subrange(start as int, i + 1) =~= Seq::<char>::empty());
        } else {
            assert(s@.subrange(start as int, i + 1) =~= s@.subrange(start as int, i as int).push(c));
            assert(pieces.push(s@.subrange(start as int, i + 1)) =~= pieces.push(
                s@.subrange(start as int, i as int),
            ).update(pieces.len() as int, s@.subrange(start as int, i as int).push(c)));
        }
        i = i + 1;
    }
    let last = String::from_str(s.substring_char(start, n));
    parts.push(last);
    assert(s@.subrange(0, n as int) =~= s@);
    parts
}

proof fn lemma_digits_prefix_le(s: Seq<char>, k: int)
    requires
        all_digits(s),
        0 <= k <= s.len(),
    ensures
        digits_value(s.subrange(0, k)) <= digits_value(s),
    decreases s.len() - k,
{
    if k == s.len() {
        assert(s.subrange(0, k) =~= s);
    } else {
        let t = s.drop_last();
        assert(all_digits(t));
        lemma_digits_prefix_le(t, k);
        assert(t.subrange(0, k) =~= s.subrange(0, k));
        assert(is_ascii_digit(s[s.len() - 1]));
    }
}

/// Parses an unsigned 32-bit integer as `u32::from_str` does.
pub fn parse_u32(s: &str) -> (r: Option<u32>)
    ensures
        r == parse_u32_spec(s@),
{
    let n = s.unicode_len();
    let mut start: usize = 0;
    if n > 0 && s.get_char(0) == '+' {
        start = 1;
    }
    let ghost d = unsigned_digits(s@);
    assert(d =~= s@.subrange(start as int, n as int));
    if start == n {
        return None;
    }
    let mut value: u64 = 0;
    let mut i: usize = start;
    assert(s@.subrange(start as int, start as int) =~= Seq::<char>::empty());
    while i < n
        invariant
            n == s@.len(),
            d == s@.subrange(start as int, n as int),
            d == unsigned_digits(s@),
            start <= i <= n,
            start < n,
            value <= u32::MAX,
            all_digits(s@.subrange(start as int, i as int)),
            value == digits_value(s@.subrange(start as int, i as int)),
        decreases n - i,
    {
        let c = s.get_char(i);
        if !('0' <= c && c <= '9') {
            assert(d[i - start] == c);
            assert(!is_ascii_digit(d[i - start]));
            assert(!all_digits(d));
            return None;
        }
        let dv = (c as u32 - '0' as u32) as u64;
        let ghost pre = s@.subrange(start as int, i as int);
        let ghost post = s@.subrange(start as int, i + 1);
        assert(post.drop_last() =~= pre);
        assert(post.last() == c);
        assert(all_digits(post));
        value = value * 10 + dv;
        assert(value == digits_value(post));
        if value > 0xffff_ffffu64 {
            proof {
                if all_digits(d) {
                    lemma_digits_prefix_le(d, (i + 1 - start) as int);
                    assert(d.subrange(0, (i + 1 - start) as int) =~= post);
                }
            }
            return None;
        }
        i = i + 1;
    }
    assert(s@.subrange(start as int, n as int) =~= d);
    Some(value as u32)
}

/// Why `from_str` refused a string as an unsigned integer.
#[derive(Debug, Clone, Copy, PartialEq, Eq, Structural)]
pub enum IntErrorKind {
    /// The string was empty
    Empty,
    /// A character was not a decimal digit
    InvalidDigit,
    /// The value does not fit in the target type
    PosOverflow,
}

/// Reading the decimal digits of `d` from the left: their value, or the first reason to
/// stop (a character that is no digit, or a value past `u64::MAX`).
pub open spec fn digits_outcome(d: Seq<char>) -> Result<nat, IntErrorKind>
    decreases d.len(),
{
    if d.len() == 0 {
        Ok(0)
    } else {
        match digits_outcome(d.drop_last()) {
            Err(e) => Err(e),
            Ok(v) => if !is_ascii_digit(d.last()) {
                Err(IntErrorKind::InvalidDigit)
            } else if v * 10 + digit_value(d.last()) > u64::MAX {
                Err(IntErrorKind::PosOverflow)
            } else {
                Ok((v * 10 + digit_value(d.last())) as nat)
            },
        }
    }
}

/// What `u64::from_str` returns: an empty string is refused, a lone sign is an invalid
/// digit, and otherwise the digits after an optional `+` are read from the left.
pub open spec fn parse_u64_spec(s: Seq<char>) -> Result<u64, IntErrorKind> {
    if s.len() == 0 {
        Err(IntErrorKind::Empty)
    } else if s.len() == 1 && (s[0] == '+' || s[0] == '-') {
        Err(IntErrorKind::InvalidDigit)
    } else {
        match digits_outcome(unsigned_digits(s)) {
            Ok(v) => Ok(v as u64),
            Err(e) => Err(e),
        }
    }
}

proof fn lemma_outcome_err_extends(d: Seq<char>, k: int)
    requires
        0 <= k <= d.len(),
        digits_outcome(d.subrange(0, k)) is Err,
    ensures
        digits_outcome(d) == digits_outcome(d.subrange(0, k)),
    decreases d.len(),
{
    if k == d.len() {
        assert(d.subrange(0, k) =~= d);
    } else {
        assert(d.drop_last().subrange(0, k) =~= d.subrange(0, k));
        lemma_outcome_err_extends(d.drop_last(), k);
    }
}

/// The message of a refused integer, as `ParseIntError` displays it.
pub open spec fn int_error_text(k: IntErrorKind) -> Seq<char> {
    match k {
        IntErrorKind::Empty => "cannot parse integer from empty string"@,
        IntErrorKind::InvalidDigit => "invalid digit found in string"@,
        IntErrorKind::PosOverflow => "number too large to fit in target type"@,
    }
}

impl IntErrorKind {
    /// The message of this refusal, as `ParseIntError` displays it.
    pub fn message(&self) -> (r: &'static str)
        ensures
            r@ == int_error_text(*self),
    {
        match self {
            IntErrorKind::Empty => "cannot parse integer from empty string",
            IntErrorKind::InvalidDigit => "invalid digit found in string",
            IntErrorKind::PosOverflow => "number too large to fit in target type",
        }
    }
}

/// Parses an unsigned 64-bit integer as `u64::from_str` does.
pub fn parse_u64(s: &str) -> (r: Result<u64, IntErrorKind>)
    ensures
        r == parse_u64_spec(s@),
{
    let n = s.unicode_len();
    if n == 0 {
        return Err(IntErrorKind::Empty);
    }
    let c0 = s.get_char(0);
    if n == 1 && (c0 == '+' || c0 == '-') {
        return Err(IntErrorKind::InvalidDigit);
    }
    let start: usize = if c0 == '+' {
        1
    } else {
        0
    };
    let ghost d = unsigned_digits(s@);
    assert(d =~= s@.subrange(start as int, n as int));
    let mut value: u64 = 0;
    let mut i: usize = start;
    assert(s@.subrange(start as int, start as int) =~= Seq::<char>::empty());
    while i < n
        invariant
            n == s@.len(),
            n > 0,
            !(n == 1 && (s@[0] == '+' || s@[0] == '-')),
            d == unsigned_digits(s@),
            d == s@.subrange(start as int, n as int),
            start <= i <= n,
            digits_outcome(s@.subrange(start as int, i as int)) == Ok::<nat, IntErrorKind>(value as nat),
        decreases n - i,
    {
        let c = s.get_char(i);
        let ghost pre = s@.subrange(start as int, i as int);
        let ghost post = s@.subrange(start as int, i + 1);
        assert(post.drop_last() =~= pre);
        assert(post.last() == c);
        assert(d.subrange(0, (i + 1 - start) as int) =~= post);
        if !('0' <= c && c <= '9') {
            proof {
                lemma_outcome_err_extends(d, (i + 1 - start) as int);
            }
            return Err(IntErrorKind::InvalidDigit);
        }
        let dv = (c as u32 - '0' as u32) as u64;
        let next: u128 = value as u128 * 10 + dv as u128;
        if next > 0xffff_ffff_ffff_ffffu128 {
            proof {
                lemma_outcome_err_extends(d, (i + 1 - start) as int);
            }
            return Err(IntErrorKind::PosOverflow);
        }
        value = next as u64;
        i = i + 1;
    }
    assert(s@.subrange(start as int, n as int) =~= d);
    Ok(value)
}

/// The one-character string of a decimal digit.
fn digit_str(d: u64) -> (r: &'static str)
    requires
        d < 10,
    ensures
        r@ == seq![digit_char(d as nat)],
{
    if d == 0 {
        proof { reveal_strlit("0"); }
        "0"
    } else if d == 1 {
        proof { reveal_strlit("1"); }
        "1"
    } else if d == 2 {
        proof { reveal_strlit("2"); }
        "2"
    } else if d == 3 {
        proof { reveal_strlit("3"); }
        "3"
    } else if d == 4 {
        proof { reveal_strlit("4"); }
        "4"
    } else if d == 5 {
        proof { reveal_strlit("5"); }
        "5"
    } else if d == 6 {
        proof { reveal_strlit("6"); }
        "6"
    } else if d == 7 {
        proof { reveal_strlit("7"); }
        "7"
    } else if d == 8 {
        proof { reveal_strlit("8"); }
        "8"
    } else {
        proof { reveal_strlit("9"); }
        "9"
    }
}

/// Appends the decimal representation of `n` to `out`.
pub fn push_decimal(out: &mut String, n: u64)
    ensures
        final(out)@ == old(out)@ + decimal(n as nat),
    decreases n,
{
    if n < 10 {
        out.append(digit_str(n));
    } else {
        push_decimal(out, n / 10);
        out.append(digit_str(n % 10));
        assert(decimal(n as nat) == decimal((n / 10) as nat).push(digit_char((n % 10) as nat)));
        assert(old(out)@ + decimal((n / 10) as nat) + seq![digit_char((n % 10) as nat)] =~= old(
            out,
        )@ + decimal(n as nat));
    }
}

/// Appends the decimal representation of a signed `n` to `out`.
pub fn push_signed_decimal(out: &mut String, n: i64)
    ensures
        final(out)@ == old(out)@ + signed_decimal(n as int),
{
    if n < 0 {
        proof { reveal_strlit("-"); }
        out.append("-");
        let magnitude: u64 = if n == i64::MIN {
            0x8000_0000_0000_0000u64
        } else {
            (-n) as u64
        };
        push_decimal(out, magnitude);
        assert(old(out)@ + seq!['-'] + decimal(magnitude as nat) =~= old(out)@ + signed_decimal(
            n as int,
        ));
    } else {
        push_decimal(out, n as u64);
    }
}

/// The decimal representation of `n`, as `n.to_string()` gives it.
pub fn decimal_string(n: u64) -> (r: String)
    ensures
        r@ == decimal(n as nat),
{
    let mut s = String::new();
    push_decimal(&mut s, n);
    assert(s@ =~= decimal(n as nat));
    s
}

/// `prefix` followed by the decimal representation of `n`, as `format!("{prefix}{n}")` gives it.
pub fn with_decimal_suffix(prefix: &str, n: u64) -> (r: String)
    ensures
        r@ == prefix@ + decimal(n as nat),
{
    let mut s = String::from_str(prefix);
    push_decimal(&mut s, n);
    s
}

/// The concatenation of two strings.
pub fn concat2(a: &str, b: &str) -> (r: String)
    ensures
        r@ == a@ + b@,
{
    let mut s = String::from_str(a);
    s.append(b);
    s
}

/// The concatenation of three strings.
pub fn concat3(a: &str, b: &str, c: &str) -> (r: String)
    ensures
        r@ == a@ + b@ + c@,
{
    let mut s = String::from_str(a);
    s.append(b);
    s.append(c);
    s
}

/// `c` has the Unicode `White_Space` property, as `char::is_whitespace` decides.
pub open spec fn is_whitespace(c: char) -> bool {
    c == '\t' || c == '\n' || c == '\u{B}' || c == '\u{C}' || c == '\r' || c == ' ' || c
        == '\u{85}' || c == '\u{A0}' || c == '\u{1680}' || ('\u{2000}' <= c && c <= '\u{200A}')
        || c == '\u{2028}' || c == '\u{2029}' || c == '\u{202F}' || c == '\u{205F}' || c
        == '\u{3000}'
}

/// Whether `c` is white space, as `char::is_whitespace` decides.
pub fn char_is_whitespace(c: char) -> (r: bool)
    ensures
        r == is_whitespace(c),
{
    c == '\t' || c == '\n' || c == '\u{B}' || c == '\u{C}' || c == '\r' || c == ' ' || c
        == '\u{85}' || c == '\u{A0}' || c == '\u{1680}' || ('\u{2000}' <= c && c <= '\u{200A}')
        || c == '\u{2028}' || c == '\u{2029}' || c == '\u{202F}' || c == '\u{205F}' || c
        == '\u{3000}'
}

/// `s` without its trailing white space.
pub open spec fn trim_end_ws(s: Seq<char>) -> Seq<char>
    decreases s.len(),
{
    if s.len() > 0 && is_whitespace(s.last()) {
        trim_end_ws(s.drop_last())
    } else {
        s
    }
}

/// The run of non-white-space characters at the end of `s`.
pub open spec fn trailing_word(s: Seq<char>) -> Seq<char>
    decreases s.len(),
{
    if s.len() == 0 || is_whitespace(s.last()) {
        Seq::<char>::empty()
    } else {
        trailing_word(s.drop_last()).push(s.last())
    }
}

/// The last of the words that `str::split_whitespace` yields, if there is one.
pub open spec fn last_word(s: Seq<char>) -> Option<Seq<char>> {
    let t = trim_end_ws(s);
    if t.len() == 0 {
        None
    } else {
        Some(trailing_word(t))
    }
}

proof fn lemma_trailing_word_suffix(t: Seq<char>)
    ensures
        trailing_word(t).len() <= t.len(),
        trailing_word(t) == t.subrange(t.len() - trailing_word(t).len(), t.len() as int),
        trailing_word(t).len() < t.len() ==> is_whitespace(t[t.len() - trailing_word(t).len() - 1]),
        forall|i: int| 0 <= i < trailing_word(t).len() ==> !is_whitespace(#[trigger] trailing_word(t)[i]),
    decreases t.len(),
{
    if t.len() > 0 && !is_whitespace(t.last()) {
        lemma_trailing_word_suffix(t.drop_last());
        assert(t.drop_last().subrange(
            t.drop_last().len() - trailing_word(t.drop_last()).len(),
            t.drop_last().len() as int,
        ).push(t.last()) =~= t.subrange(t.len() - trailing_word(t).len(), t.len() as int));
    }
}

/// The last word of `s`, as `s.split_whitespace().last()` gives it.
#[verifier::rlimit(40)]
pub fn last_word_of(s: &str) -> (r: Option<&str>)
    ensures
        match r {
            Some(w) => last_word(s@) == Some(w@),
            None => last_word(s@) is None,
        },
{
    let n = s.unicode_len();
    let mut end: usize = n;
    assert(s@.subrange(0, n as int) =~= s@);
    while end > 0 && char_is_whitespace(s.get_char(end - 1))
        invariant
            n == s@.len(),
            end <= n,
            trim_end_ws(s@.subrange(0, end as int)) == trim_end_ws(s@),
        decreases end,
    {
        assert(s@.subrange(0, end - 1) =~= s@.subrange(0, end as int).drop_last());
        end = end - 1;
    }
    let ghost t = s@.subrange(0, end as int);
    assert(trim_end_ws(t) == t);
    if end == 0 {
        return None;
    }
    let mut start: usize = end;
    assert(s@.subrange(start as int, end as int) =~= Seq::<char>::empty());
    while start > 0 && !char_is_whitespace(s.get_char(start - 1))
        invariant
            n == s@.len(),
            start <= end <= n,
            t == s@.subrange(0, end as int),
            forall|i: int| start <= i < end ==> !is_whitespace(#[trigger] s@[i]),
        decreases start,
    {
        start = start - 1;
    }
    proof {
        lemma_trailing_word_suffix(t);
        let w = trailing_word(t);
        let k = t.len() - w.len();
        // Both the scan and the word stop at the first white space from the end.
        if k < start {
            assert(is_whitespace(t[start - 1]));
            assert(w[start - 1 - k] == t[start - 1]);
        } else if k > start {
            assert(is_whitespace(t[k - 1]));
            assert(s@[k - 1] == t[k - 1]);
        }
        assert(w =~= s@.subrange(start as int, end as int));
    }
    Some(s.substring_char(start, end))
}

/// What `i32::from_str` accepts and returns: an optional sign, then one or more decimal
/// digits whose value fits in an `i32`.
pub open spec fn parse_i32_spec(s: Seq<char>) -> Option<i32> {
    if s.len() > 0 && s[0] == '-' {
        let d = s.drop_first();
        if d.len() > 0 && all_digits(d) && digits_value(d) <= 0x8000_0000 {
            Some((-(digits_value(d) as int)) as i32)
        } else {
            None
        }
    } else {
        let d = unsigned_digits(s);
        if d.len() > 0 && all_digits(d) && digits_value(d) <= 0x7fff_ffff {
            Some(digits_value(d) as i32)
        } else {
            None
        }
    }
}

/// Reads the decimal digits of `s` from position `start`, giving up as soon as the value
/// passes `limit`.
fn digits_upto(s: &str, n: usize, start: usize, limit: u64) -> (r: Option<u64>)
    requires
        n == s@.len(),
        start < n,
        limit <= u32::MAX,
    ensures
        r matches Some(v) ==> all_digits(s@.subrange(start as int, n as int)) && v == digits_value(
            s@.subrange(start as int, n as int),
        ) && v <= limit,
        r is None ==> !(all_digits(s@.subrange(start as int, n as int)) && digits_value(
            s@.subrange(start as int, n as int),
        ) <= limit),
{
    let ghost d = s@.subrange(start as int, n as int);
    let mut value: u64 = 0;
    let mut i: usize = start;
    assert(s@.subrange(start as int, start as int) =~= Seq::<char>::empty());
    while i < n
        invariant
            n == s@.len(),
            d == s@.subrange(start as int, n as int),
            start <= i <= n,
            limit <= u32::MAX,
            value <= limit,
            all_digits(s@.subrange(start as int, i as int)),
            value == digits_value(s@.subrange(start as int, i as int)),
        decreases n - i,
    {
        let c = s.get_char(i);
        if !('0' <= c && c <= '9') {
            assert(d[i - start] == c);
            assert(!is_ascii_digit(d[i - start]));
            return None;
        }
        let dv = (c as u32 - '0' as u32) as u64;
        let ghost pre = s@.subrange(start as int, i as int);
        let ghost post = s@.subrange(start as int, i + 1);
        assert(post.drop_last() =~= pre);
        assert(post.last() == c);
        assert(all_digits(post));
        value = value * 10 + dv;
        if value > limit {
            proof {
                if all_digits(d) {
                    lemma_digits_prefix_le(d, (i + 1 - start) as int);
                    assert(d.subrange(0, (i + 1 - start) as int) =~= post);
                }
            }
            return None;
        }
        i = i + 1;
    }
    assert(s@.subrange(start as int, n as int) =~= d);
    Some(value)
}

/// Parses a signed 32-bit integer as `i32::from_str` does.
pub fn parse_i32(s: &str) -> (r: Option<i32>)
    ensures
        r == parse_i32_spec(s@),
{
    let n = s.unicode_len();
    if n > 0 && s.get_char(0) == '-' {
        assert(s@.drop_first() =~= s@.subrange(1, n as int));
        if n == 1 {
            return None;
        }
        match digits_upto(s, n, 1, 0x8000_0000) {
            Some(v) => {
                let r: i64 = -(v as i64);
                Some(r as i32)
            },
            None => None,
        }
    } else {
        let start: usize = if n > 0 && s.get_char(0) == '+' { 1 } else { 0 };
        assert(unsigned_digits(s@) =~= s@.subrange(start as int, n as int));
        if start == n {
            return None;
        }
        match digits_upto(s, n, start, 0x7fff_ffff) {
            Some(v) => Some(v as i32),
            None => None,
        }
    }
}

proof fn lemma_digit_char(d: nat)
    requires
        d < 10,
    ensures
        is_ascii_digit(digit_char(d)),
        digit_value(digit_char(d)) == d,
        !is_whitespace(digit_char(d)),
        digit_char(d) != '-' && digit_char(d) != '+',
{
}

proof fn lemma_decimal_digits(n: nat)
    ensures
        decimal(n).len() > 0,
        all_digits(decimal(n)),
        digits_value(decimal(n)) == n,
        decimal(n)[0] != '-' && decimal(n)[0] != '+',
        forall|i: int| 0 <= i < decimal(n).len() ==> !is_whitespace(#[trigger] decimal(n)[i]),
    decreases n,
{
    lemma_digit_char(n % 10);
    if n >= 10 {
        lemma_decimal_digits(n / 10);
        let d = decimal(n);
        assert(n == (n / 10) * 10 + n % 10);
        assert(d.last() == digit_char(n % 10));
        assert(d.drop_last() =~= decimal(n / 10));
        assert(digits_value(d) == digits_value(decimal(n / 10)) * 10 + digit_value(digit_char(n % 10)));
        assert(d.drop_last() =~= decimal(n / 10));
        assert forall|i: int| 0 <= i < d.len() implies is_ascii_digit(#[trigger] d[i]) by {
            if i < d.len() - 1 {
                assert(d[i] == decimal(n / 10)[i]);
            }
        }
        assert forall|i: int| 0 <= i < d.len() implies !is_whitespace(#[trigger] d[i]) by {
            if i < d.len() - 1 {
                assert(d[i] == decimal(n / 10)[i]);
            }
        }
    } else {
        assert(seq![digit_char(n)].drop_last() =~= Seq::<char>::empty());
        assert(n % 10 == n);
        assert(digits_value(Seq::<char>::empty()) == 0);
        assert(digits_value(decimal(n)) == digits_value(Seq::<char>::empty()) * 10 + digit_value(digit_char(n)));
    }
}

/// The decimal text of a number that fits in an `i32` parses back to the number.
pub proof fn lemma_parse_i32_decimal(n: nat)
    requires
        n <= 0x7fff_ffff,
    ensures
        parse_i32_spec(decimal(n)) == Some(n as i32),
{
    lemma_decimal_digits(n);
    assert(unsigned_digits(decimal(n)) == decimal(n));
}

/// The last word of `prefix + decimal(n)`, when `prefix` ends in white space, is the
/// number's text.
pub proof fn lemma_last_word_decimal(prefix: Seq<char>, n: nat)
    requires
        prefix.len() > 0,
        is_whitespace(prefix.last()),
    ensures
        last_word(prefix + decimal(n)) == Some(decimal(n)),
{
    lemma_decimal_digits(n);
    let s = prefix + decimal(n);
    assert(!is_whitespace(s.last())) by {
        assert(s.last() == decimal(n)[decimal(n).len() - 1]);
    }
    assert(trim_end_ws(s) == s);
    lemma_trailing_word_of_concat(prefix, decimal(n));
}

proof fn lemma_trailing_word_of_concat(prefix: Seq<char>, w: Seq<char>)
    requires
        prefix.len() > 0,
        is_whitespace(prefix.last()),
        forall|i: int| 0 <= i < w.len() ==> !is_whitespace(#[trigger] w[i]),
    ensures
        trailing_word(prefix + w) == w,
    decreases w.len(),
{
    if w.len() == 0 {
        assert(prefix + w =~= prefix);
    } else {
        lemma_trailing_word_of_concat(prefix, w.drop_last());
        assert((prefix + w).drop_last() =~= prefix + w.drop_last());
        assert((prefix + w).last() == w.last());
        assert(!is_whitespace(w[w.len() - 1]));
        assert(w.drop_last().push(w.last()) =~= w);
    }
}

/// The decimal text of a number that fits in a `u32` parses back to the number.
pub proof fn lemma_parse_u32_decimal(n: nat)
    requires
        n <= u32::MAX,
    ensures
        parse_u32_spec(decimal(n)) == Some(n as u32),
{
    lemma_decimal_digits(n);
    assert(unsigned_digits(decimal(n)) == decimal(n));
}

/// Splitting `s + t`, when `t` holds no separator, gives the pieces of `s` with `t` added
/// to the last.
pub proof fn lemma_split_on_extend(s: Seq<char>, t: Seq<char>, sep: char)
    requires
        forall|i: int| 0 <= i < t.len() ==> t[i] != sep,
    ensures
        split_on(s + t, sep) == split_on(s, sep).update(
            split_on(s, sep).len() - 1,
            split_on(s, sep).last() + t,
        ),
    decreases t.len(),
{
    lemma_split_on_nonempty(s, sep);
    if t.len() == 0 {
        assert(s + t =~= s);
        assert(split_on(s, sep).last() + t =~= split_on(s, sep).last());
        assert(split_on(s, sep).update(split_on(s, sep).len() - 1, split_on(s, sep).last())
            =~= split_on(s, sep));
    } else {
        lemma_split_on_extend(s, t.drop_last(), sep);
        assert((s + t).drop_last() =~= s + t.drop_last());
        assert((s + t).last() == t[t.len() - 1]);
        let r = split_on(s, sep);
        assert((r.last() + t.drop_last()).push(t.last()) =~= r.last() + t);
        assert(r.update(r.len() - 1, r.last() + t.drop_last()).update(r.len() - 1, r.last() + t) =~= r.update(
            r.len() - 1,
            r.last() + t,
        ));
    }
}

/// Text without the separator is one piece.
pub proof fn lemma_split_on_single(t: Seq<char>, sep: char)
    requires
        forall|i: int| 0 <= i < t.len() ==> t[i] != sep,
    ensures
        split_on(t, sep) == seq![t],
{
    lemma_split_on_extend(Seq::<char>::empty(), t, sep);
    assert(Seq::<char>::empty() + t =~= t);
    assert(Seq::<char>::empty() + t =~= t);
}

/// The digits of a decimal number hold no `-`.
pub proof fn lemma_decimal_no_dash(n: nat)
    ensures
        forall|i: int| 0 <= i < decimal(n).len() ==> decimal(n)[i] != '-',
{
    lemma_decimal_digits(n);
    assert forall|i: int| 0 <= i < decimal(n).len() implies decimal(n)[i] != '-' by {
        assert(is_ascii_digit(decimal(n)[i]));
    }
}

/// The last piece of `p + "-" + d` split on `-`, when `d` holds no `-`, is `d`.
proof fn lemma_split_last_after_dash(p: Seq<char>, d: Seq<char>)
    requires
        forall|i: int| 0 <= i < d.len() ==> d[i] != '-',
    ensures
        split_on(p + seq!['-'] + d, '-').last() == d,
    decreases d.len(),
{
    let s = p + seq!['-'] + d;
    if d.len() == 0 {
        assert(s.drop_last() =~= p);
        assert(s.last() == '-');
    } else {
        lemma_split_last_after_dash(p, d.drop_last());
        assert(s.drop_last() =~= p + seq!['-'] + d.drop_last());
        assert(s.last() == d[d.len() - 1]);
        lemma_split_on_nonempty(s.drop_last(), '-');
        assert(d.drop_last().push(d.last()) =~= d);
    }
}

/// A text with a `-` after its first character is not an `i32`.
proof fn lemma_parse_i32_inner_dash(w: Seq<char>, k: int)
    requires
        1 <= k < w.len(),
        w[k] == '-',
    ensures
        parse_i32_spec(w) is None,
{
    if w[0] == '-' {
        let d = w.drop_first();
        assert(d[k - 1] == '-');
        assert(!is_ascii_digit(d[k - 1]));
    } else if w[0] == '+' {
        let d = unsigned_digits(w);
        assert(d[k - 1] == '-');
        assert(!is_ascii_digit(d[k - 1]));
    } else {
        let d = unsigned_digits(w);
        assert(d[k] == '-');
        assert(!is_ascii_digit(d[k]));
    }
}

/// The trailing word of `s + x`, when `x` holds no white space, is that of `s` followed by `x`.
proof fn lemma_trailing_word_extend(s: Seq<char>, x: Seq<char>)
    requires
        forall|i: int| 0 <= i < x.len() ==> !is_whitespace(#[trigger] x[i]),
    ensures
        trailing_word(s + x) == trailing_word(s) + x,
    decreases x.len(),
{
    if x.len() == 0 {
        assert(s + x =~= s);
        assert(trailing_word(s) + x =~= trailing_word(s));
    } else {
        lemma_trailing_word_extend(s, x.drop_last());
        assert((s + x).drop_last() =~= s + x.drop_last());
        assert((s + x).last() == x[x.len() - 1]);
        assert((trailing_word(s) + x.drop_last()).push(x.last()) =~= trailing_word(s) + x);
    }
}

/// The last word of `s + "-" + decimal(n)`, when `s` ends in a character that is not white
/// space, is no `i32`, and its last piece after a `-` is the number's text.
pub proof fn lemma_dash_decimal_word(s: Seq<char>, n: nat)
    requires
        s.len() > 0,
        !is_whitespace(s.last()),
    ensures
        last_word(s + seq!['-'] + decimal(n)) matches Some(w) && parse_i32_spec(w) is None
            && split_on(w, '-').last() == decimal(n),
{
    lemma_decimal_digits(n);
    let d = decimal(n);
    let x = seq!['-'] + d;
    let name = s + seq!['-'] + d;
    assert(name =~= s + x);
    assert forall|i: int| 0 <= i < x.len() implies !is_whitespace(#[trigger] x[i]) by {
        if i > 0 {
            assert(x[i] == d[i - 1]);
        }
    }
    assert(name.last() == d[d.len() - 1]);
    assert(trim_end_ws(name) == name);
    lemma_trailing_word_extend(s, x);
    let tw = trailing_word(s);
    assert(tw == trailing_word(s.drop_last()).push(s.last()));
    let w = tw + x;
    assert(w[tw.len() as int] == '-');
    lemma_parse_i32_inner_dash(w, tw.len() as int);
    assert forall|i: int| 0 <= i < d.len() implies d[i] != '-' by {
        assert(is_ascii_digit(d[i]));
    }
    assert(w =~= tw + seq!['-'] + d);
    lemma_split_last_after_dash(tw, d);
}

/// The words of `s`: its maximal runs of characters that are not white space, as
/// `str::split_whitespace` yields them.
pub open spec fn words(s: Seq<char>) -> Seq<Seq<char>>
    decreases s.len(),
{
    if s.len() == 0 {
        Seq::empty()
    } else if is_whitespace(s.last()) {
        words(s.drop_last())
    } else {
        let w = words(s.drop_last());
        if s.len() >= 2 && !is_whitespace(s[s.len() - 2]) {
            w.update(w.len() - 1, w.last().push(s.last()))
        } else {
            w.push(seq![s.last()])
        }
    }
}

proof fn lemma_words_nonempty_when_word_char(s: Seq<char>)
    requires
        s.len() > 0,
        !is_whitespace(s.last()),
    ensures
        words(s).len() > 0,
    decreases s.len(),
{
    if s.len() >= 2 && !is_whitespace(s[s.len() - 2]) {
        let t = s.drop_last();
        assert(t.last() == s[s.len() - 2]);
        lemma_words_nonempty_when_word_char(t);
    }
}

proof fn lemma_words_grow(s: Seq<char>)
    requires
        s.len() >= 2,
        !is_whitespace(s[s.len() - 2]),
    ensures
        words(s.drop_last()).len() > 0,
{
    let t = s.drop_last();
    assert(t.last() == s[s.len() - 2]);
    lemma_words_nonempty_when_word_char(t);
}

/// Splits `s` into its words, as `str::split_whitespace` does.
pub fn split_whitespace(s: &str) -> (r: Vec<String>)
    ensures
        r@.map_values(|p: String| p@) == words(s@),
{
    let n = s.unicode_len();
    let mut out: Vec<String> = Vec::new();
    let mut start: usize = 0;
    let mut in_word = false;
    let mut i: usize = 0;
    assert(s@.subrange(0, 0) =~= Seq::<char>::empty());
    while i < n
        invariant
            n == s@.len(),
            start <= i <= n,
            !in_word ==> out@.map_values(|p: String| p@) == words(s@.subrange(0, i as int)),
            in_word ==> start < i && out@.map_values(|p: String| p@).push(s@.subrange(start as int, i as int))
                == words(s@.subrange(0, i as int)),
            in_word ==> !is_whitespace(s@[i - 1]),
            !in_word && i > 0 ==> is_whitespace(s@[i - 1]),
        decreases n - i,
    {
        let c = s.get_char(i);
        let ghost prev = s@.subrange(0, i as int);
        let ghost cur = s@.subrange(0, i + 1);
        let ghost pieces = out@.map_values(|p: String| p@);
        assert(cur.drop_last() =~= prev);
        assert(cur.last() == c);
        if char_is_whitespace(c) {
            if in_word {
                let w = String::from_str(s.substring_char(start, i));
                out.push(w);
                assert(out@.map_values(|p: String| p@) =~= pieces.push(s@.subrange(start as int, i as int)));
                in_word = false;
            }
        } else {
            if in_word {
                assert(cur[cur.len() - 2] == s@[i - 1]);
                proof { lemma_words_grow(cur); }
                assert(s@.subrange(start as int, i + 1) =~= s@.subrange(start as int, i as int).push(c));
                assert(pieces.push(s@.subrange(start as int, i + 1)) =~= pieces.push(
                    s@.subrange(start as int, i as int),
                ).update(pieces.len() as int, s@.subrange(start as int, i as int).push(c)));
            } else {
                start = i;
                in_word = true;
                if i > 0 {
                    assert(cur[cur.len() - 2] == s@[i - 1]);
                }
                assert(s@.subrange(start as int, i + 1) =~= seq![c]);
            }
        }
        i = i + 1;
    }
    if in_word {
        let w = String::from_str(s.substring_char(start, n));
        out.push(w);
        assert(out@.map_values(|p: String| p@) =~= out@.map_values(|p: String| p@).drop_last().push(
            s@.subrange(start as int, n as int),
        ));
    }
    assert(s@.subrange(0, n as int) =~= s@);
    out
}

/// `line` without one trailing carriage return.
pub open spec fn strip_cr(line: Seq<char>) -> Seq<char> {
    if line.len() > 0 && line.last() == '\r' {
        line.drop_last()
    } else {
        line
    }
}

/// The lines of `s`, as `str::lines` yields them: split at line feeds, a final empty line
/// left out, and one carriage return stripped from the end of each line.
pub open spec fn lines_of(s: Seq<char>) -> Seq<Seq<char>> {
    let parts = split_on(s, '\n');
    let kept = if parts.last().len() == 0 { parts.drop_last() } else { parts };
    kept.map_values(|l: Seq<char>| strip_cr(l))
}

/// The lines of `s`, as `str::lines` yields them.
pub fn lines(s: &str) -> (r: Vec<String>)
    ensures
        r@.map_values(|p: String| p@) == lines_of(s@),
{
    let parts = split_char(s, '\n');
    proof { lemma_split_on_nonempty(s@, '\n'); }
    let ghost pv = parts@.map_values(|p: String| p@);
    let mut keep = parts.len();
    if parts[keep - 1].as_str().unicode_len() == 0 {
        keep = keep - 1;
    }
    let ghost kept = if pv.last().len() == 0 { pv.drop_last() } else { pv };
    assert(kept.len() == keep);
    let mut out: Vec<String> = Vec::new();
    let mut i: usize = 0;
    while i < keep
        invariant
            keep <= parts@.len(),
            pv == parts@.map_values(|p: String| p@),
            kept.len() == keep,
            forall|j: int| 0 <= j < keep ==> kept[j] == pv[j],
            i <= keep,
            out@.map_values(|p: String| p@) == kept.subrange(0, i as int).map_values(|l: Seq<char>| strip_cr(l)),
        decreases keep - i,
    {
        let line = parts[i].as_str();
        let m = line.unicode_len();
        let piece = if m > 0 && line.get_char(m - 1) == '\r' {
            assert(line@.drop_last() =~= line@.subrange(0, m - 1));
            String::from_str(line.substring_char(0, m - 1))
        } else {
            String::from_str(line)
        };
        assert(line@ == pv[i as int]);
        assert(kept[i as int] == line@);
        assert(piece@ == strip_cr(kept[i as int]));
        let ghost before = out@.map_values(|p: String| p@);
        out.push(piece);
        assert(out@.map_values(|p: String| p@) =~= before.push(piece@));
        assert(kept.subrange(0, i + 1) =~= kept.subrange(0, i as int).push(kept[i as int]));
        assert(kept.subrange(0, i + 1).map_values(|l: Seq<char>| strip_cr(l)) =~= kept.subrange(
            0,
            i as int,
        ).map_values(|l: Seq<char>| strip_cr(l)).push(strip_cr(kept[i as int])));
        i = i + 1;
    }
    assert(kept.subrange(0, keep as int) =~= kept);
    out
}

} // verus!
