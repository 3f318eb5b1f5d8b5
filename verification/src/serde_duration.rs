//! Durations written as text: a whole number of seconds (`s`), milliseconds
//! (`ms`) or microseconds (`us`), such as `30s`, `250ms` or `10us`.
use crate::utils::push_char;
use vstd::prelude::*;

verus! {

/// A span of time: whole seconds and the nanoseconds beyond them.
#[derive(Clone, Copy, Debug, PartialEq, Eq, Structural)]
pub struct Duration {
    pub secs: u64,
    pub nanos: u32,
}

impl Duration {
    pub open spec fn wf(self) -> bool {
        self.nanos < 1_000_000_000
    }

    /// The span of `secs` seconds.
    pub fn from_secs(secs: u64) -> (d: Duration)
        ensures
            d.wf(),
            d.secs == secs,
            d.nanos == 0,
    {
        Duration { secs, nanos: 0 }
    }

    /// The span of `millis` milliseconds.
    pub fn from_millis(millis: u64) -> (d: Duration)
        ensures
            d.wf(),
            d.secs == millis / 1000,
            d.nanos == (millis % 1000) * 1_000_000,
    {
        Duration { secs: millis / 1000, nanos: ((millis % 1000) * 1_000_000) as u32 }
    }

    /// The span of `micros` microseconds.
    pub fn from_micros(micros: u64) -> (d: Duration)
        ensures
            d.wf(),
            d.secs == micros / 1_000_000,
            d.nanos == (micros % 1_000_000) * 1000,
    {
        Duration { secs: micros / 1_000_000, nanos: ((micros % 1_000_000) * 1000) as u32 }
    }
}

/// A character with the Unicode property White_Space, as `char::is_whitespace`
/// decides it.
pub open spec fn is_whitespace(c: char) -> bool {
    ||| ('\u{9}' <= c && c <= '\u{d}')
    ||| c == ' '
    ||| c == '\u{85}'
    ||| c == '\u{a0}'
    ||| c == '\u{1680}'
    ||| ('\u{2000}' <= c && c <= '\u{200a}')
    ||| c == '\u{2028}'
    ||| c == '\u{2029}'
    ||| c == '\u{202f}'
    ||| c == '\u{205f}'
    ||| c == '\u{3000}'
}

/// Whether `c` has the Unicode property White_Space.
pub fn char_is_whitespace(c: char) -> (b: bool)
    ensures
        b == is_whitespace(c),
{
    ('\u{9}' <= c && c <= '\u{d}') || c == ' ' || c == '\u{85}' || c == '\u{a0}' || c
        == '\u{1680}' || ('\u{2000}' <= c && c <= '\u{200a}') || c == '\u{2028}' || c
        == '\u{2029}' || c == '\u{202f}' || c == '\u{205f}' || c == '\u{3000}'
}

/// The number of characters at the start of `s` that are whitespace.
pub open spec fn leading_ws(s: Seq<char>) -> nat
    decreases s.len(),
{
    if s.len() > 0 && is_whitespace(s[0]) {
        1 + leading_ws(s.skip(1))
    } else {
        0
    }
}

/// The number of characters at the end of `s` that are whitespace.
pub open spec fn trailing_ws(s: Seq<char>) -> nat
    decreases s.len(),
{
    if s.len() > 0 && is_whitespace(s.last()) {
        1 + trailing_ws(s.drop_last())
    } else {
        0
    }
}

/// `s` without the whitespace at its start and at its end, as `str::trim`
/// leaves it.
pub open spec fn spec_trim(s: Seq<char>) -> Seq<char> {
    let t = s.skip(leading_ws(s) as int);
    t.take(t.len() - trailing_ws(t))
}

proof fn lemma_leading_ws(s: Seq<char>)
    ensures
        leading_ws(s) <= s.len(),
        forall|i: int| 0 <= i < leading_ws(s) ==> is_whitespace(#[trigger] s[i]),
        leading_ws(s) < s.len() ==> !is_whitespace(s[leading_ws(s) as int]),
    decreases s.len(),
{
    if s.len() > 0 && is_whitespace(s[0]) {
        lemma_leading_ws(s.skip(1));
        assert forall|i: int| 0 <= i < leading_ws(s) implies is_whitespace(#[trigger] s[i]) by {
            if i > 0 {
                assert(s[i] == s.skip(1)[i - 1]);
            }
        }
        if leading_ws(s) < s.len() {
            assert(s[leading_ws(s) as int] == s.skip(1)[leading_ws(s.skip(1)) as int]);
        }
    }
}

proof fn lemma_trailing_ws(s: Seq<char>)
    ensures
        trailing_ws(s) <= s.len(),
        forall|i: int| s.len() - trailing_ws(s) <= i < s.len() ==> is_whitespace(#[trigger] s[i]),
        trailing_ws(s) < s.len() ==> !is_whitespace(s[s.len() - trailing_ws(s) - 1]),
    decreases s.len(),
{
    if s.len() > 0 && is_whitespace(s.last()) {
        let t = s.drop_last();
        lemma_trailing_ws(t);
        assert forall|i: int| s.len() - trailing_ws(s) <= i < s.len() implies is_whitespace(
            #[trigger] s[i],
        ) by {
            if i < s.len() - 1 {
                assert(s[i] == t[i]);
            }
        }
        if trailing_ws(s) < s.len() {
            assert(s[s.len() - trailing_ws(s) - 1] == t[t.len() - trailing_ws(t) - 1]);
        }
    }
}

/// The characters of `s` without the whitespace at its start and its end.
pub fn trim(s: &str) -> (t: Vec<char>)
    ensures
        t@ == spec_trim(s@),
{
    let mut chars: Vec<char> = Vec::new();
    for c in it: s.chars()
        invariant
            it.seq() == s@,
            chars@ == s@.take(it.index() as int),
    {
        proof {
            assert(s@.take(it.index() + 1) =~= s@.take(it.index() as int).push(c));
        }
        chars.push(c);
    }
    proof {
        assert(s@.take(s@.len() as int) =~= s@);
        lemma_leading_ws(s@);
    }
    let n = chars.len();
    let mut start: usize = 0;
    while start < n && char_is_whitespace(chars[start])
        invariant
            chars@ == s@,
            n == s@.len(),
            start <= leading_ws(s@),
            forall|i: int| 0 <= i < leading_ws(s@) ==> is_whitespace(#[trigger] s@[i]),
            leading_ws(s@) < s@.len() ==> !is_whitespace(s@[leading_ws(s@) as int]),
            leading_ws(s@) <= s@.len(),
        decreases n - start,
    {
        start = start + 1;
    }
    let ghost u = s@.skip(start as int);
    proof {
        assert(start == leading_ws(s@));
        lemma_trailing_ws(u);
    }
    let mut end: usize = n;
    while end > start && char_is_whitespace(chars[end - 1])
        invariant
            chars@ == s@,
            n == s@.len(),
            start <= end <= n,
            u == s@.skip(start as int),
            n - end <= trailing_ws(u),
            forall|i: int| u.len() - trailing_ws(u) <= i < u.len() ==> is_whitespace(#[trigger] u[i]),
            trailing_ws(u) < u.len() ==> !is_whitespace(u[u.len() - trailing_ws(u) - 1]),
            trailing_ws(u) <= u.len(),
        decreases end,
    {
        proof {
            assert(chars@[end - 1] == u[end - 1 - start]);
        }
        end = end - 1;
    }
    proof {
        if end > start {
            assert(chars@[end - 1] == u[end - 1 - start]);
        }
        assert(n - end == trailing_ws(u));
    }
    let mut t: Vec<char> = Vec::new();
    let mut i = start;
    while i < end
        invariant
            chars@ == s@,
            start <= i <= end <= n,
            n == s@.len(),
            t@ == s@.subrange(start as int, i as int),
        decreases end - i,
    {
        t.push(chars[i]);
        proof {
            assert(s@.subrange(start as int, i + 1) =~= s@.subrange(start as int, i as int).push(
                s@[i as int],
            ));
        }
        i = i + 1;
    }
    proof {
        assert(t@ =~= spec_trim(s@));
    }
    t
}

/// An ASCII decimal digit.
pub open spec fn is_digit(c: char) -> bool {
    '0' <= c && c <= '9'
}

/// The value of an ASCII decimal digit.
pub open spec fn digit_value(c: char) -> nat {
    (c as int - '0' as int) as nat
}

/// The digit that writes `d`, for `d` below ten.
pub open spec fn digit_char(d: nat) -> char {
    (d + '0' as int) as char
}

/// The value of a string of decimal digits.
pub open spec fn decimal_value(s: Seq<char>) -> nat
    decreases s.len(),
{
    if s.len() == 0 {
        0
    } else {
        decimal_value(s.drop_last()) * 10 + digit_value(s.last())
    }
}

/// What a string of at least one ASCII digit is worth, if it fits in 64 bits.
pub open spec fn parse_digits(d: Seq<char>) -> Option<u64> {
    if d.len() > 0 && (forall|i: int| 0 <= i < d.len() ==> is_digit(#[trigger] d[i]))
        && decimal_value(d) <= u64::MAX {
        Some(decimal_value(d) as u64)
    } else {
        None
    }
}

/// What `u64::from_str` gives for `s`: an optional `+` followed by at least one
/// ASCII digit, with a value that fits in 64 bits.
pub open spec fn spec_parse_u64(s: Seq<char>) -> Option<u64> {
    if s.len() > 0 && s[0] == '+' {
        parse_digits(s.skip(1))
    } else {
        parse_digits(s)
    }
}

/// How `n` is written in decimal: its digits without leading zeros.
pub open spec fn decimal(n: nat) -> Seq<char>
    decreases n,
{
    if n < 10 {
        seq![digit_char(n)]
    } else {
        decimal(n / 10).push(digit_char(n % 10))
    }
}

proof fn lemma_digit_char(d: nat)
    requires
        d < 10,
    ensures
        is_digit(digit_char(d)),
        digit_value(digit_char(d)) == d,
{
}

proof fn lemma_decimal_value_prefix(s: Seq<char>, k: int)
    requires
        0 <= k <= s.len(),
    ensures
        decimal_value(s.take(k)) <= decimal_value(s),
    decreases s.len(),
{
    if k < s.len() {
        lemma_decimal_value_prefix(s.drop_last(), k);
        assert(s.drop_last().take(k) =~= s.take(k));
    } else {
        assert(s.take(k) =~= s);
    }
}

proof fn lemma_decimal(n: nat)
    ensures
        decimal(n).len() > 0,
        forall|i: int| 0 <= i < decimal(n).len() ==> is_digit(#[trigger] decimal(n)[i]),
        decimal_value(decimal(n)) == n,
    decreases n,
{
    if n < 10 {
        lemma_digit_char(n);
        assert(decimal(n).drop_last() =~= Seq::<char>::empty());
        assert(decimal(n).last() == digit_char(n));
        assert(decimal_value(Seq::<char>::empty()) == 0);
        assert(decimal_value(decimal(n)) == decimal_value(decimal(n).drop_last()) * 10
            + digit_value(decimal(n).last()));
    } else {
        lemma_decimal(n / 10);
        lemma_digit_char(n % 10);
        assert(decimal(n).drop_last() =~= decimal(n / 10));
        assert(decimal(n).last() == digit_char(n % 10));
        assert(decimal_value(decimal(n)) == decimal_value(decimal(n).drop_last()) * 10
            + digit_value(decimal(n).last()));
        assert(decimal_value(decimal(n)) == (n / 10) * 10 + n % 10);
        assert forall|i: int| 0 <= i < decimal(n).len() implies is_digit(#[trigger] decimal(n)[i]) by {
            if i < decimal(n).len() - 1 {
                assert(decimal(n)[i] == decimal(n / 10)[i]);
            }
        }
    }
}

/// The 64-bit number that the characters `s[lo..hi]` write, as `u64::from_str`
/// reads it.
pub fn parse_u64(s: &Vec<char>, lo: usize, hi: usize) -> (r: Option<u64>)
    requires
        lo <= hi <= s@.len(),
    ensures
        r == spec_parse_u64(s@.subrange(lo as int, hi as int)),
{
    let ghost whole = s@.subrange(lo as int, hi as int);
    let mut start = lo;
    if start < hi && s[start] == '+' {
        start = start + 1;
    }
    let ghost d = s@.subrange(start as int, hi as int);
    proof {
        if whole.len() > 0 && whole[0] == '+' {
            assert(d =~= whole.skip(1));
        } else {
            assert(d =~= whole);
        }
    }
    proof {
        assert(spec_parse_u64(whole) == parse_digits(d));
    }
    if start == hi {
        return None;
    }
    let mut value: u64 = 0;
    let mut i = start;
    while i < hi
        invariant
            lo <= start <= i <= hi <= s@.len(),
            d == s@.subrange(start as int, hi as int),
            spec_parse_u64(s@.subrange(lo as int, hi as int)) == parse_digits(d),
            forall|j: int| 0 <= j < i - start ==> is_digit(#[trigger] d[j]),
            value == decimal_value(d.take(i - start)),
        decreases hi - i,
    {
        let c = s[i];
        proof {
            assert(d.take(i - start + 1).drop_last() =~= d.take(i - start));
            assert(d[i - start] == c);
        }
        if !('0' <= c && c <= '9') {
            proof {
                assert(!is_digit(d[i - start]));
            }
            return None;
        }
        let digit = (c as u32 - '0' as u32) as u64;
        if value > (u64::MAX - digit) / 10 {
            proof {
                assert(decimal_value(d.take(i - start + 1)) == value * 10 + digit);
                assert(value * 10 + digit > u64::MAX) by (nonlinear_arith)
                    requires
                        value > (u64::MAX - digit) / 10,
                        digit <= 9,
                ;
                lemma_decimal_value_prefix(d, i - start + 1);
            }
            return None;
        }
        proof {
            assert(value * 10 + digit <= u64::MAX) by (nonlinear_arith)
                requires
                    value <= (u64::MAX - digit) / 10,
                    digit <= 9,
            ;
        }
        value = value * 10 + digit;
        i = i + 1;
    }
    proof {
        assert(d.take(d.len() as int) =~= d);
    }
    Some(value)
}

/// How `n` is written in decimal, as `u64::to_string` writes it.
pub fn u64_to_decimal(n: u64) -> (s: String)
    ensures
        s@ == decimal(n as nat),
{
    let mut q = n;
    let mut digits: Vec<char> = Vec::new();
    loop
        invariant_except_break
            q > 0 || digits@.len() == 0,
            q > 0 ==> decimal(n as nat) == decimal(q as nat) + digits@.reverse(),
            digits@.len() > 0 && q == 0 ==> decimal(n as nat) == digits@.reverse(),
            digits@.len() == 0 ==> q == n,
        ensures
            decimal(n as nat) == digits@.reverse(),
        decreases q,
    {
        let d = q % 10;
        proof {
            lemma_digit_char(d as nat);
        }
        let c = ((d as u32) + ('0' as u32)) as u8 as char;
        proof {
            assert(c == digit_char(d as nat));
        }
        let ghost before = digits@;
        digits.push(c);
        proof {
            assert(digits@.reverse() =~= seq![c] + before.reverse());
            if q >= 10 {
                assert(decimal(q as nat) == decimal((q / 10) as nat).push(c));
                assert(decimal(q as nat) + before.reverse() =~= decimal((q / 10) as nat) + (seq![
                    c,
                ] + before.reverse()));
            } else {
                assert(decimal(q as nat) == seq![c]);
            }
        }
        q = q / 10;
        if q == 0 {
            break;
        }
    }
    let mut s = String::new();
    let mut i = digits.len();
    while i > 0
        invariant
            i <= digits@.len(),
            s@ == digits@.reverse().take(digits@.len() - i),
            decimal(n as nat) == digits@.reverse(),
        decreases i,
    {
        i = i - 1;
        push_char(&mut s, digits[i]);
        proof {
            assert(digits@.reverse().take(digits@.len() - i) =~= digits@.reverse().take(
                digits@.len() - i - 1,
            ).push(digits@[i as int]));
        }
    }
    proof {
        assert(digits@.reverse().take(digits@.len() as int) =~= digits@.reverse());
    }
    s
}

/// The span of `v` milliseconds, as `Duration::from_millis` makes it.
pub open spec fn millis_duration(v: u64) -> Duration {
    Duration { secs: v / 1000, nanos: ((v % 1000) * 1_000_000) as u32 }
}

/// The span of `v` microseconds, as `Duration::from_micros` makes it.
pub open spec fn micros_duration(v: u64) -> Duration {
    Duration { secs: v / 1_000_000, nanos: ((v % 1_000_000) * 1000) as u32 }
}

/// The span of `v` seconds, as `Duration::from_secs` makes it.
pub open spec fn secs_duration(v: u64) -> Duration {
    Duration { secs: v, nanos: 0 }
}

/// `t` ends with the two characters `a` and `b`.
pub open spec fn ends_with2(t: Seq<char>, a: char, b: char) -> bool {
    t.len() >= 2 && t[t.len() - 2] == a && t[t.len() - 1] == b
}

/// The duration that a text gives, or the message that says why it gives none:
/// the trimmed text must be a number followed by `ms`, `us` or `s`.
pub open spec fn spec_parse_duration(s: Seq<char>) -> Result<Duration, Seq<char>> {
    let t = spec_trim(s);
    if ends_with2(t, 'm', 's') {
        match spec_parse_u64(t.take(t.len() - 2)) {
            Some(v) => Ok(millis_duration(v)),
            None => Err("Invalid millisecond number in '"@ + t + "'"@),
        }
    } else if ends_with2(t, 'u', 's') {
        match spec_parse_u64(t.take(t.len() - 2)) {
            Some(v) => Ok(micros_duration(v)),
            None => Err("Invalid microsecond number in '"@ + t + "'"@),
        }
    } else if t.len() >= 1 && t.last() == 's' {
        match spec_parse_u64(t.take(t.len() - 1)) {
            Some(v) => Ok(secs_duration(v)),
            None => Err("Invalid second number in '"@ + t + "'"@),
        }
    } else {
        Err("Invalid duration unit in '"@ + t + "'. Expected 's', 'ms', or 'us'"@)
    }
}

/// A result of parsing as a contract sees it.
pub open spec fn parse_outcome(r: Result<Duration, String>) -> Result<Duration, Seq<char>> {
    match r {
        Ok(d) => Ok(d),
        Err(e) => Err(e@),
    }
}

/// `prefix`, then the characters of `t`, then `suffix`.
fn quoted(prefix: &str, t: &Vec<char>, suffix: &str) -> (r: String)
    ensures
        r@ == prefix@ + t@ + suffix@,
{
    let mut r = String::from_str(prefix);
    let mut i: usize = 0;
    while i < t.len()
        invariant
            i <= t@.len(),
            r@ == prefix@ + t@.take(i as int),
        decreases t@.len() - i,
    {
        push_char(&mut r, t[i]);
        proof {
            assert(t@.take(i + 1) =~= t@.take(i as int).push(t@[i as int]));
            assert(prefix@ + t@.take(i + 1) =~= (prefix@ + t@.take(i as int)).push(t@[i as int]));
        }
        i = i + 1;
    }
    proof {
        assert(t@.take(t@.len() as int) =~= t@);
    }
    r.append(suffix);
    r
}

/// Reads a duration written as a number followed by `ms`, `us` or `s`, with
/// whitespace around it allowed.
pub fn parse_duration_str(s: &str) -> (r: Result<Duration, String>)
    ensures
        parse_outcome(r) == spec_parse_duration(s@),
        r matches Ok(d) ==> d.wf(),
{
    let t = trim(s);
    let n = t.len();
    if n >= 2 && t[n - 2] == 'm' && t[n - 1] == 's' {
        match parse_u64(&t, 0, n - 2) {
            Some(v) => {
                proof {
                    assert(t@.subrange(0, n - 2) =~= t@.take(n - 2));
                }
                Ok(Duration::from_millis(v))
            },
            None => {
                proof {
                    assert(t@.subrange(0, n - 2) =~= t@.take(n - 2));
                }
                Err(quoted("Invalid millisecond number in '", &t, "'"))
            },
        }
    } else if n >= 2 && t[n - 2] == 'u' && t[n - 1] == 's' {
        proof {
            assert(t@.subrange(0, n - 2) =~= t@.take(n - 2));
        }
        match parse_u64(&t, 0, n - 2) {
            Some(v) => Ok(Duration::from_micros(v)),
            None => Err(quoted("Invalid microsecond number in '", &t, "'")),
        }
    } else if n >= 1 && t[n - 1] == 's' {
        proof {
            assert(t@.subrange(0, n - 1) =~= t@.take(n - 1));
        }
        match parse_u64(&t, 0, n - 1) {
            Some(v) => Ok(Duration::from_secs(v)),
            None => Err(quoted("Invalid second number in '", &t, "'")),
        }
    } else {
        Err(quoted("Invalid duration unit in '", &t, "'. Expected 's', 'ms', or 'us'"))
    }
}

/// The duration can be written without overflow: as milliseconds where it is
/// a whole number of them, else as microseconds where it is a whole number of
/// those.
pub open spec fn serialize_fits(d: Duration) -> bool {
    &&& (d.nanos != 0 && d.nanos % 1_000_000 == 0) ==> d.secs * 1000 + d.nanos / 1_000_000
        <= u64::MAX
    &&& (d.nanos % 1_000_000 != 0 && d.nanos % 1000 == 0) ==> d.secs * 1_000_000 + d.nanos / 1000
        <= u64::MAX
}

/// How a duration is written: in seconds where it is a whole number of them,
/// else in milliseconds, else in microseconds; a duration with nanoseconds left
/// over has no such text.
pub open spec fn spec_serialize(d: Duration) -> Option<Seq<char>> {
    if d.nanos == 0 {
        Some(decimal(d.secs as nat).push('s'))
    } else if d.nanos % 1_000_000 == 0 {
        Some(decimal((d.secs * 1000 + d.nanos / 1_000_000) as nat) + seq!['m', 's'])
    } else if d.nanos % 1000 == 0 {
        Some(decimal((d.secs * 1_000_000 + d.nanos / 1000) as nat) + seq!['u', 's'])
    } else {
        None
    }
}

/// The text of a duration in whole seconds, milliseconds or microseconds, the
/// coarsest unit that writes it exactly. A duration with nanoseconds beyond
/// whole microseconds has none: it is written as fractional seconds instead.
pub fn serialize(d: &Duration) -> (r: Option<String>)
    requires
        serialize_fits(*d),
    ensures
        match r {
            Some(t) => spec_serialize(*d) == Some(t@),
            None => spec_serialize(*d) is None,
        },
{
    if d.nanos == 0 {
        let mut t = u64_to_decimal(d.secs);
        push_char(&mut t, 's');
        Some(t)
    } else if d.nanos % 1_000_000 == 0 {
        let millis = d.secs * 1_000 + (d.nanos / 1_000_000) as u64;
        let mut t = u64_to_decimal(millis);
        push_char(&mut t, 'm');
        push_char(&mut t, 's');
        proof {
            assert(t@ =~= decimal(millis as nat) + seq!['m', 's']);
        }
        Some(t)
    } else if d.nanos % 1_000 == 0 {
        let micros = d.secs * 1_000_000 + (d.nanos / 1_000) as u64;
        let mut t = u64_to_decimal(micros);
        push_char(&mut t, 'u');
        push_char(&mut t, 's');
        proof {
            assert(t@ =~= decimal(micros as nat) + seq!['u', 's']);
        }
        Some(t)
    } else {
        None
    }
}

proof fn lemma_trim_number_text(n: nat, unit: Seq<char>)
    requires
        1 <= unit.len() <= 2,
        unit.last() == 's',
        !is_whitespace(unit[0]),
    ensures
        spec_trim(decimal(n) + unit) == decimal(n) + unit,
        spec_parse_u64(decimal(n)) == (if n <= u64::MAX {
            Some(n as u64)
        } else {
            None::<u64>
        }),
{
    let t = decimal(n) + unit;
    lemma_decimal(n);
    assert(t[0] == decimal(n)[0]);
    assert(is_digit(t[0]));
    assert(leading_ws(t) == 0);
    assert(t.skip(0) =~= t);
    assert(t.last() == 's');
    assert(trailing_ws(t) == 0);
    assert(spec_trim(t) =~= t);
    assert(decimal(n)[0] != '+');
}

/// Reading the text that `serialize` writes for a duration gives back the
/// duration.
pub proof fn law_duration_text_round_trip(d: Duration)
    requires
        d.wf(),
        serialize_fits(d),
        spec_serialize(d) is Some,
    ensures
        spec_parse_duration(spec_serialize(d)->Some_0) == Ok::<Duration, Seq<char>>(d),
{
    let text = spec_serialize(d)->Some_0;
    if d.nanos == 0 {
        let v = d.secs as nat;
        lemma_trim_number_text(v, seq!['s']);
        assert(text =~= decimal(v) + seq!['s']);
        lemma_decimal(v);
        assert(!ends_with2(text, 'm', 's'));
        assert(!ends_with2(text, 'u', 's'));
        assert(text.take(text.len() - 1) =~= decimal(v));
    } else if d.nanos % 1_000_000 == 0 {
        let v = (d.secs * 1000 + d.nanos / 1_000_000) as nat;
        lemma_trim_number_text(v, seq!['m', 's']);
        assert(text.take(text.len() - 2) =~= decimal(v));
        let w = v as u64;
        assert(w / 1000 == d.secs && (w % 1000) * 1_000_000 == d.nanos) by (nonlinear_arith)
            requires
                w == d.secs * 1000 + d.nanos / 1_000_000,
                d.nanos < 1_000_000_000,
                d.nanos % 1_000_000 == 0,
        ;
    } else {
        let v = (d.secs * 1_000_000 + d.nanos / 1000) as nat;
        lemma_trim_number_text(v, seq!['u', 's']);
        assert(text.take(text.len() - 2) =~= decimal(v));
        let w = v as u64;
        assert(w / 1_000_000 == d.secs && (w % 1_000_000) * 1000 == d.nanos) by (nonlinear_arith)
            requires
                w == d.secs * 1_000_000 + d.nanos / 1000,
                d.nanos < 1_000_000_000,
                d.nanos % 1000 == 0,
        ;
    }
}

} // verus!
