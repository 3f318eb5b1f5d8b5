use crate::error::Error;
use vstd::prelude::*;

verus! {

/// Whether `c`, a character beyond ASCII, is alphabetic or numeric in the
/// sense of Unicode, as `char::is_alphanumeric` decides it.
pub uninterp spec fn unicode_alphanumeric(c: char) -> bool;

/// An ASCII letter or digit.
pub open spec fn is_ascii_alphanumeric(c: char) -> bool {
    ||| ('0' <= c && c <= '9')
    ||| ('a' <= c && c <= 'z')
    ||| ('A' <= c && c <= 'Z')
}

/// Whether `c` is alphabetic or numeric, as `char::is_alphanumeric` decides
/// it: among ASCII characters exactly the letters and digits, beyond ASCII by
/// the Unicode tables.
pub open spec fn is_alphanumeric_char(c: char) -> bool {
    if (c as u32) < 128 {
        is_ascii_alphanumeric(c)
    } else {
        unicode_alphanumeric(c)
    }
}

/// `char::is_alphanumeric`: whether the character is Unicode `Alphabetic` or
/// numeric. Among ASCII characters these are exactly `A`-`Z`, `a`-`z` and
/// `0`-`9`; beyond ASCII the result is named, the Unicode tables being far
/// longer than a contract.
#[verifier::external_body]
fn char_is_alphanumeric(c: char) -> (b: bool)
    ensures
        b == is_alphanumeric_char(c),
        (c as u32) >= 128 ==> b == unicode_alphanumeric(c),
{
    c.is_alphanumeric()
}

/// `str == str`: the two strings hold the same characters.
#[verifier::external_body]
pub(crate) fn str_eq(a: &str, b: &str) -> (r: bool)
    ensures
        r == (a@ == b@),
{
    a == b
}

/// `String::push`: appends one character.
#[verifier::external_body]
pub(crate) fn push_char(s: &mut String, c: char)
    ensures
        final(s)@ == old(s)@.push(c),
{
    s.push(c)
}

/// A character that may stand in an identifier.
pub open spec fn is_ident_char(c: char) -> bool {
    is_alphanumeric_char(c) || c == '_'
}

/// An identifier: every character is alphanumeric or an underscore.
pub open spec fn spec_is_valid_ident(s: Seq<char>) -> bool {
    forall|i: int| 0 <= i < s.len() ==> is_ident_char(#[trigger] s[i])
}

/// Whether every character of `i` is alphanumeric or an underscore.
pub fn is_valid_ident(i: &str) -> (b: bool)
    ensures
        b == spec_is_valid_ident(i@),
{
    let mut ok = true;
    for c in it: i.chars()
        invariant
            it.seq() == i@,
            ok == (forall|j: int| 0 <= j < it.index() ==> is_ident_char(#[trigger] i@[j])),
    {
        if !(char_is_alphanumeric(c) || c == '_') {
            ok = false;
        }
    }
    ok
}

/// How one character is written in a `LIKE` pattern: a backslash, a percent
/// sign and an underscore are escaped with a backslash.
pub open spec fn escape_like_char(c: char) -> Seq<char> {
    if c == '\\' || c == '%' || c == '_' {
        seq!['\\', c]
    } else {
        seq![c]
    }
}

/// A text with every character escaped for a `LIKE` pattern.
pub open spec fn escape_like(s: Seq<char>) -> Seq<char>
    decreases s.len(),
{
    if s.len() == 0 {
        Seq::empty()
    } else {
        escape_like(s.drop_last()) + escape_like_char(s.last())
    }
}

/// The `LIKE` pattern that matches every text containing `query` literally:
/// the escaped query between two percent signs.
pub fn escape_like_pattern(query: &str) -> (p: String)
    ensures
        p@ == seq!['%'] + escape_like(query@) + seq!['%'],
{
    let mut out = String::new();
    push_char(&mut out, '%');
    for c in it: query.chars()
        invariant
            it.seq() == query@,
            0 <= it.index() <= query@.len(),
            out@ == seq!['%'] + escape_like(query@.take(it.index() as int)),
    {
        proof {
            let k = it.index() as int;
            assert(query@.take(k + 1).drop_last() =~= query@.take(k));
            assert(query@.take(k + 1).last() == c);
        }
        if c == '\\' || c == '%' || c == '_' {
            push_char(&mut out, '\\');
        }
        push_char(&mut out, c);
    }
    proof {
        assert(query@.take(query@.len() as int) =~= query@);
    }
    push_char(&mut out, '%');
    out
}

/// How a `LIKE` pattern text reads character by character: a backslash takes
/// the next character literally.
pub open spec fn unescape_like(s: Seq<char>) -> Seq<char>
    decreases s.len(),
{
    if s.len() == 0 {
        Seq::empty()
    } else if s[0] == '\\' && s.len() >= 2 {
        seq![s[1]] + unescape_like(s.skip(2))
    } else {
        seq![s[0]] + unescape_like(s.skip(1))
    }
}

/// A `LIKE` pattern text without a wildcard: every `%` and `_` is escaped, and
/// no backslash stands alone at the end.
pub open spec fn no_wildcards(s: Seq<char>) -> bool
    decreases s.len(),
{
    if s.len() == 0 {
        true
    } else if s[0] == '\\' {
        s.len() >= 2 && no_wildcards(s.skip(2))
    } else {
        s[0] != '%' && s[0] != '_' && no_wildcards(s.skip(1))
    }
}

proof fn lemma_escape_like_cons(c: char, r: Seq<char>)
    ensures
        escape_like(seq![c] + r) == escape_like_char(c) + escape_like(r),
    decreases r.len(),
{
    if r.len() == 0 {
        assert(seq![c] + r =~= seq![c]);
        assert(seq![c].drop_last() =~= Seq::<char>::empty());
        assert(escape_like(Seq::<char>::empty()) == Seq::<char>::empty());
        assert(escape_like_char(c) + escape_like(r) =~= escape_like_char(c));
        assert(escape_like(seq![c]) =~= escape_like(Seq::<char>::empty()) + escape_like_char(c));
    } else {
        lemma_escape_like_cons(c, r.drop_last());
        assert((seq![c] + r).drop_last() =~= seq![c] + r.drop_last());
        assert((seq![c] + r).last() == r.last());
        assert(escape_like(seq![c] + r) =~= escape_like_char(c) + escape_like(r));
    }
}

/// The pattern that `escape_like_pattern` makes reads back, between its two
/// percent signs, as the query itself, and holds no wildcard of its own.
pub proof fn law_escape_like_reads_back(q: Seq<char>)
    ensures
        unescape_like(escape_like(q)) == q,
        no_wildcards(escape_like(q)),
    decreases q.len(),
{
    if q.len() == 0 {
        assert(escape_like(q) =~= Seq::<char>::empty());
        assert(q =~= Seq::<char>::empty());
    } else {
        let c = q[0];
        let r = q.skip(1);
        assert(q =~= seq![c] + r);
        lemma_escape_like_cons(c, r);
        law_escape_like_reads_back(r);
        let x = escape_like(r);
        let e = escape_like_char(c) + x;
        if c == '\\' || c == '%' || c == '_' {
            assert(e[0] == '\\' && e[1] == c);
            assert(e.skip(2) =~= x);
        } else {
            assert(e[0] == c);
            assert(e.skip(1) =~= x);
        }
        assert(unescape_like(e) =~= seq![c] + r);
    }
}

/// Checks that a request for `length` items stays within the configured
/// `limit`.
pub fn validate_item_length(length: u32, limit: u32) -> (r: Result<(), Error>)
    ensures
        r is Ok <==> length <= limit,
        r matches Err(e) ==> e.is(crate::error::ErrorCode::InvalidFormat, "Item length exceeds limit"@),
{
    if length > limit {
        return Err(Error::invalid_format("Item length exceeds limit"));
    }
    Ok(())
}

/// A character of the URL-safe alphabet of unique ids: an ASCII letter or
/// digit, `_` or `-`.
pub open spec fn is_safe_id_char(c: char) -> bool {
    ||| c == '_'
    ||| c == '-'
    ||| ('0' <= c && c <= '9')
    ||| ('a' <= c && c <= 'z')
    ||| ('A' <= c && c <= 'Z')
}

/// `nanoid::format` over the URL-safe alphabet with the default random source:
/// `size` characters, each drawn from that alphabet. A size of zero is left
/// out: the source draws no random bytes then and never returns.
#[verifier::external_body]
fn nanoid_safe(size: usize) -> (id: String)
    requires
        size > 0,
    ensures
        id@.len() == size,
        forall|i: int| 0 <= i < id@.len() ==> is_safe_id_char(#[trigger] id@[i]),
{
    nanoid::format(nanoid::rngs::default, &nanoid::alphabet::SAFE, size)
}

/// A new random unique id of 16 characters from the URL-safe alphabet.
///
/// If 1000 ids were generated every second, it would take about 1000 years to
/// reach a 1% chance of a collision.
pub fn generate_unique_id() -> (id: String)
    ensures
        id@.len() == 16,
        forall|i: int| 0 <= i < id@.len() ==> is_safe_id_char(#[trigger] id@[i]),
{
    nanoid_safe(16)
}

} // verus!
