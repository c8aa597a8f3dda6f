use vstd::prelude::*;

verus! {

/// Appends one character to a string.
///
/// Trusted: calls `String::push` from std, whose documentation says that it
/// appends the given `char` to the end of the string.
#[verifier::external_body]
pub(crate) fn push_char(s: &mut String, c: char)
    ensures
        final(s)@ == old(s)@.push(c),
{
    s.push(c);
}

/// The character of a decimal digit.
pub open spec fn digit_char(d: nat) -> char {
    (d + 48) as char
}

/// The decimal digits of a natural number, most significant first, without
/// leading zeros (`0` is written `0`).
pub open spec fn decimal(n: nat) -> Seq<char>
    decreases n,
{
    if n < 10 {
        seq![digit_char(n)]
    } else {
        decimal(n / 10).push(digit_char(n % 10))
    }
}

/// The decimal writing of an integer, with a leading `-` when it is
/// negative.
pub open spec fn signed_decimal(n: int) -> Seq<char> {
    if n < 0 {
        seq!['-'] + decimal((-n) as nat)
    } else {
        decimal(n as nat)
    }
}

/// Whether `c` is one of the digits `0` to `9`.
pub open spec fn is_digit(c: char) -> bool {
    '0' <= c <= '9'
}

/// The number that a string of decimal digits stands for.
pub open spec fn digits_value(s: Seq<char>) -> nat
    decreases s.len(),
{
    if s.len() == 0 {
        0
    } else {
        digits_value(s.drop_last()) * 10 + (s.last() as nat - 48) as nat
    }
}

/// The decimal writing of a number is a non-empty string of digits that
/// reads back as the number.
pub proof fn lemma_decimal_reads_back(n: nat)
    ensures
        decimal(n).len() >= 1,
        forall|i: int| 0 <= i < decimal(n).len() ==> is_digit(#[trigger] decimal(n)[i]),
        digits_value(decimal(n)) == n,
    decreases n,
{
    if n >= 10 {
        lemma_decimal_reads_back(n / 10);
        let d = decimal(n);
        assert(d.drop_last() =~= decimal(n / 10));
        assert(d.last() == digit_char(n % 10));
        assert(digit_char(n % 10) as nat == n % 10 + 48);
        assert(digits_value(d) == digits_value(decimal(n / 10)) * 10 + n % 10);
        assert forall|i: int| 0 <= i < d.len() implies is_digit(#[trigger] d[i]) by {
            if i < d.len() - 1 {
                assert(d[i] == decimal(n / 10)[i]);
            }
        }
    } else {
        assert(decimal(n) =~= seq![digit_char(n)]);
        assert(seq![digit_char(n)].drop_last() =~= Seq::<char>::empty());
        assert(digit_char(n) as nat == n + 48);
        assert(digits_value(seq![digit_char(n)]) == digits_value(Seq::<char>::empty()) * 10 + n);
    }
}

/// Different numbers have different decimal writings.
pub proof fn lemma_decimal_injective(a: nat, b: nat)
    requires
        decimal(a) == decimal(b),
    ensures
        a == b,
{
    lemma_decimal_reads_back(a);
    lemma_decimal_reads_back(b);
}

/// A string of digits followed by text that starts with something other
/// than a digit splits in only one way.
pub proof fn lemma_digits_split(a: Seq<char>, s: Seq<char>, b: Seq<char>, t: Seq<char>)
    requires
        forall|i: int| 0 <= i < a.len() ==> is_digit(#[trigger] a[i]),
        forall|i: int| 0 <= i < b.len() ==> is_digit(#[trigger] b[i]),
        s.len() > 0 ==> !is_digit(s[0]),
        t.len() > 0 ==> !is_digit(t[0]),
        a + s == b + t,
    ensures
        a == b,
        s == t,
{
    if a.len() < b.len() {
        if s.len() > 0 {
            assert((a + s)[a.len() as int] == s[0]);
            assert((b + t)[a.len() as int] == b[a.len() as int]);
        } else {
            assert((a + s).len() < (b + t).len());
        }
    } else if b.len() < a.len() {
        if t.len() > 0 {
            assert((b + t)[b.len() as int] == t[0]);
            assert((a + s)[b.len() as int] == a[b.len() as int]);
        } else {
            assert((a + s).len() > (b + t).len());
        }
    }
    assert(a =~= (a + s).subrange(0, a.len() as int));
    assert(b =~= (b + t).subrange(0, b.len() as int));
    assert(s =~= (a + s).subrange(a.len() as int, (a + s).len() as int));
    assert(t =~= (b + t).subrange(b.len() as int, (b + t).len() as int));
}

/// Numbers written in decimal and followed by text that does not start
/// with a digit: equal writings have equal numbers and equal rests.
pub proof fn lemma_decimal_then_text(a: nat, s: Seq<char>, b: nat, t: Seq<char>)
    requires
        s.len() > 0 ==> !is_digit(s[0]),
        t.len() > 0 ==> !is_digit(t[0]),
        decimal(a) + s == decimal(b) + t,
    ensures
        a == b,
        s == t,
{
    lemma_decimal_reads_back(a);
    lemma_decimal_reads_back(b);
    lemma_digits_split(decimal(a), s, decimal(b), t);
    lemma_decimal_injective(a, b);
}

/// A common beginning can be taken off both sides of an equality.
pub proof fn lemma_cancel_prefix(p: Seq<char>, s: Seq<char>, t: Seq<char>)
    requires
        p + s == p + t,
    ensures
        s == t,
{
    assert(s =~= (p + s).subrange(p.len() as int, (p + s).len() as int));
    assert(t =~= (p + t).subrange(p.len() as int, (p + t).len() as int));
}

/// Appends the decimal digits of `n`.
pub fn append_decimal(s: &mut String, n: u128)
    ensures
        final(s)@ == old(s)@ + decimal(n as nat),
    decreases n,
{
    if n >= 10 {
        append_decimal(s, n / 10);
    }
    let d = (n % 10) as u8;
    push_char(s, (d + 48) as char);
    assert(n >= 10 ==> decimal(n as nat) == decimal((n / 10) as nat).push(digit_char((n % 10) as nat)));
}

/// Appends the decimal writing of a signed integer.
pub fn append_signed_decimal(s: &mut String, n: i64)
    ensures
        final(s)@ == old(s)@ + signed_decimal(n as int),
{
    if n < 0 {
        push_char(s, '-');
        let magnitude: u128 = (0i128 - n as i128) as u128;
        append_decimal(s, magnitude);
        assert(final(s)@ =~= old(s)@ + signed_decimal(n as int));
    } else {
        append_decimal(s, n as u128);
    }
}

/// Appends a string slice.
pub fn append_str(s: &mut String, t: &str)
    ensures
        final(s)@ == old(s)@ + t@,
{
    s.append(t);
}

/// A string holding the given slice.
pub fn owned(t: &str) -> (s: String)
    ensures
        s@ == t@,
{
    t.to_owned()
}

/// Whether two string slices hold the same characters.
pub fn same_text(a: &str, b: &str) -> (r: bool)
    ensures
        r == (a@ == b@),
{
    a.to_owned() == b.to_owned()
}

/// `unit` repeated `count` times.
pub open spec fn repeated(unit: Seq<char>, count: nat) -> Seq<char>
    decreases count,
{
    if count == 0 {
        seq![]
    } else {
        repeated(unit, (count - 1) as nat) + unit
    }
}

/// `unit` repeated `count` times.
pub fn repeat_str(unit: &str, count: usize) -> (s: String)
    ensures
        s@ == repeated(unit@, count as nat),
{
    let mut s = String::new();
    let mut i: usize = 0;
    while i < count
        invariant
            i <= count,
            s@ == repeated(unit@, i as nat),
        decreases count - i,
    {
        append_str(&mut s, unit);
        i = i + 1;
    }
    s
}

/// The strings of `parts` joined, with `sep` between each two neighbours.
pub open spec fn joined(parts: Seq<Seq<char>>, sep: Seq<char>) -> Seq<char>
    decreases parts.len(),
{
    if parts.len() == 0 {
        seq![]
    } else if parts.len() == 1 {
        parts[0]
    } else {
        joined(parts.drop_last(), sep) + sep + parts.last()
    }
}

/// The views of a vector of strings.
pub open spec fn views(v: Seq<String>) -> Seq<Seq<char>> {
    v.map_values(|s: String| s@)
}

/// Joins strings with a separator between each two neighbours.
pub fn join(parts: &Vec<String>, sep: &str) -> (s: String)
    ensures
        s@ == joined(views(parts@), sep@),
{
    let mut s = String::new();
    let mut i: usize = 0;
    while i < parts.len()
        invariant
            i <= parts.len(),
            s@ == joined(views(parts@.take(i as int)), sep@),
        decreases parts.len() - i,
    {
        let ghost before = parts@.take(i as int);
        if i > 0 {
            append_str(&mut s, sep);
        }
        append_str(&mut s, parts[i].as_str());
        let ghost after = parts@.take(i + 1);
        assert(views(after).drop_last() =~= views(before));
        assert(views(after).last() == parts@[i as int]@);
        i = i + 1;
    }
    assert(parts@.take(parts.len() as int) =~= parts@);
    s
}

/// What `String::from_utf8_lossy` makes of a byte sequence: the text it
/// holds as UTF-8, with each invalid sequence replaced by U+FFFD.
pub uninterp spec fn lossy_utf8(bytes: Seq<u8>) -> Seq<char>;

/// Reads bytes as UTF-8 text, replacing invalid sequences.
///
/// Trusted: calls `String::from_utf8_lossy` from std. Its result depends on
/// the bytes alone, and is named `lossy_utf8`. Stated besides: bytes that
/// are valid UTF-8 are read as the text they encode, as std documents;
/// how invalid sequences are replaced is not stated.
#[verifier::external_body]
pub(crate) fn utf8_lossy(bytes: &[u8]) -> (s: String)
    ensures
        s@ == lossy_utf8(bytes@),
        vstd::utf8::valid_utf8(bytes@) ==> s@ == vstd::utf8::decode_utf8(bytes@),
{
    String::from_utf8_lossy(bytes).into_owned()
}

} // verus!
