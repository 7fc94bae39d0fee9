//! Character-level facts about validated text and the checks that decide them.

use vstd::prelude::*;
use vstd::string::StringExecFns;
use vstd::utf8::encode_utf8;

verus! {

/// Number of bytes in the UTF-8 encoding of a character sequence.
pub open spec fn utf8_len(s: Seq<char>) -> nat {
    encode_utf8(s).len()
}

/// Whether a character sequence holds the NUL character.
pub open spec fn has_nul(s: Seq<char>) -> bool {
    exists|i: int| 0 <= i < s.len() && s[i] == '\0'
}

/// Unicode general category `Cc`: the C0 and C1 control blocks and DEL.
pub open spec fn is_control_char(c: char) -> bool {
    (c as u32) <= 0x1f || (0x7f <= (c as u32) && (c as u32) <= 0x9f)
}

/// Whether a character sequence holds a Unicode control character.
pub open spec fn has_control(s: Seq<char>) -> bool {
    exists|i: int| 0 <= i < s.len() && is_control_char(s[i])
}

/// The Unicode `White_Space` property, which `str::trim` strips.
pub open spec fn is_unicode_whitespace(c: char) -> bool {
    let v = c as u32;
    ||| (0x09 <= v && v <= 0x0d)
    ||| v == 0x20
    ||| v == 0x85
    ||| v == 0xa0
    ||| v == 0x1680
    ||| (0x2000 <= v && v <= 0x200a)
    ||| v == 0x2028
    ||| v == 0x2029
    ||| v == 0x202f
    ||| v == 0x205f
    ||| v == 0x3000
}

/// Whether trimming whitespace would change a non-empty character sequence.
pub open spec fn has_edge_whitespace(s: Seq<char>) -> bool {
    s.len() > 0 && (is_unicode_whitespace(s[0]) || is_unicode_whitespace(s[s.len() - 1]))
}

/// Visible ASCII: `!` through `~`.
pub open spec fn is_ascii_graphic(c: char) -> bool {
    0x21 <= (c as u32) && (c as u32) <= 0x7e
}

/// ASCII letters and digits.
pub open spec fn is_ascii_alphanumeric(c: char) -> bool {
    ('0' <= c && c <= '9') || ('A' <= c && c <= 'Z') || ('a' <= c && c <= 'z')
}

/// Whether every character satisfies `p`.
pub open spec fn all_chars(s: Seq<char>, p: spec_fn(char) -> bool) -> bool {
    forall|i: int| 0 <= i < s.len() ==> p(#[trigger] s[i])
}

/// Byte length of the UTF-8 encoding of `value`.
pub fn utf8_byte_len(value: &str) -> (n: usize)
    ensures
        n == utf8_len(value@),
{
    let bytes = value.as_bytes();
    bytes.len()
}

/// Reports whether `value` contains a NUL character.
pub fn contains_nul(value: &str) -> (res: bool)
    ensures
        res == has_nul(value@),
{
    let mut found = false;
    for c in it: value.chars()
        invariant
            it.seq() == value@,
            found == (exists|j: int| 0 <= j < it.index() && value@[j] == '\0'),
    {
        if c == '\0' {
            found = true;
        }
    }
    found
}

/// Exec form of [`is_control_char`].
pub fn char_is_control(c: char) -> (res: bool)
    ensures
        res == is_control_char(c),
{
    let v = c as u32;
    v <= 0x1f || (0x7f <= v && v <= 0x9f)
}

/// Exec form of [`is_unicode_whitespace`].
pub fn char_is_whitespace(c: char) -> (res: bool)
    ensures
        res == is_unicode_whitespace(c),
{
    let v = c as u32;
    (0x09 <= v && v <= 0x0d) || v == 0x20 || v == 0x85 || v == 0xa0 || v == 0x1680 || (0x2000
        <= v && v <= 0x200a) || v == 0x2028 || v == 0x2029 || v == 0x202f || v == 0x205f || v
        == 0x3000
}

/// Exec form of [`is_ascii_graphic`].
pub fn char_is_ascii_graphic(c: char) -> (res: bool)
    ensures
        res == is_ascii_graphic(c),
{
    let v = c as u32;
    0x21 <= v && v <= 0x7e
}

/// Exec form of [`is_ascii_alphanumeric`].
pub fn char_is_ascii_alphanumeric(c: char) -> (res: bool)
    ensures
        res == is_ascii_alphanumeric(c),
{
    ('0' <= c && c <= '9') || ('A' <= c && c <= 'Z') || ('a' <= c && c <= 'z')
}

/// Reports whether `value` contains a Unicode control character.
pub fn contains_control(value: &str) -> (res: bool)
    ensures
        res == has_control(value@),
{
    let mut found = false;
    for c in it: value.chars()
        invariant
            it.seq() == value@,
            found == (exists|j: int| 0 <= j < it.index() && is_control_char(value@[j])),
    {
        if char_is_control(c) {
            found = true;
        }
    }
    found
}

/// Reports whether every character of `value` is visible ASCII.
pub fn all_ascii_graphic(value: &str) -> (res: bool)
    ensures
        res == all_chars(value@, |c: char| is_ascii_graphic(c)),
{
    let mut ok = true;
    for c in it: value.chars()
        invariant
            it.seq() == value@,
            ok == (forall|j: int| 0 <= j < it.index() ==> is_ascii_graphic(#[trigger] value@[j])),
    {
        if !char_is_ascii_graphic(c) {
            ok = false;
        }
    }
    ok
}

/// Reports whether the first or last character of `value` is whitespace.
pub fn edge_whitespace(value: &str) -> (res: bool)
    ensures
        res == has_edge_whitespace(value@),
{
    let mut first = true;
    let mut last = false;
    let mut found_first = false;
    for c in it: value.chars()
        invariant
            it.seq() == value@,
            first == (it.index() == 0),
            it.index() > 0 ==> found_first == is_unicode_whitespace(value@[0]),
            it.index() > 0 ==> last == is_unicode_whitespace(value@[it.index() - 1]),
    {
        let w = char_is_whitespace(c);
        if first {
            found_first = w;
            first = false;
        }
        last = w;
    }
    !value.is_empty() && (found_first || last)
}

/// Collects the characters of `value` in order.
pub fn chars_of(value: &str) -> (res: Vec<char>)
    ensures
        res@ == value@,
{
    let mut out: Vec<char> = Vec::new();
    for c in it: value.chars()
        invariant
            it.seq() == value@,
            out@ == value@.take(it.index() as int),
    {
        out.push(c);
    }
    assert(value@.take(value@.len() as int) =~= value@);
    out
}

/// Reports whether two strings hold the same characters.
pub fn str_equals(a: &str, b: &str) -> (res: bool)
    ensures
        res == (a@ == b@),
{
    let x = chars_of(a);
    let y = chars_of(b);
    if x.len() != y.len() {
        return false;
    }
    let mut i: usize = 0;
    while i < x.len()
        invariant
            x@ == a@,
            y@ == b@,
            x@.len() == y@.len(),
            i <= x@.len(),
            forall|j: int| 0 <= j < i ==> x@[j] == y@[j],
        decreases x@.len() - i,
    {
        if x[i] != y[i] {
            return false;
        }
        i = i + 1;
    }
    assert(a@ =~= b@);
    true
}

/// The decimal digit character of `d`.
pub open spec fn digit_char(d: nat) -> char {
    ((d + 48) as u32) as char
}

/// The decimal text of `n`, without leading zeros.
pub open spec fn decimal_text(n: nat) -> Seq<char>
    decreases n,
{
    if n < 10 {
        seq![digit_char(n)]
    } else {
        decimal_text(n / 10).push(digit_char(n % 10))
    }
}

/// Ten to the power `k`.
pub open spec fn pow10(k: nat) -> nat
    decreases k,
{
    if k == 0 {
        1
    } else {
        10 * pow10((k - 1) as nat)
    }
}

/// A decimal text is non-empty, made of the digits `0` to `9`, and no longer
/// than `k` characters when its value is below ten to the power `k`.
pub proof fn lemma_decimal_text_shape(n: nat, k: nat)
    requires
        k >= 1,
        n < pow10(k),
    ensures
        1 <= decimal_text(n).len() <= k,
        forall|i: int| 0 <= i < decimal_text(n).len() ==> '0' <= #[trigger] decimal_text(n)[i] <= '9',
    decreases n,
{
    if n < 10 {
        assert(decimal_text(n) == seq![digit_char(n)]);
    } else {
        assert(k >= 2) by {
            if k == 1 {
                assert(pow10(1) == 10 * pow10(0));
            }
        }
        assert(pow10(k) == 10 * pow10((k - 1) as nat));
        assert(n / 10 < pow10((k - 1) as nat));
        lemma_decimal_text_shape(n / 10, (k - 1) as nat);
        let d = decimal_text(n / 10);
        assert(decimal_text(n) == d.push(digit_char(n % 10)));
        assert forall|i: int| 0 <= i < decimal_text(n).len() implies '0' <= #[trigger] decimal_text(n)[i] <= '9' by {
            if i < d.len() {
                assert(decimal_text(n)[i] == d[i]);
            }
        }
    }
}

/// The decimal text of a 64-bit value has at most twenty digits.
pub proof fn lemma_u64_decimal_text(n: u64)
    ensures
        1 <= decimal_text(n as nat).len() <= 20,
        forall|i: int| 0 <= i < decimal_text(n as nat).len() ==> '0' <= #[trigger] decimal_text(n as nat)[i] <= '9',
{
    reveal_with_fuel(pow10, 21);
    assert(pow10(20) == 100000000000000000000nat);
    lemma_decimal_text_shape(n as nat, 20);
}

/// The one-character text of decimal digit `d`.
fn digit_text(d: u64) -> (res: &'static str)
    requires
        d < 10,
    ensures
        res@ == seq![digit_char(d as nat)],
{
    proof {
        reveal_strlit("0");
        reveal_strlit("1");
        reveal_strlit("2");
        reveal_strlit("3");
        reveal_strlit("4");
        reveal_strlit("5");
        reveal_strlit("6");
        reveal_strlit("7");
        reveal_strlit("8");
        reveal_strlit("9");
    }
    match d {
        0 => "0",
        1 => "1",
        2 => "2",
        3 => "3",
        4 => "4",
        5 => "5",
        6 => "6",
        7 => "7",
        8 => "8",
        _ => "9",
    }
}

/// Appends the decimal text of `n` to `out`.
pub fn append_decimal(out: &mut String, n: u64)
    ensures
        final(out)@ == old(out)@ + decimal_text(n as nat),
    decreases n,
{
    if n < 10 {
        out.append(digit_text(n));
    } else {
        append_decimal(out, n / 10);
        out.append(digit_text(n % 10));
        proof {
            assert(decimal_text(n as nat) == decimal_text((n / 10) as nat).push(digit_char((n % 10) as nat)));
        }
    }
}

/// The text `prefix` followed by the decimal text of `n`.
pub fn prefixed_decimal(prefix: &str, n: u64) -> (res: String)
    ensures
        res@ == prefix@ + decimal_text(n as nat),
{
    let mut out = String::from_str(prefix);
    append_decimal(&mut out, n);
    out
}

/// The position of the first `c` in `s`, if any.
pub open spec fn first_index_of(s: Seq<char>, c: char) -> Option<int>
    decreases s.len(),
{
    if s.len() == 0 {
        None
    } else if s[0] == c {
        Some(0)
    } else {
        match first_index_of(s.drop_first(), c) {
            Some(i) => Some(i + 1),
            None => None,
        }
    }
}

/// A found position lies inside the text and holds the character.
pub proof fn lemma_first_index_in_range(s: Seq<char>, c: char)
    ensures
        first_index_of(s, c) matches Some(i) ==> 0 <= i < s.len() && s[i] == c,
    decreases s.len(),
{
    if s.len() > 0 && s[0] != c {
        lemma_first_index_in_range(s.drop_first(), c);
    }
}

/// When no `c` precedes position `i`, the first `c` is at `i` if `s[i]` is
/// one, and there is none when `i` is the end.
pub proof fn lemma_first_index(s: Seq<char>, c: char, i: int)
    requires
        0 <= i <= s.len(),
        forall|j: int| 0 <= j < i ==> s[j] != c,
    ensures
        i < s.len() && s[i] == c ==> first_index_of(s, c) == Some(i),
        i == s.len() ==> first_index_of(s, c) is None,
    decreases s.len(),
{
    if s.len() > 0 && i > 0 {
        assert forall|j: int| 0 <= j < i - 1 implies s.drop_first()[j] != c by {
            assert(s.drop_first()[j] == s[j + 1]);
        }
        lemma_first_index(s.drop_first(), c, i - 1);
        if i < s.len() {
            assert(s.drop_first()[i - 1] == s[i]);
        }
    }
}

/// Returns the position of the first `c` in `s`, if any.
pub fn first_index(s: &str, c: char) -> (res: Option<usize>)
    ensures
        res matches Some(i) ==> first_index_of(s@, c) == Some(i as int),
        res is None ==> first_index_of(s@, c) is None,
{
    let cs = chars_of(s);
    let mut i: usize = 0;
    while i < cs.len()
        invariant
            cs@ == s@,
            i <= cs.len(),
            forall|j: int| 0 <= j < i ==> s@[j] != c,
        decreases cs.len() - i,
    {
        if cs[i] == c {
            proof {
                lemma_first_index(s@, c, i as int);
            }
            return Some(i);
        }
        i = i + 1;
    }
    proof {
        lemma_first_index(s@, c, i as int);
    }
    None
}

} // verus!
